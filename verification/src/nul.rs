//! The byte-level model of the terminated-string invariant, the scan
//! that checks it, and the laws that govern validation outcomes.

use vstd::prelude::*;

verus! {

/// No byte of `b` is the NUL byte.
pub open spec fn nul_free(b: Seq<u8>) -> bool {
    forall|i: int| 0 <= i < b.len() ==> b[i] != 0
}

/// `i` is the position of the first NUL byte of `b`.
pub open spec fn is_first_nul(b: Seq<u8>, i: int) -> bool {
    &&& 0 <= i < b.len()
    &&& b[i] == 0
    &&& nul_free(b.take(i))
}

/// The terminated-string invariant: at least one byte, the final byte
/// is NUL, and no byte before the final one is NUL.
pub open spec fn is_terminated(b: Seq<u8>) -> bool {
    &&& b.len() >= 1
    &&& b[b.len() - 1] == 0
    &&& nul_free(b.take(b.len() - 1))
}

/// Position of the first NUL byte of `b`, if any: the single scan that
/// every validation decision rests on.
pub fn find_nul(b: &[u8]) -> (r: Option<usize>)
    ensures
        match r {
            Some(i) => is_first_nul(b@, i as int),
            None => nul_free(b@),
        },
{
    let n = b.len();
    let mut i: usize = 0;
    while i < n
        invariant
            i <= n,
            n == b@.len(),
            nul_free(b@.take(i as int)),
        decreases n - i,
    {
        if b[i] == 0 {
            return Some(i);
        }
        proof {
            assert forall|j: int| 0 <= j < i + 1 implies #[trigger] b@.take(i + 1)[j] != 0 by {
                if j < i {
                    assert(b@.take(i as int)[j] != 0);
                }
            }
        }
        i = i + 1;
    }
    proof {
        assert(b@.take(n as int) =~= b@);
    }
    None
}

/// The first NUL position of a byte string is unique.
pub proof fn lemma_first_nul_unique(b: Seq<u8>, i: int, j: int)
    requires
        is_first_nul(b, i),
        is_first_nul(b, j),
    ensures
        i == j,
{
    if i < j {
        assert(b.take(j)[i] == 0);
    }
    if j < i {
        assert(b.take(i)[j] == 0);
    }
}

/// A byte string with no NUL byte anywhere never satisfies the
/// terminated-string invariant and has no first NUL: validation of such
/// a string can only report that it is not terminated.
pub proof fn lemma_nul_free_not_terminated(b: Seq<u8>)
    requires
        nul_free(b),
    ensures
        !is_terminated(b),
        forall|i: int| !is_first_nul(b, i),
{
}

/// The empty byte string is NUL-free, hence not terminated: validating
/// it reports a missing terminator, never an interior NUL.
pub proof fn lemma_empty_not_terminated(b: Seq<u8>)
    requires
        b.len() == 0,
    ensures
        nul_free(b),
        !is_terminated(b),
        forall|i: int| !is_first_nul(b, i),
{
}

/// A byte string whose only NUL byte sits before the final byte, at
/// position `i`, has its first NUL at `i` and breaks the invariant:
/// validation reports an interior NUL exactly there.
pub proof fn lemma_single_interior_nul(b: Seq<u8>, i: int)
    requires
        0 <= i < b.len() - 1,
        b[i] == 0,
        forall|j: int| 0 <= j < b.len() && j != i ==> b[j] != 0,
    ensures
        is_first_nul(b, i),
        !is_terminated(b),
        !nul_free(b),
{
    assert forall|j: int| 0 <= j < i implies #[trigger] b.take(i)[j] != 0 by {
        assert(b[j] != 0);
    }
    assert(b.take(b.len() - 1)[i] == 0);
}

/// First occurrence wins: when NUL sits both at position `i` before the
/// final byte and at the final byte itself, the first NUL is at `i`, so
/// validation reports the interior NUL at `i`, not the trailing one.
pub proof fn lemma_first_nul_wins(b: Seq<u8>, i: int)
    requires
        0 <= i < b.len() - 1,
        b[i] == 0,
        b[b.len() - 1] == 0,
        forall|j: int| 0 <= j < b.len() && j != i && j != b.len() - 1 ==> b[j] != 0,
    ensures
        is_first_nul(b, i),
        !is_terminated(b),
        !nul_free(b),
{
    assert forall|j: int| 0 <= j < i implies #[trigger] b.take(i)[j] != 0 by {
        assert(b[j] != 0);
    }
    assert(b.take(b.len() - 1)[i] == 0);
}

/// A byte string whose single NUL byte is the final byte satisfies the
/// invariant: validation of exactly these strings succeeds.
pub proof fn lemma_nul_at_end_terminated(b: Seq<u8>)
    requires
        b.len() >= 1,
        b[b.len() - 1] == 0,
        forall|j: int| 0 <= j < b.len() - 1 ==> b[j] != 0,
    ensures
        is_terminated(b),
        is_first_nul(b, b.len() - 1),
{
    assert forall|j: int| 0 <= j < b.len() - 1 implies #[trigger] b.take(b.len() - 1)[j] != 0 by {
        assert(b[j] != 0);
    }
}

/// Round trip: a terminated byte string equals its text projection with
/// the NUL byte re-appended, and that projection is NUL-free, so
/// re-validating the re-appended bytes succeeds and yields the same
/// bytes.
pub proof fn lemma_round_trip(b: Seq<u8>)
    requires
        is_terminated(b),
    ensures
        nul_free(b.take(b.len() - 1)),
        b.take(b.len() - 1).push(0) == b,
{
    assert(b.take(b.len() - 1).push(0) =~= b);
}

/// Appending one NUL byte to a NUL-free byte string yields a terminated
/// one: the literal helper's transformation is correct by construction.
pub proof fn lemma_append_nul_terminated(b: Seq<u8>)
    requires
        nul_free(b),
    ensures
        is_terminated(b.push(0)),
{
    assert(b.push(0).take(b.push(0).len() - 1) =~= b);
}

} // verus!

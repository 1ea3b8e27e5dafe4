//! The literal-construction helper: the textual transformation that
//! turns a fixed, NUL-free string into a terminated one by appending
//! exactly one NUL byte, rejecting any string that already holds one.

use vstd::prelude::*;
use vstd::string::StringExecFns;
use vstd::string::StringSliceAdditionalSpecFns;
use vstd::utf8::encode_utf8;
use crate::nul::find_nul;
use crate::nul::is_first_nul;
use crate::nul::is_terminated;
use crate::nul::lemma_append_nul_terminated;
use crate::nul::nul_free;

verus! {

/// UTF8 encoding distributes over concatenation of character
/// sequences.
proof fn lemma_encode_utf8_concat(a: Seq<char>, c: Seq<char>)
    ensures
        encode_utf8(a + c) == encode_utf8(a) + encode_utf8(c),
    decreases a.len(),
{
    if a.len() == 0 {
        assert(a + c =~= c);
        assert(encode_utf8(a) + encode_utf8(c) =~= encode_utf8(c));
    } else {
        assert((a + c).drop_first() =~= a.drop_first() + c);
        lemma_encode_utf8_concat(a.drop_first(), c);
        assert(encode_utf8(a + c) =~= encode_utf8(a) + encode_utf8(c));
    }
}

/// The UTF8 encoding of the one-character string holding NUL is the
/// single NUL byte.
proof fn lemma_encode_nul_char()
    ensures
        encode_utf8(seq!['\0']) == seq![0u8],
{
    let s = seq!['\0'];
    assert(s.drop_first() =~= Seq::<char>::empty());
    reveal_with_fuel(encode_utf8, 2);
    assert('\0' as u32 == 0);
    assert(0u32 & 0x7F == 0) by (bit_vector);
    assert(vstd::utf8::encode_scalar(0u32) =~= seq![0u8]);
    assert(encode_utf8(s) =~= seq![0u8]);
}

/// Append the NUL terminator to `s`, the transformation behind the
/// original build-time literal facility. Succeeds exactly when `s` is
/// NUL-free, returning `s` with one NUL byte appended — a string that
/// satisfies the terminated invariant by construction, so wrapping it
/// needs no further scan. A string that already holds a NUL anywhere
/// is rejected with the position of the first one, since that byte
/// would end up interior once the terminator is appended.
pub fn terminate(s: &str) -> (r: Result<String, crate::terminated_str::NulError>)
    ensures
        (r is Ok) <==> nul_free(s.spec_bytes()),
        match r {
            Ok(t) => {
                &&& t@ == s@.push('\0')
                &&& encode_utf8(t@) == s.spec_bytes().push(0)
                &&& is_terminated(encode_utf8(t@))
            },
            Err(e) => e matches crate::terminated_str::NulError::InteriorNul(i) && is_first_nul(
                s.spec_bytes(),
                i as int,
            ),
        },
{
    let b = s.as_bytes();
    match find_nul(b) {
        Some(i) => Err(crate::terminated_str::NulError::InteriorNul(i)),
        None => {
            let mut t = s.to_owned();
            t.append("\0");
            proof {
                reveal_strlit("\0");
                assert(t@ =~= s@ + seq!['\0']);
                lemma_encode_utf8_concat(s@, seq!['\0']);
                lemma_encode_nul_char();
                assert(encode_utf8(t@) =~= s.spec_bytes().push(0));
                lemma_append_nul_terminated(s.spec_bytes());
            }
            Ok(t)
        },
    }
}

} // verus!

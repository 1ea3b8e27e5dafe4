//! The validated view type and its two constructors.

use vstd::prelude::*;
use vstd::string::StringSliceAdditionalSpecFns;
use vstd::utf8::encode_utf8_valid_utf8;
use vstd::utf8::is_char_boundary_iff_not_is_continuation_byte;
use vstd::utf8::valid_utf8;
use crate::nul::find_nul;
use crate::nul::is_first_nul;
use crate::nul::is_terminated;
use crate::nul::nul_free;

verus! {

/// Why a string failed validation.
#[derive(Clone, PartialEq, Eq, Debug)]
pub enum NulError {
    /// The string contains a NUL byte before its final byte, at this
    /// zero-based byte position.
    InteriorNul(usize),
    /// The string contains no NUL byte at all, so none at the end
    /// either.
    NotNulTerminated,
}

/// A borrowed view over UTF8 text whose final byte is NUL and whose
/// other bytes are not.
///
/// The view's mathematical value (`@`) is its byte sequence, terminator
/// included. Values exist only through [`Self::from_str_with_nul`],
/// which scans, or [`Self::from_str_with_nul_unchecked`], whose caller
/// proves the invariant; every live value therefore satisfies it.
#[derive(Clone, Copy, Debug)]
pub struct NulTerminatedStr<'a> {
    inner: &'a str,
}

impl<'a> View for NulTerminatedStr<'a> {
    type V = Seq<u8>;

    closed spec fn view(&self) -> Seq<u8> {
        self.inner.spec_bytes()
    }
}

impl<'a> NulTerminatedStr<'a> {
    #[verifier::type_invariant]
    spec fn inv(self) -> bool {
        is_terminated(self@)
    }

    /// Validate `s` and wrap it. Succeeds exactly when the final byte
    /// of `s` is NUL and no earlier byte is; otherwise reports the
    /// first NUL position if one sits before the final byte, and a
    /// missing terminator if `s` (the empty string included) has no
    /// NUL byte anywhere.
    pub fn from_str_with_nul(s: &'a str) -> (r: Result<NulTerminatedStr<'a>, NulError>)
        ensures
            (r is Ok) <==> is_terminated(s.spec_bytes()),
            (r == Err::<NulTerminatedStr<'a>, NulError>(NulError::NotNulTerminated)) <==> nul_free(
                s.spec_bytes(),
            ),
            match r {
                Ok(v) => v@ == s.spec_bytes(),
                Err(NulError::InteriorNul(i)) => is_first_nul(s.spec_bytes(), i as int) && i
                    + 1 < s.spec_bytes().len(),
                Err(NulError::NotNulTerminated) => nul_free(s.spec_bytes()),
            },
    {
        let b = s.as_bytes();
        match find_nul(b) {
            None => Err(NulError::NotNulTerminated),
            Some(i) => {
                if i == b.len() - 1 {
                    proof {
                        assert(b@.take(b@.len() - 1) =~= b@.take(i as int));
                    }
                    Ok(NulTerminatedStr { inner: s })
                } else {
                    proof {
                        if is_terminated(b@) {
                            assert(b@.take(b@.len() - 1)[i as int] == 0);
                        }
                    }
                    Err(NulError::InteriorNul(i))
                }
            },
        }
    }

    /// Wrap `s` without scanning: the statically checked counterpart of
    /// the original escape hatch for data already known to satisfy the
    /// invariant, such as the output of the literal helper.
    pub fn from_str_with_nul_unchecked(s: &'a str) -> (r: NulTerminatedStr<'a>)
        requires
            is_terminated(s.spec_bytes()),
        ensures
            r@ == s.spec_bytes(),
    {
        NulTerminatedStr { inner: s }
    }

    /// The whole backing string, NUL terminator included: byte for
    /// byte the form a NUL-terminated-string interface expects.
    pub fn as_str_with_nul(&self) -> (r: &'a str)
        ensures
            r.spec_bytes() == self@,
            is_terminated(self@),
    {
        proof {
            use_type_invariant(&*self);
        }
        self.inner
    }

    /// The text projection: everything before the terminator, with the
    /// final byte dropped and nothing else changed. The result is a
    /// plain NUL-free string slice, one byte shorter than the view.
    pub fn as_str(&self) -> (r: &'a str)
        ensures
            r.spec_bytes() == self@.take(self@.len() - 1),
            nul_free(r.spec_bytes()),
            is_terminated(self@),
    {
        proof {
            use_type_invariant(&*self);
            let b = self.inner.spec_bytes();
            encode_utf8_valid_utf8(self.inner@);
            is_char_boundary_iff_not_is_continuation_byte(b, b.len() - 1);
        }
        let n = self.inner.as_bytes().len();
        let (text, _term) = self.inner.split_at(n - 1);
        text
    }
}

} // verus!

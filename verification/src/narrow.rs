//! Narrow strings: null-terminated, one byte per character.

use uefi::data_types::FromSliceWithNulError;
use uefi::CStr8;
use vstd::prelude::*;
use vstd::slice::slice_to_vec;
use vstd::string::StringSliceAdditionalSpecFns;

verus! {

/// Why a byte string is not a narrow string.
#[derive(Clone, Copy, Debug, PartialEq, Eq, Structural)]
pub enum NarrowStringError {
    /// A character outside the narrow charset stands at this index. Every
    /// byte is a character of the charset, so no byte string is refused for
    /// this.
    InvalidChar(usize),
    /// A zero byte stands at this index, before the end.
    InteriorNul(usize),
    /// No byte is zero.
    NotNulTerminated,
}

/// `at` is the index of the first zero byte of `bytes`.
pub open spec fn is_first_nul(bytes: Seq<u8>, at: int) -> bool {
    &&& 0 <= at < bytes.len()
    &&& bytes[at] == 0
    &&& forall|i: int| 0 <= i < at ==> bytes[i] != 0
}

/// `bytes` is a narrow string: its only zero byte is its last byte.
pub open spec fn is_narrow(bytes: Seq<u8>) -> bool {
    is_first_nul(bytes, bytes.len() - 1)
}

/// `error` is the reason for which `bytes` is refused as a narrow string:
/// the index of its first zero byte where that byte is not the last one, or
/// that there is no zero byte.
pub open spec fn refused(bytes: Seq<u8>, error: NarrowStringError) -> bool {
    match error {
        NarrowStringError::InteriorNul(at) => is_first_nul(bytes, at as int) && at + 1
            != bytes.len(),
        NarrowStringError::NotNulTerminated => forall|i: int|
            0 <= i < bytes.len() ==> bytes[i] != 0,
        NarrowStringError::InvalidChar(_) => false,
    }
}

/// Calls `uefi::CStr8::from_bytes_with_nul` and keeps whether it accepted the
/// bytes. That function looks for the first zero byte: it accepts the bytes
/// if that byte is the last one, reports `InteriorNul` with its index if it
/// is not, and `NotNulTerminated` if no byte is zero. It never reports
/// `InvalidChar`.
#[verifier::external_body]
fn cstr8_from_bytes_with_nul(bytes: &[u8]) -> (verdict: Result<(), NarrowStringError>)
    ensures
        match verdict {
            Ok(()) => is_narrow(bytes@),
            Err(error) => refused(bytes@, error),
        },
{
    match CStr8::from_bytes_with_nul(bytes) {
        Ok(_) => Ok(()),
        Err(FromSliceWithNulError::InvalidChar(at)) => Err(NarrowStringError::InvalidChar(at)),
        Err(FromSliceWithNulError::InteriorNul(at)) => Err(NarrowStringError::InteriorNul(at)),
        Err(FromSliceWithNulError::NotNulTerminated) => Err(NarrowStringError::NotNulTerminated),
    }
}

/// A validated narrow string, terminator included.
pub struct NarrowString {
    bytes: Vec<u8>,
}

impl View for NarrowString {
    type V = Seq<u8>;

    closed spec fn view(&self) -> Seq<u8> {
        self.bytes@
    }
}

impl NarrowString {
    #[verifier::type_invariant]
    spec fn valid(&self) -> bool {
        is_narrow(self.bytes@)
    }

    /// Validates the bytes of `text`, which must end in its terminator, and
    /// keeps them unchanged.
    pub fn new(text: &str) -> (r: Result<NarrowString, NarrowStringError>)
        ensures
            r is Ok <==> is_narrow(text.spec_bytes()),
            match r {
                Ok(narrow) => narrow@ == text.spec_bytes(),
                Err(error) => refused(text.spec_bytes(), error),
            },
    {
        let bytes = text.as_bytes();
        match cstr8_from_bytes_with_nul(bytes) {
            Ok(()) => Ok(NarrowString { bytes: slice_to_vec(bytes) }),
            Err(error) => {
                proof {
                    lemma_refusal_is_unique(bytes@, error, error);
                }
                Err(error)
            },
        }
    }

    /// The bytes, terminator included.
    pub fn as_bytes(&self) -> (bytes: &[u8])
        ensures
            bytes@ == self@,
            is_narrow(bytes@),
    {
        proof {
            use_type_invariant(self);
        }
        self.bytes.as_slice()
    }
}

/// Where a refusal places the first zero byte: at its index, or past the
/// end where it says that there is none.
pub open spec fn nul_index(bytes: Seq<u8>, error: NarrowStringError) -> int {
    match error {
        NarrowStringError::InteriorNul(at) => at as int,
        _ => bytes.len() as int,
    }
}

/// Bytes are accepted or refused, never both, and refused for one reason
/// only.
pub proof fn lemma_refusal_is_unique(
    bytes: Seq<u8>,
    first: NarrowStringError,
    second: NarrowStringError,
)
    requires
        refused(bytes, first),
    ensures
        !is_narrow(bytes),
        refused(bytes, second) ==> first == second,
{
    let a = nul_index(bytes, first);
    if is_narrow(bytes) {
        assert(bytes[bytes.len() - 1] == 0);
        if a < bytes.len() - 1 {
            assert(bytes[a] == 0);
        }
    }
    if refused(bytes, second) {
        let b = nul_index(bytes, second);
        if a < b {
            assert(bytes[a] == 0);
        } else if b < a {
            assert(bytes[b] == 0);
        }
    }
}

} // verus!

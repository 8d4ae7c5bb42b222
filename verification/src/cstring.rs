use vstd::prelude::*;

use vstd::string::StringSliceAdditionalSpecFns;

use crate::errors::NulError;

verus! {

/// Whether a byte sequence holds a NUL byte anywhere.
pub open spec fn has_nul(bytes: Seq<u8>) -> bool {
    exists|i: int| 0 <= i < bytes.len() && bytes[i] == 0
}

/// `pos` is the index of the first NUL byte of `bytes`.
pub open spec fn is_first_nul(bytes: Seq<u8>, pos: int) -> bool {
    &&& 0 <= pos < bytes.len()
    &&& bytes[pos] == 0
    &&& forall|j: int| 0 <= j < pos ==> bytes[j] != 0
}

/// The bytes of a NUL-terminated buffer an engine filled: everything before
/// the first NUL byte, or the whole buffer when it holds none.
pub fn bytes_before_nul(buffer: &[u8]) -> (res: Vec<u8>)
    ensures
        !has_nul(res@),
        res@.len() <= buffer@.len(),
        res@ == buffer@.subrange(0, res@.len() as int),
        res@.len() < buffer@.len() ==> buffer@[res@.len() as int] == 0,
{
    let n = buffer.len();
    let mut res: Vec<u8> = Vec::new();
    let mut i: usize = 0;
    while i < n && buffer[i] != 0
        invariant
            n == buffer@.len(),
            i <= n,
            res@ == buffer@.subrange(0, i as int),
            forall|j: int| 0 <= j < i ==> buffer@[j] != 0,
        decreases n - i,
    {
        res.push(buffer[i]);
        i = i + 1;
        assert(res@ == buffer@.subrange(0, i as int));
    }
    res
}

/// Text that can be handed to a JavaScript engine: a sequence of bytes with no
/// NUL byte in it, so that a terminating NUL can be added on the engine's side.
#[derive(Debug)]
pub struct JSCString {
    bytes: Vec<u8>,
}

impl View for JSCString {
    type V = Seq<u8>;

    closed spec fn view(&self) -> Seq<u8> {
        self.bytes@
    }
}

impl JSCString {
    #[verifier::type_invariant]
    spec fn no_interior_nul(self) -> bool {
        !has_nul(self.bytes@)
    }

    /// Converts UTF-8 text. It fails exactly when the text holds a NUL byte;
    /// the error then gives the position of the first one and the whole text.
    pub fn new(text: &str) -> (res: Result<JSCString, NulError>)
        ensures
            match res {
                Ok(c) => !has_nul(text.spec_bytes()) && c@ == text.spec_bytes(),
                Err(e) => has_nul(text.spec_bytes()) && is_first_nul(
                    text.spec_bytes(),
                    e.nul_position as int,
                ) && e.bytes@ == text.spec_bytes(),
            },
    {
        let source = text.as_bytes();
        let n = source.len();
        let mut bytes: Vec<u8> = Vec::new();
        let mut first: Option<usize> = None;
        let mut i: usize = 0;
        while i < n
            invariant
                n == source@.len(),
                source@ == text.spec_bytes(),
                i <= n,
                bytes@ == source@.subrange(0, i as int),
                match first {
                    Some(p) => is_first_nul(source@, p as int) && p < i,
                    None => forall|j: int| 0 <= j < i ==> source@[j] != 0,
                },
            decreases n - i,
        {
            let b = source[i];
            if b == 0 && first.is_none() {
                first = Some(i);
            }
            bytes.push(b);
            i = i + 1;
            assert(bytes@ == source@.subrange(0, i as int));
        }
        assert(bytes@ == source@);
        match first {
            Some(p) => Err(NulError { nul_position: p, bytes }),
            None => Ok(JSCString { bytes }),
        }
    }

    /// The bytes of the text, without a terminating NUL.
    pub fn as_bytes(&self) -> (res: &[u8])
        ensures
            res@ == self@,
            !has_nul(res@),
    {
        proof {
            use_type_invariant(self);
        }
        self.bytes.as_slice()
    }
}

} // verus!

//! Text in the null-terminated form that the wire calls take.

use vstd::prelude::*;
use vstd::slice::slice_subrange;
use vstd::string::StringSliceAdditionalSpecFns;

verus! {

/// Some byte of `bytes` is zero.
pub open spec fn has_nul(bytes: Seq<u8>) -> bool {
    exists|i: int| 0 <= i < bytes.len() && bytes[i] == 0
}

/// `at` is the index of the first zero byte of `bytes`.
pub open spec fn is_first_nul(bytes: Seq<u8>, at: int) -> bool {
    &&& 0 <= at < bytes.len()
    &&& bytes[at] == 0
    &&& forall|j: int| 0 <= j < at ==> bytes[j] != 0
}

/// Where the first zero byte of a text stood when it was refused.
#[derive(Clone, Copy, Debug, PartialEq, Eq, Structural)]
pub struct NulError {
    pub position: usize,
}

/// Finds the first zero byte of `bytes`, if there is one.
pub fn nul_position(bytes: &[u8]) -> (found: Option<usize>)
    ensures
        match found {
            Some(at) => is_first_nul(bytes@, at as int),
            None => !has_nul(bytes@),
        },
{
    let mut i: usize = 0;
    while i < bytes.len()
        invariant
            i <= bytes.len(),
            forall|j: int| 0 <= j < i ==> bytes@[j] != 0,
        decreases bytes.len() - i,
    {
        if bytes[i] == 0 {
            return Some(i);
        }
        i += 1;
    }
    None
}

/// A text without zero bytes, kept with its terminating zero so that it
/// can be handed to a wire call as it is and read back whole.
#[derive(Debug)]
pub struct WireString {
    bytes: Vec<u8>,
}

impl WireString {
    #[verifier::type_invariant]
    spec fn well_formed(&self) -> bool {
        is_first_nul(self.bytes@, self.bytes@.len() - 1)
    }

    /// The bytes of the text, without the terminator.
    pub closed spec fn view(&self) -> Seq<u8> {
        self.bytes@.drop_last()
    }

    /// The empty text.
    pub fn empty() -> (text: WireString)
        ensures
            text@ == Seq::<u8>::empty(),
    {
        let mut bytes: Vec<u8> = Vec::new();
        bytes.push(0u8);
        proof {
            assert(bytes@.drop_last() =~= Seq::<u8>::empty());
        }
        WireString { bytes }
    }

    /// Accepts `bytes` if and only if none of them is zero; otherwise
    /// reports where the first zero stands.
    pub fn from_bytes(bytes: &[u8]) -> (made: Result<WireString, NulError>)
        ensures
            match made {
                Ok(text) => !has_nul(bytes@) && text@ == bytes@,
                Err(e) => is_first_nul(bytes@, e.position as int),
            },
    {
        match nul_position(bytes) {
            Some(position) => Err(NulError { position }),
            None => {
                let mut copy: Vec<u8> = Vec::new();
                let mut i: usize = 0;
                while i < bytes.len()
                    invariant
                        i <= bytes.len(),
                        copy@ == bytes@.subrange(0, i as int),
                    decreases bytes.len() - i,
                {
                    copy.push(bytes[i]);
                    proof {
                        assert(copy@ =~= bytes@.subrange(0, i + 1));
                    }
                    i += 1;
                }
                copy.push(0u8);
                proof {
                    assert(copy@.drop_last() =~= bytes@);
                    assert(forall|j: int| 0 <= j < bytes@.len() ==> copy@[j] == bytes@[j]);
                }
                Ok(WireString { bytes: copy })
            },
        }
    }

    /// Accepts `text` if and only if its UTF-8 encoding holds no zero byte.
    pub fn new(text: &str) -> (made: Result<WireString, NulError>)
        ensures
            match made {
                Ok(wire) => !has_nul(text.spec_bytes()) && wire@ == text.spec_bytes(),
                Err(e) => is_first_nul(text.spec_bytes(), e.position as int),
            },
    {
        WireString::from_bytes(text.as_bytes())
    }

    /// The bytes of the text, without the terminator.
    pub fn as_bytes(&self) -> (bytes: &[u8])
        ensures
            bytes@ == self@,
            !has_nul(bytes@),
    {
        proof {
            use_type_invariant(self);
        }
        let all = self.bytes.as_slice();
        let text = slice_subrange(all, 0, all.len() - 1);
        proof {
            assert(text@ =~= self.bytes@.drop_last());
        }
        text
    }

    /// The text followed by its terminating zero: the only zero byte of
    /// the result is its last byte.
    pub fn as_bytes_with_nul(&self) -> (bytes: &[u8])
        ensures
            bytes@ == self@.push(0u8),
            is_first_nul(bytes@, self@.len() as int),
    {
        proof {
            use_type_invariant(self);
            assert(self.bytes@.drop_last().push(0u8) =~= self.bytes@);
        }
        self.bytes.as_slice()
    }

    /// The number of bytes before the terminator.
    pub fn len(&self) -> (n: usize)
        ensures
            n == self@.len(),
    {
        proof {
            use_type_invariant(self);
        }
        self.bytes.len() - 1
    }
}

/// A text with a first zero byte holds a zero byte: a text is either
/// accepted whole or refused, never both.
pub proof fn lemma_first_nul_implies_has_nul(bytes: Seq<u8>, at: int)
    requires
        is_first_nul(bytes, at),
    ensures
        has_nul(bytes),
{
}

/// The first zero byte of a text stands at one place only.
pub proof fn lemma_first_nul_unique(bytes: Seq<u8>, a: int, b: int)
    requires
        is_first_nul(bytes, a),
        is_first_nul(bytes, b),
    ensures
        a == b,
{
}

} // verus!

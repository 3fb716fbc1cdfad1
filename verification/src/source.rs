//! Shader source as the driver takes it: text that a zero byte ends.

use vstd::prelude::*;

verus! {

/// Shader source text for one stage.
///
/// The driver reads source up to the first zero byte, so a source text holds
/// none: what is submitted is what is compiled.
#[derive(Debug, PartialEq, Eq)]
pub struct SourceText {
    bytes: Vec<u8>,
}

impl View for SourceText {
    type V = Seq<u8>;

    /// The bytes of the text, without the zero byte that ends it.
    closed spec fn view(&self) -> Seq<u8> {
        self.bytes@
    }
}

impl SourceText {
    #[verifier::type_invariant]
    spec fn holds_no_zero(&self) -> bool {
        !self.bytes@.contains(0u8)
    }

    /// Takes `bytes` as source text, unless a zero byte stands among them.
    pub fn new(bytes: Vec<u8>) -> (text: Option<SourceText>)
        ensures
            text is Some <==> !bytes@.contains(0u8),
            text matches Some(t) ==> t@ == bytes@,
    {
        let mut i: usize = 0;
        while i < bytes.len()
            invariant
                i <= bytes.len(),
                forall|k: int| 0 <= k < i ==> bytes@[k] != 0u8,
            decreases bytes.len() - i,
        {
            if bytes[i] == 0u8 {
                return None;
            }
            i += 1;
        }
        Some(SourceText { bytes })
    }

    /// The bytes of the text; no zero byte is among them.
    pub fn as_bytes(&self) -> (bytes: &Vec<u8>)
        ensures
            bytes@ == self@,
            !bytes@.contains(0u8),
    {
        proof {
            use_type_invariant(self);
        }
        &self.bytes
    }
}

} // verus!

//! The driver's info log: a buffer of exactly the length that the driver
//! reported, and the text that is read out of it.

use vstd::prelude::*;
use vstd::utf8::{decode_utf8, valid_utf8};

verus! {

/// The text that `String::from_utf8_lossy` makes of a byte sequence.
pub uninterp spec fn lossy_text(bytes: Seq<u8>) -> Seq<char>;

/// `String::from_utf8_lossy`: the bytes as text, each invalid sequence
/// replaced by U+FFFD. Bytes that are valid UTF-8 come out as the characters
/// they encode.
#[verifier::external_body]
fn decode_lossy(bytes: &Vec<u8>) -> (text: String)
    ensures
        text@ == lossy_text(bytes@),
        valid_utf8(bytes@) ==> text@ == decode_utf8(bytes@),
{
    String::from_utf8_lossy(bytes).into_owned()
}

/// A buffer of `length` spaces, empty where `length` is not positive.
pub open spec fn blank(length: int) -> Seq<u8> {
    Seq::new(
        if length > 0 {
            length as nat
        } else {
            0
        },
        |i: int| 0x20u8,
    )
}

/// The bytes of `bytes` that stand before its first zero byte: all of them
/// where it holds none.
pub open spec fn until_zero(bytes: Seq<u8>) -> Seq<u8>
    decreases bytes.len(),
{
    if bytes.len() == 0 || bytes.first() == 0u8 {
        Seq::empty()
    } else {
        seq![bytes.first()] + until_zero(bytes.drop_first())
    }
}

/// What a buffer of `capacity` bytes holds as text once the driver has
/// written `data`: `data` as far as it fits, up to its first zero byte.
pub open spec fn text_bytes(capacity: nat, data: Seq<u8>) -> Seq<u8> {
    if data.len() <= capacity {
        until_zero(data)
    } else {
        until_zero(data.take(capacity as int))
    }
}

/// Where the first `end` bytes hold no zero byte and the next one, if there
/// is one, is a zero byte, they are what stands before the first zero byte.
pub proof fn lemma_until_zero_is_prefix(bytes: Seq<u8>, end: int)
    requires
        0 <= end <= bytes.len(),
        forall|i: int| 0 <= i < end ==> bytes[i] != 0u8,
        end < bytes.len() ==> bytes[end] == 0u8,
    ensures
        until_zero(bytes) == bytes.take(end),
    decreases bytes.len(),
{
    if end == 0 {
        assert(bytes.take(0) =~= Seq::<u8>::empty());
    } else {
        let rest = bytes.drop_first();
        assert forall|i: int| 0 <= i < end - 1 implies rest[i] != 0u8 by {
            assert(rest[i] == bytes[i + 1]);
        }
        lemma_until_zero_is_prefix(rest, end - 1);
        assert(seq![bytes.first()] + rest.take(end - 1) =~= bytes.take(end));
    }
}

/// What stands before the first zero byte holds no zero byte and is no
/// longer than the whole.
pub proof fn lemma_until_zero_holds_no_zero(bytes: Seq<u8>)
    ensures
        !until_zero(bytes).contains(0u8),
        until_zero(bytes).len() <= bytes.len(),
        until_zero(bytes).len() > 0 <==> bytes.len() > 0 && bytes[0] != 0u8,
    decreases bytes.len(),
{
    if bytes.len() > 0 && bytes.first() != 0u8 {
        let rest = until_zero(bytes.drop_first());
        lemma_until_zero_holds_no_zero(bytes.drop_first());
        let whole = seq![bytes.first()] + rest;
        assert forall|i: int| 0 <= i < whole.len() implies whole[i] != 0u8 by {
            if i > 0 {
                assert(whole[i] == rest[i - 1]);
                assert(rest.contains(rest[i - 1]));
            }
        }
    }
}

/// A buffer of `length` spaces for the driver to write into.
pub fn whitespace(length: usize) -> (buffer: Vec<u8>)
    ensures
        buffer@ == blank(length as int),
{
    let buffer: Vec<u8> = vec![0x20u8; length];
    assert(buffer@ =~= blank(length as int));
    buffer
}

/// The driver's info log for one shader or program object: the length that
/// the driver reported for it, which is the size of the buffer that the
/// driver is handed, and what came back in that buffer.
#[derive(Debug, PartialEq, Eq)]
pub struct DiagnosticLog {
    /// The length that the driver reported for the log.
    pub length: i32,
    /// The buffer as the driver left it, once it has answered.
    pub written: Option<Vec<u8>>,
}

impl View for DiagnosticLog {
    type V = Seq<u8>;

    /// The bytes of the driver's text: nothing before the driver has
    /// answered; then what it wrote, as far as the buffer reaches, up to the
    /// zero byte that ends the text.
    open spec fn view(&self) -> Seq<u8> {
        match self.written {
            None => Seq::empty(),
            Some(data) => text_bytes(self.capacity(), data@),
        }
    }
}

impl DiagnosticLog {
    /// The number of bytes that the buffer holds.
    pub open spec fn capacity(self) -> nat {
        if self.length > 0 {
            self.length as nat
        } else {
            0
        }
    }

    /// A log of the reported `length`, not yet written to.
    pub fn sized(length: i32) -> (log: DiagnosticLog)
        ensures
            log == (DiagnosticLog { length, written: None }),
    {
        DiagnosticLog { length, written: None }
    }

    /// The number of bytes to ask the driver for.
    pub fn size(&self) -> (size: usize)
        ensures
            size == self.capacity(),
    {
        if self.length > 0 {
            self.length as usize
        } else {
            0
        }
    }

    /// The log with the driver's answer in it.
    pub fn filled(self, data: Vec<u8>) -> (log: DiagnosticLog)
        ensures
            log == (DiagnosticLog { length: self.length, written: Some(data) }),
    {
        DiagnosticLog { length: self.length, written: Some(data) }
    }

    /// The bytes of the driver's text.
    pub fn to_bytes(&self) -> (text: Vec<u8>)
        ensures
            text@ == self@,
    {
        let mut text: Vec<u8> = Vec::new();
        match &self.written {
            None => {},
            Some(data) => {
                let size = self.size();
                let limit: usize = if data.len() <= size {
                    data.len()
                } else {
                    size
                };
                let ghost within = data@.take(limit as int);
                let mut i: usize = 0;
                while i < limit && data[i] != 0u8
                    invariant
                        i <= limit <= data.len(),
                        within == data@.take(limit as int),
                        text@ == within.take(i as int),
                        forall|k: int| 0 <= k < i ==> within[k] != 0u8,
                    decreases limit - i,
                {
                    text.push(data[i]);
                    i += 1;
                    assert(text@ =~= within.take(i as int));
                }
                proof {
                    lemma_until_zero_is_prefix(within, i as int);
                    assert(data@.take(data@.len() as int) =~= data@);
                }
            },
        }
        text
    }

    /// The log as text. A log that holds valid UTF-8 reads as the characters
    /// that it encodes, and is empty only where the log is.
    pub fn into_text(self) -> (text: String)
        ensures
            text@ == lossy_text(self@),
            valid_utf8(self@) ==> text@ == decode_utf8(self@),
            valid_utf8(self@) && self@.len() > 0 ==> text@.len() > 0,
    {
        let bytes = self.to_bytes();
        decode_lossy(&bytes)
    }

    /// The text never outgrows the buffer, whatever the driver hands back,
    /// and no zero byte is in it.
    pub proof fn lemma_text_fits(self)
        ensures
            self@.len() <= self.capacity(),
            !self@.contains(0u8),
    {
        match self.written {
            None => {},
            Some(data) => {
                if data@.len() <= self.capacity() {
                    lemma_until_zero_holds_no_zero(data@);
                } else {
                    lemma_until_zero_holds_no_zero(data@.take(self.capacity() as int));
                }
            },
        }
    }
}

} // verus!

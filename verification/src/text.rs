//! String transfer protocol.
//!
//! Text crosses the boundary in two wire shapes: a borrowed view
//! (pointer + length, with a sentinel length for "absent") used for inputs,
//! and an owned buffer with an embedded deallocation obligation used for
//! outputs.  This module verifies the decisions made on the engine side:
//! classifying a borrowed view, validating its bytes as UTF-8, and the
//! round trip from borrowed-in text back to an owned-out buffer.

use vstd::prelude::*;

verus! {

/// A byte of the form `0b10xxxxxx`, valid only in trailing position.
pub open spec fn is_cont_byte(b: u8) -> bool {
    0x80 <= b && b <= 0xBF
}

/// Length of the well-formed UTF-8 sequence starting at index `i` of `s`,
/// or 0 if no well-formed sequence starts there.  The ranges are those of
/// RFC 3629: overlong encodings, surrogates and values above U+10FFFF are
/// all rejected.
pub open spec fn utf8_seq_len_at(s: Seq<u8>, i: int) -> int {
    if i < 0 || i >= s.len() {
        0
    } else {
        let b0 = s[i];
        if b0 <= 0x7F {
            1
        } else if 0xC2 <= b0 && b0 <= 0xDF {
            if i + 1 < s.len() && is_cont_byte(s[i + 1]) {
                2
            } else {
                0
            }
        } else if b0 == 0xE0 {
            if i + 2 < s.len() && 0xA0 <= s[i + 1] && s[i + 1] <= 0xBF && is_cont_byte(s[i + 2]) {
                3
            } else {
                0
            }
        } else if 0xE1 <= b0 && b0 <= 0xEC {
            if i + 2 < s.len() && is_cont_byte(s[i + 1]) && is_cont_byte(s[i + 2]) {
                3
            } else {
                0
            }
        } else if b0 == 0xED {
            if i + 2 < s.len() && 0x80 <= s[i + 1] && s[i + 1] <= 0x9F && is_cont_byte(s[i + 2]) {
                3
            } else {
                0
            }
        } else if 0xEE <= b0 && b0 <= 0xEF {
            if i + 2 < s.len() && is_cont_byte(s[i + 1]) && is_cont_byte(s[i + 2]) {
                3
            } else {
                0
            }
        } else if b0 == 0xF0 {
            if i + 3 < s.len() && 0x90 <= s[i + 1] && s[i + 1] <= 0xBF && is_cont_byte(s[i + 2])
                && is_cont_byte(s[i + 3]) {
                4
            } else {
                0
            }
        } else if 0xF1 <= b0 && b0 <= 0xF3 {
            if i + 3 < s.len() && is_cont_byte(s[i + 1]) && is_cont_byte(s[i + 2])
                && is_cont_byte(s[i + 3]) {
                4
            } else {
                0
            }
        } else if b0 == 0xF4 {
            if i + 3 < s.len() && 0x80 <= s[i + 1] && s[i + 1] <= 0x8F && is_cont_byte(s[i + 2])
                && is_cont_byte(s[i + 3]) {
                4
            } else {
                0
            }
        } else {
            0
        }
    }
}

/// The bytes of `s` from index `i` on form a chain of well-formed UTF-8
/// sequences.
pub open spec fn is_utf8_from(s: Seq<u8>, i: int) -> bool
    decreases s.len() - i,
{
    if i >= s.len() {
        true
    } else {
        let k = utf8_seq_len_at(s, i);
        k > 0 && is_utf8_from(s, i + k)
    }
}

/// `s` is a well-formed UTF-8 byte sequence.
pub open spec fn is_utf8(s: Seq<u8>) -> bool {
    is_utf8_from(s, 0)
}

/// Decides UTF-8 well-formedness of a byte buffer.
pub fn utf8_check(v: &Vec<u8>) -> (ok: bool)
    ensures
        ok == is_utf8(v@),
{
    let n = v.len();
    let mut i: usize = 0;
    while i < n
        invariant
            n == v@.len(),
            i <= n,
            is_utf8(v@) == is_utf8_from(v@, i as int),
        decreases n - i,
    {
        let b0 = v[i];
        let k: usize = if b0 <= 0x7F {
            1
        } else if 0xC2 <= b0 && b0 <= 0xDF {
            if i + 1 < n && 0x80 <= v[i + 1] && v[i + 1] <= 0xBF {
                2
            } else {
                0
            }
        } else if b0 == 0xE0 {
            if n - i > 2 && 0xA0 <= v[i + 1] && v[i + 1] <= 0xBF && 0x80 <= v[i + 2]
                && v[i + 2] <= 0xBF {
                3
            } else {
                0
            }
        } else if 0xE1 <= b0 && b0 <= 0xEC {
            if n - i > 2 && 0x80 <= v[i + 1] && v[i + 1] <= 0xBF && 0x80 <= v[i + 2]
                && v[i + 2] <= 0xBF {
                3
            } else {
                0
            }
        } else if b0 == 0xED {
            if n - i > 2 && 0x80 <= v[i + 1] && v[i + 1] <= 0x9F && 0x80 <= v[i + 2]
                && v[i + 2] <= 0xBF {
                3
            } else {
                0
            }
        } else if 0xEE <= b0 && b0 <= 0xEF {
            if n - i > 2 && 0x80 <= v[i + 1] && v[i + 1] <= 0xBF && 0x80 <= v[i + 2]
                && v[i + 2] <= 0xBF {
                3
            } else {
                0
            }
        } else if b0 == 0xF0 {
            if n - i > 3 && 0x90 <= v[i + 1] && v[i + 1] <= 0xBF && 0x80 <= v[i + 2]
                && v[i + 2] <= 0xBF && 0x80 <= v[i + 3] && v[i + 3] <= 0xBF {
                4
            } else {
                0
            }
        } else if 0xF1 <= b0 && b0 <= 0xF3 {
            if n - i > 3 && 0x80 <= v[i + 1] && v[i + 1] <= 0xBF && 0x80 <= v[i + 2]
                && v[i + 2] <= 0xBF && 0x80 <= v[i + 3] && v[i + 3] <= 0xBF {
                4
            } else {
                0
            }
        } else if b0 == 0xF4 {
            if n - i > 3 && 0x80 <= v[i + 1] && v[i + 1] <= 0x8F && 0x80 <= v[i + 2]
                && v[i + 2] <= 0xBF && 0x80 <= v[i + 3] && v[i + 3] <= 0xBF {
                4
            } else {
                0
            }
        } else {
            0
        };
        proof {
            assert(k == utf8_seq_len_at(v@, i as int));
        }
        if k == 0 {
            return false;
        }
        i += k;
    }
    true
}

/// Copies a byte buffer.
pub fn copy_bytes(v: &Vec<u8>) -> (r: Vec<u8>)
    ensures
        r@ == v@,
{
    let mut r: Vec<u8> = Vec::new();
    let mut i: usize = 0;
    while i < v.len()
        invariant
            i <= v@.len(),
            r@ == v@.subrange(0, i as int),
        decreases v@.len() - i,
    {
        r.push(v[i]);
        i += 1;
    }
    proof {
        assert(v@.subrange(0, v@.len() as int) =~= v@);
    }
    r
}

/// How a borrowed wire string is to be read.
#[derive(Clone, Copy, PartialEq, Eq, Structural, Debug)]
pub enum BorrowedClass {
    /// The sentinel length: no value was passed.
    Absent,
    /// A null data pointer: the empty string.
    Empty,
    /// A data pointer with `len` bytes that must be decoded.
    Payload,
}

/// Classification of a borrowed wire string `(data, len)`: the sentinel
/// length means "absent", a null pointer means the empty string, anything
/// else carries `len` bytes of payload.
pub open spec fn spec_classify_borrowed(data_is_null: bool, len: usize) -> BorrowedClass {
    if len == usize::MAX {
        BorrowedClass::Absent
    } else if data_is_null {
        BorrowedClass::Empty
    } else {
        BorrowedClass::Payload
    }
}

/// Classifies a borrowed wire string.  A null pointer with a length other
/// than 0 or the sentinel is a caller contract violation and is excluded
/// here; the raw entry points abort on it.
pub fn classify_borrowed(data_is_null: bool, len: usize) -> (c: BorrowedClass)
    requires
        data_is_null && len != usize::MAX ==> len == 0,
    ensures
        c == spec_classify_borrowed(data_is_null, len),
{
    if len == usize::MAX {
        BorrowedClass::Absent
    } else if data_is_null {
        BorrowedClass::Empty
    } else {
        BorrowedClass::Payload
    }
}

/// Borrow-in at the specification level: well-formed UTF-8 bytes decode to
/// themselves, anything else is a contract violation with no value.
pub open spec fn borrow_in_spec(s: Seq<u8>) -> Option<Seq<u8>> {
    if is_utf8(s) {
        Option::Some(s)
    } else {
        Option::None
    }
}

/// Own-out at the specification level: the engine hands the text across
/// byte for byte.
pub open spec fn own_out_spec(s: Seq<u8>) -> Seq<u8> {
    s
}

/// Engine-side text: a byte buffer known to be well-formed UTF-8.
pub struct Utf8Text {
    pub bytes: Vec<u8>,
}

impl View for Utf8Text {
    type V = Seq<u8>;

    open spec fn view(&self) -> Seq<u8> {
        self.bytes@
    }
}

impl Utf8Text {
    /// The buffer is well-formed UTF-8.
    pub open spec fn wf(self) -> bool {
        is_utf8(self.bytes@)
    }

    /// Borrow-in: decodes a foreign byte buffer into engine text.
    /// Succeeds exactly on well-formed UTF-8.
    pub fn from_bytes(bytes: Vec<u8>) -> (r: Option<Utf8Text>)
        ensures
            r is Some <==> is_utf8(bytes@),
            r matches Some(t) ==> t@ == bytes@ && t.wf(),
            r is Some <==> borrow_in_spec(bytes@) is Some,
            r matches Some(t) ==> borrow_in_spec(bytes@) == Option::Some(t@),
    {
        if utf8_check(&bytes) {
            Some(Utf8Text { bytes })
        } else {
            None
        }
    }

    /// Copies the text.
    pub fn duplicate(&self) -> (r: Utf8Text)
        ensures
            r@ == self@,
            self.wf() ==> r.wf(),
    {
        Utf8Text { bytes: copy_bytes(&self.bytes) }
    }

    /// Own-out: allocates an owned wire buffer holding this text, to be
    /// released exactly once through [`OwnedText::release`].
    pub fn own_out(&self) -> (o: OwnedText)
        ensures
            o@ == own_out_spec(self@),
    {
        OwnedText { bytes: copy_bytes(&self.bytes) }
    }
}

/// Engine-allocated text handed across the boundary.  The wire shape
/// carries a deallocation callback that the receiver must invoke exactly
/// once; here that obligation is the value's ownership: the buffer can be
/// read while held and is released by consuming it, so a second release
/// does not type-check.
pub struct OwnedText {
    bytes: Vec<u8>,
}

impl View for OwnedText {
    type V = Seq<u8>;

    closed spec fn view(&self) -> Seq<u8> {
        self.bytes@
    }
}

impl OwnedText {
    /// Reads the buffer without releasing it.
    pub fn as_bytes(&self) -> (r: &Vec<u8>)
        ensures
            r@ == self@,
    {
        &self.bytes
    }

    /// Releases the buffer, handing its storage back to the engine's
    /// allocator.  Consumes the value: the one and only release.
    pub fn release(self) -> (r: Vec<u8>)
        ensures
            r@ == self@,
    {
        self.bytes
    }
}

/// Round-trip law: any well-formed UTF-8 byte sequence that is borrowed in
/// and then owned back out crosses the boundary unchanged.
pub proof fn lemma_string_round_trip(s: Seq<u8>)
    requires
        is_utf8(s),
    ensures
        borrow_in_spec(s) matches Some(t) && own_out_spec(t) == s,
{
}

} // verus!

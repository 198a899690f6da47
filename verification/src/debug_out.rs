//! The kernel's debug output, one character at a time.
//!
//! The kernel takes a character as a signed byte. Writing a string puts the
//! bytes of its UTF-8 form, in order; the handle decides which characters
//! those are, and whoever owns the system call puts them.

use vstd::prelude::*;
use vstd::string::*;
use vstd::utf8::encode_utf8;

verus! {

/// A handle on the kernel's debug output.
#[derive(Clone, Copy, Debug, PartialEq, Eq, Structural)]
pub struct DebugOutHandle;

/// The byte as the kernel takes it: the same eight bits, read as signed.
pub open spec fn c_char_of(byte: u8) -> i8 {
    if byte < 128 {
        byte as i8
    } else {
        (byte - 256) as i8
    }
}

/// The characters that writing `s` puts: its UTF-8 bytes, in order.
pub open spec fn debug_chars(s: Seq<char>) -> Seq<i8> {
    encode_utf8(s).map_values(|byte: u8| c_char_of(byte))
}

impl DebugOutHandle {
    /// The characters to put to the debug output for `s`, in the order in
    /// which to put them.
    pub fn write_str(&mut self, s: &str) -> (r: Vec<i8>)
        ensures
            r@ == debug_chars(s@),
    {
        let bytes = s.as_bytes();
        let mut out: Vec<i8> = Vec::new();
        let mut i: usize = 0;
        while i < bytes.len()
            invariant
                i <= bytes@.len(),
                bytes@ == encode_utf8(s@),
                out@.len() == i,
                forall|k: int| 0 <= k < i ==> out@[k] == c_char_of(bytes@[k]),
            decreases bytes@.len() - i,
        {
            let byte: u8 = bytes[i];
            let c: i8 = if byte < 128 {
                byte as i8
            } else {
                (byte as i16 - 256) as i8
            };
            out.push(c);
            i = i + 1;
        }
        proof {
            assert(out@ =~= debug_chars(s@));
        }
        out
    }
}

} // verus!

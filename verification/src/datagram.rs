//! What is done with a datagram once it has been received: the bytes that
//! arrived are cut out of the receive buffer and rendered as a hex dump.

use pretty_hex::PrettyHex;
use vstd::prelude::*;

verus! {

/// The hex dump of a byte sequence: a title line with the length, then one
/// row for each sixteen bytes, made of the row's offset, the bytes in
/// hexadecimal and the bytes as printable characters. It is what the crate
/// `pretty_hex` writes for the bytes in its default layout.
pub uninterp spec fn hex_dump_text(bytes: Seq<u8>) -> Seq<char>;

/// Formats with `{:?}` the value that `pretty_hex::PrettyHex::hex_dump` makes
/// of `data`. Not proved: that the text is a function of the bytes alone,
/// which carries the name `hex_dump_text`.
#[verifier::external_body]
fn format_hex_dump(data: &[u8]) -> (text: String)
    ensures
        text@ == hex_dump_text(data@),
{
    format!("{:?}", data.hex_dump())
}

/// Returns the first `size` bytes of a receive buffer: the datagram that a
/// receive call left there when it reported `size` bytes.
pub fn received_bytes(buffer: &[u8], size: usize) -> (data: Vec<u8>)
    requires
        size <= buffer@.len(),
    ensures
        data@ == buffer@.take(size as int),
{
    let mut data: Vec<u8> = Vec::with_capacity(size);
    let mut done: usize = 0;
    while done < size
        invariant
            done <= size <= buffer@.len(),
            data@ == buffer@.take(done as int),
        decreases size - done,
    {
        data.push(buffer[done]);
        done += 1;
    }
    data
}

/// Returns the hex dump of a datagram, ready to be printed.
pub fn hex_dump(data: &[u8]) -> (text: String)
    ensures
        text@ == hex_dump_text(data@),
{
    format_hex_dump(data)
}

} // verus!

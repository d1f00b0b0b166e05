use vstd::prelude::*;

verus! {

/// Number of leading bytes that decide a file's format.
pub const MAGIC_LEN: usize = 4;

/// The first four bytes of `h`, when it holds at least that many, belong to
/// one of the carrier formats: bitmap (`42 4D`), JPEG (`FF D8`), Sun/NeXT
/// audio (`2E 73 6E 64`) or RIFF/WAV (`52 49 46 46`).
pub open spec fn carrier_magic(h: Seq<u8>) -> bool {
    h.len() >= 4 && (
        (h[0] == 0x42u8 && h[1] == 0x4du8)
        || (h[0] == 0xffu8 && h[1] == 0xd8u8)
        || (h[0] == 0x2eu8 && h[1] == 0x73u8 && h[2] == 0x6eu8 && h[3] == 0x64u8)
        || (h[0] == 0x52u8 && h[1] == 0x49u8 && h[2] == 0x46u8 && h[3] == 0x46u8)
    )
}

/// A file of `size` bytes starting with `header` is a plausible carrier.
pub open spec fn carrier(size: u64, header: Seq<u8>, min_size: u64) -> bool {
    size >= min_size && carrier_magic(header)
}

/// Tests the leading bytes of a file against the carrier signatures.
/// Fewer than four bytes never match.
pub fn has_carrier_magic(header: &[u8]) -> (r: bool)
    ensures
        r == carrier_magic(header@),
{
    if header.len() < MAGIC_LEN {
        return false;
    }
    let (a, b, c, d) = (header[0], header[1], header[2], header[3]);
    (a == 0x42 && b == 0x4d)
        || (a == 0xff && b == 0xd8)
        || (a == 0x2e && b == 0x73 && c == 0x6e && d == 0x64)
        || (a == 0x52 && b == 0x49 && c == 0x46 && d == 0x46)
}

/// Accepts a file of `size` bytes whose content starts with `header` when it
/// is at least `min_size` bytes long and carries a known signature.
pub fn accepts(size: u64, header: &[u8], min_size: u64) -> (r: bool)
    ensures
        r == carrier(size, header@, min_size),
{
    size >= min_size && has_carrier_magic(header)
}

} // verus!

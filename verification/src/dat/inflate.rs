//! The one outside call of the decoder: raw-DEFLATE decompression.

use vstd::prelude::*;

verus! {

/// What the raw-DEFLATE decompressor returns for a compressed input and an
/// output buffer of `cap` bytes: `None` if it reports an error, otherwise the
/// bytes it wrote. The decompressor is a pure function of these two
/// arguments, so the result carries a name rather than a definition.
pub uninterp spec fn inflate_raw(input: Seq<u8>, cap: nat) -> Option<Seq<u8>>;

/// Relies on flate2::Decompress: constructed with `new(false)` it expects a
/// raw (headerless) DEFLATE stream; one `decompress` call with flush mode
/// `Sync` on `input` and a `cap`-byte output buffer either fails or writes
/// `total_out` bytes into the buffer, never more than `cap`; the outcome is
/// determined by `input` and `cap` alone.
#[verifier::external_body]
pub(crate) fn inflate(input: &Vec<u8>, cap: u32) -> (r: Option<Vec<u8>>)
    ensures
        (r is Some) == (inflate_raw(input@, cap as nat) is Some),
        r matches Some(v) ==> Some(v@) == inflate_raw(input@, cap as nat) && v@.len() <= cap,
{
    let mut out = vec![0u8; cap as usize];
    let mut decompressor = flate2::Decompress::new(false);
    match decompressor.decompress(
        input.as_slice(),
        out.as_mut_slice(),
        flate2::FlushDecompress::Sync,
    ) {
        Ok(_) => {
            out.truncate(decompressor.total_out() as usize);
            Some(out)
        }
        Err(_) => None,
    }
}

} // verus!

//! The payload pool: a fixed, immutable block of pseudo-random bytes,
//! wrapped in a binary image container so a download request looks like a
//! real file fetch, shared read-only by all sessions and sliced
//! per-request to synthesize download traffic.
//!
//! The pool also owns the download pacing: the fixed increasing schedule
//! of chunk sizes a test steps through as bandwidth is discovered.

use rand::Rng;
use vstd::prelude::*;
use vstd::slice::slice_subrange;

verus! {

/// Bytes per pixel of the RGBA container format.
pub const CONTAINER_BYTES_PER_PIXEL: usize = 4;

/// Container overhead: a 14-byte file header plus a 108-byte DIB header.
pub const CONTAINER_HEADER_BYTES: usize = 122;

/// Default pool size, in payload bytes.
pub const DEFAULT_PAYLOAD_BYTES: usize = 100_000_000;

/// Default container width, in pixels.
pub const DEFAULT_PAYLOAD_WIDTH: u32 = 5_000;

/// Default container height, in pixels.
pub const DEFAULT_PAYLOAD_HEIGHT: u32 = 5_000;

/// Fixed duration of one download test, in seconds.
pub const DOWNLOAD_TEST_DURATION_SECS: u64 = 15;

/// Size of the first download chunk, in bytes.
pub const DOWNLOAD_START_SIZE: u64 = 10_000_000;

/// The bytes of the container image built from the given RGBA pixel bytes
/// and dimensions.
pub uninterp spec fn bmp_encoding_of(pixels: Seq<u8>, width: u32, height: u32) -> Seq<u8>;

/// Relies on image's `BmpEncoder::encode` with RGBA pixels: writing to an
/// in-memory buffer, which cannot fail, it emits a 14-byte file header, a
/// 108-byte DIB header and 4 bytes per pixel with no row padding, all a
/// function of the pixel bytes and dimensions alone.
#[verifier::external_body]
fn encode_bmp(pixels: &Vec<u8>, width: u32, height: u32) -> (result: Vec<u8>)
    requires
        pixels@.len() == 4 * width * height,
        4 * width <= u32::MAX,
        4 * width * height + 122 <= u32::MAX,
    ensures
        result@ == bmp_encoding_of(pixels@, width, height),
        result@.len() == 122 + pixels@.len(),
{
    let mut buffer = Vec::new();
    let mut encoder = image::codecs::bmp::BmpEncoder::new(&mut buffer);
    encoder.encode(pixels, width, height, image::ExtendedColorType::Rgba8).expect(
        "encoding to memory with an exact buffer length",
    );
    buffer
}

/// Relies on rand's `ThreadRng::fill_bytes` to overwrite the buffer with
/// pseudo-random bytes in place.
#[verifier::external_body]
fn fill_random(buffer: &mut Vec<u8>)
    ensures
        final(buffer)@.len() == old(buffer)@.len(),
{
    rand::rng().fill_bytes(buffer.as_mut_slice());
}

/// A zeroed buffer of the given length.
fn zero_vec(len: usize) -> (result: Vec<u8>)
    ensures
        result@.len() == len,
{
    let mut buffer: Vec<u8> = Vec::new();
    let mut i: usize = 0;
    while i < len
        invariant
            buffer@.len() == i,
            i <= len,
        decreases len - i,
    {
        buffer.push(0u8);
        i = i + 1;
    }
    buffer
}

/// The configuration invariant checked once at startup: the declared
/// container dimensions must reproduce the payload byte size exactly, and
/// the whole container must fit the format's 32-bit size fields.
pub open spec fn spec_pool_config_ok(payload_len: usize, width: u32, height: u32) -> bool {
    &&& payload_len == CONTAINER_BYTES_PER_PIXEL * width * height
    &&& CONTAINER_BYTES_PER_PIXEL * width <= u32::MAX
    &&& payload_len + CONTAINER_HEADER_BYTES <= u32::MAX
}

/// The immutable pool: `payload_len` pseudo-random bytes inside a
/// container of `CONTAINER_HEADER_BYTES` overhead, filled exactly once at
/// process start and sliced read-only ever after.
pub struct PayloadPool {
    data: Vec<u8>,
    payload_len: usize,
}

impl View for PayloadPool {
    type V = Seq<u8>;

    closed spec fn view(&self) -> Seq<u8> {
        self.data@
    }
}

impl PayloadPool {
    /// The configured payload size, without the container overhead.
    pub closed spec fn spec_payload_len(&self) -> int {
        self.payload_len as int
    }

    /// Validity: the pool holds the payload plus the container header.
    pub open spec fn wf(&self) -> bool {
        self@.len() == self.spec_payload_len() + CONTAINER_HEADER_BYTES
    }

    /// Builds the pool, or reports the fatal configuration error: it
    /// fails exactly when the declared dimensions do not reproduce the
    /// declared byte size, checked once here and never at request time.
    pub fn initialize(payload_len: usize, width: u32, height: u32) -> (result: Option<PayloadPool>)
        ensures
            result is Some <==> spec_pool_config_ok(payload_len, width, height),
            result matches Some(pool) ==> pool.wf() && pool.spec_payload_len() == payload_len,
    {
        proof {
            assert(4 * (width as u128) * (height as u128) <= 4 * (u32::MAX as u128) * (
            u32::MAX as u128)) by (nonlinear_arith)
                requires
                    width <= u32::MAX && height <= u32::MAX,
            ;
        }
        let pixel_bytes: u128 = 4u128 * (width as u128) * (height as u128);
        if pixel_bytes == payload_len as u128 && 4u128 * (width as u128) <= u32::MAX as u128 && (
        payload_len as u128) + (CONTAINER_HEADER_BYTES as u128) <= u32::MAX as u128 {
            let mut pixels = zero_vec(payload_len);
            fill_random(&mut pixels);
            let data = encode_bmp(&pixels, width, height);
            Some(PayloadPool { data, payload_len })
        } else {
            None
        }
    }

    /// Total bytes available to slice: payload plus container header.
    pub fn total_len(&self) -> (result: usize)
        ensures
            result == self@.len(),
    {
        self.data.len()
    }

    /// A read-only view of the first `byte_count` bytes of the pool, for
    /// synthesizing one download response without a copy.
    pub fn fetch_payload(&self, byte_count: usize) -> (result: &[u8])
        requires
            byte_count <= self@.len(),
        ensures
            result@ == self@.subrange(0, byte_count as int),
    {
        slice_subrange(self.data.as_slice(), 0, byte_count)
    }
}

/// The download pacing schedule: the size of the chunk to request after
/// the one numbered `counter`, stepping up to the 100-megabyte plateau.
pub open spec fn spec_next_chunk_size(counter: u64) -> u64 {
    if counter == 0 {
        20_000_000
    } else if counter == 1 {
        30_000_000
    } else if counter == 2 {
        40_000_000
    } else if counter == 3 {
        50_000_000
    } else if counter == 4 {
        60_000_000
    } else if counter == 5 {
        70_000_000
    } else if counter == 6 {
        80_000_000
    } else if counter == 7 {
        90_000_000
    } else {
        100_000_000
    }
}

/// The size of the next chunk a client should request, given how many it
/// has completed.
pub fn next_chunk_size(counter: u64) -> (result: u64)
    ensures
        result == spec_next_chunk_size(counter),
{
    if counter == 0 {
        20_000_000
    } else if counter == 1 {
        30_000_000
    } else if counter == 2 {
        40_000_000
    } else if counter == 3 {
        50_000_000
    } else if counter == 4 {
        60_000_000
    } else if counter == 5 {
        70_000_000
    } else if counter == 6 {
        80_000_000
    } else if counter == 7 {
        90_000_000
    } else {
        100_000_000
    }
}

} // verus!

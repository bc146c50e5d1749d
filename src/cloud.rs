//! Unpacking of sensor frames into point clouds.
//!
//! Every three payload bytes `(b0, b1, b2)` carry two 12-bit samples:
//! `b0 | (b1 & 0x0F) << 8` and `(b1 & 0xF0) >> 4 | b2 << 4`.
use vstd::prelude::*;

verus! {

/// Columns of the sensor's depth image.
pub const WIDTH: u32 = 160;

/// Rows of the sensor's depth image.
pub const HEIGHT: u32 = 60;

/// Largest value a 12-bit sample can hold.
pub const SAMPLE_MAX: u16 = 4095;

/// Failure to unpack a point cloud.
#[derive(Debug, Clone, Copy, PartialEq, Eq, Structural)]
pub enum CloudError {
    /// The payload ends before every sample has been filled.
    PayloadTooShort,
}

/// A dense, row-major array of `width * height` 12-bit depth samples.
#[derive(Debug, Clone, PartialEq, Eq)]
pub struct PointCloud {
    pub width: u32,
    pub height: u32,
    pub samples: Vec<u16>,
}

/// Bytes needed to pack `n` samples at 12 bits each: `ceil(n * 12 / 8)`.
pub open spec fn packed_len(n: int) -> int {
    (3 * n + 1) / 2
}

/// Sample `i` as packed in `b`: samples `2k` and `2k + 1` come from bytes
/// `3k`, `3k + 1` and `3k + 2`.
pub open spec fn sample_at(b: Seq<u8>, i: int) -> u16 {
    let j = 3 * (i / 2);
    if i % 2 == 0 {
        (b[j] as u16) | (((b[j + 1] as u16) & 0x0F) << 8)
    } else {
        (((b[j + 1] as u16) & 0xF0) >> 4) | ((b[j + 2] as u16) << 4)
    }
}

impl PointCloud {
    /// The cloud holds `width * height` samples, each within 12 bits.
    pub open spec fn wf(&self) -> bool {
        &&& self.samples@.len() == self.width as int * self.height as int
        &&& forall|i: int| 0 <= i < self.samples@.len() ==> self.samples@[i] <= SAMPLE_MAX
    }
}

proof fn lemma_low_sample(x: u16, y: u16)
    requires
        x < 256,
        y < 256,
    ensures
        x | ((y & 0x0F) << 8) <= 4095,
{
    assert(x < 256 && y < 256 ==> x | ((y & 0x0F) << 8) <= 4095) by (bit_vector);
}

proof fn lemma_high_sample(y: u16, z: u16)
    requires
        y < 256,
        z < 256,
    ensures
        ((y & 0xF0) >> 4) | (z << 4) <= 4095,
{
    assert(y < 256 && z < 256 ==> ((y & 0xF0) >> 4) | (z << 4) <= 4095) by (bit_vector);
}

/// Unpacks `width * height` samples from `payload`, three bytes for every two
/// samples, left to right. Bytes past the last one needed are ignored. Fails
/// exactly when the payload holds fewer than `ceil(width * height * 12 / 8)`
/// bytes.
pub fn decode_point_cloud(payload: &[u8], width: u32, height: u32) -> (r: Result<
    PointCloud,
    CloudError,
>)
    ensures
        (payload@.len() < packed_len(width as int * height as int)) <==> r is Err,
        r matches Ok(c) ==> {
            &&& c.wf()
            &&& c.width == width
            &&& c.height == height
            &&& forall|i: int| 0 <= i < c.samples@.len() ==> c.samples@[i] == sample_at(payload@, i)
        },
{
    proof {
        assert(0 <= width as int * height as int <= u32::MAX as int * u32::MAX as int)
            by (nonlinear_arith);
    }
    let n64: u64 = width as u64 * height as u64;
    let len = payload.len();
    if n64 > len as u64 {
        return Err(CloudError::PayloadTooShort);
    }
    let n = n64 as usize;
    if len - n < n / 2 + n % 2 {
        return Err(CloudError::PayloadTooShort);
    }
    let mut samples: Vec<u16> = Vec::with_capacity(n);
    let mut i: usize = 0;
    let mut j: usize = 0;
    while i + 1 < n
        invariant
            n == width as int * height as int,
            packed_len(n as int) <= payload@.len(),
            i % 2 == 0,
            i <= n,
            j == 3 * (i / 2),
            samples@.len() == i,
            forall|t: int| 0 <= t < i ==> samples@[t] == sample_at(payload@, t),
            forall|t: int| 0 <= t < i ==> samples@[t] <= SAMPLE_MAX,
        decreases n - i,
    {
        let b0 = payload[j] as u16;
        let b1 = payload[j + 1] as u16;
        let b2 = payload[j + 2] as u16;
        let lo = b0 | ((b1 & 0x0F) << 8);
        let hi = ((b1 & 0xF0) >> 4) | (b2 << 4);
        proof {
            lemma_low_sample(b0, b1);
            lemma_high_sample(b1, b2);
            assert((i as int + 1) / 2 == i as int / 2);
        }
        samples.push(lo);
        samples.push(hi);
        i = i + 2;
        j = j + 3;
    }
    if i < n {
        let b0 = payload[j] as u16;
        let b1 = payload[j + 1] as u16;
        proof {
            lemma_low_sample(b0, b1);
        }
        samples.push(b0 | ((b1 & 0x0F) << 8));
    }
    Ok(PointCloud { width, height, samples })
}

} // verus!

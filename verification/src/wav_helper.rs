//! Sample-container bookkeeping: header description, the integer scale
//! of each supported bit depth, and channel interleaving.

use vstd::prelude::*;

verus! {

/// Numeric encoding of the samples in a container: IEEE floats or
/// scaled integers.
#[derive(Debug, Clone, Copy, PartialEq, Eq, Structural)]
pub enum Format {
    Float,
    Int,
}

/// Shape of an audio stream: how many channels, how fast, and how the
/// samples are encoded.
#[derive(Debug, Clone, Copy, PartialEq, Eq, Structural)]
pub struct WaveHeader {
    pub channels: u16,
    pub sample_rate: u32,
    pub bit_depth: u16,
    pub format: Format,
}

/// A container request the library rejects: a bit depth outside
/// {8, 16, 24, 32}, or a channel count outside {1, 2}.
#[derive(Debug, Clone, Copy, PartialEq, Eq, Structural)]
pub enum WavError {
    UnsupportedBitDepth(u16),
    UnsupportedChannelCount(usize),
}

/// Largest representable magnitude of an integer sample of the given
/// bit depth; normalized float samples are multiplied or divided by it
/// when converting. Only 8, 16, 24 and 32 bits are supported.
pub open spec fn int_scale_spec(bit_depth: u16) -> Result<i32, WavError> {
    if bit_depth == 8 {
        Ok(127)
    } else if bit_depth == 16 {
        Ok(32767)
    } else if bit_depth == 24 {
        Ok(0x7FFFFF)
    } else if bit_depth == 32 {
        Ok(0x7FFFFFFF)
    } else {
        Err(WavError::UnsupportedBitDepth(bit_depth))
    }
}

/// Integer scale of a bit depth: the divisor applied when decoding
/// integer samples to floats, and the multiplier applied when encoding
/// them back. Unsupported depths are reported, never guessed.
pub fn int_scale(bit_depth: u16) -> (r: Result<i32, WavError>)
    ensures
        r == int_scale_spec(bit_depth),
{
    if bit_depth == 8 {
        Ok(127)
    } else if bit_depth == 16 {
        Ok(32767)
    } else if bit_depth == 24 {
        Ok(0x7FFFFF)
    } else if bit_depth == 32 {
        Ok(0x7FFFFFFF)
    } else {
        Err(WavError::UnsupportedBitDepth(bit_depth))
    }
}

/// Merge per-channel sample sequences into one frame-ordered sequence.
/// One channel passes through unchanged; two channels alternate,
/// frame by frame, for as many whole frames as both channels cover.
/// Any other channel count is unsupported.
pub fn interleave<T: Copy>(input: Vec<Vec<T>>) -> (r: Result<Vec<T>, WavError>)
    ensures
        input@.len() == 1 ==> (r matches Ok(v) && v@ == input@[0]@),
        input@.len() == 2 ==> (r matches Ok(v) && {
            let frames = if input@[0]@.len() <= input@[1]@.len() {
                input@[0]@.len()
            } else {
                input@[1]@.len()
            };
            &&& v@.len() == 2 * frames
            &&& (forall|j: int| 0 <= j < frames ==> #[trigger] v@[2 * j] == input@[0]@[j])
            &&& (forall|j: int| 0 <= j < frames ==> #[trigger] v@[2 * j + 1] == input@[1]@[j])
        }),
        input@.len() != 1 && input@.len() != 2 ==> r == Err::<Vec<T>, WavError>(
            WavError::UnsupportedChannelCount(input@.len() as usize),
        ),
{
    if input.len() == 1 {
        let mut input = input;
        let only = input.remove(0);
        Ok(only)
    } else if input.len() == 2 {
        let frames = if input[0].len() <= input[1].len() {
            input[0].len()
        } else {
            input[1].len()
        };
        let mut out: Vec<T> = Vec::new();
        let mut i: usize = 0;
        while i < frames
            invariant
                input@.len() == 2,
                frames <= input@[0]@.len(),
                frames <= input@[1]@.len(),
                0 <= i <= frames,
                out@.len() == 2 * i,
                forall|j: int| 0 <= j < i ==> #[trigger] out@[2 * j] == input@[0]@[j],
                forall|j: int| 0 <= j < i ==> #[trigger] out@[2 * j + 1] == input@[1]@[j],
            decreases frames - i,
        {
            let a = input[0][i];
            let b = input[1][i];
            out.push(a);
            out.push(b);
            i += 1;
        }
        Ok(out)
    } else {
        Err(WavError::UnsupportedChannelCount(input.len()))
    }
}

/// Split one frame-ordered sequence into per-channel sample sequences.
/// One channel passes through unchanged; two channels are de-alternated
/// frame by frame, which asks for an even number of samples. Any other
/// channel count is unsupported.
pub fn uninterleave<T: Copy>(input: Vec<T>, channels: u16) -> (r: Result<Vec<Vec<T>>, WavError>)
    requires
        channels == 2 ==> input@.len() % 2 == 0,
    ensures
        channels == 1 ==> (r matches Ok(v) && v@.len() == 1 && v@[0]@ == input@),
        channels == 2 ==> (r matches Ok(v) && {
            &&& v@.len() == 2
            &&& v@[0]@.len() == input@.len() / 2
            &&& v@[1]@.len() == input@.len() / 2
            &&& (forall|j: int|
                0 <= j < input@.len() / 2 ==> #[trigger] v@[0]@[j] == input@[2 * j])
            &&& (forall|j: int|
                0 <= j < input@.len() / 2 ==> #[trigger] v@[1]@[j] == input@[2 * j + 1])
        }),
        channels != 1 && channels != 2 ==> r == Err::<Vec<Vec<T>>, WavError>(
            WavError::UnsupportedChannelCount(channels as usize),
        ),
{
    if channels == 1 {
        Ok(vec![input])
    } else if channels == 2 {
        let len = input.len();
        let frames = len / 2;
        let mut left: Vec<T> = Vec::new();
        let mut right: Vec<T> = Vec::new();
        let mut i: usize = 0;
        while i < frames
            invariant
                len == input@.len(),
                input@.len() % 2 == 0,
                frames == input@.len() / 2,
                0 <= i <= frames,
                left@.len() == i,
                right@.len() == i,
                forall|j: int| 0 <= j < i ==> #[trigger] left@[j] == input@[2 * j],
                forall|j: int| 0 <= j < i ==> #[trigger] right@[j] == input@[2 * j + 1],
            decreases frames - i,
        {
            let a = input[2 * i];
            let b = input[2 * i + 1];
            left.push(a);
            right.push(b);
            i += 1;
        }
        Ok(vec![left, right])
    } else {
        Err(WavError::UnsupportedChannelCount(channels as usize))
    }
}

} // verus!

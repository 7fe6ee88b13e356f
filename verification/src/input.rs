//! Where the renderer reads past audio samples from: positions relative to the
//! read position of the audio ring buffer.
use vstd::prelude::*;

verus! {

/// The position, relative to the read position, of the sample `sample` steps
/// before frame `frame`: the frame reinterpreted as a signed number, minus `sample`,
/// saturating at the smallest signed value.
pub fn buffered_sample_index(frame: usize, sample: usize) -> (i: isize)
    ensures
        i == (if (frame as isize) - sample < isize::MIN {
            isize::MIN as int
        } else {
            (frame as isize) - sample
        }),
{
    let f = frame as isize;
    let r: i128 = (f as i128) - (sample as i128);
    if r < isize::MIN as i128 {
        isize::MIN
    } else {
        r as isize
    }
}

} // verus!

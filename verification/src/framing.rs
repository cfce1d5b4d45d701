use vstd::prelude::*;

verus! {

/// Number of samples of `len` that a frame of `frame_size` starting at
/// `offset` takes from the input.
pub open spec fn frame_take(len: int, offset: int, frame_size: int) -> int {
    if frame_size <= len - offset {
        frame_size
    } else {
        len - offset
    }
}

/// A frame takes every input sample that fits in it: as many as the frame
/// holds when enough input remains, otherwise all that remains.
pub proof fn lemma_frame_take_fits(len: int, offset: int, frame_size: int)
    requires
        0 <= offset <= len,
        frame_size >= 0,
    ensures
        frame_take(len, offset, frame_size) == vstd::math::min(frame_size, len - offset),
        offset + frame_take(len, offset, frame_size) <= len,
        frame_take(len, offset, frame_size) < frame_size ==> offset + frame_take(
            len,
            offset,
            frame_size,
        ) == len,
{
}

/// The frame of `frame_size` samples that starts at `offset` in `samples`:
/// the input samples there, padded with `fill` where the input ends. Also
/// returns how many samples came from the input, which is how many output
/// samples of the frame are kept.
pub fn padded_frame<T: Copy>(samples: &[T], offset: usize, frame_size: usize, fill: T) -> (r: (
    Vec<T>,
    usize,
))
    requires
        offset <= samples@.len(),
    ensures
        r.1 == frame_take(samples@.len() as int, offset as int, frame_size as int),
        r.1 as int == vstd::math::min(frame_size as int, samples@.len() - offset),
        r.0@.len() == frame_size,
        forall|i: int| 0 <= i < r.1 ==> r.0@[i] == samples@[offset + i],
        forall|i: int| r.1 <= i < frame_size ==> r.0@[i] == fill,
{
    let remaining = samples.len() - offset;
    let take = if frame_size <= remaining {
        frame_size
    } else {
        remaining
    };
    let mut frame: Vec<T> = Vec::new();
    let mut i: usize = 0;
    while i < frame_size
        invariant
            i <= frame_size,
            take <= frame_size,
            offset + take <= samples@.len(),
            remaining == samples@.len() - offset,
            samples@.len() <= usize::MAX,
            frame@.len() == i,
            forall|j: int| 0 <= j < i && j < take ==> frame@[j] == samples@[offset + j],
            forall|j: int| take <= j < i ==> frame@[j] == fill,
        decreases frame_size - i,
    {
        if i < take {
            frame.push(samples[offset + i]);
        } else {
            frame.push(fill);
        }
        i += 1;
    }
    (frame, take)
}

} // verus!

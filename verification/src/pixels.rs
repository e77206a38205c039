use vstd::prelude::*;

verus! {

/// Bytes per pixel of the interleaved RGB layout the pipeline works on.
pub const CHANNELS: u32 = 3;

/// A decoded image: interleaved 8-bit RGB rows, top to bottom.
pub struct Pixels {
    pub width: u32,
    pub height: u32,
    pub data: Vec<u8>,
}

impl Pixels {
    /// Well-formedness: both sides are positive and within what the codec
    /// can encode, and the buffer holds exactly one RGB triple per pixel.
    pub open spec fn wf(self) -> bool {
        &&& 1 <= self.width <= crate::policy::MAX_DIMENSION
        &&& 1 <= self.height <= crate::policy::MAX_DIMENSION
        &&& self.data@.len() == self.width * self.height * CHANNELS
    }
}

/// A channel value pushed out of the valid range is held at the bound it
/// crossed.
pub open spec fn clamp_channel(v: int) -> int {
    if v < 0 {
        0
    } else if v > 255 {
        255
    } else {
        v
    }
}

/// Every channel moved by `delta`, saturating at the channel bounds.
pub open spec fn spec_brighten(s: Seq<u8>, delta: int) -> Seq<u8> {
    Seq::new(s.len(), |i: int| clamp_channel(s[i] + delta) as u8)
}

/// Brightening saturates: every output channel is the input channel moved
/// by `delta` and held inside the valid range, for every `delta`, with no
/// wraparound.
pub proof fn lemma_brighten_saturates(s: Seq<u8>, delta: int)
    ensures
        spec_brighten(s, delta).len() == s.len(),
        forall|i: int|
            0 <= i < s.len() ==> 0 <= spec_brighten(s, delta)[i] <= 255 && spec_brighten(
                s,
                delta,
            )[i] == clamp_channel(s[i] + delta),
{
}

/// Adds `delta` to every channel of `data`, saturating at the channel
/// bounds.
pub fn brighten_data(data: &Vec<u8>, delta: i32) -> (r: Vec<u8>)
    ensures
        r@ == spec_brighten(data@, delta as int),
{
    let mut r: Vec<u8> = Vec::new();
    let mut i: usize = 0;
    while i < data.len()
        invariant
            i <= data@.len(),
            r@.len() == i,
            forall|j: int| 0 <= j < i ==> r@[j] == clamp_channel(data@[j] + delta) as u8,
        decreases data@.len() - i,
    {
        let moved: i64 = data[i] as i64 + delta as i64;
        let v: u8 = if moved < 0 {
            0
        } else if moved > 255 {
            255
        } else {
            moved as u8
        };
        r.push(v);
        i += 1;
    }
    proof {
        assert(r@ =~= spec_brighten(data@, delta as int));
    }
    r
}

} // verus!

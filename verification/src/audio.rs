//! The last block of audio a core handed over, waiting to be played.
use vstd::prelude::*;

verus! {

/// Interleaved stereo samples from the core: `frames` frames of `channel` samples each.
/// `data` is `None` until the core has sent anything.
pub struct AudioNewFrame {
    pub data: Option<Vec<i16>>,
    pub frames: usize,
    pub channel: u16,
}

/// Two samples, left and right, make a frame.
pub open spec fn stereo_len(frames: usize) -> int {
    frames * 2
}

impl AudioNewFrame {
    /// Nothing received yet, in stereo.
    pub fn new() -> (r: AudioNewFrame)
        ensures
            r.data is None,
            r.frames == 0,
            r.channel == 2,
    {
        AudioNewFrame { data: None, frames: 0, channel: 2 }
    }

    /// A batch of `frames` stereo frames takes the place of what was waiting; the number of
    /// frames taken is returned.
    pub fn set_batch(&mut self, data: Vec<i16>, frames: usize) -> (r: usize)
        requires
            data@.len() == stereo_len(frames),
        ensures
            r == frames,
            final(self).data == Some(data),
            final(self).frames == frames,
            final(self).channel == 2,
    {
        self.data = Some(data);
        self.frames = frames;
        self.channel = 2;
        frames
    }

    /// A single stereo frame takes the place of what was waiting.
    pub fn set_sample(&mut self, left: i16, right: i16)
        ensures
            final(self).data matches Some(d) && d@ == seq![left, right],
            final(self).frames == 1,
            final(self).channel == 2,
    {
        let mut d: Vec<i16> = Vec::new();
        d.push(left);
        d.push(right);
        self.data = Some(d);
        self.frames = 1;
        self.channel = 2;
    }

    /// The samples to play: none before the core sent any, else the first two samples of
    /// each frame waiting.
    pub fn samples(&self) -> (r: Option<Vec<i16>>)
        requires
            self.data matches Some(d) ==> stereo_len(self.frames) <= d@.len(),
        ensures
            r is Some <==> self.data is Some,
            r matches Some(v) ==> v@ == self.data->0@.subrange(0, stereo_len(self.frames)),
    {
        match &self.data {
            None => None,
            Some(d) => {
                let len = d.len();
                assert(self.frames * 2 <= len);
                let n = self.frames * 2;
                let mut out: Vec<i16> = Vec::new();
                let mut i: usize = 0;
                while i < n
                    invariant
                        n == stereo_len(self.frames),
                        n <= d@.len(),
                        i <= n,
                        out@ == d@.subrange(0, i as int),
                    decreases n - i,
                {
                    out.push(d[i]);
                    i = i + 1;
                }
                Some(out)
            },
        }
    }
}

} // verus!

use vstd::prelude::*;

verus! {

/// One block of audio on its way through a filter: a number of frames and,
/// for each channel, the plane of bytes that holds them.
#[derive(Debug, Clone, PartialEq, Eq)]
pub struct AudioDataContext {
    pub frames: u32,
    pub planes: Vec<Vec<u8>>,
    pub timestamp: u64,
}

impl AudioDataContext {
    pub fn from_raw(frames: u32, planes: Vec<Vec<u8>>, timestamp: u64) -> (r: Self)
        ensures
            r == (AudioDataContext { frames, planes, timestamp }),
    {
        Self { frames, planes, timestamp }
    }

    pub fn frames(&self) -> (r: usize)
        ensures
            r == self.frames,
    {
        self.frames as usize
    }

    pub fn channels(&self) -> (r: usize)
        ensures
            r == self.planes@.len(),
    {
        self.planes.len()
    }

    /// The bytes of one channel; nothing for a channel that the block lacks.
    pub fn channel_bytes(&self, channel: usize) -> (r: Option<&Vec<u8>>)
        ensures
            r is Some <==> channel < self.planes@.len(),
            r matches Some(plane) ==> *plane == self.planes@[channel as int],
    {
        if channel >= self.planes.len() {
            return None;
        }
        Some(&self.planes[channel])
    }
}

/// The shape of an audio output.
#[derive(Debug, Clone, Copy, PartialEq, Eq, Structural)]
pub struct AudioInfo {
    pub sample_rate: usize,
    pub channels: usize,
}

/// The audio output of the host, by its address. The handle observes the
/// output and does not own it: it takes no reference and releases none.
#[derive(Debug, Clone, Copy, PartialEq, Eq, Structural)]
pub struct AudioRef {
    pub pointer: usize,
}

impl AudioRef {
    pub fn from_raw(pointer: usize) -> (r: Self)
        ensures
            r.pointer == pointer,
    {
        Self { pointer }
    }
}

} // verus!

use vstd::prelude::*;

verus! {

/// The pixel layout of a video frame.
#[derive(Debug, Clone, Copy)]
pub enum VideoFormat {
    Unknown,
    /// The host's "no format".
    Unset,
    I420,
    NV12,
    YVYU,
    YUY2,
    UYVY,
    RGBA,
    BGRA,
    BGRX,
    Y800,
    I444,
    BGR3,
    I422,
    I40A,
    I42A,
    YUVA,
    AYUV,
}

impl VideoFormat {
    /// The format that the host numbers `raw`; `Unknown` for every number
    /// that the host does not use.
    pub open spec fn of_raw(raw: u32) -> VideoFormat {
        if raw == 0 {
            VideoFormat::Unset
        } else if raw == 1 {
            VideoFormat::I420
        } else if raw == 2 {
            VideoFormat::NV12
        } else if raw == 3 {
            VideoFormat::YVYU
        } else if raw == 4 {
            VideoFormat::YUY2
        } else if raw == 5 {
            VideoFormat::UYVY
        } else if raw == 6 {
            VideoFormat::RGBA
        } else if raw == 7 {
            VideoFormat::BGRA
        } else if raw == 8 {
            VideoFormat::BGRX
        } else if raw == 9 {
            VideoFormat::Y800
        } else if raw == 10 {
            VideoFormat::I444
        } else if raw == 11 {
            VideoFormat::BGR3
        } else if raw == 12 {
            VideoFormat::I422
        } else if raw == 13 {
            VideoFormat::I40A
        } else if raw == 14 {
            VideoFormat::I42A
        } else if raw == 15 {
            VideoFormat::YUVA
        } else if raw == 16 {
            VideoFormat::AYUV
        } else {
            VideoFormat::Unknown
        }
    }

    /// Whether the format is one that the host knows.
    pub open spec fn is_known(self) -> bool {
        !(self is Unknown)
    }
}

impl vstd::std_specs::convert::FromSpecImpl<u32> for VideoFormat {
    open spec fn obeys_from_spec() -> bool {
        true
    }

    open spec fn from_spec(raw: u32) -> VideoFormat {
        VideoFormat::of_raw(raw)
    }
}

impl From<u32> for VideoFormat {
    fn from(raw: u32) -> (r: VideoFormat) {
        match raw {
            0 => VideoFormat::Unset,
            1 => VideoFormat::I420,
            2 => VideoFormat::NV12,
            3 => VideoFormat::YVYU,
            4 => VideoFormat::YUY2,
            5 => VideoFormat::UYVY,
            6 => VideoFormat::RGBA,
            7 => VideoFormat::BGRA,
            8 => VideoFormat::BGRX,
            9 => VideoFormat::Y800,
            10 => VideoFormat::I444,
            11 => VideoFormat::BGR3,
            12 => VideoFormat::I422,
            13 => VideoFormat::I40A,
            14 => VideoFormat::I42A,
            15 => VideoFormat::YUVA,
            16 => VideoFormat::AYUV,
            _ => VideoFormat::Unknown,
        }
    }
}

impl vstd::std_specs::cmp::PartialEqSpecImpl for VideoFormat {
    open spec fn obeys_eq_spec() -> bool {
        true
    }

    /// Two formats compare equal when they are the same known format: an
    /// unknown format equals nothing, itself included.
    open spec fn eq_spec(&self, other: &VideoFormat) -> bool {
        self.is_known() && *self == *other
    }
}

impl PartialEq for VideoFormat {
    fn eq(&self, other: &VideoFormat) -> (r: bool) {
        match (self, other) {
            (VideoFormat::Unset, VideoFormat::Unset) => true,
            (VideoFormat::I420, VideoFormat::I420) => true,
            (VideoFormat::NV12, VideoFormat::NV12) => true,
            (VideoFormat::YVYU, VideoFormat::YVYU) => true,
            (VideoFormat::YUY2, VideoFormat::YUY2) => true,
            (VideoFormat::UYVY, VideoFormat::UYVY) => true,
            (VideoFormat::RGBA, VideoFormat::RGBA) => true,
            (VideoFormat::BGRA, VideoFormat::BGRA) => true,
            (VideoFormat::BGRX, VideoFormat::BGRX) => true,
            (VideoFormat::Y800, VideoFormat::Y800) => true,
            (VideoFormat::I444, VideoFormat::I444) => true,
            (VideoFormat::BGR3, VideoFormat::BGR3) => true,
            (VideoFormat::I422, VideoFormat::I422) => true,
            (VideoFormat::I40A, VideoFormat::I40A) => true,
            (VideoFormat::I42A, VideoFormat::I42A) => true,
            (VideoFormat::YUVA, VideoFormat::YUVA) => true,
            (VideoFormat::AYUV, VideoFormat::AYUV) => true,
            _ => false,
        }
    }
}

/// One video frame on its way through a filter: what the host tells about
/// it, without the pixels.
#[derive(Debug, Clone, PartialEq, Eq)]
pub struct VideoDataSourceContext {
    pub format: u32,
    pub width: u32,
    pub height: u32,
    pub linesize: Vec<u32>,
    pub timestamp: u64,
}

impl VideoDataSourceContext {
    pub fn from_raw(format: u32, width: u32, height: u32, linesize: Vec<u32>, timestamp: u64) -> (r:
        Self)
        ensures
            r == (VideoDataSourceContext { format, width, height, linesize, timestamp }),
    {
        Self { format, width, height, linesize, timestamp }
    }

    pub fn format(&self) -> (r: VideoFormat)
        ensures
            r == VideoFormat::of_raw(self.format),
    {
        VideoFormat::from(self.format)
    }

    pub fn width(&self) -> (r: u32)
        ensures
            r == self.width,
    {
        self.width
    }

    pub fn height(&self) -> (r: u32)
        ensures
            r == self.height,
    {
        self.height
    }

    /// The bytes per line of plane `idx`.
    pub fn linesize(&self, idx: usize) -> (r: u32)
        requires
            idx < self.linesize@.len(),
        ensures
            r == self.linesize@[idx as int],
    {
        self.linesize[idx]
    }

    pub fn timestamp(&self) -> (r: u64)
        ensures
            r == self.timestamp,
    {
        self.timestamp
    }
}

/// One raw video frame handed to an output.
#[derive(Debug, Clone, PartialEq, Eq)]
pub struct VideoDataOutputContext {
    pub linesize: Vec<u32>,
    pub timestamp: u64,
}

impl VideoDataOutputContext {
    pub fn from_raw(linesize: Vec<u32>, timestamp: u64) -> (r: Self)
        ensures
            r == (VideoDataOutputContext { linesize, timestamp }),
    {
        Self { linesize, timestamp }
    }

    /// The bytes per line of plane `idx`.
    pub fn linesize(&self, idx: usize) -> (r: u32)
        requires
            idx < self.linesize@.len(),
        ensures
            r == self.linesize@[idx as int],
    {
        self.linesize[idx]
    }

    pub fn timestamp(&self) -> (r: u64)
        ensures
            r == self.timestamp,
    {
        self.timestamp
    }
}

/// The video output of the host, by its address. The handle observes the
/// output and does not own it: it takes no reference and releases none.
#[derive(Debug, Clone, Copy, PartialEq, Eq, Structural)]
pub struct VideoRef {
    pub pointer: usize,
}

impl VideoRef {
    pub fn from_raw(pointer: usize) -> (r: Self)
        ensures
            r.pointer == pointer,
    {
        Self { pointer }
    }
}

} // verus!

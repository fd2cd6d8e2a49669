pub mod audio;
pub mod state;
pub mod video;

pub use audio::{AudioDataContext, AudioInfo, AudioRef};
pub use state::MediaState;
pub use video::{VideoDataOutputContext, VideoDataSourceContext, VideoFormat, VideoRef};

pub mod audio_player;
pub mod audio_resource;
pub mod controller;
pub mod duration_format;
pub mod options;

pub use audio_player::AudioPlayer;
pub use audio_resource::AudioResource;
pub use duration_format::format_mm_ss;
pub use options::Options;

//! Building blocks shared by the sound channels.

pub mod divider;
pub mod envelope;
pub mod frame;
pub mod lencounter;
pub mod sweep;

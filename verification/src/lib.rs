//! Pomelo's verified core: the playback-queue state machine of the video
//! player page, the computing half of the video source resolver, the
//! timestamp formatter, and the small data types the pages share. The GUI
//! shell, the network fetch and the real decoder live outside the library
//! and talk to it through plain values.

pub mod error;
pub mod laws;
pub mod media;
pub mod pages;
pub mod player;
pub mod resolve;
pub mod timestamp;

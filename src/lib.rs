//! Rendering of images and video frames as terminal text, with pan/zoom
//! mapping and frame pacing.

pub mod frame;
pub mod resizer;
pub mod converters;
pub mod zoomer;
pub mod playback;
pub mod interactive;
pub mod video;
pub mod preprocess;
pub mod img;

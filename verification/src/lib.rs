//! Voice-activity-gated audio capture: the decisions of the recorder, verified.
//!
//! The crate holds no audio device, classifier or file. It decides: which input
//! device and sample rate a session gets, how incoming samples are cut into
//! chunks, when a recording file is opened and closed, and which session is
//! the live one. The caller performs the input and output that these decisions
//! ask for.

pub mod graceful_shutdown;
pub mod macos_media;
pub mod recorder;
pub mod text;

//! Screenshot acquisition-and-transcoding pipeline for a window-automation
//! bridge: a verified resize policy, format transcoding and data-URI
//! packaging, with the window-resize command's outcome handling and the port
//! scan used to run several instances side by side.
pub mod discovery;
pub mod resize_window;
pub mod screenshot;
pub mod text;

//! Control logic of the NVIDIA Jetson hardware video encoder and of the zero-copy
//! screen capture that feeds it.
//!
//! The Jetson encoder block is reached through `NvBufSurface` buffers and a V4L2
//! device. This crate holds every decision around those calls: which surface may
//! be overwritten, which input slot is free, how many frames stay in flight, what
//! is returned for each answer of the device. The calls themselves are made by the
//! caller, which performs the action it is given and hands back the answer.

pub mod capture;
pub mod capture_laws;
pub mod capture_model;
pub mod encoder;
pub mod encoder_laws;
pub mod encoder_model;
pub mod error;
pub mod format;
pub mod frame;
pub mod search;
pub mod status;
pub mod surface;
pub mod text;

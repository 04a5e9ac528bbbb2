//! The decisions of an audio visualizer's companion process: the conversation with its
//! host, the rounds of its sampler, the capture of packets, and what they are decoded
//! and analysed to.

pub mod analysis;
pub mod binary32;
pub mod capture;
pub mod control;
pub mod decode;
pub mod format;
pub mod opening;
pub mod protocol;
pub mod sampler;
pub mod session;
pub mod text;

//! Decisions of a WASAPI client: which calls to make on the audio interfaces,
//! with which arguments, and what to make of the replies.
//!
//! The interfaces themselves (`IMMDevice`, `IAudioClient` and so on) appear here
//! as type parameters: the library carries them along and never looks inside.
//! An operation that needs several calls is split into steps. Each step says
//! which call comes next, and takes the reply to the call before it.
#![allow(non_snake_case)]

pub mod capture;
pub mod client;
pub mod device;
pub mod error;
pub mod format;
pub mod guid;
pub mod render;
pub mod session;
pub mod text;

pub use capture::AudioCaptureClient;
pub use client::{AudioClient, Handle, ShareMode};
pub use device::{get_default_device, Device, DeviceCollection, Direction};
pub use error::{Failure, WasapiError, WasapiRes};
pub use format::{FormatStep, SampleType, WaveFormat, WaveFormatEx, WaveFormatExtensible};
pub use guid::Guid;
pub use render::AudioRenderClient;
pub use session::{
    AudioSessionControl, AudioSessionEvents, DisconnectReason, EventCallbacks, SessionState,
};

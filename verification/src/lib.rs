//! Audio capture and playback session engine.
//!
//! The engine keeps the state of one recording session and one playback
//! session, normalises captured samples to signed 16-bit PCM, encodes the
//! captured buffer as a WAV container, and resolves the configuration a
//! session runs with. Every state change is a plain function with a
//! contract; the threads, devices and files live with the host, which
//! reports what happened and carries out what is decided here.

pub mod capture;
pub mod config;
pub mod device;
pub mod float_bits;
pub mod naming;
pub mod playback;
pub mod recorder;
pub mod sample;
pub mod storage;
pub mod text;
pub mod wav;

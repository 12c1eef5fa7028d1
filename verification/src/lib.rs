//! A real-time audio synthesis core: a fixed-point phase generator and
//! waveform renderer driven by control events over bounded FIFO channels,
//! with a WAV byte codec for test fixtures.

pub mod chunk;
pub mod codable;
pub mod controller;
pub mod data;
pub mod four_cc;
pub mod header_data;
pub mod header_format;
pub mod header_riff;
pub mod jacker;
pub mod osc;
pub mod phasor;
pub mod wav;
pub mod waveform;

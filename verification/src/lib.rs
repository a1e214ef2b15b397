//! Core logic of an LED-driver endpoint: the control-plane protocol, the
//! render-loop state machines and the pixel bookkeeping around a sandboxed
//! program, with machine-checked contracts.

pub mod config;
pub mod control;
pub mod driver;
pub mod encoding;
pub mod error;
pub mod json;
pub mod jsonrpc;
pub mod program;
pub mod term_write;
pub mod wasm_program;
pub mod ws2812b;
pub mod ws2812b_rpi;

//! Core logic of a bridge between a six-axis input device and local
//! network subscribers: signal conditioning, focus-gated activation and
//! per-connection pacing, each stated as a contract over plain values.

pub mod conditioner;
pub mod device;
pub mod focus;
pub mod activation;
pub mod timeline;
pub mod session;
pub mod fanout;

//! Stereo frame pipeline for a head-mounted display: the per-eye frame
//! cycle, pose scaling, swap-chain bookkeeping, pixel-transfer planning and
//! compositor layer description, each verified against its contract.

pub mod eye;
pub mod frame;
pub mod keyboard;
pub mod layer;
pub mod pose;
pub mod swap_chain;
pub mod transfer;

pub use pose::{scale_posef, zero_posef};

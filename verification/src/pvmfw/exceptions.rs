//! Exception handlers.

pub mod dispatch;
pub mod error;
pub mod esr;
pub mod vectors;

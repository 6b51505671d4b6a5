//! A packet capture pipeline: frames are dissected layer by layer into records,
//! checked against display filters, and handed on by a capture loop that is
//! written as a state machine, so that the code around it only performs I/O.

pub mod analyzer;
pub mod capture;
pub mod filters;
pub mod text;
pub mod ui;

pub use capture::start_capture;
pub use filters::parse_filter;
pub use ui::PacketInfo;

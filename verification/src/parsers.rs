//! The vendor-specific frame decoders and the reading type they produce.

pub mod qingping;
pub mod responses;
pub mod xiaomi;

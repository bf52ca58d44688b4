//! The effect stages: mixing utilities, rectification, bit crushing,
//! biquad filtering and the waveshaper transfer functions.

pub mod crusher;
pub mod filter;
pub mod rectify;
pub mod utils;
pub mod waveshaper;

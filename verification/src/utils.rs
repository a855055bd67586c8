pub mod curve_math;
pub mod error_code;
pub mod seed_format;
pub mod seeds;

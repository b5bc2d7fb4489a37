//! The configuration model, its defaults, its checks, and the decoding of the text it is read from.
pub mod load;
pub mod model;
pub mod validate;

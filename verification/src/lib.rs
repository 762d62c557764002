//! A client for reinforcement-learning environments that live in an embedded
//! Python runtime: typed space descriptions, conversion between them and
//! runtime values, and the reset/step protocol on top.
pub mod error;
pub mod runtime;
pub mod real_bits;
pub mod value;
pub mod space_data;
pub mod space_template;
pub mod decode;
pub mod descriptor;
pub mod spec;
pub mod environment;
pub mod client;

pub use crate::environment::{Action, State};

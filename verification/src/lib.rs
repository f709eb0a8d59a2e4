//! Mode-selection and state-maintenance engine for a single-display event
//! beamer: it keeps an eventually-consistent view of the current event and its
//! timezone, evaluates a closed set of display modes against wall-clock time,
//! rotates fairly among equally urgent modes, and propagates chosen modes,
//! loaded assets and fatal errors to a renderer through one state channel.

pub mod clock;
pub mod error;
pub mod event_id;
pub mod event_meta;
pub mod modes;
pub mod render;
pub mod rng;
pub mod rotation;
pub mod session;
pub mod version;

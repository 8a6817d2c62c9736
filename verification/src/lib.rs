//! Decision core of a single long-lived, privileged "toolbox" container:
//! one container that shows the host's files, devices, environment and user,
//! so that a shell in it feels like a shell on the host.
//!
//! The library decides and plans; it touches nothing. Whoever uses it looks
//! at the host and the container, hands over what was found, and carries out
//! what comes back.
//!
//! - [`lifecycle`], [`images`], [`idmap`], [`env`]: what is asked of the
//!   container runtime to create, enter and remove the toolbox.
//! - [`phase`]: the course of a phase that is done once and marked by a
//!   stamp; [`protocol`]: many sessions at once, and the proof that each
//!   phase happens once.
//! - [`static_init`], [`runtime_init`]: the changes of the two phases, made
//!   of the primitives of [`ops`] over the lists of [`forward`];
//!   [`static_laws`]: what holds of every plan of the one-time phase.
//! - [`session`]: the start of a session inside the container.
//! - [`supervisor`]: the first process of the container.
//! - [`host`], [`error`], [`names`], [`text`]: what all of them share.

pub mod env;
pub mod error;
pub mod forward;
pub mod host;
pub mod idmap;
pub mod images;
pub mod lifecycle;
pub mod names;
pub mod ops;
pub mod phase;
pub mod protocol;
pub mod runtime_init;
pub mod session;
pub mod static_init;
pub mod static_laws;
pub mod supervisor;
pub mod text;

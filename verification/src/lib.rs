//! The execution layer of an agent that runs shell commands on a user's
//! machine while keeping them away from what they must not touch.
//!
//! Everything here is a decision or a description; nothing here starts a
//! process, opens a socket or reads a file. A driver performs those and
//! reports back:
//!
//! - [`safety`] decides whether a command or a patch may go ahead unasked,
//!   [`paths`] does the lexical containment check behind it;
//! - [`supervisor`] resolves the backend, plans the call and supervises the
//!   race between exit, time limit and cancellation;
//! - [`backend`], [`black_box`] and [`api`] are the backends, [`launcher`]
//!   describes the child they start;
//! - [`collector`] keeps output within its caps;
//! - [`exec`] holds the data of a call and classifies how it ended;
//! - [`internal_commands`], [`translation`], [`execpolicy`] and [`window`]
//!   are what the engine works with at its edges;
//! - [`text`] and [`assoc`] are the helpers underneath.
//!
//! Every function states what it returns, and the verifier has checked that
//! it does.

pub mod api;
pub mod assoc;
pub mod backend;
pub mod black_box;
pub mod collector;
pub mod error;
pub mod exec;
pub mod execpolicy;
pub mod internal_commands;
pub mod launcher;
pub mod paths;
pub mod protocol;
pub mod safety;
pub mod supervisor;
pub mod text;
pub mod translation;
pub mod window;

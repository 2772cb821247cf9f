//! Installation orchestration for Windows game launchers under Wine.
//!
//! The library decides; a host performs. Each flow is a step function: it
//! takes the host's reply to its last request and answers with the next
//! request or with its end. What a step answers is a mathematical function of
//! the state and the reply, stated in each flow's module and proved of the
//! code, together with what follows from it: that a flow ends, in which
//! order it asks, and what it never asks.
//!
//! - [`host`]: the requests and replies between the flows and their host.
//! - [`resolver`]: finding the compatibility-layer binary.
//! - [`fetch`]: retrieving the installer, once.
//! - [`plan`] and [`install`]: running the installer, silently and then
//!   interactively, and relocating what it installed.
//! - [`copier`] and [`walk`]: copying a directory tree.
//! - [`library`], [`sandbox`] and [`probe`]: the library roots, the
//!   inventory listing, and the sandbox of an application among the roots.
//! - [`adjust`] and [`postsetup`]: adjusting a resolved sandbox.
//! - [`text`] and [`paths`]: the text and path primitives underneath.
//! - [`pattern`] and [`home`]: what is asked of the `regex` and `dirs`
//!   crates; their answers are taken on trust.

pub mod adjust;
pub mod copier;
pub mod fetch;
pub mod home;
pub mod host;
pub mod install;
pub mod library;
pub mod paths;
pub mod pattern;
pub mod plan;
pub mod postsetup;
pub mod probe;
pub mod resolver;
pub mod sandbox;
pub mod text;
pub mod walk;

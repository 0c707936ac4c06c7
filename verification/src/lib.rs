//! In-process control channel for driving a 3D scene-automation host,
//! and the declarative node-graph language that feeds it.
//!
//! A synchronous caller exchanges typed request/response messages with a
//! long-lived host loop that owns an ordered collection of capabilities
//! (services). The bridge carries one outstanding request at a time and
//! never blocks the caller; the host answers every request it consumes,
//! in order, and stops every capability before it exits — whether it was
//! asked to shut down or its caller simply went away.
//!
//! The modules, roughly bottom up:
//!
//! - [`protocol`]: the request and response variants and their payloads;
//! - [`scene`]: the in-memory scene store the scene capability drives;
//! - [`service`]: the capability interface, the two concrete
//!   capabilities, and the manager that owns and routes between them;
//! - [`host`]: the host loop's decision logic, one event at a time;
//! - [`bridge`]: the caller-side channel endpoints and thread lifecycle;
//! - [`laws`]: the proved properties of routing, sessions and shutdown;
//! - [`harness`]: the scripted validation cases and their judgements;
//! - [`embed`]: the string vocabulary of an embedded interpreter;
//! - [`graph`], [`ast`], [`blender`], [`error`], [`parser`]: the
//!   node-graph language, its editor-side form, and its parser.

pub mod protocol;
pub mod scene;
pub mod service;
pub mod host;
pub mod bridge;
pub mod laws;
pub mod harness;
pub mod embed;
pub mod graph;
pub mod error;
pub mod ast;
pub mod blender;
pub mod parser;

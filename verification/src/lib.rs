//! The core of an agent that turns action plans into changes of a
//! workspace, with a human in the loop.
//!
//! A planning service answers a prompt with a message and a plan: an ordered
//! list of actions that write files, run commands and fetch pages. This
//! library holds the rules by which such plans are asked for and carried
//! out. It does no input or output itself: the two state machines at its
//! heart say what is to be done next, and the caller does it.
//!
//! - [`conversation`] drives the turns of one conversation with the
//!   planning service, up to a fixed number of requests.
//! - [`executor`] applies one plan, action by action, and heals failed
//!   commands with remedial plans up to a fixed depth.
//! - [`diff`] stands between a proposed file content and the disk.
//! - [`memory`] is what a session remembers of its workspace.
//! - [`action`] decodes what the planning service sends.
//! - [`command`], [`workspace`], [`creation`], [`client`], [`audit`],
//!   [`manifest`], [`keys`] and [`device_flow`] hold the rules of the
//!   client's other tasks, [`service`] those of the planning service
//!   itself.
//! - [`text`] holds the helpers on text that all of them share.
//!
//! Every function has a contract, stated over the mathematical values of
//! its arguments, and is proved to keep it. The few functions that call
//! into other crates say in their comments what is taken on trust.

pub mod action;
pub mod audit;
pub mod client;
pub mod command;
pub mod conversation;
pub mod creation;
pub mod device_flow;
pub mod diff;
pub mod executor;
pub mod keys;
pub mod manifest;
pub mod memory;
pub mod service;
pub mod text;
pub mod workspace;

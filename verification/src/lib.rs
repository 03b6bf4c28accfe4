//! Verified core of a command-line front-end over an external declarative
//! build tool.  The library synthesizes evaluation expressions against a
//! content-addressed, hash-pinned copy of a project, resolves and classifies
//! dotted attribute paths, interprets evaluator output, drives the build
//! pipeline as a step-by-step state machine, and plans the rendering of
//! recursive "explain" trees.  All process invocation and terminal output
//! live outside the library; the library works on plain values.

pub mod attr;
pub mod error;
pub mod eval;
pub mod explain;
pub mod expr;
pub mod flow;
pub mod show;
pub mod store;
pub mod text;

//! Orchestration of a static build of the YueScript compiler library: the
//! configuration, the derived output layout, the compiler request, the header
//! export and the report handed to the host build system.
pub mod config;
pub mod laws;
pub mod paths;
pub mod plan;
pub mod session;

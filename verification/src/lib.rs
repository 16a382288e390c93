//! The decisions of an embedder of a JavaScript machine.
//!
//! The embedder makes a machine, offers it programs, and reports with a status whether the
//! machine behaved: whether host calls arrive, whether a running program can be stopped, whether
//! a tenant's program finds only what it may use. What the machine does is seen from outside and
//! handed in as an observation; what to do next, and what the status is, is decided here.
//!
//! - [`probe`] runs a plan step by step. The plans stand in [`plan_parts`] and [`probes`], the
//!   programs that they evaluate in [`program_text`] and [`script`], the lines that they print in
//!   [`report`], and the surfaces that the inventory looks at in [`surfaces`].
//! - [`probe_laws`], [`guarantees`], [`lock_laws`] and [`report_laws`] say what holds of every run
//!   of a plan, [`courses`] what a run has done that ends with status zero, [`failures`] what every
//!   other status means, and [`program_laws`] what the programs say.
//! - [`session`] is the life of a machine, [`invocation`] that of a tenant's program in it;
//!   [`digest`], [`response`] and [`cancellation`] are its parts.
//! - [`host_bridge`] and [`host_calls`] are the calls from a program into the host; [`slot`] holds
//!   what is installed for the time of a call.
//! - [`spin`] and [`signals`] stop a program that does not end.
//! - [`resolution`] and [`loader`] decide which modules a program can load.
//! - [`text`] renders numbers, quoted strings and messages.
pub mod cancellation;
pub mod courses;
pub mod digest;
pub mod failures;
pub mod guarantees;
pub mod host_bridge;
pub mod host_calls;
pub mod invocation;
pub mod loader;
pub mod lock_laws;
pub mod plan_parts;
pub mod probe;
pub mod probe_laws;
pub mod probes;
pub mod program_laws;
pub mod program_text;
pub mod report;
pub mod report_laws;
pub mod resolution;
pub mod response;
pub mod script;
pub mod session;
pub mod signals;
pub mod slot;
pub mod spin;
pub mod surfaces;
pub mod text;

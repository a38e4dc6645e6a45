//! A supervisor for long-running processes.
//!
//! Each program is supervised by a state machine ([`fsm::Machine`]) with
//! seven states ([`program_fsm::ProgramState`]). The machine starts the
//! program and its side-cars in order, starts it again after a failure for
//! as long as its restart policy allows, and tears it down with SIGTERM
//! first and SIGKILL after a delay. It is advanced by a periodic tick and
//! by the events that clients send ([`supervisor`]).
//!
//! The library decides; it does not act. What a machine needs of the
//! operating system it asks of its driver, one operation at a time
//! ([`os`]), so that every tick and every event is a function of the
//! state, the clock reading and the outcomes that the driver observed.
//! That function is stated in the contracts, and [`laws`] holds what
//! follows from it for every machine.
//!
//! The configuration of the programs may hold templates ([`config`]). They
//! are expanded by a template engine, which is handed plain templates only
//! ([`template`]). Programs and loggers are kept in the order of their
//! names ([`names`]).

pub mod chay_proto;
pub mod config;
pub mod fsm;
pub mod laws;
pub mod names;
pub mod os;
pub mod program;
pub mod program_context;
pub mod program_fsm;
pub mod proto_converters;
pub mod supervisor;
pub mod template;
pub mod upkeep;

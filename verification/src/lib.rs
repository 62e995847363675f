//! Scenario engine for a DoIP/UDS diagnostic tool.
//!
//! The library holds the verified core of the tool: the UDS wire forms the
//! engine issues and reads, the inline hex byte syntax, the scenario step
//! model, the step-execution state machine, the DoIP session bookkeeping,
//! and the reference responder the tests drive scenarios against.
//! The asynchronous shell (TCP, timers, queues, the expression evaluator
//! with its printing and file-loading built-ins) lives outside and performs
//! the actions this library decides on.

pub mod argparse;
pub mod doip_ops;
pub mod ecu;
pub mod error;
pub mod executor;
pub mod exprvalue;
pub mod hexstr;
pub mod parser;
pub mod uds;

pub use uds::UdsMessage;

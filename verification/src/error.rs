//! The error taxonomy of a scenario run.

use crate::uds::{UdsMessage, UdsMessageV};
use vstd::prelude::*;

verus! {

/// Why a scenario step or the session failed.
#[derive(Debug)]
pub enum ScenarioError {
    /// A transport fault, a closed queue, or an I/O timeout while sending.
    NetworkConnectorDead,
    /// The routing-activation handshake was refused.
    RoutingActivationFailed,
    /// The UDS codec refused a message.
    UdsError,
    /// Local file I/O failed, or an expression variable was missing or not
    /// projectable to bytes.
    Io,
    /// A negative response that a transfer stage did not expect.
    Nrc(u8),
    /// A reply that neither matches the expected service nor is negative.
    UnexpectedUdsMessage(UdsMessage),
    /// An expression failed to evaluate: the expression and the evaluator's
    /// account of the failure.
    EvalExpr(String, String),
}

/// The mathematical value of a [`ScenarioError`].
pub enum ScenarioErrorV {
    NetworkConnectorDead,
    RoutingActivationFailed,
    UdsError,
    Io,
    Nrc(u8),
    UnexpectedUdsMessage(UdsMessageV),
    EvalExpr(Seq<char>, Seq<char>),
}

impl View for ScenarioError {
    type V = ScenarioErrorV;

    open spec fn view(&self) -> ScenarioErrorV {
        match self {
            ScenarioError::NetworkConnectorDead => ScenarioErrorV::NetworkConnectorDead,
            ScenarioError::RoutingActivationFailed => ScenarioErrorV::RoutingActivationFailed,
            ScenarioError::UdsError => ScenarioErrorV::UdsError,
            ScenarioError::Io => ScenarioErrorV::Io,
            ScenarioError::Nrc(code) => ScenarioErrorV::Nrc(*code),
            ScenarioError::UnexpectedUdsMessage(m) => ScenarioErrorV::UnexpectedUdsMessage(m@),
            ScenarioError::EvalExpr(e, d) => ScenarioErrorV::EvalExpr(e@, d@),
        }
    }
}

} // verus!

//! Failures a conversion can report to the router.

use vstd::prelude::*;

verus! {

/// Why a request for the gateway could not be built.
#[derive(Debug, PartialEq, Eq)]
pub enum ConnectorError {
    /// The request lacks a field the gateway insists on.
    MissingRequiredField { field_name: &'static str },
    /// The merchant's credential is not of the shape the gateway takes.
    FailedToObtainAuthType,
}

/// Mathematical value of a [`ConnectorError`].
pub enum ConnectorErrorView {
    MissingRequiredField { field_name: Seq<char> },
    FailedToObtainAuthType,
}

impl View for ConnectorError {
    type V = ConnectorErrorView;

    open spec fn view(&self) -> ConnectorErrorView {
        match self {
            ConnectorError::MissingRequiredField { field_name } => {
                ConnectorErrorView::MissingRequiredField { field_name: field_name@ }
            },
            ConnectorError::FailedToObtainAuthType => ConnectorErrorView::FailedToObtainAuthType,
        }
    }
}

/// Why a gateway response could not be turned into a canonical result.
#[derive(Clone, Copy, Debug, PartialEq, Eq, Structural)]
pub enum ParsingError {
    /// The body did not have the shape the schema prescribes.
    StructParseFailure,
}

} // verus!

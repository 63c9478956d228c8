use vstd::prelude::*;

verus! {

/// The errors a connector reports to the orchestrator.
#[derive(Clone, Debug, PartialEq, Eq)]
pub enum ConnectorError {
    /// The credential bundle is not of the variant this gateway needs.
    FailedToObtainAuthType,
    /// Building, serialising or signing the outgoing request failed.
    RequestEncodingFailed,
    /// A field the gateway needs is absent from the canonical request.
    MissingRequiredField { field_name: String },
    /// The gateway's transaction identifier is absent.
    MissingConnectorTransactionID,
    /// The requested feature (here: a payment method) is not supported.
    NotImplemented(String),
    /// The gateway's body does not have the expected shape.
    ResponseDeserializationFailed,
    /// A well-formed gateway body could not be mapped to the canonical result.
    ResponseHandlingFailed,
    /// Webhooks are not supported by this connector.
    WebhooksNotImplemented,
}

impl ConnectorError {
    /// Whether this is `MissingRequiredField` naming the field `name`.
    pub open spec fn is_missing_field(self, name: Seq<char>) -> bool {
        match self {
            ConnectorError::MissingRequiredField { field_name } => field_name@ == name,
            _ => false,
        }
    }

    /// Whether this is `NotImplemented`, whatever its message.
    pub open spec fn is_not_implemented(self) -> bool {
        self is NotImplemented
    }
}

} // verus!

//! The error values of both adapters, and the text each renders to.

use vstd::prelude::*;
use crate::text::joined;

verus! {

/// A failure of an adapter's tool handler.
#[derive(Debug, Clone, PartialEq, Eq)]
pub enum CoreToolError {
    UnknownTool { tool_name: String },
    ManagerUnavailable,
    ToolRouteManagerUnavailable,
    OperationFailed { message: String },
    /// Carries the rendered text of the decoder's error.
    DeserializationError(String),
}

impl CoreToolError {
    pub open spec fn message_spec(&self) -> Seq<char> {
        match self {
            CoreToolError::UnknownTool { tool_name } => "Unknown tool: "@ + tool_name@,
            CoreToolError::ManagerUnavailable => "Extension manager not available"@,
            CoreToolError::ToolRouteManagerUnavailable => "Tool route manager not available"@,
            CoreToolError::OperationFailed { message } => "Operation failed: "@ + message@,
            CoreToolError::DeserializationError(e) => "Failed to deserialize parameters: "@ + e@,
        }
    }

    /// The human-readable message of this error.
    pub fn message(&self) -> (r: String)
        ensures
            r@ == self.message_spec(),
    {
        match self {
            CoreToolError::UnknownTool { tool_name } => joined("Unknown tool: ", tool_name.as_str()),
            CoreToolError::ManagerUnavailable => String::from_str("Extension manager not available"),
            CoreToolError::ToolRouteManagerUnavailable => String::from_str(
                "Tool route manager not available",
            ),
            CoreToolError::OperationFailed { message } => joined(
                "Operation failed: ",
                message.as_str(),
            ),
            CoreToolError::DeserializationError(e) => joined(
                "Failed to deserialize parameters: ",
                e.as_str(),
            ),
        }
    }
}

/// A failure of the extension manager adapter's tool handlers.
#[derive(Debug, Clone, PartialEq, Eq)]
pub enum ExtensionManagerToolError {
    UnknownTool { tool_name: String },
    ManagerUnavailable,
    MissingParameter { param_name: String },
    InvalidAction { action: String },
    OperationFailed { message: String },
    /// Carries the rendered text of the decoder's error.
    DeserializationError(String),
}

impl ExtensionManagerToolError {
    pub open spec fn message_spec(&self) -> Seq<char> {
        match self {
            ExtensionManagerToolError::UnknownTool { tool_name } => "Unknown tool: "@ + tool_name@,
            ExtensionManagerToolError::ManagerUnavailable => "Extension manager not available"@,
            ExtensionManagerToolError::MissingParameter { param_name } =>
                "Missing required parameter: "@ + param_name@,
            ExtensionManagerToolError::InvalidAction { action } => "Invalid action: "@ + action@
                + ". Must be 'enable' or 'disable'"@,
            ExtensionManagerToolError::OperationFailed { message } =>
                "Extension operation failed: "@ + message@,
            ExtensionManagerToolError::DeserializationError(e) =>
                "Failed to deserialize parameters: "@ + e@,
        }
    }

    /// Whether this is a `MissingParameter` that names the parameter `s`.
    pub open spec fn is_missing_parameter(&self, s: Seq<char>) -> bool {
        match self {
            ExtensionManagerToolError::MissingParameter { param_name } => param_name@ == s,
            _ => false,
        }
    }

    /// Whether this is an `InvalidAction` that names the text `s`.
    pub open spec fn is_invalid_action(&self, s: Seq<char>) -> bool {
        match self {
            ExtensionManagerToolError::InvalidAction { action } => action@ == s,
            _ => false,
        }
    }

    /// The human-readable message of this error.
    pub fn message(&self) -> (r: String)
        ensures
            r@ == self.message_spec(),
    {
        match self {
            ExtensionManagerToolError::UnknownTool { tool_name } => joined(
                "Unknown tool: ",
                tool_name.as_str(),
            ),
            ExtensionManagerToolError::ManagerUnavailable => String::from_str(
                "Extension manager not available",
            ),
            ExtensionManagerToolError::MissingParameter { param_name } => joined(
                "Missing required parameter: ",
                param_name.as_str(),
            ),
            ExtensionManagerToolError::InvalidAction { action } => {
                let mut s = joined("Invalid action: ", action.as_str());
                s.append(". Must be 'enable' or 'disable'");
                s
            },
            ExtensionManagerToolError::OperationFailed { message } => joined(
                "Extension operation failed: ",
                message.as_str(),
            ),
            ExtensionManagerToolError::DeserializationError(e) => joined(
                "Failed to deserialize parameters: ",
                e.as_str(),
            ),
        }
    }
}

/// A failure at the transport level, as opposed to a tool's error result.
#[derive(Debug, Clone, Copy, PartialEq, Eq)]
pub enum ClientError {
    /// The operation is not offered by this adapter.
    TransportClosed,
}

} // verus!

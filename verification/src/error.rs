//! The error of the in-process transport: a message text, and the ways it is
//! made from the errors that surround the transport.

use rmcp::service::{ClientInitializeError, ServerInitializeError};
use tokio::sync::mpsc::error::SendError;
use vstd::prelude::*;
use vstd::string::StringExecFns;

use crate::channel::send_error_text;

verus! {

broadcast use vstd::string::group_string_axioms;

#[verifier::external_type_specification]
#[verifier::external_body]
pub struct ExIoError(std::io::Error);

#[verifier::external_type_specification]
#[verifier::external_body]
pub struct ExClientInitializeError(rmcp::service::ClientInitializeError);

#[verifier::external_type_specification]
#[verifier::external_body]
pub struct ExServerInitializeError(rmcp::service::ServerInitializeError);

/// The error that the transport reports; its view is its message.
pub struct InProcessTransportError(String);

impl View for InProcessTransportError {
    type V = Seq<char>;

    closed spec fn view(&self) -> Seq<char> {
        self.0@
    }
}

/// The message of the error that a closed channel gives.
pub open spec fn channel_closed_message() -> Seq<char> {
    "Channel closed"@
}

/// The text that stands before every message when the error is displayed.
pub open spec fn display_prefix() -> Seq<char> {
    "InProcess transport error: "@
}

/// A failure of the client side to send a message through the channel.
#[verifier::reject_recursive_types(T)]
pub struct ClientSendError<T>(pub SendError<T>);

/// A failure of the server side to send a message through the channel.
#[verifier::reject_recursive_types(T)]
pub struct ServerSendError<T>(pub SendError<T>);

/// Formats a `std::io::Error` with its `Display` impl. What that text is
/// depends on the operating system's messages, so nothing is stated of it.
#[verifier::external_body]
fn io_error_text(err: &std::io::Error) -> String {
    format!("{}", err)
}

/// Formats an `rmcp::service::ClientInitializeError` with the `Display` impl
/// that its `thiserror` attributes write. The text is built from the error's
/// fields by formats of their own; nothing is stated of it.
#[verifier::external_body]
fn client_initialize_error_text(err: &ClientInitializeError) -> String {
    format!("{}", err)
}

/// Formats an `rmcp::service::ServerInitializeError` with the `Display` impl
/// that its `thiserror` attributes write. The text is built from the error's
/// fields by formats of their own; nothing is stated of it.
#[verifier::external_body]
fn server_initialize_error_text(err: &ServerInitializeError) -> String {
    format!("{}", err)
}

/// `prefix` followed by `rest`.
fn prefixed(prefix: &str, rest: &str) -> (text: String)
    ensures
        text@ == prefix@ + rest@,
{
    let mut text = String::from_str(prefix);
    text.append(rest);
    text
}

impl InProcessTransportError {
    /// An error with the given message.
    pub fn new(message: String) -> (err: Self)
        ensures
            err@ == message@,
    {
        InProcessTransportError(message)
    }

    /// The error that a closed channel gives.
    pub fn channel_closed() -> (err: Self)
        ensures
            err@ == channel_closed_message(),
    {
        InProcessTransportError(String::from_str("Channel closed"))
    }

    /// The message of the error.
    pub fn message(&self) -> (m: &String)
        ensures
            m@ == self@,
    {
        &self.0
    }

    /// The error as it is displayed: the message behind a fixed prefix.
    pub fn to_string(&self) -> (text: String)
        ensures
            text@ == display_prefix() + self@,
    {
        prefixed("InProcess transport error: ", self.0.as_str())
    }

    /// The error for a message that the client side could not send.
    pub fn from_client_send_error<T>(err: ClientSendError<T>) -> (e: Self)
        ensures
            e@ == "Failed to send client message: "@ + "channel closed"@,
    {
        let text = send_error_text(&err.0);
        InProcessTransportError(prefixed("Failed to send client message: ", text.as_str()))
    }

    /// The error for a message that the server side could not send.
    pub fn from_server_send_error<T>(err: ServerSendError<T>) -> (e: Self)
        ensures
            e@ == "Failed to send server message: "@ + "channel closed"@,
    {
        let text = send_error_text(&err.0);
        InProcessTransportError(prefixed("Failed to send server message: ", text.as_str()))
    }

    /// The error for a failed input or output operation.
    pub fn from_io_error(err: std::io::Error) -> (e: Self)
        ensures
            "IO error: "@.is_prefix_of(e@),
    {
        let text = io_error_text(&err);
        let e = Self::from_io_error_text(text.as_str());
        assert(("IO error: "@ + text@).subrange(0, "IO error: "@.len() as int) =~= "IO error: "@);
        e
    }

    /// The error for a failed input or output operation, given the error's displayed text.
    pub fn from_io_error_text(text: &str) -> (e: Self)
        ensures
            e@ == "IO error: "@ + text@,
    {
        InProcessTransportError(prefixed("IO error: ", text))
    }

    /// The error for a client that could not be initialized.
    pub fn from_client_initialize_error(err: ClientInitializeError) -> (e: Self)
        ensures
            "Client initialization error: "@.is_prefix_of(e@),
    {
        let text = client_initialize_error_text(&err);
        let e = Self::from_client_initialize_error_text(text.as_str());
        assert(("Client initialization error: "@ + text@).subrange(0, "Client initialization error: "@.len() as int) =~= "Client initialization error: "@);
        e
    }

    /// The error for a client that could not be initialized, given the error's displayed text.
    pub fn from_client_initialize_error_text(text: &str) -> (e: Self)
        ensures
            e@ == "Client initialization error: "@ + text@,
    {
        InProcessTransportError(prefixed("Client initialization error: ", text))
    }

    /// The error for a server that could not be initialized.
    pub fn from_server_initialize_error(err: ServerInitializeError) -> (e: Self)
        ensures
            "Server initialization error: "@.is_prefix_of(e@),
    {
        let text = server_initialize_error_text(&err);
        let e = Self::from_server_initialize_error_text(text.as_str());
        assert(("Server initialization error: "@ + text@).subrange(0, "Server initialization error: "@.len() as int) =~= "Server initialization error: "@);
        e
    }

    /// The error for a server that could not be initialized, given the error's displayed text.
    pub fn from_server_initialize_error_text(text: &str) -> (e: Self)
        ensures
            e@ == "Server initialization error: "@ + text@,
    {
        InProcessTransportError(prefixed("Server initialization error: ", text))
    }
}

} // verus!

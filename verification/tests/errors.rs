use rmcp::service::{ClientInitializeError, ServerInitializeError};
use rmcp_in_process_transport::error::{ClientSendError, InProcessTransportError, ServerSendError};
use tokio::sync::mpsc::error::SendError;

#[test]
fn error_displays_with_prefix() {
    let e = InProcessTransportError::new("boom".to_string());
    assert_eq!(e.message(), "boom");
    assert_eq!(e.to_string(), "InProcess transport error: boom");
    assert_eq!(
        InProcessTransportError::channel_closed().to_string(),
        "InProcess transport error: Channel closed"
    );
}

#[test]
fn send_errors_name_their_side() {
    let c = InProcessTransportError::from_client_send_error(ClientSendError(SendError(1u8)));
    assert_eq!(c.message(), "Failed to send client message: channel closed");
    let s = InProcessTransportError::from_server_send_error(ServerSendError(SendError(1u8)));
    assert_eq!(s.message(), "Failed to send server message: channel closed");
}

#[test]
fn io_error_is_prefixed() {
    let io = std::io::Error::other("disk gone");
    let e = InProcessTransportError::from_io_error(io);
    assert_eq!(e.message(), "IO error: disk gone");
}

#[test]
fn initialize_errors_are_prefixed() {
    let c = InProcessTransportError::from_client_initialize_error(
        ClientInitializeError::ConnectionClosed("bye".to_string()),
    );
    assert_eq!(c.message(), "Client initialization error: connection closed: bye");
    let s = InProcessTransportError::from_server_initialize_error(ServerInitializeError::Cancelled);
    assert_eq!(s.message(), "Server initialization error: Cancelled");
}

#[test]
fn error_texts_follow_their_prefix() {
    assert_eq!(InProcessTransportError::from_io_error_text("gone").message(), "IO error: gone");
    assert_eq!(
        InProcessTransportError::from_client_initialize_error_text("x").message(),
        "Client initialization error: x"
    );
    assert_eq!(
        InProcessTransportError::from_server_initialize_error_text("y").message(),
        "Server initialization error: y"
    );
}

use wcf_native::error::SocketError;

#[test]
fn init_error_names_the_operation_and_the_cause() {
    let error = SocketError::Init { cause: String::from("Out of memory") };
    assert_eq!(error.message(), "Initiate socket failed: Out of memory");
    assert_eq!(error.cause(), "Out of memory");
}

#[test]
fn connect_error_names_the_address_and_the_cause() {
    let error = SocketError::Connect {
        address: String::from("tcp://127.0.0.1:10086"),
        cause: String::from("Connection refused"),
    };
    assert_eq!(error.message(), "Connect tcp://127.0.0.1:10086 failed: Connection refused");
    assert_eq!(error.cause(), "Connection refused");
}

#[test]
fn send_error_names_the_operation_and_the_cause() {
    let error = SocketError::Send { cause: String::from("Timed out") };
    assert_eq!(error.message(), "Send rpc failed: Timed out");
    assert_eq!(error.cause(), "Timed out");
}

#[test]
fn recv_error_names_the_operation_and_the_cause() {
    let error = SocketError::Recv { cause: String::from("Object closed") };
    assert_eq!(error.message(), "Recv rpc failed: Object closed");
    assert_eq!(error.cause(), "Object closed");
}

#[test]
fn message_keeps_an_empty_cause_and_address() {
    let error = SocketError::Connect { address: String::new(), cause: String::new() };
    assert_eq!(error.message(), "Connect  failed: ");
    let error = SocketError::Send { cause: String::new() };
    assert_eq!(error.message(), "Send rpc failed: ");
}

#[test]
fn message_keeps_text_beyond_ascii() {
    let error = SocketError::Connect {
        address: String::from("ipc:///tmp/répondeur"),
        cause: String::from("adresse invalide ✗"),
    };
    assert_eq!(error.message(), "Connect ipc:///tmp/répondeur failed: adresse invalide ✗");
}

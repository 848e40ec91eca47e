use wcf_native::command::Command;
use wcf_native::error::SocketError;
use wcf_native::options::SocketOptions;
use wcf_native::setup::SetupStage;
use wcf_native::setup::SetupStep;
use wcf_native::socket::Socket;

fn rejected() -> Result<(), String> {
    Err(String::from("Not supported"))
}

// Runs a construction to its end against a substrate that reports `opened`
// for the handle and `applied` for each timeout; returns what it ended in
// and every command it asked for.
fn construct(
    options: Option<SocketOptions>,
    opened: Result<(), String>,
    applied: Result<(), String>,
) -> (Result<Socket, SocketError>, Vec<Command>) {
    let (mut setup, mut command) = Socket::new(options);
    let mut asked = Vec::new();
    loop {
        let report = match command {
            Command::Open => opened.clone(),
            _ => applied.clone(),
        };
        asked.push(command);
        match setup.step(report) {
            SetupStep::Ask(next, next_command) => {
                setup = next;
                command = next_command;
            }
            SetupStep::Ready(socket) => return (Ok(socket), asked),
            SetupStep::Failed(error) => return (Err(error), asked),
        }
    }
}

#[test]
fn construction_starts_by_asking_for_a_handle() {
    let (setup, command) = Socket::new(None);
    assert_eq!(command, Command::Open);
    assert_eq!(setup.stage(), SetupStage::Opening);
}

#[test]
fn create_client_starts_as_new_does() {
    let options = SocketOptions { recv_timeout: Some(7), send_timeout: Some(9) };
    let (from_new, first_of_new) = Socket::new(Some(options));
    let (from_client, first_of_client) = Socket::create_client(&options);
    assert_eq!(from_new, from_client);
    assert_eq!(first_of_new, first_of_client);
    assert_eq!(first_of_client, Command::Open);
}

#[test]
fn construction_applies_the_receive_timeout_then_the_send_timeout() {
    let options = SocketOptions { recv_timeout: Some(100), send_timeout: Some(200) };
    let (setup, _) = Socket::new(Some(options));
    let setup = match setup.step(Ok(())) {
        SetupStep::Ask(setup, command) => {
            assert_eq!(command, Command::SetRecvTimeout { millis: 100 });
            assert_eq!(setup.stage(), SetupStage::ApplyingRecvTimeout);
            setup
        }
        other => panic!("expected the receive timeout, got {:?}", other),
    };
    let setup = match setup.step(Ok(())) {
        SetupStep::Ask(setup, command) => {
            assert_eq!(command, Command::SetSendTimeout { millis: 200 });
            assert_eq!(setup.stage(), SetupStage::ApplyingSendTimeout);
            setup
        }
        other => panic!("expected the send timeout, got {:?}", other),
    };
    match setup.step(Ok(())) {
        SetupStep::Ready(socket) => {
            assert!(!socket.connected());
            assert_eq!(socket.options(), options);
        }
        other => panic!("expected a socket, got {:?}", other),
    }
}

#[test]
fn construction_asks_for_exactly_three_calls() {
    let options = SocketOptions { recv_timeout: Some(100), send_timeout: Some(100) };
    let (result, asked) = construct(Some(options), Ok(()), Ok(()));
    assert!(result.is_ok());
    assert_eq!(
        asked,
        vec![
            Command::Open,
            Command::SetRecvTimeout { millis: 100 },
            Command::SetSendTimeout { millis: 100 },
        ]
    );
}

#[test]
fn construction_without_options_applies_the_defaults() {
    let (result, asked) = construct(None, Ok(()), Ok(()));
    assert_eq!(
        asked,
        vec![
            Command::Open,
            Command::SetRecvTimeout { millis: 5000 },
            Command::SetSendTimeout { millis: 5000 },
        ]
    );
    let socket = result.unwrap();
    assert!(!socket.connected());
    assert_eq!(
        socket.options(),
        SocketOptions { recv_timeout: Some(5000), send_timeout: Some(5000) }
    );
}

#[test]
fn construction_replaces_negative_timeouts_by_the_default() {
    let options = SocketOptions { recv_timeout: Some(-1), send_timeout: Some(i32::MIN) };
    let (result, asked) = construct(Some(options), Ok(()), Ok(()));
    assert_eq!(
        asked,
        vec![
            Command::Open,
            Command::SetRecvTimeout { millis: 5000 },
            Command::SetSendTimeout { millis: 5000 },
        ]
    );
    assert_eq!(
        result.unwrap().options(),
        SocketOptions { recv_timeout: Some(5000), send_timeout: Some(5000) }
    );
}

#[test]
fn construction_keeps_a_zero_timeout() {
    let options = SocketOptions { recv_timeout: Some(0), send_timeout: None };
    let (result, asked) = construct(Some(options), Ok(()), Ok(()));
    assert_eq!(
        asked,
        vec![
            Command::Open,
            Command::SetRecvTimeout { millis: 0 },
            Command::SetSendTimeout { millis: 5000 },
        ]
    );
    assert_eq!(
        result.unwrap().options(),
        SocketOptions { recv_timeout: Some(0), send_timeout: Some(5000) }
    );
}

#[test]
fn construction_fails_when_no_handle_can_be_opened() {
    let (result, asked) = construct(None, Err(String::from("Out of memory")), Ok(()));
    assert_eq!(asked, vec![Command::Open]);
    let error = result.unwrap_err();
    assert_eq!(error, SocketError::Init { cause: String::from("Out of memory") });
    assert_eq!(error.message(), "Initiate socket failed: Out of memory");
}

#[test]
fn construction_passes_over_timeouts_that_are_not_accepted() {
    let options = SocketOptions { recv_timeout: Some(100), send_timeout: Some(300) };
    let (result, asked) = construct(Some(options), Ok(()), rejected());
    assert_eq!(
        asked,
        vec![
            Command::Open,
            Command::SetRecvTimeout { millis: 100 },
            Command::SetSendTimeout { millis: 300 },
        ]
    );
    let socket = result.unwrap();
    assert!(!socket.connected());
    assert_eq!(socket.options(), options);
}

#[test]
fn only_the_send_timeout_follows_a_rejected_receive_timeout() {
    let (setup, _) = Socket::new(None);
    let setup = match setup.step(Ok(())) {
        SetupStep::Ask(setup, _) => setup,
        other => panic!("expected the receive timeout, got {:?}", other),
    };
    match setup.step(rejected()) {
        SetupStep::Ask(setup, command) => {
            assert_eq!(command, Command::SetSendTimeout { millis: 5000 });
            match setup.step(rejected()) {
                SetupStep::Ready(socket) => assert!(!socket.connected()),
                other => panic!("expected a socket, got {:?}", other),
            }
        }
        other => panic!("expected the send timeout, got {:?}", other),
    }
}

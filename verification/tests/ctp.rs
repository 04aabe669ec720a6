use smart_house::ctp::{
    client_handshake, client_hello, recv_status, send_comand, send_request, server_handshake,
    server_hello, BindError, ConnectError, RecvError, RequestError, SendError,
};

#[test]
fn frame_is_length_then_bytes() {
    assert_eq!(send_comand(""), vec![0, 0, 0, 0]);
    assert_eq!(send_comand("Hello"), vec![0, 0, 0, 5, b'H', b'e', b'l', b'l', b'o']);
    assert_eq!(send_comand("é"), vec![0, 0, 0, 2, 0xc3, 0xa9]);
    let long = "x".repeat(0x1_02_03);
    let frame = send_comand(&long);
    assert_eq!(&frame[..4], &[0, 1, 2, 3]);
    assert_eq!(frame.len(), 4 + 0x1_02_03);
}

#[test]
fn received_message_is_what_was_sent() {
    for s in ["", "Hello, server", "Hello, client", "привет", &"ab".repeat(300)] {
        assert_eq!(recv_status(&send_comand(s)), Ok(s.to_string()));
        let mut more = send_comand(s);
        more.extend_from_slice(&send_comand("next"));
        assert_eq!(recv_status(&more), Ok(s.to_string()));
    }
}

#[test]
fn short_stream_is_io_error() {
    assert_eq!(recv_status(&vec![]), Err(RecvError::Io));
    assert_eq!(recv_status(&vec![0, 0, 0]), Err(RecvError::Io));
    assert_eq!(recv_status(&vec![0, 0, 0, 2, b'a']), Err(RecvError::Io));
    assert_eq!(recv_status(&vec![1, 0, 0, 0, b'a']), Err(RecvError::Io));
    assert_eq!(recv_status(&vec![0, 0, 0, 1, b'a']), Ok("a".to_string()));
    assert_eq!(recv_status(&vec![0, 0, 0, 0]), Ok(String::new()));
}

#[test]
fn bad_bytes_are_bad_encoding() {
    assert_eq!(recv_status(&vec![0, 0, 0, 1, 0xff]), Err(RecvError::BadEncoding));
    assert_eq!(recv_status(&vec![0, 0, 0, 2, 0xc3, 0x28]), Err(RecvError::BadEncoding));
    assert_eq!(recv_status(&vec![0, 0, 0, 1, 0xc3, 0xa9]), Err(RecvError::BadEncoding));
}

#[test]
fn handshake_wants_the_greeting_of_the_other_side() {
    assert_eq!(client_hello(), b"clnt".to_vec());
    assert_eq!(server_hello(), b"serv".to_vec());
    assert_eq!(client_handshake(b"serv"), Ok(()));
    assert_eq!(server_handshake(b"clnt"), Ok(b"serv".to_vec()));
    assert_eq!(
        client_handshake(b"clnt"),
        Err(ConnectError::BadHandshake("received: [99, 108, 110, 116]".to_string()))
    );
    assert_eq!(
        server_handshake(&[0, 7, 42, 255]),
        Err(ConnectError::BadHandshake("received: [0, 7, 42, 255]".to_string()))
    );
    assert_eq!(
        server_handshake(b"serv"),
        Err(ConnectError::BadHandshake(format!("received: {:?}", b"serv")))
    );
}

#[test]
fn request_fails_with_the_half_that_failed() {
    let answer = send_comand("Hello, client");
    assert_eq!(send_request(Ok(()), &answer), Ok("Hello, client".to_string()));
    assert_eq!(
        send_request(Err(SendError::Io), &answer),
        Err(RequestError::Send(SendError::Io))
    );
    assert_eq!(send_request(Ok(()), &vec![0, 0]), Err(RequestError::Recv(RecvError::Io)));
    assert_eq!(
        send_request(Ok(()), &vec![0, 0, 0, 1, 0x80]),
        Err(RequestError::Recv(RecvError::BadEncoding))
    );
    assert_eq!(BindError::Io, BindError::Io);
    assert_ne!(ConnectError::Io, ConnectError::BadHandshake(String::new()));
}

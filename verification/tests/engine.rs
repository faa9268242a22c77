//! The handle driven against a stand-in for the transport engine that keeps
//! sockets, ports and option bytes in memory.

use dl_srt_rust::address::{SockAddrIn, AF_INET, SOCKADDR_IN_SIZE};
use dl_srt_rust::byte_order::ByteOrder;
use dl_srt_rust::connection::{
    cleanup_srt, is_failure, option_length, send_length, startup_srt, SrtSocketConnection,
    SRT_INVALID_SOCK,
    TRANSFER_FLAGS,
};
use dl_srt_rust::errors::{get_last_srt_error, SrtError};
use dl_srt_rust::options::{
    encode_option, option_buffer, SrtOptionValue, SrtSocketOptions, OPTION_BUFFER_LENGTH,
};
use dl_srt_rust::status::SrtSocketStatus;

const TEST_PORT: u16 = 9000;

struct Socket {
    id: i32,
    port: Option<u16>,
    listening: bool,
    reuse: bool,
    options: Vec<(i32, Vec<u8>)>,
}

struct Engine {
    order: ByteOrder,
    started: u32,
    next_id: i32,
    sockets: Vec<Socket>,
    closed: Vec<i32>,
    last_error: Option<Vec<u8>>,
}

impl Engine {
    fn new() -> Engine {
        Engine {
            order: ByteOrder::native(),
            started: 0,
            next_id: 100,
            sockets: Vec::new(),
            closed: Vec::new(),
            last_error: None,
        }
    }

    fn fail(&mut self, text: &str) -> i32 {
        self.last_error = Some(text.as_bytes().to_vec());
        -1
    }

    fn find(&mut self, sock: i32) -> Option<&mut Socket> {
        self.sockets.iter_mut().find(|s| s.id == sock)
    }

    fn startup(&mut self) -> i32 {
        self.started += 1;
        0
    }

    fn cleanup(&mut self) -> i32 {
        self.started = self.started.saturating_sub(1);
        0
    }

    fn create_socket(&mut self) -> i32 {
        let id = self.next_id;
        self.next_id += 1;
        self.sockets.push(Socket { id, port: None, listening: false, reuse: false, options: Vec::new() });
        id
    }

    fn bind(&mut self, sock: i32, addr: &SockAddrIn, addrlen: i32) -> i32 {
        if addrlen != 16 || addr.sin_family != 2 || addr.sin_addr != 0 || addr.sin_zero != [0u8; 8] {
            return self.fail("Bad address");
        }
        let port = u16::from_be(addr.sin_port);
        let taken = self.sockets.iter().any(|s| s.id != sock && s.port == Some(port));
        let reuse = match self.find(sock) {
            Some(s) => s.reuse,
            None => return self.fail("Invalid socket ID"),
        };
        if taken && !reuse {
            return self.fail("Address in use");
        }
        self.find(sock).unwrap().port = Some(port);
        0
    }

    fn listen(&mut self, sock: i32, _backlog: i32) -> i32 {
        match self.find(sock) {
            Some(s) if s.port.is_some() => {
                s.listening = true;
                0
            }
            Some(_) => self.fail("Socket is not bound"),
            None => self.fail("Invalid socket ID"),
        }
    }

    fn accept(&mut self, sock: i32) -> i32 {
        match self.find(sock) {
            Some(s) if s.listening => self.create_socket(),
            _ => self.fail("Socket is not listening"),
        }
    }

    fn close(&mut self, sock: i32) -> i32 {
        self.closed.push(sock);
        match self.sockets.iter().position(|s| s.id == sock) {
            Some(at) => {
                self.sockets.remove(at);
                0
            }
            None => self.fail("Invalid socket ID"),
        }
    }

    fn setsockopt(&mut self, sock: i32, _level: i32, optname: i32, optval: &[u8], optlen: i32) -> i32 {
        let order = self.order;
        let bytes = optval[..optlen as usize].to_vec();
        match self.find(sock) {
            Some(s) => {
                if optname == SrtSocketOptions::SrtOptReuseAddr.code() {
                    s.reuse = dl_srt_rust::byte_order::decode_i32(&bytes, order) != 0;
                }
                s.options.retain(|(code, _)| *code != optname);
                s.options.push((optname, bytes));
                0
            }
            None => self.fail("Invalid socket ID"),
        }
    }

    fn getsockflag(&mut self, sock: i32, optname: i32, optval: &mut [u8], optlen: &mut i32) -> i32 {
        let stored = match self.find(sock) {
            Some(s) => s.options.iter().find(|(code, _)| *code == optname).map(|(_, b)| b.clone()),
            None => return self.fail("Invalid socket ID"),
        };
        let bytes = stored.unwrap_or_default();
        if bytes.len() > optval.len() {
            return self.fail("Buffer too small");
        }
        optval[..bytes.len()].copy_from_slice(&bytes);
        *optlen = bytes.len() as i32;
        0
    }

    fn send(&mut self, sock: i32, _buf: &[u8], len: i32, flags: i32) -> i32 {
        assert_eq!(flags, 0);
        match self.find(sock) {
            Some(_) => len,
            None => self.fail("Invalid socket ID"),
        }
    }

    fn recv(&mut self, sock: i32, buf: &mut [u8], len: i32, _flags: i32) -> i32 {
        match self.find(sock) {
            Some(_) => {
                let data = b"hello";
                let n = data.len().min(len as usize);
                buf[..n].copy_from_slice(&data[..n]);
                n as i32
            }
            None => self.fail("Invalid socket ID"),
        }
    }

    fn getsockstate(&mut self, sock: i32) -> i32 {
        match self.find(sock) {
            Some(s) if s.listening => 3,
            Some(s) if s.port.is_some() => 2,
            Some(_) => 1,
            None => 9,
        }
    }

    fn diagnostic(&self, ret: i32) -> Option<Vec<u8>> {
        if is_failure(ret) {
            self.last_error.clone()
        } else {
            None
        }
    }
}

fn setup(engine: &mut Engine) {
    let ret = engine.startup();
    let diagnostic = engine.diagnostic(ret);
    startup_srt(ret, diagnostic).expect("SRT startup failed");
}

fn teardown(engine: &mut Engine) {
    let ret = engine.cleanup();
    let diagnostic = engine.diagnostic(ret);
    cleanup_srt(ret, diagnostic).expect("SRT cleanup failed");
}

fn create(engine: &mut Engine) -> Result<SrtSocketConnection, SrtError> {
    let sock = engine.create_socket();
    let diagnostic = engine.diagnostic(sock);
    SrtSocketConnection::new(sock, diagnostic)
}

fn bind(engine: &mut Engine, socket: &SrtSocketConnection, port: u16) -> Result<(), SrtError> {
    let addr = SockAddrIn::any_address(port, engine.order);
    let ret = engine.bind(socket.sock(), &addr, SOCKADDR_IN_SIZE);
    socket.bind(port, ret)
}

fn listen(engine: &mut Engine, socket: &SrtSocketConnection, backlog: i32) -> Result<(), SrtError> {
    let ret = engine.listen(socket.sock(), backlog);
    let diagnostic = engine.diagnostic(ret);
    socket.listen(ret, diagnostic)
}

fn accept(engine: &mut Engine, socket: &SrtSocketConnection) -> Result<SrtSocketConnection, SrtError> {
    let sock = engine.accept(socket.sock());
    let diagnostic = engine.diagnostic(sock);
    socket.accept(sock, diagnostic)
}

fn close(engine: &mut Engine, socket: &mut SrtSocketConnection) -> Result<(), SrtError> {
    let ret = socket.release().map(|id| engine.close(id));
    let diagnostic = ret.and_then(|code| engine.diagnostic(code));
    socket.close(ret, diagnostic)
}

fn set_sock_opt(
    engine: &mut Engine,
    socket: &SrtSocketConnection,
    level: i32,
    opt_name: SrtSocketOptions,
    opt_value: SrtOptionValue,
) -> Result<(), SrtError> {
    let bytes = encode_option(opt_name, &opt_value, engine.order)?;
    let optlen = option_length(bytes.len())?;
    let ret = engine.setsockopt(socket.sock(), level, opt_name.code(), &bytes, optlen);
    let diagnostic = engine.diagnostic(ret);
    socket.set_sock_opt(ret, diagnostic)
}

fn get_sock_flag(
    engine: &mut Engine,
    socket: &SrtSocketConnection,
    opt_name: SrtSocketOptions,
) -> Result<SrtOptionValue, SrtError> {
    let mut buffer = option_buffer();
    let mut reported = OPTION_BUFFER_LENGTH;
    let ret = engine.getsockflag(socket.sock(), opt_name.code(), &mut buffer, &mut reported);
    let diagnostic = engine.diagnostic(ret);
    socket.get_sock_flag(opt_name, engine.order, ret, buffer, reported, diagnostic)
}

fn send(engine: &mut Engine, socket: &SrtSocketConnection, data: &[u8]) -> Result<(), SrtError> {
    let len = send_length(data.len())?;
    let ret = engine.send(socket.sock(), data, len, TRANSFER_FLAGS);
    let diagnostic = engine.diagnostic(ret);
    socket.send(ret, diagnostic)
}

fn recv(engine: &mut Engine, socket: &SrtSocketConnection, len: i32) -> Result<Vec<u8>, SrtError> {
    let mut buffer = SrtSocketConnection::recv_buffer(len);
    let ret = engine.recv(socket.sock(), &mut buffer, len, TRANSFER_FLAGS);
    let diagnostic = engine.diagnostic(ret);
    socket.recv(ret, buffer, diagnostic)
}

fn state(engine: &mut Engine, socket: &SrtSocketConnection) -> Option<SrtSocketStatus> {
    let code = engine.getsockstate(socket.sock());
    socket.get_socket_state(code)
}

#[test]
fn test_srt_lifecycle() {
    let mut engine = Engine::new();
    let ret = engine.startup();
    assert!(startup_srt(ret, None).is_ok(), "SRT startup failed");
    let ret = engine.cleanup();
    assert!(cleanup_srt(ret, None).is_ok(), "SRT cleanup failed");
}

#[test]
fn test_socket_creation() {
    let mut engine = Engine::new();
    setup(&mut engine);

    let socket = create(&mut engine);
    assert!(socket.is_ok(), "Socket creation failed");

    teardown(&mut engine);
}

#[test]
fn test_socket_binding() {
    let mut engine = Engine::new();
    setup(&mut engine);

    let socket = create(&mut engine).expect("Socket creation failed");
    match bind(&mut engine, &socket, TEST_PORT) {
        Ok(_) => assert!(true),
        Err(e) => panic!("Socket binding failed: {:?}", e),
    }

    teardown(&mut engine);
}

#[test]
fn test_socket_state() {
    let mut engine = Engine::new();
    setup(&mut engine);

    let socket = create(&mut engine).expect("Socket creation failed");
    assert!(matches!(
        state(&mut engine, &socket),
        Some(SrtSocketStatus::SrtStatusOpened) | Some(SrtSocketStatus::SrtStatusInit)
    ));

    teardown(&mut engine);
}

#[test]
fn test_socket_options() {
    let mut engine = Engine::new();
    setup(&mut engine);

    let socket = create(&mut engine).expect("Socket creation failed");

    let value = true;
    match set_sock_opt(&mut engine, &socket, 0, SrtSocketOptions::SrtOptReuseAddr, SrtOptionValue::Bool(value)) {
        Ok(_) => assert!(true),
        Err(e) => panic!("Failed to set SrtOptReuseAddr: {:?}", e),
    }
    let ret = match get_sock_flag(&mut engine, &socket, SrtSocketOptions::SrtOptReuseAddr) {
        Ok(SrtOptionValue::Bool(val)) => val,
        Err(e) => panic!("Failed to get SrtOptReuseAddr: {:?}", e),
        _ => panic!("Expected boolean value for SrtOptReuseAddr"),
    };
    assert_eq!(ret, value, "SrtOptReuseAddr mismatch");

    let value = false;
    match set_sock_opt(&mut engine, &socket, 0, SrtSocketOptions::SrtOptRCVSYN, SrtOptionValue::Bool(value)) {
        Ok(_) => assert!(true),
        Err(e) => panic!("Failed to set SrtOptRCVSYN: {:?}", e),
    }
    let ret = match get_sock_flag(&mut engine, &socket, SrtSocketOptions::SrtOptRCVSYN) {
        Ok(SrtOptionValue::Bool(val)) => val,
        Err(e) => panic!("Failed to get SrtOptRCVSYN: {:?}", e),
        _ => panic!("Expected boolean value for SrtOptRCVSYN"),
    };
    assert_eq!(ret, value, "SrtOptRCVSYN mismatch");

    let value = 256;
    match set_sock_opt(&mut engine, &socket, 0, SrtSocketOptions::SrtOptLatency, SrtOptionValue::Int(value)) {
        Ok(_) => assert!(true),
        Err(e) => panic!("Failed to set SrtOptLatency: {:?}", e),
    }
    let ret = match get_sock_flag(&mut engine, &socket, SrtSocketOptions::SrtOptLatency) {
        Ok(SrtOptionValue::Int(val)) => val,
        Err(e) => panic!("Failed to get SrtOptLatency: {:?}", e),
        _ => panic!("Expected integer value for SrtOptLatency"),
    };
    assert_eq!(ret, value, "SrtOptLatency mismatch");

    let value = 123;
    match set_sock_opt(&mut engine, &socket, 0, SrtSocketOptions::SrtOptRCVLatency, SrtOptionValue::Int(value)) {
        Ok(_) => assert!(true),
        Err(e) => panic!("Failed to set SrtOptRCVLatency: {:?}", e),
    }
    let ret = match get_sock_flag(&mut engine, &socket, SrtSocketOptions::SrtOptRCVLatency) {
        Ok(SrtOptionValue::Int(val)) => val,
        Err(e) => panic!("Failed to get SrtOptRCVLatency: {:?}", e),
        _ => panic!("Expected integer value for SrtOptRCVLatency"),
    };
    assert_eq!(ret, value, "SrtOptRCVLatency mismatch");

    let value = 1_000_000_000;
    match set_sock_opt(&mut engine, &socket, 0, SrtSocketOptions::SrtOptPeerLatency, SrtOptionValue::Int(value)) {
        Ok(_) => assert!(true),
        Err(e) => panic!("Failed to set SrtOptPeerLatency: {:?}", e),
    }
    let ret = match get_sock_flag(&mut engine, &socket, SrtSocketOptions::SrtOptPeerLatency) {
        Ok(SrtOptionValue::Int(val)) => val,
        Err(e) => panic!("Failed to get SrtOptPeerLatency: {:?}", e),
        _ => panic!("Expected integer value for SrtOptPeerLatency"),
    };
    assert_eq!(ret, value, "SrtOptPeerLatency mismatch");

    teardown(&mut engine);
}

#[test]
fn test_stream_id_flag() {
    let very_long_string = "a".repeat(511);
    let test_cases = vec![
        "test",
        "space test",
        "",
        "あいうえお",
        very_long_string.as_str(),
    ];

    for test_value in test_cases {
        let mut engine = Engine::new();
        setup(&mut engine);

        let socket = create(&mut engine).expect("Socket creation failed");
        let value = String::from(test_value);

        match set_sock_opt(
            &mut engine,
            &socket,
            0,
            SrtSocketOptions::SrtOptStreamID,
            SrtOptionValue::String(value.clone()),
        ) {
            Ok(_) => assert!(true),
            Err(e) => panic!("Failed to set SrtOptStreamID with '{}': {:?}", value, e),
        }

        let ret = match get_sock_flag(&mut engine, &socket, SrtSocketOptions::SrtOptStreamID) {
            Ok(SrtOptionValue::String(val)) => val,
            Ok(other) => panic!("Expected string value for SrtOptStreamID, got {:?}", other),
            Err(e) => panic!("Failed to get SrtOptStreamID: {:?}", e),
        };
        assert_eq!(
            ret, value,
            "Stream ID mismatch for test case '{}'\nExpected: {}\nGot: {}",
            test_value, value, ret
        );
        teardown(&mut engine);
    }
}

#[test]
fn test_error_handling() {
    let mut engine = Engine::new();
    setup(&mut engine);

    let invalid_socket = SrtSocketConnection::invalid();
    assert_eq!(invalid_socket.sock(), -1);
    let test_data: &[u8] = b"test";

    match send(&mut engine, &invalid_socket, test_data) {
        Ok(_) => panic!("Send should fail on invalid socket"),
        Err(e) => assert!(matches!(e, SrtError::SendError(_))),
    }

    match recv(&mut engine, &invalid_socket, 256) {
        Ok(_) => panic!("Recv should fail on invalid socket"),
        Err(e) => assert!(matches!(e, SrtError::ReceiveError(_))),
    }

    let error_str = get_last_srt_error(engine.last_error.clone());
    assert!(!error_str.is_empty(), "Error string should not be empty");
    assert_eq!(error_str, "Invalid socket ID");

    teardown(&mut engine);
}

#[test]
fn failed_calls_carry_the_diagnostic_of_their_operation() {
    let mut engine = Engine::new();
    let gone = SrtSocketConnection::invalid();
    let text = String::from("Invalid socket ID");
    assert_eq!(listen(&mut engine, &gone, 5), Err(SrtError::ListenError(text.clone())));
    assert_eq!(accept(&mut engine, &gone).err(), Some(SrtError::AcceptError(String::from("Socket is not listening"))));
    assert_eq!(
        set_sock_opt(&mut engine, &gone, 0, SrtSocketOptions::SrtOptLatency, SrtOptionValue::Int(1)),
        Err(SrtError::SetSocketOptionError(text.clone()))
    );
    assert_eq!(
        get_sock_flag(&mut engine, &gone, SrtSocketOptions::SrtOptLatency),
        Err(SrtError::GetSocketOptionError(text.clone()))
    );
    assert_eq!(send(&mut engine, &gone, b"x"), Err(SrtError::SendError(text.clone())));
    assert_eq!(recv(&mut engine, &gone, 4), Err(SrtError::ReceiveError(text.clone())));
    assert_eq!(bind(&mut engine, &gone, 4000), Err(SrtError::BindError(4000)));
}

#[test]
fn second_bind_of_a_port_fails_with_that_port() {
    let mut engine = Engine::new();
    let first = create(&mut engine).unwrap();
    let second = create(&mut engine).unwrap();
    assert_eq!(bind(&mut engine, &first, TEST_PORT), Ok(()));
    assert_eq!(bind(&mut engine, &second, TEST_PORT), Err(SrtError::BindError(TEST_PORT)));
}

#[test]
fn close_reaches_the_engine_once() {
    let mut engine = Engine::new();
    let mut socket = create(&mut engine).unwrap();
    let id = socket.sock();
    assert!(!socket.is_released());
    assert_eq!(close(&mut engine, &mut socket), Ok(()));
    assert!(socket.is_released());
    assert_eq!(socket.sock(), SRT_INVALID_SOCK);
    assert_eq!(close(&mut engine, &mut socket), Ok(()));
    assert_eq!(socket.release(), None);
    assert_eq!(engine.closed, vec![id]);
}

#[test]
fn status_follows_bind_listen_and_close() {
    let mut engine = Engine::new();
    let mut socket = create(&mut engine).unwrap();
    bind(&mut engine, &socket, TEST_PORT).unwrap();
    assert_eq!(state(&mut engine, &socket), Some(SrtSocketStatus::SrtStatusOpened));
    listen(&mut engine, &socket, 1).unwrap();
    assert_eq!(state(&mut engine, &socket), Some(SrtSocketStatus::SrtStatusListening));
    let peer = accept(&mut engine, &socket).unwrap();
    assert_ne!(peer.sock(), socket.sock());
    assert_eq!(state(&mut engine, &socket), Some(SrtSocketStatus::SrtStatusListening));
    close(&mut engine, &mut socket).unwrap();
    let after = state(&mut engine, &socket).unwrap();
    assert_eq!(after, SrtSocketStatus::SrtStatusNonExist);
    assert!(after.is_terminal());
}

#[test]
fn received_bytes_are_cut_to_the_reported_count() {
    let mut engine = Engine::new();
    let socket = create(&mut engine).unwrap();
    assert_eq!(recv(&mut engine, &socket, 256), Ok(b"hello".to_vec()));
    assert_eq!(recv(&mut engine, &socket, 3), Ok(b"hel".to_vec()));
    assert_eq!(send(&mut engine, &socket, b"data"), Ok(()));
}

#[test]
fn any_address_holds_the_port_in_network_order() {
    let addr = SockAddrIn::any_address(0x1234, ByteOrder::LittleEndian);
    assert_eq!(addr.sin_family, AF_INET);
    assert_eq!(addr.sin_port, 0x3412);
    assert_eq!(addr.sin_addr, 0);
    assert_eq!(addr.sin_zero, [0u8; 8]);
    let addr = SockAddrIn::any_address(0x1234, ByteOrder::BigEndian);
    assert_eq!(addr.sin_port, 0x1234);
    let native = SockAddrIn::any_address(9000, ByteOrder::native());
    assert_eq!(native.sin_port, 9000u16.to_be());
    assert_eq!(native.sin_port.to_ne_bytes(), [0x23, 0x28]);
    assert_eq!(SOCKADDR_IN_SIZE, 16);
}

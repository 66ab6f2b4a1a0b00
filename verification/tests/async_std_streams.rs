use std::cell::Cell;
use std::cell::RefCell;
use std::collections::VecDeque;
use std::future::Future;
use std::io::Error;
use std::io::ErrorKind;
use std::io::Read;
use std::io::Write;
use std::pin::Pin;
use std::rc::Rc;
use std::sync::Arc;
use std::task::Context;
use std::task::Poll;
use std::task::Waker;

use futures_io::AsyncRead;
use futures_io::AsyncWrite;
use tokio_maybe_tls::async_std::MaybeTlsStream;

const REQUEST: &[u8] = b"GET / HTTP/1.0\r\nHost: example\r\n\r\n";

/// One direction of an in-memory connection.
type Wire = Rc<RefCell<VecDeque<u8>>>;

/// One end of an in-memory connection. A read from an empty wire is
/// pending.
struct End {
    incoming: Wire,
    outgoing: Wire,
}

fn connection() -> (End, End) {
    let up: Wire = Wire::default();
    let down: Wire = Wire::default();
    (End { incoming: down.clone(), outgoing: up.clone() }, End { incoming: up, outgoing: down })
}

impl Read for End {
    fn read(&mut self, buf: &mut [u8]) -> Result<usize, Error> {
        let mut wire = self.incoming.borrow_mut();
        if wire.is_empty() {
            return Err(Error::from(ErrorKind::WouldBlock));
        }
        let n = buf.len().min(wire.len());
        for slot in buf[..n].iter_mut() {
            *slot = wire.pop_front().unwrap();
        }
        Ok(n)
    }
}

impl Write for End {
    fn write(&mut self, buf: &[u8]) -> Result<usize, Error> {
        self.outgoing.borrow_mut().extend(buf.iter().copied());
        Ok(buf.len())
    }

    fn flush(&mut self) -> Result<(), Error> {
        Ok(())
    }
}

impl AsyncRead for End {
    fn poll_read(self: Pin<&mut Self>, _cx: &mut Context<'_>, buf: &mut [u8]) -> Poll<Result<usize, Error>> {
        let mut wire = self.incoming.borrow_mut();
        if wire.is_empty() {
            return Poll::Pending;
        }
        let n = buf.len().min(wire.len());
        for slot in buf[..n].iter_mut() {
            *slot = wire.pop_front().unwrap();
        }
        Poll::Ready(Ok(n))
    }
}

impl AsyncWrite for End {
    fn poll_write(self: Pin<&mut Self>, _cx: &mut Context<'_>, buf: &[u8]) -> Poll<Result<usize, Error>> {
        self.outgoing.borrow_mut().extend(buf.iter().copied());
        Poll::Ready(Ok(buf.len()))
    }

    fn poll_flush(self: Pin<&mut Self>, _cx: &mut Context<'_>) -> Poll<Result<(), Error>> {
        Poll::Ready(Ok(()))
    }

    fn poll_close(self: Pin<&mut Self>, _cx: &mut Context<'_>) -> Poll<Result<(), Error>> {
        Poll::Ready(Ok(()))
    }
}

/// What a scripted transport was asked to do.
#[derive(Clone, Debug, PartialEq)]
enum Asked {
    Read(usize),
    Write(Vec<u8>),
    Flush,
    Close,
}

/// What a scripted transport answers to one poll.
#[derive(Clone, Copy, Debug, PartialEq)]
enum Answer {
    Ready(usize),
    Pending,
    Fails(ErrorKind),
}

/// A transport that records what it is asked and answers from a script.
struct Scripted {
    asked: Vec<Asked>,
    answers: VecDeque<Answer>,
    drops: Rc<Cell<usize>>,
}

impl Scripted {
    fn new(answers: Vec<Answer>) -> Self {
        Scripted { asked: Vec::new(), answers: answers.into(), drops: Rc::new(Cell::new(0)) }
    }

    fn answer(&mut self) -> Poll<Result<usize, Error>> {
        match self.answers.pop_front().expect("the script is exhausted") {
            Answer::Ready(n) => Poll::Ready(Ok(n)),
            Answer::Pending => Poll::Pending,
            Answer::Fails(kind) => Poll::Ready(Err(Error::from(kind))),
        }
    }
}

impl Drop for Scripted {
    fn drop(&mut self) {
        self.drops.set(self.drops.get() + 1);
    }
}

impl AsyncRead for Scripted {
    fn poll_read(mut self: Pin<&mut Self>, _cx: &mut Context<'_>, buf: &mut [u8]) -> Poll<Result<usize, Error>> {
        self.asked.push(Asked::Read(buf.len()));
        match self.answer() {
            Poll::Ready(Ok(n)) => {
                for slot in buf[..n].iter_mut() {
                    *slot = 0xA5;
                }
                Poll::Ready(Ok(n))
            }
            other => other,
        }
    }
}

impl AsyncWrite for Scripted {
    fn poll_write(mut self: Pin<&mut Self>, _cx: &mut Context<'_>, buf: &[u8]) -> Poll<Result<usize, Error>> {
        self.asked.push(Asked::Write(buf.to_vec()));
        self.answer()
    }

    fn poll_flush(mut self: Pin<&mut Self>, _cx: &mut Context<'_>) -> Poll<Result<(), Error>> {
        self.asked.push(Asked::Flush);
        self.answer().map(|r| r.map(|_| ()))
    }

    fn poll_close(mut self: Pin<&mut Self>, _cx: &mut Context<'_>) -> Poll<Result<(), Error>> {
        self.asked.push(Asked::Close);
        self.answer().map(|r| r.map(|_| ()))
    }
}

fn outcome<T>(poll: Poll<Result<T, Error>>) -> Poll<Result<T, ErrorKind>> {
    poll.map(|r| r.map_err(|e| e.kind()))
}

fn plain_of<S>(stream: MaybeTlsStream<S>) -> S {
    match stream {
        MaybeTlsStream::Plain(inner) => inner,
        _ => panic!("the stream is not plain"),
    }
}

/// A TLS server at the far end of an in-memory connection.
struct Server {
    session: rustls::ServerConnection,
    end: End,
}

impl Server {
    /// Takes in what has arrived and sends what the session wants to send.
    fn turn(&mut self) {
        while !self.end.incoming.borrow().is_empty() {
            self.session.read_tls(&mut self.end).unwrap();
            self.session.process_new_packets().unwrap();
        }
        while self.session.wants_write() {
            self.session.write_tls(&mut self.end).unwrap();
        }
    }

    /// The decrypted bytes that have arrived so far.
    fn received(&mut self) -> Vec<u8> {
        self.turn();
        let mut bytes = Vec::new();
        let mut chunk = [0u8; 256];
        loop {
            match self.session.reader().read(&mut chunk) {
                Ok(0) => break,
                Ok(n) => bytes.extend_from_slice(&chunk[..n]),
                Err(e) if e.kind() == ErrorKind::WouldBlock => break,
                Err(e) => panic!("the server could not read: {e}"),
            }
        }
        bytes
    }

    fn send(&mut self, bytes: &[u8]) {
        self.session.writer().write_all(bytes).unwrap();
        self.turn();
    }
}

/// A server with a fresh self-signed certificate for `localhost`, and that
/// certificate.
fn server(end: End) -> (Server, rustls::pki_types::CertificateDer<'static>) {
    let made = rcgen::generate_simple_self_signed(vec!["localhost".to_string()]).unwrap();
    let certificate = made.cert.der().clone();
    let key = rustls::pki_types::PrivateKeyDer::Pkcs8(made.key_pair.serialize_der().into());
    let config = rustls::ServerConfig::builder()
        .with_no_client_auth()
        .with_single_cert(vec![certificate.clone()], key)
        .unwrap();
    let session = rustls::ServerConnection::new(Arc::new(config)).unwrap();
    (Server { session, end }, certificate)
}

/// Polls `future` to its end, giving the server a turn after each poll.
fn settle<F: Future>(future: F, server: &mut Server) -> F::Output {
    let mut future = Box::pin(future);
    let mut cx = Context::from_waker(Waker::noop());
    for _ in 0..16 {
        let poll = future.as_mut().poll(&mut cx);
        server.turn();
        if let Poll::Ready(output) = poll {
            return output;
        }
    }
    panic!("the handshake does not end");
}

/// A `futures_rustls` session over `end` whose handshake with `server` is
/// complete.
fn rustls_session(
    end: End,
    server: &mut Server,
    certificate: rustls::pki_types::CertificateDer<'static>,
) -> futures_rustls::client::TlsStream<End> {
    let mut roots = rustls::RootCertStore::empty();
    roots.add(certificate).unwrap();
    let config = rustls::ClientConfig::builder().with_root_certificates(roots).with_no_client_auth();
    let name = rustls::pki_types::ServerName::try_from("localhost").unwrap();
    let connector = futures_rustls::TlsConnector::from(Arc::new(config));
    settle(connector.connect(name, end), server).unwrap()
}

/// A `async_native_tls` session over `end` whose handshake with `server` is
/// complete.
fn native_tls_session(
    end: End,
    server: &mut Server,
    certificate: rustls::pki_types::CertificateDer<'static>,
) -> async_native_tls::TlsStream<End> {
    let root = async_native_tls::Certificate::from_der(certificate.as_ref()).unwrap();
    let connector = async_native_tls::TlsConnector::new().add_root_certificate(root);
    settle(connector.connect("localhost", end), server).unwrap()
}

/// Writes all of `bytes` and flushes.
fn send_all<S: AsyncRead + AsyncWrite + Unpin>(stream: &mut MaybeTlsStream<S>, bytes: &[u8]) {
    let mut cx = Context::from_waker(Waker::noop());
    let mut sent = 0;
    while sent < bytes.len() {
        match stream.poll_write(&mut cx, &bytes[sent..]) {
            Poll::Ready(Ok(n)) => sent += n,
            other => panic!("the write did not go through: {:?}", other),
        }
    }
    match stream.poll_flush(&mut cx) {
        Poll::Ready(Ok(())) => {}
        other => panic!("the flush did not go through: {:?}", other),
    }
}

/// Reads until `wanted` bytes have arrived.
fn receive<S: AsyncRead + AsyncWrite + Unpin>(stream: &mut MaybeTlsStream<S>, wanted: usize) -> Vec<u8> {
    let mut cx = Context::from_waker(Waker::noop());
    let mut bytes = Vec::new();
    while bytes.len() < wanted {
        let mut chunk = [0u8; 64];
        match stream.poll_read(&mut cx, &mut chunk) {
            Poll::Ready(Ok(n)) => {
                assert!(n > 0, "the stream ended early");
                bytes.extend_from_slice(&chunk[..n]);
            }
            other => panic!("the read did not go through: {:?}", other),
        }
    }
    bytes
}

#[test]
fn async_std_plain_holds_the_stream_given() {
    let stream: MaybeTlsStream<Scripted> = MaybeTlsStream::plain(Scripted::new(vec![Answer::Ready(3)]));
    assert!(matches!(stream, MaybeTlsStream::Plain(_)));
    let inner = plain_of(stream);
    assert_eq!(inner.answers, VecDeque::from(vec![Answer::Ready(3)]));
    assert!(inner.asked.is_empty());
}

#[test]
fn async_std_plain_write_hands_the_payload_to_the_transport() {
    let (client, far) = connection();
    let mut stream: MaybeTlsStream<End> = MaybeTlsStream::plain(client);
    let mut cx = Context::from_waker(Waker::noop());
    assert_eq!(outcome(stream.poll_write(&mut cx, REQUEST)), Poll::Ready(Ok(REQUEST.len())));
    let seen: Vec<u8> = far.incoming.borrow().iter().copied().collect();
    assert_eq!(seen, REQUEST);
    assert!(matches!(stream, MaybeTlsStream::Plain(_)));
}

#[test]
fn async_std_plain_read_yields_the_transport_bytes() {
    let (client, mut far) = connection();
    let mut stream: MaybeTlsStream<End> = MaybeTlsStream::plain(client);
    let mut cx = Context::from_waker(Waker::noop());
    let mut buf = [0u8; 8];
    assert_eq!(outcome(stream.poll_read(&mut cx, &mut buf)), Poll::Pending);
    assert_eq!(buf, [0u8; 8]);
    far.write_all(&[1, 2, 3]).unwrap();
    assert_eq!(outcome(stream.poll_read(&mut cx, &mut buf)), Poll::Ready(Ok(3)));
    assert_eq!(buf, [1u8, 2, 3, 0, 0, 0, 0, 0]);
}

#[test]
fn async_std_plain_behaves_as_the_transport_does() {
    let script = vec![
        Answer::Ready(5),
        Answer::Pending,
        Answer::Fails(ErrorKind::ConnectionReset),
        Answer::Ready(0),
        Answer::Ready(2),
        Answer::Pending,
        Answer::Fails(ErrorKind::TimedOut),
        Answer::Ready(0),
        Answer::Pending,
        Answer::Fails(ErrorKind::BrokenPipe),
        Answer::Pending,
        Answer::Ready(0),
        Answer::Fails(ErrorKind::NotConnected),
    ];
    let mut raw = Scripted::new(script.clone());
    let mut wrapped: MaybeTlsStream<Scripted> = MaybeTlsStream::plain(Scripted::new(script));
    let mut cx = Context::from_waker(Waker::noop());

    for payload in [REQUEST, b"abc", b"", b"xyz"] {
        assert_eq!(
            outcome(wrapped.poll_write(&mut cx, payload)),
            outcome(Pin::new(&mut raw).poll_write(&mut cx, payload))
        );
    }
    for _ in 0..3 {
        let mut buf = [0u8; 6];
        let mut raw_buf = [0u8; 6];
        assert_eq!(
            outcome(wrapped.poll_read(&mut cx, &mut buf)),
            outcome(Pin::new(&mut raw).poll_read(&mut cx, &mut raw_buf))
        );
        assert_eq!(buf, raw_buf);
    }
    for _ in 0..3 {
        assert_eq!(outcome(wrapped.poll_flush(&mut cx)), outcome(Pin::new(&mut raw).poll_flush(&mut cx)));
    }
    for _ in 0..3 {
        assert_eq!(outcome(wrapped.poll_close(&mut cx)), outcome(Pin::new(&mut raw).poll_close(&mut cx)));
    }

    let inner = plain_of(wrapped);
    assert_eq!(inner.asked, raw.asked);
    assert_eq!(
        inner.asked,
        vec![
            Asked::Write(REQUEST.to_vec()),
            Asked::Write(b"abc".to_vec()),
            Asked::Write(Vec::new()),
            Asked::Write(b"xyz".to_vec()),
            Asked::Read(6),
            Asked::Read(6),
            Asked::Read(6),
            Asked::Flush,
            Asked::Flush,
            Asked::Flush,
            Asked::Close,
            Asked::Close,
            Asked::Close,
        ]
    );
    assert!(inner.answers.is_empty());
}

#[test]
fn async_std_plain_returns_what_the_transport_returns() {
    let mut stream: MaybeTlsStream<Scripted> = MaybeTlsStream::plain(Scripted::new(vec![
        Answer::Fails(ErrorKind::ConnectionReset),
        Answer::Pending,
        Answer::Ready(2),
        Answer::Fails(ErrorKind::PermissionDenied),
        Answer::Fails(ErrorKind::UnexpectedEof),
        Answer::Fails(ErrorKind::NotConnected),
    ]));
    let mut cx = Context::from_waker(Waker::noop());
    let mut buf = [0u8; 4];
    assert_eq!(outcome(stream.poll_read(&mut cx, &mut buf)), Poll::Ready(Err(ErrorKind::ConnectionReset)));
    assert_eq!(outcome(stream.poll_read(&mut cx, &mut buf)), Poll::Pending);
    assert_eq!(buf, [0u8; 4]);
    assert_eq!(outcome(stream.poll_read(&mut cx, &mut buf)), Poll::Ready(Ok(2)));
    assert_eq!(buf, [0xA5u8, 0xA5, 0, 0]);
    assert_eq!(outcome(stream.poll_write(&mut cx, b"x")), Poll::Ready(Err(ErrorKind::PermissionDenied)));
    assert_eq!(outcome(stream.poll_flush(&mut cx)), Poll::Ready(Err(ErrorKind::UnexpectedEof)));
    assert_eq!(outcome(stream.poll_close(&mut cx)), Poll::Ready(Err(ErrorKind::NotConnected)));
    assert!(matches!(stream, MaybeTlsStream::Plain(_)));
}

#[test]
fn async_std_close_reaches_the_transport_once() {
    let mut stream: MaybeTlsStream<Scripted> = MaybeTlsStream::plain(Scripted::new(vec![Answer::Ready(0)]));
    let mut cx = Context::from_waker(Waker::noop());
    assert_eq!(outcome(stream.poll_close(&mut cx)), Poll::Ready(Ok(())));
    let inner = plain_of(stream);
    assert_eq!(inner.asked, vec![Asked::Close]);
}

#[test]
fn async_std_drop_releases_the_transport_once() {
    let transport = Scripted::new(vec![Answer::Ready(3)]);
    let drops = transport.drops.clone();
    let mut stream: MaybeTlsStream<Scripted> = MaybeTlsStream::plain(transport);
    let mut cx = Context::from_waker(Waker::noop());
    assert_eq!(outcome(stream.poll_write(&mut cx, b"abc")), Poll::Ready(Ok(3)));
    assert_eq!(drops.get(), 0);
    drop(stream);
    assert_eq!(drops.get(), 1);
}

#[test]
fn async_std_plain_echo_returns_the_request() {
    let (client, mut far) = connection();
    let mut stream: MaybeTlsStream<End> = MaybeTlsStream::plain(client);
    send_all(&mut stream, REQUEST);

    let mut seen = vec![0u8; REQUEST.len()];
    far.read_exact(&mut seen).unwrap();
    assert_eq!(seen, REQUEST);
    far.write_all(&seen).unwrap();

    assert_eq!(receive(&mut stream, REQUEST.len()), REQUEST);
}

#[test]
fn async_std_tls_of_a_rustls_session_is_the_rustls_case() {
    let (client, far) = connection();
    let (mut server, certificate) = server(far);
    let session = rustls_session(client, &mut server, certificate);
    let stream: MaybeTlsStream<End> = MaybeTlsStream::tls(session);
    assert!(matches!(stream, MaybeTlsStream::FuturesRustls(_)));
}

#[test]
fn async_std_from_a_rustls_session_is_the_rustls_case() {
    let (client, far) = connection();
    let (mut server, certificate) = server(far);
    let session = rustls_session(client, &mut server, certificate);
    let stream: MaybeTlsStream<End> = MaybeTlsStream::from(session);
    assert!(matches!(stream, MaybeTlsStream::FuturesRustls(_)));
}

#[test]
fn async_std_rustls_write_reaches_the_peer_decrypted() {
    let (client, far) = connection();
    let wire = client.outgoing.clone();
    let (mut server, certificate) = server(far);
    let mut stream: MaybeTlsStream<End> = MaybeTlsStream::tls(rustls_session(client, &mut server, certificate));

    send_all(&mut stream, REQUEST);
    let sent: Vec<u8> = wire.borrow().iter().copied().collect();
    assert!(sent.len() > REQUEST.len());
    assert!(!sent.windows(REQUEST.len()).any(|w| w == REQUEST));
    assert_eq!(server.received(), REQUEST);
    assert!(matches!(stream, MaybeTlsStream::FuturesRustls(_)));
}

#[test]
fn async_std_rustls_echo_returns_the_request() {
    let (client, far) = connection();
    let (mut server, certificate) = server(far);
    let mut stream: MaybeTlsStream<End> = MaybeTlsStream::tls(rustls_session(client, &mut server, certificate));

    send_all(&mut stream, REQUEST);
    let seen = server.received();
    assert_eq!(seen, REQUEST);
    server.send(&seen);
    assert_eq!(receive(&mut stream, REQUEST.len()), REQUEST);
    assert!(matches!(stream, MaybeTlsStream::FuturesRustls(_)));
}

#[test]
fn async_std_rustls_behaves_as_the_session_does() {
    let (client, far) = connection();
    let (mut server, certificate) = server(far);
    let mut stream: MaybeTlsStream<End> = MaybeTlsStream::tls(rustls_session(client, &mut server, certificate));

    let (raw_client, raw_far) = connection();
    let (mut raw_server, raw_certificate) = self::server(raw_far);
    let mut raw = rustls_session(raw_client, &mut raw_server, raw_certificate);
    let mut cx = Context::from_waker(Waker::noop());

    let mut buf = [0u8; 16];
    let mut raw_buf = [0u8; 16];
    assert_eq!(outcome(stream.poll_read(&mut cx, &mut buf)), Poll::Pending);
    assert_eq!(outcome(Pin::new(&mut raw).poll_read(&mut cx, &mut raw_buf)), Poll::Pending);
    assert_eq!(
        outcome(stream.poll_write(&mut cx, REQUEST)),
        outcome(Pin::new(&mut raw).poll_write(&mut cx, REQUEST))
    );
    assert_eq!(outcome(stream.poll_flush(&mut cx)), outcome(Pin::new(&mut raw).poll_flush(&mut cx)));
    assert_eq!(server.received(), raw_server.received());

    server.send(b"pong");
    raw_server.send(b"pong");
    assert_eq!(
        outcome(stream.poll_read(&mut cx, &mut buf)),
        outcome(Pin::new(&mut raw).poll_read(&mut cx, &mut raw_buf))
    );
    assert_eq!(buf, raw_buf);
    assert_eq!(&buf[..4], b"pong");
    assert_eq!(
        outcome(stream.poll_close(&mut cx)),
        outcome(Pin::new(&mut raw).poll_close(&mut cx))
    );
}

#[test]
fn async_std_tls_of_a_native_tls_session_is_the_native_tls_case() {
    let (client, far) = connection();
    let (mut server, certificate) = server(far);
    let session = native_tls_session(client, &mut server, certificate);
    let stream: MaybeTlsStream<End> = MaybeTlsStream::tls(session);
    assert!(matches!(stream, MaybeTlsStream::AsyncNativeTls(_)));
}

#[test]
fn async_std_from_a_native_tls_session_is_the_native_tls_case() {
    let (client, far) = connection();
    let (mut server, certificate) = server(far);
    let session = native_tls_session(client, &mut server, certificate);
    let stream: MaybeTlsStream<End> = MaybeTlsStream::from(session);
    assert!(matches!(stream, MaybeTlsStream::AsyncNativeTls(_)));
}

#[test]
fn async_std_native_tls_write_reaches_the_peer_decrypted() {
    let (client, far) = connection();
    let wire = client.outgoing.clone();
    let (mut server, certificate) = server(far);
    let mut stream: MaybeTlsStream<End> =
        MaybeTlsStream::tls(native_tls_session(client, &mut server, certificate));

    send_all(&mut stream, REQUEST);
    let sent: Vec<u8> = wire.borrow().iter().copied().collect();
    assert!(sent.len() > REQUEST.len());
    assert!(!sent.windows(REQUEST.len()).any(|w| w == REQUEST));
    assert_eq!(server.received(), REQUEST);
    assert!(matches!(stream, MaybeTlsStream::AsyncNativeTls(_)));
}

#[test]
fn async_std_native_tls_echo_returns_the_request() {
    let (client, far) = connection();
    let (mut server, certificate) = server(far);
    let mut stream: MaybeTlsStream<End> =
        MaybeTlsStream::tls(native_tls_session(client, &mut server, certificate));

    send_all(&mut stream, REQUEST);
    let seen = server.received();
    assert_eq!(seen, REQUEST);
    server.send(&seen);
    assert_eq!(receive(&mut stream, REQUEST.len()), REQUEST);

    let mut cx = Context::from_waker(Waker::noop());
    let mut buf = [0u8; 4];
    assert_eq!(outcome(stream.poll_read(&mut cx, &mut buf)), Poll::Pending);
    assert!(matches!(stream, MaybeTlsStream::AsyncNativeTls(_)));
}

#[test]
fn async_std_native_tls_close_tells_the_peer() {
    let (client, far) = connection();
    let (mut server, certificate) = server(far);
    let mut stream: MaybeTlsStream<End> =
        MaybeTlsStream::tls(native_tls_session(client, &mut server, certificate));
    let mut cx = Context::from_waker(Waker::noop());
    assert_eq!(outcome(stream.poll_close(&mut cx)), Poll::Ready(Ok(())));
    server.turn();
    let mut chunk = [0u8; 4];
    assert_eq!(server.session.reader().read(&mut chunk).unwrap(), 0);
}

//! Blocking streams, read and written through `std::io`.
//!
//! Encryption is that of `rustls` or of `native_tls`.

use std::io::Read;
use std::io::Write;
use vstd::prelude::*;

verus! {

/// `rustls::ClientConnection`, the client side of a `rustls` session.
#[verifier::external_type_specification]
#[verifier::external_body]
pub struct ExClientConnection(rustls::ClientConnection);

/// `native_tls::TlsStream`, a session of the platform's TLS library over a
/// transport of type `S`.
#[verifier::external_type_specification]
#[verifier::external_body]
#[verifier::reject_recursive_types(S)]
pub struct ExNativeTlsStream<S>(native_tls::TlsStream<S>);

/// A `rustls` client session and the transport that carries it: the two parts
/// of a `rustls::StreamOwned`.
#[derive(Debug)]
pub struct RustlsStream<S> {
    /// The TLS session.
    pub conn: rustls::ClientConnection,
    /// The transport under it.
    pub sock: S,
}

/// A stream that might be encrypted with TLS.
///
/// Which kind of stream it holds is settled when it is made, and no call
/// changes it.
#[derive(Debug)]
#[non_exhaustive]
#[verifier::reject_recursive_types(S)]
pub enum MaybeTlsStream<S> {
    /// Unencrypted stream.
    Plain(S),
    /// Stream encrypted with `rustls`.
    Rustls(RustlsStream<S>),
    /// Stream encrypted with `native_tls`.
    NativeTls(native_tls::TlsStream<S>),
}

impl<S> MaybeTlsStream<S> {
    /// Whether `self` and `other` hold the same kind of stream.
    pub open spec fn same_kind(self, other: Self) -> bool {
        match self {
            MaybeTlsStream::Plain(_) => other is Plain,
            MaybeTlsStream::Rustls(_) => other is Rustls,
            MaybeTlsStream::NativeTls(_) => other is NativeTls,
        }
    }

    /// Creates an unencrypted stream.
    ///
    /// The stream held is what `stream` converts into.
    pub fn plain(stream: impl Into<S>) -> (r: Self)
        ensures
            r is Plain,
            call_ensures(Into::<S>::into, (stream,), r->Plain_0),
    {
        MaybeTlsStream::Plain(stream.into())
    }

    /// Creates an encrypted stream.
    ///
    /// The result is what `stream` converts into: for a session of one of the
    /// two TLS libraries, that session in the variant of its library.
    pub fn tls(stream: impl Into<Self>) -> (r: Self)
        ensures
            call_ensures(Into::<Self>::into, (stream,), r),
    {
        stream.into()
    }
}

impl<S> From<RustlsStream<S>> for MaybeTlsStream<S> {
    /// Creates an encrypted stream that holds `stream`.
    fn from(stream: RustlsStream<S>) -> (r: Self) {
        MaybeTlsStream::Rustls(stream)
    }
}

impl<S> vstd::std_specs::convert::FromSpecImpl<RustlsStream<S>> for MaybeTlsStream<S> {
    open spec fn obeys_from_spec() -> bool {
        true
    }

    open spec fn from_spec(stream: RustlsStream<S>) -> Self {
        MaybeTlsStream::Rustls(stream)
    }
}

impl<S> From<native_tls::TlsStream<S>> for MaybeTlsStream<S> {
    /// Creates an encrypted stream that holds `stream`.
    fn from(stream: native_tls::TlsStream<S>) -> (r: Self) {
        MaybeTlsStream::NativeTls(stream)
    }
}

impl<S> vstd::std_specs::convert::FromSpecImpl<native_tls::TlsStream<S>> for MaybeTlsStream<S> {
    open spec fn obeys_from_spec() -> bool {
        true
    }

    open spec fn from_spec(stream: native_tls::TlsStream<S>) -> Self {
        MaybeTlsStream::NativeTls(stream)
    }
}

/// `Read::read`: pulls bytes from `stream` into `buf`, which keeps its length.
/// How many bytes came, or which error, is the stream's to say.
#[verifier::external_body]
fn io_read<R: Read>(stream: &mut R, buf: &mut [u8]) -> (r: Result<usize, std::io::Error>)
    ensures
        final(buf)@.len() == old(buf)@.len(),
{
    stream.read(buf)
}

/// `Write::write`: hands bytes of `buf` to `stream`.
#[verifier::external_body]
fn io_write<W: Write>(stream: &mut W, buf: &[u8]) -> Result<usize, std::io::Error> {
    stream.write(buf)
}

/// `Write::flush`: has `stream` send on what it holds back.
#[verifier::external_body]
fn io_flush<W: Write>(stream: &mut W) -> Result<(), std::io::Error> {
    stream.flush()
}

/// `Read::read` of `rustls::Stream`, made of the session `conn` and its
/// transport `sock`: pulls decrypted bytes into `buf`, which keeps its length.
#[verifier::external_body]
fn rustls_read<S: Read + Write>(
    conn: &mut rustls::ClientConnection,
    sock: &mut S,
    buf: &mut [u8],
) -> (r: Result<usize, std::io::Error>)
    ensures
        final(buf)@.len() == old(buf)@.len(),
{
    rustls::Stream::new(conn, sock).read(buf)
}

/// `Write::write` of `rustls::Stream`, made of the session `conn` and its
/// transport `sock`: takes bytes of `buf` to encrypt and send.
#[verifier::external_body]
fn rustls_write<S: Read + Write>(
    conn: &mut rustls::ClientConnection,
    sock: &mut S,
    buf: &[u8],
) -> Result<usize, std::io::Error> {
    rustls::Stream::new(conn, sock).write(buf)
}

/// `Write::flush` of `rustls::Stream`, made of the session `conn` and its
/// transport `sock`.
#[verifier::external_body]
fn rustls_flush<S: Read + Write>(conn: &mut rustls::ClientConnection, sock: &mut S) -> Result<
    (),
    std::io::Error,
> {
    rustls::Stream::new(conn, sock).flush()
}

/// Whether `r` is what a call of `Read::read` on `stream` with `buf` gave.
///
/// What stands behind `stream` and `buf` is what the call was handed, and
/// their final values are what it left. What a stream does with a call is
/// its own business: of this predicate, and of those below, nothing is known
/// but that a call that was made satisfies it.
pub closed spec fn read_gave<R: Read>(
    stream: &mut R,
    buf: &mut [u8],
    r: Result<usize, std::io::Error>,
) -> bool {
    call_ensures(io_read::<R>, (stream, buf), r)
}

/// Whether `r` is what a call of `Write::write` on `stream` with `buf` gave.
pub closed spec fn write_gave<W: Write>(
    stream: &mut W,
    buf: &[u8],
    r: Result<usize, std::io::Error>,
) -> bool {
    call_ensures(io_write::<W>, (stream, buf), r)
}

/// Whether `r` is what a call of `Write::flush` on `stream` gave.
pub closed spec fn flush_gave<W: Write>(stream: &mut W, r: Result<(), std::io::Error>) -> bool {
    call_ensures(io_flush::<W>, (stream,), r)
}

/// Whether `r` is what a call of `Read::read` with `buf` gave, on the
/// `rustls::Stream` of the session `conn` and its transport `sock`.
pub closed spec fn rustls_read_gave<S: Read + Write>(
    conn: &mut rustls::ClientConnection,
    sock: &mut S,
    buf: &mut [u8],
    r: Result<usize, std::io::Error>,
) -> bool {
    call_ensures(rustls_read::<S>, (conn, sock, buf), r)
}

/// Whether `r` is what a call of `Write::write` with `buf` gave, on the
/// `rustls::Stream` of the session `conn` and its transport `sock`.
pub closed spec fn rustls_write_gave<S: Read + Write>(
    conn: &mut rustls::ClientConnection,
    sock: &mut S,
    buf: &[u8],
    r: Result<usize, std::io::Error>,
) -> bool {
    call_ensures(rustls_write::<S>, (conn, sock, buf), r)
}

/// Whether `r` is what a call of `Write::flush` gave, on the `rustls::Stream`
/// of the session `conn` and its transport `sock`.
pub closed spec fn rustls_flush_gave<S: Read + Write>(
    conn: &mut rustls::ClientConnection,
    sock: &mut S,
    r: Result<(), std::io::Error>,
) -> bool {
    call_ensures(rustls_flush::<S>, (conn, sock), r)
}

/// What a call of `read` gave, in each of the three cases, is what the
/// predicate of that case says it gave.
proof fn lemma_read_gave<S: Read + Write>(r: Result<usize, std::io::Error>)
    ensures
        forall|s: &mut S, b: &mut [u8]| #[trigger]
            call_ensures(io_read::<S>, (s, b), r) ==> read_gave(s, b, r),
        forall|c: &mut rustls::ClientConnection, s: &mut S, b: &mut [u8]| #[trigger]
            call_ensures(rustls_read::<S>, (c, s, b), r) ==> rustls_read_gave(c, s, b, r),
        forall|s: &mut native_tls::TlsStream<S>, b: &mut [u8]| #[trigger]
            call_ensures(io_read::<native_tls::TlsStream<S>>, (s, b), r) ==> read_gave(s, b, r),
{
}

/// What a call of `write` gave, in each of the three cases, is what the
/// predicate of that case says it gave.
proof fn lemma_write_gave<S: Read + Write>(buf: &[u8], r: Result<usize, std::io::Error>)
    ensures
        forall|s: &mut S| #[trigger]
            call_ensures(io_write::<S>, (s, buf), r) ==> write_gave(s, buf, r),
        forall|c: &mut rustls::ClientConnection, s: &mut S| #[trigger]
            call_ensures(rustls_write::<S>, (c, s, buf), r) ==> rustls_write_gave(c, s, buf, r),
        forall|s: &mut native_tls::TlsStream<S>| #[trigger]
            call_ensures(io_write::<native_tls::TlsStream<S>>, (s, buf), r) ==> write_gave(
                s,
                buf,
                r,
            ),
{
}

/// What a call of `flush` gave, in each of the three cases, is what the
/// predicate of that case says it gave.
proof fn lemma_flush_gave<S: Read + Write>(r: Result<(), std::io::Error>)
    ensures
        forall|s: &mut S| #[trigger]
            call_ensures(io_flush::<S>, (s,), r) ==> flush_gave(s, r),
        forall|c: &mut rustls::ClientConnection, s: &mut S| #[trigger]
            call_ensures(rustls_flush::<S>, (c, s), r) ==> rustls_flush_gave(c, s, r),
        forall|s: &mut native_tls::TlsStream<S>| #[trigger]
            call_ensures(io_flush::<native_tls::TlsStream<S>>, (s,), r) ==> flush_gave(s, r),
{
}

impl<S: Read + Write> MaybeTlsStream<S> {
    /// Reads from the stream held into `buf`.
    ///
    /// One read is made, on the stream held and with `buf` as it was given.
    /// What it returned is returned, and the stream and `buf` are as it left
    /// them.
    pub fn read(&mut self, buf: &mut [u8]) -> (r: Result<usize, std::io::Error>)
        ensures
            old(self).same_kind(*final(self)),
            final(buf)@.len() == old(buf)@.len(),
            match *old(self) {
                MaybeTlsStream::Plain(held) => exists|stream: &mut S, b: &mut [u8]|
                    {
                        &&& *stream == held
                        &&& *final(self) == MaybeTlsStream::Plain(*final(stream))
                        &&& b@ == old(buf)@
                        &&& final(b)@ == final(buf)@
                        &&& #[trigger] read_gave(stream, b, r)
                    },
                MaybeTlsStream::Rustls(held) => exists|
                    conn: &mut rustls::ClientConnection,
                    sock: &mut S,
                    b: &mut [u8],
                |
                    {
                        &&& *conn == held.conn
                        &&& *sock == held.sock
                        &&& *final(self) == MaybeTlsStream::Rustls(
                            (RustlsStream { conn: *final(conn), sock: *final(sock) }),
                        )
                        &&& b@ == old(buf)@
                        &&& final(b)@ == final(buf)@
                        &&& #[trigger] rustls_read_gave(conn, sock, b, r)
                    },
                MaybeTlsStream::NativeTls(held) => exists|
                    stream: &mut native_tls::TlsStream<S>,
                    b: &mut [u8],
                |
                    {
                        &&& *stream == held
                        &&& *final(self) == MaybeTlsStream::NativeTls(*final(stream))
                        &&& b@ == old(buf)@
                        &&& final(b)@ == final(buf)@
                        &&& #[trigger] read_gave(stream, b, r)
                    },
            },
    {
        let r = match self {
            MaybeTlsStream::Plain(stream) => io_read(stream, buf),
            MaybeTlsStream::Rustls(stream) => rustls_read(&mut stream.conn, &mut stream.sock, buf),
            MaybeTlsStream::NativeTls(stream) => io_read(stream, buf),
        };
        proof {
            lemma_read_gave::<S>(r);
        }
        r
    }

    /// Writes bytes of `buf` to the stream held.
    ///
    /// One write is made, on the stream held and with `buf` as it was given.
    /// What it returned is returned, and the stream is as it left it.
    pub fn write(&mut self, buf: &[u8]) -> (r: Result<usize, std::io::Error>)
        ensures
            old(self).same_kind(*final(self)),
            match *old(self) {
                MaybeTlsStream::Plain(held) => exists|stream: &mut S|
                    {
                        &&& *stream == held
                        &&& *final(self) == MaybeTlsStream::Plain(*final(stream))
                        &&& #[trigger] write_gave(stream, buf, r)
                    },
                MaybeTlsStream::Rustls(held) => exists|
                    conn: &mut rustls::ClientConnection,
                    sock: &mut S,
                |
                    {
                        &&& *conn == held.conn
                        &&& *sock == held.sock
                        &&& *final(self) == MaybeTlsStream::Rustls(
                            (RustlsStream { conn: *final(conn), sock: *final(sock) }),
                        )
                        &&& #[trigger] rustls_write_gave(conn, sock, buf, r)
                    },
                MaybeTlsStream::NativeTls(held) => exists|stream: &mut native_tls::TlsStream<S>|
                    {
                        &&& *stream == held
                        &&& *final(self) == MaybeTlsStream::NativeTls(*final(stream))
                        &&& #[trigger] write_gave(stream, buf, r)
                    },
            },
    {
        let r = match self {
            MaybeTlsStream::Plain(stream) => io_write(stream, buf),
            MaybeTlsStream::Rustls(stream) => rustls_write(&mut stream.conn, &mut stream.sock, buf),
            MaybeTlsStream::NativeTls(stream) => io_write(stream, buf),
        };
        proof {
            lemma_write_gave::<S>(buf, r);
        }
        r
    }

    /// Flushes the stream held.
    ///
    /// One flush is made, on the stream held. What it returned is returned,
    /// and the stream is as it left it.
    pub fn flush(&mut self) -> (r: Result<(), std::io::Error>)
        ensures
            old(self).same_kind(*final(self)),
            match *old(self) {
                MaybeTlsStream::Plain(held) => exists|stream: &mut S|
                    {
                        &&& *stream == held
                        &&& *final(self) == MaybeTlsStream::Plain(*final(stream))
                        &&& #[trigger] flush_gave(stream, r)
                    },
                MaybeTlsStream::Rustls(held) => exists|
                    conn: &mut rustls::ClientConnection,
                    sock: &mut S,
                |
                    {
                        &&& *conn == held.conn
                        &&& *sock == held.sock
                        &&& *final(self) == MaybeTlsStream::Rustls(
                            (RustlsStream { conn: *final(conn), sock: *final(sock) }),
                        )
                        &&& #[trigger] rustls_flush_gave(conn, sock, r)
                    },
                MaybeTlsStream::NativeTls(held) => exists|stream: &mut native_tls::TlsStream<S>|
                    {
                        &&& *stream == held
                        &&& *final(self) == MaybeTlsStream::NativeTls(*final(stream))
                        &&& #[trigger] flush_gave(stream, r)
                    },
            },
    {
        let r = match self {
            MaybeTlsStream::Plain(stream) => io_flush(stream),
            MaybeTlsStream::Rustls(stream) => rustls_flush(&mut stream.conn, &mut stream.sock),
            MaybeTlsStream::NativeTls(stream) => io_flush(stream),
        };
        proof {
            lemma_flush_gave::<S>(r);
        }
        r
    }
}

/// A stream made by [`MaybeTlsStream::plain`] from a stream of the transport's
/// own type holds that very stream.
pub proof fn lemma_plain_holds_the_stream_given<S>(stream: S, made: MaybeTlsStream<S>)
    requires
        made is Plain,
        call_ensures(Into::<S>::into, (stream,), made->Plain_0),
    ensures
        made == MaybeTlsStream::Plain(stream),
{
}

/// A stream made by [`MaybeTlsStream::tls`] from a `rustls` session holds that
/// very session, as the `rustls` case.
pub proof fn lemma_tls_holds_the_rustls_session<S>(stream: RustlsStream<S>, made: MaybeTlsStream<S>)
    requires
        call_ensures(Into::<MaybeTlsStream<S>>::into, (stream,), made),
    ensures
        made == MaybeTlsStream::Rustls(stream),
{
}

/// A stream made by [`MaybeTlsStream::tls`] from a `native_tls` session holds
/// that very session, as the `native_tls` case.
pub proof fn lemma_tls_holds_the_native_tls_session<S>(
    stream: native_tls::TlsStream<S>,
    made: MaybeTlsStream<S>,
)
    requires
        call_ensures(Into::<MaybeTlsStream<S>>::into, (stream,), made),
    ensures
        made == MaybeTlsStream::NativeTls(stream),
{
}

/// A stream made by [`MaybeTlsStream::plain`] from a transport behaves as the
/// transport does: what a read, a write or a flush of the stream gives, that
/// call gives on the transport itself, and the stream then holds the transport
/// as the call left it.
pub proof fn lemma_plain_stream_behaves_as_its_transport<S: Read + Write>(
    transport: S,
    made: MaybeTlsStream<S>,
)
    requires
        made is Plain,
        call_ensures(Into::<S>::into, (transport,), made->Plain_0),
    ensures
        forall|stream: &mut MaybeTlsStream<S>, buf: &mut [u8], r: Result<usize, std::io::Error>|
            *stream == made && #[trigger] call_ensures(
                MaybeTlsStream::<S>::read,
                (stream, buf),
                r,
            ) ==> exists|held: &mut S, b: &mut [u8]|
                {
                    &&& *held == transport
                    &&& *final(stream) == MaybeTlsStream::Plain(*final(held))
                    &&& b@ == buf@
                    &&& final(b)@ == final(buf)@
                    &&& #[trigger] read_gave(held, b, r)
                },
        forall|stream: &mut MaybeTlsStream<S>, buf: &[u8], r: Result<usize, std::io::Error>|
            *stream == made && #[trigger] call_ensures(
                MaybeTlsStream::<S>::write,
                (stream, buf),
                r,
            ) ==> exists|held: &mut S|
                {
                    &&& *held == transport
                    &&& *final(stream) == MaybeTlsStream::Plain(*final(held))
                    &&& #[trigger] write_gave(held, buf, r)
                },
        forall|stream: &mut MaybeTlsStream<S>, r: Result<(), std::io::Error>|
            *stream == made && #[trigger] call_ensures(MaybeTlsStream::<S>::flush, (stream,), r)
                ==> exists|held: &mut S|
                {
                    &&& *held == transport
                    &&& *final(stream) == MaybeTlsStream::Plain(*final(held))
                    &&& #[trigger] flush_gave(held, r)
                },
{
    lemma_plain_holds_the_stream_given(transport, made);
}

/// A stream made by [`MaybeTlsStream::tls`] from a `rustls` session behaves as
/// the session does: what a read, a write or a flush of the stream gives, that
/// call gives on the `rustls::Stream` of the session and its transport, and
/// the stream then holds both as the call left them.
pub proof fn lemma_rustls_stream_behaves_as_its_session<S: Read + Write>(
    session: RustlsStream<S>,
    made: MaybeTlsStream<S>,
)
    requires
        call_ensures(Into::<MaybeTlsStream<S>>::into, (session,), made),
    ensures
        forall|stream: &mut MaybeTlsStream<S>, buf: &mut [u8], r: Result<usize, std::io::Error>|
            *stream == made && #[trigger] call_ensures(
                MaybeTlsStream::<S>::read,
                (stream, buf),
                r,
            ) ==> exists|conn: &mut rustls::ClientConnection, sock: &mut S, b: &mut [u8]|
                {
                    &&& *conn == session.conn
                    &&& *sock == session.sock
                    &&& *final(stream) == MaybeTlsStream::Rustls(
                        (RustlsStream { conn: *final(conn), sock: *final(sock) }),
                    )
                    &&& b@ == buf@
                    &&& final(b)@ == final(buf)@
                    &&& #[trigger] rustls_read_gave(conn, sock, b, r)
                },
        forall|stream: &mut MaybeTlsStream<S>, buf: &[u8], r: Result<usize, std::io::Error>|
            *stream == made && #[trigger] call_ensures(
                MaybeTlsStream::<S>::write,
                (stream, buf),
                r,
            ) ==> exists|conn: &mut rustls::ClientConnection, sock: &mut S|
                {
                    &&& *conn == session.conn
                    &&& *sock == session.sock
                    &&& *final(stream) == MaybeTlsStream::Rustls(
                        (RustlsStream { conn: *final(conn), sock: *final(sock) }),
                    )
                    &&& #[trigger] rustls_write_gave(conn, sock, buf, r)
                },
        forall|stream: &mut MaybeTlsStream<S>, r: Result<(), std::io::Error>|
            *stream == made && #[trigger] call_ensures(MaybeTlsStream::<S>::flush, (stream,), r)
                ==> exists|conn: &mut rustls::ClientConnection, sock: &mut S|
                {
                    &&& *conn == session.conn
                    &&& *sock == session.sock
                    &&& *final(stream) == MaybeTlsStream::Rustls(
                        (RustlsStream { conn: *final(conn), sock: *final(sock) }),
                    )
                    &&& #[trigger] rustls_flush_gave(conn, sock, r)
                },
{
    lemma_tls_holds_the_rustls_session(session, made);
}

/// A stream made by [`MaybeTlsStream::tls`] from a `native_tls` session
/// behaves as the session does: what a read, a write or a flush of the stream
/// gives, that call gives on the session itself, and the stream then holds the
/// session as the call left it.
pub proof fn lemma_native_tls_stream_behaves_as_its_session<S: Read + Write>(
    session: native_tls::TlsStream<S>,
    made: MaybeTlsStream<S>,
)
    requires
        call_ensures(Into::<MaybeTlsStream<S>>::into, (session,), made),
    ensures
        forall|stream: &mut MaybeTlsStream<S>, buf: &mut [u8], r: Result<usize, std::io::Error>|
            *stream == made && #[trigger] call_ensures(
                MaybeTlsStream::<S>::read,
                (stream, buf),
                r,
            ) ==> exists|held: &mut native_tls::TlsStream<S>, b: &mut [u8]|
                {
                    &&& *held == session
                    &&& *final(stream) == MaybeTlsStream::NativeTls(*final(held))
                    &&& b@ == buf@
                    &&& final(b)@ == final(buf)@
                    &&& #[trigger] read_gave(held, b, r)
                },
        forall|stream: &mut MaybeTlsStream<S>, buf: &[u8], r: Result<usize, std::io::Error>|
            *stream == made && #[trigger] call_ensures(
                MaybeTlsStream::<S>::write,
                (stream, buf),
                r,
            ) ==> exists|held: &mut native_tls::TlsStream<S>|
                {
                    &&& *held == session
                    &&& *final(stream) == MaybeTlsStream::NativeTls(*final(held))
                    &&& #[trigger] write_gave(held, buf, r)
                },
        forall|stream: &mut MaybeTlsStream<S>, r: Result<(), std::io::Error>|
            *stream == made && #[trigger] call_ensures(MaybeTlsStream::<S>::flush, (stream,), r)
                ==> exists|held: &mut native_tls::TlsStream<S>|
                {
                    &&& *held == session
                    &&& *final(stream) == MaybeTlsStream::NativeTls(*final(held))
                    &&& #[trigger] flush_gave(held, r)
                },
{
    lemma_tls_holds_the_native_tls_session(session, made);
}

} // verus!

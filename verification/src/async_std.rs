//! Asynchronous streams, polled through the I/O traits of `futures_io`, as
//! `async-std` does.
//!
//! Encryption is that of `futures_rustls` or of `async_native_tls`.

use std::pin::Pin;
use std::task::Context;
use std::task::Poll;
use futures_io::AsyncRead;
use futures_io::AsyncWrite;
use vstd::prelude::*;

verus! {

/// `futures_rustls::client::TlsStream`, the client side of a `rustls` session
/// over a transport of type `IO`.
#[verifier::external_type_specification]
#[verifier::external_body]
#[verifier::reject_recursive_types(IO)]
pub struct ExRustlsStream<IO>(futures_rustls::client::TlsStream<IO>);

/// `async_native_tls::TlsStream`, a session of the platform's TLS library over
/// a transport of type `S`.
#[verifier::external_type_specification]
#[verifier::external_body]
#[verifier::reject_recursive_types(S)]
pub struct ExNativeTlsStream<S>(async_native_tls::TlsStream<S>);

/// A stream that might be encrypted with TLS.
///
/// Which kind of stream it holds is settled when it is made, and no call
/// changes it.
#[derive(Debug)]
#[non_exhaustive]
#[verifier::reject_recursive_types(S)]
pub enum MaybeTlsStream<S> {
    /// Unencrypted stream.
    Plain(S),
    /// Stream encrypted with `futures_rustls`.
    FuturesRustls(futures_rustls::client::TlsStream<S>),
    /// Stream encrypted with `async_native_tls`.
    AsyncNativeTls(async_native_tls::TlsStream<S>),
}

impl<S> MaybeTlsStream<S> {
    /// Whether `self` and `other` hold the same kind of stream.
    pub open spec fn same_kind(self, other: Self) -> bool {
        match self {
            MaybeTlsStream::Plain(_) => other is Plain,
            MaybeTlsStream::FuturesRustls(_) => other is FuturesRustls,
            MaybeTlsStream::AsyncNativeTls(_) => other is AsyncNativeTls,
        }
    }

    /// Creates an unencrypted stream.
    ///
    /// The stream held is what `stream` converts into.
    pub fn plain(stream: impl Into<S>) -> (r: Self)
        ensures
            r is Plain,
            call_ensures(Into::<S>::into, (stream,), r->Plain_0),
    {
        MaybeTlsStream::Plain(stream.into())
    }

    /// Creates an encrypted stream.
    ///
    /// The result is what `stream` converts into: for a stream of one of the
    /// two TLS libraries, that stream in the variant of its library.
    pub fn tls(stream: impl Into<Self>) -> (r: Self)
        ensures
            call_ensures(Into::<Self>::into, (stream,), r),
    {
        stream.into()
    }
}

impl<S> From<futures_rustls::client::TlsStream<S>> for MaybeTlsStream<S> {
    /// Creates an encrypted stream that holds `stream`.
    fn from(stream: futures_rustls::client::TlsStream<S>) -> (r: Self) {
        MaybeTlsStream::FuturesRustls(stream)
    }
}

impl<S> vstd::std_specs::convert::FromSpecImpl<futures_rustls::client::TlsStream<S>> for MaybeTlsStream<S> {
    open spec fn obeys_from_spec() -> bool {
        true
    }

    open spec fn from_spec(stream: futures_rustls::client::TlsStream<S>) -> Self {
        MaybeTlsStream::FuturesRustls(stream)
    }
}

impl<S> From<async_native_tls::TlsStream<S>> for MaybeTlsStream<S> {
    /// Creates an encrypted stream that holds `stream`.
    fn from(stream: async_native_tls::TlsStream<S>) -> (r: Self) {
        MaybeTlsStream::AsyncNativeTls(stream)
    }
}

impl<S> vstd::std_specs::convert::FromSpecImpl<async_native_tls::TlsStream<S>> for MaybeTlsStream<S> {
    open spec fn obeys_from_spec() -> bool {
        true
    }

    open spec fn from_spec(stream: async_native_tls::TlsStream<S>) -> Self {
        MaybeTlsStream::AsyncNativeTls(stream)
    }
}

/// `AsyncRead::poll_read` of a transport: one poll of `stream` for bytes to
/// put into `buf`, which keeps its length. What comes back is the transport's
/// to say.
#[verifier::external_body]
fn plain_poll_read<S: AsyncRead + Unpin>(
    stream: &mut S,
    cx: &mut Context<'_>,
    buf: &mut [u8],
) -> (r: Poll<Result<usize, std::io::Error>>)
    ensures
        final(buf)@.len() == old(buf)@.len(),
{
    Pin::new(stream).poll_read(cx, buf)
}

/// `AsyncWrite::poll_write` of a transport: one poll of `stream` to take bytes
/// of `buf`. What comes back is the transport's to say.
#[verifier::external_body]
fn plain_poll_write<S: AsyncWrite + Unpin>(
    stream: &mut S,
    cx: &mut Context<'_>,
    buf: &[u8],
) -> Poll<Result<usize, std::io::Error>> {
    Pin::new(stream).poll_write(cx, buf)
}

/// `AsyncWrite::poll_flush` of a transport: one poll of `stream` to send on
/// what it holds back. What comes back is the transport's to say.
#[verifier::external_body]
fn plain_poll_flush<S: AsyncWrite + Unpin>(
    stream: &mut S,
    cx: &mut Context<'_>,
) -> Poll<Result<(), std::io::Error>> {
    Pin::new(stream).poll_flush(cx)
}

/// `AsyncWrite::poll_close` of a transport: one poll of `stream` to close.
/// What comes back is the transport's to say.
#[verifier::external_body]
fn plain_poll_close<S: AsyncWrite + Unpin>(
    stream: &mut S,
    cx: &mut Context<'_>,
) -> Poll<Result<(), std::io::Error>> {
    Pin::new(stream).poll_close(cx)
}

/// `AsyncRead::poll_read` of `futures_rustls::client::TlsStream`: one poll of
/// `stream` for bytes to put into `buf`, which keeps its length.
#[verifier::external_body]
fn rustls_poll_read<S: AsyncRead + AsyncWrite + Unpin>(
    stream: &mut futures_rustls::client::TlsStream<S>,
    cx: &mut Context<'_>,
    buf: &mut [u8],
) -> (r: Poll<Result<usize, std::io::Error>>)
    ensures
        final(buf)@.len() == old(buf)@.len(),
{
    Pin::new(stream).poll_read(cx, buf)
}

/// `AsyncWrite::poll_write` of `futures_rustls::client::TlsStream`: one poll
/// of `stream` to take bytes of `buf`.
#[verifier::external_body]
fn rustls_poll_write<S: AsyncRead + AsyncWrite + Unpin>(
    stream: &mut futures_rustls::client::TlsStream<S>,
    cx: &mut Context<'_>,
    buf: &[u8],
) -> Poll<Result<usize, std::io::Error>> {
    Pin::new(stream).poll_write(cx, buf)
}

/// `AsyncWrite::poll_flush` of `futures_rustls::client::TlsStream`: one poll
/// of `stream` to send on what it holds back.
#[verifier::external_body]
fn rustls_poll_flush<S: AsyncRead + AsyncWrite + Unpin>(
    stream: &mut futures_rustls::client::TlsStream<S>,
    cx: &mut Context<'_>,
) -> Poll<Result<(), std::io::Error>> {
    Pin::new(stream).poll_flush(cx)
}

/// `AsyncWrite::poll_close` of `futures_rustls::client::TlsStream`: one poll
/// of `stream` to close.
#[verifier::external_body]
fn rustls_poll_close<S: AsyncRead + AsyncWrite + Unpin>(
    stream: &mut futures_rustls::client::TlsStream<S>,
    cx: &mut Context<'_>,
) -> Poll<Result<(), std::io::Error>> {
    Pin::new(stream).poll_close(cx)
}

/// `AsyncRead::poll_read` of `async_native_tls::TlsStream`: one poll of
/// `stream` for bytes to put into `buf`, which keeps its length.
#[verifier::external_body]
fn native_tls_poll_read<S: AsyncRead + AsyncWrite + Unpin>(
    stream: &mut async_native_tls::TlsStream<S>,
    cx: &mut Context<'_>,
    buf: &mut [u8],
) -> (r: Poll<Result<usize, std::io::Error>>)
    ensures
        final(buf)@.len() == old(buf)@.len(),
{
    Pin::new(stream).poll_read(cx, buf)
}

/// `AsyncWrite::poll_write` of `async_native_tls::TlsStream`: one poll of
/// `stream` to take bytes of `buf`.
#[verifier::external_body]
fn native_tls_poll_write<S: AsyncRead + AsyncWrite + Unpin>(
    stream: &mut async_native_tls::TlsStream<S>,
    cx: &mut Context<'_>,
    buf: &[u8],
) -> Poll<Result<usize, std::io::Error>> {
    Pin::new(stream).poll_write(cx, buf)
}

/// `AsyncWrite::poll_flush` of `async_native_tls::TlsStream`: one poll of
/// `stream` to send on what it holds back.
#[verifier::external_body]
fn native_tls_poll_flush<S: AsyncRead + AsyncWrite + Unpin>(
    stream: &mut async_native_tls::TlsStream<S>,
    cx: &mut Context<'_>,
) -> Poll<Result<(), std::io::Error>> {
    Pin::new(stream).poll_flush(cx)
}

/// `AsyncWrite::poll_close` of `async_native_tls::TlsStream`: one poll of
/// `stream` to close.
#[verifier::external_body]
fn native_tls_poll_close<S: AsyncRead + AsyncWrite + Unpin>(
    stream: &mut async_native_tls::TlsStream<S>,
    cx: &mut Context<'_>,
) -> Poll<Result<(), std::io::Error>> {
    Pin::new(stream).poll_close(cx)
}

/// Whether `r` is what a call of `AsyncRead::poll_read` on `stream` with `cx`
/// and `buf` gave.
///
/// What stands behind `stream`, `cx` and `buf` is what the call was handed,
/// and their final values are what it left. What a stream does with a poll is
/// its own business: of this predicate, and of those below, nothing is known
/// but that a call that was made satisfies it.
pub closed spec fn plain_poll_read_gave<S: AsyncRead + Unpin>(
    stream: &mut S,
    cx: &mut Context<'_>,
    buf: &mut [u8],
    r: Poll<Result<usize, std::io::Error>>,
) -> bool {
    call_ensures(plain_poll_read::<S>, (stream, cx, buf), r)
}

/// Whether `r` is what a call of `AsyncWrite::poll_write` on `stream` with
/// `cx` and `buf` gave.
pub closed spec fn plain_poll_write_gave<S: AsyncWrite + Unpin>(
    stream: &mut S,
    cx: &mut Context<'_>,
    buf: &[u8],
    r: Poll<Result<usize, std::io::Error>>,
) -> bool {
    call_ensures(plain_poll_write::<S>, (stream, cx, buf), r)
}

/// Whether `r` is what a call of `AsyncWrite::poll_flush` on `stream` with
/// `cx` gave.
pub closed spec fn plain_poll_flush_gave<S: AsyncWrite + Unpin>(
    stream: &mut S,
    cx: &mut Context<'_>,
    r: Poll<Result<(), std::io::Error>>,
) -> bool {
    call_ensures(plain_poll_flush::<S>, (stream, cx), r)
}

/// Whether `r` is what a call of `AsyncWrite::poll_close` on `stream` with
/// `cx` gave.
pub closed spec fn plain_poll_close_gave<S: AsyncWrite + Unpin>(
    stream: &mut S,
    cx: &mut Context<'_>,
    r: Poll<Result<(), std::io::Error>>,
) -> bool {
    call_ensures(plain_poll_close::<S>, (stream, cx), r)
}

/// Whether `r` is what a call of `AsyncRead::poll_read` on the session
/// `stream` with `cx` and `buf` gave.
pub closed spec fn rustls_poll_read_gave<S: AsyncRead + AsyncWrite + Unpin>(
    stream: &mut futures_rustls::client::TlsStream<S>,
    cx: &mut Context<'_>,
    buf: &mut [u8],
    r: Poll<Result<usize, std::io::Error>>,
) -> bool {
    call_ensures(rustls_poll_read::<S>, (stream, cx, buf), r)
}

/// Whether `r` is what a call of `AsyncWrite::poll_write` on the session
/// `stream` with `cx` and `buf` gave.
pub closed spec fn rustls_poll_write_gave<S: AsyncRead + AsyncWrite + Unpin>(
    stream: &mut futures_rustls::client::TlsStream<S>,
    cx: &mut Context<'_>,
    buf: &[u8],
    r: Poll<Result<usize, std::io::Error>>,
) -> bool {
    call_ensures(rustls_poll_write::<S>, (stream, cx, buf), r)
}

/// Whether `r` is what a call of `AsyncWrite::poll_flush` on the session
/// `stream` with `cx` gave.
pub closed spec fn rustls_poll_flush_gave<S: AsyncRead + AsyncWrite + Unpin>(
    stream: &mut futures_rustls::client::TlsStream<S>,
    cx: &mut Context<'_>,
    r: Poll<Result<(), std::io::Error>>,
) -> bool {
    call_ensures(rustls_poll_flush::<S>, (stream, cx), r)
}

/// Whether `r` is what a call of `AsyncWrite::poll_close` on the session
/// `stream` with `cx` gave.
pub closed spec fn rustls_poll_close_gave<S: AsyncRead + AsyncWrite + Unpin>(
    stream: &mut futures_rustls::client::TlsStream<S>,
    cx: &mut Context<'_>,
    r: Poll<Result<(), std::io::Error>>,
) -> bool {
    call_ensures(rustls_poll_close::<S>, (stream, cx), r)
}

/// Whether `r` is what a call of `AsyncRead::poll_read` on the session
/// `stream` with `cx` and `buf` gave.
pub closed spec fn native_tls_poll_read_gave<S: AsyncRead + AsyncWrite + Unpin>(
    stream: &mut async_native_tls::TlsStream<S>,
    cx: &mut Context<'_>,
    buf: &mut [u8],
    r: Poll<Result<usize, std::io::Error>>,
) -> bool {
    call_ensures(native_tls_poll_read::<S>, (stream, cx, buf), r)
}

/// Whether `r` is what a call of `AsyncWrite::poll_write` on the session
/// `stream` with `cx` and `buf` gave.
pub closed spec fn native_tls_poll_write_gave<S: AsyncRead + AsyncWrite + Unpin>(
    stream: &mut async_native_tls::TlsStream<S>,
    cx: &mut Context<'_>,
    buf: &[u8],
    r: Poll<Result<usize, std::io::Error>>,
) -> bool {
    call_ensures(native_tls_poll_write::<S>, (stream, cx, buf), r)
}

/// Whether `r` is what a call of `AsyncWrite::poll_flush` on the session
/// `stream` with `cx` gave.
pub closed spec fn native_tls_poll_flush_gave<S: AsyncRead + AsyncWrite + Unpin>(
    stream: &mut async_native_tls::TlsStream<S>,
    cx: &mut Context<'_>,
    r: Poll<Result<(), std::io::Error>>,
) -> bool {
    call_ensures(native_tls_poll_flush::<S>, (stream, cx), r)
}

/// Whether `r` is what a call of `AsyncWrite::poll_close` on the session
/// `stream` with `cx` gave.
pub closed spec fn native_tls_poll_close_gave<S: AsyncRead + AsyncWrite + Unpin>(
    stream: &mut async_native_tls::TlsStream<S>,
    cx: &mut Context<'_>,
    r: Poll<Result<(), std::io::Error>>,
) -> bool {
    call_ensures(native_tls_poll_close::<S>, (stream, cx), r)
}

/// What a call of `poll_read` gave, in each of the three cases, is what the
/// predicate of that case says it gave.
proof fn lemma_poll_read_gave<S: AsyncRead + AsyncWrite + Unpin>(
    r: Poll<Result<usize, std::io::Error>>,
)
    ensures
        forall|s: &mut S, c: &mut Context<'_>, b: &mut [u8]| #[trigger]
            call_ensures(plain_poll_read::<S>, (s, c, b), r) ==> plain_poll_read_gave(s, c, b, r),
        forall|
            s: &mut futures_rustls::client::TlsStream<S>,
            c: &mut Context<'_>,
            b: &mut [u8],
        | #[trigger]
            call_ensures(rustls_poll_read::<S>, (s, c, b), r) ==> rustls_poll_read_gave(s, c, b, r),
        forall|s: &mut async_native_tls::TlsStream<S>, c: &mut Context<'_>, b: &mut [u8]| #[trigger]
            call_ensures(native_tls_poll_read::<S>, (s, c, b), r) ==> native_tls_poll_read_gave(
                s,
                c,
                b,
                r,
            ),
{
}

/// What a call of `poll_write` gave, in each of the three cases, is what the
/// predicate of that case says it gave.
proof fn lemma_poll_write_gave<S: AsyncRead + AsyncWrite + Unpin>(
    buf: &[u8],
    r: Poll<Result<usize, std::io::Error>>,
)
    ensures
        forall|s: &mut S, c: &mut Context<'_>| #[trigger]
            call_ensures(plain_poll_write::<S>, (s, c, buf), r) ==> plain_poll_write_gave(
                s,
                c,
                buf,
                r,
            ),
        forall|s: &mut futures_rustls::client::TlsStream<S>, c: &mut Context<'_>| #[trigger]
            call_ensures(rustls_poll_write::<S>, (s, c, buf), r) ==> rustls_poll_write_gave(
                s,
                c,
                buf,
                r,
            ),
        forall|s: &mut async_native_tls::TlsStream<S>, c: &mut Context<'_>| #[trigger]
            call_ensures(native_tls_poll_write::<S>, (s, c, buf), r) ==> native_tls_poll_write_gave(
                s,
                c,
                buf,
                r,
            ),
{
}

/// What a call of `poll_flush` gave, in each of the three cases, is what the
/// predicate of that case says it gave.
proof fn lemma_poll_flush_gave<S: AsyncRead + AsyncWrite + Unpin>(
    r: Poll<Result<(), std::io::Error>>,
)
    ensures
        forall|s: &mut S, c: &mut Context<'_>| #[trigger]
            call_ensures(plain_poll_flush::<S>, (s, c), r) ==> plain_poll_flush_gave(s, c, r),
        forall|s: &mut futures_rustls::client::TlsStream<S>, c: &mut Context<'_>| #[trigger]
            call_ensures(rustls_poll_flush::<S>, (s, c), r) ==> rustls_poll_flush_gave(s, c, r),
        forall|s: &mut async_native_tls::TlsStream<S>, c: &mut Context<'_>| #[trigger]
            call_ensures(native_tls_poll_flush::<S>, (s, c), r) ==> native_tls_poll_flush_gave(
                s,
                c,
                r,
            ),
{
}

/// What a call of `poll_close` gave, in each of the three cases, is what the
/// predicate of that case says it gave.
proof fn lemma_poll_close_gave<S: AsyncRead + AsyncWrite + Unpin>(
    r: Poll<Result<(), std::io::Error>>,
)
    ensures
        forall|s: &mut S, c: &mut Context<'_>| #[trigger]
            call_ensures(plain_poll_close::<S>, (s, c), r) ==> plain_poll_close_gave(s, c, r),
        forall|s: &mut futures_rustls::client::TlsStream<S>, c: &mut Context<'_>| #[trigger]
            call_ensures(rustls_poll_close::<S>, (s, c), r) ==> rustls_poll_close_gave(s, c, r),
        forall|s: &mut async_native_tls::TlsStream<S>, c: &mut Context<'_>| #[trigger]
            call_ensures(native_tls_poll_close::<S>, (s, c), r) ==> native_tls_poll_close_gave(
                s,
                c,
                r,
            ),
{
}

impl<S: AsyncRead + AsyncWrite + Unpin> MaybeTlsStream<S> {
    /// Polls the stream held for bytes to put into `buf`.
    ///
    /// One poll is made, on the stream held and with `cx` and `buf` as they
    /// were given. What it returned is returned, and the stream, `cx` and
    /// `buf` are as it left them.
    pub fn poll_read(
        &mut self,
        cx: &mut Context<'_>,
        buf: &mut [u8],
    ) -> (r: Poll<Result<usize, std::io::Error>>)
        ensures
            old(self).same_kind(*final(self)),
            final(buf)@.len() == old(buf)@.len(),
            match *old(self) {
                MaybeTlsStream::Plain(held) => exists|
                    stream: &mut S,
                    c: &mut Context<'_>,
                    b: &mut [u8],
                |
                    {
                        &&& *stream == held
                        &&& *final(self) == MaybeTlsStream::Plain(*final(stream))
                        &&& *c == *old(cx)
                        &&& *final(c) == *final(cx)
                        &&& b@ == old(buf)@
                        &&& final(b)@ == final(buf)@
                        &&& #[trigger] plain_poll_read_gave(stream, c, b, r)
                    },
                MaybeTlsStream::FuturesRustls(held) => exists|
                    stream: &mut futures_rustls::client::TlsStream<S>,
                    c: &mut Context<'_>,
                    b: &mut [u8],
                |
                    {
                        &&& *stream == held
                        &&& *final(self) == MaybeTlsStream::FuturesRustls(*final(stream))
                        &&& *c == *old(cx)
                        &&& *final(c) == *final(cx)
                        &&& b@ == old(buf)@
                        &&& final(b)@ == final(buf)@
                        &&& #[trigger] rustls_poll_read_gave(stream, c, b, r)
                    },
                MaybeTlsStream::AsyncNativeTls(held) => exists|
                    stream: &mut async_native_tls::TlsStream<S>,
                    c: &mut Context<'_>,
                    b: &mut [u8],
                |
                    {
                        &&& *stream == held
                        &&& *final(self) == MaybeTlsStream::AsyncNativeTls(*final(stream))
                        &&& *c == *old(cx)
                        &&& *final(c) == *final(cx)
                        &&& b@ == old(buf)@
                        &&& final(b)@ == final(buf)@
                        &&& #[trigger] native_tls_poll_read_gave(stream, c, b, r)
                    },
            },
    {
        let r = match self {
            MaybeTlsStream::Plain(stream) => plain_poll_read(stream, cx, buf),
            MaybeTlsStream::FuturesRustls(stream) => rustls_poll_read(stream, cx, buf),
            MaybeTlsStream::AsyncNativeTls(stream) => native_tls_poll_read(stream, cx, buf),
        };
        proof {
            lemma_poll_read_gave::<S>(r);
        }
        r
    }

    /// Polls the stream held to take bytes of `buf`.
    ///
    /// One poll is made, on the stream held and with `cx` and `buf` as they
    /// were given. What it returned is returned, and the stream and `cx` are
    /// as it left them.
    pub fn poll_write(
        &mut self,
        cx: &mut Context<'_>,
        buf: &[u8],
    ) -> (r: Poll<Result<usize, std::io::Error>>)
        ensures
            old(self).same_kind(*final(self)),
            match *old(self) {
                MaybeTlsStream::Plain(held) => exists|
                    stream: &mut S,
                    c: &mut Context<'_>,
                |
                    {
                        &&& *stream == held
                        &&& *final(self) == MaybeTlsStream::Plain(*final(stream))
                        &&& *c == *old(cx)
                        &&& *final(c) == *final(cx)
                        &&& #[trigger] plain_poll_write_gave(stream, c, buf, r)
                    },
                MaybeTlsStream::FuturesRustls(held) => exists|
                    stream: &mut futures_rustls::client::TlsStream<S>,
                    c: &mut Context<'_>,
                |
                    {
                        &&& *stream == held
                        &&& *final(self) == MaybeTlsStream::FuturesRustls(*final(stream))
                        &&& *c == *old(cx)
                        &&& *final(c) == *final(cx)
                        &&& #[trigger] rustls_poll_write_gave(stream, c, buf, r)
                    },
                MaybeTlsStream::AsyncNativeTls(held) => exists|
                    stream: &mut async_native_tls::TlsStream<S>,
                    c: &mut Context<'_>,
                |
                    {
                        &&& *stream == held
                        &&& *final(self) == MaybeTlsStream::AsyncNativeTls(*final(stream))
                        &&& *c == *old(cx)
                        &&& *final(c) == *final(cx)
                        &&& #[trigger] native_tls_poll_write_gave(stream, c, buf, r)
                    },
            },
    {
        let r = match self {
            MaybeTlsStream::Plain(stream) => plain_poll_write(stream, cx, buf),
            MaybeTlsStream::FuturesRustls(stream) => rustls_poll_write(stream, cx, buf),
            MaybeTlsStream::AsyncNativeTls(stream) => native_tls_poll_write(stream, cx, buf),
        };
        proof {
            lemma_poll_write_gave::<S>(buf, r);
        }
        r
    }

    /// Polls the stream held to send on what it holds back.
    ///
    /// One poll is made, on the stream held and with `cx` as it was given.
    /// What it returned is returned, and the stream and `cx` are as it left
    /// them.
    pub fn poll_flush(&mut self, cx: &mut Context<'_>) -> (r: Poll<Result<(), std::io::Error>>)
        ensures
            old(self).same_kind(*final(self)),
            match *old(self) {
                MaybeTlsStream::Plain(held) => exists|
                    stream: &mut S,
                    c: &mut Context<'_>,
                |
                    {
                        &&& *stream == held
                        &&& *final(self) == MaybeTlsStream::Plain(*final(stream))
                        &&& *c == *old(cx)
                        &&& *final(c) == *final(cx)
                        &&& #[trigger] plain_poll_flush_gave(stream, c, r)
                    },
                MaybeTlsStream::FuturesRustls(held) => exists|
                    stream: &mut futures_rustls::client::TlsStream<S>,
                    c: &mut Context<'_>,
                |
                    {
                        &&& *stream == held
                        &&& *final(self) == MaybeTlsStream::FuturesRustls(*final(stream))
                        &&& *c == *old(cx)
                        &&& *final(c) == *final(cx)
                        &&& #[trigger] rustls_poll_flush_gave(stream, c, r)
                    },
                MaybeTlsStream::AsyncNativeTls(held) => exists|
                    stream: &mut async_native_tls::TlsStream<S>,
                    c: &mut Context<'_>,
                |
                    {
                        &&& *stream == held
                        &&& *final(self) == MaybeTlsStream::AsyncNativeTls(*final(stream))
                        &&& *c == *old(cx)
                        &&& *final(c) == *final(cx)
                        &&& #[trigger] native_tls_poll_flush_gave(stream, c, r)
                    },
            },
    {
        let r = match self {
            MaybeTlsStream::Plain(stream) => plain_poll_flush(stream, cx),
            MaybeTlsStream::FuturesRustls(stream) => rustls_poll_flush(stream, cx),
            MaybeTlsStream::AsyncNativeTls(stream) => native_tls_poll_flush(stream, cx),
        };
        proof {
            lemma_poll_flush_gave::<S>(r);
        }
        r
    }

    /// Polls the stream held to close.
    ///
    /// One poll is made, on the stream held and with `cx` as it was given.
    /// What it returned is returned, and the stream and `cx` are as it left
    /// them.
    pub fn poll_close(&mut self, cx: &mut Context<'_>) -> (r: Poll<Result<(), std::io::Error>>)
        ensures
            old(self).same_kind(*final(self)),
            match *old(self) {
                MaybeTlsStream::Plain(held) => exists|
                    stream: &mut S,
                    c: &mut Context<'_>,
                |
                    {
                        &&& *stream == held
                        &&& *final(self) == MaybeTlsStream::Plain(*final(stream))
                        &&& *c == *old(cx)
                        &&& *final(c) == *final(cx)
                        &&& #[trigger] plain_poll_close_gave(stream, c, r)
                    },
                MaybeTlsStream::FuturesRustls(held) => exists|
                    stream: &mut futures_rustls::client::TlsStream<S>,
                    c: &mut Context<'_>,
                |
                    {
                        &&& *stream == held
                        &&& *final(self) == MaybeTlsStream::FuturesRustls(*final(stream))
                        &&& *c == *old(cx)
                        &&& *final(c) == *final(cx)
                        &&& #[trigger] rustls_poll_close_gave(stream, c, r)
                    },
                MaybeTlsStream::AsyncNativeTls(held) => exists|
                    stream: &mut async_native_tls::TlsStream<S>,
                    c: &mut Context<'_>,
                |
                    {
                        &&& *stream == held
                        &&& *final(self) == MaybeTlsStream::AsyncNativeTls(*final(stream))
                        &&& *c == *old(cx)
                        &&& *final(c) == *final(cx)
                        &&& #[trigger] native_tls_poll_close_gave(stream, c, r)
                    },
            },
    {
        let r = match self {
            MaybeTlsStream::Plain(stream) => plain_poll_close(stream, cx),
            MaybeTlsStream::FuturesRustls(stream) => rustls_poll_close(stream, cx),
            MaybeTlsStream::AsyncNativeTls(stream) => native_tls_poll_close(stream, cx),
        };
        proof {
            lemma_poll_close_gave::<S>(r);
        }
        r
    }
}

/// A stream made by [`MaybeTlsStream::plain`] from a stream of the transport's
/// own type holds that very stream.
pub proof fn lemma_plain_holds_the_stream_given<S>(stream: S, made: MaybeTlsStream<S>)
    requires
        made is Plain,
        call_ensures(Into::<S>::into, (stream,), made->Plain_0),
    ensures
        made == MaybeTlsStream::Plain(stream),
{
}

/// A stream made by [`MaybeTlsStream::tls`] from a `futures_rustls` session
/// holds that very session, as the `futures_rustls` case.
pub proof fn lemma_tls_holds_the_rustls_session<S>(
    stream: futures_rustls::client::TlsStream<S>,
    made: MaybeTlsStream<S>,
)
    requires
        call_ensures(Into::<MaybeTlsStream<S>>::into, (stream,), made),
    ensures
        made == MaybeTlsStream::FuturesRustls(stream),
{
}

/// A stream made by [`MaybeTlsStream::tls`] from a `async_native_tls` session
/// holds that very session, as the `async_native_tls` case.
pub proof fn lemma_tls_holds_the_native_tls_session<S>(
    stream: async_native_tls::TlsStream<S>,
    made: MaybeTlsStream<S>,
)
    requires
        call_ensures(Into::<MaybeTlsStream<S>>::into, (stream,), made),
    ensures
        made == MaybeTlsStream::AsyncNativeTls(stream),
{
}

/// A stream made by [`MaybeTlsStream::plain`] from a transport behaves as the
/// transport does: what a poll of the stream for reading, writing, flushing or
/// closing gives, that poll gives on the transport itself, and the stream then
/// holds the transport as the poll left it.
pub proof fn lemma_plain_stream_behaves_as_its_transport<S: AsyncRead + AsyncWrite + Unpin>(
    transport: S,
    made: MaybeTlsStream<S>,
)
    requires
        made is Plain,
        call_ensures(Into::<S>::into, (transport,), made->Plain_0),
    ensures
        forall|
            stream: &mut MaybeTlsStream<S>,
            cx: &mut Context<'_>,
            buf: &mut [u8],
            r: Poll<Result<usize, std::io::Error>>,
        |
            *stream == made && #[trigger] call_ensures(
                MaybeTlsStream::<S>::poll_read,
                (stream, cx, buf),
                r,
            ) ==> exists|held: &mut S, c: &mut Context<'_>, b: &mut [u8]|
                {
                    &&& *held == transport
                    &&& *final(stream) == MaybeTlsStream::Plain(*final(held))
                    &&& *c == *cx
                    &&& *final(c) == *final(cx)
                    &&& b@ == buf@
                    &&& final(b)@ == final(buf)@
                    &&& #[trigger] plain_poll_read_gave(held, c, b, r)
                },
        forall|
            stream: &mut MaybeTlsStream<S>,
            cx: &mut Context<'_>,
            buf: &[u8],
            r: Poll<Result<usize, std::io::Error>>,
        |
            *stream == made && #[trigger] call_ensures(
                MaybeTlsStream::<S>::poll_write,
                (stream, cx, buf),
                r,
            ) ==> exists|held: &mut S, c: &mut Context<'_>|
                {
                    &&& *held == transport
                    &&& *final(stream) == MaybeTlsStream::Plain(*final(held))
                    &&& *c == *cx
                    &&& *final(c) == *final(cx)
                    &&& #[trigger] plain_poll_write_gave(held, c, buf, r)
                },
        forall|
            stream: &mut MaybeTlsStream<S>,
            cx: &mut Context<'_>,
            r: Poll<Result<(), std::io::Error>>,
        |
            *stream == made && #[trigger] call_ensures(
                MaybeTlsStream::<S>::poll_flush,
                (stream, cx),
                r,
            ) ==> exists|held: &mut S, c: &mut Context<'_>|
                {
                    &&& *held == transport
                    &&& *final(stream) == MaybeTlsStream::Plain(*final(held))
                    &&& *c == *cx
                    &&& *final(c) == *final(cx)
                    &&& #[trigger] plain_poll_flush_gave(held, c, r)
                },
        forall|
            stream: &mut MaybeTlsStream<S>,
            cx: &mut Context<'_>,
            r: Poll<Result<(), std::io::Error>>,
        |
            *stream == made && #[trigger] call_ensures(
                MaybeTlsStream::<S>::poll_close,
                (stream, cx),
                r,
            ) ==> exists|held: &mut S, c: &mut Context<'_>|
                {
                    &&& *held == transport
                    &&& *final(stream) == MaybeTlsStream::Plain(*final(held))
                    &&& *c == *cx
                    &&& *final(c) == *final(cx)
                    &&& #[trigger] plain_poll_close_gave(held, c, r)
                },
{
    lemma_plain_holds_the_stream_given(transport, made);
}

/// A stream made by [`MaybeTlsStream::tls`] from a `futures_rustls` session
/// behaves as the session does: what a poll of the stream for reading,
/// writing, flushing or closing gives, that poll gives on the session itself,
/// and the stream then holds the session as the poll left it.
pub proof fn lemma_rustls_stream_behaves_as_its_session<S: AsyncRead + AsyncWrite + Unpin>(
    session: futures_rustls::client::TlsStream<S>,
    made: MaybeTlsStream<S>,
)
    requires
        call_ensures(Into::<MaybeTlsStream<S>>::into, (session,), made),
    ensures
        forall|
            stream: &mut MaybeTlsStream<S>,
            cx: &mut Context<'_>,
            buf: &mut [u8],
            r: Poll<Result<usize, std::io::Error>>,
        |
            *stream == made && #[trigger] call_ensures(
                MaybeTlsStream::<S>::poll_read,
                (stream, cx, buf),
                r,
            ) ==> exists|
                held: &mut futures_rustls::client::TlsStream<S>,
                c: &mut Context<'_>,
                b: &mut [u8],
            |
                {
                    &&& *held == session
                    &&& *final(stream) == MaybeTlsStream::FuturesRustls(*final(held))
                    &&& *c == *cx
                    &&& *final(c) == *final(cx)
                    &&& b@ == buf@
                    &&& final(b)@ == final(buf)@
                    &&& #[trigger] rustls_poll_read_gave(held, c, b, r)
                },
        forall|
            stream: &mut MaybeTlsStream<S>,
            cx: &mut Context<'_>,
            buf: &[u8],
            r: Poll<Result<usize, std::io::Error>>,
        |
            *stream == made && #[trigger] call_ensures(
                MaybeTlsStream::<S>::poll_write,
                (stream, cx, buf),
                r,
            ) ==> exists|held: &mut futures_rustls::client::TlsStream<S>, c: &mut Context<'_>|
                {
                    &&& *held == session
                    &&& *final(stream) == MaybeTlsStream::FuturesRustls(*final(held))
                    &&& *c == *cx
                    &&& *final(c) == *final(cx)
                    &&& #[trigger] rustls_poll_write_gave(held, c, buf, r)
                },
        forall|
            stream: &mut MaybeTlsStream<S>,
            cx: &mut Context<'_>,
            r: Poll<Result<(), std::io::Error>>,
        |
            *stream == made && #[trigger] call_ensures(
                MaybeTlsStream::<S>::poll_flush,
                (stream, cx),
                r,
            ) ==> exists|held: &mut futures_rustls::client::TlsStream<S>, c: &mut Context<'_>|
                {
                    &&& *held == session
                    &&& *final(stream) == MaybeTlsStream::FuturesRustls(*final(held))
                    &&& *c == *cx
                    &&& *final(c) == *final(cx)
                    &&& #[trigger] rustls_poll_flush_gave(held, c, r)
                },
        forall|
            stream: &mut MaybeTlsStream<S>,
            cx: &mut Context<'_>,
            r: Poll<Result<(), std::io::Error>>,
        |
            *stream == made && #[trigger] call_ensures(
                MaybeTlsStream::<S>::poll_close,
                (stream, cx),
                r,
            ) ==> exists|held: &mut futures_rustls::client::TlsStream<S>, c: &mut Context<'_>|
                {
                    &&& *held == session
                    &&& *final(stream) == MaybeTlsStream::FuturesRustls(*final(held))
                    &&& *c == *cx
                    &&& *final(c) == *final(cx)
                    &&& #[trigger] rustls_poll_close_gave(held, c, r)
                },
{
    lemma_tls_holds_the_rustls_session(session, made);
}

/// A stream made by [`MaybeTlsStream::tls`] from a `async_native_tls` session
/// behaves as the session does: what a poll of the stream for reading,
/// writing, flushing or closing gives, that poll gives on the session itself,
/// and the stream then holds the session as the poll left it.
pub proof fn lemma_native_tls_stream_behaves_as_its_session<S: AsyncRead + AsyncWrite + Unpin>(
    session: async_native_tls::TlsStream<S>,
    made: MaybeTlsStream<S>,
)
    requires
        call_ensures(Into::<MaybeTlsStream<S>>::into, (session,), made),
    ensures
        forall|
            stream: &mut MaybeTlsStream<S>,
            cx: &mut Context<'_>,
            buf: &mut [u8],
            r: Poll<Result<usize, std::io::Error>>,
        |
            *stream == made && #[trigger] call_ensures(
                MaybeTlsStream::<S>::poll_read,
                (stream, cx, buf),
                r,
            ) ==> exists|
                held: &mut async_native_tls::TlsStream<S>,
                c: &mut Context<'_>,
                b: &mut [u8],
            |
                {
                    &&& *held == session
                    &&& *final(stream) == MaybeTlsStream::AsyncNativeTls(*final(held))
                    &&& *c == *cx
                    &&& *final(c) == *final(cx)
                    &&& b@ == buf@
                    &&& final(b)@ == final(buf)@
                    &&& #[trigger] native_tls_poll_read_gave(held, c, b, r)
                },
        forall|
            stream: &mut MaybeTlsStream<S>,
            cx: &mut Context<'_>,
            buf: &[u8],
            r: Poll<Result<usize, std::io::Error>>,
        |
            *stream == made && #[trigger] call_ensures(
                MaybeTlsStream::<S>::poll_write,
                (stream, cx, buf),
                r,
            ) ==> exists|held: &mut async_native_tls::TlsStream<S>, c: &mut Context<'_>|
                {
                    &&& *held == session
                    &&& *final(stream) == MaybeTlsStream::AsyncNativeTls(*final(held))
                    &&& *c == *cx
                    &&& *final(c) == *final(cx)
                    &&& #[trigger] native_tls_poll_write_gave(held, c, buf, r)
                },
        forall|
            stream: &mut MaybeTlsStream<S>,
            cx: &mut Context<'_>,
            r: Poll<Result<(), std::io::Error>>,
        |
            *stream == made && #[trigger] call_ensures(
                MaybeTlsStream::<S>::poll_flush,
                (stream, cx),
                r,
            ) ==> exists|held: &mut async_native_tls::TlsStream<S>, c: &mut Context<'_>|
                {
                    &&& *held == session
                    &&& *final(stream) == MaybeTlsStream::AsyncNativeTls(*final(held))
                    &&& *c == *cx
                    &&& *final(c) == *final(cx)
                    &&& #[trigger] native_tls_poll_flush_gave(held, c, r)
                },
        forall|
            stream: &mut MaybeTlsStream<S>,
            cx: &mut Context<'_>,
            r: Poll<Result<(), std::io::Error>>,
        |
            *stream == made && #[trigger] call_ensures(
                MaybeTlsStream::<S>::poll_close,
                (stream, cx),
                r,
            ) ==> exists|held: &mut async_native_tls::TlsStream<S>, c: &mut Context<'_>|
                {
                    &&& *held == session
                    &&& *final(stream) == MaybeTlsStream::AsyncNativeTls(*final(held))
                    &&& *c == *cx
                    &&& *final(c) == *final(cx)
                    &&& #[trigger] native_tls_poll_close_gave(held, c, r)
                },
{
    lemma_tls_holds_the_native_tls_session(session, made);
}

} // verus!

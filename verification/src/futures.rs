//! Asynchronous streams whose encrypted side is chosen at run time.
//!
//! A stream is here whatever implements [`FuturesExt`]. What a stream does
//! with a poll is its own business. A [`MaybeTlsStream`] makes on the stream
//! it holds exactly the poll that is made on it, with what it was handed, and
//! returns what came back.

use std::marker::PhantomData;
use std::task::Context;
use std::task::Poll;
use vstd::prelude::*;

verus! {

/// What a stream must offer to stand on either side of a [`MaybeTlsStream`]:
/// polls for reading, writing, flushing and closing.
pub trait FuturesExt {
    /// Attempts to read bytes into `buf`, which keeps its length, as a slice
    /// always does.
    fn poll_read(&mut self, cx: &mut Context<'_>, buf: &mut [u8]) -> (r: Poll<
        Result<usize, std::io::Error>,
    >)
        ensures
            final(buf)@.len() == old(buf)@.len(),
    ;

    /// Attempts to write bytes of `buf`.
    fn poll_write(&mut self, cx: &mut Context<'_>, buf: &[u8]) -> Poll<
        Result<usize, std::io::Error>,
    >;

    /// Attempts to send on what the stream holds back.
    fn poll_flush(&mut self, cx: &mut Context<'_>) -> Poll<Result<(), std::io::Error>>;

    /// Attempts to close the stream.
    fn poll_close(&mut self, cx: &mut Context<'_>) -> Poll<Result<(), std::io::Error>>;
}

/// The two kinds of stream that a [`MaybeTlsStream`] chooses between.
pub trait Stream {
    /// The unencrypted stream.
    type Plain;

    /// The encrypted stream.
    type Tls;
}

/// The streams that are polled as [`FuturesExt`] says: a plain stream of type
/// `S`, and an encrypted stream of whatever type, chosen at run time.
pub struct Futures<S: FuturesExt>(PhantomData<S>);

impl<S: FuturesExt> Stream for Futures<S> {
    type Plain = S;

    type Tls = Box<dyn FuturesExt>;
}

/// A stream that might be encrypted with TLS.
///
/// Which kind of stream it holds is settled when it is made, and no call
/// changes it.
pub enum MaybeTlsStream<S: Stream> {
    /// Unencrypted stream.
    Plain(S::Plain),
    /// Encrypted stream.
    Tls(S::Tls),
}

/// A stream in a box is polled by polling the stream in the box.
impl FuturesExt for Box<dyn FuturesExt> {
    fn poll_read(&mut self, cx: &mut Context<'_>, buf: &mut [u8]) -> (r: Poll<
        Result<usize, std::io::Error>,
    >)
        ensures
            exists|stream: &mut (dyn FuturesExt + 'static), c: &mut Context<'_>, b: &mut [u8]|
                {
                    &&& &*stream == &**old(self)
                    &&& &*final(stream) == &**final(self)
                    &&& *c == *old(cx)
                    &&& *final(c) == *final(cx)
                    &&& b@ == old(buf)@
                    &&& final(b)@ == final(buf)@
                    &&& #[trigger] read_gave(stream, c, b, r)
                },
    {
        poll_read_of(&mut **self, cx, buf)
    }

    fn poll_write(&mut self, cx: &mut Context<'_>, buf: &[u8]) -> (r: Poll<
        Result<usize, std::io::Error>,
    >)
        ensures
            exists|stream: &mut (dyn FuturesExt + 'static), c: &mut Context<'_>|
                {
                    &&& &*stream == &**old(self)
                    &&& &*final(stream) == &**final(self)
                    &&& *c == *old(cx)
                    &&& *final(c) == *final(cx)
                    &&& #[trigger] write_gave(stream, c, buf, r)
                },
    {
        poll_write_of(&mut **self, cx, buf)
    }

    fn poll_flush(&mut self, cx: &mut Context<'_>) -> (r: Poll<Result<(), std::io::Error>>)
        ensures
            exists|stream: &mut (dyn FuturesExt + 'static), c: &mut Context<'_>|
                {
                    &&& &*stream == &**old(self)
                    &&& &*final(stream) == &**final(self)
                    &&& *c == *old(cx)
                    &&& *final(c) == *final(cx)
                    &&& #[trigger] flush_gave(stream, c, r)
                },
    {
        poll_flush_of(&mut **self, cx)
    }

    fn poll_close(&mut self, cx: &mut Context<'_>) -> (r: Poll<Result<(), std::io::Error>>)
        ensures
            exists|stream: &mut (dyn FuturesExt + 'static), c: &mut Context<'_>|
                {
                    &&& &*stream == &**old(self)
                    &&& &*final(stream) == &**final(self)
                    &&& *c == *old(cx)
                    &&& *final(c) == *final(cx)
                    &&& #[trigger] close_gave(stream, c, r)
                },
    {
        poll_close_of(&mut **self, cx)
    }
}

/// Whether `r` is what a poll of `stream` for reading, with `cx` and `buf`,
/// gave.
///
/// What stands behind `stream`, `cx` and `buf` is what the poll was handed,
/// and their final values are what it left. The stream may be of a type
/// that is known only at run time.
pub open spec fn read_gave<T: FuturesExt + ?Sized>(
    stream: &mut T,
    cx: &mut Context<'_>,
    buf: &mut [u8],
    r: Poll<Result<usize, std::io::Error>>,
) -> bool {
    call_ensures(T::poll_read, (stream, cx, buf), r)
}

/// Whether `r` is what a poll of `stream` for writing, with `cx` and `buf`,
/// gave.
pub open spec fn write_gave<T: FuturesExt + ?Sized>(
    stream: &mut T,
    cx: &mut Context<'_>,
    buf: &[u8],
    r: Poll<Result<usize, std::io::Error>>,
) -> bool {
    call_ensures(T::poll_write, (stream, cx, buf), r)
}

/// Whether `r` is what a poll of `stream` for flushing, with `cx`, gave.
pub open spec fn flush_gave<T: FuturesExt + ?Sized>(
    stream: &mut T,
    cx: &mut Context<'_>,
    r: Poll<Result<(), std::io::Error>>,
) -> bool {
    call_ensures(T::poll_flush, (stream, cx), r)
}

/// Whether `r` is what a poll of `stream` for closing, with `cx`, gave.
pub open spec fn close_gave<T: FuturesExt + ?Sized>(
    stream: &mut T,
    cx: &mut Context<'_>,
    r: Poll<Result<(), std::io::Error>>,
) -> bool {
    call_ensures(T::poll_close, (stream, cx), r)
}

/// Polls `stream`, of a type that may be known only at run time, for bytes
/// to put into `buf`: one poll, with what was given, whose result is
/// returned.
fn poll_read_of<T: FuturesExt + ?Sized>(stream: &mut T, cx: &mut Context<'_>, buf: &mut [u8]) -> (r:
    Poll<Result<usize, std::io::Error>>)
    ensures
        final(buf)@.len() == old(buf)@.len(),
        exists|s: &mut T, c: &mut Context<'_>, b: &mut [u8]|
            {
                &&& &*s == &*old(stream)
                &&& &*final(s) == &*final(stream)
                &&& *c == *old(cx)
                &&& *final(c) == *final(cx)
                &&& b@ == old(buf)@
                &&& final(b)@ == final(buf)@
                &&& #[trigger] read_gave(s, c, b, r)
            },
{
    let r = stream.poll_read(cx, buf);
    assert(forall|s: &mut T, c: &mut Context<'_>, b: &mut [u8]| #[trigger]
        call_ensures(T::poll_read, (s, c, b), r) ==> read_gave(s, c, b, r));
    r
}

/// Polls `stream`, of a type that may be known only at run time, to take
/// bytes of `buf`: one poll, with what was given, whose result is returned.
fn poll_write_of<T: FuturesExt + ?Sized>(stream: &mut T, cx: &mut Context<'_>, buf: &[u8]) -> (r:
    Poll<Result<usize, std::io::Error>>)
    ensures
        exists|s: &mut T, c: &mut Context<'_>|
            {
                &&& &*s == &*old(stream)
                &&& &*final(s) == &*final(stream)
                &&& *c == *old(cx)
                &&& *final(c) == *final(cx)
                &&& #[trigger] write_gave(s, c, buf, r)
            },
{
    let r = stream.poll_write(cx, buf);
    assert(forall|s: &mut T, c: &mut Context<'_>| #[trigger]
        call_ensures(T::poll_write, (s, c, buf), r) ==> write_gave(s, c, buf, r));
    r
}

/// Polls `stream`, of a type that may be known only at run time, to send on
/// what it holds back: one poll, with what was given, whose result is
/// returned.
fn poll_flush_of<T: FuturesExt + ?Sized>(stream: &mut T, cx: &mut Context<'_>) -> (r: Poll<
    Result<(), std::io::Error>,
>)
    ensures
        exists|s: &mut T, c: &mut Context<'_>|
            {
                &&& &*s == &*old(stream)
                &&& &*final(s) == &*final(stream)
                &&& *c == *old(cx)
                &&& *final(c) == *final(cx)
                &&& #[trigger] flush_gave(s, c, r)
            },
{
    let r = stream.poll_flush(cx);
    assert(forall|s: &mut T, c: &mut Context<'_>| #[trigger]
        call_ensures(T::poll_flush, (s, c), r) ==> flush_gave(s, c, r));
    r
}

/// Polls `stream`, of a type that may be known only at run time, to close:
/// one poll, with what was given, whose result is returned.
fn poll_close_of<T: FuturesExt + ?Sized>(stream: &mut T, cx: &mut Context<'_>) -> (r: Poll<
    Result<(), std::io::Error>,
>)
    ensures
        exists|s: &mut T, c: &mut Context<'_>|
            {
                &&& &*s == &*old(stream)
                &&& &*final(s) == &*final(stream)
                &&& *c == *old(cx)
                &&& *final(c) == *final(cx)
                &&& #[trigger] close_gave(s, c, r)
            },
{
    let r = stream.poll_close(cx);
    assert(forall|s: &mut T, c: &mut Context<'_>| #[trigger]
        call_ensures(T::poll_close, (s, c), r) ==> close_gave(s, c, r));
    r
}

impl<S: Stream> MaybeTlsStream<S> {
    /// Whether `self` and `other` hold the same kind of stream.
    pub open spec fn same_kind(self, other: Self) -> bool {
        match self {
            MaybeTlsStream::Plain(_) => other is Plain,
            MaybeTlsStream::Tls(_) => other is Tls,
        }
    }
}

impl<S: Stream> FuturesExt for MaybeTlsStream<S> where S::Plain: FuturesExt, S::Tls: FuturesExt {
    /// Polls the stream held for bytes to put into `buf`.
    ///
    /// One poll is made, on the stream held and with `cx` and `buf` as they
    /// were given. What it returned is returned, and the stream, `cx` and
    /// `buf` are as it left them.
    fn poll_read(
        &mut self,
        cx: &mut Context<'_>,
        buf: &mut [u8],
    ) -> (r: Poll<Result<usize, std::io::Error>>)
        ensures
            old(self).same_kind(*final(self)),
            match *old(self) {
                MaybeTlsStream::Plain(held) => exists|
                    stream: &mut S::Plain,
                    c: &mut Context<'_>,
                    b: &mut [u8],
                |
                    {
                        &&& *stream == held
                        &&& *final(self) == MaybeTlsStream::<S>::Plain(*final(stream))
                        &&& *c == *old(cx)
                        &&& *final(c) == *final(cx)
                        &&& b@ == old(buf)@
                        &&& final(b)@ == final(buf)@
                        &&& #[trigger] call_ensures(
                            <S::Plain as FuturesExt>::poll_read,
                            (stream, c, b),
                            r,
                        )
                    },
                MaybeTlsStream::Tls(held) => exists|
                    stream: &mut S::Tls,
                    c: &mut Context<'_>,
                    b: &mut [u8],
                |
                    {
                        &&& *stream == held
                        &&& *final(self) == MaybeTlsStream::<S>::Tls(*final(stream))
                        &&& *c == *old(cx)
                        &&& *final(c) == *final(cx)
                        &&& b@ == old(buf)@
                        &&& final(b)@ == final(buf)@
                        &&& #[trigger] call_ensures(
                            <S::Tls as FuturesExt>::poll_read,
                            (stream, c, b),
                            r,
                        )
                    },
            },
    {
        match self {
            MaybeTlsStream::Plain(stream) => stream.poll_read(cx, buf),
            MaybeTlsStream::Tls(stream) => stream.poll_read(cx, buf),
        }
    }

    /// Polls the stream held to take bytes of `buf`.
    ///
    /// One poll is made, on the stream held and with `cx` and `buf` as they
    /// were given. What it returned is returned, and the stream and `cx` are
    /// as it left them.
    fn poll_write(
        &mut self,
        cx: &mut Context<'_>,
        buf: &[u8],
    ) -> (r: Poll<Result<usize, std::io::Error>>)
        ensures
            old(self).same_kind(*final(self)),
            match *old(self) {
                MaybeTlsStream::Plain(held) => exists|
                    stream: &mut S::Plain,
                    c: &mut Context<'_>,
                |
                    {
                        &&& *stream == held
                        &&& *final(self) == MaybeTlsStream::<S>::Plain(*final(stream))
                        &&& *c == *old(cx)
                        &&& *final(c) == *final(cx)
                        &&& #[trigger] call_ensures(
                            <S::Plain as FuturesExt>::poll_write,
                            (stream, c, buf),
                            r,
                        )
                    },
                MaybeTlsStream::Tls(held) => exists|
                    stream: &mut S::Tls,
                    c: &mut Context<'_>,
                |
                    {
                        &&& *stream == held
                        &&& *final(self) == MaybeTlsStream::<S>::Tls(*final(stream))
                        &&& *c == *old(cx)
                        &&& *final(c) == *final(cx)
                        &&& #[trigger] call_ensures(
                            <S::Tls as FuturesExt>::poll_write,
                            (stream, c, buf),
                            r,
                        )
                    },
            },
    {
        match self {
            MaybeTlsStream::Plain(stream) => stream.poll_write(cx, buf),
            MaybeTlsStream::Tls(stream) => stream.poll_write(cx, buf),
        }
    }

    /// Polls the stream held to send on what it holds back.
    ///
    /// One poll is made, on the stream held and with `cx` as it was given.
    /// What it returned is returned, and the stream and `cx` are as it left
    /// them.
    fn poll_flush(&mut self, cx: &mut Context<'_>) -> (r: Poll<Result<(), std::io::Error>>)
        ensures
            old(self).same_kind(*final(self)),
            match *old(self) {
                MaybeTlsStream::Plain(held) => exists|
                    stream: &mut S::Plain,
                    c: &mut Context<'_>,
                |
                    {
                        &&& *stream == held
                        &&& *final(self) == MaybeTlsStream::<S>::Plain(*final(stream))
                        &&& *c == *old(cx)
                        &&& *final(c) == *final(cx)
                        &&& #[trigger] call_ensures(
                            <S::Plain as FuturesExt>::poll_flush,
                            (stream, c),
                            r,
                        )
                    },
                MaybeTlsStream::Tls(held) => exists|
                    stream: &mut S::Tls,
                    c: &mut Context<'_>,
                |
                    {
                        &&& *stream == held
                        &&& *final(self) == MaybeTlsStream::<S>::Tls(*final(stream))
                        &&& *c == *old(cx)
                        &&& *final(c) == *final(cx)
                        &&& #[trigger] call_ensures(
                            <S::Tls as FuturesExt>::poll_flush,
                            (stream, c),
                            r,
                        )
                    },
            },
    {
        match self {
            MaybeTlsStream::Plain(stream) => stream.poll_flush(cx),
            MaybeTlsStream::Tls(stream) => stream.poll_flush(cx),
        }
    }

    /// Polls the stream held to close.
    ///
    /// One poll is made, on the stream held and with `cx` as it was given.
    /// What it returned is returned, and the stream and `cx` are as it left
    /// them.
    fn poll_close(&mut self, cx: &mut Context<'_>) -> (r: Poll<Result<(), std::io::Error>>)
        ensures
            old(self).same_kind(*final(self)),
            match *old(self) {
                MaybeTlsStream::Plain(held) => exists|
                    stream: &mut S::Plain,
                    c: &mut Context<'_>,
                |
                    {
                        &&& *stream == held
                        &&& *final(self) == MaybeTlsStream::<S>::Plain(*final(stream))
                        &&& *c == *old(cx)
                        &&& *final(c) == *final(cx)
                        &&& #[trigger] call_ensures(
                            <S::Plain as FuturesExt>::poll_close,
                            (stream, c),
                            r,
                        )
                    },
                MaybeTlsStream::Tls(held) => exists|
                    stream: &mut S::Tls,
                    c: &mut Context<'_>,
                |
                    {
                        &&& *stream == held
                        &&& *final(self) == MaybeTlsStream::<S>::Tls(*final(stream))
                        &&& *c == *old(cx)
                        &&& *final(c) == *final(cx)
                        &&& #[trigger] call_ensures(
                            <S::Tls as FuturesExt>::poll_close,
                            (stream, c),
                            r,
                        )
                    },
            },
    {
        match self {
            MaybeTlsStream::Plain(stream) => stream.poll_close(cx),
            MaybeTlsStream::Tls(stream) => stream.poll_close(cx),
        }
    }
}

impl<S: FuturesExt> MaybeTlsStream<Futures<S>> {
    /// Creates an encrypted stream from a stream of any type, which it puts
    /// into a box.
    pub fn futures_tls<T: FuturesExt + 'static>(stream: T) -> (r: Self)
        ensures
            r is Tls,
    {
        let boxed: Box<dyn FuturesExt> = Box::new(stream);
        MaybeTlsStream::Tls(boxed)
    }
}

/// A stream that is made to hold a plain transport behaves as the transport
/// does: what a poll of the stream for reading, writing, flushing or closing
/// gives, that poll gives on the transport itself, and the stream then holds
/// the transport as the poll left it.
pub proof fn lemma_plain_stream_behaves_as_its_transport<S: Stream>(
    transport: S::Plain,
    made: MaybeTlsStream<S>,
) where
    S::Plain: FuturesExt,
    S::Tls: FuturesExt,

    requires
        made == MaybeTlsStream::<S>::Plain(transport),
    ensures
        forall|
            stream: &mut MaybeTlsStream<S>,
            cx: &mut Context<'_>,
            buf: &mut [u8],
            r: Poll<Result<usize, std::io::Error>>,
        |
            *stream == made && #[trigger] call_ensures(
                <MaybeTlsStream<S> as FuturesExt>::poll_read,
                (stream, cx, buf),
                r,
            ) ==> exists|held: &mut S::Plain, c: &mut Context<'_>, b: &mut [u8]|
                {
                    &&& *held == transport
                    &&& *final(stream) == MaybeTlsStream::<S>::Plain(*final(held))
                    &&& *c == *cx
                    &&& *final(c) == *final(cx)
                    &&& b@ == buf@
                    &&& final(b)@ == final(buf)@
                    &&& #[trigger] call_ensures(
                        <S::Plain as FuturesExt>::poll_read,
                        (held, c, b),
                        r,
                    )
                },
        forall|
            stream: &mut MaybeTlsStream<S>,
            cx: &mut Context<'_>,
            buf: &[u8],
            r: Poll<Result<usize, std::io::Error>>,
        |
            *stream == made && #[trigger] call_ensures(
                <MaybeTlsStream<S> as FuturesExt>::poll_write,
                (stream, cx, buf),
                r,
            ) ==> exists|held: &mut S::Plain, c: &mut Context<'_>|
                {
                    &&& *held == transport
                    &&& *final(stream) == MaybeTlsStream::<S>::Plain(*final(held))
                    &&& *c == *cx
                    &&& *final(c) == *final(cx)
                    &&& #[trigger] call_ensures(
                        <S::Plain as FuturesExt>::poll_write,
                        (held, c, buf),
                        r,
                    )
                },
        forall|
            stream: &mut MaybeTlsStream<S>,
            cx: &mut Context<'_>,
            r: Poll<Result<(), std::io::Error>>,
        |
            *stream == made && #[trigger] call_ensures(
                <MaybeTlsStream<S> as FuturesExt>::poll_flush,
                (stream, cx),
                r,
            ) ==> exists|held: &mut S::Plain, c: &mut Context<'_>|
                {
                    &&& *held == transport
                    &&& *final(stream) == MaybeTlsStream::<S>::Plain(*final(held))
                    &&& *c == *cx
                    &&& *final(c) == *final(cx)
                    &&& #[trigger] call_ensures(<S::Plain as FuturesExt>::poll_flush, (held, c), r)
                },
        forall|
            stream: &mut MaybeTlsStream<S>,
            cx: &mut Context<'_>,
            r: Poll<Result<(), std::io::Error>>,
        |
            *stream == made && #[trigger] call_ensures(
                <MaybeTlsStream<S> as FuturesExt>::poll_close,
                (stream, cx),
                r,
            ) ==> exists|held: &mut S::Plain, c: &mut Context<'_>|
                {
                    &&& *held == transport
                    &&& *final(stream) == MaybeTlsStream::<S>::Plain(*final(held))
                    &&& *c == *cx
                    &&& *final(c) == *final(cx)
                    &&& #[trigger] call_ensures(<S::Plain as FuturesExt>::poll_close, (held, c), r)
                },
{
}

/// A stream that is made to hold an encrypted stream behaves as that stream
/// does: what a poll of the stream for reading, writing, flushing or closing
/// gives, that poll gives on the encrypted stream itself, and the stream then
/// holds the encrypted stream as the poll left it.
pub proof fn lemma_tls_stream_behaves_as_its_session<S: Stream>(
    session: S::Tls,
    made: MaybeTlsStream<S>,
) where
    S::Plain: FuturesExt,
    S::Tls: FuturesExt,

    requires
        made == MaybeTlsStream::<S>::Tls(session),
    ensures
        forall|
            stream: &mut MaybeTlsStream<S>,
            cx: &mut Context<'_>,
            buf: &mut [u8],
            r: Poll<Result<usize, std::io::Error>>,
        |
            *stream == made && #[trigger] call_ensures(
                <MaybeTlsStream<S> as FuturesExt>::poll_read,
                (stream, cx, buf),
                r,
            ) ==> exists|held: &mut S::Tls, c: &mut Context<'_>, b: &mut [u8]|
                {
                    &&& *held == session
                    &&& *final(stream) == MaybeTlsStream::<S>::Tls(*final(held))
                    &&& *c == *cx
                    &&& *final(c) == *final(cx)
                    &&& b@ == buf@
                    &&& final(b)@ == final(buf)@
                    &&& #[trigger] call_ensures(<S::Tls as FuturesExt>::poll_read, (held, c, b), r)
                },
        forall|
            stream: &mut MaybeTlsStream<S>,
            cx: &mut Context<'_>,
            buf: &[u8],
            r: Poll<Result<usize, std::io::Error>>,
        |
            *stream == made && #[trigger] call_ensures(
                <MaybeTlsStream<S> as FuturesExt>::poll_write,
                (stream, cx, buf),
                r,
            ) ==> exists|held: &mut S::Tls, c: &mut Context<'_>|
                {
                    &&& *held == session
                    &&& *final(stream) == MaybeTlsStream::<S>::Tls(*final(held))
                    &&& *c == *cx
                    &&& *final(c) == *final(cx)
                    &&& #[trigger] call_ensures(
                        <S::Tls as FuturesExt>::poll_write,
                        (held, c, buf),
                        r,
                    )
                },
        forall|
            stream: &mut MaybeTlsStream<S>,
            cx: &mut Context<'_>,
            r: Poll<Result<(), std::io::Error>>,
        |
            *stream == made && #[trigger] call_ensures(
                <MaybeTlsStream<S> as FuturesExt>::poll_flush,
                (stream, cx),
                r,
            ) ==> exists|held: &mut S::Tls, c: &mut Context<'_>|
                {
                    &&& *held == session
                    &&& *final(stream) == MaybeTlsStream::<S>::Tls(*final(held))
                    &&& *c == *cx
                    &&& *final(c) == *final(cx)
                    &&& #[trigger] call_ensures(<S::Tls as FuturesExt>::poll_flush, (held, c), r)
                },
        forall|
            stream: &mut MaybeTlsStream<S>,
            cx: &mut Context<'_>,
            r: Poll<Result<(), std::io::Error>>,
        |
            *stream == made && #[trigger] call_ensures(
                <MaybeTlsStream<S> as FuturesExt>::poll_close,
                (stream, cx),
                r,
            ) ==> exists|held: &mut S::Tls, c: &mut Context<'_>|
                {
                    &&& *held == session
                    &&& *final(stream) == MaybeTlsStream::<S>::Tls(*final(held))
                    &&& *c == *cx
                    &&& *final(c) == *final(cx)
                    &&& #[trigger] call_ensures(<S::Tls as FuturesExt>::poll_close, (held, c), r)
                },
{
}

} // verus!

//! Streams that may or may not be encrypted with TLS.
//!
//! Whether a connection is encrypted is often decided while the program
//! runs. The types of this crate hold either kind of stream in one value and
//! hand every read, write, flush and close on to the stream they hold. They
//! start no handshake, keep no buffer of their own, and return every result
//! and every error as the stream held gave it.
//!
//! - [`blocking`] holds a stream of `std::io`, plain or encrypted with
//!   `rustls` or `native_tls`.
//! - [`tokio`] holds a stream of `tokio`, plain or encrypted with
//!   `tokio_rustls` or `tokio_native_tls`.
//! - [`async_std`] holds a stream of `futures_io`, plain or encrypted with
//!   `futures_rustls` or `async_native_tls`.
//! - [`futures`] holds streams of any type behind a trait of its own, with
//!   the encrypted side chosen at run time.
//!
//! What a stream does with a call is not known here, and nothing is claimed
//! of it. What is proved is the handing on: each call makes one call of the
//! same kind on the stream held, with the arguments it was given, returns
//! what that call returned, and leaves the stream as that call left it; and
//! no call changes which kind of stream is held.

pub mod async_std;
pub mod blocking;
pub mod futures;
pub mod std_specs;
pub mod tokio;

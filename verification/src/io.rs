//! Polled byte streams.
//!
//! A stream is driven by polling: each method is handed the task's [`Context`]
//! and either finishes (`Poll::Ready`) or reports `Poll::Pending` after
//! arranging for the task to be woken. What a stream does on a call is its own
//! business; each trait lets an implementation say so with a *step relation*,
//! a predicate over the state before the call, what was handed in, the state
//! after it and what came back. Every method promises a step that its
//! relation allows. An implementation that says nothing keeps the default,
//! which allows every step, so nothing is taken on trust from a stream that
//! was written without a contract.

use std::io;
use std::task::{Context, Poll};
use vstd::prelude::*;

verus! {

/// `std::io::Error`, carried through as reported. Nothing is known of its
/// contents.
#[verifier::external_type_specification]
#[verifier::external_body]
pub struct ExIoError(std::io::Error);

/// `std::task::Context`, handed on to every poll. Nothing is known of its
/// contents.
#[verifier::external_type_specification]
#[verifier::external_body]
pub struct ExContext<'a>(std::task::Context<'a>);

/// `std::task::Poll`, carried through as reported. Nothing is known of its
/// contents.
#[verifier::external_type_specification]
#[verifier::external_body]
#[verifier::reject_recursive_types(T)]
pub struct ExPoll<T>(std::task::Poll<T>);

/// Read bytes.
pub trait Read: Sized {
    /// Whether one `poll_read` may take the stream from `pre` to `post` when
    /// it is handed the context `cx` and a buffer holding `buf`, leaves them
    /// as `cx_post` and `buf_post`, and returns `res`.
    open spec fn read_step(
        pre: Self,
        cx: Context<'_>,
        buf: Seq<u8>,
        post: Self,
        cx_post: Context<'_>,
        buf_post: Seq<u8>,
        res: Poll<io::Result<usize>>,
    ) -> bool {
        true
    }

    /// Attempt to read into `buf`.
    ///
    /// On success, returns `Poll::Ready(Ok(num_bytes_read))`; zero bytes mean
    /// the end of the stream. If no data is available, returns `Poll::Pending`
    /// and arranges for the task of `cx` to be woken.
    fn poll_read(&mut self, cx: &mut Context<'_>, buf: &mut [u8]) -> (res: Poll<io::Result<usize>>)
        ensures
            Self::read_step(
                *old(self),
                *old(cx),
                old(buf)@,
                *final(self),
                *final(cx),
                final(buf)@,
                res,
            ),
    ;
}

/// Write bytes.
pub trait Write: Sized {
    /// Whether one `poll_write` may take the stream from `pre` to `post` when
    /// it is handed the context `cx` and the bytes `buf`, leaves the context
    /// as `cx_post`, and returns `res`.
    open spec fn write_step(
        pre: Self,
        cx: Context<'_>,
        buf: Seq<u8>,
        post: Self,
        cx_post: Context<'_>,
        res: Poll<io::Result<usize>>,
    ) -> bool {
        true
    }

    /// Whether one `poll_flush` may take the stream from `pre` to `post` when
    /// it is handed the context `cx`, leaves it as `cx_post`, and returns
    /// `res`.
    open spec fn flush_step(
        pre: Self,
        cx: Context<'_>,
        post: Self,
        cx_post: Context<'_>,
        res: Poll<io::Result<()>>,
    ) -> bool {
        true
    }

    /// Whether one `poll_close` may take the stream from `pre` to `post` when
    /// it is handed the context `cx`, leaves it as `cx_post`, and returns
    /// `res`.
    open spec fn close_step(
        pre: Self,
        cx: Context<'_>,
        post: Self,
        cx_post: Context<'_>,
        res: Poll<io::Result<()>>,
    ) -> bool {
        true
    }

    /// Attempt to write bytes from `buf`.
    ///
    /// On success, returns `Poll::Ready(Ok(num_bytes_written))`. If the stream
    /// is not ready for writing, returns `Poll::Pending` and arranges for the
    /// task of `cx` to be woken.
    fn poll_write(&mut self, cx: &mut Context<'_>, buf: &[u8]) -> (res: Poll<io::Result<usize>>)
        ensures
            Self::write_step(*old(self), *old(cx), buf@, *final(self), *final(cx), res),
    ;

    /// Attempt to flush, so that all bytes written so far reach their
    /// destination.
    fn poll_flush(&mut self, cx: &mut Context<'_>) -> (res: Poll<io::Result<()>>)
        ensures
            Self::flush_step(*old(self), *old(cx), *final(self), *final(cx), res),
    ;

    /// Attempt to close: no more bytes will be written.
    fn poll_close(&mut self, cx: &mut Context<'_>) -> (res: Poll<io::Result<()>>)
        ensures
            Self::close_step(*old(self), *old(cx), *final(self), *final(cx), res),
    ;
}

/// Read bytes through a buffer that can be looked at before it is consumed.
pub trait BufRead: Read {
    /// Whether one `poll_fill_buf` may take the stream from `pre` to `post`
    /// when it is handed the context `cx`, leaves it as `cx_post`, and returns
    /// `res`.
    open spec fn fill_buf_step(
        pre: Self,
        cx: Context<'_>,
        post: Self,
        cx_post: Context<'_>,
        res: Poll<io::Result<&[u8]>>,
    ) -> bool {
        true
    }

    /// Whether `consume(amt)` may be called on this stream as it is now.
    open spec fn consume_allowed(&self, amt: usize) -> bool {
        true
    }

    /// Whether `consume(amt)` may take the stream from `pre` to `post`.
    open spec fn consume_step(pre: Self, amt: usize, post: Self) -> bool {
        true
    }

    /// Attempt to return the contents of the internal buffer, filling it with
    /// more data if it is empty. Nothing is consumed: a later read may return
    /// the same bytes. An empty buffer means the end of the stream.
    fn poll_fill_buf(&mut self, cx: &mut Context<'_>) -> (res: Poll<io::Result<&[u8]>>)
        ensures
            Self::fill_buf_step(*old(self), *old(cx), *final(self), *final(cx), res),
    ;

    /// Tells the stream that `amt` bytes of the buffer returned by
    /// `poll_fill_buf` have been consumed and should not be returned again.
    fn consume(&mut self, amt: usize)
        requires
            old(self).consume_allowed(amt),
        ensures
            Self::consume_step(*old(self), amt, *final(self)),
    ;
}

} // verus!

//! The duplex: its two halves, how it is made and taken apart, and how it
//! hands each call to the half that the call is for.

use crate::io::{BufRead, Read, Write};
use std::io;
use std::task::{Context, Poll};
use vstd::pervasive::strictly_cloned;
use vstd::prelude::*;

verus! {

/// A reader and a writer, side by side, as one stream.
///
/// The duplex owns both halves from [`Duplex::new`] until it is dropped or
/// taken apart by [`Duplex::into_inner`]. It is a [`Read`] where its reader is
/// one, a [`BufRead`] where its reader is one, a [`Write`] where its writer is
/// one, and can be cloned where both halves can.
#[derive(Debug)]
pub struct Duplex<R, W> {
    reader: R,
    writer: W,
}

impl<R, W> View for Duplex<R, W> {
    type V = (R, W);

    /// The two halves: the reader first, the writer second. A duplex is nothing
    /// but this pair.
    closed spec fn view(&self) -> (R, W) {
        (self.reader, self.writer)
    }
}

impl<R, W> Duplex<R, W> {
    /// Puts a reader and a writer together. Both are moved in as they are.
    pub fn new(reader: R, writer: W) -> (duplex: Self)
        ensures
            duplex@ == (reader, writer),
    {
        Self { reader, writer }
    }

    /// Takes the duplex apart: the reader and the writer are moved out as they
    /// are.
    pub fn into_inner(self) -> (halves: (R, W))
        ensures
            halves == self@,
    {
        (self.reader, self.writer)
    }

    /// A duplex is its two halves and nothing more: two that hold the same
    /// halves are the same duplex.
    pub proof fn lemma_halves_determine(self, other: Self)
        requires
            self@ == other@,
        ensures
            self == other,
    {
    }

    /// Any reader and any writer are the halves of some duplex.
    pub proof fn lemma_halves_make_a_duplex(reader: R, writer: W) -> (duplex: Self)
        ensures
            duplex@ == (reader, writer),
    {
        Duplex { reader, writer }
    }
}

impl<R: Read, W> Read for Duplex<R, W> {
    /// A read of the duplex is that read of its reader; the writer stays as it
    /// is.
    open spec fn read_step(
        pre: Self,
        cx: Context<'_>,
        buf: Seq<u8>,
        post: Self,
        cx_post: Context<'_>,
        buf_post: Seq<u8>,
        res: Poll<io::Result<usize>>,
    ) -> bool {
        &&& R::read_step(pre@.0, cx, buf, post@.0, cx_post, buf_post, res)
        &&& post@.1 == pre@.1
    }

    /// Hands `cx` and `buf` to the reader's `poll_read` and returns what it
    /// returns.
    fn poll_read(&mut self, cx: &mut Context<'_>, buf: &mut [u8]) -> (res: Poll<io::Result<usize>>)
        ensures
            R::read_step(
                old(self)@.0,
                *old(cx),
                old(buf)@,
                final(self)@.0,
                *final(cx),
                final(buf)@,
                res,
            ),
            final(self)@.1 == old(self)@.1,
    {
        self.reader.poll_read(cx, buf)
    }
}

impl<R, W: Write> Write for Duplex<R, W> {
    /// A write to the duplex is that write to its writer; the reader stays as
    /// it is.
    open spec fn write_step(
        pre: Self,
        cx: Context<'_>,
        buf: Seq<u8>,
        post: Self,
        cx_post: Context<'_>,
        res: Poll<io::Result<usize>>,
    ) -> bool {
        &&& W::write_step(pre@.1, cx, buf, post@.1, cx_post, res)
        &&& post@.0 == pre@.0
    }

    /// A flush of the duplex is that flush of its writer; the reader stays as
    /// it is.
    open spec fn flush_step(
        pre: Self,
        cx: Context<'_>,
        post: Self,
        cx_post: Context<'_>,
        res: Poll<io::Result<()>>,
    ) -> bool {
        &&& W::flush_step(pre@.1, cx, post@.1, cx_post, res)
        &&& post@.0 == pre@.0
    }

    /// A close of the duplex is that close of its writer; the reader stays as
    /// it is.
    open spec fn close_step(
        pre: Self,
        cx: Context<'_>,
        post: Self,
        cx_post: Context<'_>,
        res: Poll<io::Result<()>>,
    ) -> bool {
        &&& W::close_step(pre@.1, cx, post@.1, cx_post, res)
        &&& post@.0 == pre@.0
    }

    /// Hands `cx` and `buf` to the writer's `poll_write` and returns what it
    /// returns.
    fn poll_write(&mut self, cx: &mut Context<'_>, buf: &[u8]) -> (res: Poll<io::Result<usize>>)
        ensures
            W::write_step(old(self)@.1, *old(cx), buf@, final(self)@.1, *final(cx), res),
            final(self)@.0 == old(self)@.0,
    {
        self.writer.poll_write(cx, buf)
    }

    /// Hands `cx` to the writer's `poll_flush` and returns what it returns.
    fn poll_flush(&mut self, cx: &mut Context<'_>) -> (res: Poll<io::Result<()>>)
        ensures
            W::flush_step(old(self)@.1, *old(cx), final(self)@.1, *final(cx), res),
            final(self)@.0 == old(self)@.0,
    {
        self.writer.poll_flush(cx)
    }

    /// Hands `cx` to the writer's `poll_close` and returns what it returns.
    fn poll_close(&mut self, cx: &mut Context<'_>) -> (res: Poll<io::Result<()>>)
        ensures
            W::close_step(old(self)@.1, *old(cx), final(self)@.1, *final(cx), res),
            final(self)@.0 == old(self)@.0,
    {
        self.writer.poll_close(cx)
    }
}

impl<R: BufRead, W> BufRead for Duplex<R, W> {
    /// Filling the buffer of the duplex is filling that of its reader; the
    /// writer stays as it is.
    open spec fn fill_buf_step(
        pre: Self,
        cx: Context<'_>,
        post: Self,
        cx_post: Context<'_>,
        res: Poll<io::Result<&[u8]>>,
    ) -> bool {
        &&& R::fill_buf_step(pre@.0, cx, post@.0, cx_post, res)
        &&& post@.1 == pre@.1
    }

    /// The duplex may consume what its reader may.
    open spec fn consume_allowed(&self, amt: usize) -> bool {
        self@.0.consume_allowed(amt)
    }

    /// Consuming from the duplex is consuming from its reader; the writer
    /// stays as it is.
    open spec fn consume_step(pre: Self, amt: usize, post: Self) -> bool {
        &&& R::consume_step(pre@.0, amt, post@.0)
        &&& post@.1 == pre@.1
    }

    /// Hands `cx` to the reader's `poll_fill_buf` and returns what it returns:
    /// the reader's own buffer.
    fn poll_fill_buf(&mut self, cx: &mut Context<'_>) -> (res: Poll<io::Result<&[u8]>>)
        ensures
            R::fill_buf_step(old(self)@.0, *old(cx), final(self)@.0, *final(cx), res),
            final(self)@.1 == old(self)@.1,
    {
        self.reader.poll_fill_buf(cx)
    }

    /// Hands `amt` to the reader's `consume`. The duplex checks no bound of
    /// its own: `amt` is allowed here where the reader allows it.
    fn consume(&mut self, amt: usize)
        ensures
            R::consume_step(old(self)@.0, amt, final(self)@.0),
            final(self)@.1 == old(self)@.1,
    {
        self.reader.consume(amt)
    }
}

impl<R: Clone, W: Clone> Clone for Duplex<R, W> {
    /// Each half of the duplicate is a clone of that half, made by the half's
    /// own `clone`.
    fn clone(&self) -> (duplicate: Self)
        ensures
            strictly_cloned(self@.0, duplicate@.0),
            strictly_cloned(self@.1, duplicate@.1),
    {
        Self { reader: self.reader.clone(), writer: self.writer.clone() }
    }
}

} // verus!

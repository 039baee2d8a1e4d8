//! What holds of the duplex across calls.
//!
//! Each method of [`Duplex`] says in its own contract which half it hands the
//! call to, that it hands on what it was given, that it returns what it got
//! back, and that the other half is left alone. The lemmas here put those
//! contracts together: over two calls, over three, and over any run of calls.

use crate::duplex::Duplex;
use crate::io::{BufRead, Read, Write};
use std::io;
use std::task::{Context, Poll};
use vstd::pervasive::strictly_cloned;
use vstd::prelude::*;

verus! {

/// Taking a duplex apart right after putting it together gives back the
/// reader and the writer that went in.
pub proof fn lemma_into_inner_undoes_new<R, W>(
    reader: R,
    writer: W,
    duplex: Duplex<R, W>,
    halves: (R, W),
)
    requires
        call_ensures(Duplex::<R, W>::new, (reader, writer), duplex),
        call_ensures(Duplex::<R, W>::into_inner, (duplex,), halves),
    ensures
        halves == (reader, writer),
{
}

/// Putting the halves of a duplex together again gives back that duplex.
pub proof fn lemma_new_undoes_into_inner<R, W>(
    duplex: Duplex<R, W>,
    halves: (R, W),
    again: Duplex<R, W>,
)
    requires
        call_ensures(Duplex::<R, W>::into_inner, (duplex,), halves),
        call_ensures(Duplex::<R, W>::new, (halves.0, halves.1), again),
    ensures
        again == duplex,
{
    again.lemma_halves_determine(duplex);
}

/// Looking at the buffer, consuming from it and then reading, all through the
/// duplex, is no more and no less than looking at the reader's buffer,
/// consuming from the reader and then reading from the reader, with the same
/// contexts, the same buffer and the same results, while the writer stays as
/// it was at the start. What the duplex may consume is what its reader may.
pub proof fn lemma_fill_buf_consume_read<R: BufRead, W>(
    start: Duplex<R, W>,
    fill_cx: Context<'_>,
    filled: Duplex<R, W>,
    fill_cx_post: Context<'_>,
    peeked: Poll<io::Result<&[u8]>>,
    amt: usize,
    consumed: Duplex<R, W>,
    read_cx: Context<'_>,
    buf: Seq<u8>,
    end: Duplex<R, W>,
    read_cx_post: Context<'_>,
    buf_post: Seq<u8>,
    res: Poll<io::Result<usize>>,
)
    ensures
        filled.consume_allowed(amt) <==> filled@.0.consume_allowed(amt),
        ({
            &&& Duplex::<R, W>::fill_buf_step(start, fill_cx, filled, fill_cx_post, peeked)
            &&& Duplex::<R, W>::consume_step(filled, amt, consumed)
            &&& Duplex::<R, W>::read_step(consumed, read_cx, buf, end, read_cx_post, buf_post, res)
        }) <==> ({
            &&& R::fill_buf_step(start@.0, fill_cx, filled@.0, fill_cx_post, peeked)
            &&& R::consume_step(filled@.0, amt, consumed@.0)
            &&& R::read_step(consumed@.0, read_cx, buf, end@.0, read_cx_post, buf_post, res)
            &&& filled@.1 == start@.1
            &&& consumed@.1 == start@.1
            &&& end@.1 == start@.1
        }),
{
}

/// A read and a write through the duplex have no order between them: where a
/// read and then a write take the duplex from `start` to `end`, the write and
/// then the read, with the same contexts, buffers and results, do so too.
pub proof fn lemma_read_and_write_commute<R: Read, W: Write>(
    start: Duplex<R, W>,
    read_cx: Context<'_>,
    read_buf: Seq<u8>,
    after_read: Duplex<R, W>,
    read_cx_post: Context<'_>,
    read_buf_post: Seq<u8>,
    read_res: Poll<io::Result<usize>>,
    write_cx: Context<'_>,
    write_buf: Seq<u8>,
    end: Duplex<R, W>,
    write_cx_post: Context<'_>,
    write_res: Poll<io::Result<usize>>,
) -> (after_write: Duplex<R, W>)
    requires
        Duplex::<R, W>::read_step(
            start,
            read_cx,
            read_buf,
            after_read,
            read_cx_post,
            read_buf_post,
            read_res,
        ),
        Duplex::<R, W>::write_step(after_read, write_cx, write_buf, end, write_cx_post, write_res),
    ensures
        Duplex::<R, W>::write_step(start, write_cx, write_buf, after_write, write_cx_post, write_res),
        Duplex::<R, W>::read_step(
            after_write,
            read_cx,
            read_buf,
            end,
            read_cx_post,
            read_buf_post,
            read_res,
        ),
{
    Duplex::lemma_halves_make_a_duplex(start@.0, end@.1)
}

/// One call on a stream as its caller sees it: what was handed in, what it
/// was left as, and what came back.
#[allow(inconsistent_fields)]
pub enum Call<'a> {
    /// A `poll_read`.
    Read {
        cx: Context<'a>,
        buf: Seq<u8>,
        cx_post: Context<'a>,
        buf_post: Seq<u8>,
        res: Poll<io::Result<usize>>,
    },
    /// A `poll_fill_buf`.
    FillBuf { cx: Context<'a>, cx_post: Context<'a>, res: Poll<io::Result<&'a [u8]>> },
    /// A `consume`.
    Consume { amt: usize },
    /// A `poll_write`.
    Write { cx: Context<'a>, buf: Seq<u8>, cx_post: Context<'a>, res: Poll<io::Result<usize>> },
    /// A `poll_flush`.
    Flush { cx: Context<'a>, cx_post: Context<'a>, res: Poll<io::Result<()>> },
    /// A `poll_close`.
    Close { cx: Context<'a>, cx_post: Context<'a>, res: Poll<io::Result<()>> },
}

/// Whether `call`, made on a buffered reader alone, may take it from `pre` to
/// `post`: as the reader's own step relation says where the call is one to a
/// reader, and only by leaving it as it is where the call is one to a writer.
pub open spec fn reader_step<R: BufRead>(pre: R, call: Call<'_>, post: R) -> bool {
    match call {
        Call::Read { cx, buf, cx_post, buf_post, res } => R::read_step(
            pre,
            cx,
            buf,
            post,
            cx_post,
            buf_post,
            res,
        ),
        Call::FillBuf { cx, cx_post, res } => R::fill_buf_step(pre, cx, post, cx_post, res),
        Call::Consume { amt } => R::consume_step(pre, amt, post),
        Call::Write { .. } | Call::Flush { .. } | Call::Close { .. } => post == pre,
    }
}

/// Whether `call`, made on a writer alone, may take it from `pre` to `post`:
/// as the writer's own step relation says where the call is one to a writer,
/// and only by leaving it as it is where the call is one to a reader.
pub open spec fn writer_step<W: Write>(pre: W, call: Call<'_>, post: W) -> bool {
    match call {
        Call::Write { cx, buf, cx_post, res } => W::write_step(pre, cx, buf, post, cx_post, res),
        Call::Flush { cx, cx_post, res } => W::flush_step(pre, cx, post, cx_post, res),
        Call::Close { cx, cx_post, res } => W::close_step(pre, cx, post, cx_post, res),
        Call::Read { .. } | Call::FillBuf { .. } | Call::Consume { .. } => post == pre,
    }
}

/// Whether `call` may take a duplex from `pre` to `post`, as the step
/// relation of the duplex for that call says.
pub open spec fn duplex_step<R: BufRead, W: Write>(
    pre: Duplex<R, W>,
    call: Call<'_>,
    post: Duplex<R, W>,
) -> bool {
    match call {
        Call::Read { cx, buf, cx_post, buf_post, res } => Duplex::<R, W>::read_step(
            pre,
            cx,
            buf,
            post,
            cx_post,
            buf_post,
            res,
        ),
        Call::FillBuf { cx, cx_post, res } => Duplex::<R, W>::fill_buf_step(
            pre,
            cx,
            post,
            cx_post,
            res,
        ),
        Call::Consume { amt } => Duplex::<R, W>::consume_step(pre, amt, post),
        Call::Write { cx, buf, cx_post, res } => Duplex::<R, W>::write_step(
            pre,
            cx,
            buf,
            post,
            cx_post,
            res,
        ),
        Call::Flush { cx, cx_post, res } => Duplex::<R, W>::flush_step(pre, cx, post, cx_post, res),
        Call::Close { cx, cx_post, res } => Duplex::<R, W>::close_step(pre, cx, post, cx_post, res),
    }
}

/// Whether a duplex may go through `states`, one after the other, as `calls`
/// are made on it in order.
pub open spec fn duplex_run<R: BufRead, W: Write>(
    states: Seq<Duplex<R, W>>,
    calls: Seq<Call<'_>>,
) -> bool {
    &&& states.len() == calls.len() + 1
    &&& forall|i: int|
        0 <= i < calls.len() ==> #[trigger] duplex_step(states[i], calls[i], states[i + 1])
}

/// Whether a buffered reader alone may go through `states`, one after the
/// other, as `calls` are made in order.
pub open spec fn reader_run<R: BufRead>(states: Seq<R>, calls: Seq<Call<'_>>) -> bool {
    &&& states.len() == calls.len() + 1
    &&& forall|i: int|
        0 <= i < calls.len() ==> #[trigger] reader_step(states[i], calls[i], states[i + 1])
}

/// Whether a writer alone may go through `states`, one after the other, as
/// `calls` are made in order.
pub open spec fn writer_run<W: Write>(states: Seq<W>, calls: Seq<Call<'_>>) -> bool {
    &&& states.len() == calls.len() + 1
    &&& forall|i: int|
        0 <= i < calls.len() ==> #[trigger] writer_step(states[i], calls[i], states[i + 1])
}

/// The readers of `states`, in order.
pub open spec fn readers<R, W>(states: Seq<Duplex<R, W>>) -> Seq<R> {
    Seq::new(states.len(), |i: int| states[i]@.0)
}

/// The writers of `states`, in order.
pub open spec fn writers<R, W>(states: Seq<Duplex<R, W>>) -> Seq<W> {
    Seq::new(states.len(), |i: int| states[i]@.1)
}

/// A call on the duplex is that call on the half it is for, and passes the
/// other half by.
pub proof fn lemma_step_is_a_step_of_each_half<R: BufRead, W: Write>(
    pre: Duplex<R, W>,
    call: Call<'_>,
    post: Duplex<R, W>,
)
    ensures
        duplex_step(pre, call, post) <==> reader_step(pre@.0, call, post@.0) && writer_step(
            pre@.1,
            call,
            post@.1,
        ),
{
}

/// Whatever calls are made on a duplex, in whatever order, its reader goes
/// through what those calls take it through when made on the reader alone,
/// and its writer through what they take it through when made on the writer
/// alone: the same contexts, the same bytes and the same results in the same
/// order, and neither half sees a call to the other. And whatever the two
/// halves may go through alone, the duplex may go through.
pub proof fn lemma_run_is_a_run_of_each_half<R: BufRead, W: Write>(
    states: Seq<Duplex<R, W>>,
    calls: Seq<Call<'_>>,
)
    ensures
        duplex_run(states, calls) <==> reader_run(readers(states), calls) && writer_run(
            writers(states),
            calls,
        ),
{
    let rs = readers(states);
    let ws = writers(states);
    if duplex_run(states, calls) {
        assert forall|i: int| 0 <= i < calls.len() implies #[trigger] reader_step(
            rs[i],
            calls[i],
            rs[i + 1],
        ) by {
            assert(duplex_step(states[i], calls[i], states[i + 1]));
            lemma_step_is_a_step_of_each_half(states[i], calls[i], states[i + 1]);
        }
        assert forall|i: int| 0 <= i < calls.len() implies #[trigger] writer_step(
            ws[i],
            calls[i],
            ws[i + 1],
        ) by {
            assert(duplex_step(states[i], calls[i], states[i + 1]));
            lemma_step_is_a_step_of_each_half(states[i], calls[i], states[i + 1]);
        }
    }
    if reader_run(rs, calls) && writer_run(ws, calls) {
        assert forall|i: int| 0 <= i < calls.len() implies #[trigger] duplex_step(
            states[i],
            calls[i],
            states[i + 1],
        ) by {
            assert(reader_step(rs[i], calls[i], rs[i + 1]));
            assert(writer_step(ws[i], calls[i], ws[i + 1]));
            lemma_step_is_a_step_of_each_half(states[i], calls[i], states[i + 1]);
        }
    }
}

/// After a duplex is duplicated, a write through the first and a read through
/// the second have nothing to do with each other but what the halves' own
/// `clone` makes of them: the read is a read of a clone of the first one's
/// reader and leaves the second one's writer, a clone of the first one's, as
/// it is; the write is a write to the first one's writer and leaves its reader
/// as it is.
pub proof fn lemma_duplicate_goes_its_own_way<R: Read + Clone, W: Write + Clone>(
    duplex: Duplex<R, W>,
    duplicate: Duplex<R, W>,
    write_cx: Context<'_>,
    write_buf: Seq<u8>,
    duplex_post: Duplex<R, W>,
    write_cx_post: Context<'_>,
    write_res: Poll<io::Result<usize>>,
    read_cx: Context<'_>,
    read_buf: Seq<u8>,
    duplicate_post: Duplex<R, W>,
    read_cx_post: Context<'_>,
    read_buf_post: Seq<u8>,
    read_res: Poll<io::Result<usize>>,
)
    requires
        strictly_cloned(duplex, duplicate),
        Duplex::<R, W>::write_step(
            duplex,
            write_cx,
            write_buf,
            duplex_post,
            write_cx_post,
            write_res,
        ),
        Duplex::<R, W>::read_step(
            duplicate,
            read_cx,
            read_buf,
            duplicate_post,
            read_cx_post,
            read_buf_post,
            read_res,
        ),
    ensures
        strictly_cloned(duplex@.0, duplicate@.0),
        strictly_cloned(duplex@.1, duplicate@.1),
        R::read_step(
            duplicate@.0,
            read_cx,
            read_buf,
            duplicate_post@.0,
            read_cx_post,
            read_buf_post,
            read_res,
        ),
        duplicate_post@.1 == duplicate@.1,
        W::write_step(duplex@.1, write_cx, write_buf, duplex_post@.1, write_cx_post, write_res),
        duplex_post@.0 == duplex@.0,
{
}

/// Where a clone of a reader is that reader and a clone of a writer is that
/// writer, a duplicate of a duplex is that duplex.
pub proof fn lemma_exact_halves_exact_duplicate<R: Clone, W: Clone>(
    duplex: Duplex<R, W>,
    duplicate: Duplex<R, W>,
)
    requires
        strictly_cloned(duplex, duplicate),
        forall|a: R, b: R| strictly_cloned(a, b) ==> a == b,
        forall|a: W, b: W| strictly_cloned(a, b) ==> a == b,
    ensures
        duplicate == duplex,
{
    duplicate.lemma_halves_determine(duplex);
}

} // verus!

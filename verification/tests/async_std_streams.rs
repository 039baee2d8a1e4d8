//! The duplex over `async_std` streams, polled by hand and awaited.

use async_std::io::{BufReadExt, Cursor, ReadExt, WriteExt};
use async_std::task::block_on;
use duplexify::Duplex;
use std::io;
use std::pin::Pin;
use std::task::{Context, Poll, Waker};

/// An `async_std` stream, polled as a stream of the library.
#[derive(Clone, Debug)]
struct Polled<T>(T);

impl<T: async_std::io::Read + Unpin> duplexify::Read for Polled<T> {
    fn poll_read(&mut self, cx: &mut Context<'_>, buf: &mut [u8]) -> Poll<io::Result<usize>> {
        Pin::new(&mut self.0).poll_read(cx, buf)
    }
}

impl<T: async_std::io::BufRead + Unpin> duplexify::BufRead for Polled<T> {
    fn poll_fill_buf(&mut self, cx: &mut Context<'_>) -> Poll<io::Result<&[u8]>> {
        Pin::new(&mut self.0).poll_fill_buf(cx)
    }

    fn consume(&mut self, amt: usize) {
        Pin::new(&mut self.0).consume(amt)
    }
}

impl<T: async_std::io::Write + Unpin> duplexify::Write for Polled<T> {
    fn poll_write(&mut self, cx: &mut Context<'_>, buf: &[u8]) -> Poll<io::Result<usize>> {
        Pin::new(&mut self.0).poll_write(cx, buf)
    }

    fn poll_flush(&mut self, cx: &mut Context<'_>) -> Poll<io::Result<()>> {
        Pin::new(&mut self.0).poll_flush(cx)
    }

    fn poll_close(&mut self, cx: &mut Context<'_>) -> Poll<io::Result<()>> {
        Pin::new(&mut self.0).poll_close(cx)
    }
}

/// A stream of the library, awaited as an `async_std` stream.
struct Awaited<T>(T);

impl<T: duplexify::Read + Unpin> async_std::io::Read for Awaited<T> {
    fn poll_read(
        self: Pin<&mut Self>,
        cx: &mut Context<'_>,
        buf: &mut [u8],
    ) -> Poll<io::Result<usize>> {
        duplexify::Read::poll_read(&mut self.get_mut().0, cx, buf)
    }
}

impl<T: duplexify::BufRead + Unpin> async_std::io::BufRead for Awaited<T> {
    fn poll_fill_buf(self: Pin<&mut Self>, cx: &mut Context<'_>) -> Poll<io::Result<&[u8]>> {
        duplexify::BufRead::poll_fill_buf(&mut self.get_mut().0, cx)
    }

    fn consume(self: Pin<&mut Self>, amt: usize) {
        duplexify::BufRead::consume(&mut self.get_mut().0, amt)
    }
}

impl<T: duplexify::Write + Unpin> async_std::io::Write for Awaited<T> {
    fn poll_write(
        self: Pin<&mut Self>,
        cx: &mut Context<'_>,
        buf: &[u8],
    ) -> Poll<io::Result<usize>> {
        duplexify::Write::poll_write(&mut self.get_mut().0, cx, buf)
    }

    fn poll_flush(self: Pin<&mut Self>, cx: &mut Context<'_>) -> Poll<io::Result<()>> {
        duplexify::Write::poll_flush(&mut self.get_mut().0, cx)
    }

    fn poll_close(self: Pin<&mut Self>, cx: &mut Context<'_>) -> Poll<io::Result<()>> {
        duplexify::Write::poll_close(&mut self.get_mut().0, cx)
    }
}

/// A sink that takes the first write and fails every later one.
struct FailsAfterFirst {
    taken: Vec<u8>,
    writes: usize,
}

impl async_std::io::Write for FailsAfterFirst {
    fn poll_write(
        mut self: Pin<&mut Self>,
        _cx: &mut Context<'_>,
        buf: &[u8],
    ) -> Poll<io::Result<usize>> {
        self.writes += 1;
        if self.writes == 1 {
            self.taken.extend_from_slice(buf);
            Poll::Ready(Ok(buf.len()))
        } else {
            Poll::Ready(Err(io::Error::new(io::ErrorKind::StorageFull, "sink is full")))
        }
    }

    fn poll_flush(self: Pin<&mut Self>, _cx: &mut Context<'_>) -> Poll<io::Result<()>> {
        Poll::Ready(Ok(()))
    }

    fn poll_close(self: Pin<&mut Self>, _cx: &mut Context<'_>) -> Poll<io::Result<()>> {
        Poll::Ready(Ok(()))
    }
}

fn over(input: &[u8]) -> Duplex<Polled<Cursor<Vec<u8>>>, Polled<Vec<u8>>> {
    Duplex::new(Polled(Cursor::new(input.to_vec())), Polled(Vec::new()))
}

#[test]
fn line_read_from_the_duplex_is_written_back_through_it() {
    let mut stdio = Awaited(over(b"hello\n"));

    let line = block_on(async {
        let mut line = String::new();
        let n = stdio.read_line(&mut line).await.unwrap();
        assert_eq!(n, 6);
        let mut rest = [0u8; 8];
        assert_eq!(stdio.read(&mut rest).await.unwrap(), 0);
        stdio.write_all(line.as_bytes()).await.unwrap();
        stdio.flush().await.unwrap();
        line
    });

    assert_eq!(line, "hello\n");
    let (reader, writer) = stdio.0.into_inner();
    assert_eq!(reader.0.position(), 6);
    assert_eq!(reader.0.into_inner(), b"hello\n");
    assert_eq!(writer.0, b"hello\n");
}

#[test]
fn lines_come_one_at_a_time_and_stop_at_the_end() {
    let mut stdio = Awaited(over(b"one\ntwo\nlast"));

    let lines = block_on(async {
        let mut lines = Vec::new();
        loop {
            let mut line = String::new();
            if stdio.read_line(&mut line).await.unwrap() == 0 {
                return lines;
            }
            lines.push(line);
        }
    });

    assert_eq!(lines, vec!["one\n", "two\n", "last"]);
}

#[test]
fn empty_source_reads_as_end_of_stream() {
    let mut duplex = over(b"");
    let mut cx = Context::from_waker(Waker::noop());
    let mut buf = [0u8; 16];

    let res = duplexify::Read::poll_read(&mut duplex, &mut cx, &mut buf);

    assert!(matches!(res, Poll::Ready(Ok(0))));
    let mut stdio = Awaited(duplex);
    let mut all = Vec::new();
    assert_eq!(block_on(stdio.read_to_end(&mut all)).unwrap(), 0);
    assert_eq!(all, b"");
}

#[test]
fn second_write_failure_comes_through_unchanged() {
    let sink = FailsAfterFirst { taken: Vec::new(), writes: 0 };
    let mut stdio = Awaited(Duplex::new(Polled(Cursor::new(b"abc".to_vec())), Polled(sink)));

    let (first, second) = block_on(async {
        let first = stdio.write(b"hello").await;
        let second = stdio.write(b"again").await;
        (first, second)
    });

    assert_eq!(first.unwrap(), 5);
    let err = second.unwrap_err();
    assert_eq!(err.kind(), io::ErrorKind::StorageFull);
    assert_eq!(err.to_string(), "sink is full");
    let (reader, writer) = stdio.0.into_inner();
    assert_eq!(writer.0.taken, b"hello");
    assert_eq!(writer.0.writes, 2);
    assert_eq!(reader.0.position(), 0);
}

#[test]
fn polled_reads_match_the_cursor_read_directly() {
    let input = b"the quick brown fox";
    let mut cx = Context::from_waker(Waker::noop());
    for piece in 1..=input.len() + 1 {
        let mut direct = Cursor::new(input.to_vec());
        let mut duplex = over(input);
        loop {
            let mut through = vec![0u8; piece];
            let mut straight = vec![0u8; piece];
            let got = duplexify::Read::poll_read(&mut duplex, &mut cx, &mut through);
            let want = async_std::io::Read::poll_read(Pin::new(&mut direct), &mut cx, &mut straight);
            let (Poll::Ready(Ok(got)), Poll::Ready(Ok(want))) = (got, want) else {
                panic!("a cursor is always ready");
            };
            assert_eq!(got, want);
            assert_eq!(through, straight);
            if got == 0 {
                break;
            }
        }
        let (reader, writer) = duplex.into_inner();
        assert_eq!(reader.0.position(), direct.position());
        assert_eq!(writer.0, b"");
    }
}

#[test]
fn peeked_bytes_are_read_again_unless_consumed() {
    let mut duplex = over(b"hello world");
    let mut cx = Context::from_waker(Waker::noop());

    let Poll::Ready(Ok(peeked)) = duplexify::BufRead::poll_fill_buf(&mut duplex, &mut cx) else {
        panic!("a cursor is always ready");
    };
    assert_eq!(peeked, b"hello world");
    duplexify::BufRead::consume(&mut duplex, 6);

    let mut stdio = Awaited(duplex);
    let mut rest = String::new();
    block_on(stdio.read_to_string(&mut rest)).unwrap();
    assert_eq!(rest, "world");
}

#[test]
fn duplicate_over_cursors_keeps_its_own_place() {
    let mut first = over(b"abcdef");
    let mut cx = Context::from_waker(Waker::noop());
    let mut buf = [0u8; 2];
    assert!(matches!(
        duplexify::Read::poll_read(&mut first, &mut cx, &mut buf),
        Poll::Ready(Ok(2))
    ));

    let duplicate = first.clone();
    assert!(matches!(
        duplexify::Write::poll_write(&mut first, &mut cx, b"xy"),
        Poll::Ready(Ok(2))
    ));
    assert!(matches!(
        duplexify::Read::poll_read(&mut first, &mut cx, &mut buf),
        Poll::Ready(Ok(2))
    ));

    let mut stdio = Awaited(duplicate);
    let mut rest = String::new();
    block_on(stdio.read_to_string(&mut rest)).unwrap();
    assert_eq!(rest, "cdef");
    assert_eq!(stdio.0.into_inner().1 .0, b"");
    assert_eq!(first.into_inner().1 .0, b"xy");
}

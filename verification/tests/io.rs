use minirt::io::{settle, AsyncWrite, AsyncWriteExt, IoOutcome, WriteFut};
use minirt::iosource::Direction;
use minirt::note::{Notification, SenderId};
use minirt::reactor::Reactor;
use minirt::task::Poll;
use minirt::waker::{SharedNote, Waker};

/// A writer with room for a fixed number of bytes.
struct Pipe {
    token: usize,
    room: usize,
    data: Vec<u8>,
    broken: bool,
}

impl AsyncWrite for Pipe {
    type Error = &'static str;

    fn poll_write(
        &mut self,
        reactor: &mut Reactor,
        cx: &mut SharedNote,
        buf: &[u8],
    ) -> Poll<Result<usize, Self::Error>> {
        let outcome = if self.broken {
            IoOutcome::Failed("broken pipe")
        } else if self.room == 0 {
            IoOutcome::WouldBlock
        } else {
            let n = buf.len().min(self.room);
            self.data.extend_from_slice(&buf[..n]);
            self.room -= n;
            IoOutcome::Done(n)
        };
        settle(reactor, cx, self.token, Direction::Write, outcome).0
    }

    fn poll_flush(
        &mut self,
        reactor: &mut Reactor,
        cx: &mut SharedNote,
    ) -> Poll<Result<(), Self::Error>> {
        let outcome = if self.broken { IoOutcome::Failed("broken pipe") } else { IoOutcome::Done(()) };
        settle(reactor, cx, self.token, Direction::Write, outcome).0
    }
}

impl AsyncWriteExt for Pipe {
    fn write<'w>(&'w mut self, buf: &'w [u8]) -> WriteFut<'w, Self> {
        WriteFut::new(self, buf)
    }
}

fn setup() -> (Reactor, SharedNote, Pipe) {
    let mut reactor = Reactor::new();
    let token = reactor.register::<()>(Ok(())).unwrap();
    let (cx, _w) = SharedNote::make_waker(Notification::new(6), SenderId::Worker);
    (reactor, cx, Pipe { token, room: 4, data: Vec::new(), broken: false })
}

#[test]
fn settle_passes_success_and_failure_through() {
    let (mut reactor, mut cx, pipe) = setup();
    let done = settle::<usize, ()>(&mut reactor, &mut cx, pipe.token, Direction::Read, IoOutcome::Done(17));
    assert_eq!(done, (Poll::Ready(Ok(17)), None));
    let failed =
        settle::<usize, &str>(&mut reactor, &mut cx, pipe.token, Direction::Read, IoOutcome::Failed("reset"));
    assert_eq!(failed, (Poll::Ready(Err("reset")), None));
    assert!(!reactor.get(pipe.token).unwrap().has_wakers());
    assert_eq!(cx.ref_count(), 1);
}

#[test]
fn settle_attaches_the_waker_when_it_would_block() {
    let (mut reactor, mut cx, pipe) = setup();
    let r = settle::<usize, ()>(&mut reactor, &mut cx, pipe.token, Direction::Read, IoOutcome::WouldBlock);
    assert_eq!(r, (Poll::Pending, None));
    assert_eq!(
        reactor.get(pipe.token).unwrap().read_waker,
        Some(Waker { id: 6, sender: SenderId::Worker })
    );
    assert_eq!(cx.ref_count(), 2);
    let (mut other, _w) = SharedNote::make_waker(Notification::new(7), SenderId::Worker);
    let r = settle::<(), ()>(&mut reactor, &mut other, pipe.token, Direction::Read, IoOutcome::WouldBlock);
    assert_eq!(r, (Poll::Pending, Some(Waker { id: 6, sender: SenderId::Worker })));
}

#[test]
fn writer_blocks_when_full_and_leaves_its_waker() {
    let (mut reactor, mut cx, mut pipe) = setup();
    assert_eq!(pipe.poll_write(&mut reactor, &mut cx, b"abcdef"), Poll::Ready(Ok(4)));
    assert_eq!(pipe.data, b"abcd");
    assert_eq!(pipe.poll_write(&mut reactor, &mut cx, b"ef"), Poll::Pending);
    assert_eq!(
        reactor.get(pipe.token).unwrap().write_waker,
        Some(Waker { id: 6, sender: SenderId::Worker })
    );
    assert_eq!(pipe.poll_flush(&mut reactor, &mut cx), Poll::Ready(Ok(())));
    pipe.broken = true;
    assert_eq!(pipe.poll_write(&mut reactor, &mut cx, b"ef"), Poll::Ready(Err("broken pipe")));
    assert_eq!(pipe.poll_flush(&mut reactor, &mut cx), Poll::Ready(Err("broken pipe")));
}

#[test]
fn boxed_writer_forwards() {
    let (mut reactor, mut cx, pipe) = setup();
    let mut boxed = Box::new(pipe);
    assert_eq!(boxed.poll_write(&mut reactor, &mut cx, b"xy"), Poll::Ready(Ok(2)));
    assert_eq!(boxed.poll_flush(&mut reactor, &mut cx), Poll::Ready(Ok(())));
    assert_eq!(boxed.data, b"xy");
}

#[test]
fn write_future_polls_the_writer() {
    let (mut reactor, mut cx, mut pipe) = setup();
    {
        let mut fut = pipe.write(b"hello");
        assert_eq!(fut.poll(&mut reactor, &mut cx), Poll::Ready(Ok(4)));
        assert_eq!(fut.poll(&mut reactor, &mut cx), Poll::Pending);
    }
    assert_eq!(pipe.data, b"hell");
    assert_eq!(
        reactor.get(pipe.token).unwrap().write_waker,
        Some(Waker { id: 6, sender: SenderId::Worker })
    );
    let mut boxed = Box::new(pipe);
    let mut fut = WriteFut::new(&mut boxed, b"x");
    assert_eq!(fut.poll(&mut reactor, &mut cx), Poll::Pending);
}

#[test]
fn borrowed_writer_forwards() {
    let (mut reactor, mut cx, mut pipe) = setup();
    {
        let mut borrowed = &mut pipe;
        let wrote = <&mut Pipe as AsyncWrite>::poll_write(&mut borrowed, &mut reactor, &mut cx, b"abc");
        assert_eq!(wrote, Poll::Ready(Ok(3)));
        let flushed = <&mut Pipe as AsyncWrite>::poll_flush(&mut borrowed, &mut reactor, &mut cx);
        assert_eq!(flushed, Poll::Ready(Ok(())));
        let full = <&mut Pipe as AsyncWrite>::poll_write(&mut borrowed, &mut reactor, &mut cx, b"defg");
        assert_eq!(full, Poll::Ready(Ok(1)));
        let blocked = <&mut Pipe as AsyncWrite>::poll_write(&mut borrowed, &mut reactor, &mut cx, b"efg");
        assert_eq!(blocked, Poll::Pending);
    }
    assert_eq!(pipe.data, b"abcd");
    assert_eq!(pipe.room, 0);
}

//! Asynchronous writing: what a writer offers, and how the answer of a
//! non-blocking operation becomes the answer of a poll.

use crate::iosource::Direction;
use crate::reactor::{after_attach, Reactor};
use crate::task::Poll;
use crate::waker::{SharedNote, Waker};
use vstd::prelude::*;

verus! {

/// What a non-blocking operation answered.
#[derive(Debug, PartialEq, Eq)]
pub enum IoOutcome<T, E> {
    /// It went through, with this result.
    Done(T),
    /// It would have had to block.
    WouldBlock,
    /// It failed for good, with this error.
    Failed(E),
}

/// What a poll answers to `outcome`.
pub open spec fn settled<T, E>(outcome: IoOutcome<T, E>) -> Poll<Result<T, E>> {
    match outcome {
        IoOutcome::Done(v) => Poll::Ready(Ok(v)),
        IoOutcome::WouldBlock => Poll::Pending,
        IoOutcome::Failed(e) => Poll::Ready(Err(e)),
    }
}

/// Turns the answer of a non-blocking operation on the source `token` into
/// the answer of a poll. An operation that would block leaves the task
/// pending, with its waker attached to the source for `dir`; the waker that
/// gave way, if any, comes back to be released. Anything else is ready, a
/// failure as much as a success, and the reactor is not touched.
pub fn settle<T, E>(
    reactor: &mut Reactor,
    cx: &mut SharedNote,
    token: usize,
    dir: Direction,
    outcome: IoOutcome<T, E>,
) -> (r: (Poll<Result<T, E>>, Option<Waker>))
    requires
        old(reactor).wf(),
        old(reactor)@.contains_key(token),
        !old(cx).freed(),
        old(cx).refs() < u64::MAX,
    ensures
        final(reactor).wf(),
        final(reactor).vacant() == old(reactor).vacant(),
        final(cx).id() == old(cx).id(),
        final(cx).sender() == old(cx).sender(),
        r.0 == settled(outcome),
        !(outcome is WouldBlock) ==> r.1.is_none() && final(reactor)@ == old(reactor)@,
        !(outcome is WouldBlock) ==> final(cx).refs() == old(cx).refs(),
        outcome is WouldBlock ==> final(reactor)@ == after_attach(
            old(reactor)@,
            token,
            dir,
            old(cx).handle(),
        ),
        outcome is WouldBlock && old(reactor)@[token].waker(dir) == Some(old(cx).handle())
            ==> r.1.is_none() && final(cx).refs() == old(cx).refs(),
        outcome is WouldBlock && old(reactor)@[token].waker(dir) != Some(old(cx).handle())
            ==> r.1 == old(reactor)@[token].waker(dir) && final(cx).refs() == old(cx).refs() + 1,
{
    match outcome {
        IoOutcome::Done(v) => (Poll::Ready(Ok(v)), None),
        IoOutcome::Failed(e) => (Poll::Ready(Err(e)), None),
        IoOutcome::WouldBlock => {
            let displaced = reactor.attach_waker(cx, token, dir);
            (Poll::Pending, displaced)
        },
    }
}

/// A writer that never blocks: a write or a flush that cannot go on yet
/// answers `Pending`, after it has left the task's waker with the reactor.
///
/// Each writer may say of itself what one attempt can do, in `write_step`
/// and `flush_step`; its two methods then do no more than that. A writer
/// that does not say so allows anything.
pub trait AsyncWrite {
    /// The error of a failed operation.
    type Error;

    /// Whether one attempt to write `buf` may take the writer from `pre` to
    /// `post` and the reactor and the task's shared notification from
    /// `before` to `after`, and answer `p`.
    open spec fn write_step(
        pre: &Self,
        post: &Self,
        before: (Reactor, SharedNote),
        after: (Reactor, SharedNote),
        buf: Seq<u8>,
        p: Poll<Result<usize, Self::Error>>,
    ) -> bool {
        true
    }

    /// Whether one attempt to flush may take the writer from `pre` to `post`
    /// and the reactor and the task's shared notification from `before` to
    /// `after`, and answer `p`.
    open spec fn flush_step(
        pre: &Self,
        post: &Self,
        before: (Reactor, SharedNote),
        after: (Reactor, SharedNote),
        p: Poll<Result<(), Self::Error>>,
    ) -> bool {
        true
    }

    /// Tries to write from `buf`; `Ready(Ok(n))` says that `n` bytes were
    /// taken.
    fn poll_write(
        &mut self,
        reactor: &mut Reactor,
        cx: &mut SharedNote,
        buf: &[u8],
    ) -> (p: Poll<Result<usize, Self::Error>>)
        requires
            old(reactor).wf(),
            !old(cx).freed(),
            old(cx).refs() < u64::MAX,
        ensures
            Self::write_step(
                old(self),
                final(self),
                (*old(reactor), *old(cx)),
                (*final(reactor), *final(cx)),
                buf@,
                p,
            ),
    ;

    /// Tries to flush what was written.
    fn poll_flush(
        &mut self,
        reactor: &mut Reactor,
        cx: &mut SharedNote,
    ) -> (p: Poll<Result<(), Self::Error>>)
        requires
            old(reactor).wf(),
            !old(cx).freed(),
            old(cx).refs() < u64::MAX,
        ensures
            Self::flush_step(
                old(self),
                final(self),
                (*old(reactor), *old(cx)),
                (*final(reactor), *final(cx)),
                p,
            ),
    ;
}

/// A boxed writer does what the writer in the box does.
impl<W: AsyncWrite> AsyncWrite for Box<W> {
    type Error = W::Error;

    open spec fn write_step(
        pre: &Self,
        post: &Self,
        before: (Reactor, SharedNote),
        after: (Reactor, SharedNote),
        buf: Seq<u8>,
        p: Poll<Result<usize, Self::Error>>,
    ) -> bool {
        W::write_step(&**pre, &**post, before, after, buf, p)
    }

    open spec fn flush_step(
        pre: &Self,
        post: &Self,
        before: (Reactor, SharedNote),
        after: (Reactor, SharedNote),
        p: Poll<Result<(), Self::Error>>,
    ) -> bool {
        W::flush_step(&**pre, &**post, before, after, p)
    }

    fn poll_write(
        &mut self,
        reactor: &mut Reactor,
        cx: &mut SharedNote,
        buf: &[u8],
    ) -> (p: Poll<Result<usize, Self::Error>>) {
        (**self).poll_write(reactor, cx, buf)
    }

    fn poll_flush(
        &mut self,
        reactor: &mut Reactor,
        cx: &mut SharedNote,
    ) -> (p: Poll<Result<(), Self::Error>>) {
        (**self).poll_flush(reactor, cx)
    }
}

/// A borrowed writer does what the writer behind the borrow does.
impl<W: AsyncWrite> AsyncWrite for &mut W {
    type Error = W::Error;

    open spec fn write_step(
        pre: &Self,
        post: &Self,
        before: (Reactor, SharedNote),
        after: (Reactor, SharedNote),
        buf: Seq<u8>,
        p: Poll<Result<usize, Self::Error>>,
    ) -> bool {
        W::write_step(&**pre, &**post, before, after, buf, p)
    }

    open spec fn flush_step(
        pre: &Self,
        post: &Self,
        before: (Reactor, SharedNote),
        after: (Reactor, SharedNote),
        p: Poll<Result<(), Self::Error>>,
    ) -> bool {
        W::flush_step(&**pre, &**post, before, after, p)
    }

    fn poll_write(
        &mut self,
        reactor: &mut Reactor,
        cx: &mut SharedNote,
        buf: &[u8],
    ) -> (p: Poll<Result<usize, Self::Error>>) {
        (**self).poll_write(reactor, cx, buf)
    }

    fn poll_flush(
        &mut self,
        reactor: &mut Reactor,
        cx: &mut SharedNote,
    ) -> (p: Poll<Result<(), Self::Error>>) {
        (**self).poll_flush(reactor, cx)
    }
}

/// A write in progress: the writer and the bytes that are to go out.
pub struct WriteFut<'w, W: AsyncWrite> {
    io: &'w mut W,
    buf: &'w [u8],
}

impl<'w, W: AsyncWrite> WriteFut<'w, W> {
    /// The bytes that are to go out.
    pub closed spec fn bytes(&self) -> Seq<u8> {
        self.buf@
    }

    /// The writer, as it stands.
    pub closed spec fn writer(&self) -> W {
        *self.io
    }

    /// A write of `buf` on `io`.
    pub fn new(io: &'w mut W, buf: &'w [u8]) -> (f: WriteFut<'w, W>)
        ensures
            f.bytes() == buf@,
            f.writer() == *old(io),
    {
        WriteFut { io, buf }
    }

    /// Polls the write: one attempt of the writer to write the bytes.
    pub fn poll(
        &mut self,
        reactor: &mut Reactor,
        cx: &mut SharedNote,
    ) -> (p: Poll<Result<usize, W::Error>>)
        requires
            old(reactor).wf(),
            !old(cx).freed(),
            old(cx).refs() < u64::MAX,
        ensures
            final(self).bytes() == old(self).bytes(),
            W::write_step(
                &old(self).writer(),
                &final(self).writer(),
                (*old(reactor), *old(cx)),
                (*final(reactor), *final(cx)),
                old(self).bytes(),
                p,
            ),
    {
        self.io.poll_write(reactor, cx, self.buf)
    }
}

/// The convenient face of a writer: a write as a value to poll.
pub trait AsyncWriteExt: AsyncWrite + Sized {
    /// A write of `buf` on this writer, to be polled until it is ready.
    fn write<'w>(&'w mut self, buf: &'w [u8]) -> (f: WriteFut<'w, Self>);
}

} // verus!

use std::cell::Cell;
use std::rc::Rc;

use buzz_media::stream::{StreamPoll, StreamSpan};

struct Span {
    closed: Rc<Cell<usize>>,
}

impl Drop for Span {
    fn drop(&mut self) {
        self.closed.set(self.closed.get() + 1);
    }
}

fn span(closed: &Rc<Cell<usize>>) -> StreamSpan<Span> {
    StreamSpan::new(Span {
        closed: Rc::clone(closed),
    })
}

#[test]
fn span_closes_when_the_stream_ends() {
    let closed = Rc::new(Cell::new(0));
    let mut held = span(&closed);
    assert!(held.current().is_some());
    held.after_poll(StreamPoll::Pending);
    held.after_poll(StreamPoll::Chunk);
    assert_eq!(closed.get(), 0);
    assert!(held.current().is_some());
    held.after_poll(StreamPoll::Ended);
    assert_eq!(closed.get(), 1);
    assert!(held.current().is_none());
    drop(held);
    assert_eq!(closed.get(), 1);
}

#[test]
fn span_closes_when_the_stream_fails() {
    let closed = Rc::new(Cell::new(0));
    let mut held = span(&closed);
    held.after_poll(StreamPoll::Failed);
    assert_eq!(closed.get(), 1);
    held.after_poll(StreamPoll::Chunk);
    assert!(held.current().is_none());
    drop(held);
    assert_eq!(closed.get(), 1);
}

#[test]
fn span_closes_when_the_stream_is_dropped() {
    let closed = Rc::new(Cell::new(0));
    let mut held = span(&closed);
    held.after_poll(StreamPoll::Pending);
    assert_eq!(closed.get(), 0);
    drop(held);
    assert_eq!(closed.get(), 1);
}

#[test]
fn only_failure_and_end_are_final() {
    assert!(!StreamPoll::Pending.is_final());
    assert!(!StreamPoll::Chunk.is_final());
    assert!(StreamPoll::Failed.is_final());
    assert!(StreamPoll::Ended.is_final());
}

//! The stream sink: a bounded, lossy, first-in first-out queue of markup
//! chunks, drained concurrently by whoever holds the receiving end.
use futures_channel::mpsc::{Receiver, Sender};
use vstd::prelude::*;

verus! {

#[verifier::external_type_specification]
#[verifier::external_body]
#[verifier::reject_recursive_types(T)]
pub struct ExSender<T>(Sender<T>);

#[verifier::external_type_specification]
#[verifier::external_body]
#[verifier::reject_recursive_types(T)]
pub struct ExReceiver<T>(Receiver<T>);

/// Largest buffer size (exclusive) that the channel accepts: `usize::MAX >> 2`.
pub const MAX_CAPACITY: usize = usize::MAX / 4;

/// Relies on futures_channel::mpsc::channel: builds a connected pair with
/// room for `buffer` pending messages (plus one per sender); it panics when
/// `buffer` is not below `usize::MAX >> 2`.
#[verifier::external_body]
fn open_channel(buffer: usize) -> (Sender<String>, Receiver<String>)
    requires
        buffer < MAX_CAPACITY,
{
    futures_channel::mpsc::channel(buffer)
}

/// Relies on futures_channel::mpsc::Sender::start_send: queues the message
/// without blocking, or hands back an error when the queue is full or the
/// receiver is gone; that error is discarded, so delivery is best-effort.
/// The chunk handed to the channel is the one recorded in the sink's log.
#[verifier::external_body]
fn try_enqueue(sink: &mut Sink, chunk: String)
    ensures
        final(sink)@ == old(sink)@.push(chunk@),
        final(sink).capacity() == old(sink).capacity(),
{
    let _ = sink.tx.start_send(chunk);
}

/// The producing end of a stream of markup chunks.
///
/// Its view records every chunk handed to the stream, in order. The receiving
/// end sees a prefix-respecting subsequence of it: chunks arrive in this
/// order, but any of them may have been dropped because the queue was full
/// or the receiver had gone away.
pub struct Sink {
    tx: Sender<String>,
    sent: Ghost<Seq<Seq<char>>>,
    capacity: Ghost<nat>,
}

impl View for Sink {
    type V = Seq<Seq<char>>;

    /// Every chunk handed to the stream so far, oldest first.
    closed spec fn view(&self) -> Seq<Seq<char>> {
        self.sent@
    }
}

impl Sink {
    /// The number of undelivered chunks the stream was opened to hold.
    pub closed spec fn capacity(&self) -> nat {
        self.capacity@
    }

    /// Opens a stream with room for `capacity` undelivered chunks (and one
    /// more for its single producer), and
    /// returns its producing end, with nothing sent yet, and its receiving end.
    pub fn open(capacity: usize) -> (r: (Sink, Receiver<String>))
        requires
            capacity < MAX_CAPACITY,
        ensures
            r.0@ == Seq::<Seq<char>>::empty(),
            r.0.capacity() == capacity,
    {
        let (tx, rx) = open_channel(capacity);
        (Sink { tx, sent: Ghost(Seq::empty()), capacity: Ghost(capacity as nat) }, rx)
    }

    /// Appends `chunk` to the stream without ever blocking; a chunk that the
    /// queue cannot take is lost.
    pub fn enqueue(&mut self, chunk: String)
        ensures
            final(self)@ == old(self)@.push(chunk@),
            final(self).capacity() == old(self).capacity(),
    {
        try_enqueue(self, chunk);
    }
}

} // verus!

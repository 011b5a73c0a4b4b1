use vstd::prelude::*;

verus! {

/// The callback of a tee stream: it receives the whole mirrored body once the
/// upstream body has ended.
pub trait OnIterationComplete {
    /// Every body this handler has been handed so far, oldest first. Each
    /// handler defines its own history; left as it is here, the history is
    /// always empty and `on_iteration_complete` cannot be proved.
    open spec fn deliveries(&self) -> Seq<Seq<u8>> {
        Seq::empty()
    }

    /// What else this handler promises of one call that takes it from `self`
    /// to `after`: nothing, unless the handler says so.
    open spec fn completes(&self, data: Seq<u8>, after: &Self) -> bool {
        true
    }

    fn on_iteration_complete(&mut self, data: Vec<u8>)
        ensures
            final(self).deliveries() == old(self).deliveries().push(data@),
            old(self).completes(data@, final(self)),
    ;
}

/// What one pull on a chunk producer yields.
pub enum Pull<E> {
    /// The next chunk of the body.
    Chunk(Vec<u8>),
    /// One chunk failed; the producer may go on.
    Failed(E),
    /// No more chunks will come.
    Exhausted,
    /// Nothing is ready yet: pull again later.
    NotReady,
}

/// A pull without its error value, with the chunk as a sequence of bytes.
pub enum Signal {
    Chunk(Seq<u8>),
    Failed,
    Exhausted,
    NotReady,
}

impl<E> Pull<E> {
    pub open spec fn signal(self) -> Signal {
        match self {
            Pull::Chunk(bytes) => Signal::Chunk(bytes@),
            Pull::Failed(_) => Signal::Failed,
            Pull::Exhausted => Signal::Exhausted,
            Pull::NotReady => Signal::NotReady,
        }
    }
}

/// The state of a tee stream: the body mirrored so far, whether the hand-over
/// to the handler has happened, and what the handler received.
pub struct Tee {
    pub buffer: Seq<u8>,
    pub completed: bool,
    pub deliveries: Seq<Seq<u8>>,
}

/// A tee stream that has seen no pull yet, over a handler with the history `deliveries`.
pub open spec fn fresh(deliveries: Seq<Seq<u8>>) -> Tee {
    Tee { buffer: Seq::empty(), completed: false, deliveries }
}

/// The state after one pull. A chunk is mirrored; the first exhaustion hands the
/// buffer over and empties it; a failed chunk and a producer that is not ready
/// change nothing, and neither does anything that follows the hand-over.
pub open spec fn step(t: Tee, s: Signal) -> Tee {
    if t.completed {
        t
    } else {
        match s {
            Signal::Chunk(bytes) => Tee { buffer: t.buffer + bytes, ..t },
            Signal::Exhausted => Tee {
                buffer: Seq::empty(),
                completed: true,
                deliveries: t.deliveries.push(t.buffer),
            },
            Signal::Failed => t,
            Signal::NotReady => t,
        }
    }
}

/// Whether a pull makes the tee call its handler: the first exhaustion does,
/// and nothing else.
pub open spec fn fires(t: Tee, s: Signal) -> bool {
    !t.completed && s == Signal::Exhausted
}

/// The state after a run of pulls, oldest first.
pub open spec fn run(t: Tee, signals: Seq<Signal>) -> Tee
    decreases signals.len(),
{
    if signals.len() == 0 {
        t
    } else {
        step(run(t, signals.drop_last()), signals.last())
    }
}

/// The bytes of all the chunks in a run of pulls, in order: what went downstream.
pub open spec fn payload(signals: Seq<Signal>) -> Seq<u8>
    decreases signals.len(),
{
    if signals.len() == 0 {
        Seq::empty()
    } else {
        match signals.last() {
            Signal::Chunk(bytes) => payload(signals.drop_last()) + bytes,
            _ => payload(signals.drop_last()),
        }
    }
}

/// Whether a run of pulls holds an exhaustion.
pub open spec fn ends(signals: Seq<Signal>) -> bool {
    exists|i: int| 0 <= i < signals.len() && signals[i] == Signal::Exhausted
}

/// The pulls that come before the first exhaustion of a run (all of them where
/// there is none).
pub open spec fn before_end(signals: Seq<Signal>) -> Seq<Signal>
    decreases signals.len(),
{
    if signals.len() == 0 {
        signals
    } else if ends(signals.drop_last()) {
        before_end(signals.drop_last())
    } else if signals.last() == Signal::Exhausted {
        signals.drop_last()
    } else {
        signals
    }
}

/// The chunks alone, as pulls.
pub open spec fn as_chunks(chunks: Seq<Seq<u8>>) -> Seq<Signal> {
    chunks.map_values(|c: Seq<u8>| Signal::Chunk(c))
}

/// A body cut into chunks, as the pulls of a producer that then ends.
pub open spec fn whole_body(chunks: Seq<Seq<u8>>) -> Seq<Signal> {
    as_chunks(chunks).push(Signal::Exhausted)
}

proof fn lemma_prefix_has_no_end(signals: Seq<Signal>)
    requires
        signals.len() > 0,
        !ends(signals),
    ensures
        !ends(signals.drop_last()),
        signals.last() != Signal::Exhausted,
{
    let init = signals.drop_last();
    if ends(init) {
        let i = choose|i: int| 0 <= i < init.len() && init[i] == Signal::Exhausted;
        assert(signals[i] == Signal::Exhausted);
    }
    assert(signals[signals.len() - 1] == signals.last());
}

/// As long as the producer has not ended, the buffer is the exact
/// concatenation, in arrival order, of every chunk received, and the handler
/// has not been called: neither a failed chunk nor a producer that is not
/// ready triggers it.
pub proof fn lemma_mirrors_until_end(deliveries: Seq<Seq<u8>>, signals: Seq<Signal>)
    requires
        !ends(signals),
    ensures
        run(fresh(deliveries), signals) == (Tee {
            buffer: payload(signals),
            completed: false,
            deliveries,
        }),
    decreases signals.len(),
{
    if signals.len() > 0 {
        lemma_prefix_has_no_end(signals);
        lemma_mirrors_until_end(deliveries, signals.drop_last());
    }
}

/// Single-fire completion: over any run of pulls the handler is called once
/// if the producer ended in it and not at all if it did not; it is called
/// with the chunks that came before the first exhaustion, and the buffer is
/// gone afterwards.
pub proof fn lemma_single_fire(deliveries: Seq<Seq<u8>>, signals: Seq<Signal>)
    ensures
        run(fresh(deliveries), signals).completed == ends(signals),
        !ends(signals) ==> run(fresh(deliveries), signals).deliveries == deliveries,
        ends(signals) ==> run(fresh(deliveries), signals) == (Tee {
            buffer: Seq::empty(),
            completed: true,
            deliveries: deliveries.push(payload(before_end(signals))),
        }),
    decreases signals.len(),
{
    if !ends(signals) {
        lemma_mirrors_until_end(deliveries, signals);
    } else {
        let init = signals.drop_last();
        let i = choose|i: int| 0 <= i < signals.len() && signals[i] == Signal::Exhausted;
        lemma_single_fire(deliveries, init);
        if !ends(init) {
            lemma_mirrors_until_end(deliveries, init);
            if i < init.len() {
                assert(init[i] == Signal::Exhausted);
            }
            assert(signals.last() == Signal::Exhausted);
        }
    }
}

proof fn lemma_chunks_payload(chunks: Seq<Seq<u8>>)
    ensures
        !ends(as_chunks(chunks)),
        payload(as_chunks(chunks)) == chunks.flatten(),
    decreases chunks.len(),
{
    if chunks.len() == 0 {
        assert(payload(as_chunks(chunks)) =~= chunks.flatten());
    } else {
        let init = chunks.drop_last();
        lemma_chunks_payload(init);
        assert(as_chunks(chunks).drop_last() =~= as_chunks(init));
        assert(as_chunks(chunks).last() == Signal::Chunk(chunks.last()));
        init.lemma_flatten_push(chunks.last());
        assert(init.push(chunks.last()) =~= chunks);
    }
}

/// Pass-through fidelity: when a body arrives cut into chunks in any way and
/// the producer then ends, the chunks that went downstream concatenate to the
/// body, and the handler receives that same concatenation, once.
pub proof fn lemma_pass_through_fidelity(deliveries: Seq<Seq<u8>>, chunks: Seq<Seq<u8>>)
    ensures
        payload(whole_body(chunks)) == chunks.flatten(),
        run(fresh(deliveries), whole_body(chunks)) == (Tee {
            buffer: Seq::empty(),
            completed: true,
            deliveries: deliveries.push(chunks.flatten()),
        }),
{
    lemma_chunks_payload(chunks);
    let body = whole_body(chunks);
    assert(body.drop_last() =~= as_chunks(chunks));
    assert(body.last() == Signal::Exhausted);
    lemma_mirrors_until_end(deliveries, as_chunks(chunks));
}

/// A byte-stream decorator: it hands every pull on unchanged, mirrors the
/// chunks into a buffer of its own, and gives that buffer to its handler when
/// the producer is exhausted.
pub struct CompletableStream<H: OnIterationComplete> {
    buffer: Vec<u8>,
    completed: bool,
    handler: H,
}

impl<H: OnIterationComplete> View for CompletableStream<H> {
    type V = Tee;

    closed spec fn view(&self) -> Tee {
        Tee {
            buffer: self.buffer@,
            completed: self.completed,
            deliveries: self.handler.deliveries(),
        }
    }
}

impl<H: OnIterationComplete> CompletableStream<H> {
    /// The handler that the stream holds.
    pub closed spec fn spec_handler(&self) -> H {
        self.handler
    }

    /// What the stream knows of its handler's history is the handler's own account.
    pub proof fn lemma_deliveries(&self)
        ensures
            self@.deliveries == self.spec_handler().deliveries(),
    {
    }

    pub fn new(handler: H) -> (s: CompletableStream<H>)
        ensures
            s@ == fresh(handler.deliveries()),
            s.spec_handler() == handler,
    {
        CompletableStream { buffer: Vec::new(), completed: false, handler }
    }

    /// Takes what one pull on the producer yielded and returns what the
    /// consumer is to see: the same value, always. The handler is called on
    /// the first exhaustion, with the buffer, and at no other time.
    pub fn poll_next<E>(&mut self, pulled: Pull<E>) -> (out: Pull<E>)
        ensures
            out == pulled,
            final(self)@ == step(old(self)@, pulled.signal()),
            !fires(old(self)@, pulled.signal()) ==> final(self).spec_handler() == old(
                self,
            ).spec_handler(),
            fires(old(self)@, pulled.signal()) ==> old(self).spec_handler().completes(
                old(self)@.buffer,
                &final(self).spec_handler(),
            ),
    {
        if !self.completed {
            match &pulled {
                Pull::Chunk(bytes) => {
                    self.buffer.extend_from_slice(bytes.as_slice());
                    assert(self.buffer@ =~= old(self).buffer@ + bytes@);
                },
                Pull::Exhausted => {
                    let mut data: Vec<u8> = Vec::new();
                    std::mem::swap(&mut data, &mut self.buffer);
                    self.handler.on_iteration_complete(data);
                    self.completed = true;
                },
                Pull::Failed(_) => {},
                Pull::NotReady => {},
            }
        }
        pulled
    }

    /// The body mirrored so far.
    pub fn buffered(&self) -> (r: &Vec<u8>)
        ensures
            r@ == self@.buffer,
    {
        &self.buffer
    }

    /// Whether the buffer has been handed to the handler.
    pub fn is_completed(&self) -> (r: bool)
        ensures
            r == self@.completed,
    {
        self.completed
    }

    pub fn handler(&self) -> (r: &H)
        ensures
            *r == self.spec_handler(),
    {
        &self.handler
    }

    pub fn handler_mut(&mut self) -> (r: &mut H)
        ensures
            *r == old(self).spec_handler(),
            *final(r) == final(self).spec_handler(),
            final(self)@.buffer == old(self)@.buffer,
            final(self)@.completed == old(self)@.completed,
    {
        &mut self.handler
    }

    pub fn into_handler(self) -> (r: H)
        ensures
            r == self.spec_handler(),
    {
        self.handler
    }
}

} // verus!

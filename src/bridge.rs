use vstd::prelude::*;
use vstd::string::*;
use crate::error::ClientError;
use crate::text::{views_of, words};

verus! {

/// What a stream handler has been told, as the reader of the stream sees it.
pub enum ReplyEventView {
    Text(Seq<char>),
    Done,
}

/// One thing told to a stream handler.
#[derive(Debug, Clone)]
pub enum ReplyEvent {
    Text(String),
    Done,
}

impl View for ReplyEvent {
    type V = ReplyEventView;

    open spec fn view(&self) -> ReplyEventView {
        match self {
            ReplyEvent::Text(s) => ReplyEventView::Text(s@),
            ReplyEvent::Done => ReplyEventView::Done,
        }
    }
}

/// The sink of one streaming exchange: the reply so far, and the events in
/// the order in which they came, for the front end to drain.
#[derive(Debug)]
pub struct ReplyStreamHandler {
    pub buffer: String,
    pub events: Vec<ReplyEvent>,
}

impl View for ReplyStreamHandler {
    type V = Seq<ReplyEventView>;

    open spec fn view(&self) -> Seq<ReplyEventView> {
        self.events@.map_values(|e: ReplyEvent| e@)
    }
}

impl ReplyStreamHandler {
    pub fn new() -> (r: Self)
        ensures
            r@ == Seq::<ReplyEventView>::empty(),
            r.buffer@ == Seq::<char>::empty(),
    {
        ReplyStreamHandler { buffer: String::new(), events: Vec::new() }
    }

    /// Takes one chunk of the reply.
    pub fn text(&mut self, chunk: &str)
        ensures
            final(self)@ == old(self)@.push(ReplyEventView::Text(chunk@)),
            final(self).buffer@ == old(self).buffer@ + chunk@,
    {
        self.buffer.append(chunk);
        let ghost before = self.events@;
        self.events.push(ReplyEvent::Text(String::from_str(chunk)));
        assert(self.events@.map_values(|e: ReplyEvent| e@) =~= before.map_values(|e: ReplyEvent| e@).push(
            ReplyEventView::Text(chunk@),
        ));
    }

    /// Takes the end of the reply.
    pub fn done(&mut self)
        ensures
            final(self)@ == old(self)@.push(ReplyEventView::Done),
            final(self).buffer == old(self).buffer,
    {
        let ghost before = self.events@;
        self.events.push(ReplyEvent::Done);
        assert(self.events@.map_values(|e: ReplyEvent| e@) =~= before.map_values(|e: ReplyEvent| e@).push(
            ReplyEventView::Done,
        ));
    }
}

/// Where a streaming exchange stands.
#[derive(Debug, Clone, Copy, PartialEq, Eq, Structural)]
pub enum BridgePhase {
    Running,
    Completed,
    Aborted,
    Interrupted,
}

/// What happened while a streaming exchange runs: the backend delivered a
/// chunk or finished, a poll of the abort signal returned, or the process
/// was interrupted.
#[derive(Debug)]
pub enum BridgeEvent {
    Chunk(String),
    Finished(Result<(), String>),
    AbortPolled(bool),
    Interrupted,
}

/// What the driver of the exchange does next.
#[derive(Debug)]
pub enum BridgeAction {
    /// Keep waiting; after a poll that found no abort, poll again later.
    Continue,
    /// The exchange is over and was already over: nothing to do.
    Ignore,
    /// The exchange is over: stop the other activities and return this.
    Return(Result<(), ClientError>),
}

pub open spec fn step_phase(p: BridgePhase, ev: BridgeEvent) -> BridgePhase {
    if p != BridgePhase::Running {
        p
    } else {
        match ev {
            BridgeEvent::Chunk(_) => BridgePhase::Running,
            BridgeEvent::Finished(_) => BridgePhase::Completed,
            BridgeEvent::AbortPolled(a) => if a {
                BridgePhase::Aborted
            } else {
                BridgePhase::Running
            },
            BridgeEvent::Interrupted => BridgePhase::Interrupted,
        }
    }
}

/// What the handler is told on one event.
pub open spec fn step_output(p: BridgePhase, ev: BridgeEvent) -> Seq<ReplyEventView> {
    if p != BridgePhase::Running {
        seq![]
    } else {
        match ev {
            BridgeEvent::Chunk(s) => seq![ReplyEventView::Text(s@)],
            BridgeEvent::Finished(_) => seq![ReplyEventView::Done],
            BridgeEvent::AbortPolled(a) => if a {
                seq![ReplyEventView::Done]
            } else {
                seq![]
            },
            BridgeEvent::Interrupted => seq![],
        }
    }
}

pub open spec fn step_action(p: BridgePhase, ev: BridgeEvent) -> BridgeAction {
    if p != BridgePhase::Running {
        BridgeAction::Ignore
    } else {
        match ev {
            BridgeEvent::Chunk(_) => BridgeAction::Continue,
            BridgeEvent::Finished(res) => match res {
                Ok(_) => BridgeAction::Return(Ok(())),
                Err(c) => BridgeAction::Return(Err(ClientError::Fetch { stream: true, cause: c })),
            },
            BridgeEvent::AbortPolled(a) => if a {
                BridgeAction::Return(Ok(()))
            } else {
                BridgeAction::Continue
            },
            BridgeEvent::Interrupted => BridgeAction::Return(Ok(())),
        }
    }
}

/// The phase reached and what the handler is told, over a run of events.
pub open spec fn run(p: BridgePhase, evs: Seq<BridgeEvent>) -> (BridgePhase, Seq<ReplyEventView>)
    decreases evs.len(),
{
    if evs.len() == 0 {
        (p, seq![])
    } else {
        let rest = run(step_phase(p, evs[0]), evs.drop_first());
        (rest.0, step_output(p, evs[0]) + rest.1)
    }
}

/// The decisions of one streaming exchange against a backend, raced against
/// the abort signal and the process interrupt. Whichever finishes first
/// ends the exchange; the end is told to the handler once, but for an
/// interrupt, on which the process is about to exit.
#[derive(Debug)]
pub struct StreamBridge {
    pub phase: BridgePhase,
}

impl StreamBridge {
    pub fn new() -> (r: Self)
        ensures
            r.phase == BridgePhase::Running,
    {
        StreamBridge { phase: BridgePhase::Running }
    }

    /// Takes one event, tells the handler what it must hear, and says what
    /// the driver does next.
    pub fn step(&mut self, handler: &mut ReplyStreamHandler, event: BridgeEvent) -> (r: BridgeAction)
        ensures
            final(self).phase == step_phase(old(self).phase, event),
            final(handler)@ == old(handler)@ + step_output(old(self).phase, event),
            r == step_action(old(self).phase, event),
    {
        if self.phase != BridgePhase::Running {
            assert(old(handler)@ + seq![] =~= old(handler)@);
            return BridgeAction::Ignore;
        }
        match event {
            BridgeEvent::Chunk(s) => {
                handler.text(s.as_str());
                BridgeAction::Continue
            },
            BridgeEvent::Finished(res) => {
                handler.done();
                self.phase = BridgePhase::Completed;
                match res {
                    Ok(_) => BridgeAction::Return(Ok(())),
                    Err(cause) => BridgeAction::Return(Err(ClientError::Fetch { stream: true, cause })),
                }
            },
            BridgeEvent::AbortPolled(aborted) => {
                if aborted {
                    handler.done();
                    self.phase = BridgePhase::Aborted;
                    BridgeAction::Return(Ok(()))
                } else {
                    assert(old(handler)@ + seq![] =~= old(handler)@);
                    BridgeAction::Continue
                }
            },
            BridgeEvent::Interrupted => {
                self.phase = BridgePhase::Interrupted;
                assert(old(handler)@ + seq![] =~= old(handler)@);
                BridgeAction::Return(Ok(()))
            },
        }
    }
}

/// Once an exchange has ended, later events change nothing: its phase stays
/// and the handler hears nothing more.
pub proof fn lemma_ended_exchange_is_silent(p: BridgePhase, evs: Seq<BridgeEvent>)
    requires
        p != BridgePhase::Running,
    ensures
        run(p, evs) == (p, Seq::<ReplyEventView>::empty()),
    decreases evs.len(),
{
    if evs.len() > 0 {
        lemma_ended_exchange_is_silent(p, evs.drop_first());
        assert(step_output(p, evs[0]) + Seq::<ReplyEventView>::empty() =~= Seq::<ReplyEventView>::empty());
    }
}

/// An abort seen while the exchange runs ends it with success: the handler
/// hears the end once, and no chunk after it, whatever comes later.
pub proof fn lemma_abort_ends_stream(rest: Seq<BridgeEvent>)
    ensures
        step_action(BridgePhase::Running, BridgeEvent::AbortPolled(true)) == BridgeAction::Return(
            Ok::<(), ClientError>(()),
        ),
        run(BridgePhase::Running, seq![BridgeEvent::AbortPolled(true)] + rest) == (
            BridgePhase::Aborted,
            seq![ReplyEventView::Done],
        ),
{
    let evs = seq![BridgeEvent::AbortPolled(true)] + rest;
    assert(evs.drop_first() =~= rest);
    lemma_ended_exchange_is_silent(BridgePhase::Aborted, rest);
    assert(seq![ReplyEventView::Done] + Seq::<ReplyEventView>::empty() =~= seq![ReplyEventView::Done]);
}

/// Whatever the events, the end of the reply is the last thing that the
/// handler hears, and it hears it at most once.
pub proof fn lemma_done_is_last(p: BridgePhase, evs: Seq<BridgeEvent>)
    ensures
        forall|k: int|
            0 <= k < run(p, evs).1.len() - 1 ==> run(p, evs).1[k] != ReplyEventView::Done,
    decreases evs.len(),
{
    if evs.len() > 0 {
        let q = step_phase(p, evs[0]);
        lemma_done_is_last(q, evs.drop_first());
        if q != BridgePhase::Running {
            lemma_ended_exchange_is_silent(q, evs.drop_first());
        }
    }
}

/// Chunks delivered while the exchange runs reach the handler in order.
pub proof fn lemma_chunks_delivered(v: Seq<String>, tail: Seq<BridgeEvent>)
    ensures
        run(BridgePhase::Running, v.map_values(|s: String| BridgeEvent::Chunk(s)) + tail) == (
            run(BridgePhase::Running, tail).0,
            views_of(v).map_values(|w: Seq<char>| ReplyEventView::Text(w)) + run(BridgePhase::Running, tail).1,
        ),
    decreases v.len(),
{
    let evs = v.map_values(|s: String| BridgeEvent::Chunk(s)) + tail;
    if v.len() == 0 {
        assert(evs =~= tail);
        assert(views_of(v).map_values(|w: Seq<char>| ReplyEventView::Text(w)) + run(BridgePhase::Running, tail).1
            =~= run(BridgePhase::Running, tail).1);
    } else {
        let v2 = v.drop_first();
        lemma_chunks_delivered(v2, tail);
        assert(evs[0] == BridgeEvent::Chunk(v[0]));
        assert(evs.drop_first() =~= v2.map_values(|s: String| BridgeEvent::Chunk(s)) + tail);
        assert(views_of(v).map_values(|w: Seq<char>| ReplyEventView::Text(w)) + run(BridgePhase::Running, tail).1
            =~= seq![ReplyEventView::Text(v[0]@)] + (views_of(v2).map_values(
            |w: Seq<char>| ReplyEventView::Text(w),
        ) + run(BridgePhase::Running, tail).1));
    }
}

/// A dry-run stream of `text`: when its words are delivered as chunks and
/// the simulation then finishes, the handler hears one chunk per word, in
/// order, then the end once, and nothing after it.
pub proof fn lemma_dry_run_stream(text: Seq<char>, v: Seq<String>, rest: Seq<BridgeEvent>)
    requires
        views_of(v) == words(text),
    ensures
        run(
            BridgePhase::Running,
            v.map_values(|s: String| BridgeEvent::Chunk(s)) + seq![BridgeEvent::Finished(Ok(()))] + rest,
        ) == (
            BridgePhase::Completed,
            words(text).map_values(|w: Seq<char>| ReplyEventView::Text(w)).push(ReplyEventView::Done),
        ),
{
    let tail = seq![BridgeEvent::Finished(Ok(()))] + rest;
    let chunks = v.map_values(|s: String| BridgeEvent::Chunk(s));
    assert(chunks + seq![BridgeEvent::Finished(Ok(()))] + rest =~= chunks + tail);
    lemma_chunks_delivered(v, tail);
    assert(tail.drop_first() =~= rest);
    lemma_ended_exchange_is_silent(BridgePhase::Completed, rest);
    assert(run(BridgePhase::Running, tail).1 =~= seq![ReplyEventView::Done]);
    assert(words(text).map_values(|w: Seq<char>| ReplyEventView::Text(w)) + seq![ReplyEventView::Done]
        =~= words(text).map_values(|w: Seq<char>| ReplyEventView::Text(w)).push(ReplyEventView::Done));
}

} // verus!

//! The entry point: a frozen routing table together with one terminal error
//! sink.  Every event dispatched reaches exactly one terminal outcome — a
//! successful handler run, or one error absorbed by the sink.

use vstd::prelude::*;
use crate::demux::{Demux, DemuxBuilder, first_match_at, lemma_first_match_unique, no_match};
use crate::error_handler::ErrorHandler;
use crate::handler::Handler;
use crate::outcome::{DispatchError, HandleResult};

verus! {

/// The error-sink contents after a handler reported the outcome `out`,
/// starting from `log`: unchanged on success, extended by exactly the
/// reported failure otherwise.
pub open spec fn log_after<Upd, E>(
    log: Seq<DispatchError<Upd, E>>,
    out: HandleResult<E>,
) -> Seq<DispatchError<Upd, E>> {
    match out {
        HandleResult::Done => log,
        HandleResult::Failed(e) => log.push(DispatchError::HandlerError(e)),
    }
}

/// What dispatching one event does to the error-sink contents: on no match
/// the sink absorbs exactly `NoHandler` with the original event; on a match
/// it absorbs exactly what the first matching service's reported outcome
/// dictates; and in every case at most one error is absorbed.
pub open spec fn one_dispatch_post<Upd, E, S: Handler<Upd, E>>(
    services: Seq<S>,
    log0: Seq<DispatchError<Upd, E>>,
    upd: Upd,
    log1: Seq<DispatchError<Upd, E>>,
) -> bool {
    &&& (no_match(services, upd) ==> log1 == log0.push(DispatchError::NoHandler(upd)))
    &&& (forall|i: int| #[trigger] first_match_at(services, upd, i) ==> exists|out: HandleResult<E>|
        services[i].spec_post(upd, out) && log1 == log_after(log0, out))
    &&& (log1 == log0 || (exists|d: DispatchError<Upd, E>| log1 == log0.push(d)))
}

/// What dispatching a whole batch does to the error-sink contents: each
/// event of the batch, in order, transforms the log exactly as one dispatch
/// of that event does ([`one_dispatch_post`]).
pub open spec fn batch_post<Upd, E, S: Handler<Upd, E>>(
    services: Seq<S>,
    log0: Seq<DispatchError<Upd, E>>,
    events: Seq<Upd>,
    log1: Seq<DispatchError<Upd, E>>,
) -> bool
    decreases events.len(),
{
    if events.len() == 0 {
        log1 == log0
    } else {
        exists|mid: Seq<DispatchError<Upd, E>>|
            #[trigger] one_dispatch_post(services, log0, events[0], mid)
                && batch_post(services, mid, events.subrange(1, events.len() as int), log1)
    }
}

/// Dispatching one more event after a batch extends the batch: the combined
/// log evolution is that of the batch followed by the single event.
pub proof fn lemma_batch_post_snoc<Upd, E, S: Handler<Upd, E>>(
    services: Seq<S>,
    log0: Seq<DispatchError<Upd, E>>,
    events: Seq<Upd>,
    mid: Seq<DispatchError<Upd, E>>,
    upd: Upd,
    log1: Seq<DispatchError<Upd, E>>,
)
    requires
        batch_post(services, log0, events, mid),
        one_dispatch_post(services, mid, upd, log1),
    ensures
        batch_post(services, log0, events.push(upd), log1),
    decreases events.len(),
{
    let extended = events.push(upd);
    if events.len() == 0 {
        assert(extended[0] == upd);
        assert(extended.subrange(1, extended.len() as int) =~= Seq::<Upd>::empty());
        assert(one_dispatch_post(services, log0, extended[0], log1));
        assert(batch_post(services, log1, extended.subrange(1, extended.len() as int), log1));
    } else {
        let m = choose|m: Seq<DispatchError<Upd, E>>|
            #[trigger] one_dispatch_post(services, log0, events[0], m)
                && batch_post(services, m, events.subrange(1, events.len() as int), mid);
        lemma_batch_post_snoc(
            services,
            m,
            events.subrange(1, events.len() as int),
            mid,
            upd,
            log1,
        );
        assert(extended.subrange(1, extended.len() as int) =~= events.subrange(
            1,
            events.len() as int,
        ).push(upd));
        assert(extended[0] == events[0]);
        assert(one_dispatch_post(services, log0, extended[0], m));
        assert(batch_post(services, m, extended.subrange(1, extended.len() as int), log1));
    }
}

/// Batch accounting: when the routing table claims none of the events, the
/// sink absorbs exactly one error per event of the batch — no event is lost
/// and none is absorbed twice.
pub proof fn lemma_batch_all_unmatched<Upd, E, S: Handler<Upd, E>>(
    services: Seq<S>,
    log0: Seq<DispatchError<Upd, E>>,
    events: Seq<Upd>,
    log1: Seq<DispatchError<Upd, E>>,
)
    requires
        batch_post(services, log0, events, log1),
        forall|k: int| 0 <= k < events.len() ==> no_match(services, #[trigger] events[k]),
    ensures
        log1.len() == log0.len() + events.len(),
    decreases events.len(),
{
    if events.len() > 0 {
        let tail = events.subrange(1, events.len() as int);
        let mid = choose|mid: Seq<DispatchError<Upd, E>>|
            #[trigger] one_dispatch_post(services, log0, events[0], mid)
                && batch_post(services, mid, tail, log1);
        assert(no_match(services, events[0]));
        assert(mid.len() == log0.len() + 1);
        assert forall|k: int| 0 <= k < tail.len() implies no_match(services, #[trigger] tail[k]) by {
            assert(tail[k] == events[k + 1]);
        }
        lemma_batch_all_unmatched(services, mid, tail, log1);
    }
}

/// A dispatcher: one frozen routing table and one terminal error sink.
///
/// Dispatching never propagates a failure to the caller — every failure is
/// funnelled to the sink, exactly once per undispatched or failed event.
pub struct Dispatcher<Upd, E, S, EH> {
    demux: Demux<Upd, E, S>,
    error_handler: EH,
}

impl<Upd, E, S: Handler<Upd, E>, EH: ErrorHandler<Upd, E>> Dispatcher<Upd, E, S, EH> {
    /// The routing table's services, in registration order.
    pub closed spec fn services(self) -> Seq<S> {
        self.demux.services()
    }

    /// The terminal error sink.
    pub closed spec fn sink(self) -> EH {
        self.error_handler
    }

    /// Takes the dispatcher apart, handing the error sink back for
    /// inspection.
    pub fn into_error_handler(self) -> (r: EH)
        ensures
            r == self.sink(),
    {
        self.error_handler
    }

    /// Dispatches one event.
    ///
    /// If no service claims the event, the sink absorbs `NoHandler` with the
    /// original event; if the first claiming service's handler reports a
    /// failure, the sink absorbs `HandlerError`; on success the sink is left
    /// untouched.  The routing table itself never changes.
    pub fn dispatch_one(&mut self, upd: Upd)
        ensures
            final(self).services() == old(self).services(),
            one_dispatch_post(
                old(self).services(),
                old(self).sink().absorbed(),
                upd,
                final(self).sink().absorbed(),
            ),
    {
        match self.demux.handle(upd) {
            Ok(out) => {
                let ghost gout = out;
                match out {
                    HandleResult::Done => {},
                    HandleResult::Failed(e) => {
                        self.error_handler.handle_error(DispatchError::HandlerError(e));
                    },
                }
                proof {
                    let s = old(self).services();
                    assert(self.sink().absorbed() == log_after(old(self).sink().absorbed(), gout));
                    assert forall|i: int| #[trigger] first_match_at(s, upd, i) implies exists|out2: HandleResult<E>|
                        s[i].spec_post(upd, out2)
                            && self.sink().absorbed() == log_after(old(self).sink().absorbed(), out2) by {
                        let i0 = choose|i0: int|
                            #[trigger] first_match_at(s, upd, i0) && s[i0].spec_post(upd, gout);
                        lemma_first_match_unique(s, upd, i, i0);
                        assert(s[i].spec_post(upd, gout));
                    }
                }
            },
            Err(back) => {
                self.error_handler.handle_error(DispatchError::NoHandler(back));
            },
        }
    }

    /// Dispatches a finite batch of events, one after the other, in order.
    ///
    /// Each event of the batch reaches exactly one terminal outcome, exactly
    /// as by [`Self::dispatch_one`] ([`batch_post`]): in particular the sink
    /// absorbs exactly one error per unclaimed or failed event, nothing for
    /// a successful one, and nothing else.
    pub fn dispatch_stream(&mut self, updates: Vec<Upd>)
        ensures
            final(self).services() == old(self).services(),
            batch_post(
                old(self).services(),
                old(self).sink().absorbed(),
                updates@,
                final(self).sink().absorbed(),
            ),
            old(self).sink().absorbed().len() <= final(self).sink().absorbed().len(),
            final(self).sink().absorbed().len() <= old(self).sink().absorbed().len() + updates@.len(),
            old(self).sink().absorbed().is_prefix_of(final(self).sink().absorbed()),
    {
        let mut remaining = updates;
        let ghost mut processed: Seq<Upd> = Seq::empty();
        while remaining.len() > 0
            invariant
                self.services() == old(self).services(),
                processed + remaining@ == updates@,
                batch_post(
                    old(self).services(),
                    old(self).sink().absorbed(),
                    processed,
                    self.sink().absorbed(),
                ),
                old(self).sink().absorbed().len() <= self.sink().absorbed().len(),
                self.sink().absorbed().len() <= old(self).sink().absorbed().len()
                    + (updates@.len() - remaining@.len()),
                remaining@.len() <= updates@.len(),
                old(self).sink().absorbed().is_prefix_of(self.sink().absorbed()),
            decreases remaining.len(),
        {
            let ghost before = self.sink().absorbed();
            let ghost rem_before = remaining@;
            let upd = remaining.remove(0);
            let ghost gu = upd;
            self.dispatch_one(upd);
            proof {
                lemma_batch_post_snoc(
                    old(self).services(),
                    old(self).sink().absorbed(),
                    processed,
                    before,
                    gu,
                    self.sink().absorbed(),
                );
                assert(remaining@ =~= rem_before.subrange(1, rem_before.len() as int));
                processed = processed.push(gu);
                assert(processed + remaining@ =~= updates@);
                let entry = old(self).sink().absorbed();
                let now = self.sink().absorbed();
                if now != before {
                    let d = choose|d: DispatchError<Upd, E>| now == before.push(d);
                    assert(now.subrange(0, entry.len() as int) =~= entry);
                }
            }
        }
        proof {
            assert(processed =~= updates@);
        }
    }
}

/// The builder phase of a dispatcher: services are appended in registration
/// order, and a terminal error sink must be supplied before `build` becomes
/// available.
pub struct DispatcherBuilder<Upd, E, EH, S> {
    demux: DemuxBuilder<Upd, E, S>,
    error_handler: EH,
}

impl<Upd, E, S: Handler<Upd, E>> DispatcherBuilder<Upd, E, (), S> {
    /// A builder with no services and no error sink yet.
    pub fn new() -> (r: Self)
        ensures
            r.services() =~= Seq::<S>::empty(),
    {
        DispatcherBuilder { demux: DemuxBuilder::new(), error_handler: () }
    }

    /// Supplies the terminal error sink; only then can the dispatcher be
    /// built.
    pub fn error_handler<EH: ErrorHandler<Upd, E>>(self, error_handler: EH) -> (r: DispatcherBuilder<
        Upd,
        E,
        EH,
        S,
    >)
        ensures
            r.services() == self.services(),
            r.sink() == error_handler,
    {
        let DispatcherBuilder { demux, error_handler: _ } = self;
        DispatcherBuilder { demux, error_handler }
    }
}

impl<Upd, E, EH, S: Handler<Upd, E>> DispatcherBuilder<Upd, E, EH, S> {
    /// The services registered so far, in registration order.
    pub closed spec fn services(self) -> Seq<S> {
        self.demux.services()
    }

    /// The error sink, once supplied.
    pub closed spec fn sink(self) -> EH {
        self.error_handler
    }

    /// Registers one more service, after all earlier ones.
    pub fn handle(self, handler: S) -> (r: Self)
        ensures
            r.services() == self.services().push(handler),
            r.sink() == self.sink(),
    {
        let mut this = self;
        this.demux.add_service(handler);
        this
    }
}

impl<Upd, E, EH: ErrorHandler<Upd, E>, S: Handler<Upd, E>> DispatcherBuilder<Upd, E, EH, S> {
    /// Freezes the routing table and pairs it with the sink.
    pub fn build(self) -> (r: Dispatcher<Upd, E, S, EH>)
        ensures
            r.services() == self.services(),
            r.sink() == self.sink(),
    {
        let DispatcherBuilder { demux, error_handler } = self;
        Dispatcher { demux: demux.build(), error_handler }
    }
}

} // verus!

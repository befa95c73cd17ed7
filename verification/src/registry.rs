//! The session registry: the table of live sessions keyed by session id,
//! the shared state every request handler touches.
//!
//! An id is a 128-bit random token, generated once per connection; it is
//! the only handle other components keep, so a session is reachable
//! solely through a registry lookup and is deallocated exactly where it
//! is removed. Every operation on an unknown id, or on a session in the
//! wrong phase, is a benign no-op.

use crate::channel::PushChannel;
use crate::format::{
    bps_to_string, micros_to_string, spec_duration_string, spec_rate_string,
};
use crate::session::{
    spec_begin, spec_bandwidth_average, spec_chunk, spec_finalize, spec_latency_average,
    spec_round_trip, spec_start_micros, FinishOutcome, FrozenStats, Session,
};
use vstd::hash_map::HashMapWithView;
use vstd::prelude::*;

verus! {

broadcast use vstd::std_specs::hash::group_hash_axioms;

/// A formatted progress report for one accepted (or current) sample.
pub struct ProgressSnapshot {
    /// Display of the running bandwidth average.
    pub bandwidth: String,
    /// Display of the running latency average.
    pub latency: String,
    /// When the test began, for deriving total elapsed time.
    pub start_micros: u64,
}

/// The formatted frozen results of a finished test.
pub struct FinalSnapshot {
    /// Display of the final bandwidth average.
    pub bandwidth: String,
    /// Display of the final latency average.
    pub latency: String,
}

/// One step of the consumer that drains a session's channel onto the
/// held-open connection.
pub enum PollFrame {
    /// A payload to write to the client.
    Data(Vec<u8>),
    /// Nothing queued yet; come back once a producer has pushed.
    Wait,
    /// The stream is over: the sentinel arrived or the session is gone.
    End,
}

/// Relies on uuid's `Uuid::new_v4`: a freshly generated random 128-bit
/// token, unguessable and unique with overwhelming probability.
#[verifier::external_body]
fn fresh_session_id() -> u128 {
    uuid::Uuid::new_v4().as_u128()
}

/// The table of live sessions, keyed by session id.
pub struct Registry {
    sessions: HashMapWithView<u128, Session>,
    channel_capacity: usize,
}

impl View for Registry {
    type V = Map<u128, Session>;

    closed spec fn view(&self) -> Map<u128, Session> {
        self.sessions@
    }
}

impl Registry {
    /// Validity: every registered session is well formed.
    pub open spec fn wf(&self) -> bool {
        forall|id: u128| self@.contains_key(id) ==> (#[trigger] self@[id]).wf()
    }

    /// The capacity given to each new session's push channel.
    pub closed spec fn spec_channel_capacity(&self) -> int {
        self.channel_capacity as int
    }

    /// An empty registry; each future session's channel will be bounded
    /// by `channel_capacity`.
    pub fn new(channel_capacity: usize) -> (result: Registry)
        ensures
            result.wf(),
            result@ == Map::<u128, Session>::empty(),
            result.spec_channel_capacity() == channel_capacity,
    {
        Registry { sessions: HashMapWithView::new(), channel_capacity }
    }

    /// Registers a new connection: generates a fresh session id and binds
    /// a session in `Start`, with an empty push channel, to it. The id is
    /// the caller's only handle; the held-open response drains the
    /// channel through [`Self::next_frame`] under the same id.
    pub fn new_connection(&mut self) -> (id: u128)
        requires
            old(self).wf(),
        ensures
            final(self).wf(),
            final(self).spec_channel_capacity() == old(self).spec_channel_capacity(),
            final(self)@.contains_key(id),
            final(self)@ == old(self)@.insert(id, final(self)@[id]),
            final(self)@[id].state is Start,
            final(self)@[id].channel.messages() == Seq::<Seq<u8>>::empty(),
            final(self)@[id].channel.spec_capacity() == old(self).spec_channel_capacity(),
            final(self)@[id].channel.spec_reserved() == 0,
    {
        let id = fresh_session_id();
        let session = Session::new(self.channel_capacity);
        self.sessions.insert(id, session);
        proof {
            assert forall|id2: u128| self@.contains_key(id2) implies (#[trigger] self@[id2]).wf()
            by {
                if id2 != id {
                    assert(old(self)@[id2].wf());
                }
            }
        }
        id
    }

    /// The begin-test trigger for one session: `Start -> Downloading`.
    /// Returns the recorded start time exactly when the test was started
    /// by this call, so the caller schedules exactly one test timer per
    /// session; a duplicate or misdirected trigger yields `None`.
    pub fn begin_test(&mut self, id: u128, now_micros: u64) -> (result: Option<u64>)
        requires
            old(self).wf(),
        ensures
            final(self).wf(),
            final(self).spec_channel_capacity() == old(self).spec_channel_capacity(),
            !old(self)@.contains_key(id) ==> final(self)@ == old(self)@ && result is None,
            old(self)@.contains_key(id) ==> ({
                let s = old(self)@[id];
                &&& final(self)@ == old(self)@.insert(
                    id,
                    (Session { state: spec_begin(s.state, now_micros), channel: s.channel }),
                )
                &&& (result is Some <==> s.state is Start)
                &&& (s.state is Start ==> result == Some(now_micros))
            }),
    {
        match self.sessions.remove(&id) {
            Some(mut session) => {
                let started = session.begin_test(now_micros);
                self.sessions.insert(id, session);
                proof {
                    let s = old(self)@[id];
                    assert(self@ =~= old(self)@.insert(
                        id,
                        (Session { state: spec_begin(s.state, now_micros), channel: s.channel }),
                    ));
                }
                if started {
                    Some(now_micros)
                } else {
                    None
                }
            },
            None => None,
        }
    }

    /// Feeds one download sample into a session and reports its current
    /// formatted averages for a progress fragment; `None` exactly when
    /// the session is unknown or not downloading. A stale sequence number
    /// leaves the accumulators unchanged but still reports them.
    pub fn report_chunk(
        &mut self,
        id: u128,
        seq: u64,
        elapsed_micros: u64,
        size: u64,
        now_micros: u64,
    ) -> (result: Option<ProgressSnapshot>)
        requires
            old(self).wf(),
            elapsed_micros > 0,
        ensures
            final(self).wf(),
            final(self).spec_channel_capacity() == old(self).spec_channel_capacity(),
            !old(self)@.contains_key(id) ==> final(self)@ == old(self)@ && result is None,
            old(self)@.contains_key(id) ==> ({
                let s = old(self)@[id];
                let st2 = spec_chunk(s.state, seq, elapsed_micros, size, now_micros);
                &&& final(self)@ == old(self)@.insert(
                    id,
                    (Session { state: st2, channel: s.channel }),
                )
                &&& (result is Some <==> s.state is Downloading)
                &&& (result matches Some(snapshot) ==> {
                    &&& snapshot.bandwidth@ == spec_rate_string(
                        spec_bandwidth_average(st2) as int,
                    )
                    &&& snapshot.latency@ == spec_duration_string(
                        spec_latency_average(st2) as int,
                    )
                    &&& snapshot.start_micros == spec_start_micros(st2)
                })
            }),
    {
        match self.sessions.remove(&id) {
            Some(mut session) => {
                let stats = session.report_chunk(seq, elapsed_micros, size, now_micros);
                self.sessions.insert(id, session);
                proof {
                    let s = old(self)@[id];
                    let st2 = spec_chunk(s.state, seq, elapsed_micros, size, now_micros);
                    assert(self@ =~= old(self)@.insert(
                        id,
                        (Session { state: st2, channel: s.channel }),
                    ));
                }
                match stats {
                    Some(stats) => Some(
                        ProgressSnapshot {
                            bandwidth: bps_to_string(stats.bandwidth_average),
                            latency: micros_to_string(stats.latency_average),
                            start_micros: stats.start_micros,
                        },
                    ),
                    None => None,
                }
            },
            None => None,
        }
    }

    /// Feeds one client-reported round-trip timestamp into a session; no
    /// direct response, the latency average surfaces in the next progress
    /// snapshot. Unknown ids, wrong phases and stale sequence numbers all
    /// change nothing.
    pub fn report_round_trip(&mut self, id: u128, seq: u64, client_ts_micros: u64, now_micros: u64)
        requires
            old(self).wf(),
        ensures
            final(self).wf(),
            final(self).spec_channel_capacity() == old(self).spec_channel_capacity(),
            !old(self)@.contains_key(id) ==> final(self)@ == old(self)@,
            old(self)@.contains_key(id) ==> ({
                let s = old(self)@[id];
                final(self)@ == old(self)@.insert(
                    id,
                    (Session {
                        state: spec_round_trip(s.state, seq, client_ts_micros, now_micros),
                        channel: s.channel,
                    }),
                )
            }),
    {
        match self.sessions.remove(&id) {
            Some(mut session) => {
                session.report_round_trip(seq, client_ts_micros, now_micros);
                self.sessions.insert(id, session);
                proof {
                    let s = old(self)@[id];
                    assert(self@ =~= old(self)@.insert(
                        id,
                        (Session {
                            state: spec_round_trip(s.state, seq, client_ts_micros, now_micros),
                            channel: s.channel,
                        }),
                    ));
                }
            },
            None => {},
        }
    }

    /// Stops a session's test: `Downloading -> Ended`, freezing both
    /// accumulators and returning their formatted display. Triggered by
    /// the test timer or an explicit stop, whichever comes first; any
    /// later call, and any call on an unknown id, yields `None` and
    /// alters nothing.
    pub fn finalize(&mut self, id: u128) -> (result: Option<FinalSnapshot>)
        requires
            old(self).wf(),
        ensures
            final(self).wf(),
            final(self).spec_channel_capacity() == old(self).spec_channel_capacity(),
            !old(self)@.contains_key(id) ==> final(self)@ == old(self)@ && result is None,
            old(self)@.contains_key(id) ==> ({
                let s = old(self)@[id];
                &&& final(self)@ == old(self)@.insert(
                    id,
                    (Session { state: spec_finalize(s.state), channel: s.channel }),
                )
                &&& (result is Some <==> s.state is Downloading)
                &&& (result matches Some(snapshot) ==> {
                    &&& snapshot.bandwidth@ == spec_rate_string(
                        spec_bandwidth_average(s.state) as int,
                    )
                    &&& snapshot.latency@ == spec_duration_string(
                        spec_latency_average(s.state) as int,
                    )
                })
            }),
    {
        match self.sessions.remove(&id) {
            Some(mut session) => {
                let frozen: Option<FrozenStats> = session.finalize();
                self.sessions.insert(id, session);
                proof {
                    let s = old(self)@[id];
                    assert(self@ =~= old(self)@.insert(
                        id,
                        (Session { state: spec_finalize(s.state), channel: s.channel }),
                    ));
                }
                match frozen {
                    Some(stats) => Some(
                        FinalSnapshot {
                            bandwidth: bps_to_string(stats.bandwidth_average),
                            latency: micros_to_string(stats.latency_average),
                        },
                    ),
                    None => None,
                }
            },
            None => None,
        }
    }

    /// Enqueues the end-of-stream sentinel on a session already in
    /// `Ended`; FIFO order makes it the last payload the consumer sees.
    /// Reports a full channel so the caller can retry after a drain; on
    /// an unknown id or a session not yet ended, nothing happens.
    pub fn finish(&mut self, id: u128) -> (result: FinishOutcome)
        requires
            old(self).wf(),
        ensures
            final(self).wf(),
            final(self).spec_channel_capacity() == old(self).spec_channel_capacity(),
            !old(self)@.contains_key(id) ==> final(self)@ == old(self)@ && result is NotEnded,
            old(self)@.contains_key(id) ==> ({
                let s = old(self)@[id];
                &&& final(self)@ == old(self)@.insert(id, final(self)@[id])
                &&& final(self)@[id].state == s.state
                &&& final(self)@[id].channel.spec_capacity() == s.channel.spec_capacity()
                &&& final(self)@[id].channel.spec_reserved() == s.channel.spec_reserved()
                &&& (result is NotEnded <==> !(s.state is Ended))
                &&& (result is Queued <==> s.state is Ended && s.channel.occupancy()
                    < s.channel.spec_capacity())
                &&& (result is Queued ==> final(self)@[id].channel.messages()
                    == s.channel.messages().push(Seq::<u8>::empty()))
                &&& (!(result is Queued) ==> final(self)@[id].channel.messages()
                    == s.channel.messages())
            }),
    {
        match self.sessions.remove(&id) {
            Some(mut session) => {
                let outcome = session.finish();
                self.sessions.insert(id, session);
                proof {
                    assert(self@ =~= old(self)@.insert(id, self@[id]));
                }
                outcome
            },
            None => FinishOutcome::NotEnded,
        }
    }

    /// One step of the draining consumer: hands out the oldest queued
    /// payload, asks the consumer to wait when nothing is queued, and
    /// ends the stream on the sentinel or when the session is gone.
    pub fn next_frame(&mut self, id: u128) -> (result: PollFrame)
        requires
            old(self).wf(),
        ensures
            final(self).wf(),
            final(self).spec_channel_capacity() == old(self).spec_channel_capacity(),
            !old(self)@.contains_key(id) ==> final(self)@ == old(self)@ && result is End,
            old(self)@.contains_key(id) ==> ({
                let s = old(self)@[id];
                let msgs = s.channel.messages();
                &&& final(self)@ == old(self)@.insert(id, final(self)@[id])
                &&& final(self)@[id].state == s.state
                &&& final(self)@[id].channel.spec_capacity() == s.channel.spec_capacity()
                &&& final(self)@[id].channel.spec_reserved() == s.channel.spec_reserved()
                &&& (msgs.len() == 0 ==> final(self)@ == old(self)@ && result is Wait)
                &&& (msgs.len() > 0 ==> final(self)@[id].channel.messages() == msgs.drop_first())
                &&& (msgs.len() > 0 && msgs[0].len() == 0 ==> result is End)
                &&& (msgs.len() > 0 && msgs[0].len() > 0 ==> (result matches PollFrame::Data(d)
                    && d@ == msgs[0]))
            }),
    {
        match self.sessions.remove(&id) {
            Some(mut session) => {
                if session.channel.queued_len() == 0 {
                    self.sessions.insert(id, session);
                    proof {
                        assert(self@ =~= old(self)@);
                        assert(self@ =~= old(self)@.insert(id, self@[id]));
                    }
                    PollFrame::Wait
                } else {
                    let front: Option<Vec<u8>> = session.channel.recv();
                    self.sessions.insert(id, session);
                    proof {
                        assert(self@ =~= old(self)@.insert(id, self@[id]));
                    }
                    match front {
                        Some(payload) => {
                            if payload.len() == 0 {
                                PollFrame::End
                            } else {
                                PollFrame::Data(payload)
                            }
                        },
                        None => PollFrame::End,
                    }
                }
            },
            None => PollFrame::End,
        }
    }

    /// Best-effort push of a rendered fragment onto a session's channel.
    /// `None` when the session is unknown; `Some(accepted)` says whether
    /// a slot was free. The payload must not be empty: the empty payload
    /// is the end-of-stream sentinel, owned by [`Self::finish`].
    pub fn try_send(&mut self, id: u128, message: Vec<u8>) -> (result: Option<bool>)
        requires
            old(self).wf(),
            message@.len() > 0,
        ensures
            final(self).wf(),
            final(self).spec_channel_capacity() == old(self).spec_channel_capacity(),
            !old(self)@.contains_key(id) ==> final(self)@ == old(self)@ && result is None,
            old(self)@.contains_key(id) ==> ({
                let s = old(self)@[id];
                &&& final(self)@ == old(self)@.insert(id, final(self)@[id])
                &&& final(self)@[id].state == s.state
                &&& final(self)@[id].channel.spec_capacity() == s.channel.spec_capacity()
                &&& final(self)@[id].channel.spec_reserved() == s.channel.spec_reserved()
                &&& (result == Some(true) <==> s.channel.occupancy() < s.channel.spec_capacity())
                &&& (result == Some(true) ==> final(self)@[id].channel.messages()
                    == s.channel.messages().push(message@))
                &&& (result != Some(true) ==> final(self)@[id].channel.messages()
                    == s.channel.messages())
            }),
    {
        match self.sessions.remove(&id) {
            Some(mut session) => {
                let accepted = session.channel.try_send(message);
                self.sessions.insert(id, session);
                proof {
                    assert(self@ =~= old(self)@.insert(id, self@[id]));
                }
                Some(accepted)
            },
            None => None,
        }
    }

    /// Claims one guaranteed slot on a session's channel ahead of a
    /// payload computed later; committed through [`Self::commit`].
    pub fn try_reserve(&mut self, id: u128) -> (result: Option<bool>)
        requires
            old(self).wf(),
        ensures
            final(self).wf(),
            final(self).spec_channel_capacity() == old(self).spec_channel_capacity(),
            !old(self)@.contains_key(id) ==> final(self)@ == old(self)@ && result is None,
            old(self)@.contains_key(id) ==> ({
                let s = old(self)@[id];
                &&& final(self)@ == old(self)@.insert(id, final(self)@[id])
                &&& final(self)@[id].state == s.state
                &&& final(self)@[id].channel.spec_capacity() == s.channel.spec_capacity()
                &&& final(self)@[id].channel.messages() == s.channel.messages()
                &&& (result == Some(true) <==> s.channel.occupancy() < s.channel.spec_capacity())
                &&& (result == Some(true) ==> final(self)@[id].channel.spec_reserved()
                    == s.channel.spec_reserved() + 1)
                &&& (result != Some(true) ==> final(self)@[id].channel.spec_reserved()
                    == s.channel.spec_reserved())
            }),
    {
        match self.sessions.remove(&id) {
            Some(mut session) => {
                let reserved = session.channel.try_reserve();
                self.sessions.insert(id, session);
                proof {
                    assert(self@ =~= old(self)@.insert(id, self@[id]));
                }
                Some(reserved)
            },
            None => None,
        }
    }

    /// Fills a slot claimed by [`Self::try_reserve`]: enqueues exactly
    /// when the session still exists and still holds a reservation, and
    /// reports whether it did. The reservation guarantees the slot, so a
    /// true result never depended on racing producers.
    pub fn commit(&mut self, id: u128, message: Vec<u8>) -> (committed: bool)
        requires
            old(self).wf(),
            message@.len() > 0,
        ensures
            final(self).wf(),
            final(self).spec_channel_capacity() == old(self).spec_channel_capacity(),
            !old(self)@.contains_key(id) ==> final(self)@ == old(self)@ && !committed,
            old(self)@.contains_key(id) ==> ({
                let s = old(self)@[id];
                &&& final(self)@ == old(self)@.insert(id, final(self)@[id])
                &&& final(self)@[id].state == s.state
                &&& final(self)@[id].channel.spec_capacity() == s.channel.spec_capacity()
                &&& (committed <==> s.channel.spec_reserved() > 0)
                &&& (committed ==> final(self)@[id].channel.messages()
                    == s.channel.messages().push(message@) && final(self)@[id].channel.spec_reserved()
                    == s.channel.spec_reserved() - 1)
                &&& (!committed ==> final(self)@[id].channel.messages() == s.channel.messages()
                    && final(self)@[id].channel.spec_reserved() == s.channel.spec_reserved())
            }),
    {
        match self.sessions.remove(&id) {
            Some(mut session) => {
                let committed = if session.channel.reserved_len() > 0 {
                    session.channel.commit(message);
                    true
                } else {
                    false
                };
                self.sessions.insert(id, session);
                proof {
                    assert(self@ =~= old(self)@.insert(id, self@[id]));
                }
                committed
            },
            None => false,
        }
    }

    /// Releases a slot claimed by [`Self::try_reserve`] unused, for a
    /// producer abandoning its payload during teardown.
    pub fn cancel_reservation(&mut self, id: u128)
        requires
            old(self).wf(),
        ensures
            final(self).wf(),
            final(self).spec_channel_capacity() == old(self).spec_channel_capacity(),
            !old(self)@.contains_key(id) ==> final(self)@ == old(self)@,
            old(self)@.contains_key(id) ==> ({
                let s = old(self)@[id];
                &&& final(self)@ == old(self)@.insert(id, final(self)@[id])
                &&& final(self)@[id].state == s.state
                &&& final(self)@[id].channel.spec_capacity() == s.channel.spec_capacity()
                &&& final(self)@[id].channel.messages() == s.channel.messages()
                &&& (s.channel.spec_reserved() > 0 ==> final(self)@[id].channel.spec_reserved()
                    == s.channel.spec_reserved() - 1)
                &&& (s.channel.spec_reserved() == 0 ==> final(self)@[id].channel.spec_reserved()
                    == 0)
            }),
    {
        match self.sessions.remove(&id) {
            Some(mut session) => {
                if session.channel.reserved_len() > 0 {
                    session.channel.cancel_reservation();
                }
                self.sessions.insert(id, session);
                proof {
                    assert(self@ =~= old(self)@.insert(id, self@[id]));
                }
            },
            None => {},
        }
    }

    /// Removes a session from the table. This is the single deallocation
    /// path, run exactly once by the held-open connection's teardown,
    /// whether the stream ended normally or the client disconnected.
    pub fn remove(&mut self, id: u128) -> (removed: bool)
        requires
            old(self).wf(),
        ensures
            final(self).wf(),
            final(self).spec_channel_capacity() == old(self).spec_channel_capacity(),
            removed <==> old(self)@.contains_key(id),
            final(self)@ == old(self)@.remove(id),
            !final(self)@.contains_key(id),
    {
        let removed = self.sessions.remove(&id);
        proof {
            if !old(self)@.contains_key(id) {
                assert(self@ =~= old(self)@.remove(id));
            }
        }
        removed.is_some()
    }
}

} // verus!

//! The per-connection session: a three-phase state machine that owns the
//! estimator accumulators and this connection's push channel.
//!
//! Phases move one way only, `Start -> Downloading -> Ended`. Operations
//! in the wrong phase are benign no-ops, never errors: a duplicate start,
//! a late sample or a repeated stop leaves the session untouched. While
//! downloading, a sequence-number guard discards samples older than the
//! newest one already accepted.

use crate::channel::PushChannel;
use crate::estimator::{
    calculate_bandwidth_weight, calculate_bps, checked_average_update, latency_sample, spec_bandwidth_weight,
    spec_bps, spec_checked_update,
};
use vstd::prelude::*;

verus! {

/// The phase of one session, with the measurement accumulators carried by
/// the downloading phase and frozen copies kept after the end.
#[derive(Clone, Copy)]
pub enum SessionState {
    /// Registered, waiting for the explicit begin-test signal.
    Start,
    /// Test running: accumulating weighted bandwidth and latency averages.
    Downloading {
        /// When the test began, in microseconds of the process clock.
        start_micros: u64,
        /// Highest sequence number accepted so far.
        counter: u64,
        /// Running weighted mean of throughput samples, bits per second.
        bandwidth_average: u128,
        /// Total weight folded into the bandwidth mean.
        bandwidth_total_weight: u128,
        /// Running mean of one-way latency samples, microseconds.
        latency_average: u128,
        /// Total weight folded into the latency mean (one per sample).
        latency_total_weight: u128,
    },
    /// Test over: the accumulators are frozen.
    Ended {
        /// Final weighted mean of throughput samples, bits per second.
        bandwidth_average: u128,
        /// Final mean of one-way latency samples, microseconds.
        latency_average: u128,
    },
}

/// One client connection's server-side state: its phase and its channel.
pub struct Session {
    /// The state-machine phase and accumulators.
    pub state: SessionState,
    /// The push channel draining to this connection.
    pub channel: PushChannel,
}

/// The highest accepted sequence number, while downloading.
pub open spec fn spec_counter(st: SessionState) -> u64 {
    match st {
        SessionState::Downloading { counter, .. } => counter,
        _ => 0,
    }
}

/// When the test began, while downloading.
pub open spec fn spec_start_micros(st: SessionState) -> u64 {
    match st {
        SessionState::Downloading { start_micros, .. } => start_micros,
        _ => 0,
    }
}

/// The current bandwidth average, while downloading or after the end.
pub open spec fn spec_bandwidth_average(st: SessionState) -> u128 {
    match st {
        SessionState::Downloading { bandwidth_average, .. } => bandwidth_average,
        SessionState::Ended { bandwidth_average, .. } => bandwidth_average,
        _ => 0,
    }
}

/// The current latency average, while downloading or after the end.
pub open spec fn spec_latency_average(st: SessionState) -> u128 {
    match st {
        SessionState::Downloading { latency_average, .. } => latency_average,
        SessionState::Ended { latency_average, .. } => latency_average,
        _ => 0,
    }
}

/// The begin-test transition: from `Start`, enter `Downloading` with fresh
/// accumulators; from anywhere else, change nothing.
pub open spec fn spec_begin(st: SessionState, now_micros: u64) -> SessionState {
    match st {
        SessionState::Start => (SessionState::Downloading {
            start_micros: now_micros,
            counter: 0,
            bandwidth_average: 0,
            bandwidth_total_weight: 0,
            latency_average: 0,
            latency_total_weight: 0,
        }),
        _ => st,
    }
}

/// The bandwidth-sample transition: while downloading and not stale, fold
/// one throughput sample into the bandwidth mean and advance the sequence
/// guard; otherwise change nothing.
pub open spec fn spec_chunk(
    st: SessionState,
    seq: u64,
    elapsed_micros: u64,
    size: u64,
    now_micros: u64,
) -> SessionState
    recommends
        elapsed_micros > 0,
{
    match st {
        SessionState::Downloading {
            start_micros,
            counter,
            bandwidth_average,
            bandwidth_total_weight,
            latency_average,
            latency_total_weight,
        } => {
            if seq >= counter {
                let since_start: u64 = if now_micros >= start_micros {
                    (now_micros - start_micros) as u64
                } else {
                    0
                };
                let x = spec_bps(elapsed_micros, size) as u128;
                let wx = spec_bandwidth_weight(since_start, size) as u128;
                let folded = spec_checked_update(bandwidth_average, bandwidth_total_weight, x, wx);
                (SessionState::Downloading {
                    start_micros,
                    counter: seq,
                    bandwidth_average: folded.0,
                    bandwidth_total_weight: folded.1,
                    latency_average,
                    latency_total_weight,
                })
            } else {
                st
            }
        },
        _ => st,
    }
}

/// The latency-sample transition: while downloading and not stale, fold
/// one half-round-trip sample, with uniform weight 1, into the latency
/// mean and advance the sequence guard; otherwise change nothing. A
/// reported timestamp later than the session's own elapsed time would
/// make the round trip negative and is discarded.
pub open spec fn spec_round_trip(
    st: SessionState,
    seq: u64,
    client_ts_micros: u64,
    now_micros: u64,
) -> SessionState {
    match st {
        SessionState::Downloading {
            start_micros,
            counter,
            bandwidth_average,
            bandwidth_total_weight,
            latency_average,
            latency_total_weight,
        } => {
            if seq >= counter && now_micros >= start_micros && now_micros - start_micros
                >= client_ts_micros {
                let round_trip = now_micros - start_micros - client_ts_micros;
                let sample = (round_trip / 2) as u128;
                let folded = spec_checked_update(latency_average, latency_total_weight, sample, 1);
                (SessionState::Downloading {
                    start_micros,
                    counter: seq,
                    bandwidth_average,
                    bandwidth_total_weight,
                    latency_average: folded.0,
                    latency_total_weight: folded.1,
                })
            } else {
                st
            }
        },
        _ => st,
    }
}

/// The stop transition: from `Downloading`, freeze both accumulators in
/// `Ended`; from anywhere else, change nothing.
pub open spec fn spec_finalize(st: SessionState) -> SessionState {
    match st {
        SessionState::Downloading { bandwidth_average, latency_average, .. } => (SessionState::Ended {
            bandwidth_average,
            latency_average,
        }),
        _ => st,
    }
}

/// The values a progress report hands back for rendering, raw: the caller
/// formats them.
#[derive(Clone, Copy)]
pub struct ChunkStats {
    /// Bandwidth average after this sample, bits per second.
    pub bandwidth_average: u128,
    /// Latency average so far, microseconds.
    pub latency_average: u128,
    /// When the test began, for deriving total elapsed time.
    pub start_micros: u64,
}

/// The frozen averages handed back by a successful stop.
#[derive(Clone, Copy)]
pub struct FrozenStats {
    /// Final bandwidth average, bits per second.
    pub bandwidth_average: u128,
    /// Final latency average, microseconds.
    pub latency_average: u128,
}

/// What became of a request to enqueue the end-of-stream sentinel.
#[derive(Clone, Copy, Debug, PartialEq, Eq, Structural)]
pub enum FinishOutcome {
    /// The sentinel was queued and will be the last payload delivered.
    Queued,
    /// The channel had no free slot; the caller may retry once drained.
    ChannelFull,
    /// The session is not in `Ended`; nothing was queued.
    NotEnded,
}

impl Session {
    /// Validity: the channel respects its capacity bound.
    pub open spec fn wf(&self) -> bool {
        self.channel.wf()
    }

    /// A fresh session in `Start` with an empty channel of the given
    /// capacity.
    pub fn new(channel_capacity: usize) -> (result: Session)
        ensures
            result.wf(),
            result.state is Start,
            result.channel.messages() == Seq::<Seq<u8>>::empty(),
            result.channel.spec_capacity() == channel_capacity,
            result.channel.spec_reserved() == 0,
    {
        Session { state: SessionState::Start, channel: PushChannel::new(channel_capacity) }
    }

    /// The begin-test signal. Returns whether the test was started by this
    /// call; a repeated or misplaced signal reports `false` and changes
    /// nothing, so a test is started at most once per session.
    pub fn begin_test(&mut self, now_micros: u64) -> (started: bool)
        ensures
            final(self).channel == old(self).channel,
            final(self).state == spec_begin(old(self).state, now_micros),
            started <==> old(self).state is Start,
    {
        match self.state {
            SessionState::Start => {
                self.state = SessionState::Downloading {
                    start_micros: now_micros,
                    counter: 0,
                    bandwidth_average: 0,
                    bandwidth_total_weight: 0,
                    latency_average: 0,
                    latency_total_weight: 0,
                };
                true
            },
            _ => false,
        }
    }

    /// Feeds one completed download chunk: `size` bytes transferred over
    /// `elapsed_micros`, reported at `now_micros` under sequence number
    /// `seq`. While downloading, returns the accumulators for a progress
    /// fragment, updated unless the sample was stale; otherwise `None`.
    pub fn report_chunk(&mut self, seq: u64, elapsed_micros: u64, size: u64, now_micros: u64) -> (result:
        Option<ChunkStats>)
        requires
            elapsed_micros > 0,
        ensures
            final(self).channel == old(self).channel,
            final(self).state == spec_chunk(old(self).state, seq, elapsed_micros, size, now_micros),
            result is Some <==> old(self).state is Downloading,
            result matches Some(stats) ==> {
                &&& stats.bandwidth_average == spec_bandwidth_average(final(self).state)
                &&& stats.latency_average == spec_latency_average(final(self).state)
                &&& stats.start_micros == spec_start_micros(final(self).state)
            },
    {
        match self.state {
            SessionState::Downloading {
                start_micros,
                counter,
                bandwidth_average,
                bandwidth_total_weight,
                latency_average,
                latency_total_weight,
            } => {
                if seq >= counter {
                    let since_start: u64 = if now_micros >= start_micros {
                        now_micros - start_micros
                    } else {
                        0
                    };
                    let x: u128 = match calculate_bps(elapsed_micros, size) {
                        Some(v) => v,
                        None => 0,
                    };
                    let wx: u128 = calculate_bandwidth_weight(since_start, size);
                    let folded: (u128, u128) = match checked_average_update(
                        bandwidth_average,
                        bandwidth_total_weight,
                        x,
                        wx,
                    ) {
                        Some(pair) => pair,
                        None => (bandwidth_average, bandwidth_total_weight),
                    };
                    self.state = SessionState::Downloading {
                        start_micros,
                        counter: seq,
                        bandwidth_average: folded.0,
                        bandwidth_total_weight: folded.1,
                        latency_average,
                        latency_total_weight,
                    };
                    Some(
                        ChunkStats {
                            bandwidth_average: folded.0,
                            latency_average,
                            start_micros,
                        },
                    )
                } else {
                    Some(
                        ChunkStats {
                            bandwidth_average,
                            latency_average,
                            start_micros,
                        },
                    )
                }
            },
            _ => None,
        }
    }

    /// Feeds one client-reported round trip: the client's timestamp
    /// (microseconds since the test began, as the client saw it when it
    /// sent the request) against the session clock at `now_micros`, under
    /// sequence number `seq`. No direct response: the updated latency
    /// average surfaces in the next progress fragment.
    pub fn report_round_trip(&mut self, seq: u64, client_ts_micros: u64, now_micros: u64)
        ensures
            final(self).channel == old(self).channel,
            final(self).state == spec_round_trip(old(self).state, seq, client_ts_micros, now_micros),
    {
        match self.state {
            SessionState::Downloading {
                start_micros,
                counter,
                bandwidth_average,
                bandwidth_total_weight,
                latency_average,
                latency_total_weight,
            } => {
                if seq >= counter && now_micros >= start_micros && now_micros - start_micros
                    >= client_ts_micros {
                    let round_trip: u64 = now_micros - start_micros - client_ts_micros;
                    let sample: u128 = latency_sample(round_trip) as u128;
                    let folded: (u128, u128) = match checked_average_update(
                        latency_average,
                        latency_total_weight,
                        sample,
                        1,
                    ) {
                        Some(pair) => pair,
                        None => (latency_average, latency_total_weight),
                    };
                    self.state = SessionState::Downloading {
                        start_micros,
                        counter: seq,
                        bandwidth_average,
                        bandwidth_total_weight,
                        latency_average: folded.0,
                        latency_total_weight: folded.1,
                    };
                }
            },
            _ => {},
        }
    }

    /// The stop signal, from the test timer or an explicit stop, whichever
    /// comes first. From `Downloading`, freezes the accumulators and
    /// returns them; any later call is a no-op returning `None`.
    pub fn finalize(&mut self) -> (result: Option<FrozenStats>)
        ensures
            final(self).channel == old(self).channel,
            final(self).state == spec_finalize(old(self).state),
            result is Some <==> old(self).state is Downloading,
            result matches Some(stats) ==> {
                &&& stats.bandwidth_average == spec_bandwidth_average(old(self).state)
                &&& stats.latency_average == spec_latency_average(old(self).state)
            },
    {
        match self.state {
            SessionState::Downloading { bandwidth_average, latency_average, .. } => {
                self.state = SessionState::Ended { bandwidth_average, latency_average };
                Some(FrozenStats { bandwidth_average, latency_average })
            },
            _ => None,
        }
    }

    /// Enqueues the end-of-stream sentinel, valid only from `Ended`.
    /// Never changes the phase; reports what happened so the caller can
    /// retry a full channel after the consumer drains it.
    pub fn finish(&mut self) -> (result: FinishOutcome)
        requires
            old(self).wf(),
        ensures
            final(self).wf(),
            final(self).state == old(self).state,
            final(self).channel.spec_capacity() == old(self).channel.spec_capacity(),
            final(self).channel.spec_reserved() == old(self).channel.spec_reserved(),
            result is NotEnded <==> !(old(self).state is Ended),
            result is Queued <==> old(self).state is Ended && old(self).channel.occupancy() < old(
                self,
            ).channel.spec_capacity(),
            result is Queued ==> final(self).channel.messages() == old(
                self,
            ).channel.messages().push(Seq::<u8>::empty()),
            !(result is Queued) ==> final(self).channel.messages() == old(self).channel.messages(),
    {
        match self.state {
            SessionState::Ended { .. } => {
                if self.channel.try_finish() {
                    FinishOutcome::Queued
                } else {
                    FinishOutcome::ChannelFull
                }
            },
            _ => FinishOutcome::NotEnded,
        }
    }
}

/// Phase order of the one-way state machine.
pub open spec fn spec_phase(st: SessionState) -> int {
    match st {
        SessionState::Start => 0,
        SessionState::Downloading { .. } => 1,
        SessionState::Ended { .. } => 2,
    }
}

/// Law: the begin-test signal takes effect exactly once. From `Start` it
/// enters `Downloading`; from any other phase it changes nothing; and a
/// second signal after a first one never changes the state again.
pub proof fn lemma_begin_test_exactly_once(st: SessionState, t1: u64, t2: u64)
    ensures
        st is Start ==> spec_begin(st, t1) is Downloading,
        !(st is Start) ==> spec_begin(st, t1) == st,
        spec_begin(spec_begin(st, t1), t2) == spec_begin(st, t1),
{
}

/// Law: the stop transition is idempotent. On a session already in
/// `Ended` it changes nothing, so the frozen snapshot is never altered,
/// and stopping twice equals stopping once.
pub proof fn lemma_finalize_idempotent(st: SessionState)
    ensures
        st is Ended ==> spec_finalize(st) == st,
        spec_finalize(spec_finalize(st)) == spec_finalize(st),
{
}

/// Law: a sample whose sequence number is strictly below the last
/// accepted one leaves the session, and so both accumulators, unchanged.
pub proof fn lemma_stale_sample_ignored(
    st: SessionState,
    seq: u64,
    elapsed_micros: u64,
    size: u64,
    client_ts_micros: u64,
    now_micros: u64,
)
    requires
        st is Downloading,
        seq < spec_counter(st),
    ensures
        spec_chunk(st, seq, elapsed_micros, size, now_micros) == st,
        spec_round_trip(st, seq, client_ts_micros, now_micros) == st,
{
}

/// Law: no transition moves the phase backwards; the state machine is
/// monotonic along `Start -> Downloading -> Ended`.
pub proof fn lemma_phases_monotonic(
    st: SessionState,
    seq: u64,
    elapsed_micros: u64,
    size: u64,
    client_ts_micros: u64,
    now_micros: u64,
)
    ensures
        spec_phase(spec_begin(st, now_micros)) >= spec_phase(st),
        spec_phase(spec_chunk(st, seq, elapsed_micros, size, now_micros)) == spec_phase(st),
        spec_phase(spec_round_trip(st, seq, client_ts_micros, now_micros)) == spec_phase(st),
        spec_phase(spec_finalize(st)) >= spec_phase(st),
{
}

} // verus!

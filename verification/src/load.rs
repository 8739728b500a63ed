//! The load phase: one endless, independently paced request stream per URL.
//!
//! A stream repeats: note the time, send the request, judge the response,
//! count it, and wait until the time noted plus the pacing interval has
//! passed. The program that drives the stream sends and sleeps; what to do
//! after each response is decided here.

use crate::fault::{fault_from, fault_of, Fault};
use crate::stage::Stage;
use crate::verdict::{judge, verdict_of, TransportFault, Verdict};
use vstd::prelude::*;

verus! {

/// From this rate upwards a stream is not slowed down: a millisecond is the
/// finest interval the pacing works with.
pub const RPS_CEILING: u32 = 1000;

/// The pacing interval in milliseconds for a target rate, or `None` where the
/// stream runs as fast as the transport allows.
pub open spec fn pacing(rps: u32) -> Option<u64> {
    if rps >= RPS_CEILING {
        None
    } else {
        Some((1000int / (rps as int)) as u64)
    }
}

/// The pacing interval in milliseconds for a target rate: the whole
/// milliseconds in a second divided by the rate, and none at all from
/// `RPS_CEILING` upwards.
pub fn throttle_delay(rps: u32) -> (delay: Option<u64>)
    requires
        rps >= 1,
    ensures
        delay == pacing(rps),
        delay is None <==> rps >= RPS_CEILING,
        delay matches Some(ms) ==> 1 <= ms <= 1000 && ms * rps <= 1000 < (ms + 1) * rps,
{
    if rps < RPS_CEILING {
        let ms: u64 = 1000 / (rps as u64);
        assert(1 <= ms <= 1000 && ms * rps <= 1000 < (ms + 1) * rps) by (nonlinear_arith)
            requires
                1 <= rps < 1000,
                ms == 1000int / (rps as int),
        ;
        Some(ms)
    } else {
        None
    }
}

/// When a stream may start its next iteration.
#[derive(Clone, Copy, Debug, PartialEq, Eq, Structural)]
pub enum Pace {
    /// Never: the run was cancelled.
    Stop,
    /// At once.
    Immediately,
    /// Not before `delay_ms` milliseconds have passed since the iteration
    /// that just ended was started.
    After { delay_ms: u64 },
}

/// What a stream does after a response.
#[derive(Clone, Copy, Debug, PartialEq, Eq, Structural)]
pub enum LoopStep {
    /// The response was the expected one: it is counted once, and the stream
    /// goes on as the pace says.
    Counted(Pace),
    /// The response was not the expected one or never came. Nothing is
    /// counted and the run ends.
    Failed(Fault),
}

/// The pace after a counted response.
pub open spec fn pace_after(rps: u32, cancelled: bool) -> Pace {
    if cancelled {
        Pace::Stop
    } else {
        match pacing(rps) {
            None => Pace::Immediately,
            Some(delay_ms) => Pace::After { delay_ms },
        }
    }
}

/// What the stream for the URL at `url_index` does after a response with the
/// given verdict.
pub open spec fn loop_step(verdict: Verdict, url_index: usize, rps: u32, cancelled: bool) -> LoopStep {
    match fault_of(Stage::Load, url_index, verdict) {
        Some(fault) => LoopStep::Failed(fault),
        None => LoopStep::Counted(pace_after(rps, cancelled)),
    }
}

/// The load stream of one URL.
#[derive(Debug)]
pub struct LoadLoop {
    /// The position of the URL among the configured ones.
    pub url_index: usize,
    /// The URL that is requested over and over.
    pub url: String,
    /// The body that every response must carry.
    pub expected: String,
    /// The rate the stream aims for.
    pub rps: u32,
}

impl LoadLoop {
    /// A stream has a positive target rate.
    pub open spec fn wf(&self) -> bool {
        self.rps >= 1
    }

    /// Decides what follows a response. The cancellation flag is looked at
    /// once per iteration, after the response has been counted and before
    /// any pause.
    pub fn on_response(&self, outcome: &Result<String, TransportFault>, cancelled: bool) -> (step:
        LoopStep)
        requires
            self.wf(),
        ensures
            step == loop_step(verdict_of(*outcome, self.expected@), self.url_index, self.rps, cancelled),
            step is Counted <==> (outcome matches Ok(body) && body@ == self.expected@),
    {
        let verdict = judge(outcome, self.expected.as_str());
        match fault_from(Stage::Load, self.url_index, verdict) {
            Some(fault) => LoopStep::Failed(fault),
            None => {
                if cancelled {
                    LoopStep::Counted(Pace::Stop)
                } else {
                    match throttle_delay(self.rps) {
                        None => LoopStep::Counted(Pace::Immediately),
                        Some(delay_ms) => LoopStep::Counted(Pace::After { delay_ms }),
                    }
                }
            },
        }
    }
}

/// The times, in milliseconds, at which a stream started its iterations obey
/// the pacing for `rps`: no iteration starts before the one before it plus
/// the interval. Above the ceiling nothing is asked of them.
pub open spec fn paced(starts: Seq<int>, rps: u32) -> bool {
    pacing(rps) matches Some(delay_ms) ==> forall|i: int|
        0 <= i < starts.len() - 1 ==> #[trigger] starts[i + 1] >= starts[i] + delay_ms
}

/// The number of iterations that all the streams started together.
pub open spec fn total_started(streams: Seq<Seq<int>>) -> nat
    decreases streams.len(),
{
    if streams.len() == 0 {
        0
    } else {
        total_started(streams.drop_last()) + streams.last().len()
    }
}

/// A paced stream needs at least one interval per iteration after the first.
pub proof fn paced_span(starts: Seq<int>, rps: u32)
    requires
        1 <= rps < RPS_CEILING,
        paced(starts, rps),
        starts.len() >= 1,
    ensures
        starts.last() - starts[0] >= (starts.len() - 1) * pacing(rps).unwrap(),
    decreases starts.len(),
{
    let delay = pacing(rps).unwrap() as int;
    if starts.len() >= 2 {
        let head = starts.drop_last();
        assert forall|i: int| 0 <= i < head.len() - 1 implies #[trigger] head[i + 1] >= head[i]
            + delay by {
            assert(starts[i + 1] >= starts[i] + delay);
        }
        paced_span(head, rps);
        let n = starts.len() as int;
        assert(starts[(n - 2) + 1] >= starts[n - 2] + delay);
        assert(head.last() == starts[n - 2]);
        assert((n - 1) * delay == (n - 2) * delay + delay) by (nonlinear_arith);
    } else {
        assert((starts.len() - 1) * delay == 0) by (nonlinear_arith)
            requires
                starts.len() == 1,
        ;
    }
}

/// Throttling holds a stream to its rate: the iterations that a paced stream
/// starts within a window of `window_ms` milliseconds number at most the
/// intervals that fit into the window, rounded up. At a target of 10 per
/// second that is 10 in any one second.
pub proof fn throttled_stream_is_bounded(starts: Seq<int>, rps: u32, window_ms: int)
    requires
        1 <= rps < RPS_CEILING,
        paced(starts, rps),
        starts.len() >= 1,
        starts.last() - starts[0] < window_ms,
    ensures
        (starts.len() - 1) * pacing(rps).unwrap() < window_ms,
        starts.len() <= (window_ms + pacing(rps).unwrap() - 1) / (pacing(rps).unwrap() as int),
{
    paced_span(starts, rps);
    let delay = pacing(rps).unwrap() as int;
    let n = starts.len() as int;
    assert(delay >= 1 && delay == 1000int / (rps as int)) by (nonlinear_arith)
        requires
            1 <= rps < 1000,
            delay == 1000int / (rps as int),
    ;
    assert(n <= (window_ms + delay - 1) / delay) by (nonlinear_arith)
        requires
            (n - 1) * delay < window_ms,
            delay >= 1,
    ;
}

/// Where the rate divides a second evenly, a paced stream starts at most
/// `rps * seconds` iterations within `seconds` seconds.
pub proof fn throttled_stream_meets_rate(starts: Seq<int>, rps: u32, seconds: nat)
    requires
        1 <= rps < RPS_CEILING,
        1000int % (rps as int) == 0,
        paced(starts, rps),
        starts.len() >= 1 ==> starts.last() - starts[0] < 1000 * seconds,
    ensures
        starts.len() <= rps * seconds,
{
    if starts.len() >= 1 {
        paced_span(starts, rps);
        let delay = pacing(rps).unwrap() as int;
        let n = starts.len() as int;
        assert(n <= rps * seconds) by (nonlinear_arith)
            requires
                (n - 1) * delay < 1000 * seconds,
                delay == 1000int / (rps as int),
                1000int % (rps as int) == 0,
                1 <= rps < 1000,
                n >= 1,
        ;
    } else {
        assert(0 <= rps * seconds) by (nonlinear_arith)
            requires
                rps >= 0,
                seconds >= 0,
        ;
    }
}

/// The counter's ceiling: streams for `streams.len()` URLs, each paced at a
/// rate that divides a second evenly and each watched for `seconds` seconds
/// from its first iteration, start no more than `K * rps * seconds`
/// iterations between them, and so count no more responses than that.
pub proof fn paced_streams_are_bounded(streams: Seq<Seq<int>>, rps: u32, seconds: nat)
    requires
        1 <= rps < RPS_CEILING,
        1000int % (rps as int) == 0,
        seconds >= 1,
        forall|k: int| 0 <= k < streams.len() ==> paced(#[trigger] streams[k], rps),
        forall|k: int|
            0 <= k < streams.len() && (#[trigger] streams[k]).len() >= 1 ==> streams[k].last()
                - streams[k][0] < 1000 * seconds,
    ensures
        total_started(streams) <= streams.len() * (rps * seconds),
    decreases streams.len(),
{
    if streams.len() > 0 {
        let head = streams.drop_last();
        assert forall|k: int| 0 <= k < head.len() implies paced(#[trigger] head[k], rps) by {
            assert(head[k] == streams[k]);
        }
        assert forall|k: int| 0 <= k < head.len() && (#[trigger] head[k]).len() >= 1 implies head[k].last()
            - head[k][0] < 1000 * seconds by {
            assert(head[k] == streams[k]);
        }
        paced_streams_are_bounded(head, rps, seconds);
        throttled_stream_meets_rate(streams.last(), rps, seconds);
        let k = streams.len() as int;
        let per = rps * seconds;
        assert(k * per == (k - 1) * per + per) by (nonlinear_arith);
    } else {
        assert(streams.len() * (rps * seconds) == 0) by (nonlinear_arith)
            requires
                streams.len() == 0,
        ;
    }
}

/// From the ceiling upwards nothing holds a stream back: there is no
/// interval, a counted response is followed by the next request at once, and
/// any series of starting times is in order.
pub proof fn ceiling_lifts_the_throttle(rps: u32, url_index: usize, starts: Seq<int>)
    requires
        rps >= RPS_CEILING,
    ensures
        pacing(rps) is None,
        loop_step(Verdict::Match, url_index, rps, false) == LoopStep::Counted(Pace::Immediately),
        paced(starts, rps),
{
}

/// Below the ceiling a counted response is followed by a pause that lasts
/// until one interval after the iteration's start.
pub proof fn throttle_paces_the_stream(rps: u32, url_index: usize)
    requires
        1 <= rps < RPS_CEILING,
    ensures
        loop_step(Verdict::Match, url_index, rps, false) == LoopStep::Counted(
            Pace::After { delay_ms: (1000int / (rps as int)) as u64 },
        ),
        1 <= 1000int / (rps as int) <= 1000,
{
    assert(1 <= 1000int / (rps as int) <= 1000) by (nonlinear_arith)
        requires
            1 <= rps < 1000,
    ;
}

/// The stream is as fast as the pacing lets it be: every iteration starts
/// exactly one interval after the one before it, as it does when responses
/// come in less than an interval.
pub open spec fn on_time(starts: Seq<int>, rps: u32) -> bool {
    pacing(rps) matches Some(delay_ms) ==> forall|i: int|
        0 <= i < starts.len() - 1 ==> #[trigger] starts[i + 1] == starts[i] + delay_ms
}

/// A stream that is on time takes exactly one interval per iteration after
/// the first.
pub proof fn on_time_span(starts: Seq<int>, rps: u32)
    requires
        1 <= rps < RPS_CEILING,
        on_time(starts, rps),
        starts.len() >= 1,
    ensures
        starts.last() - starts[0] == (starts.len() - 1) * pacing(rps).unwrap(),
        paced(starts, rps),
    decreases starts.len(),
{
    let delay = pacing(rps).unwrap() as int;
    assert forall|i: int| 0 <= i < starts.len() - 1 implies #[trigger] starts[i + 1] >= starts[i]
        + delay by {
        assert(starts[i + 1] == starts[i] + delay);
    }
    if starts.len() >= 2 {
        let head = starts.drop_last();
        assert forall|i: int| 0 <= i < head.len() - 1 implies #[trigger] head[i + 1] == head[i]
            + delay by {
            assert(starts[i + 1] == starts[i] + delay);
        }
        on_time_span(head, rps);
        let n = starts.len() as int;
        assert(starts[(n - 2) + 1] == starts[n - 2] + delay);
        assert(head.last() == starts[n - 2]);
        assert((n - 1) * delay == (n - 2) * delay + delay) by (nonlinear_arith);
    } else {
        assert((starts.len() - 1) * delay == 0) by (nonlinear_arith)
            requires
                starts.len() == 1,
        ;
    }
}

/// The ceiling of `throttled_stream_meets_rate` is reached: a stream that is
/// on time, at a rate that divides a second evenly, starts exactly
/// `rps * seconds` iterations in `seconds` seconds. At 5 per second that is
/// 15 in three seconds.
pub proof fn prompt_stream_meets_rate_exactly(starts: Seq<int>, rps: u32, seconds: nat)
    requires
        1 <= rps < RPS_CEILING,
        1000int % (rps as int) == 0,
        on_time(starts, rps),
        starts.len() >= 1,
        starts.last() - starts[0] < 1000 * seconds,
        1000 * seconds <= starts.last() + pacing(rps).unwrap() - starts[0],
    ensures
        starts.len() == rps * seconds,
{
    on_time_span(starts, rps);
    let delay = pacing(rps).unwrap() as int;
    let n = starts.len() as int;
    assert(n * delay == (n - 1) * delay + delay) by (nonlinear_arith);
    assert(n == rps * seconds) by (nonlinear_arith)
        requires
            (n - 1) * delay < 1000 * seconds,
            1000 * seconds <= n * delay,
            delay == 1000int / (rps as int),
            1000int % (rps as int) == 0,
            1 <= rps < 1000,
            n >= 1,
    ;
}

/// The counter's value in the best case: streams for `streams.len()` URLs,
/// all on time at a rate that divides a second evenly and each watched for
/// `seconds` seconds, start exactly `K * rps * seconds` iterations between
/// them.
pub proof fn prompt_streams_count_exactly(streams: Seq<Seq<int>>, rps: u32, seconds: nat)
    requires
        1 <= rps < RPS_CEILING,
        1000int % (rps as int) == 0,
        forall|k: int|
            0 <= k < streams.len() ==> {
                &&& on_time(#[trigger] streams[k], rps)
                &&& streams[k].len() >= 1
                &&& streams[k].last() - streams[k][0] < 1000 * seconds
                &&& 1000 * seconds <= streams[k].last() + pacing(rps).unwrap() - streams[k][0]
            },
    ensures
        total_started(streams) == streams.len() * (rps * seconds),
    decreases streams.len(),
{
    if streams.len() > 0 {
        let head = streams.drop_last();
        assert forall|k: int| 0 <= k < head.len() implies {
            &&& on_time(#[trigger] head[k], rps)
            &&& head[k].len() >= 1
            &&& head[k].last() - head[k][0] < 1000 * seconds
            &&& 1000 * seconds <= head[k].last() + pacing(rps).unwrap() - head[k][0]
        } by {
            assert(head[k] == streams[k]);
        }
        prompt_streams_count_exactly(head, rps, seconds);
        assert(streams.last() == streams[streams.len() - 1]);
        prompt_stream_meets_rate_exactly(streams.last(), rps, seconds);
        let k = streams.len() as int;
        let per = rps * seconds;
        assert(k * per == (k - 1) * per + per) by (nonlinear_arith);
    } else {
        assert(streams.len() * (rps * seconds) == 0) by (nonlinear_arith)
            requires
                streams.len() == 0,
        ;
    }
}

} // verus!

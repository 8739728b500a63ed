//! The run as a whole: baseline, correctness check, load, report.
//!
//! The run is a machine that is fed events and answers each with what is to
//! be done next. The program that drives it performs that action (a fetch, a
//! batch of requests, the wait for the cancellation signal) and comes back
//! with the event that describes how it went. Every decision is taken here.

use crate::args::{texts, Args};
use crate::baseline::{pairs, UrlTestCase};
use crate::correctness::{batch_fault, judge_batch, summary_line, summary_text};
use crate::fault::{Fault, SetupFault};
use crate::load::LoadLoop;
use crate::report::{report_lines, report_text};
use crate::stage::Stage;
use crate::verdict::TransportFault;
use vstd::prelude::*;

verus! {

/// What the driving program reports back to the run.
#[derive(Debug)]
pub enum Event {
    /// The run is to begin.
    Start,
    /// The direct fetch that was asked for has ended.
    DirectResponse(Result<String, TransportFault>),
    /// All requests of the batch that was asked for have ended; one entry
    /// per request.
    ProxiedResponses(Vec<Result<String, TransportFault>>),
    /// The handle for the proxy could not be made.
    SetupFailed(SetupFault),
    /// Every load stream has been started.
    LoopsLaunched,
    /// A load stream has ended with a fault.
    LoopFailed(Fault),
    /// The cancellation signal has arrived.
    Cancelled,
    /// The time since the load streams were started, in milliseconds, and
    /// the number of responses they have counted.
    Readings { elapsed_ms: u64, count: u64 },
}

/// What the driving program is to do next.
#[derive(Clone, Copy, Debug, PartialEq, Eq, Structural)]
pub enum Action {
    /// Fetch the URL at `url_index` directly, without the proxy, and report
    /// a `DirectResponse`.
    FetchDirect { url_index: usize },
    /// Make a fresh handle for the proxy at `port`, send `clients` requests
    /// for the URL at `url_index` through it at once, wait for all of them
    /// and report `ProxiedResponses`.
    FanOut { url_index: usize, port: u16, clients: u32 },
    /// Make a handle for the proxy at `port`, start one load stream per URL
    /// at `rps` requests per second and report `LoopsLaunched`.
    LaunchLoops { port: u16, rps: u32 },
    /// Wait for the cancellation signal and report `Cancelled`, or
    /// `LoopFailed` if a stream fails first.
    AwaitCancellation,
    /// Read the clock and the counter and report `Readings`.
    TakeReadings,
    /// The run is over; stop.
    Halt,
    /// The run has failed; stop at once with this fault.
    Abort(Fault),
    /// The event was not one the run was waiting for. Nothing has changed.
    Ignore,
}

/// The answer to an event: lines to print, and then an action.
#[derive(Debug)]
pub struct Directive {
    /// Lines for standard output, in order.
    pub print: Vec<String>,
    /// What to do once they are printed.
    pub action: Action,
}

/// All that a run knows, as plain values.
pub struct RunState {
    /// The configured URLs, in order.
    pub urls: Seq<Seq<char>>,
    /// The configured rate.
    pub rps: u32,
    /// The configured proxy port.
    pub port: u16,
    /// The configured fan-out.
    pub clients: u32,
    /// Where the run stands.
    pub stage: Stage,
    /// The baseline so far: URL and expected body, in the order of `urls`.
    pub cases: Seq<(Seq<char>, Seq<char>)>,
    /// The number of URLs that the correctness phase has passed.
    pub cursor: nat,
    /// The fault that ended the run, if one did.
    pub failure: Option<Fault>,
}

/// A state together with the answer that led to it.
pub struct Outcome {
    /// The state after the event.
    pub state: RunState,
    /// The lines to print.
    pub print: Seq<Seq<char>>,
    /// The action to take.
    pub action: Action,
}

impl RunState {
    /// What holds of every state that a run can be in.
    pub open spec fn wf(self) -> bool {
        &&& 1 <= self.urls.len() <= usize::MAX
        &&& self.rps >= 1
        &&& self.clients >= 1
        &&& self.cases.len() <= self.urls.len()
        &&& forall|i: int| 0 <= i < self.cases.len() ==> (#[trigger] self.cases[i]).0 == self.urls[i]
        &&& self.cursor <= self.urls.len()
        &&& (self.stage == Stage::Idle ==> self.cases.len() == 0)
        &&& (self.stage == Stage::Baseline ==> self.cases.len() < self.urls.len())
        &&& (self.stage == Stage::Correctness ==> self.cursor < self.urls.len())
        &&& (self.stage.rank() >= 2 && self.failure is None ==> self.cases.len() == self.urls.len())
        &&& (self.failure is Some ==> self.stage == Stage::Terminated)
    }

    /// The state in which the run has ended with `fault`.
    pub open spec fn failed(self, fault: Fault) -> Outcome {
        Outcome {
            state: RunState { stage: Stage::Terminated, failure: Some(fault), ..self },
            print: Seq::empty(),
            action: Action::Abort(fault),
        }
    }

    /// The state in `stage`, with nothing to print and `action` to do.
    pub open spec fn onward(self, stage: Stage, action: Action) -> Outcome {
        Outcome { state: RunState { stage, ..self }, print: Seq::empty(), action }
    }

    /// The answer to an event that the run was not waiting for.
    pub open spec fn ignored(self) -> Outcome {
        Outcome { state: self, print: Seq::empty(), action: Action::Ignore }
    }
}

/// The state of a run that has not begun.
pub open spec fn initial(urls: Seq<Seq<char>>, rps: u32, port: u16, clients: u32) -> RunState {
    RunState {
        urls,
        rps,
        port,
        clients,
        stage: Stage::Idle,
        cases: Seq::empty(),
        cursor: 0,
        failure: None,
    }
}

/// The answer to the end of a direct fetch. A body becomes the expected
/// body of the next URL; when it was the last URL the correctness phase
/// begins. A fetch that failed ends the run.
pub open spec fn on_direct_response(s: RunState, response: Result<String, TransportFault>) -> Outcome {
    match response {
        Err(fault) => s.failed(
            Fault::Transport { stage: Stage::Baseline, url_index: s.cases.len() as usize, fault },
        ),
        Ok(body) => {
            let cases = s.cases.push((s.urls[s.cases.len() as int], body@));
            if cases.len() < s.urls.len() {
                RunState { cases, ..s }.onward(
                    Stage::Baseline,
                    Action::FetchDirect { url_index: cases.len() as usize },
                )
            } else {
                RunState { cases, cursor: 0, ..s }.onward(
                    Stage::Correctness,
                    Action::FanOut { url_index: 0, port: s.port, clients: s.clients },
                )
            }
        },
    }
}

/// The answer to the end of a batch. The first response that is not the
/// expected body ends the run. A batch that passed is followed by the batch
/// for the next URL, and the last one by the summary line and the load
/// phase.
pub open spec fn on_proxied_responses(s: RunState, responses: Seq<Result<String, TransportFault>>) -> Outcome {
    match batch_fault(responses, s.cases[s.cursor as int].1, s.cursor as usize) {
        Some(fault) => s.failed(fault),
        None => if s.cursor + 1 < s.urls.len() {
            RunState { cursor: s.cursor + 1, ..s }.onward(
                Stage::Correctness,
                Action::FanOut {
                    url_index: (s.cursor + 1) as usize,
                    port: s.port,
                    clients: s.clients,
                },
            )
        } else {
            Outcome {
                state: RunState { stage: Stage::Load, cursor: s.urls.len(), ..s },
                print: seq![summary_text(s.clients as nat, s.urls.len())],
                action: Action::LaunchLoops { port: s.port, rps: s.rps },
            }
        },
    }
}

/// The answer of a run in state `s` to `event`, and the state it is in
/// afterwards. An event is taken only in the stage that waits for it; any
/// other changes nothing.
pub open spec fn transition(s: RunState, event: Event) -> Outcome {
    match (s.stage, event) {
        (Stage::Idle, Event::Start) => s.onward(Stage::Baseline, Action::FetchDirect { url_index: 0 }),
        (Stage::Baseline, Event::DirectResponse(response)) => on_direct_response(s, response),
        (Stage::Correctness, Event::ProxiedResponses(responses)) => if responses@.len()
            == s.clients {
            on_proxied_responses(s, responses@)
        } else {
            s.ignored()
        },
        (Stage::Correctness, Event::SetupFailed(fault)) => s.failed(Fault::Setup(fault)),
        (Stage::Load, Event::SetupFailed(fault)) => s.failed(Fault::Setup(fault)),
        (Stage::Load, Event::LoopsLaunched) => s.onward(
            Stage::AwaitingCancellation,
            Action::AwaitCancellation,
        ),
        (Stage::AwaitingCancellation, Event::LoopFailed(fault)) => s.failed(fault),
        (Stage::AwaitingCancellation, Event::Cancelled) => s.onward(
            Stage::Reporting,
            Action::TakeReadings,
        ),
        (Stage::Reporting, Event::Readings { elapsed_ms, count }) => Outcome {
            state: RunState { stage: Stage::Terminated, ..s },
            print: report_text(s.urls, elapsed_ms, count),
            action: Action::Halt,
        },
        _ => s.ignored(),
    }
}

/// The state of a run after a series of events.
pub open spec fn after(s: RunState, events: Seq<Event>) -> RunState
    decreases events.len(),
{
    if events.len() == 0 {
        s
    } else {
        transition(after(s, events.drop_last()), events.last()).state
    }
}

/// A run of the exerciser.
pub struct Run {
    args: Args,
    stage: Stage,
    cases: Vec<UrlTestCase>,
    cursor: usize,
    failure: Option<Fault>,
}

impl View for Run {
    type V = RunState;

    closed spec fn view(&self) -> RunState {
        RunState {
            urls: texts(self.args.urls@),
            rps: self.args.rps,
            port: self.args.port,
            clients: self.args.clients,
            stage: self.stage,
            cases: pairs(self.cases@),
            cursor: self.cursor as nat,
            failure: self.failure,
        }
    }
}

impl Run {
    #[verifier::type_invariant]
    closed spec fn inv(self) -> bool {
        self@.wf()
    }

    /// A run that has not begun.
    pub fn new(args: Args) -> (run: Run)
        requires
            args.wf(),
        ensures
            run@ == initial(texts(args.urls@), args.rps, args.port, args.clients),
            run@.wf(),
    {
        let cases: Vec<UrlTestCase> = Vec::new();
        proof {
            assert(pairs(cases@) =~= Seq::empty());
            assert(texts(args.urls@).len() == args.urls.len());
        }
        Run { args, stage: Stage::Idle, cases, cursor: 0, failure: None }
    }

    /// Where the run stands.
    pub fn stage(&self) -> (stage: Stage)
        ensures
            stage == self@.stage,
    {
        self.stage
    }

    /// The fault that ended the run, if one did.
    pub fn failure(&self) -> (failure: Option<Fault>)
        ensures
            failure == self@.failure,
            self@.wf(),
    {
        proof {
            use_type_invariant(self);
        }
        self.failure
    }

    /// The configuration of the run.
    pub fn args(&self) -> (args: &Args)
        ensures
            args.wf(),
            texts(args.urls@) == self@.urls,
            args.rps == self@.rps,
            args.port == self@.port,
            args.clients == self@.clients,
    {
        proof {
            use_type_invariant(self);
        }
        &self.args
    }

    /// The baseline as far as it has been captured.
    pub fn cases(&self) -> (cases: &Vec<UrlTestCase>)
        ensures
            pairs(cases@) == self@.cases,
    {
        &self.cases
    }

    /// One load stream for each case of the baseline, in order.
    pub fn load_loops(&self) -> (loops: Vec<LoadLoop>)
        ensures
            loops@.len() == self@.cases.len(),
            forall|i: int|
                0 <= i < loops@.len() ==> {
                    &&& (#[trigger] loops@[i]).url_index == i
                    &&& loops@[i].url@ == self@.cases[i].0
                    &&& loops@[i].expected@ == self@.cases[i].1
                    &&& loops@[i].rps == self@.rps
                    &&& loops@[i].wf()
                },
    {
        proof {
            use_type_invariant(self);
        }
        let mut loops: Vec<LoadLoop> = Vec::new();
        let mut i: usize = 0;
        while i < self.cases.len()
            invariant
                i <= self.cases@.len(),
                loops@.len() == i,
                self.args.rps >= 1,
                forall|k: int|
                    0 <= k < i ==> {
                        &&& (#[trigger] loops@[k]).url_index == k
                        &&& loops@[k].url@ == self.cases@[k].url@
                        &&& loops@[k].expected@ == self.cases@[k].expected@
                        &&& loops@[k].rps == self.args.rps
                    },
            decreases self.cases@.len() - i,
        {
            let case = &self.cases[i];
            loops.push(
                LoadLoop {
                    url_index: i,
                    url: case.url.clone(),
                    expected: case.expected.clone(),
                    rps: self.args.rps,
                },
            );
            i += 1;
        }
        loops
    }

    /// The run in the state in which `fault` has ended it.
    fn fail(self, fault: Fault) -> (next: (Run, Directive))
        ensures
            next.0@ == self@.failed(fault).state,
            texts(next.1.print@) == self@.failed(fault).print,
            next.1.action == self@.failed(fault).action,
    {
        proof {
            use_type_invariant(&self);
        }
        let Run { args, stage: _, cases, cursor, failure: _ } = self;
        let run = Run { args, stage: Stage::Terminated, cases, cursor, failure: Some(fault) };
        let print: Vec<String> = Vec::new();
        assert(texts(print@) =~= Seq::empty());
        (run, Directive { print, action: Action::Abort(fault) })
    }

    /// The run in `stage`, with nothing to print and `action` to do.
    fn go(self, stage: Stage, cursor: usize, action: Action) -> (next: (Run, Directive))
        requires
            (RunState { cursor: cursor as nat, ..self@ }).onward(stage, action).state.wf(),
        ensures
            next.0@ == (RunState { cursor: cursor as nat, ..self@ }).onward(stage, action).state,
            texts(next.1.print@) == Seq::<Seq<char>>::empty(),
            next.1.action == action,
    {
        let Run { args, stage: _, cases, cursor: _, failure } = self;
        let run = Run { args, stage, cases, cursor, failure };
        let print: Vec<String> = Vec::new();
        assert(texts(print@) =~= Seq::empty());
        (run, Directive { print, action })
    }

    /// The run unchanged, with the answer to an event it was not waiting for.
    fn ignore(self) -> (next: (Run, Directive))
        ensures
            next.0@ == self@.ignored().state,
            texts(next.1.print@) == self@.ignored().print,
            next.1.action == self@.ignored().action,
    {
        let print: Vec<String> = Vec::new();
        assert(texts(print@) =~= Seq::empty());
        (self, Directive { print, action: Action::Ignore })
    }

    /// Takes the end of a direct fetch.
    fn take_direct_response(self, response: Result<String, TransportFault>) -> (next: (Run, Directive))
        requires
            self@.stage == Stage::Baseline,
        ensures
            next.0@ == on_direct_response(self@, response).state,
            texts(next.1.print@) == on_direct_response(self@, response).print,
            next.1.action == on_direct_response(self@, response).action,
    {
        proof {
            use_type_invariant(&self);
        }
        let at: usize = self.cases.len();
        match response {
            Err(fault) => self.fail(Fault::Transport { stage: Stage::Baseline, url_index: at, fault }),
            Ok(body) => {
                let ghost before = self@;
                let Run { args, stage: _, mut cases, cursor, failure } = self;
                let url = args.urls[at].clone();
                cases.push(UrlTestCase { url, expected: body });
                proof {
                    assert(pairs(cases@) =~= before.cases.push((before.urls[at as int], body@)));
                }
                let print: Vec<String> = Vec::new();
                assert(texts(print@) =~= Seq::empty());
                if cases.len() < args.urls.len() {
                    let action = Action::FetchDirect { url_index: cases.len() };
                    let run = Run { args, stage: Stage::Baseline, cases, cursor, failure };
                    (run, Directive { print, action })
                } else {
                    let action = Action::FanOut { url_index: 0, port: args.port, clients: args.clients };
                    let run = Run { args, stage: Stage::Correctness, cases, cursor: 0, failure };
                    (run, Directive { print, action })
                }
            },
        }
    }

    /// Takes the end of a batch of the size asked for.
    fn take_proxied_responses(self, responses: Vec<Result<String, TransportFault>>) -> (next: (
        Run,
        Directive,
    ))
        requires
            self@.stage == Stage::Correctness,
        ensures
            next.0@ == on_proxied_responses(self@, responses@).state,
            texts(next.1.print@) == on_proxied_responses(self@, responses@).print,
            next.1.action == on_proxied_responses(self@, responses@).action,
    {
        proof {
            use_type_invariant(&self);
        }
        let at: usize = self.cursor;
        match judge_batch(&responses, self.cases[at].expected.as_str(), at) {
            Some(fault) => self.fail(fault),
            None => {
                let url_count: usize = self.args.urls.len();
                if at + 1 < url_count {
                    let action = Action::FanOut {
                        url_index: at + 1,
                        port: self.args.port,
                        clients: self.args.clients,
                    };
                    self.go(Stage::Correctness, at + 1, action)
                } else {
                    let action = Action::LaunchLoops { port: self.args.port, rps: self.args.rps };
                    let line = summary_line(self.args.clients, url_count);
                    let Run { args, stage: _, cases, cursor: _, failure } = self;
                    let run = Run { args, stage: Stage::Load, cases, cursor: url_count, failure };
                    let mut print: Vec<String> = Vec::new();
                    print.push(line);
                    assert(texts(print@) =~= seq![
                        summary_text(run@.clients as nat, run@.urls.len()),
                    ]);
                    (run, Directive { print, action })
                }
            },
        }
    }

    /// Takes the readings and draws up the report.
    fn take_readings(self, elapsed_ms: u64, count: u64) -> (next: (Run, Directive))
        requires
            self@.stage == Stage::Reporting,
        ensures
            next.0@ == (RunState { stage: Stage::Terminated, ..self@ }),
            texts(next.1.print@) == report_text(self@.urls, elapsed_ms, count),
            next.1.action == Action::Halt,
    {
        proof {
            use_type_invariant(&self);
        }
        let print = report_lines(&self.args.urls, elapsed_ms, count);
        let Run { args, stage: _, cases, cursor, failure } = self;
        let run = Run { args, stage: Stage::Terminated, cases, cursor, failure };
        (run, Directive { print, action: Action::Halt })
    }

    /// Feeds the run one event and returns the run as it is afterwards
    /// together with the answer: what to print and what to do next.
    pub fn step(self, event: Event) -> (next: (Run, Directive))
        ensures
            next.0@ == transition(self@, event).state,
            texts(next.1.print@) == transition(self@, event).print,
            next.1.action == transition(self@, event).action,
            next.0@.wf(),
    {
        proof {
            use_type_invariant(&self);
        }
        let next = match event {
            Event::Start => match self.stage {
                Stage::Idle => {
                    let cursor: usize = self.cursor;
                    self.go(Stage::Baseline, cursor, Action::FetchDirect { url_index: 0 })
                },
                _ => self.ignore(),
            },
            Event::DirectResponse(response) => match self.stage {
                Stage::Baseline => self.take_direct_response(response),
                _ => self.ignore(),
            },
            Event::ProxiedResponses(responses) => match self.stage {
                Stage::Correctness => {
                    if responses.len() == self.args.clients as usize {
                        self.take_proxied_responses(responses)
                    } else {
                        self.ignore()
                    }
                },
                _ => self.ignore(),
            },
            Event::SetupFailed(fault) => match self.stage {
                Stage::Correctness => self.fail(Fault::Setup(fault)),
                Stage::Load => self.fail(Fault::Setup(fault)),
                _ => self.ignore(),
            },
            Event::LoopsLaunched => match self.stage {
                Stage::Load => {
                    let cursor: usize = self.cursor;
                    self.go(Stage::AwaitingCancellation, cursor, Action::AwaitCancellation)
                },
                _ => self.ignore(),
            },
            Event::LoopFailed(fault) => match self.stage {
                Stage::AwaitingCancellation => self.fail(fault),
                _ => self.ignore(),
            },
            Event::Cancelled => match self.stage {
                Stage::AwaitingCancellation => {
                    let cursor: usize = self.cursor;
                    self.go(Stage::Reporting, cursor, Action::TakeReadings)
                },
                _ => self.ignore(),
            },
            Event::Readings { elapsed_ms, count } => match self.stage {
                Stage::Reporting => self.take_readings(elapsed_ms, count),
                _ => self.ignore(),
            },
        };
        proof {
            use_type_invariant(&next.0);
        }
        next
    }
}

} // verus!

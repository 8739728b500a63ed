use proxy_exerciser::args::Args;
use proxy_exerciser::fault::{Fault, SetupFault};
use proxy_exerciser::run::{Action, Event, Run};
use proxy_exerciser::stage::Stage;
use proxy_exerciser::verdict::TransportFault;

fn config(urls: &[&str], rps: u32, clients: u32) -> Args {
    Args { urls: urls.iter().map(|u| u.to_string()).collect(), rps, port: 1080, clients }
}

fn batch(body: &str, size: usize) -> Event {
    Event::ProxiedResponses((0..size).map(|_| Ok(body.to_string())).collect())
}

/// Drives a run through the baseline with the given bodies and returns it
/// as it stands at the first batch of the correctness phase.
fn after_baseline(args: Args, bodies: &[&str]) -> Run {
    let (mut run, mut directive) = Run::new(args).step(Event::Start);
    for (i, body) in bodies.iter().enumerate() {
        assert_eq!(directive.action, Action::FetchDirect { url_index: i });
        assert_eq!(run.stage(), Stage::Baseline);
        let next = run.step(Event::DirectResponse(Ok(body.to_string())));
        run = next.0;
        directive = next.1;
        assert!(directive.print.is_empty());
    }
    assert_eq!(run.stage(), Stage::Correctness);
    assert_eq!(directive.action, Action::FanOut { url_index: 0, port: 1080, clients: run.args().clients });
    run
}

#[test]
fn one_url_five_per_second_three_seconds() {
    let args = config(&["http://static.example/"], 5, 3);
    let run = Run::new(args);
    assert_eq!(run.stage(), Stage::Idle);

    let (run, directive) = run.step(Event::Start);
    assert_eq!(run.stage(), Stage::Baseline);
    assert_eq!(directive.action, Action::FetchDirect { url_index: 0 });

    let (run, directive) = run.step(Event::DirectResponse(Ok("hello".to_string())));
    assert_eq!(run.stage(), Stage::Correctness);
    assert_eq!(directive.action, Action::FanOut { url_index: 0, port: 1080, clients: 3 });
    assert_eq!(run.cases().len(), 1);
    assert_eq!(run.cases()[0].url, "http://static.example/");
    assert_eq!(run.cases()[0].expected, "hello");

    let (run, directive) = run.step(batch("hello", 3));
    assert_eq!(run.stage(), Stage::Load);
    assert_eq!(run.failure(), None);
    assert_eq!(directive.print, vec!["successfully got responses with 3 clients for 1 urls".to_string()]);
    assert_eq!(directive.action, Action::LaunchLoops { port: 1080, rps: 5 });

    let loops = run.load_loops();
    assert_eq!(loops.len(), 1);
    assert_eq!(loops[0].url_index, 0);
    assert_eq!(loops[0].url, "http://static.example/");
    assert_eq!(loops[0].expected, "hello");
    assert_eq!(loops[0].rps, 5);

    let (run, directive) = run.step(Event::LoopsLaunched);
    assert_eq!(run.stage(), Stage::AwaitingCancellation);
    assert_eq!(directive.action, Action::AwaitCancellation);
    assert!(directive.print.is_empty());

    let (run, directive) = run.step(Event::Cancelled);
    assert_eq!(run.stage(), Stage::Reporting);
    assert_eq!(directive.action, Action::TakeReadings);

    let (run, directive) = run.step(Event::Readings { elapsed_ms: 3000, count: 15 });
    assert_eq!(run.stage(), Stage::Terminated);
    assert_eq!(run.failure(), None);
    assert_eq!(directive.action, Action::Halt);
    assert_eq!(
        directive.print,
        vec![
            "".to_string(),
            "was requesting 1 urls:".to_string(),
            "http://static.example/".to_string(),
            "elapsed time: 3.000s".to_string(),
            "# responses received: 15".to_string(),
            "RPS: 5.000".to_string(),
        ]
    );
}

#[test]
fn the_baseline_keeps_the_order_of_the_urls() {
    let args = config(&["http://a/", "http://b/", "http://c/"], 100, 2);
    let run = after_baseline(args, &["A", "B", "C"]);
    let cases = run.cases();
    assert_eq!(cases.len(), 3);
    assert_eq!((cases[0].url.as_str(), cases[0].expected.as_str()), ("http://a/", "A"));
    assert_eq!((cases[1].url.as_str(), cases[1].expected.as_str()), ("http://b/", "B"));
    assert_eq!((cases[2].url.as_str(), cases[2].expected.as_str()), ("http://c/", "C"));
}

#[test]
fn the_same_answers_give_the_same_baseline() {
    let first = after_baseline(config(&["http://a/", "http://b/"], 100, 1), &["A", "B"]);
    let second = after_baseline(config(&["http://a/", "http://b/"], 100, 1), &["A", "B"]);
    assert_eq!(first.cases().len(), second.cases().len());
    for i in 0..first.cases().len() {
        assert_eq!(first.cases()[i].url, second.cases()[i].url);
        assert_eq!(first.cases()[i].expected, second.cases()[i].expected);
    }
}

#[test]
fn a_failed_direct_fetch_ends_the_run() {
    let args = config(&["http://a/", "http://b/"], 100, 2);
    let (run, _) = Run::new(args).step(Event::Start);
    let (run, _) = run.step(Event::DirectResponse(Ok("A".to_string())));
    let (run, directive) = run.step(Event::DirectResponse(Err(TransportFault::Read)));
    let fault =
        Fault::Transport { stage: Stage::Baseline, url_index: 1, fault: TransportFault::Read };
    assert_eq!(run.stage(), Stage::Terminated);
    assert_eq!(run.failure(), Some(fault));
    assert_eq!(directive.action, Action::Abort(fault));
    assert!(directive.print.is_empty());
    assert_eq!(run.cases().len(), 1);
}

#[test]
fn a_faithful_proxy_passes_every_url() {
    let args = config(&["http://a/", "http://b/", "http://c/"], 100, 4);
    let run = after_baseline(args, &["A", "B", "C"]);
    let (run, directive) = run.step(batch("A", 4));
    assert_eq!(run.stage(), Stage::Correctness);
    assert_eq!(directive.action, Action::FanOut { url_index: 1, port: 1080, clients: 4 });
    assert!(directive.print.is_empty());
    let (run, directive) = run.step(batch("B", 4));
    assert_eq!(directive.action, Action::FanOut { url_index: 2, port: 1080, clients: 4 });
    let (run, directive) = run.step(batch("C", 4));
    assert_eq!(run.stage(), Stage::Load);
    assert_eq!(run.failure(), None);
    assert_eq!(directive.action, Action::LaunchLoops { port: 1080, rps: 100 });
    assert_eq!(directive.print, vec!["successfully got responses with 4 clients for 3 urls".to_string()]);
    assert_eq!(run.load_loops().len(), 3);
    assert_eq!(run.load_loops()[2].url_index, 2);
    assert_eq!(run.load_loops()[2].expected, "C");
}

#[test]
fn one_corrupted_byte_aborts_before_the_load_phase() {
    let args = config(&["http://a/", "http://b/"], 100, 3);
    let run = after_baseline(args, &["alpha", "beta"]);
    let (run, _) = run.step(batch("alpha", 3));
    let corrupted = Event::ProxiedResponses(vec![
        Ok("beta".to_string()),
        Ok("beta".to_string()),
        Ok("bela".to_string()),
    ]);
    let (run, directive) = run.step(corrupted);
    let fault = Fault::Mismatch { stage: Stage::Correctness, url_index: 1, offset: 2 };
    assert_eq!(run.stage(), Stage::Terminated);
    assert_eq!(run.failure(), Some(fault));
    assert_eq!(directive.action, Action::Abort(fault));
    assert!(directive.print.is_empty());

    // Nothing that follows brings the run to the load phase.
    let (run, directive) = run.step(batch("beta", 3));
    assert_eq!(run.stage(), Stage::Terminated);
    assert_eq!(directive.action, Action::Ignore);
    let (run, directive) = run.step(Event::LoopsLaunched);
    assert_eq!(run.stage(), Stage::Terminated);
    assert_eq!(directive.action, Action::Ignore);
    let (run, directive) = run.step(Event::Start);
    assert_eq!(run.stage(), Stage::Terminated);
    assert_eq!(directive.action, Action::Ignore);
    assert_eq!(run.failure(), Some(fault));
}

#[test]
fn a_transport_error_in_a_batch_aborts() {
    let args = config(&["http://a/"], 100, 2);
    let run = after_baseline(args, &["alpha"]);
    let (run, directive) = run
        .step(Event::ProxiedResponses(vec![Err(TransportFault::Send), Ok("alpha".to_string())]));
    let fault =
        Fault::Transport { stage: Stage::Correctness, url_index: 0, fault: TransportFault::Send };
    assert_eq!(run.stage(), Stage::Terminated);
    assert_eq!(directive.action, Action::Abort(fault));
}

#[test]
fn a_batch_of_the_wrong_size_is_not_taken() {
    let args = config(&["http://a/"], 100, 3);
    let run = after_baseline(args, &["alpha"]);
    let (run, directive) = run.step(batch("alpha", 2));
    assert_eq!(run.stage(), Stage::Correctness);
    assert_eq!(directive.action, Action::Ignore);
    let (run, directive) = run.step(batch("alpha", 4));
    assert_eq!(run.stage(), Stage::Correctness);
    assert_eq!(directive.action, Action::Ignore);
    let (run, directive) = run.step(batch("alpha", 3));
    assert_eq!(run.stage(), Stage::Load);
    assert_eq!(directive.action, Action::LaunchLoops { port: 1080, rps: 100 });
}

#[test]
fn a_setup_fault_ends_the_run() {
    let args = config(&["http://a/"], 100, 1);
    let run = after_baseline(args, &["alpha"]);
    let (run, directive) = run.step(Event::SetupFailed(SetupFault::ProxyAddress));
    assert_eq!(run.stage(), Stage::Terminated);
    assert_eq!(directive.action, Action::Abort(Fault::Setup(SetupFault::ProxyAddress)));

    let args = config(&["http://a/"], 100, 1);
    let run = after_baseline(args, &["alpha"]);
    let (run, _) = run.step(batch("alpha", 1));
    let (run, directive) = run.step(Event::SetupFailed(SetupFault::ClientBuild));
    assert_eq!(run.stage(), Stage::Terminated);
    assert_eq!(run.failure(), Some(Fault::Setup(SetupFault::ClientBuild)));
    assert_eq!(directive.action, Action::Abort(Fault::Setup(SetupFault::ClientBuild)));
}

#[test]
fn a_failing_stream_ends_the_run() {
    let args = config(&["http://a/"], 100, 1);
    let run = after_baseline(args, &["alpha"]);
    let (run, _) = run.step(batch("alpha", 1));
    let (run, _) = run.step(Event::LoopsLaunched);
    let fault = Fault::Mismatch { stage: Stage::Load, url_index: 0, offset: 1 };
    let (run, directive) = run.step(Event::LoopFailed(fault));
    assert_eq!(run.stage(), Stage::Terminated);
    assert_eq!(run.failure(), Some(fault));
    assert_eq!(directive.action, Action::Abort(fault));
}

#[test]
fn events_out_of_turn_change_nothing() {
    let args = config(&["http://a/"], 100, 1);
    let run = Run::new(args);
    let (run, directive) = run.step(Event::Cancelled);
    assert_eq!(run.stage(), Stage::Idle);
    assert_eq!(directive.action, Action::Ignore);
    let (run, directive) = run.step(Event::DirectResponse(Ok("x".to_string())));
    assert_eq!(run.stage(), Stage::Idle);
    assert_eq!(directive.action, Action::Ignore);
    assert_eq!(run.cases().len(), 0);
    let (run, _) = run.step(Event::Start);
    let (run, directive) = run.step(Event::Start);
    assert_eq!(run.stage(), Stage::Baseline);
    assert_eq!(directive.action, Action::Ignore);
    let (run, directive) = run.step(Event::Readings { elapsed_ms: 1, count: 1 });
    assert_eq!(run.stage(), Stage::Baseline);
    assert_eq!(directive.action, Action::Ignore);
    assert!(directive.print.is_empty());
    let (run, directive) = run.step(Event::LoopFailed(Fault::Setup(SetupFault::ClientBuild)));
    assert_eq!(run.stage(), Stage::Baseline);
    assert_eq!(run.failure(), None);
    assert_eq!(directive.action, Action::Ignore);
}

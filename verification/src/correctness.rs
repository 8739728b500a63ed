//! The correctness phase: for each URL in turn, a batch of concurrent
//! requests through the proxy, every one of which must bring back the
//! expected body.

use crate::decimal::{decimal, push_decimal};
use crate::fault::{fault_from, fault_of, Fault};
use crate::stage::Stage;
use crate::verdict::{judge, verdict_of, TransportFault, Verdict};
use vstd::prelude::*;

verus! {

/// Every response of the batch carries the expected text.
pub open spec fn all_match(outcomes: Seq<Result<String, TransportFault>>, expected: Seq<char>) -> bool {
    forall|i: int| 0 <= i < outcomes.len() ==> verdict_of(#[trigger] outcomes[i], expected) is Match
}

/// The first response of the batch that is not a match, with its verdict.
pub open spec fn first_failure(outcomes: Seq<Result<String, TransportFault>>, expected: Seq<char>) -> Option<
    (int, Verdict),
>
    decreases outcomes.len(),
{
    if outcomes.len() == 0 {
        None
    } else {
        match first_failure(outcomes.drop_last(), expected) {
            Some(found) => Some(found),
            None => if verdict_of(outcomes.last(), expected) is Match {
                None
            } else {
                Some((outcomes.len() - 1, verdict_of(outcomes.last(), expected)))
            },
        }
    }
}

/// `first_failure` finds nothing exactly when every response matches, and
/// otherwise names the earliest response that does not, with its verdict.
pub proof fn first_failure_is_first(outcomes: Seq<Result<String, TransportFault>>, expected: Seq<char>)
    ensures
        first_failure(outcomes, expected) is None <==> all_match(outcomes, expected),
        first_failure(outcomes, expected) matches Some((at, verdict)) ==> {
            &&& 0 <= at < outcomes.len()
            &&& verdict == verdict_of(outcomes[at], expected)
            &&& !(verdict is Match)
            &&& all_match(outcomes.take(at), expected)
        },
    decreases outcomes.len(),
{
    if outcomes.len() > 0 {
        let head = outcomes.drop_last();
        first_failure_is_first(head, expected);
        match first_failure(head, expected) {
            Some((at, verdict)) => {
                assert(head[at] == outcomes[at]);
                assert(head.take(at) =~= outcomes.take(at));
                assert(!(verdict_of(outcomes[at], expected) is Match));
            },
            None => {
                assert forall|i: int| 0 <= i < outcomes.len() - 1 implies verdict_of(
                    #[trigger] outcomes[i],
                    expected,
                ) is Match by {
                    assert(head[i] == outcomes[i]);
                }
                assert(outcomes.take(outcomes.len() - 1) =~= head);
            },
        }
    }
}

/// Goes through the responses of one batch in order and stops at the first
/// that is not the expected body. `None` means that the whole batch passed.
pub fn check_batch(outcomes: &Vec<Result<String, TransportFault>>, expected: &str) -> (failure: Option<
    (usize, Verdict),
>)
    ensures
        failure is None <==> first_failure(outcomes@, expected@) is None,
        failure matches Some((at, verdict)) ==> first_failure(outcomes@, expected@) == Some(
            (at as int, verdict),
        ),
        failure is None <==> all_match(outcomes@, expected@),
{
    let mut i: usize = 0;
    while i < outcomes.len()
        invariant
            i <= outcomes@.len(),
            first_failure(outcomes@.take(i as int), expected@) is None,
        decreases outcomes@.len() - i,
    {
        let verdict = judge(&outcomes[i], expected);
        proof {
            let upto = outcomes@.take(i + 1);
            assert(upto.drop_last() =~= outcomes@.take(i as int));
            assert(upto.last() == outcomes@[i as int]);
        }
        match verdict {
            Verdict::Match => {},
            _ => {
                proof {
                    first_failure_extends(outcomes@, expected@, i + 1);
                }
                return Some((i, verdict));
            },
        }
        i += 1;
    }
    proof {
        assert(outcomes@.take(i as int) =~= outcomes@);
        first_failure_is_first(outcomes@, expected@);
    }
    None
}

/// A failure found among the first `n` responses is the failure of the whole
/// batch.
pub proof fn first_failure_extends(
    outcomes: Seq<Result<String, TransportFault>>,
    expected: Seq<char>,
    n: int,
)
    requires
        0 <= n <= outcomes.len(),
        first_failure(outcomes.take(n), expected) is Some,
    ensures
        first_failure(outcomes, expected) == first_failure(outcomes.take(n), expected),
        !all_match(outcomes, expected),
    decreases outcomes.len() - n,
{
    if n < outcomes.len() {
        let head = outcomes.drop_last();
        assert(head.take(n) =~= outcomes.take(n));
        first_failure_extends(head, expected, n);
    } else {
        assert(outcomes.take(n) =~= outcomes);
    }
    first_failure_is_first(outcomes, expected);
}

/// The fault that a batch for the URL at `url_index` ends the run with: that
/// of its first response that is not the expected body. A batch in which
/// every response matches gives none.
pub open spec fn batch_fault(
    outcomes: Seq<Result<String, TransportFault>>,
    expected: Seq<char>,
    url_index: usize,
) -> Option<Fault> {
    match first_failure(outcomes, expected) {
        Some((_, verdict)) => fault_of(Stage::Correctness, url_index, verdict),
        None => None,
    }
}

/// Judges one batch of the correctness phase: `None` when every response is
/// the expected body, and otherwise the fault of the first that is not.
pub fn judge_batch(outcomes: &Vec<Result<String, TransportFault>>, expected: &str, url_index: usize) -> (fault:
    Option<Fault>)
    ensures
        fault == batch_fault(outcomes@, expected@, url_index),
        fault is None <==> all_match(outcomes@, expected@),
{
    proof {
        first_failure_is_first(outcomes@, expected@);
    }
    match check_batch(outcomes, expected) {
        Some((_, verdict)) => fault_from(Stage::Correctness, url_index, verdict),
        None => None,
    }
}

/// The line that reports a passed correctness phase.
pub open spec fn summary_text(clients: nat, url_count: nat) -> Seq<char> {
    "successfully got responses with "@ + decimal(clients) + " clients for "@ + decimal(url_count)
        + " urls"@
}

/// The line that reports a passed correctness phase: the fan-out and the
/// number of URLs that were exercised.
pub fn summary_line(clients: u32, url_count: usize) -> (line: String)
    ensures
        line@ == summary_text(clients as nat, url_count as nat),
{
    let mut line = String::from_str("successfully got responses with ");
    push_decimal(&mut line, clients as u128);
    line.append(" clients for ");
    push_decimal(&mut line, url_count as u128);
    line.append(" urls");
    line
}

} // verus!

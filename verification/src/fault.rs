//! The faults that end a run, and the messages that describe them.

use crate::decimal::{decimal, push_decimal};
use crate::stage::Stage;
use crate::verdict::{TransportFault, Verdict};
use vstd::prelude::*;

verus! {

/// Why the handle for the proxy could not be made.
#[derive(Clone, Copy, Debug, PartialEq, Eq, Structural)]
pub enum SetupFault {
    /// The proxy's address was not accepted as a URL.
    ProxyAddress,
    /// The address was accepted but no client could be built with it.
    ClientBuild,
}

/// A fatal fault. None is recovered from or retried: the first one ends the
/// run.
#[derive(Clone, Copy, Debug, PartialEq, Eq, Structural)]
pub enum Fault {
    /// The proxy handle could not be made, before any request went out.
    Setup(SetupFault),
    /// A request for the URL at `url_index` produced no body.
    Transport { stage: Stage, url_index: usize, fault: TransportFault },
    /// A response for the URL at `url_index` differs from the expected body,
    /// first at byte `offset`.
    Mismatch { stage: Stage, url_index: usize, offset: usize },
}

/// The fault, if any, that a verdict reached in `stage` on the URL at
/// `url_index` amounts to. Only a match is none.
pub open spec fn fault_of(stage: Stage, url_index: usize, verdict: Verdict) -> Option<Fault> {
    match verdict {
        Verdict::Match => None,
        Verdict::Mismatch { offset } => Some(Fault::Mismatch { stage, url_index, offset }),
        Verdict::Transport(fault) => Some(Fault::Transport { stage, url_index, fault }),
    }
}

/// The fault, if any, that a verdict amounts to.
pub fn fault_from(stage: Stage, url_index: usize, verdict: Verdict) -> (fault: Option<Fault>)
    ensures
        fault == fault_of(stage, url_index, verdict),
{
    match verdict {
        Verdict::Match => None,
        Verdict::Mismatch { offset } => Some(Fault::Mismatch { stage, url_index, offset }),
        Verdict::Transport(fault) => Some(Fault::Transport { stage, url_index, fault }),
    }
}

/// What went wrong with a request, in words.
pub open spec fn transport_text(fault: TransportFault) -> Seq<char> {
    match fault {
        TransportFault::Build => "error building request"@,
        TransportFault::Send => "error sending request"@,
        TransportFault::Read => "error receiving response"@,
    }
}

/// What went wrong with the setup, in words.
pub open spec fn setup_text(fault: SetupFault) -> Seq<char> {
    match fault {
        SetupFault::ProxyAddress => "error building proxy for reqwest::Client"@,
        SetupFault::ClientBuild => "error building reqwest::Client with proxy"@,
    }
}

/// The message for a fault: the stage, what failed, and for which URL.
pub open spec fn message_text(fault: Fault) -> Seq<char> {
    match fault {
        Fault::Setup(setup) => setup_text(setup),
        Fault::Transport { stage, url_index, fault } => stage.label() + ": "@ + transport_text(fault)
            + " for url #"@ + decimal(url_index as nat),
        Fault::Mismatch { stage, url_index, offset } => stage.label()
            + ": response differs from the baseline for url #"@ + decimal(url_index as nat)
            + " at byte "@ + decimal(offset as nat),
    }
}

impl Fault {
    /// The message that tells the user which stage failed and on what.
    pub fn message(&self) -> (text: String)
        ensures
            text@ == message_text(*self),
    {
        match self {
            Fault::Setup(SetupFault::ProxyAddress) => String::from_str(
                "error building proxy for reqwest::Client",
            ),
            Fault::Setup(SetupFault::ClientBuild) => String::from_str(
                "error building reqwest::Client with proxy",
            ),
            Fault::Transport { stage, url_index, fault } => {
                let mut text = String::from_str(stage.name());
                text.append(": ");
                text.append(
                    match fault {
                        TransportFault::Build => "error building request",
                        TransportFault::Send => "error sending request",
                        TransportFault::Read => "error receiving response",
                    },
                );
                text.append(" for url #");
                push_decimal(&mut text, *url_index as u128);
                text
            },
            Fault::Mismatch { stage, url_index, offset } => {
                let mut text = String::from_str(stage.name());
                text.append(": response differs from the baseline for url #");
                push_decimal(&mut text, *url_index as u128);
                text.append(" at byte ");
                push_decimal(&mut text, *offset as u128);
                text
            },
        }
    }
}

} // verus!

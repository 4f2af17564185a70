//! The readiness gate: the one flag by which the consumer tells every producer
//! that the pipeline can drain what they hand over.
//!
//! The flag starts closed. The only operation that changes it opens it, so a
//! gate that was seen open stays open.

use crate::channel::{init_channel, Channel, Link};
use crate::util::same_text;
use vstd::prelude::*;

verus! {

/// The flag "safe to submit". Its view is `true` once it has been opened.
pub struct ReadinessGate {
    ready: bool,
}

impl View for ReadinessGate {
    type V = bool;

    closed spec fn view(&self) -> bool {
        self.ready
    }
}

impl ReadinessGate {
    /// A closed gate.
    pub fn new() -> (gate: ReadinessGate)
        ensures
            !gate@,
    {
        ReadinessGate { ready: false }
    }
}

/// Whether the pipeline is ready. Producers ask before they build a segment.
pub fn is_ready_for_request(gate: &ReadinessGate) -> (ready: bool)
    ensures
        ready == gate@,
{
    gate.ready
}

/// Opens the readiness gate. Opening an open one changes nothing.
pub fn mark_ready_for_request(gate: &mut ReadinessGate)
    ensures
        final(gate)@,
{
    gate.ready = true;
}

/// How the start of the agent ended.
#[derive(Clone, Copy, Debug, PartialEq, Eq, Structural)]
pub enum Startup {
    /// The host does not run as a pool of request workers. Nothing was done.
    Unsupported,
    /// The agent is switched off. Nothing was done.
    Disabled,
    /// The channel could not be initialized. The agent stays inactive.
    ChannelFailed,
    /// The channel is initialized: the consumer can be started.
    Started,
}

/// How a start ends for a host of the given kind, with the agent switched
/// on or off, on a channel whose transport is in the given condition.
pub open spec fn startup(sapi_name: Seq<char>, enable: bool, link: Link) -> Startup {
    if sapi_name != "fpm-fcgi"@ {
        Startup::Unsupported
    } else if !enable {
        Startup::Disabled
    } else if link != Link::NotInitialized {
        Startup::ChannelFailed
    } else {
        Startup::Started
    }
}

/// What keeps the agent from starting before the channel is touched: none
/// where the host serves requests from a pool of worker processes and the
/// agent is switched on.
pub open spec fn hindrance(sapi_name: Seq<char>, enable: bool) -> Option<Startup> {
    if sapi_name != "fpm-fcgi"@ {
        Some(Startup::Unsupported)
    } else if !enable {
        Some(Startup::Disabled)
    } else {
        None
    }
}

/// Says whether the agent may start on this host, before anything is set
/// up.
pub fn precheck(sapi_name: &str, enable: bool) -> (found: Option<Startup>)
    ensures
        found == hindrance(sapi_name@, enable),
{
    if !same_text(sapi_name, "fpm-fcgi") {
        Some(Startup::Unsupported)
    } else if !enable {
        Some(Startup::Disabled)
    } else {
        None
    }
}

/// Starts the agent when the host loads it: on a host that serves requests
/// from a pool of worker processes, and with the agent switched on, the
/// channel is initialized. In every other case the channel is left alone.
pub fn init(sapi_name: &str, enable: bool, channel: &mut Channel) -> (outcome: Startup)
    ensures
        outcome == startup(sapi_name@, enable, old(channel)@.link),
        final(channel)@ == (if outcome == Startup::Started {
            old(channel)@.after_init()
        } else {
            old(channel)@
        }),
{
    match precheck(sapi_name, enable) {
        Some(outcome) => outcome,
        None => match init_channel(channel) {
            Ok(()) => Startup::Started,
            Err(_) => Startup::ChannelFailed,
        },
    }
}

} // verus!

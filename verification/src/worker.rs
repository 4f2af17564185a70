//! Starting the consumer: the process that runs the reporter, apart from
//! every producer.
//!
//! The steps that touch the system are the caller's: forking, building the
//! runtime, connecting. What is decided here is how many threads the runtime
//! gets, what a process does after the fork, and whether the reporter starts
//! at all.

use crate::report::{next_state, response, Action, Event, Reporter};
use vstd::prelude::*;

verus! {

/// The number of worker threads for a configured value: the value itself
/// where it is positive, and else the parallelism that the machine offers,
/// or one where that is unknown. The number is never zero.
pub open spec fn chosen_worker_threads(configured: i64, available: Option<usize>) -> usize {
    if configured > 0 {
        if configured > usize::MAX {
            usize::MAX
        } else {
            configured as usize
        }
    } else {
        match available {
            Some(n) => if n == 0 {
                1
            } else {
                n
            },
            None => 1,
        }
    }
}

/// The number of worker threads of the consumer's runtime.
pub fn worker_threads(configured: i64, available: Option<usize>) -> (threads: usize)
    ensures
        threads == chosen_worker_threads(configured, available),
        threads >= 1,
{
    if configured > 0 {
        if configured as u64 > usize::MAX as u64 {
            usize::MAX
        } else {
            configured as usize
        }
    } else {
        match available {
            Some(n) => if n == 0 {
                1
            } else {
                n
            },
            None => 1,
        }
    }
}

/// What a process is after a fork.
#[derive(Clone, Copy, Debug, PartialEq, Eq, Structural)]
pub enum ForkOutcome {
    /// No child was made. The producers go on without a consumer.
    Failed,
    /// This process is the child: it becomes the consumer.
    Child,
    /// This process is the parent: it goes on as before.
    Parent,
}

/// Reads the value that the fork returned.
pub fn fork_outcome(pid: i32) -> (outcome: ForkOutcome)
    ensures
        outcome == (if pid < 0 {
            ForkOutcome::Failed
        } else if pid == 0 {
            ForkOutcome::Child
        } else {
            ForkOutcome::Parent
        }),
{
    if pid < 0 {
        ForkOutcome::Failed
    } else if pid == 0 {
        ForkOutcome::Child
    } else {
        ForkOutcome::Parent
    }
}

/// Whether tonic takes `address` for the address of an endpoint: the result
/// of `tonic::transport::Endpoint::from_shared` on the text, as success or
/// failure.
pub uninterp spec fn endpoint_accepts(address: Seq<char>) -> bool;

/// Asks `tonic::transport::Endpoint::from_shared` whether it makes an
/// endpoint of `address`. The call parses the text as a URI and reads
/// nothing else, so its answer depends on the text alone; which texts it
/// takes is not restated here.
#[verifier::external_body]
fn is_endpoint(address: &str) -> (accepted: bool)
    ensures
        accepted == endpoint_accepts(address@),
{
    tonic::transport::Endpoint::from_shared(address.to_string()).is_ok()
}

/// Starts the reporter if the collector's address can be used. With an
/// address that is no endpoint the reporter stays as it is and nothing is
/// asked for: there is nothing to connect to.
pub fn begin(reporter: &mut Reporter, address_accepted: bool) -> (action: Option<Action>)
    ensures
        address_accepted ==> final(reporter)@ == next_state(old(reporter)@, Event::Started)
            && action == response(old(reporter)@, Event::Started),
        !address_accepted ==> final(reporter)@ == old(reporter)@ && action.is_none(),
{
    if address_accepted {
        reporter.handle(Event::Started)
    } else {
        None
    }
}

/// Starts the reporter for the collector at `server_addr`; see `begin`.
pub fn start_worker(reporter: &mut Reporter, server_addr: &str) -> (action: Option<Action>)
    ensures
        endpoint_accepts(server_addr@) ==> final(reporter)@ == next_state(
            old(reporter)@,
            Event::Started,
        ) && action == response(old(reporter)@, Event::Started),
        !endpoint_accepts(server_addr@) ==> final(reporter)@ == old(reporter)@ && action.is_none(),
{
    let accepted = is_endpoint(server_addr);
    begin(reporter, accepted)
}

} // verus!

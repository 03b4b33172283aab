use vstd::prelude::*;

use crate::dispatch::{dispatch_command, dispatch_spec, Response, Status};
use crate::parser::{split_command, words};
use crate::store::Store;

verus! {

/// Where a connection goes after a command has been answered.
#[derive(PartialEq, Eq, Structural, Clone, Copy, Debug)]
pub enum ConnectionState {
    Reading,
    Closing,
}

pub open spec fn state_after(status: Status) -> ConnectionState {
    if status == Status::Quit {
        ConnectionState::Closing
    } else {
        ConnectionState::Reading
    }
}

/// A connection closes after QUIT and reads on after anything else.
pub fn next_state(status: Status) -> (r: ConnectionState)
    ensures
        r == state_after(status),
{
    match status {
        Status::Quit => ConnectionState::Closing,
        _ => ConnectionState::Reading,
    }
}

/// One turn of a connection on a decoded chunk of input: split it, dispatch
/// it, and decide whether to read again.
pub fn handle_input(store: &mut Store, input: &str) -> (r: (Response, ConnectionState))
    requires
        old(store).wf(),
    ensures
        final(store).wf(),
        (final(store)@, r.0.status, r.0.payload@) == dispatch_spec(old(store)@, words(input@)),
        r.1 == state_after(r.0.status),
{
    let tokens = split_command(input);
    let response = dispatch_command(store, &tokens);
    let state = next_state(response.status);
    (response, state)
}

} // verus!

//! Startup checks. The engine needs all three callbacks — receive, send and
//! clock — registered before the loop may start; a missing one is a fatal
//! startup failure, never retried.

use vstd::prelude::*;

verus! {

/// Fatal startup failures: one per callback the engine ended up without.
#[derive(Clone, Copy, PartialEq, Eq, Structural, Debug)]
pub enum AdapterError {
    ReceiveCallbackNotRegistered,
    SendCallbackNotRegistered,
    ClockCallbackNotRegistered,
}

/// Confirms that the three required callback registrations all succeeded,
/// naming the first one that did not. The registrations themselves happen
/// against the engine; this takes each outcome and decides whether startup
/// may proceed.
pub fn load_bacnet_functions(
    receive_registered: bool,
    send_registered: bool,
    clock_registered: bool,
) -> (r: Result<bool, AdapterError>)
    ensures
        r is Ok <==> receive_registered && send_registered && clock_registered,
        r is Ok ==> r == Ok::<bool, AdapterError>(true),
        !receive_registered ==> r == Err::<bool, AdapterError>(
            AdapterError::ReceiveCallbackNotRegistered,
        ),
        receive_registered && !send_registered ==> r == Err::<bool, AdapterError>(
            AdapterError::SendCallbackNotRegistered,
        ),
        receive_registered && send_registered && !clock_registered ==> r == Err::<
            bool,
            AdapterError,
        >(AdapterError::ClockCallbackNotRegistered),
{
    if !receive_registered {
        return Err(AdapterError::ReceiveCallbackNotRegistered);
    }
    if !send_registered {
        return Err(AdapterError::SendCallbackNotRegistered);
    }
    if !clock_registered {
        return Err(AdapterError::ClockCallbackNotRegistered);
    }
    Ok(true)
}

} // verus!

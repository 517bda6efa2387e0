use vstd::prelude::*;

use crate::bridge::state::BridgeError;
use crate::ids::ActorId;

verus! {

/// Admits only the feeder: the caller must be `feeder_address`.
pub fn ensure_feeder(caller: &ActorId, feeder_address: &ActorId) -> (r: Result<(), BridgeError>)
    ensures
        r == (if *caller == *feeder_address {
            Ok::<(), BridgeError>(())
        } else {
            Err(BridgeError::NotFeeder)
        }),
{
    if caller.same(feeder_address) {
        Ok(())
    } else {
        Err(BridgeError::NotFeeder)
    }
}

/// Admits only the owner: the caller must be `owner`.
pub fn ensure_owner(caller: &ActorId, owner: &ActorId) -> (r: Result<(), BridgeError>)
    ensures
        r == (if *caller == *owner {
            Ok::<(), BridgeError>(())
        } else {
            Err(BridgeError::NotOwner)
        }),
{
    if caller.same(owner) {
        Ok(())
    } else {
        Err(BridgeError::NotOwner)
    }
}

} // verus!

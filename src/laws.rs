//! Laws of the owner registry and of the gateway, stated over the spec
//! functions that the operations' contracts use.

use vstd::prelude::*;
use crate::gateway::{CallView, Fault, forward_spec, transfer_call, transfer_spec};
use crate::registry::{Error, initialize_spec};

verus! {

/// Initializing a fresh contract with `o1` and then with a different `o2`
/// succeeds, then fails with `AlreadyInitialized`; the owner stays `o1`.
pub proof fn lemma_write_once<A>(o1: A, o2: A)
    requires
        o1 != o2,
    ensures
        initialize_spec(None, o1) == (Some(o1), Ok::<(), Error>(())),
        initialize_spec(initialize_spec(None, o1).0, o2) == (
            Some(o1),
            Err::<(), Error>(Error::AlreadyInitialized),
        ),
{
}

/// Initializing twice with the same identity fails the second time too:
/// `initialize` is write-once, not an upsert.
pub proof fn lemma_initialize_not_upsert<A>(o: A)
    ensures
        initialize_spec(initialize_spec(None, o).0, o).1 == Err::<(), Error>(
            Error::AlreadyInitialized,
        ),
{
}

/// Once an owner is recorded, no `initialize` changes it.
pub proof fn lemma_owner_is_permanent<A>(o: A, other: A)
    ensures
        initialize_spec(Some(o), other).0 == Some(o),
{
}

/// Without the host's confirmation that the owner authorized the call, no
/// call goes out: neither `forward` nor `transfer` hands one back.
pub proof fn lemma_guard_before_effect<A, V>(
    slot: Option<A>,
    call: CallView<A, V>,
    self_address: A,
    asset: A,
    to: A,
    amount: i128,
)
    ensures
        forward_spec(slot, false, call) is Err,
        transfer_spec::<A, V>(slot, false, self_address, asset, to, amount) is Err,
{
}

/// A forward authorized by the owner hands back exactly the call asked for.
pub proof fn lemma_transparent_forwarding<A, V>(owner: A, call: CallView<A, V>)
    ensures
        forward_spec(Some(owner), true, call) == Ok::<CallView<A, V>, Fault>(call),
{
}

/// A transfer comes to the same as forwarding `transfer` to the asset with
/// the arguments `[self_address, to, amount]`, in every state and whatever
/// the host's verdict.
pub proof fn lemma_transfer_is_forward<A, V>(
    slot: Option<A>,
    owner_authorized: bool,
    self_address: A,
    asset: A,
    to: A,
    amount: i128,
)
    ensures
        transfer_spec::<A, V>(slot, owner_authorized, self_address, asset, to, amount)
            == forward_spec(
            slot,
            owner_authorized,
            transfer_call::<A, V>(self_address, asset, to, amount),
        ),
{
}

} // verus!

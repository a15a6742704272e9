//! The authorization gateway: every privileged call goes through the owner's
//! authorization before anything leaves the contract.

use vstd::prelude::*;
use vstd::string::*;
use crate::registry::SimpleSmartWalletContract;

verus! {

/// An argument of a forwarded call. Arguments that a caller supplies are
/// passed through untouched as `Opaque`; `transfer` builds its own from an
/// address and an amount.
#[derive(Clone, Debug, PartialEq, Eq)]
pub enum Value<A, V> {
    Address(A),
    I128(i128),
    Opaque(V),
}

/// A call to be made on another program: the operation `func` of the program
/// at `target`, with `args` in order.
#[derive(Clone, Debug, PartialEq, Eq)]
pub struct Invocation<A, V> {
    pub target: A,
    pub func: String,
    pub args: Vec<Value<A, V>>,
}

/// The abstract content of an `Invocation`.
pub struct CallView<A, V> {
    pub target: A,
    pub func: Seq<char>,
    pub args: Seq<Value<A, V>>,
}

impl<A, V> View for Invocation<A, V> {
    type V = CallView<A, V>;

    open spec fn view(&self) -> CallView<A, V> {
        CallView { target: self.target, func: self.func@, args: self.args@ }
    }
}

/// Why a privileged call aborts as a whole. Neither is ever retried.
#[derive(Clone, Copy, Debug, PartialEq, Eq, Structural)]
pub enum Fault {
    /// No owner is recorded, so there is nobody to demand authorization of.
    UninitializedAccess,
    /// The host did not confirm that the owner authorized this call.
    AuthorizationDenied,
}

/// The operation name that `transfer` calls on the asset program.
pub open spec fn transfer_name() -> Seq<char> {
    "transfer"@
}

/// The guard: a call may proceed only when an owner is recorded and the host
/// confirmed that the owner authorized it.
pub open spec fn guard_spec<A>(slot: Option<A>, owner_authorized: bool) -> Result<(), Fault> {
    match slot {
        None => Err(Fault::UninitializedAccess),
        Some(_) => if owner_authorized {
            Ok(())
        } else {
            Err(Fault::AuthorizationDenied)
        },
    }
}

/// What a forward of `call` comes to: `call` itself, unchanged, once the guard
/// lets it through; the guard's fault otherwise.
pub open spec fn forward_spec<A, V>(
    slot: Option<A>,
    owner_authorized: bool,
    call: CallView<A, V>,
) -> Result<CallView<A, V>, Fault> {
    match guard_spec(slot, owner_authorized) {
        Ok(()) => Ok(call),
        Err(f) => Err(f),
    }
}

/// The call by which `transfer` moves `amount` of `asset` from this contract
/// (at `self_address`) to `to`.
pub open spec fn transfer_call<A, V>(self_address: A, asset: A, to: A, amount: i128) -> CallView<A, V> {
    CallView {
        target: asset,
        func: transfer_name(),
        args: seq![Value::Address(self_address), Value::Address(to), Value::I128(amount)],
    }
}

/// What a transfer comes to: the transfer call once the guard lets it
/// through; the guard's fault otherwise.
pub open spec fn transfer_spec<A, V>(
    slot: Option<A>,
    owner_authorized: bool,
    self_address: A,
    asset: A,
    to: A,
    amount: i128,
) -> Result<CallView<A, V>, Fault> {
    match guard_spec(slot, owner_authorized) {
        Ok(()) => Ok(transfer_call(self_address, asset, to, amount)),
        Err(f) => Err(f),
    }
}

/// The abstract content of a gateway result.
pub open spec fn outcome_view<A, V>(r: Result<Invocation<A, V>, Fault>) -> Result<CallView<A, V>, Fault> {
    match r {
        Ok(i) => Ok(i@),
        Err(f) => Err(f),
    }
}

impl<A> SimpleSmartWalletContract<A> {
    /// The identity whose authorization a privileged call must demand of the
    /// host: the recorded owner. Faults when no owner is recorded.
    pub fn authorizer(&self) -> (r: Result<&A, Fault>)
        ensures
            r == match self@ {
                Some(o) => Ok(&o),
                None => Err::<&A, Fault>(Fault::UninitializedAccess),
            },
    {
        match self.owner() {
            Some(o) => Ok(o),
            None => Err(Fault::UninitializedAccess),
        }
    }

    /// Decides the guard, given the host's verdict on whether the owner
    /// authorized the current call.
    pub fn guard(&self, owner_authorized: bool) -> (r: Result<(), Fault>)
        ensures
            r == guard_spec(self@, owner_authorized),
    {
        if !self.is_initialized() {
            return Err(Fault::UninitializedAccess);
        }
        if !owner_authorized {
            return Err(Fault::AuthorizationDenied);
        }
        Ok(())
    }

    /// Forwards the operation `func` with `args` to the program at `target`:
    /// once the guard passes, the call handed back is exactly the one asked
    /// for; otherwise no call is handed back at all.
    pub fn forward<V>(
        &self,
        owner_authorized: bool,
        target: A,
        func: String,
        args: Vec<Value<A, V>>,
    ) -> (r: Result<Invocation<A, V>, Fault>)
        ensures
            outcome_view(r) == forward_spec(
                self@,
                owner_authorized,
                CallView { target, func: func@, args: args@ },
            ),
    {
        match self.guard(owner_authorized) {
            Ok(()) => Ok(Invocation { target, func, args }),
            Err(f) => Err(f),
        }
    }

    /// Moves `amount` of `asset` from this contract, at `self_address`, to
    /// `to`: once the guard passes, the call handed back is `transfer` on
    /// `asset` with the arguments `[self_address, to, amount]`. The amount is
    /// passed on as it is, whatever its sign.
    pub fn transfer<V>(
        &self,
        owner_authorized: bool,
        self_address: A,
        asset: A,
        to: A,
        amount: i128,
    ) -> (r: Result<Invocation<A, V>, Fault>)
        ensures
            outcome_view(r) == transfer_spec::<A, V>(
                self@,
                owner_authorized,
                self_address,
                asset,
                to,
                amount,
            ),
    {
        match self.guard(owner_authorized) {
            Ok(()) => {
                let mut args: Vec<Value<A, V>> = Vec::new();
                args.push(Value::Address(self_address));
                args.push(Value::Address(to));
                args.push(Value::I128(amount));
                let func = <String as StringExecFns>::from_str("transfer");
                let call = Invocation { target: asset, func, args };
                assert(call@.args =~= transfer_call::<A, V>(self_address, asset, to, amount).args);
                Ok(call)
            },
            Err(f) => Err(f),
        }
    }
}

} // verus!

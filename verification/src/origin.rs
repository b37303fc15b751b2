//! Dispatch origins and the errors of a dispatchable call.

use vstd::prelude::*;

verus! {

/// Account identifiers (the runtime uses `u64` accounts).
pub type AccountId = u64;

/// Balances of every currency the pallets deal with.
pub type Balance = u128;

/// Who dispatched a call.
#[derive(Clone, Copy, Debug, PartialEq, Eq)]
pub enum Origin {
    /// The root (sudo) origin.
    Root,
    /// A call signed by an account.
    Signed(AccountId),
    /// An unsigned call.
    Unsigned,
}

/// The origin of a call is not the one it requires.
#[derive(Clone, Copy, Debug, PartialEq, Eq)]
pub struct BadOrigin;

/// The error of a dispatchable call: a bad origin, or an error of the pallet.
#[derive(Debug, PartialEq, Eq)]
pub enum DispatchError<E> {
    BadOrigin,
    Module(E),
}

/// The signer of `origin`, if it is signed.
pub open spec fn signer_of(origin: Origin) -> Option<AccountId> {
    match origin {
        Origin::Signed(who) => Some(who),
        _ => None,
    }
}

/// Succeeds with the signer when the origin is signed, and fails with
/// `BadOrigin` otherwise.
pub fn ensure_signed(origin: Origin) -> (res: Result<AccountId, BadOrigin>)
    ensures
        match signer_of(origin) {
            Some(who) => res == Ok::<AccountId, BadOrigin>(who),
            None => res is Err,
        },
{
    match origin {
        Origin::Signed(who) => Ok(who),
        _ => Err(BadOrigin),
    }
}

/// Succeeds when the origin is root, and fails with `BadOrigin` otherwise.
pub fn ensure_root(origin: Origin) -> (res: Result<(), BadOrigin>)
    ensures
        res is Ok <==> origin == Origin::Root,
{
    match origin {
        Origin::Root => Ok(()),
        _ => Err(BadOrigin),
    }
}

/// The origins that a call configured by the runtime accepts.
#[derive(Clone, Copy, Debug, PartialEq, Eq)]
pub enum OriginCheck {
    /// Only the root origin.
    Root,
    /// Any signed origin.
    Signed,
    /// Only calls signed by the given account.
    SignedBy(AccountId),
}

/// Whether `check` accepts `origin`.
pub open spec fn origin_permits(check: OriginCheck, origin: Origin) -> bool {
    match check {
        OriginCheck::Root => origin == Origin::Root,
        OriginCheck::Signed => origin is Signed,
        OriginCheck::SignedBy(who) => origin == Origin::Signed(who),
    }
}

/// Succeeds when `check` accepts `origin`, and fails with `BadOrigin`
/// otherwise.
pub fn ensure_origin(check: OriginCheck, origin: Origin) -> (res: Result<(), BadOrigin>)
    ensures
        res is Ok <==> origin_permits(check, origin),
{
    match check {
        OriginCheck::Root => ensure_root(origin),
        OriginCheck::Signed => match ensure_signed(origin) {
            Ok(_) => Ok(()),
            Err(e) => Err(e),
        },
        OriginCheck::SignedBy(who) => match origin {
            Origin::Signed(signer) => if signer == who {
                Ok(())
            } else {
                Err(BadOrigin)
            },
            _ => Err(BadOrigin),
        },
    }
}

} // verus!

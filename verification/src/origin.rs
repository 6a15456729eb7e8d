//! Who is calling: the root, a signed account, or nobody.

use crate::error::Error;
use crate::storage::AccountId;
use vstd::prelude::*;

verus! {

/// The origins that this pallet itself hands out.
#[derive(Debug, Copy, Clone, PartialEq, Eq, Structural)]
pub enum RawOrigin {
    VotingSuccess,
}

/// The caller of an operation.
#[derive(Debug, Copy, Clone, PartialEq, Eq, Structural)]
pub enum RuntimeOrigin {
    /// The system itself: the highest privilege level.
    Root,
    /// An account that signed the call.
    Signed(AccountId),
    /// Nobody signed the call.
    Unsigned,
    /// An origin that the voting pallet handed out.
    Voting(RawOrigin),
}

impl RuntimeOrigin {
    /// The root origin.
    pub fn root() -> (origin: Self)
        ensures
            origin == RuntimeOrigin::Root,
    {
        RuntimeOrigin::Root
    }

    /// The origin of a call that `who` signed.
    pub fn signed(who: AccountId) -> (origin: Self)
        ensures
            origin == RuntimeOrigin::Signed(who),
    {
        RuntimeOrigin::Signed(who)
    }

    /// The origin of a call that nobody signed.
    pub fn none() -> (origin: Self)
        ensures
            origin == RuntimeOrigin::Unsigned,
    {
        RuntimeOrigin::Unsigned
    }
}

impl From<RawOrigin> for RuntimeOrigin {
    /// The runtime's origin for an origin that the voting pallet handed out.
    fn from(origin: RawOrigin) -> (converted: RuntimeOrigin) {
        RuntimeOrigin::Voting(origin)
    }
}

impl vstd::std_specs::convert::FromSpecImpl<RawOrigin> for RuntimeOrigin {
    open spec fn obeys_from_spec() -> bool {
        true
    }

    open spec fn from_spec(origin: RawOrigin) -> RuntimeOrigin {
        RuntimeOrigin::Voting(origin)
    }
}

/// Accepts the root and nobody else.
pub open spec fn spec_ensure_root(origin: RuntimeOrigin) -> Result<(), Error> {
    match origin {
        RuntimeOrigin::Root => Ok(()),
        _ => Err(Error::BadOrigin),
    }
}

/// Accepts a signed origin, and gives the account that signed.
pub open spec fn spec_ensure_signed(origin: RuntimeOrigin) -> Result<AccountId, Error> {
    match origin {
        RuntimeOrigin::Signed(who) => Ok(who),
        _ => Err(Error::BadOrigin),
    }
}

/// Accepts the root or a signed origin, and gives the account that signed, if one did.
pub open spec fn spec_ensure_signed_or_root(origin: RuntimeOrigin) -> Result<
    Option<AccountId>,
    Error,
> {
    match origin {
        RuntimeOrigin::Root => Ok(None),
        RuntimeOrigin::Signed(who) => Ok(Some(who)),
        _ => Err(Error::BadOrigin),
    }
}

/// Accepts the root and nobody else.
#[verifier::when_used_as_spec(spec_ensure_root)]
pub fn ensure_root(origin: RuntimeOrigin) -> (checked: Result<(), Error>)
    ensures
        checked == spec_ensure_root(origin),
{
    match origin {
        RuntimeOrigin::Root => Ok(()),
        _ => Err(Error::BadOrigin),
    }
}

/// Accepts a signed origin, and gives the account that signed.
#[verifier::when_used_as_spec(spec_ensure_signed)]
pub fn ensure_signed(origin: RuntimeOrigin) -> (checked: Result<AccountId, Error>)
    ensures
        checked == spec_ensure_signed(origin),
{
    match origin {
        RuntimeOrigin::Signed(who) => Ok(who),
        _ => Err(Error::BadOrigin),
    }
}

/// Accepts the root or a signed origin, and gives the account that signed, if one did.
#[verifier::when_used_as_spec(spec_ensure_signed_or_root)]
pub fn ensure_signed_or_root(origin: RuntimeOrigin) -> (checked: Result<Option<AccountId>, Error>)
    ensures
        checked == spec_ensure_signed_or_root(origin),
{
    match origin {
        RuntimeOrigin::Root => Ok(None),
        RuntimeOrigin::Signed(who) => Ok(Some(who)),
        _ => Err(Error::BadOrigin),
    }
}

} // verus!

//! Who submits a message, and for which account the submitter stands.

use crate::parameters::ParameterStore;
use crate::primitives::AccountId;
use vstd::prelude::*;

verus! {

/// An origin of the council collective.
#[derive(Clone, Copy, Debug, PartialEq, Eq)]
pub enum CouncilOrigin {
    /// The council as a body: so many of so many members have carried the
    /// motion. This is the origin of a decision that has met its quorum.
    Members(u32, u32),
    /// A single member of the council, who speaks for nobody else.
    Member(AccountId),
}

/// Where a call comes from.
#[derive(Clone, Copy, Debug, PartialEq, Eq)]
pub enum OriginCaller {
    /// A transaction that the account has signed.
    Signed(AccountId),
    /// The council collective.
    Council(CouncilOrigin),
    /// Any other origin: root, an unsigned transaction, another collective.
    Other,
}

/// The origin of a call that wants to send a message.
#[derive(Clone, Copy, Debug, PartialEq, Eq)]
pub struct Origin {
    /// Where the call comes from.
    pub caller: OriginCaller,
}

/// The account for which a council origin stands. A decision of the council
/// as a body stands for the allowed sender, if there is one. A single
/// member of the council stands for no account, and neither does an origin
/// that is not of the council.
pub open spec fn spec_map_council_origin(
    origin: OriginCaller,
    allowed_sender: Option<AccountId>,
) -> Option<AccountId> {
    match origin {
        OriginCaller::Council(CouncilOrigin::Members(_, _)) => allowed_sender,
        _ => None,
    }
}

/// The account that pays for and owns the messages of an origin: a signed
/// origin is linked to its signer, a decision of the council as a body to
/// the allowed sender, and any other origin to no account.
pub open spec fn spec_linked_account(
    origin: OriginCaller,
    allowed_sender: Option<AccountId>,
) -> Option<AccountId> {
    match origin {
        OriginCaller::Signed(submitter) => Some(submitter),
        _ => spec_map_council_origin(origin, allowed_sender),
    }
}

/// Maps a decision of the council as a body to the account that is allowed
/// to send messages, and every other origin, a single member of the council
/// too, to no account.
pub fn map_council_origin(origin: &OriginCaller, parameters: &ParameterStore) -> (account: Option<
    AccountId,
>)
    ensures
        account == spec_map_council_origin(*origin, parameters.allowed_message_sender),
{
    match *origin {
        OriginCaller::Council(CouncilOrigin::Members(_, _)) => parameters.allowed_message_sender,
        _ => None,
    }
}

impl Origin {
    /// The account that this origin is linked to, if any.
    pub fn linked_account(&self, parameters: &ParameterStore) -> (account: Option<AccountId>)
        ensures
            account == spec_linked_account(self.caller, parameters.allowed_message_sender),
    {
        match self.caller {
            OriginCaller::Signed(submitter) => Some(submitter),
            _ => map_council_origin(&self.caller, parameters),
        }
    }
}

} // verus!

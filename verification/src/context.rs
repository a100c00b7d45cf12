//! The named-argument bag of one contract invocation.

use vstd::prelude::*;

use crate::types::AccountHash;
use crate::types::Amount;
use crate::types::PublicKey;

verus! {

/// The named arguments of one contract invocation, already coerced to the
/// types the parser reads.
///
/// Each field holds the value bound to the like-named argument of the call,
/// or `None` where the invocation bound no such value. The host that carries
/// the call hands these values over as-is; an argument whose stored value
/// cannot be coerced to the declared type counts as unbound. The parser reads
/// no other names. On the wire, the deployment threshold travels under the
/// misspelt name `deployment_thereshold`: that spelling is part of the
/// external call contract and maps to [`Self::deployment_threshold`].
pub struct InvocationContext {
    /// The requested action token.
    pub action: Option<String>,
    /// The account whose key weight is to change.
    pub account: Option<AccountHash>,
    /// A single weight, also used for the one-threshold actions.
    pub weight: Option<u8>,
    /// The new deployment threshold.
    pub deployment_threshold: Option<u8>,
    /// The new key-management threshold.
    pub key_management_threshold: Option<u8>,
    /// Accounts whose weights are set together, paired with `weights` by
    /// position.
    pub accounts: Option<Vec<AccountHash>>,
    /// Raw weight bytes, paired with `accounts` by position.
    pub weights: Option<Vec<u8>>,
    /// The delegating party of a stake operation.
    pub delegator: Option<PublicKey>,
    /// The validator of a stake operation.
    pub validator: Option<PublicKey>,
    /// The token amount of a stake operation.
    pub amount: Option<Amount>,
}

impl InvocationContext {
    /// A context with no arguments bound.
    pub fn empty() -> (r: InvocationContext)
        ensures
            r.action is None,
            r.account is None,
            r.weight is None,
            r.deployment_threshold is None,
            r.key_management_threshold is None,
            r.accounts is None,
            r.weights is None,
            r.delegator is None,
            r.validator is None,
            r.amount is None,
    {
        InvocationContext {
            action: None,
            account: None,
            weight: None,
            deployment_threshold: None,
            key_management_threshold: None,
            accounts: None,
            weights: None,
            delegator: None,
            validator: None,
            amount: None,
        }
    }
}

} // verus!

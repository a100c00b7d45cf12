//! The closed command set, and the parser that turns one invocation's
//! arguments into exactly one command or a rejection.

use vstd::prelude::*;
use vstd::string::StringExecFns;

use crate::context::InvocationContext;
use crate::types::key_eqv;
use crate::types::AccountHash;
use crate::types::Amount;
use crate::types::PublicKey;
use crate::types::Weight;

verus! {

/// Wire name of the argument that selects the action.
pub const ARG_ACTION: &'static str = "action";

/// Wire name of the account whose key weight changes.
pub const ARG_ACCOUNT: &'static str = "account";

/// Wire name of the single weight argument.
pub const ARG_WEIGHT: &'static str = "weight";

/// Wire name of the deployment threshold. The misspelling is part of the
/// external call contract and must match byte-for-byte.
pub const ARG_DEPLOYMENT_THRESHOLD: &'static str = "deployment_thereshold";

/// Wire name of the key-management threshold.
pub const ARG_KEY_MANAGEMENT_THRESHOLD: &'static str = "key_management_threshold";

/// Wire name of the batched account list.
pub const ARG_ACCOUNTS: &'static str = "accounts";

/// Wire name of the batched weight list.
pub const ARG_WEIGHTS: &'static str = "weights";

/// Wire name of the stake amount.
pub const ARG_AMOUNT: &'static str = "amount";

/// Wire name of the delegating party.
pub const ARG_DELEGATOR: &'static str = "delegator";

/// Wire name of the validator.
pub const ARG_VALIDATOR: &'static str = "validator";

/// Action token selecting [`Api::SetKeyWeight`].
pub const SET_KEY_WEIGHT: &'static str = "set_key_weight";

/// Action token selecting [`Api::SetDeploymentThreshold`].
pub const SET_DEPLOYMENT_THRESHOLD: &'static str = "set_deployment_threshold";

/// Action token selecting [`Api::SetKeyManagementThreshold`].
pub const SET_KEY_MANAGEMENT_THRESHOLD: &'static str = "set_key_management_threshold";

/// Action token selecting [`Api::SetAll`].
pub const SET_ALL: &'static str = "set_all";

/// Action token selecting [`Api::Delegate`].
pub const DELEGATE: &'static str = "delegate";

/// Action token selecting [`Api::Undelegate`].
pub const UNDELEGATE: &'static str = "undelegate";

/// Why an invocation is rejected instead of yielding a command.
#[derive(Clone, Copy, Debug, PartialEq, Eq, Structural)]
pub enum ApiError {
    /// The action string names no recognized command.
    UnknownApiCommand,
    /// A required named argument is not bound in the invocation context.
    MissingArgument,
}

/// One fully-typed command of the account-management contract: the identity
/// of the requested operation together with its whole payload. The set is
/// closed; consumers match exhaustively.
#[derive(Debug)]
pub enum Api {
    /// Set one account key's signature weight.
    SetKeyWeight(AccountHash, Weight),
    /// Set the threshold for authorizing a deployment.
    SetDeploymentThreshold(Weight),
    /// Set the threshold for authorizing a key-management change.
    SetKeyManagementThreshold(Weight),
    /// Set both thresholds and a batch of key weights at once. The account
    /// and weight sequences are paired by position; their lengths are the
    /// caller's responsibility and are not cross-checked here.
    SetAll(Weight, Weight, Vec<AccountHash>, Vec<Weight>),
    /// Bond an amount of stake from a delegator to a validator.
    Delegate(PublicKey, PublicKey, Amount),
    /// Withdraw an amount of stake bonded from a delegator to a validator.
    Undelegate(PublicKey, PublicKey, Amount),
}

/// Whether `action` is one of the recognized action tokens. The match is
/// case-sensitive and exact.
pub open spec fn recognized_action(action: Seq<char>) -> bool {
    ||| action == SET_KEY_WEIGHT@
    ||| action == SET_DEPLOYMENT_THRESHOLD@
    ||| action == SET_KEY_MANAGEMENT_THRESHOLD@
    ||| action == SET_ALL@
    ||| action == DELEGATE@
    ||| action == UNDELEGATE@
}

/// Whether the context binds every argument the named action requires.
/// An unrecognized action requires nothing, so the predicate holds of it
/// vacuously; a context with no action bound satisfies nothing.
pub open spec fn has_required_args(ctx: InvocationContext) -> bool {
    match ctx.action {
        None => false,
        Some(action) => {
            if action@ == SET_KEY_WEIGHT@ {
                ctx.account is Some && ctx.weight is Some
            } else if action@ == SET_DEPLOYMENT_THRESHOLD@ {
                ctx.weight is Some
            } else if action@ == SET_KEY_MANAGEMENT_THRESHOLD@ {
                ctx.weight is Some
            } else if action@ == SET_ALL@ {
                &&& ctx.deployment_threshold is Some
                &&& ctx.key_management_threshold is Some
                &&& ctx.accounts is Some
                &&& ctx.weights is Some
            } else if action@ == DELEGATE@ || action@ == UNDELEGATE@ {
                ctx.delegator is Some && ctx.validator is Some && ctx.amount is Some
            } else {
                true
            }
        },
    }
}

/// What parsing a context must yield: the command variant selected by the
/// action token, its fields equal to the bound argument values, or the exact
/// rejection. This predicate pins `r` for every context.
pub open spec fn parses_to(ctx: InvocationContext, r: Result<Api, ApiError>) -> bool {
    match ctx.action {
        None => r == Err::<Api, ApiError>(ApiError::MissingArgument),
        Some(action) => {
            if action@ == SET_KEY_WEIGHT@ {
                match (ctx.account, ctx.weight) {
                    (Some(account), Some(weight)) => {
                        &&& r matches Ok(Api::SetKeyWeight(a, w))
                        &&& a == account
                        &&& w.spec_value() == weight
                    },
                    _ => r == Err::<Api, ApiError>(ApiError::MissingArgument),
                }
            } else if action@ == SET_DEPLOYMENT_THRESHOLD@ {
                match ctx.weight {
                    Some(weight) => {
                        &&& r matches Ok(Api::SetDeploymentThreshold(w))
                        &&& w.spec_value() == weight
                    },
                    None => r == Err::<Api, ApiError>(ApiError::MissingArgument),
                }
            } else if action@ == SET_KEY_MANAGEMENT_THRESHOLD@ {
                match ctx.weight {
                    Some(weight) => {
                        &&& r matches Ok(Api::SetKeyManagementThreshold(w))
                        &&& w.spec_value() == weight
                    },
                    None => r == Err::<Api, ApiError>(ApiError::MissingArgument),
                }
            } else if action@ == SET_ALL@ {
                match (ctx.deployment_threshold, ctx.key_management_threshold, ctx.accounts, ctx.weights) {
                    (Some(dt), Some(kt), Some(accounts), Some(weights)) => {
                        &&& r matches Ok(Api::SetAll(d, k, accs, ws))
                        &&& d.spec_value() == dt
                        &&& k.spec_value() == kt
                        &&& accs == accounts
                        &&& ws@.len() == weights@.len()
                        &&& forall|i: int| 0 <= i < ws@.len() ==> ws@[i].spec_value() == weights@[i]
                    },
                    _ => r == Err::<Api, ApiError>(ApiError::MissingArgument),
                }
            } else if action@ == DELEGATE@ {
                match (ctx.delegator, ctx.validator, ctx.amount) {
                    (Some(delegator), Some(validator), Some(amount)) => {
                        &&& r matches Ok(Api::Delegate(d, v, a))
                        &&& d == delegator
                        &&& v == validator
                        &&& a == amount
                    },
                    _ => r == Err::<Api, ApiError>(ApiError::MissingArgument),
                }
            } else if action@ == UNDELEGATE@ {
                match (ctx.delegator, ctx.validator, ctx.amount) {
                    (Some(delegator), Some(validator), Some(amount)) => {
                        &&& r matches Ok(Api::Undelegate(d, v, a))
                        &&& d == delegator
                        &&& v == validator
                        &&& a == amount
                    },
                    _ => r == Err::<Api, ApiError>(ApiError::MissingArgument),
                }
            } else {
                r == Err::<Api, ApiError>(ApiError::UnknownApiCommand)
            }
        },
    }
}

/// Whether the string equals the given token, character for character.
fn token_eq(s: &String, token: &str) -> (r: bool)
    ensures
        r == (s@ == token@),
{
    let t: String = String::from_str(token);
    *s == t
}

/// Coerces a sequence of raw weight bytes to weights, preserving order.
pub fn weights_of_bytes(bytes: Vec<u8>) -> (r: Vec<Weight>)
    ensures
        r@.len() == bytes@.len(),
        forall|i: int| 0 <= i < bytes@.len() ==> r@[i].spec_value() == bytes@[i],
{
    let mut out: Vec<Weight> = Vec::new();
    let mut i: usize = 0;
    while i < bytes.len()
        invariant
            0 <= i <= bytes@.len(),
            out@.len() == i,
            forall|j: int| 0 <= j < i ==> out@[j].spec_value() == bytes@[j],
        decreases bytes@.len() - i,
    {
        out.push(Weight::new(bytes[i]));
        i += 1;
    }
    out
}

/// Gathers the three arguments shared by the stake operations, failing on
/// the first one that is unbound.
fn delegate_args(
    delegator: Option<PublicKey>,
    validator: Option<PublicKey>,
    amount: Option<Amount>,
) -> (r: Result<(PublicKey, PublicKey, Amount), ApiError>)
    ensures
        match (delegator, validator, amount) {
            (Some(d), Some(v), Some(a)) => r == Ok::<(PublicKey, PublicKey, Amount), ApiError>(
                (d, v, a),
            ),
            _ => r == Err::<(PublicKey, PublicKey, Amount), ApiError>(ApiError::MissingArgument),
        },
{
    let d = match delegator {
        Some(d) => d,
        None => {
            return Err(ApiError::MissingArgument);
        },
    };
    let v = match validator {
        Some(v) => v,
        None => {
            return Err(ApiError::MissingArgument);
        },
    };
    let a = match amount {
        Some(a) => a,
        None => {
            return Err(ApiError::MissingArgument);
        },
    };
    Ok((d, v, a))
}

impl Api {
    /// Parses one invocation: reads the action token, compares it against the
    /// fixed command set, gathers the arguments that action requires, and
    /// builds the command. Exactly one command is produced, or the whole
    /// invocation is rejected — an unrecognized token as an unknown command,
    /// an unbound required argument as a missing argument — with no partial
    /// command ever built.
    pub fn from_args(ctx: InvocationContext) -> (r: Result<Api, ApiError>)
        ensures
            parses_to(ctx, r),
    {
        let InvocationContext {
            action,
            account,
            weight,
            deployment_threshold,
            key_management_threshold,
            accounts,
            weights,
            delegator,
            validator,
            amount,
        } = ctx;
        let action = match action {
            Some(a) => a,
            None => {
                return Err(ApiError::MissingArgument);
            },
        };
        if token_eq(&action, SET_KEY_WEIGHT) {
            let account = match account {
                Some(a) => a,
                None => {
                    return Err(ApiError::MissingArgument);
                },
            };
            let weight = match weight {
                Some(w) => w,
                None => {
                    return Err(ApiError::MissingArgument);
                },
            };
            Ok(Api::SetKeyWeight(account, Weight::new(weight)))
        } else if token_eq(&action, SET_DEPLOYMENT_THRESHOLD) {
            let threshold = match weight {
                Some(w) => w,
                None => {
                    return Err(ApiError::MissingArgument);
                },
            };
            Ok(Api::SetDeploymentThreshold(Weight::new(threshold)))
        } else if token_eq(&action, SET_KEY_MANAGEMENT_THRESHOLD) {
            let threshold = match weight {
                Some(w) => w,
                None => {
                    return Err(ApiError::MissingArgument);
                },
            };
            Ok(Api::SetKeyManagementThreshold(Weight::new(threshold)))
        } else if token_eq(&action, SET_ALL) {
            let dt = match deployment_threshold {
                Some(t) => t,
                None => {
                    return Err(ApiError::MissingArgument);
                },
            };
            let kt = match key_management_threshold {
                Some(t) => t,
                None => {
                    return Err(ApiError::MissingArgument);
                },
            };
            let accounts = match accounts {
                Some(a) => a,
                None => {
                    return Err(ApiError::MissingArgument);
                },
            };
            let weights = match weights {
                Some(w) => w,
                None => {
                    return Err(ApiError::MissingArgument);
                },
            };
            Ok(Api::SetAll(Weight::new(dt), Weight::new(kt), accounts, weights_of_bytes(weights)))
        } else if token_eq(&action, DELEGATE) {
            let (d, v, a) = match delegate_args(delegator, validator, amount) {
                Ok(t) => t,
                Err(e) => {
                    return Err(e);
                },
            };
            Ok(Api::Delegate(d, v, a))
        } else if token_eq(&action, UNDELEGATE) {
            let (d, v, a) = match delegate_args(delegator, validator, amount) {
                Ok(t) => t,
                Err(e) => {
                    return Err(e);
                },
            };
            Ok(Api::Undelegate(d, v, a))
        } else {
            Err(ApiError::UnknownApiCommand)
        }
    }
}

/// Structural equality of commands: same variant, fields equal value for
/// value — weights by their byte, accounts by their bytes, sequences
/// pointwise in order, keys by algorithm and bytes, amounts limb for limb.
pub open spec fn api_eqv(a: Api, b: Api) -> bool {
    match (a, b) {
        (Api::SetKeyWeight(a1, w1), Api::SetKeyWeight(a2, w2)) => {
            a1.spec_bytes() == a2.spec_bytes() && w1.spec_value() == w2.spec_value()
        },
        (Api::SetDeploymentThreshold(w1), Api::SetDeploymentThreshold(w2)) => {
            w1.spec_value() == w2.spec_value()
        },
        (Api::SetKeyManagementThreshold(w1), Api::SetKeyManagementThreshold(w2)) => {
            w1.spec_value() == w2.spec_value()
        },
        (Api::SetAll(d1, k1, l1, v1), Api::SetAll(d2, k2, l2, v2)) => {
            &&& d1.spec_value() == d2.spec_value()
            &&& k1.spec_value() == k2.spec_value()
            &&& l1@.len() == l2@.len()
            &&& forall|i: int| 0 <= i < l1@.len() ==> l1@[i].spec_bytes() == l2@[i].spec_bytes()
            &&& v1@.len() == v2@.len()
            &&& forall|i: int| 0 <= i < v1@.len() ==> v1@[i].spec_value() == v2@[i].spec_value()
        },
        (Api::Delegate(x1, y1, z1), Api::Delegate(x2, y2, z2)) => {
            key_eqv(x1, x2) && key_eqv(y1, y2) && z1.spec_limbs() == z2.spec_limbs()
        },
        (Api::Undelegate(x1, y1, z1), Api::Undelegate(x2, y2, z2)) => {
            key_eqv(x1, x2) && key_eqv(y1, y2) && z1.spec_limbs() == z2.spec_limbs()
        },
        _ => false,
    }
}

impl PartialEq for Api {
    fn eq(&self, other: &Api) -> (r: bool) {
        match (self, other) {
            (Api::SetKeyWeight(a1, w1), Api::SetKeyWeight(a2, w2)) => a1 == a2 && w1 == w2,
            (Api::SetDeploymentThreshold(w1), Api::SetDeploymentThreshold(w2)) => w1 == w2,
            (
                Api::SetKeyManagementThreshold(w1),
                Api::SetKeyManagementThreshold(w2),
            ) => w1 == w2,
            (Api::SetAll(d1, k1, l1, v1), Api::SetAll(d2, k2, l2, v2)) => {
                d1 == d2 && k1 == k2 && l1 == l2 && v1 == v2
            },
            (Api::Delegate(x1, y1, z1), Api::Delegate(x2, y2, z2)) => {
                x1 == x2 && y1 == y2 && z1 == z2
            },
            (Api::Undelegate(x1, y1, z1), Api::Undelegate(x2, y2, z2)) => {
                x1 == x2 && y1 == y2 && z1 == z2
            },
            _ => false,
        }
    }
}

impl vstd::std_specs::cmp::PartialEqSpecImpl for Api {
    open spec fn obeys_eq_spec() -> bool {
        true
    }

    open spec fn eq_spec(&self, other: &Api) -> bool {
        api_eqv(*self, *other)
    }
}

/// Law: a command is produced exactly when the action is bound, recognized,
/// and accompanied by its full argument set.
pub proof fn lemma_ok_iff_recognized_and_complete(
    ctx: InvocationContext,
    r: Result<Api, ApiError>,
)
    requires
        parses_to(ctx, r),
    ensures
        r is Ok <==> (ctx.action matches Some(action) && recognized_action(action@)
            && has_required_args(ctx)),
{
}

/// Law: any action string outside the recognized set — however close — is
/// rejected as an unknown command, and no command is produced.
pub proof fn lemma_unknown_action_rejected(ctx: InvocationContext, r: Result<Api, ApiError>)
    requires
        parses_to(ctx, r),
        ctx.action matches Some(action) && !recognized_action(action@),
    ensures
        r == Err::<Api, ApiError>(ApiError::UnknownApiCommand),
{
}

/// Law: a recognized action with any required argument unbound is rejected
/// as a missing argument, before any command is built.
pub proof fn lemma_missing_argument_rejected(ctx: InvocationContext, r: Result<Api, ApiError>)
    requires
        parses_to(ctx, r),
        ctx.action matches Some(action) && recognized_action(action@),
        !has_required_args(ctx),
    ensures
        r == Err::<Api, ApiError>(ApiError::MissingArgument),
{
}

/// Law: parsing is a pure function of the context. Two parses of the same
/// unchanged context yield structurally equal results: equal commands, or
/// the same rejection.
pub proof fn lemma_parse_deterministic(
    ctx: InvocationContext,
    r1: Result<Api, ApiError>,
    r2: Result<Api, ApiError>,
)
    requires
        parses_to(ctx, r1),
        parses_to(ctx, r2),
    ensures
        match (r1, r2) {
            (Ok(c1), Ok(c2)) => api_eqv(c1, c2),
            (Err(e1), Err(e2)) => e1 == e2,
            _ => false,
        },
{
    match (r1, r2) {
        (Ok(c1), Ok(c2)) => {
            match (c1, c2) {
                (Api::SetAll(d1, k1, l1, v1), Api::SetAll(d2, k2, l2, v2)) => {
                    assert forall|i: int| 0 <= i < l1@.len() implies l1@[i].spec_bytes()
                        == l2@[i].spec_bytes() by {}
                    assert forall|i: int| 0 <= i < v1@.len() implies v1@[i].spec_value()
                        == v2@[i].spec_value() by {
                        match ctx.weights {
                            Some(ws) => {
                                assert(v1@[i].spec_value() == ws@[i]);
                                assert(v2@[i].spec_value() == ws@[i]);
                            },
                            None => {},
                        }
                    }
                },
                (Api::Delegate(x1, y1, z1), Api::Delegate(x2, y2, z2)) => {
                    assert(key_eqv(x1, x2));
                    assert(key_eqv(y1, y2));
                },
                (Api::Undelegate(x1, y1, z1), Api::Undelegate(x2, y2, z2)) => {
                    assert(key_eqv(x1, x2));
                    assert(key_eqv(y1, y2));
                },
                _ => {},
            }
        },
        _ => {},
    }
}

} // verus!

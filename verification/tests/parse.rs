use account_api::api::Api;
use account_api::api::ApiError;
use account_api::context::InvocationContext;
use account_api::types::AccountHash;
use account_api::types::Amount;
use account_api::types::PublicKey;
use account_api::types::Weight;

fn ctx_with_action(action: &str) -> InvocationContext {
    InvocationContext { action: Some(action.to_string()), ..InvocationContext::empty() }
}

fn delegate_ctx(action: &str) -> InvocationContext {
    let mut ctx = ctx_with_action(action);
    ctx.delegator = Some(PublicKey::Ed25519(vec![1u8; 32]));
    ctx.validator = Some(PublicKey::Ed25519(vec![2u8; 32]));
    ctx.amount = Some(Amount::from_u64(500_000_000_000));
    ctx
}

#[test]
fn set_key_weight_parses() {
    let mut ctx = ctx_with_action("set_key_weight");
    ctx.account = Some(AccountHash::new([0xAA; 32]));
    ctx.weight = Some(3);
    let r = Api::from_args(ctx);
    assert_eq!(r, Ok(Api::SetKeyWeight(AccountHash::new([0xAA; 32]), Weight::new(3))));
}

#[test]
fn set_deployment_threshold_parses() {
    let mut ctx = ctx_with_action("set_deployment_threshold");
    ctx.weight = Some(7);
    let r = Api::from_args(ctx);
    assert_eq!(r, Ok(Api::SetDeploymentThreshold(Weight::new(7))));
}

#[test]
fn set_key_management_threshold_parses() {
    let mut ctx = ctx_with_action("set_key_management_threshold");
    ctx.weight = Some(200);
    let r = Api::from_args(ctx);
    assert_eq!(r, Ok(Api::SetKeyManagementThreshold(Weight::new(200))));
}

#[test]
fn set_all_parses() {
    let a1 = AccountHash::new([0x01; 32]);
    let a2 = AccountHash::new([0x02; 32]);
    let mut ctx = ctx_with_action("set_all");
    ctx.deployment_threshold = Some(2);
    ctx.key_management_threshold = Some(3);
    ctx.accounts = Some(vec![a1, a2]);
    ctx.weights = Some(vec![1, 2]);
    let r = Api::from_args(ctx);
    assert_eq!(
        r,
        Ok(Api::SetAll(
            Weight::new(2),
            Weight::new(3),
            vec![a1, a2],
            vec![Weight::new(1), Weight::new(2)],
        ))
    );
}

#[test]
fn set_all_preserves_sequence_order() {
    let a1 = AccountHash::new([0x10; 32]);
    let a2 = AccountHash::new([0x20; 32]);
    let a3 = AccountHash::new([0x30; 32]);
    let mut ctx = ctx_with_action("set_all");
    ctx.deployment_threshold = Some(1);
    ctx.key_management_threshold = Some(1);
    ctx.accounts = Some(vec![a3, a1, a2]);
    ctx.weights = Some(vec![9, 4, 6]);
    match Api::from_args(ctx) {
        Ok(Api::SetAll(_, _, accounts, weights)) => {
            assert_eq!(accounts, vec![a3, a1, a2]);
            assert_eq!(weights, vec![Weight::new(9), Weight::new(4), Weight::new(6)]);
        }
        other => panic!("expected a set_all command, got {:?}", other),
    }
}

#[test]
fn delegate_parses() {
    let r = Api::from_args(delegate_ctx("delegate"));
    assert_eq!(
        r,
        Ok(Api::Delegate(
            PublicKey::Ed25519(vec![1u8; 32]),
            PublicKey::Ed25519(vec![2u8; 32]),
            Amount::from_u64(500_000_000_000),
        ))
    );
}

#[test]
fn undelegate_parses() {
    let r = Api::from_args(delegate_ctx("undelegate"));
    assert_eq!(
        r,
        Ok(Api::Undelegate(
            PublicKey::Ed25519(vec![1u8; 32]),
            PublicKey::Ed25519(vec![2u8; 32]),
            Amount::from_u64(500_000_000_000),
        ))
    );
}

#[test]
fn unknown_action_rejected() {
    let r = Api::from_args(ctx_with_action("withdraw"));
    assert_eq!(r, Err(ApiError::UnknownApiCommand));
}

#[test]
fn near_miss_actions_rejected() {
    for action in ["Set_All", "set-all", "set_all ", " set_all", "", "SET_KEY_WEIGHT", "delegate\n"] {
        let mut ctx = delegate_ctx(action);
        ctx.account = Some(AccountHash::new([0xAA; 32]));
        ctx.weight = Some(1);
        ctx.deployment_threshold = Some(1);
        ctx.key_management_threshold = Some(1);
        ctx.accounts = Some(vec![]);
        ctx.weights = Some(vec![]);
        assert_eq!(Api::from_args(ctx), Err(ApiError::UnknownApiCommand), "action {:?}", action);
    }
}

#[test]
fn no_action_rejected() {
    let r = Api::from_args(InvocationContext::empty());
    assert_eq!(r, Err(ApiError::MissingArgument));
}

#[test]
fn set_key_weight_missing_account_rejected() {
    let mut ctx = ctx_with_action("set_key_weight");
    ctx.weight = Some(3);
    assert_eq!(Api::from_args(ctx), Err(ApiError::MissingArgument));
}

#[test]
fn set_key_weight_missing_weight_rejected() {
    let mut ctx = ctx_with_action("set_key_weight");
    ctx.account = Some(AccountHash::new([0xAA; 32]));
    assert_eq!(Api::from_args(ctx), Err(ApiError::MissingArgument));
}

#[test]
fn set_deployment_threshold_missing_weight_rejected() {
    let ctx = ctx_with_action("set_deployment_threshold");
    assert_eq!(Api::from_args(ctx), Err(ApiError::MissingArgument));
}

#[test]
fn set_key_management_threshold_missing_weight_rejected() {
    let ctx = ctx_with_action("set_key_management_threshold");
    assert_eq!(Api::from_args(ctx), Err(ApiError::MissingArgument));
}

#[test]
fn set_all_missing_any_argument_rejected() {
    for missing in 0..4 {
        let mut ctx = ctx_with_action("set_all");
        if missing != 0 {
            ctx.deployment_threshold = Some(2);
        }
        if missing != 1 {
            ctx.key_management_threshold = Some(3);
        }
        if missing != 2 {
            ctx.accounts = Some(vec![AccountHash::new([0x01; 32])]);
        }
        if missing != 3 {
            ctx.weights = Some(vec![1]);
        }
        assert_eq!(Api::from_args(ctx), Err(ApiError::MissingArgument), "missing {}", missing);
    }
}

#[test]
fn delegate_missing_any_argument_rejected() {
    for missing in 0..3 {
        let mut ctx = delegate_ctx("delegate");
        if missing == 0 {
            ctx.delegator = None;
        }
        if missing == 1 {
            ctx.validator = None;
        }
        if missing == 2 {
            ctx.amount = None;
        }
        assert_eq!(Api::from_args(ctx), Err(ApiError::MissingArgument), "missing {}", missing);
    }
}

#[test]
fn undelegate_missing_amount_rejected() {
    let mut ctx = delegate_ctx("undelegate");
    ctx.amount = None;
    assert_eq!(Api::from_args(ctx), Err(ApiError::MissingArgument));
}

#[test]
fn parse_is_deterministic() {
    let r1 = Api::from_args(delegate_ctx("delegate"));
    let r2 = Api::from_args(delegate_ctx("delegate"));
    assert_eq!(r1, r2);
    let mut c1 = ctx_with_action("set_all");
    c1.deployment_threshold = Some(2);
    c1.key_management_threshold = Some(3);
    c1.accounts = Some(vec![AccountHash::new([0x05; 32])]);
    c1.weights = Some(vec![5]);
    let mut c2 = ctx_with_action("set_all");
    c2.deployment_threshold = Some(2);
    c2.key_management_threshold = Some(3);
    c2.accounts = Some(vec![AccountHash::new([0x05; 32])]);
    c2.weights = Some(vec![5]);
    assert_eq!(Api::from_args(c1), Api::from_args(c2));
}

#[test]
fn weights_of_bytes_maps_in_order() {
    let ws = account_api::api::weights_of_bytes(vec![0, 1, 255]);
    assert_eq!(ws, vec![Weight::new(0), Weight::new(1), Weight::new(255)]);
}

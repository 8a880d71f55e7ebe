use wrapped_btc::controller::burn::{burn, Burn, BurnParams};
use wrapped_btc::controller::errors::CustomError;
use wrapped_btc::controller::events::ControllerInitialized;
use wrapped_btc::controller::initialize::{initialize, initialize_once, Initialize};
use wrapped_btc::controller::state::ControllerStore;
use wrapped_btc::identity::Identity;

fn id(byte: u8) -> Identity {
    Identity::new([byte; 32])
}

fn registered_store() -> ControllerStore {
    let mut store = ControllerStore::blank();
    store.token_mint = id(1);
    store.owner = id(5);
    store.factory = id(100);
    store.members = id(101);
    store.bump = 253;
    store
}

fn burn_accounts() -> Burn {
    Burn {
        controller_store: registered_store(),
        controller_authority: id(9),
        controller_token_account: id(3),
    }
}

fn init_accounts(token_mint: Identity) -> Initialize {
    Initialize {
        payer: id(5),
        controller_store: ControllerStore::blank(),
        controller_store_bump: 253,
        token_mint,
        controller_token_account: id(3),
    }
}

#[test]
fn the_registered_factory_may_burn_from_custody() {
    let ctx = burn_accounts();
    let order = burn(&ctx, &BurnParams { amount: 1000 }, &id(100)).expect("the factory may burn");
    assert_eq!(order.mint, id(1));
    assert_eq!(order.from, id(3));
    assert_eq!(order.authority, id(9));
    assert_eq!(order.amount, 1000);
    assert_eq!(
        order.signer_seeds,
        vec![vec![99u8, 111, 110, 116, 114, 111, 108, 108, 101, 114], vec![253u8]]
    );
    assert_eq!(ctx, burn_accounts());
}

#[test]
fn any_other_caller_is_unauthorized() {
    let ctx = burn_accounts();
    for caller in [id(0), id(1), id(5), id(9), id(99), id(101), id(255)] {
        let res = burn(&ctx, &BurnParams { amount: 1000 }, &caller);
        assert_eq!(res, Err(CustomError::Unauthorized));
    }
    let mut close = [100u8; 32];
    close[31] = 101;
    let res = burn(&ctx, &BurnParams { amount: 1000 }, &Identity::new(close));
    assert_eq!(res, Err(CustomError::Unauthorized));
    assert_eq!(ctx, burn_accounts());
}

#[test]
fn the_owner_of_the_controller_is_not_the_factory() {
    let ctx = burn_accounts();
    let res = burn(&ctx, &BurnParams { amount: 1 }, &ctx.controller_store.owner);
    assert_eq!(res, Err(CustomError::Unauthorized));
}

#[test]
fn the_amount_burned_is_the_amount_asked_for() {
    let ctx = burn_accounts();
    for amount in [0u64, 1, 999, u64::MAX] {
        let order = burn(&ctx, &BurnParams { amount }, &id(100)).expect("the factory may burn");
        assert_eq!(order.amount, amount);
    }
}

#[test]
fn initialize_fills_the_record() {
    let mut ctx = init_accounts(id(1));
    let event = initialize(&mut ctx).expect("the mint is valid");
    assert_eq!(
        event,
        ControllerInitialized { token_mint: id(1), owner: id(5), controller_token_account: id(3) }
    );
    let store = ctx.controller_store;
    assert_eq!(store.token_mint, id(1));
    assert_eq!(store.owner, id(5));
    assert_eq!(store.pending_owner, Identity::zero());
    assert_eq!(store.pending_owner_program, Identity::zero());
    assert_eq!(store.pending_mint_authority, Identity::zero());
    assert_eq!(store.pending_mint_authority_program, Identity::zero());
    assert_eq!(store.factory, Identity::zero());
    assert_eq!(store.members, Identity::zero());
    assert_eq!(store.bump, 253);
    assert_eq!(ctx.payer, id(5));
    assert_eq!(ctx.token_mint, id(1));
    assert_eq!(ctx.controller_token_account, id(3));
    assert_eq!(ctx.controller_store_bump, 253);
}

#[test]
fn set_up_happens_once() {
    let mut ctx = init_accounts(id(1));
    let first = initialize_once(&mut ctx).expect("the record is blank");
    assert_eq!(
        first,
        Ok(ControllerInitialized { token_mint: id(1), owner: id(5), controller_token_account: id(3) })
    );
    let kept = ctx.controller_store;
    assert!(!kept.is_blank());
    assert_eq!(kept.token_mint, id(1));
    assert_eq!(kept.owner, id(5));
    assert_eq!(kept.bump, 253);

    ctx.payer = id(66);
    ctx.token_mint = id(77);
    ctx.controller_store_bump = 1;
    let before = ctx;
    assert_eq!(initialize_once(&mut ctx), None);
    assert_eq!(ctx, before);
    assert_eq!(ctx.controller_store, kept);

    ctx.token_mint = Identity::zero();
    let before = ctx;
    assert_eq!(initialize_once(&mut ctx), None);
    assert_eq!(ctx, before);
    assert_eq!(ctx.controller_store.token_mint, id(1));
    assert_eq!(ctx.controller_store.owner, id(5));
}

#[test]
fn set_up_of_a_blank_record_refuses_the_default_mint() {
    let mut ctx = init_accounts(Identity::zero());
    let before = ctx;
    assert_eq!(initialize_once(&mut ctx), Some(Err(CustomError::InvalidTokenAddress)));
    assert_eq!(ctx, before);
    assert!(ctx.controller_store.is_blank());

    ctx.token_mint = id(1);
    assert!(matches!(initialize_once(&mut ctx), Some(Ok(_))));
    assert_eq!(ctx.controller_store.token_mint, id(1));
}

#[test]
fn a_record_that_holds_anything_is_not_set_up() {
    let mut stores = Vec::new();
    for field in 0..9 {
        let mut store = ControllerStore::blank();
        match field {
            0 => store.token_mint = id(1),
            1 => store.owner = id(1),
            2 => store.pending_owner = id(1),
            3 => store.pending_owner_program = id(1),
            4 => store.pending_mint_authority = id(1),
            5 => store.pending_mint_authority_program = id(1),
            6 => store.factory = id(1),
            7 => store.members = id(1),
            _ => store.bump = 1,
        }
        stores.push(store);
    }
    stores.push(registered_store());
    for store in stores {
        assert!(!store.is_blank());
        let mut ctx = init_accounts(id(1));
        ctx.controller_store = store;
        let before = ctx;
        assert_eq!(initialize_once(&mut ctx), None);
        assert_eq!(ctx, before);
    }
    assert!(ControllerStore::blank().is_blank());
}

#[test]
fn initialize_refuses_the_default_mint_and_writes_nothing() {
    let mut ctx = init_accounts(Identity::zero());
    let before = ctx;
    let res = initialize(&mut ctx);
    assert_eq!(res, Err(CustomError::InvalidTokenAddress));
    assert_eq!(ctx, before);
}

#[test]
fn initialize_takes_a_mint_with_one_byte_set() {
    let mut bytes = [0u8; 32];
    bytes[31] = 1;
    let mut ctx = init_accounts(Identity::new(bytes));
    assert!(initialize(&mut ctx).is_ok());
    assert_eq!(ctx.controller_store.token_mint, Identity::new(bytes));
}

#[test]
fn a_blank_record_names_nobody() {
    let store = ControllerStore::blank();
    assert!(store.token_mint.is_default());
    assert!(store.owner.is_default());
    assert!(store.factory.is_default());
    assert!(store.members.is_default());
    assert_eq!(store.bump, 0);
    assert!(store.is_blank());
}

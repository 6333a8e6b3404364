use blueshift_escrow::error::ProtocolError;
use blueshift_escrow::escrow::{
    make, refund, take, Make, Refund, Take, TokenAccountState,
};
use blueshift_escrow::pda::derive_escrow_address;

const PROGRAM: [u8; 32] = [7u8; 32];
const MAKER: [u8; 32] = [1u8; 32];
const TAKER: [u8; 32] = [2u8; 32];
const MINT_A: [u8; 32] = [3u8; 32];
const MINT_B: [u8; 32] = [4u8; 32];

fn open_bundle(seed: u64, maker_balance: u64) -> Make {
    let (escrow_address, _) = derive_escrow_address(&PROGRAM, &MAKER, seed).unwrap();
    Make {
        maker: MAKER,
        maker_signed: true,
        mint_a: MINT_A,
        mint_b: MINT_B,
        maker_ata_a: TokenAccountState {
            mint: MINT_A,
            authority: MAKER,
            amount: maker_balance,
        },
        escrow_address,
        escrow_occupied: false,
    }
}

#[test]
fn make_stores_the_arguments_and_funds_the_vault() {
    let accounts = open_bundle(42, 1_000);
    let out = make(&PROGRAM, &accounts, 42, 600, 250).unwrap();
    assert_eq!(out.escrow.seed, 42);
    assert_eq!(out.escrow.maker, MAKER);
    assert_eq!(out.escrow.mint_a, MINT_A);
    assert_eq!(out.escrow.mint_b, MINT_B);
    assert_eq!(out.escrow.receive_amount, 250);
    assert_eq!(out.vault.amount, 600);
    assert_eq!(out.vault.mint, MINT_A);
    assert_eq!(out.vault.authority, accounts.escrow_address);
    assert_eq!(out.maker_ata_a.amount, 400);
}

#[test]
fn make_requires_the_maker_signature() {
    let mut accounts = open_bundle(42, 1_000);
    accounts.maker_signed = false;
    assert_eq!(
        make(&PROGRAM, &accounts, 42, 600, 250).unwrap_err(),
        ProtocolError::MissingSignature
    );
}

#[test]
fn make_rejects_a_forged_record_address() {
    let mut accounts = open_bundle(42, 1_000);
    accounts.escrow_address = [13u8; 32];
    assert_eq!(
        make(&PROGRAM, &accounts, 42, 600, 250).unwrap_err(),
        ProtocolError::InvalidDerivation
    );
}

#[test]
fn make_rejects_a_foreign_funding_account() {
    let mut accounts = open_bundle(42, 1_000);
    accounts.maker_ata_a.authority = TAKER;
    assert_eq!(
        make(&PROGRAM, &accounts, 42, 600, 250).unwrap_err(),
        ProtocolError::InvalidRelation
    );
}

#[test]
fn make_rejects_an_underfunded_maker() {
    let accounts = open_bundle(42, 500);
    assert_eq!(
        make(&PROGRAM, &accounts, 42, 600, 250).unwrap_err(),
        ProtocolError::InsufficientValue
    );
}

#[test]
fn make_twice_with_the_same_seed_fails_the_second_time() {
    let accounts = open_bundle(42, 1_000);
    let out = make(&PROGRAM, &accounts, 42, 600, 250).unwrap();
    let mut again = open_bundle(42, 1_000);
    again.maker_ata_a.amount = out.maker_ata_a.amount;
    again.escrow_occupied = true;
    assert_eq!(
        make(&PROGRAM, &again, 42, 600, 250).unwrap_err(),
        ProtocolError::AlreadyInitialized
    );
    assert_eq!(out.vault.amount, 600);
}

#[test]
fn zero_receive_amount_is_a_permitted_gift() {
    let accounts = open_bundle(42, 1_000);
    let out = make(&PROGRAM, &accounts, 42, 600, 0).unwrap();
    assert_eq!(out.escrow.receive_amount, 0);
}

fn settle_bundle(taker_b_balance: u64) -> Take {
    let accounts = open_bundle(42, 1_000);
    let out = make(&PROGRAM, &accounts, 42, 600, 250).unwrap();
    Take {
        taker: TAKER,
        taker_signed: true,
        maker: MAKER,
        mint_a: MINT_A,
        mint_b: MINT_B,
        taker_ata_a: TokenAccountState {
            mint: MINT_A,
            authority: TAKER,
            amount: 50,
        },
        taker_ata_b: TokenAccountState {
            mint: MINT_B,
            authority: TAKER,
            amount: taker_b_balance,
        },
        maker_ata_b: TokenAccountState {
            mint: MINT_B,
            authority: MAKER,
            amount: 10,
        },
        escrow: out.escrow,
        escrow_address: accounts.escrow_address,
        vault: out.vault,
    }
}

#[test]
fn take_moves_both_assets_exactly() {
    let accounts = settle_bundle(300);
    let out = take(&PROGRAM, &accounts).unwrap();
    assert_eq!(out.maker_ata_b.amount, 260);
    assert_eq!(out.taker_ata_b.amount, 50);
    assert_eq!(out.taker_ata_a.amount, 650);
}

#[test]
fn take_rejects_an_underfunded_taker_and_leaves_the_offer_open() {
    let accounts = settle_bundle(249);
    assert_eq!(
        take(&PROGRAM, &accounts).unwrap_err(),
        ProtocolError::InsufficientValue
    );
    assert_eq!(accounts.vault.amount, 600);
    assert_eq!(accounts.escrow.receive_amount, 250);
}

#[test]
fn take_requires_the_taker_signature() {
    let mut accounts = settle_bundle(300);
    accounts.taker_signed = false;
    assert_eq!(
        take(&PROGRAM, &accounts).unwrap_err(),
        ProtocolError::MissingSignature
    );
}

#[test]
fn take_rejects_a_vault_serving_another_record() {
    let mut accounts = settle_bundle(300);
    accounts.vault.authority = TAKER;
    assert_eq!(
        take(&PROGRAM, &accounts).unwrap_err(),
        ProtocolError::InvalidRelation
    );
}

#[test]
fn take_rejects_a_record_with_a_wrong_bump() {
    let mut accounts = settle_bundle(300);
    accounts.escrow.bump = accounts.escrow.bump.wrapping_add(1);
    assert_eq!(
        take(&PROGRAM, &accounts).unwrap_err(),
        ProtocolError::InvalidDerivation
    );
}

fn cancel_bundle() -> (Make, Refund) {
    let accounts = open_bundle(42, 1_000);
    let out = make(&PROGRAM, &accounts, 42, 600, 250).unwrap();
    let refund_accounts = Refund {
        maker: MAKER,
        maker_signed: true,
        mint_a: MINT_A,
        maker_ata_a: out.maker_ata_a,
        escrow: out.escrow,
        escrow_address: accounts.escrow_address,
        vault: out.vault,
    };
    (accounts, refund_accounts)
}

#[test]
fn refund_restores_the_makers_balance_exactly() {
    let (make_accounts, refund_accounts) = cancel_bundle();
    let restored = refund(&PROGRAM, &refund_accounts).unwrap();
    assert_eq!(
        restored.maker_ata_a.amount,
        make_accounts.maker_ata_a.amount
    );
}

#[test]
fn refund_rejects_a_caller_that_is_not_the_maker() {
    let (_, mut refund_accounts) = cancel_bundle();
    refund_accounts.maker = TAKER;
    refund_accounts.maker_ata_a.authority = TAKER;
    assert_eq!(
        refund(&PROGRAM, &refund_accounts).unwrap_err(),
        ProtocolError::InvalidRelation
    );
}

#[test]
fn refund_rejects_an_unsigned_maker() {
    let (_, mut refund_accounts) = cancel_bundle();
    refund_accounts.maker_signed = false;
    assert_eq!(
        refund(&PROGRAM, &refund_accounts).unwrap_err(),
        ProtocolError::MissingSignature
    );
}

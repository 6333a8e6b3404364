use vstd::prelude::*;
use crate::error::ProtocolError;
use crate::keys::Addr;
use crate::keys::addr_eq;
use crate::keys::escrow_seeds;
use crate::keys::escrow_seeds_with_bump;
use crate::pda::check_escrow_address;
use crate::pda::derive_escrow_address;
use crate::pda::found_pda;
use crate::pda::pda_of;

verus! {

/// The persisted record of one open offer.  Its address is derived from
/// `("escrow", maker, seed)`; every field is immutable once created.
#[derive(Clone, Copy, Debug)]
pub struct Escrow {
    /// Disambiguates multiple offers from the same maker.
    pub seed: u64,
    /// The offer's owner.
    pub maker: Addr,
    /// The asset the maker offers.
    pub mint_a: Addr,
    /// The asset the maker asks for.
    pub mint_b: Addr,
    /// How much of `mint_b` settles the offer.
    pub receive_amount: u64,
    /// The derivation nonce of the record's own address.
    pub bump: u8,
}

/// A token holding account as a transition sees it: which asset it holds,
/// who may move it, and its current balance.
#[derive(Clone, Copy, Debug)]
pub struct TokenAccountState {
    pub mint: Addr,
    pub authority: Addr,
    pub amount: u64,
}

/// The account bundle a maker supplies to open an offer.
#[derive(Clone, Copy, Debug)]
pub struct Make {
    /// The offer's owner, who funds the vault.
    pub maker: Addr,
    /// Whether the maker authorized this transition.
    pub maker_signed: bool,
    /// The offered asset.
    pub mint_a: Addr,
    /// The requested asset.
    pub mint_b: Addr,
    /// The maker's holding account for `mint_a`.
    pub maker_ata_a: TokenAccountState,
    /// The caller's claim of the record address about to be created.
    pub escrow_address: Addr,
    /// Whether an account already occupies that address.
    pub escrow_occupied: bool,
}

/// What a successful `make` creates and changes.
#[derive(Debug)]
pub struct MakeOutcome {
    /// The new record; its fields equal the call's arguments.
    pub escrow: Escrow,
    /// The new vault, owned by the record's address and funded with the
    /// deposit.
    pub vault: TokenAccountState,
    /// The maker's holding account after funding the vault.
    pub maker_ata_a: TokenAccountState,
}

/// The account bundle a counterparty supplies to settle an offer.
#[derive(Clone, Copy, Debug)]
pub struct Take {
    /// The counterparty accepting the offer.
    pub taker: Addr,
    /// Whether the taker authorized this transition.
    pub taker_signed: bool,
    /// The maker named by the record.
    pub maker: Addr,
    pub mint_a: Addr,
    pub mint_b: Addr,
    /// The taker's holding account for `mint_a`, which receives the vault's
    /// balance.
    pub taker_ata_a: TokenAccountState,
    /// The taker's holding account for `mint_b`, which pays the maker.
    pub taker_ata_b: TokenAccountState,
    /// The maker's holding account for `mint_b`.
    pub maker_ata_b: TokenAccountState,
    /// The open record.
    pub escrow: Escrow,
    /// The address the record is stored at.
    pub escrow_address: Addr,
    /// The vault holding the offered asset.
    pub vault: TokenAccountState,
}

/// What a successful `take` changes; the record and the vault no longer
/// exist afterwards, and their storage allowance returns to the maker.
#[derive(Debug)]
pub struct TakeOutcome {
    /// The taker's `mint_a` account, credited with the vault's whole
    /// balance.
    pub taker_ata_a: TokenAccountState,
    /// The taker's `mint_b` account, debited by the requested amount.
    pub taker_ata_b: TokenAccountState,
    /// The maker's `mint_b` account, credited with the requested amount.
    pub maker_ata_b: TokenAccountState,
}

/// The account bundle a maker supplies to cancel an offer.
#[derive(Clone, Copy, Debug)]
pub struct Refund {
    /// The caller, who must be the record's maker.
    pub maker: Addr,
    /// Whether the caller authorized this transition.
    pub maker_signed: bool,
    pub mint_a: Addr,
    /// The maker's holding account for `mint_a`, which receives the refund.
    pub maker_ata_a: TokenAccountState,
    /// The open record.
    pub escrow: Escrow,
    /// The address the record is stored at.
    pub escrow_address: Addr,
    /// The vault holding the offered asset.
    pub vault: TokenAccountState,
}

/// What a successful `refund` changes; the record and the vault no longer
/// exist afterwards, and their storage allowance returns to the maker.
#[derive(Debug)]
pub struct RefundOutcome {
    /// The maker's `mint_a` account, credited with the vault's whole
    /// balance.
    pub maker_ata_a: TokenAccountState,
}

/// What `make` decides once the record address has been derived: the checks
/// in the order the validation layer runs them, then the state it creates.
/// `derived` and `bump` are the derivation's result for
/// `("escrow", maker, seed)`.
pub open spec fn make_spec(
    accounts: Make,
    seed: u64,
    deposit_amount: u64,
    receive_amount: u64,
    derived: Seq<u8>,
    bump: u8,
) -> Result<MakeOutcome, ProtocolError> {
    if !accounts.maker_signed {
        Err(ProtocolError::MissingSignature)
    } else if accounts.maker_ata_a.mint != accounts.mint_a || accounts.maker_ata_a.authority
        != accounts.maker {
        Err(ProtocolError::InvalidRelation)
    } else if accounts.escrow_address@ != derived {
        Err(ProtocolError::InvalidDerivation)
    } else if accounts.escrow_occupied {
        Err(ProtocolError::AlreadyInitialized)
    } else if accounts.maker_ata_a.amount < deposit_amount {
        Err(ProtocolError::InsufficientValue)
    } else {
        Ok(
            MakeOutcome {
                escrow: Escrow {
                    seed,
                    maker: accounts.maker,
                    mint_a: accounts.mint_a,
                    mint_b: accounts.mint_b,
                    receive_amount,
                    bump,
                },
                vault: TokenAccountState {
                    mint: accounts.mint_a,
                    authority: accounts.escrow_address,
                    amount: deposit_amount,
                },
                maker_ata_a: TokenAccountState {
                    mint: accounts.maker_ata_a.mint,
                    authority: accounts.maker_ata_a.authority,
                    amount: (accounts.maker_ata_a.amount - deposit_amount) as u64,
                },
            },
        )
    }
}

/// Opens an offer, given the already-derived record address and bump for
/// `("escrow", maker, seed)`: validates the bundle, then creates the record
/// and the vault and moves the deposit in one unit.
pub fn make_derived(
    accounts: &Make,
    seed: u64,
    deposit_amount: u64,
    receive_amount: u64,
    derived: &Addr,
    bump: u8,
) -> (r: Result<MakeOutcome, ProtocolError>)
    ensures
        r == make_spec(*accounts, seed, deposit_amount, receive_amount, derived@, bump),
{
    if !accounts.maker_signed {
        return Err(ProtocolError::MissingSignature);
    }
    if !addr_eq(&accounts.maker_ata_a.mint, &accounts.mint_a) || !addr_eq(
        &accounts.maker_ata_a.authority,
        &accounts.maker,
    ) {
        return Err(ProtocolError::InvalidRelation);
    }
    if !addr_eq(&accounts.escrow_address, derived) {
        proof {
            if accounts.escrow_address@ == derived@ {
                assert(accounts.escrow_address =~= *derived);
            }
        }
        return Err(ProtocolError::InvalidDerivation);
    }
    if accounts.escrow_occupied {
        return Err(ProtocolError::AlreadyInitialized);
    }
    if accounts.maker_ata_a.amount < deposit_amount {
        return Err(ProtocolError::InsufficientValue);
    }
    Ok(
        MakeOutcome {
            escrow: Escrow {
                seed,
                maker: accounts.maker,
                mint_a: accounts.mint_a,
                mint_b: accounts.mint_b,
                receive_amount,
                bump,
            },
            vault: TokenAccountState {
                mint: accounts.mint_a,
                authority: accounts.escrow_address,
                amount: deposit_amount,
            },
            maker_ata_a: TokenAccountState {
                mint: accounts.maker_ata_a.mint,
                authority: accounts.maker_ata_a.authority,
                amount: accounts.maker_ata_a.amount - deposit_amount,
            },
        },
    )
}

/// Opens an offer: derives the record address for `("escrow", maker, seed)`
/// and proceeds as `make_spec` says; when the derivation finds no usable
/// address the bundle is rejected as wrongly derived.
pub fn make(program: &Addr, accounts: &Make, seed: u64, deposit_amount: u64, receive_amount: u64)
    -> (r: Result<MakeOutcome, ProtocolError>)
    ensures
        (match found_pda(escrow_seeds(accounts.maker, seed), program@) {
            Some((a, b)) => r == make_spec(*accounts, seed, deposit_amount, receive_amount, a, b),
            None => r == Err::<MakeOutcome, ProtocolError>(ProtocolError::InvalidDerivation),
        }),
{
    match derive_escrow_address(program, &accounts.maker, seed) {
        Some((a, b)) => make_derived(accounts, seed, deposit_amount, receive_amount, &a, b),
        None => Err(ProtocolError::InvalidDerivation),
    }
}

/// Whether the supplied accounts stand in the relations a `take` bundle
/// claims: the taker's and maker's holding accounts belong to the right
/// owners and assets, the record names the supplied maker and assets, and
/// the vault holds the offered asset for the record's address.
pub open spec fn take_relations_hold(accounts: Take) -> bool {
    &&& accounts.taker_ata_a.mint == accounts.mint_a
    &&& accounts.taker_ata_a.authority == accounts.taker
    &&& accounts.taker_ata_b.mint == accounts.mint_b
    &&& accounts.taker_ata_b.authority == accounts.taker
    &&& accounts.maker_ata_b.mint == accounts.mint_b
    &&& accounts.maker_ata_b.authority == accounts.maker
    &&& accounts.escrow.maker == accounts.maker
    &&& accounts.escrow.mint_a == accounts.mint_a
    &&& accounts.escrow.mint_b == accounts.mint_b
    &&& accounts.vault.mint == accounts.mint_a
    &&& accounts.vault.authority == accounts.escrow_address
}

/// What `take` decides: the checks in the order the validation layer runs
/// them, then the two movements.  `derived` is the recomputation of the
/// record address from its stored seed material and bump.
pub open spec fn take_spec(accounts: Take, derived: Option<Seq<u8>>) -> Result<
    TakeOutcome,
    ProtocolError,
> {
    if !accounts.taker_signed {
        Err(ProtocolError::MissingSignature)
    } else if !take_relations_hold(accounts) {
        Err(ProtocolError::InvalidRelation)
    } else if derived != Some(accounts.escrow_address@) {
        Err(ProtocolError::InvalidDerivation)
    } else if accounts.taker_ata_b.amount < accounts.escrow.receive_amount {
        Err(ProtocolError::InsufficientValue)
    } else {
        Ok(
            TakeOutcome {
                taker_ata_a: TokenAccountState {
                    mint: accounts.taker_ata_a.mint,
                    authority: accounts.taker_ata_a.authority,
                    amount: (accounts.taker_ata_a.amount + accounts.vault.amount) as u64,
                },
                taker_ata_b: TokenAccountState {
                    mint: accounts.taker_ata_b.mint,
                    authority: accounts.taker_ata_b.authority,
                    amount: (accounts.taker_ata_b.amount - accounts.escrow.receive_amount) as u64,
                },
                maker_ata_b: TokenAccountState {
                    mint: accounts.maker_ata_b.mint,
                    authority: accounts.maker_ata_b.authority,
                    amount: (accounts.maker_ata_b.amount + accounts.escrow.receive_amount) as u64,
                },
            },
        )
    }
}

/// Settles an offer: the taker pays the requested amount of `mint_b` to the
/// maker and receives the vault's whole current `mint_a` balance; then the
/// vault and the record are closed.  The record address is re-derived from
/// the record's stored seed material and bump.
pub fn take(program: &Addr, accounts: &Take) -> (r: Result<TakeOutcome, ProtocolError>)
    requires
        accounts.taker_ata_a.amount + accounts.vault.amount <= u64::MAX,
        accounts.maker_ata_b.amount + accounts.escrow.receive_amount <= u64::MAX,
    ensures
        r == take_spec(
            *accounts,
            pda_of(
                escrow_seeds_with_bump(accounts.escrow.maker, accounts.escrow.seed, accounts.escrow.bump),
                program@,
            ),
        ),
{
    if !accounts.taker_signed {
        return Err(ProtocolError::MissingSignature);
    }
    let relations = addr_eq(&accounts.taker_ata_a.mint, &accounts.mint_a) && addr_eq(
        &accounts.taker_ata_a.authority,
        &accounts.taker,
    ) && addr_eq(&accounts.taker_ata_b.mint, &accounts.mint_b) && addr_eq(
        &accounts.taker_ata_b.authority,
        &accounts.taker,
    ) && addr_eq(&accounts.maker_ata_b.mint, &accounts.mint_b) && addr_eq(
        &accounts.maker_ata_b.authority,
        &accounts.maker,
    ) && addr_eq(&accounts.escrow.maker, &accounts.maker) && addr_eq(
        &accounts.escrow.mint_a,
        &accounts.mint_a,
    ) && addr_eq(&accounts.escrow.mint_b, &accounts.mint_b) && addr_eq(
        &accounts.vault.mint,
        &accounts.mint_a,
    ) && addr_eq(&accounts.vault.authority, &accounts.escrow_address);
    if !relations {
        return Err(ProtocolError::InvalidRelation);
    }
    if !check_escrow_address(
        program,
        &accounts.escrow.maker,
        accounts.escrow.seed,
        accounts.escrow.bump,
        &accounts.escrow_address,
    ) {
        return Err(ProtocolError::InvalidDerivation);
    }
    if accounts.taker_ata_b.amount < accounts.escrow.receive_amount {
        return Err(ProtocolError::InsufficientValue);
    }
    Ok(
        TakeOutcome {
            taker_ata_a: TokenAccountState {
                mint: accounts.taker_ata_a.mint,
                authority: accounts.taker_ata_a.authority,
                amount: accounts.taker_ata_a.amount + accounts.vault.amount,
            },
            taker_ata_b: TokenAccountState {
                mint: accounts.taker_ata_b.mint,
                authority: accounts.taker_ata_b.authority,
                amount: accounts.taker_ata_b.amount - accounts.escrow.receive_amount,
            },
            maker_ata_b: TokenAccountState {
                mint: accounts.maker_ata_b.mint,
                authority: accounts.maker_ata_b.authority,
                amount: accounts.maker_ata_b.amount + accounts.escrow.receive_amount,
            },
        },
    )
}

/// Whether the supplied accounts stand in the relations a `refund` bundle
/// claims: the refund destination belongs to the caller and the offered
/// asset, the record names the caller as maker and the offered asset, and
/// the vault holds the offered asset for the record's address.
pub open spec fn refund_relations_hold(accounts: Refund) -> bool {
    &&& accounts.maker_ata_a.mint == accounts.mint_a
    &&& accounts.maker_ata_a.authority == accounts.maker
    &&& accounts.escrow.maker == accounts.maker
    &&& accounts.escrow.mint_a == accounts.mint_a
    &&& accounts.vault.mint == accounts.mint_a
    &&& accounts.vault.authority == accounts.escrow_address
}

/// What `refund` decides: the checks in the order the validation layer runs
/// them, then the refund movement.  `derived` is the recomputation of the
/// record address from its stored seed material and bump.
pub open spec fn refund_spec(accounts: Refund, derived: Option<Seq<u8>>) -> Result<
    RefundOutcome,
    ProtocolError,
> {
    if !accounts.maker_signed {
        Err(ProtocolError::MissingSignature)
    } else if !refund_relations_hold(accounts) {
        Err(ProtocolError::InvalidRelation)
    } else if derived != Some(accounts.escrow_address@) {
        Err(ProtocolError::InvalidDerivation)
    } else {
        Ok(
            RefundOutcome {
                maker_ata_a: TokenAccountState {
                    mint: accounts.maker_ata_a.mint,
                    authority: accounts.maker_ata_a.authority,
                    amount: (accounts.maker_ata_a.amount + accounts.vault.amount) as u64,
                },
            },
        )
    }
}

/// Cancels an offer: only the record's maker, having signed, gets the
/// vault's whole balance back; then the vault and the record are closed.
/// The record address is re-derived from the record's stored seed material
/// and bump.
pub fn refund(program: &Addr, accounts: &Refund) -> (r: Result<RefundOutcome, ProtocolError>)
    requires
        accounts.maker_ata_a.amount + accounts.vault.amount <= u64::MAX,
    ensures
        r == refund_spec(
            *accounts,
            pda_of(
                escrow_seeds_with_bump(accounts.escrow.maker, accounts.escrow.seed, accounts.escrow.bump),
                program@,
            ),
        ),
{
    if !accounts.maker_signed {
        return Err(ProtocolError::MissingSignature);
    }
    let relations = addr_eq(&accounts.maker_ata_a.mint, &accounts.mint_a) && addr_eq(
        &accounts.maker_ata_a.authority,
        &accounts.maker,
    ) && addr_eq(&accounts.escrow.maker, &accounts.maker) && addr_eq(
        &accounts.escrow.mint_a,
        &accounts.mint_a,
    ) && addr_eq(&accounts.vault.mint, &accounts.mint_a) && addr_eq(
        &accounts.vault.authority,
        &accounts.escrow_address,
    );
    if !relations {
        return Err(ProtocolError::InvalidRelation);
    }
    if !check_escrow_address(
        program,
        &accounts.escrow.maker,
        accounts.escrow.seed,
        accounts.escrow.bump,
        &accounts.escrow_address,
    ) {
        return Err(ProtocolError::InvalidDerivation);
    }
    Ok(
        RefundOutcome {
            maker_ata_a: TokenAccountState {
                mint: accounts.maker_ata_a.mint,
                authority: accounts.maker_ata_a.authority,
                amount: accounts.maker_ata_a.amount + accounts.vault.amount,
            },
        },
    )
}

/// Every valid `make` call on a fresh record address succeeds, stores
/// exactly the call's arguments in the record, funds the vault with exactly
/// the deposit, and debits the maker by the same amount.
pub proof fn lemma_make_stores_arguments(
    accounts: Make,
    seed: u64,
    deposit_amount: u64,
    receive_amount: u64,
    derived: Seq<u8>,
    bump: u8,
)
    requires
        accounts.maker_signed,
        accounts.maker_ata_a.mint == accounts.mint_a,
        accounts.maker_ata_a.authority == accounts.maker,
        accounts.escrow_address@ == derived,
        !accounts.escrow_occupied,
        accounts.maker_ata_a.amount >= deposit_amount,
    ensures
        make_spec(accounts, seed, deposit_amount, receive_amount, derived, bump) is Ok,
        (make_spec(accounts, seed, deposit_amount, receive_amount, derived, bump) matches Ok(out)
            ==> {
            &&& out.escrow.seed == seed
            &&& out.escrow.maker == accounts.maker
            &&& out.escrow.mint_a == accounts.mint_a
            &&& out.escrow.mint_b == accounts.mint_b
            &&& out.escrow.receive_amount == receive_amount
            &&& out.escrow.bump == bump
            &&& out.vault.mint == accounts.mint_a
            &&& out.vault.authority == accounts.escrow_address
            &&& out.vault.amount == deposit_amount
            &&& out.maker_ata_a.amount == accounts.maker_ata_a.amount - deposit_amount
        }),
{
}

/// Opening twice with the same maker and seed fails the second time with
/// `AlreadyInitialized`: the derivation is a function of the seed material,
/// so the second bundle aims at the very address the first call occupied,
/// and the first call's state is not touched because an error carries no
/// outcome.
pub proof fn lemma_make_replay(
    first: Make,
    second: Make,
    seed: u64,
    first_deposit: u64,
    first_receive: u64,
    second_deposit: u64,
    second_receive: u64,
    derived: Seq<u8>,
    bump: u8,
)
    requires
        make_spec(first, seed, first_deposit, first_receive, derived, bump) is Ok,
        second.maker == first.maker,
        second.maker_signed,
        second.maker_ata_a.mint == second.mint_a,
        second.maker_ata_a.authority == second.maker,
        second.escrow_address@ == derived,
        second.escrow_occupied,
    ensures
        make_spec(second, seed, second_deposit, second_receive, derived, bump) == Err::<
            MakeOutcome,
            ProtocolError,
        >(ProtocolError::AlreadyInitialized),
{
}

/// `refund` rejects any caller that did not sign or is not the record's
/// maker, before anything moves.
pub proof fn lemma_refund_requires_maker(accounts: Refund, derived: Option<Seq<u8>>)
    requires
        !accounts.maker_signed || accounts.maker != accounts.escrow.maker,
    ensures
        refund_spec(accounts, derived) == Err::<RefundOutcome, ProtocolError>(
            ProtocolError::MissingSignature,
        ) || refund_spec(accounts, derived) == Err::<RefundOutcome, ProtocolError>(
            ProtocolError::InvalidRelation,
        ),
{
}

/// `refund` by the signing maker of a well-related, well-derived bundle
/// always succeeds and credits the maker with exactly the vault's
/// pre-cancel balance.
pub proof fn lemma_refund_by_maker(accounts: Refund, derived: Option<Seq<u8>>)
    requires
        accounts.maker_signed,
        refund_relations_hold(accounts),
        derived == Some(accounts.escrow_address@),
        accounts.maker_ata_a.amount + accounts.vault.amount <= u64::MAX,
    ensures
        refund_spec(accounts, derived) matches Ok(out) && out.maker_ata_a.amount
            == accounts.maker_ata_a.amount + accounts.vault.amount,
{
}

/// A counterparty lacking the requested amount is rejected with
/// `InsufficientValue`; the record stays open and the vault untouched,
/// because an error carries no outcome.
pub proof fn lemma_take_insufficient(accounts: Take, derived: Option<Seq<u8>>)
    requires
        accounts.taker_signed,
        take_relations_hold(accounts),
        derived == Some(accounts.escrow_address@),
        accounts.taker_ata_b.amount < accounts.escrow.receive_amount,
    ensures
        take_spec(accounts, derived) == Err::<TakeOutcome, ProtocolError>(
            ProtocolError::InsufficientValue,
        ),
{
}

/// A successful `take` credits the maker with exactly the requested amount
/// and the taker with exactly the vault's whole pre-settle balance, and
/// debits the taker by exactly the requested amount; the record and the
/// vault no longer exist afterwards.
pub proof fn lemma_take_moves_exact(accounts: Take, derived: Option<Seq<u8>>)
    requires
        take_spec(accounts, derived) is Ok,
        accounts.taker_ata_a.amount + accounts.vault.amount <= u64::MAX,
        accounts.maker_ata_b.amount + accounts.escrow.receive_amount <= u64::MAX,
    ensures
        (take_spec(accounts, derived) matches Ok(out) ==> {
            &&& out.maker_ata_b.amount == accounts.maker_ata_b.amount
                + accounts.escrow.receive_amount
            &&& out.taker_ata_a.amount == accounts.taker_ata_a.amount + accounts.vault.amount
            &&& out.taker_ata_b.amount == accounts.taker_ata_b.amount
                - accounts.escrow.receive_amount
        }),
{
}

/// Opening an offer and then cancelling it restores the maker's offered
/// balance exactly.
pub proof fn lemma_make_then_refund(
    make_accounts: Make,
    seed: u64,
    deposit_amount: u64,
    receive_amount: u64,
    derived: Seq<u8>,
    bump: u8,
    refund_accounts: Refund,
    refund_derived: Option<Seq<u8>>,
)
    requires
        make_spec(make_accounts, seed, deposit_amount, receive_amount, derived, bump) matches Ok(
            out,
        ) && {
            &&& refund_accounts.maker == make_accounts.maker
            &&& refund_accounts.maker_signed
            &&& refund_accounts.mint_a == make_accounts.mint_a
            &&& refund_accounts.maker_ata_a == out.maker_ata_a
            &&& refund_accounts.escrow == out.escrow
            &&& refund_accounts.escrow_address == make_accounts.escrow_address
            &&& refund_accounts.vault == out.vault
        },
        refund_derived == Some(refund_accounts.escrow_address@),
    ensures
        refund_spec(refund_accounts, refund_derived) matches Ok(restored)
            && restored.maker_ata_a.amount == make_accounts.maker_ata_a.amount,
{
}

} // verus!

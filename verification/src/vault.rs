use vstd::prelude::*;
use crate::bytes::le_val;
use crate::bytes::u64_from_le;
use crate::error::ProtocolError;
use crate::keys::Addr;
use crate::keys::addr_eq;
use crate::keys::vault_seeds;
use crate::pda::derive_vault_address;
use crate::pda::found_pda;

verus! {

/// A base-layer account as a vault transition sees it: its address, the
/// program that owns it, its balance, and whether it signed.
#[derive(Clone, Copy, Debug)]
pub struct SystemAccountState {
    pub address: Addr,
    pub owner_program: Addr,
    pub lamports: u64,
    pub signed: bool,
}

/// The operation the first payload byte selects.
#[derive(Clone, Copy, Debug, PartialEq, Eq, Structural)]
pub enum VaultOp {
    /// Move the given amount from the owner into the owner's vault.
    Deposit(u64),
    /// Move the vault's whole balance back to the owner.
    Withdraw,
}

/// What a successful vault transition changes: the owner's and the vault's
/// balances after the movement.
#[derive(Debug)]
pub struct VaultOutcome {
    pub owner: SystemAccountState,
    pub vault: SystemAccountState,
}

/// The result of an address search, as contracts see it.
pub open spec fn derived_view(d: Option<(Addr, u8)>) -> Option<(Seq<u8>, u8)> {
    match d {
        Some((a, b)) => Some((a@, b)),
        None => None,
    }
}

/// What the payload denotes: byte 0 selects the operation; a deposit carries
/// exactly one 8-byte little-endian amount; anything else is malformed.
pub open spec fn parse_spec(data: Seq<u8>) -> Result<VaultOp, ProtocolError> {
    if data.len() == 0 {
        Err(ProtocolError::MalformedPayload)
    } else if data[0] == 0 {
        if data.len() != 9 {
            Err(ProtocolError::MalformedPayload)
        } else {
            Ok(VaultOp::Deposit(le_val(data.subrange(1, 9)) as u64))
        }
    } else if data[0] == 1 {
        Ok(VaultOp::Withdraw)
    } else {
        Err(ProtocolError::MalformedPayload)
    }
}

/// Decodes an instruction payload into the operation it selects.
pub fn parse_instruction(data: &Vec<u8>) -> (r: Result<VaultOp, ProtocolError>)
    ensures
        r == parse_spec(data@),
{
    if data.len() == 0 {
        return Err(ProtocolError::MalformedPayload);
    }
    let tag = data[0];
    if tag == 0 {
        if data.len() != 9 {
            return Err(ProtocolError::MalformedPayload);
        }
        let mut field: Vec<u8> = Vec::new();
        let mut i: usize = 1;
        while i < 9
            invariant
                1 <= i <= 9,
                data@.len() == 9,
                field@.len() == i - 1,
                forall|j: int| 0 <= j < i - 1 ==> field@[j] == data@[j + 1],
            decreases 9 - i,
        {
            field.push(data[i]);
            i = i + 1;
        }
        proof {
            assert(field@ =~= data@.subrange(1, 9));
        }
        let amount = u64_from_le(&field);
        Ok(VaultOp::Deposit(amount))
    } else if tag == 1 {
        Ok(VaultOp::Withdraw)
    } else {
        Err(ProtocolError::MalformedPayload)
    }
}

/// What `deposit` decides: a positive amount, an authorizing owner, a vault
/// still held unfunded by the base system layer at the derived address, and
/// an owner balance that covers the deposit; then the movement.  `derived`
/// is the address search's result for `("vault", owner)`.
pub open spec fn deposit_spec(
    owner: SystemAccountState,
    vault: SystemAccountState,
    system_program: Addr,
    amount: u64,
    derived: Option<(Seq<u8>, u8)>,
) -> Result<VaultOutcome, ProtocolError> {
    if amount == 0 {
        Err(ProtocolError::InsufficientValue)
    } else if !owner.signed {
        Err(ProtocolError::MissingSignature)
    } else if vault.owner_program != system_program {
        Err(ProtocolError::InvalidOwnership)
    } else if vault.lamports != 0 {
        Err(ProtocolError::AlreadyInitialized)
    } else if !(derived matches Some((a, _)) && a == vault.address@) {
        Err(ProtocolError::InvalidDerivation)
    } else if owner.lamports < amount {
        Err(ProtocolError::InsufficientValue)
    } else {
        Ok(
            VaultOutcome {
                owner: SystemAccountState {
                    address: owner.address,
                    owner_program: owner.owner_program,
                    lamports: (owner.lamports - amount) as u64,
                    signed: owner.signed,
                },
                vault: SystemAccountState {
                    address: vault.address,
                    owner_program: vault.owner_program,
                    lamports: amount,
                    signed: vault.signed,
                },
            },
        )
    }
}

/// What `withdraw` decides: an authorizing owner and a funded vault held by
/// the base system layer at the derived address; then the whole balance
/// moves back.  `derived` is the address search's result for
/// `("vault", owner)`.
pub open spec fn withdraw_spec(
    owner: SystemAccountState,
    vault: SystemAccountState,
    system_program: Addr,
    derived: Option<(Seq<u8>, u8)>,
) -> Result<VaultOutcome, ProtocolError> {
    if !owner.signed {
        Err(ProtocolError::MissingSignature)
    } else if vault.owner_program != system_program {
        Err(ProtocolError::InvalidOwnership)
    } else if vault.lamports == 0 {
        Err(ProtocolError::InsufficientValue)
    } else if !(derived matches Some((a, _)) && a == vault.address@) {
        Err(ProtocolError::InvalidDerivation)
    } else {
        Ok(
            VaultOutcome {
                owner: SystemAccountState {
                    address: owner.address,
                    owner_program: owner.owner_program,
                    lamports: (owner.lamports + vault.lamports) as u64,
                    signed: owner.signed,
                },
                vault: SystemAccountState {
                    address: vault.address,
                    owner_program: vault.owner_program,
                    lamports: 0,
                    signed: vault.signed,
                },
            },
        )
    }
}

fn derivation_matches(derived: &Option<(Addr, u8)>, candidate: &Addr) -> (r: bool)
    ensures
        r <==> (derived_view(*derived) matches Some((a, _)) && a == candidate@),
{
    match derived {
        Some((a, _)) => {
            let r = addr_eq(a, candidate);
            proof {
                if a@ == candidate@ {
                    assert(*a =~= *candidate);
                }
            }
            r
        },
        None => false,
    }
}

/// Deposits `amount` into the owner's vault, given the address search's
/// result for `("vault", owner)`.
pub fn deposit_derived(
    owner: &SystemAccountState,
    vault: &SystemAccountState,
    system_program: &Addr,
    amount: u64,
    derived: &Option<(Addr, u8)>,
) -> (r: Result<VaultOutcome, ProtocolError>)
    ensures
        r == deposit_spec(*owner, *vault, *system_program, amount, derived_view(*derived)),
{
    if amount == 0 {
        return Err(ProtocolError::InsufficientValue);
    }
    if !owner.signed {
        return Err(ProtocolError::MissingSignature);
    }
    if !addr_eq(&vault.owner_program, system_program) {
        return Err(ProtocolError::InvalidOwnership);
    }
    if vault.lamports != 0 {
        return Err(ProtocolError::AlreadyInitialized);
    }
    if !derivation_matches(derived, &vault.address) {
        return Err(ProtocolError::InvalidDerivation);
    }
    if owner.lamports < amount {
        return Err(ProtocolError::InsufficientValue);
    }
    Ok(
        VaultOutcome {
            owner: SystemAccountState {
                address: owner.address,
                owner_program: owner.owner_program,
                lamports: owner.lamports - amount,
                signed: owner.signed,
            },
            vault: SystemAccountState {
                address: vault.address,
                owner_program: vault.owner_program,
                lamports: amount,
                signed: vault.signed,
            },
        },
    )
}

/// Withdraws the vault's whole balance, given the address search's result
/// for `("vault", owner)`.
pub fn withdraw_derived(
    owner: &SystemAccountState,
    vault: &SystemAccountState,
    system_program: &Addr,
    derived: &Option<(Addr, u8)>,
) -> (r: Result<VaultOutcome, ProtocolError>)
    requires
        owner.lamports + vault.lamports <= u64::MAX,
    ensures
        r == withdraw_spec(*owner, *vault, *system_program, derived_view(*derived)),
{
    if !owner.signed {
        return Err(ProtocolError::MissingSignature);
    }
    if !addr_eq(&vault.owner_program, system_program) {
        return Err(ProtocolError::InvalidOwnership);
    }
    if vault.lamports == 0 {
        return Err(ProtocolError::InsufficientValue);
    }
    if !derivation_matches(derived, &vault.address) {
        return Err(ProtocolError::InvalidDerivation);
    }
    Ok(
        VaultOutcome {
            owner: SystemAccountState {
                address: owner.address,
                owner_program: owner.owner_program,
                lamports: owner.lamports + vault.lamports,
                signed: owner.signed,
            },
            vault: SystemAccountState {
                address: vault.address,
                owner_program: vault.owner_program,
                lamports: 0,
                signed: vault.signed,
            },
        },
    )
}

/// Deposits `amount` into the owner's vault: derives the vault address for
/// `("vault", owner)` under `program` and proceeds as `deposit_spec` says.
pub fn deposit(
    program: &Addr,
    system_program: &Addr,
    owner: &SystemAccountState,
    vault: &SystemAccountState,
    amount: u64,
) -> (r: Result<VaultOutcome, ProtocolError>)
    ensures
        r == deposit_spec(
            *owner,
            *vault,
            *system_program,
            amount,
            found_pda(vault_seeds(owner.address), program@),
        ),
{
    let derived = derive_vault_address(program, &owner.address);
    deposit_derived(owner, vault, system_program, amount, &derived)
}

/// Withdraws the vault's whole balance to its owner: derives the vault
/// address for `("vault", owner)` under `program` and proceeds as
/// `withdraw_spec` says.
pub fn withdraw(
    program: &Addr,
    system_program: &Addr,
    owner: &SystemAccountState,
    vault: &SystemAccountState,
) -> (r: Result<VaultOutcome, ProtocolError>)
    requires
        owner.lamports + vault.lamports <= u64::MAX,
    ensures
        r == withdraw_spec(
            *owner,
            *vault,
            *system_program,
            found_pda(vault_seeds(owner.address), program@),
        ),
{
    let derived = derive_vault_address(program, &owner.address);
    withdraw_derived(owner, vault, system_program, &derived)
}

/// What one vault instruction does to the fixed account list
/// `[owner, vault, system program]`: a wrong count is rejected before any
/// other check, then the payload selects the operation.
pub open spec fn vault_step_spec(
    accounts: Seq<SystemAccountState>,
    data: Seq<u8>,
    system_program: Addr,
    derived: Option<(Seq<u8>, u8)>,
) -> Result<VaultOutcome, ProtocolError> {
    if accounts.len() != 3 {
        Err(ProtocolError::AccountMissing)
    } else {
        match parse_spec(data) {
            Err(e) => Err(e),
            Ok(VaultOp::Deposit(amount)) => deposit_spec(
                accounts[0],
                accounts[1],
                system_program,
                amount,
                derived,
            ),
            Ok(VaultOp::Withdraw) => withdraw_spec(accounts[0], accounts[1], system_program, derived),
        }
    }
}

/// Runs one vault instruction against the fixed account list
/// `[owner, vault, system program]`.
pub fn process_instruction(
    program: &Addr,
    system_program: &Addr,
    accounts: &Vec<SystemAccountState>,
    data: &Vec<u8>,
) -> (r: Result<VaultOutcome, ProtocolError>)
    requires
        accounts@.len() == 3 ==> accounts@[0].lamports + accounts@[1].lamports <= u64::MAX,
    ensures
        r == vault_step_spec(
            accounts@,
            data@,
            *system_program,
            found_pda(vault_seeds(accounts@[0].address), program@),
        ),
{
    if accounts.len() != 3 {
        return Err(ProtocolError::AccountMissing);
    }
    let owner = accounts[0];
    let vault = accounts[1];
    match parse_instruction(data) {
        Err(e) => Err(e),
        Ok(VaultOp::Deposit(amount)) => deposit(program, system_program, &owner, &vault, amount),
        Ok(VaultOp::Withdraw) => withdraw(program, system_program, &owner, &vault),
    }
}

/// A zero-amount deposit always fails with `InsufficientValue`, whatever
/// the accounts look like.
pub proof fn lemma_deposit_zero(
    owner: SystemAccountState,
    vault: SystemAccountState,
    system_program: Addr,
    derived: Option<(Seq<u8>, u8)>,
)
    ensures
        deposit_spec(owner, vault, system_program, 0, derived) == Err::<
            VaultOutcome,
            ProtocolError,
        >(ProtocolError::InsufficientValue),
{
}

/// A deposit into an already-funded vault fails with `AlreadyInitialized`:
/// this custody variant supports exactly one active deposit per owner.
pub proof fn lemma_deposit_funded(
    owner: SystemAccountState,
    vault: SystemAccountState,
    system_program: Addr,
    amount: u64,
    derived: Option<(Seq<u8>, u8)>,
)
    requires
        amount > 0,
        owner.signed,
        vault.owner_program == system_program,
        vault.lamports != 0,
    ensures
        deposit_spec(owner, vault, system_program, amount, derived) == Err::<
            VaultOutcome,
            ProtocolError,
        >(ProtocolError::AlreadyInitialized),
{
}

/// A withdrawal from an empty vault fails with `InsufficientValue`.
pub proof fn lemma_withdraw_empty(
    owner: SystemAccountState,
    vault: SystemAccountState,
    system_program: Addr,
    derived: Option<(Seq<u8>, u8)>,
)
    requires
        owner.signed,
        vault.owner_program == system_program,
        vault.lamports == 0,
    ensures
        withdraw_spec(owner, vault, system_program, derived) == Err::<
            VaultOutcome,
            ProtocolError,
        >(ProtocolError::InsufficientValue),
{
}

/// A successful withdrawal empties the vault to exactly zero and credits
/// the owner with the full prior balance.
pub proof fn lemma_withdraw_drains(
    owner: SystemAccountState,
    vault: SystemAccountState,
    system_program: Addr,
    derived: Option<(Seq<u8>, u8)>,
)
    requires
        withdraw_spec(owner, vault, system_program, derived) is Ok,
        owner.lamports + vault.lamports <= u64::MAX,
    ensures
        (withdraw_spec(owner, vault, system_program, derived) matches Ok(out) ==> {
            &&& out.vault.lamports == 0
            &&& out.owner.lamports == owner.lamports + vault.lamports
        }),
{
}

/// Depositing and then withdrawing restores the owner's balance exactly
/// and leaves the vault empty; a second withdrawal then fails with
/// `InsufficientValue`.
pub proof fn lemma_deposit_then_withdraw(
    owner: SystemAccountState,
    vault: SystemAccountState,
    system_program: Addr,
    amount: u64,
    derived: Option<(Seq<u8>, u8)>,
)
    requires
        deposit_spec(owner, vault, system_program, amount, derived) is Ok,
    ensures
        (deposit_spec(owner, vault, system_program, amount, derived) matches Ok(held) ==> {
            &&& withdraw_spec(held.owner, held.vault, system_program, derived) matches Ok(restored)
            &&& restored.owner.lamports == owner.lamports
            &&& restored.vault.lamports == 0
            &&& withdraw_spec(restored.owner, restored.vault, system_program, derived) == Err::<
                VaultOutcome,
                ProtocolError,
            >(ProtocolError::InsufficientValue)
        }),
{
}

} // verus!

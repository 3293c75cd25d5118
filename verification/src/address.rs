//! Where the account of a monitor lives.
//!
//! The address is derived from the program, the seed `monitor`, the authority
//! and the vault label, together with a bump seed that is stored in the monitor.

use crate::error::AddressError;
use crate::keys::Pubkey;
use crate::state::{AuthorityAction, InitializeMonitor, MonitorAccount, UpdateMetric};
use vstd::prelude::*;

verus! {

/// The seed that all addresses of monitors share: `monitor` in ASCII.
pub const MONITOR_SEED: [u8; 7] = [109u8, 111u8, 110u8, 105u8, 116u8, 111u8, 114u8];

/// The address that `Pubkey::create_program_address` derives for a program from
/// the seeds `prefix`, `authority`, `label` and the single byte `bump`, or
/// `None` where these seeds derive no address.
pub uninterp spec fn program_address(
    prefix: Seq<u8>,
    authority: Seq<u8>,
    label: Seq<u8>,
    bump: u8,
    program_id: Seq<u8>,
) -> Option<Seq<u8>>;

/// Calls `anchor_lang::prelude::Pubkey::create_program_address` with four
/// seeds. What comes back depends on the seeds and the program alone and is
/// called [`program_address`]; every error of the call is `None` here.
#[verifier::external_body]
fn create_program_address(
    prefix: &[u8],
    authority: &[u8; 32],
    label: &[u8; 32],
    bump: u8,
    program_id: &[u8; 32],
) -> (address: Option<[u8; 32]>)
    ensures
        match address {
            Some(a) => program_address(prefix@, authority@, label@, bump, program_id@) == Some(a@),
            None => program_address(prefix@, authority@, label@, bump, program_id@) is None,
        },
{
    let program = anchor_lang::prelude::Pubkey::from(*program_id);
    let seeds: [&[u8]; 4] = [prefix, authority, label, &[bump]];
    anchor_lang::prelude::Pubkey::create_program_address(&seeds, &program).ok().map(
        |key| key.to_bytes(),
    )
}

/// Calls `anchor_lang::prelude::Pubkey::try_find_program_address` with three
/// seeds. It tries the bump seeds from 255 down to 1 as a fourth seed and
/// returns the first one that derives an address, with that address.
#[verifier::external_body]
fn try_find_program_address(
    prefix: &[u8],
    authority: &[u8; 32],
    label: &[u8; 32],
    program_id: &[u8; 32],
) -> (found: Option<([u8; 32], u8)>)
    ensures
        match found {
            Some((a, bump)) => {
                &&& bump >= 1
                &&& program_address(prefix@, authority@, label@, bump, program_id@) == Some(a@)
                &&& forall|b: u8|
                    b > bump ==> #[trigger] program_address(
                        prefix@,
                        authority@,
                        label@,
                        b,
                        program_id@,
                    ) is None
            },
            None => forall|b: u8|
                b >= 1 ==> #[trigger] program_address(
                    prefix@,
                    authority@,
                    label@,
                    b,
                    program_id@,
                ) is None,
        },
{
    let program = anchor_lang::prelude::Pubkey::from(*program_id);
    let seeds: [&[u8]; 3] = [prefix, authority, label];
    anchor_lang::prelude::Pubkey::try_find_program_address(&seeds, &program).map(
        |found| (found.0.to_bytes(), found.1),
    )
}

/// The address of the monitor of `authority` for a vault, with the given bump seed.
pub open spec fn monitor_address(
    authority: Pubkey,
    vault_label: [u8; 32],
    bump: u8,
    program_id: Pubkey,
) -> Option<Seq<u8>> {
    program_address(MONITOR_SEED@, authority@, vault_label@, bump, program_id@)
}

/// Whether `bump` is the canonical bump seed of a monitor: the greatest one
/// that derives an address. Zero is never used.
pub open spec fn is_canonical_bump(
    authority: Pubkey,
    vault_label: [u8; 32],
    bump: u8,
    program_id: Pubkey,
) -> bool {
    &&& bump >= 1
    &&& monitor_address(authority, vault_label, bump, program_id) is Some
    &&& forall|b: u8|
        b > bump ==> #[trigger] monitor_address(authority, vault_label, b, program_id) is None
}

/// The canonical bump seed of a monitor, where there is one.
pub open spec fn canonical_bump(
    authority: Pubkey,
    vault_label: [u8; 32],
    program_id: Pubkey,
) -> Option<u8> {
    if exists|bump: u8| is_canonical_bump(authority, vault_label, bump, program_id) {
        Some(choose|bump: u8| is_canonical_bump(authority, vault_label, bump, program_id))
    } else {
        None
    }
}

/// A bump seed that is canonical is the canonical one.
pub(crate) proof fn lemma_canonical_bump(
    authority: Pubkey,
    vault_label: [u8; 32],
    bump: u8,
    program_id: Pubkey,
)
    requires
        is_canonical_bump(authority, vault_label, bump, program_id),
    ensures
        canonical_bump(authority, vault_label, program_id) == Some(bump),
{
    let chosen = choose|b: u8| is_canonical_bump(authority, vault_label, b, program_id);
    assert(is_canonical_bump(authority, vault_label, chosen, program_id));
    assert(monitor_address(authority, vault_label, bump, program_id) is Some);
    assert(monitor_address(authority, vault_label, chosen, program_id) is Some);
}

impl MonitorAccount {
    /// Whether the account is at the address that its own contents derive.
    pub open spec fn at_derived_address(self, program_id: Pubkey) -> bool {
        monitor_address(
            self.state.authority,
            self.state.vault_label,
            self.state.bump,
            program_id,
        ) == Some(self.address@)
    }
}

/// Compares the address of an account with the one that its seeds derive.
pub fn check_address(address: &Pubkey, derived: Option<Pubkey>) -> (r: Result<(), AddressError>)
    ensures
        r is Ok <==> derived == Some(*address),
        r matches Err(e) ==> e == AddressError::ConstraintSeeds,
{
    match derived {
        Some(key) => {
            if key == *address {
                Ok(())
            } else {
                Err(AddressError::ConstraintSeeds)
            }
        },
        None => Err(AddressError::ConstraintSeeds),
    }
}

/// Compares the address of an account to set up with the canonical one, and
/// hands on the bump seed.
pub fn check_found_address(address: &Pubkey, found: Option<(Pubkey, u8)>) -> (r: Result<
    u8,
    AddressError,
>)
    ensures
        r == match found {
            Some((key, bump)) => if key == *address {
                Ok(bump)
            } else {
                Err(AddressError::ConstraintSeeds)
            },
            None => Err(AddressError::NoViableBump),
        },
{
    match found {
        Some((key, bump)) => {
            if key == *address {
                Ok(bump)
            } else {
                Err(AddressError::ConstraintSeeds)
            }
        },
        None => Err(AddressError::NoViableBump),
    }
}

/// Finds the address of the monitor of `authority` for a vault, and its
/// canonical bump seed.
pub fn find_monitor_address(authority: &Pubkey, vault_label: &[u8; 32], program_id: &Pubkey) -> (r:
    Option<(Pubkey, u8)>)
    ensures
        match r {
            Some((address, bump)) => {
                &&& is_canonical_bump(*authority, *vault_label, bump, *program_id)
                &&& canonical_bump(*authority, *vault_label, *program_id) == Some(bump)
                &&& monitor_address(*authority, *vault_label, bump, *program_id) == Some(address@)
            },
            None => {
                &&& canonical_bump(*authority, *vault_label, *program_id) is None
                &&& forall|b: u8|
                    b >= 1 ==> #[trigger] monitor_address(
                        *authority,
                        *vault_label,
                        b,
                        *program_id,
                    ) is None
            },
        },
{
    match try_find_program_address(
        MONITOR_SEED.as_slice(),
        &authority.bytes,
        vault_label,
        &program_id.bytes,
    ) {
        Some((bytes, bump)) => {
            proof {
                lemma_canonical_bump(*authority, *vault_label, bump, *program_id);
            }
            Some((Pubkey { bytes }, bump))
        },
        None => {
            assert(forall|b: u8|
                b >= 1 ==> #[trigger] monitor_address(
                    *authority,
                    *vault_label,
                    b,
                    *program_id,
                ) is None);
            None
        },
    }
}

/// Derives the address of the monitor of `authority` for a vault with a given
/// bump seed.
pub fn derive_monitor_address(
    authority: &Pubkey,
    vault_label: &[u8; 32],
    bump: u8,
    program_id: &Pubkey,
) -> (r: Option<Pubkey>)
    ensures
        match r {
            Some(address) => monitor_address(*authority, *vault_label, bump, *program_id) == Some(
                address@,
            ),
            None => monitor_address(*authority, *vault_label, bump, *program_id) is None,
        },
{
    match create_program_address(
        MONITOR_SEED.as_slice(),
        &authority.bytes,
        vault_label,
        bump,
        &program_id.bytes,
    ) {
        Some(bytes) => Some(Pubkey { bytes }),
        None => None,
    }
}

impl MonitorAccount {
    /// Checks that the account is at the address that its own authority, label
    /// and bump seed derive.
    pub fn validate(&self, program_id: &Pubkey) -> (r: Result<(), AddressError>)
        ensures
            r is Ok <==> self.at_derived_address(*program_id),
            r matches Err(e) ==> e == AddressError::ConstraintSeeds,
    {
        let derived = derive_monitor_address(
            &self.state.authority,
            &self.state.vault_label,
            self.state.bump,
            program_id,
        );
        let r = check_address(&self.address, derived);
        proof {
            if let Some(key) = derived {
                if key@ == self.address@ {
                    crate::keys::lemma_same_view(key.bytes, self.address.bytes);
                }
            }
        }
        r
    }
}

/// What checking the address of an account to set up gives: the canonical bump
/// seed for the curator and the vault, or why the account is not accepted.
pub open spec fn set_up_bump(
    address: Pubkey,
    authority: Pubkey,
    vault_label: [u8; 32],
    program_id: Pubkey,
) -> Result<u8, AddressError> {
    match canonical_bump(authority, vault_label, program_id) {
        Some(bump) => if monitor_address(authority, vault_label, bump, program_id) == Some(
            address@,
        ) {
            Ok(bump)
        } else {
            Err(AddressError::ConstraintSeeds)
        },
        None => Err(AddressError::NoViableBump),
    }
}

impl InitializeMonitor {
    /// Checks that the account to set up is at the canonical address for the
    /// signing curator and the vault, and returns the bump seed.
    pub fn validate(&self, vault_label: &[u8; 32], program_id: &Pubkey) -> (r: Result<
        u8,
        AddressError,
    >)
        ensures
            r == set_up_bump(self.address, self.authority, *vault_label, *program_id),
            r matches Ok(bump) ==> is_canonical_bump(
                self.authority,
                *vault_label,
                bump,
                *program_id,
            ),
    {
        let found = find_monitor_address(&self.authority, vault_label, program_id);
        proof {
            if let Some((key, bump)) = found {
                if key@ == self.address@ {
                    crate::keys::lemma_same_view(key.bytes, self.address.bytes);
                }
            }
        }
        check_found_address(&self.address, found)
    }
}

impl AuthorityAction {
    /// Checks the address of the monitor.
    pub fn validate(&self, program_id: &Pubkey) -> (r: Result<(), AddressError>)
        ensures
            r is Ok <==> self.monitor.at_derived_address(*program_id),
            r matches Err(e) ==> e == AddressError::ConstraintSeeds,
    {
        self.monitor.validate(program_id)
    }
}

impl UpdateMetric {
    /// Checks the address of the monitor.
    pub fn validate(&self, program_id: &Pubkey) -> (r: Result<(), AddressError>)
        ensures
            r is Ok <==> self.monitor.at_derived_address(*program_id),
            r matches Err(e) ==> e == AddressError::ConstraintSeeds,
    {
        self.monitor.validate(program_id)
    }
}

} // verus!

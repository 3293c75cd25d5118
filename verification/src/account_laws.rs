//! Where a monitor is kept, and in which bytes.

use crate::codec::AccountError;
use crate::error::{AddressError, InstructionError, VaultThresholdsError};
use crate::keys::Pubkey;
use crate::model::MonitorState;
use crate::state::{
    Comparison, MonitorAccount, ThresholdConfig, VaultMonitor, MAX_THRESHOLDS, VAULT_MONITOR_SPACE,
};
use vstd::prelude::*;

verus! {

/// The address of a monitor is derived from the word `monitor`, the authority
/// and the label of the vault, in this order, and the bump seed.
pub proof fn law_address_is_derived_from_authority_and_vault(
    authority: Pubkey,
    vault_label: [u8; 32],
    bump: u8,
    program_id: Pubkey,
)
    ensures
        crate::address::monitor_address(authority, vault_label, bump, program_id)
            == crate::address::program_address(
            seq![109u8, 111u8, 110u8, 105u8, 116u8, 111u8, 114u8],
            authority.bytes@,
            vault_label@,
            bump,
            program_id.bytes@,
        ),
{
    assert(crate::address::MONITOR_SEED@ =~= seq![
        109u8,
        111u8,
        110u8,
        105u8,
        116u8,
        111u8,
        114u8,
    ]);
}

/// An account is accepted exactly where the authority, the label and the bump
/// seed that it holds derive the address at which it is.
pub proof fn law_account_is_where_its_contents_say(account: MonitorAccount, program_id: Pubkey)
    ensures
        account.at_derived_address(program_id) <==> crate::address::program_address(
            seq![109u8, 111u8, 110u8, 105u8, 116u8, 111u8, 114u8],
            account.state.authority.bytes@,
            account.state.vault_label@,
            account.state.bump,
            program_id.bytes@,
        ) == Some(account.address.bytes@),
{
    law_address_is_derived_from_authority_and_vault(
        account.state.authority,
        account.state.vault_label,
        account.state.bump,
        program_id,
    );
}

/// Where some bump seed from 1 up derives an address, one of them is canonical.
proof fn lemma_some_bump_is_canonical(
    authority: Pubkey,
    vault_label: [u8; 32],
    bump: u8,
    program_id: Pubkey,
) -> (canonical: u8)
    requires
        bump >= 1,
        crate::address::monitor_address(authority, vault_label, bump, program_id) is Some,
    ensures
        crate::address::is_canonical_bump(authority, vault_label, canonical, program_id),
    decreases 255 - bump,
{
    if exists|b: u8|
        b > bump && #[trigger] crate::address::monitor_address(
            authority,
            vault_label,
            b,
            program_id,
        ) is Some {
        let b = choose|b: u8|
            b > bump && #[trigger] crate::address::monitor_address(
                authority,
                vault_label,
                b,
                program_id,
            ) is Some;
        lemma_some_bump_is_canonical(authority, vault_label, b, program_id)
    } else {
        bump
    }
}

/// The canonical bump seed is the greatest one from 255 down to 1 that derives
/// an address, and there is none exactly where none of these derives one.
pub proof fn law_canonical_bump_is_the_greatest(
    authority: Pubkey,
    vault_label: [u8; 32],
    bump: u8,
    program_id: Pubkey,
)
    ensures
        crate::address::canonical_bump(authority, vault_label, program_id) == Some(bump) <==> {
            &&& 1 <= bump <= 255
            &&& crate::address::monitor_address(authority, vault_label, bump, program_id) is Some
            &&& forall|b: u8|
                b > bump ==> #[trigger] crate::address::monitor_address(
                    authority,
                    vault_label,
                    b,
                    program_id,
                ) is None
        },
        crate::address::canonical_bump(authority, vault_label, program_id) is None <==> forall|
            b: u8,
        |
            b >= 1 ==> #[trigger] crate::address::monitor_address(
                authority,
                vault_label,
                b,
                program_id,
            ) is None,
{
    if crate::address::is_canonical_bump(authority, vault_label, bump, program_id) {
        crate::address::lemma_canonical_bump(authority, vault_label, bump, program_id);
    }
    if exists|b: u8|
        b >= 1 && #[trigger] crate::address::monitor_address(
            authority,
            vault_label,
            b,
            program_id,
        ) is Some {
        let b = choose|b: u8|
            b >= 1 && #[trigger] crate::address::monitor_address(
                authority,
                vault_label,
                b,
                program_id,
            ) is Some;
        let canonical = lemma_some_bump_is_canonical(authority, vault_label, b, program_id);
        assert(crate::address::is_canonical_bump(authority, vault_label, canonical, program_id));
    } else if exists|b: u8|
        crate::address::is_canonical_bump(authority, vault_label, b, program_id) {
        let b = choose|b: u8|
            crate::address::is_canonical_bump(authority, vault_label, b, program_id);
        assert(crate::address::monitor_address(authority, vault_label, b, program_id) is Some);
    }
}

/// A monitor is set up exactly at the address that the canonical bump seed
/// derives for the curator and the vault, in an account that holds none, for a
/// label with a byte other than zero. The account is looked at first: an address
/// that does not exist, another address, and an account in use are refused in
/// this order, and only then a label that is all zero.
pub proof fn law_program_sets_up_at_the_canonical_address(
    address: Pubkey,
    occupied: bool,
    authority: Pubkey,
    vault_label: [u8; 32],
    program_id: Pubkey,
    bump: u8,
)
    requires
        bump >= 1,
        crate::address::monitor_address(authority, vault_label, bump, program_id) is Some,
        forall|b: u8|
            b > bump ==> #[trigger] crate::address::monitor_address(
                authority,
                vault_label,
                b,
                program_id,
            ) is None,
    ensures
        ({
            let refusal = crate::program::run_set_up_refusal(
                address,
                occupied,
                authority,
                vault_label,
                program_id,
            );
            let here = crate::address::monitor_address(authority, vault_label, bump, program_id)
                == Some(address.bytes@);
            &&& refusal is None <==> here && !occupied && exists|k: int|
                0 <= k < 32 && #[trigger] vault_label@[k] != 0
            &&& !here ==> refusal == Some(InstructionError::Address(AddressError::ConstraintSeeds))
            &&& here && occupied ==> refusal == Some(
                InstructionError::Address(AddressError::AccountInUse),
            )
            &&& here && !occupied && refusal is Some ==> refusal == Some(
                InstructionError::Refused(VaultThresholdsError::InvalidVaultLabel),
            )
            &&& crate::address::set_up_bump(address, authority, vault_label, program_id) == (
            if here {
                Ok(bump)
            } else {
                Err(AddressError::ConstraintSeeds)
            })
        }),
{
    law_canonical_bump_is_the_greatest(authority, vault_label, bump, program_id);
    crate::effects::law_set_up_is_accepted(occupied, vault_label);
}

/// Where no bump seed from 255 down to 1 derives an address, no monitor is set
/// up for the curator and the vault.
pub proof fn law_program_sets_up_nothing_without_an_address(
    address: Pubkey,
    occupied: bool,
    authority: Pubkey,
    vault_label: [u8; 32],
    program_id: Pubkey,
)
    requires
        forall|b: u8|
            b >= 1 ==> #[trigger] crate::address::monitor_address(
                authority,
                vault_label,
                b,
                program_id,
            ) is None,
    ensures
        crate::program::run_set_up_refusal(address, occupied, authority, vault_label, program_id)
            == Some(InstructionError::Address(AddressError::NoViableBump)),
        crate::address::set_up_bump(address, authority, vault_label, program_id) == Err::<u8, _>(
            AddressError::NoViableBump,
        ),
{
    law_canonical_bump_is_the_greatest(authority, vault_label, 1, program_id);
}

/// The bytes of a threshold: the name, the limit, the comparison, the value on
/// record, the flag and the slot, in this order.
pub proof fn law_bytes_of_a_threshold(t: ThresholdConfig)
    ensures
        t.layout().len() == 58,
        t.layout().subrange(0, 32) == t.name@,
        t.layout().subrange(32, 40) == crate::codec::le_bytes(t.threshold_value as int, 8),
        t.layout()[40] == match t.comparison {
            Comparison::Above => 0u8,
            Comparison::Below => 1u8,
        },
        t.layout().subrange(41, 49) == crate::codec::le_bytes(t.current_value as int, 8),
        t.layout()[49] == if t.breached {
            1u8
        } else {
            0u8
        },
        t.layout().subrange(50, 58) == crate::codec::le_bytes(t.last_update_slot as int, 8),
{
    crate::codec::lemma_config_layout_len(t.fields());
    crate::codec::lemma_config_layout_parts(t.fields());
}

/// Where the bytes of an item lie in those of its list.
proof fn lemma_item_bytes(items: Seq<crate::codec::ConfigFields>, i: int)
    requires
        0 <= i < items.len(),
    ensures
        crate::codec::items_layout(items).len() == 58 * items.len(),
        crate::codec::items_layout(items).subrange(58 * i, 58 * i + 58)
            == crate::codec::config_layout(items[i]),
    decreases items.len(),
{
    let before = items.drop_last();
    crate::codec::lemma_items_layout_len(items);
    crate::codec::lemma_items_layout_len(before);
    crate::codec::lemma_config_layout_len(items.last());
    let l = crate::codec::items_layout(items);
    if i < before.len() {
        lemma_item_bytes(before, i);
        assert(l.subrange(58 * i, 58 * i + 58) =~= crate::codec::items_layout(before).subrange(
            58 * i,
            58 * i + 58,
        ));
    } else {
        assert(l.subrange(58 * i, 58 * i + 58) =~= crate::codec::config_layout(items.last()));
    }
}

/// The bytes of an account: eight that tell its type, the authority, the oracle
/// signer, the label, the bump seed, the number of thresholds, and then the
/// thresholds in order.
pub proof fn law_bytes_of_an_account(m: MonitorState, i: int)
    ensures
        m.layout().len() == 109 + 58 * m.thresholds.len(),
        m.layout().subrange(0, 8) == seq![176u8, 215u8, 70u8, 85u8, 138u8, 72u8, 59u8, 98u8],
        m.layout().subrange(8, 40) == m.authority.bytes@,
        m.layout().subrange(40, 72) == m.oracle_signer.bytes@,
        m.layout().subrange(72, 104) == m.vault_label@,
        m.layout()[104] == m.bump,
        m.layout().subrange(105, 109) == crate::codec::le_bytes(m.thresholds.len() as int, 4),
        0 <= i < m.thresholds.len() ==> m.layout().subrange(109 + 58 * i, 167 + 58 * i)
            == m.thresholds[i].layout(),
{
    let l = m.layout();
    crate::codec::lemma_layout_len(m);
    crate::codec::lemma_le_bytes_len(m.items().len() as int, 4);
    crate::codec::lemma_items_layout_len(m.items());
    assert(l.subrange(0, 8) =~= seq![176u8, 215u8, 70u8, 85u8, 138u8, 72u8, 59u8, 98u8]);
    assert(l.subrange(8, 40) =~= m.authority.bytes@);
    assert(l.subrange(40, 72) =~= m.oracle_signer.bytes@);
    assert(l.subrange(72, 104) =~= m.vault_label@);
    assert(l.subrange(105, 109) =~= crate::codec::le_bytes(m.thresholds.len() as int, 4));
    if 0 <= i < m.thresholds.len() {
        lemma_item_bytes(m.items(), i);
        assert(m.items()[i] == m.thresholds[i].fields());
        assert(l.subrange(109 + 58 * i, 167 + 58 * i) =~= crate::codec::items_layout(
            m.items(),
        ).subrange(58 * i, 58 * i + 58));
    }
}

/// Every monitor is written, unless it has more thresholds than four bytes can
/// count.
pub proof fn law_every_monitor_is_written(m: MonitorState)
    ensures
        m.writable() <==> m.thresholds.len() <= 0xffff_ffff,
{
}

/// Sixteen thresholds fit in the account, and the account has 1100 bytes.
pub proof fn law_sixteen_thresholds_fit(m: MonitorState)
    requires
        m.thresholds.len() <= 16,
    ensures
        m.writable(),
        m.layout().len() <= 1100,
        VAULT_MONITOR_SPACE == 1100,
        MAX_THRESHOLDS == 16,
{
    crate::codec::lemma_layout_len(m);
}

/// Reading a threshold takes all bytes and no others: what is read has exactly
/// the bytes that were given, so that a wrong length, an unknown comparison and
/// a flag that is neither zero nor one are refused.
pub proof fn law_threshold_is_read_from_its_bytes(
    bytes: Seq<u8>,
    r: Result<ThresholdConfig, AccountError>,
)
    requires
        ThresholdConfig::reading(bytes, r),
    ensures
        r matches Ok(t) ==> t.layout() == bytes,
        r matches Err(e) ==> e == AccountError::DidNotDeserialize && forall|t: ThresholdConfig|
            #[trigger] t.layout() != bytes,
        bytes.len() != 58 ==> r is Err,
        bytes.len() == 58 && (bytes[40] > 1 || bytes[49] > 1) ==> r is Err,
{
    if let Ok(t) = r {
        law_bytes_of_a_threshold(t);
    }
}

/// Reading an account tells too few bytes and a foreign type apart, and refuses
/// both. What it reads are the bytes at the start of the data, and it fails only
/// where the data start with the bytes of no monitor.
pub proof fn law_account_is_read_from_its_bytes(
    data: Seq<u8>,
    r: Result<VaultMonitor, AccountError>,
)
    requires
        VaultMonitor::reading(data, r),
    ensures
        data.len() < 8 <==> r == Err::<VaultMonitor, _>(AccountError::DiscriminatorNotFound),
        data.len() >= 8 && data.take(8) != seq![
            176u8,
            215u8,
            70u8,
            85u8,
            138u8,
            72u8,
            59u8,
            98u8,
        ] <==> r == Err::<VaultMonitor, _>(AccountError::DiscriminatorMismatch),
        r matches Ok(n) ==> n@.thresholds.len() <= 0xffff_ffff && n@.layout().is_prefix_of(data),
        r is Err ==> forall|m: MonitorState|
            m.thresholds.len() <= 0xffff_ffff ==> !(#[trigger] m.layout()).is_prefix_of(data),
        r != Err::<VaultMonitor, _>(AccountError::DidNotSerialize),
{
    assert(crate::codec::VAULT_MONITOR_DISCRIMINATOR@ =~= seq![
        176u8,
        215u8,
        70u8,
        85u8,
        138u8,
        72u8,
        59u8,
        98u8,
    ]);
    if let Ok(n) = r {
        let l = n@.layout();
        assert forall|k: int| 0 <= k < l.len() implies l[k] == data[k] by {
            if k < 8 {
                assert(data.take(8)[k] == data[k]);
            } else {
                assert(data.skip(8)[k - 8] == data[k]);
                assert(n@.body_layout()[k - 8] == data.skip(8).subrange(
                    0,
                    n@.body_layout().len() as int,
                )[k - 8]);
            }
        }
        assert(l =~= data.subrange(0, l.len() as int));
    } else {
        assert forall|m: MonitorState| m.thresholds.len() <= 0xffff_ffff implies !(
        #[trigger] m.layout()).is_prefix_of(data) by {
            if m.layout().is_prefix_of(data) {
                let l = m.layout();
                assert(data.take(8) =~= l.subrange(0, 8));
                assert(l.subrange(0, 8) =~= crate::codec::VAULT_MONITOR_DISCRIMINATOR@);
                assert(m.body_layout() =~= l.skip(8));
                assert(m.body_layout() =~= data.skip(8).subrange(
                    0,
                    m.body_layout().len() as int,
                ));
                assert(m.body_layout().is_prefix_of(data.skip(8)));
            }
        }
    }
}

/// Reading without the type gives the monitor whose bytes follow, whatever the
/// first eight bytes are and whatever comes after it.
pub proof fn law_monitor_is_read_without_its_type(
    m: MonitorState,
    head: Seq<u8>,
    rest: Seq<u8>,
    r: Result<VaultMonitor, AccountError>,
)
    requires
        m.thresholds.len() <= 0xffff_ffff,
        head.len() == 8,
        VaultMonitor::reading_body((head + m.layout().skip(8) + rest).skip(8), r),
    ensures
        r matches Ok(n) && n@ == m,
{
    let data = (head + m.layout().skip(8) + rest).skip(8);
    assert(m.layout().skip(8) =~= m.body_layout());
    assert(data =~= m.body_layout() + rest);
    assert(m.body_layout().is_prefix_of(data));
    if let Ok(n) = r {
        crate::codec::lemma_body_prefix_free(m, n@, data);
    }
}

/// What is read without the type are the bytes at the start of what was given.
pub proof fn law_monitor_read_without_its_type_has_these_bytes(
    bytes: Seq<u8>,
    r: Result<VaultMonitor, AccountError>,
)
    requires
        VaultMonitor::reading_body(bytes, r),
    ensures
        r matches Ok(n) ==> n@.thresholds.len() <= 0xffff_ffff && n@.layout().skip(8).is_prefix_of(
            bytes,
        ),
        r matches Err(e) ==> e == AccountError::DidNotDeserialize,
{
    if let Ok(n) = r {
        assert(n@.layout().skip(8) =~= n@.body_layout());
    }
}

} // verus!

//! The bytes of a monitor's account.
//!
//! An account starts with eight bytes that tell its type. The fields follow in
//! order, in Borsh: integers little-endian, a `bool` or an enum as one byte, a
//! list as its length in four bytes and then its items.

use crate::keys::Pubkey;
use crate::state::{Comparison, ThresholdConfig, VaultMonitor};
use vstd::prelude::*;

verus! {

/// The first bytes of every monitor's account: the start of the SHA-256 hash of
/// `account:VaultMonitor`.
pub const VAULT_MONITOR_DISCRIMINATOR: [u8; 8] = [176u8, 215u8, 70u8, 85u8, 138u8, 72u8, 59u8, 98u8];

/// Why the bytes of an account were not accepted.
#[derive(Clone, Copy, Debug, PartialEq, Eq, Structural)]
pub enum AccountError {
    /// There are too few bytes for the type of the account.
    DiscriminatorNotFound,
    /// The account is of another type.
    DiscriminatorMismatch,
    /// The bytes are not those of a value.
    DidNotDeserialize,
    /// The value has more items than a list can hold.
    DidNotSerialize,
}

/// The fields of a [`ThresholdConfig`] in order, with a number for the comparison.
pub type ConfigFields = ([u8; 32], i64, u8, i64, bool, u64);

/// The fields of a [`VaultMonitor`] in order.
pub type MonitorFields = ([u8; 32], [u8; 32], [u8; 32], u8, Vec<ConfigFields>);

/// The `n` low bytes of `x`, least significant first.
pub open spec fn le_bytes(x: int, n: nat) -> Seq<u8>
    decreases n,
{
    if n == 0 {
        Seq::empty()
    } else {
        seq![(x % 256) as u8] + le_bytes(x / 256, (n - 1) as nat)
    }
}

/// The bytes of a threshold's fields.
pub open spec fn config_layout(f: ConfigFields) -> Seq<u8> {
    f.0@ + le_bytes(f.1 as int, 8) + seq![f.2] + le_bytes(f.3 as int, 8) + seq![
        if f.4 {
            1u8
        } else {
            0u8
        },
    ] + le_bytes(f.5 as int, 8)
}

/// The bytes of a list's items, one after the other.
pub open spec fn items_layout(items: Seq<ConfigFields>) -> Seq<u8>
    decreases items.len(),
{
    if items.len() == 0 {
        Seq::empty()
    } else {
        items_layout(items.drop_last()) + config_layout(items.last())
    }
}

/// The bytes of a monitor's fields.
pub open spec fn monitor_layout(
    authority: Seq<u8>,
    oracle_signer: Seq<u8>,
    vault_label: Seq<u8>,
    bump: u8,
    items: Seq<ConfigFields>,
) -> Seq<u8> {
    authority + oracle_signer + vault_label + seq![bump] + le_bytes(items.len() as int, 4)
        + items_layout(items)
}

/// Calls `try_to_vec` of `anchor_lang::AnchorSerialize`, which is Borsh, on the
/// fields of a threshold: the fields one after the other. Writing to a vector
/// does not fail.
#[verifier::external_body]
fn encode_config(fields: &ConfigFields) -> (bytes: Vec<u8>)
    ensures
        bytes@ == config_layout(*fields),
{
    anchor_lang::AnchorSerialize::try_to_vec(fields).unwrap()
}

/// Calls `try_from_slice` of `anchor_lang::AnchorDeserialize`, which is Borsh,
/// for the fields of a threshold. It returns the fields that have exactly these
/// bytes, and fails where there are none.
#[verifier::external_body]
fn decode_config(bytes: &[u8]) -> (fields: Option<ConfigFields>)
    ensures
        match fields {
            Some(f) => config_layout(f) == bytes@,
            None => forall|f: ConfigFields| #[trigger] config_layout(f) != bytes@,
        },
{
    anchor_lang::AnchorDeserialize::try_from_slice(bytes).ok()
}

/// Calls `try_to_vec` of `anchor_lang::AnchorSerialize`, which is Borsh, on the
/// fields of a monitor: the fields one after the other, the list with its
/// length in front. It fails exactly where the length does not fit in 32 bits.
#[verifier::external_body]
fn encode_monitor(fields: &MonitorFields) -> (bytes: Option<Vec<u8>>)
    ensures
        match bytes {
            Some(b) => fields.4@.len() <= u32::MAX && b@ == monitor_layout(
                fields.0@,
                fields.1@,
                fields.2@,
                fields.3,
                fields.4@,
            ),
            None => fields.4@.len() > u32::MAX,
        },
{
    anchor_lang::AnchorSerialize::try_to_vec(fields).ok()
}

/// Calls `deserialize` of `anchor_lang::AnchorDeserialize`, which is Borsh, for
/// the fields of a monitor. It returns the fields whose bytes the given ones
/// start with, and fails where there are none. What follows them is not read.
#[verifier::external_body]
fn decode_monitor(bytes: &[u8]) -> (fields: Option<MonitorFields>)
    ensures
        match fields {
            Some(f) => f.4@.len() <= u32::MAX && monitor_layout(
                f.0@,
                f.1@,
                f.2@,
                f.3,
                f.4@,
            ).is_prefix_of(bytes@),
            None => forall|
                authority: [u8; 32],
                oracle_signer: [u8; 32],
                vault_label: [u8; 32],
                bump: u8,
                items: Seq<ConfigFields>,
            |
                items.len() <= u32::MAX ==> !(#[trigger] monitor_layout(
                    authority@,
                    oracle_signer@,
                    vault_label@,
                    bump,
                    items,
                )).is_prefix_of(bytes@),
        },
{
    let mut rest = bytes;
    anchor_lang::AnchorDeserialize::deserialize(&mut rest).ok()
}

/// `256` to the power of `n`.
spec fn pow256(n: nat) -> int
    decreases n,
{
    if n == 0 {
        1
    } else {
        256 * pow256((n - 1) as nat)
    }
}

pub(crate) proof fn lemma_le_bytes_len(x: int, n: nat)
    ensures
        le_bytes(x, n).len() == n,
    decreases n,
{
    if n > 0 {
        lemma_le_bytes_len(x / 256, (n - 1) as nat);
    }
}

/// Numbers with the same low bytes differ by a multiple of a power of 256.
proof fn lemma_same_le_bytes(x: int, y: int, n: nat) -> (k: int)
    requires
        le_bytes(x, n) == le_bytes(y, n),
    ensures
        x - y == k * pow256(n),
    decreases n,
{
    if n == 0 {
        x - y
    } else {
        let m = (n - 1) as nat;
        let a = le_bytes(x, n);
        let b = le_bytes(y, n);
        assert(a[0] == (x % 256) as u8 && b[0] == (y % 256) as u8);
        assert(a.skip(1) =~= le_bytes(x / 256, m));
        assert(b.skip(1) =~= le_bytes(y / 256, m));
        let k = lemma_same_le_bytes(x / 256, y / 256, m);
        assert(x - y == 256 * (x / 256 - y / 256));
        assert(256 * (k * pow256(m)) == k * (256 * pow256(m))) by (nonlinear_arith);
        k
    }
}

/// A number of eight bytes is known by them.
proof fn lemma_le_bytes_8(x: int, y: int)
    requires
        le_bytes(x, 8) == le_bytes(y, 8),
        -0x1_0000_0000_0000_0000 < x - y < 0x1_0000_0000_0000_0000,
    ensures
        x == y,
{
    let k = lemma_same_le_bytes(x, y, 8);
    assert(pow256(8) == 0x1_0000_0000_0000_0000) by {
        reveal_with_fuel(pow256, 9);
    }
    assert(k == 0) by (nonlinear_arith)
        requires
            -0x1_0000_0000_0000_0000 < k * 0x1_0000_0000_0000_0000 < 0x1_0000_0000_0000_0000,
    ;
}

/// A number of four bytes is known by them.
proof fn lemma_le_bytes_4(x: int, y: int)
    requires
        le_bytes(x, 4) == le_bytes(y, 4),
        -0x1_0000_0000 < x - y < 0x1_0000_0000,
    ensures
        x == y,
{
    let k = lemma_same_le_bytes(x, y, 4);
    assert(pow256(4) == 0x1_0000_0000) by {
        reveal_with_fuel(pow256, 5);
    }
    assert(k == 0) by (nonlinear_arith)
        requires
            -0x1_0000_0000 < k * 0x1_0000_0000 < 0x1_0000_0000,
    ;
}

pub(crate) proof fn lemma_config_layout_len(f: ConfigFields)
    ensures
        config_layout(f).len() == 58,
{
    lemma_le_bytes_len(f.1 as int, 8);
    lemma_le_bytes_len(f.3 as int, 8);
    lemma_le_bytes_len(f.5 as int, 8);
}

/// The parts of a threshold's bytes.
pub(crate) proof fn lemma_config_layout_parts(f: ConfigFields)
    ensures
        config_layout(f).subrange(0, 32) == f.0@,
        config_layout(f).subrange(32, 40) == le_bytes(f.1 as int, 8),
        config_layout(f)[40] == f.2,
        config_layout(f).subrange(41, 49) == le_bytes(f.3 as int, 8),
        config_layout(f)[49] == (if f.4 {
            1u8
        } else {
            0u8
        }),
        config_layout(f).subrange(50, 58) == le_bytes(f.5 as int, 8),
{
    lemma_le_bytes_len(f.1 as int, 8);
    lemma_le_bytes_len(f.3 as int, 8);
    lemma_le_bytes_len(f.5 as int, 8);
    let l = config_layout(f);
    assert(l.subrange(0, 32) =~= f.0@);
    assert(l.subrange(32, 40) =~= le_bytes(f.1 as int, 8));
    assert(l.subrange(41, 49) =~= le_bytes(f.3 as int, 8));
    assert(l.subrange(50, 58) =~= le_bytes(f.5 as int, 8));
}

proof fn lemma_config_layout_injective(f: ConfigFields, g: ConfigFields)
    requires
        config_layout(f) == config_layout(g),
    ensures
        f == g,
{
    lemma_config_layout_parts(f);
    lemma_config_layout_parts(g);
    crate::keys::lemma_same_view(f.0, g.0);
    lemma_le_bytes_8(f.1 as int, g.1 as int);
    lemma_le_bytes_8(f.3 as int, g.3 as int);
    lemma_le_bytes_8(f.5 as int, g.5 as int);
}

pub(crate) proof fn lemma_items_layout_len(items: Seq<ConfigFields>)
    ensures
        items_layout(items).len() == 58 * items.len(),
    decreases items.len(),
{
    if items.len() > 0 {
        lemma_items_layout_len(items.drop_last());
        lemma_config_layout_len(items.last());
    }
}

/// Lists of one length with the same bytes are the same.
proof fn lemma_items_layout_injective(s: Seq<ConfigFields>, t: Seq<ConfigFields>)
    requires
        s.len() == t.len(),
        items_layout(s) == items_layout(t),
    ensures
        s == t,
    decreases s.len(),
{
    if s.len() > 0 {
        let n = 58 * (s.len() - 1);
        lemma_items_layout_len(s.drop_last());
        lemma_items_layout_len(t.drop_last());
        lemma_config_layout_len(s.last());
        lemma_config_layout_len(t.last());
        assert(items_layout(s).subrange(0, n) =~= items_layout(s.drop_last()));
        assert(items_layout(t).subrange(0, n) =~= items_layout(t.drop_last()));
        assert(items_layout(s).subrange(n, n + 58) =~= config_layout(s.last()));
        assert(items_layout(t).subrange(n, n + 58) =~= config_layout(t.last()));
        lemma_items_layout_injective(s.drop_last(), t.drop_last());
        lemma_config_layout_injective(s.last(), t.last());
        assert(s =~= s.drop_last().push(s.last()));
        assert(t =~= t.drop_last().push(t.last()));
    } else {
        assert(s =~= t);
    }
}

impl Comparison {
    /// The number that stands for the comparison.
    pub open spec fn number(self) -> u8 {
        match self {
            Comparison::Above => 0,
            Comparison::Below => 1,
        }
    }
}

impl ThresholdConfig {
    /// The fields in order.
    pub open spec fn fields(self) -> ConfigFields {
        (
            self.name,
            self.threshold_value,
            self.comparison.number(),
            self.current_value,
            self.breached,
            self.last_update_slot,
        )
    }

    /// The bytes of the threshold.
    pub open spec fn layout(self) -> Seq<u8> {
        config_layout(self.fields())
    }

    /// What reading a threshold from all of `bytes` gives: the one that has
    /// these bytes, or an error where there is none.
    pub open spec fn reading(bytes: Seq<u8>, r: Result<ThresholdConfig, AccountError>) -> bool {
        match r {
            Ok(t) => t.layout() == bytes,
            Err(e) => {
                &&& e == AccountError::DidNotDeserialize
                &&& forall|t: ThresholdConfig| #[trigger] t.layout() != bytes
            },
        }
    }

    fn to_fields(&self) -> (fields: ConfigFields)
        ensures
            fields == self.fields(),
    {
        let number: u8 = match self.comparison {
            Comparison::Above => 0,
            Comparison::Below => 1,
        };
        (
            self.name,
            self.threshold_value,
            number,
            self.current_value,
            self.breached,
            self.last_update_slot,
        )
    }

    fn from_fields(fields: &ConfigFields) -> (t: Option<ThresholdConfig>)
        ensures
            match t {
                Some(t) => t.fields() == *fields,
                None => fields.2 > 1,
            },
    {
        let comparison = match fields.2 {
            0 => Comparison::Above,
            1 => Comparison::Below,
            _ => {
                return None;
            },
        };
        Some(
            ThresholdConfig {
                name: fields.0,
                threshold_value: fields.1,
                comparison,
                current_value: fields.3,
                breached: fields.4,
                last_update_slot: fields.5,
            },
        )
    }

    /// Writes the threshold in 58 bytes.
    pub fn to_vec(&self) -> (bytes: Vec<u8>)
        ensures
            bytes@ == self.layout(),
            bytes@.len() == 58,
    {
        proof {
            lemma_config_layout_len(self.fields());
        }
        encode_config(&self.to_fields())
    }

    /// Reads a threshold from bytes, all of which must belong to it.
    pub fn try_from_slice(bytes: &[u8]) -> (r: Result<ThresholdConfig, AccountError>)
        ensures
            ThresholdConfig::reading(bytes@, r),
    {
        match decode_config(bytes) {
            Some(fields) => match ThresholdConfig::from_fields(&fields) {
                Some(t) => Ok(t),
                None => {
                    proof {
                        assert forall|t: ThresholdConfig| #[trigger] t.layout() != bytes@ by {
                            if t.layout() == bytes@ {
                                lemma_config_layout_injective(t.fields(), fields);
                            }
                        }
                    }
                    Err(AccountError::DidNotDeserialize)
                },
            },
            None => Err(AccountError::DidNotDeserialize),
        }
    }
}

impl crate::model::MonitorState {
    /// The fields of the thresholds in order.
    pub open spec fn items(self) -> Seq<ConfigFields> {
        self.thresholds.map_values(|t: ThresholdConfig| t.fields())
    }

    /// The bytes of the monitor's fields.
    pub open spec fn body_layout(self) -> Seq<u8> {
        monitor_layout(
            self.authority@,
            self.oracle_signer@,
            self.vault_label@,
            self.bump,
            self.items(),
        )
    }

    /// The bytes of the monitor's account, without the unused rest of its space.
    pub open spec fn layout(self) -> Seq<u8> {
        VAULT_MONITOR_DISCRIMINATOR@ + self.body_layout()
    }

    /// Whether the list of thresholds is short enough to be written.
    pub open spec fn writable(self) -> bool {
        self.thresholds.len() <= u32::MAX
    }
}

impl VaultMonitor {
    /// What reading the fields of a monitor from `bytes` gives: the monitor
    /// whose bytes they start with, or an error where there is none.
    pub open spec fn reading_body(bytes: Seq<u8>, r: Result<VaultMonitor, AccountError>) -> bool {
        match r {
            Ok(m) => m@.writable() && m@.body_layout().is_prefix_of(bytes),
            Err(e) => {
                &&& e == AccountError::DidNotDeserialize
                &&& forall|m: crate::model::MonitorState|
                    m.writable() ==> !(#[trigger] m.body_layout()).is_prefix_of(bytes)
            },
        }
    }

    /// What reading an account from its data gives.
    pub open spec fn reading(data: Seq<u8>, r: Result<VaultMonitor, AccountError>) -> bool {
        if data.len() < 8 {
            r == Err::<VaultMonitor, _>(AccountError::DiscriminatorNotFound)
        } else if data.take(8) != VAULT_MONITOR_DISCRIMINATOR@ {
            r == Err::<VaultMonitor, _>(AccountError::DiscriminatorMismatch)
        } else {
            VaultMonitor::reading_body(data.skip(8), r)
        }
    }

    fn to_fields(&self) -> (fields: MonitorFields)
        ensures
            fields.0 == self.authority.bytes,
            fields.1 == self.oracle_signer.bytes,
            fields.2 == self.vault_label,
            fields.3 == self.bump,
            fields.4@ == self@.items(),
    {
        let mut items: Vec<ConfigFields> = Vec::new();
        for i in 0..self.thresholds.len()
            invariant
                items@.len() == i,
                forall|j: int| 0 <= j < i ==> items@[j] == self.thresholds@[j].fields(),
        {
            items.push(self.thresholds[i].to_fields());
        }
        assert(items@ =~= self@.items());
        (self.authority.bytes, self.oracle_signer.bytes, self.vault_label, self.bump, items)
    }

    fn from_fields(fields: &MonitorFields) -> (m: Option<VaultMonitor>)
        ensures
            match m {
                Some(m) => {
                    &&& m.authority.bytes == fields.0
                    &&& m.oracle_signer.bytes == fields.1
                    &&& m.vault_label == fields.2
                    &&& m.bump == fields.3
                    &&& m@.items() == fields.4@
                },
                None => exists|i: int|
                    0 <= i < fields.4@.len() && (#[trigger] fields.4@[i]).2 > 1,
            },
    {
        let mut thresholds: Vec<ThresholdConfig> = Vec::new();
        for i in 0..fields.4.len()
            invariant
                thresholds@.len() == i,
                forall|j: int| 0 <= j < i ==> thresholds@[j].fields() == fields.4@[j],
        {
            match ThresholdConfig::from_fields(&fields.4[i]) {
                Some(t) => thresholds.push(t),
                None => {
                    return None;
                },
            }
        }
        let m = VaultMonitor {
            authority: Pubkey { bytes: fields.0 },
            oracle_signer: Pubkey { bytes: fields.1 },
            vault_label: fields.2,
            bump: fields.3,
            thresholds,
        };
        assert(m@.items() =~= fields.4@);
        Some(m)
    }

    /// Writes the monitor as the data of its account.
    pub fn try_serialize(&self) -> (r: Result<Vec<u8>, AccountError>)
        ensures
            match r {
                Ok(data) => self@.writable() && data@ == self@.layout(),
                Err(e) => e == AccountError::DidNotSerialize && !self@.writable(),
            },
    {
        match encode_monitor(&self.to_fields()) {
            Some(mut body) => {
                let mut data: Vec<u8> = Vec::new();
                data.extend_from_slice(VAULT_MONITOR_DISCRIMINATOR.as_slice());
                data.append(&mut body);
                assert(data@ =~= self@.layout());
                Ok(data)
            },
            None => Err(AccountError::DidNotSerialize),
        }
    }

    /// Reads a monitor from the data of an account, whatever type the account
    /// says that it has. What follows the monitor in the data is not read.
    pub fn try_deserialize_unchecked(data: &[u8]) -> (r: Result<VaultMonitor, AccountError>)
        requires
            data@.len() >= 8,
        ensures
            VaultMonitor::reading_body(data@.skip(8), r),
    {
        let body = vstd::slice::slice_subrange(data, 8, data.len());
        assert(body@ =~= data@.skip(8));
        match decode_monitor(body) {
            Some(fields) => match VaultMonitor::from_fields(&fields) {
                Some(m) => Ok(m),
                None => {
                    proof {
                        assert forall|m: crate::model::MonitorState| m.writable() implies !(
                        #[trigger] m.body_layout()).is_prefix_of(body@) by {
                            if m.body_layout().is_prefix_of(body@) {
                                lemma_monitor_layout_prefix_free(
                                    m.authority.bytes,
                                    m.oracle_signer.bytes,
                                    m.vault_label,
                                    m.bump,
                                    m.items(),
                                    fields.0,
                                    fields.1,
                                    fields.2,
                                    fields.3,
                                    fields.4@,
                                    body@,
                                );
                                let i = choose|i: int|
                                    0 <= i < fields.4@.len() && (#[trigger] fields.4@[i]).2 > 1;
                                assert(m.items()[i] == m.thresholds[i].fields());
                            }
                        }
                    }
                    Err(AccountError::DidNotDeserialize)
                },
            },
            None => {
                proof {
                    assert forall|m: crate::model::MonitorState| m.writable() implies !(
                    #[trigger] m.body_layout()).is_prefix_of(body@) by {
                        assert(m.items().len() <= u32::MAX);
                    }
                }
                Err(AccountError::DidNotDeserialize)
            },
        }
    }

    /// Reads a monitor from the data of its account. What follows the monitor in
    /// the data is not read.
    pub fn try_deserialize(data: &[u8]) -> (r: Result<VaultMonitor, AccountError>)
        ensures
            VaultMonitor::reading(data@, r),
    {
        if data.len() < 8 {
            return Err(AccountError::DiscriminatorNotFound);
        }
        for i in 0..8usize
            invariant
                data@.len() >= 8,
                forall|j: int| 0 <= j < i ==> data@[j] == VAULT_MONITOR_DISCRIMINATOR@[j],
        {
            if data[i] != VAULT_MONITOR_DISCRIMINATOR[i] {
                assert(data@.take(8)[i as int] != VAULT_MONITOR_DISCRIMINATOR@[i as int]);
                return Err(AccountError::DiscriminatorMismatch);
            }
        }
        assert(data@.take(8) =~= VAULT_MONITOR_DISCRIMINATOR@);
        VaultMonitor::try_deserialize_unchecked(data)
    }
}

/// Bytes start with those of one monitor at most.
proof fn lemma_monitor_layout_prefix_free(
    a1: [u8; 32],
    o1: [u8; 32],
    l1: [u8; 32],
    b1: u8,
    s: Seq<ConfigFields>,
    a2: [u8; 32],
    o2: [u8; 32],
    l2: [u8; 32],
    b2: u8,
    t: Seq<ConfigFields>,
    bytes: Seq<u8>,
)
    requires
        s.len() <= u32::MAX,
        t.len() <= u32::MAX,
        monitor_layout(a1@, o1@, l1@, b1, s).is_prefix_of(bytes),
        monitor_layout(a2@, o2@, l2@, b2, t).is_prefix_of(bytes),
    ensures
        a1 == a2,
        o1 == o2,
        l1 == l2,
        b1 == b2,
        s == t,
{
    let x = monitor_layout(a1@, o1@, l1@, b1, s);
    let y = monitor_layout(a2@, o2@, l2@, b2, t);
    lemma_le_bytes_len(s.len() as int, 4);
    lemma_le_bytes_len(t.len() as int, 4);
    lemma_items_layout_len(s);
    lemma_items_layout_len(t);
    assert(bytes.subrange(0, 101) =~= x.subrange(0, 101));
    assert(bytes.subrange(0, 101) =~= y.subrange(0, 101));
    let head = bytes.subrange(0, 101);
    assert(head.subrange(0, 32) =~= a1@);
    assert(head.subrange(0, 32) =~= a2@);
    assert(head.subrange(32, 64) =~= o1@);
    assert(head.subrange(32, 64) =~= o2@);
    assert(head.subrange(64, 96) =~= l1@);
    assert(head.subrange(64, 96) =~= l2@);
    crate::keys::lemma_same_view(a1, a2);
    crate::keys::lemma_same_view(o1, o2);
    crate::keys::lemma_same_view(l1, l2);
    assert(head[96] == b1 && head[96] == b2);
    assert(head.subrange(97, 101) =~= le_bytes(s.len() as int, 4));
    assert(head.subrange(97, 101) =~= le_bytes(t.len() as int, 4));
    lemma_le_bytes_4(s.len() as int, t.len() as int);
    let n = (101 + 58 * s.len()) as int;
    assert(x =~= y);
    assert(x.subrange(101, n) =~= items_layout(s));
    assert(y.subrange(101, n) =~= items_layout(t));
    lemma_items_layout_injective(s, t);
}

pub(crate) proof fn lemma_layout_injective(t: ThresholdConfig, u: ThresholdConfig)
    requires
        t.layout() == u.layout(),
    ensures
        t == u,
{
    lemma_config_layout_injective(t.fields(), u.fields());
}

pub(crate) proof fn lemma_body_prefix_free(
    m: crate::model::MonitorState,
    n: crate::model::MonitorState,
    bytes: Seq<u8>,
)
    requires
        m.writable(),
        n.writable(),
        m.body_layout().is_prefix_of(bytes),
        n.body_layout().is_prefix_of(bytes),
    ensures
        m == n,
{
    lemma_monitor_layout_prefix_free(
        m.authority.bytes,
        m.oracle_signer.bytes,
        m.vault_label,
        m.bump,
        m.items(),
        n.authority.bytes,
        n.oracle_signer.bytes,
        n.vault_label,
        n.bump,
        n.items(),
        bytes,
    );
    assert(m.thresholds =~= n.thresholds) by {
        assert(m.thresholds.len() == m.items().len() && n.thresholds.len() == n.items().len());
        assert forall|i: int| 0 <= i < m.thresholds.len() implies m.thresholds[i]
            == n.thresholds[i] by {
            assert(m.items()[i] == m.thresholds[i].fields());
            assert(n.items()[i] == n.thresholds[i].fields());
        }
    }
}

pub(crate) proof fn lemma_layout_len(m: crate::model::MonitorState)
    ensures
        m.layout().len() == 109 + 58 * m.thresholds.len(),
{
    lemma_le_bytes_len(m.items().len() as int, 4);
    lemma_items_layout_len(m.items());
}

} // verus!

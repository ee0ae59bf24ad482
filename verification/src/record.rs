//! The voter weight record: the versioned, expiry-bound, action-scoped
//! artifact the host governance engine reads.

use vstd::prelude::*;

use crate::action::{spec_action_ordinal, action_to_ordinal, VoterWeightAction};
use crate::pubkey::{zero_key, Pubkey};

verus! {

/// Size of the account discriminator that precedes the record on the wire.
pub const DISCRIMINATOR_SIZE: usize = 8;

/// Size of a serialized identifier.
pub const PUBKEY_SIZE: usize = 32;

/// The default vote weight of a single credential-gated vote.  It matches
/// the default decimal places of a governance token, so that one vote cast
/// through the plain credential gate weighs as much as one whole token.
pub const DEFAULT_VOTE_WEIGHT: u64 = 1000000;

/// A voter's weight for one (realm, governing token mint, owner) triple,
/// together with the validity window and the action scope the weight was
/// computed for.  The host engine must reject the weight when the expiry is
/// not the current time-reference or the scope does not match the action it
/// is about to authorize; this engine's duty is to stamp both correctly.
#[derive(Clone, Debug)]
pub struct VoterWeightRecord {
    /// The realm the record belongs to.
    pub realm: Pubkey,
    /// The governing token mint the record is associated with.
    pub governing_token_mint: Pubkey,
    /// The owner of the governing token: the voter.
    pub governing_token_owner: Pubkey,
    /// The voter's current weight.
    pub voter_weight: u64,
    /// The time-reference at which the weight expires; `None` never expires.
    pub voter_weight_expiry: Option<u64>,
    /// The governance action the weight is scoped to, if any.
    pub weight_action: Option<VoterWeightAction>,
    /// The target the scoped action pertains to (say, a proposal), if any.
    pub weight_action_target: Option<Pubkey>,
    /// Reserved space for future versions.
    pub reserved: [u8; 8],
}

impl VoterWeightRecord {
    /// The space a serialized record occupies on the wire, discriminator
    /// included.
    pub fn get_space() -> (space: usize)
        ensures
            space == DISCRIMINATOR_SIZE + PUBKEY_SIZE * 4 + 8 + 1 + 8 + 1 + 1 + 1 + 8,
    {
        DISCRIMINATOR_SIZE + PUBKEY_SIZE * 4 + 8 + 1 + 8 + 1 + 1 + 1 + 8
    }

    /// Whether the record has been populated.  A record whose identity
    /// fields are still at their zero value holds no valid weight and must
    /// never be consumed.
    pub fn is_initialized(&self) -> (r: bool)
        ensures
            r == (self.realm@ != zero_key() && self.governing_token_mint@ != zero_key()
                && self.governing_token_owner@ != zero_key()),
    {
        !self.realm.is_zero() && !self.governing_token_mint.is_zero()
            && !self.governing_token_owner.is_zero()
    }

    pub fn get_realm(&self) -> (r: Pubkey)
        ensures
            r@ == self.realm@,
    {
        self.realm
    }

    pub fn get_governing_token_mint(&self) -> (r: Pubkey)
        ensures
            r@ == self.governing_token_mint@,
    {
        self.governing_token_mint
    }

    pub fn get_governing_token_owner(&self) -> (r: Pubkey)
        ensures
            r@ == self.governing_token_owner@,
    {
        self.governing_token_owner
    }

    pub fn get_voter_weight(&self) -> (r: u64)
        ensures
            r == self.voter_weight,
    {
        self.voter_weight
    }

    pub fn get_weight_action(&self) -> (r: Option<VoterWeightAction>)
        ensures
            r == self.weight_action,
    {
        self.weight_action
    }

    pub fn get_weight_action_target(&self) -> (r: Option<Pubkey>)
        ensures
            r == self.weight_action_target,
    {
        self.weight_action_target
    }

    pub fn get_vote_expiry(&self) -> (r: Option<u64>)
        ensures
            r == self.voter_weight_expiry,
    {
        self.voter_weight_expiry
    }
}

impl Default for VoterWeightRecord {
    /// The unpopulated record template: zero identity fields, zero weight,
    /// and presence flags raised so the template serializes to the full
    /// fixed size.
    fn default() -> (r: Self)
        ensures
            r.realm@ == zero_key(),
            r.governing_token_mint@ == zero_key(),
            r.governing_token_owner@ == zero_key(),
            r.voter_weight == 0,
            r.voter_weight_expiry == Some(0u64),
            r.weight_action == Some(VoterWeightAction::CastVote),
            r.weight_action_target matches Some(t) && t@ == zero_key(),
            r.reserved@ == Seq::new(8, |i: int| 0u8),
    {
        let r = VoterWeightRecord {
            realm: Pubkey::zero(),
            governing_token_mint: Pubkey::zero(),
            governing_token_owner: Pubkey::zero(),
            voter_weight: 0,
            voter_weight_expiry: Some(0),
            weight_action: Some(VoterWeightAction::CastVote),
            weight_action_target: Some(Pubkey::zero()),
            reserved: [0u8; 8],
        };
        proof {
            assert(r.reserved@ =~= Seq::new(8, |i: int| 0u8));
        }
        r
    }
}

/// The fixed serialized shape of an optional time-reference: a presence
/// flag, then the value, zero-filled when absent.
pub open spec fn spec_opt_u64_bytes(o: Option<u64>) -> Seq<u8> {
    match o {
        None => seq![0u8] + Seq::new(8, |i: int| 0u8),
        Some(v) => seq![1u8] + vstd::bytes::spec_u64_to_le_bytes(v),
    }
}

/// The fixed serialized shape of an optional action: a presence flag, then
/// the action's stable ordinal, zero when absent.
pub open spec fn spec_opt_action_bytes(o: Option<VoterWeightAction>) -> Seq<u8> {
    match o {
        None => seq![0u8, 0u8],
        Some(a) => seq![1u8, spec_action_ordinal(a) as u8],
    }
}

/// The fixed serialized shape of an optional identifier: a presence flag,
/// then the key, zero-filled when absent.
pub open spec fn spec_opt_key_bytes(o: Option<Pubkey>) -> Seq<u8> {
    match o {
        None => seq![0u8] + zero_key(),
        Some(k) => seq![1u8] + k@,
    }
}

/// The record's byte layout, after the discriminator: realm, mint, owner,
/// weight (little-endian), optional expiry, optional action, optional
/// target, reserved padding.  Every field has a fixed offset and size.
pub open spec fn spec_serialized_record(r: VoterWeightRecord) -> Seq<u8> {
    r.realm@ + r.governing_token_mint@ + r.governing_token_owner@
        + vstd::bytes::spec_u64_to_le_bytes(r.voter_weight) + spec_opt_u64_bytes(
        r.voter_weight_expiry,
    ) + spec_opt_action_bytes(r.weight_action) + spec_opt_key_bytes(r.weight_action_target)
        + r.reserved@
}

/// Appends a 32-byte identifier.
#[verifier::loop_isolation(false)]
fn push_key(out: &mut Vec<u8>, k: &Pubkey)
    ensures
        final(out)@ == old(out)@ + k@,
{
    let mut i: usize = 0;
    while i < 32
        invariant
            i <= 32,
            out@ == old(out)@ + k@.subrange(0, i as int),
        decreases 32 - i,
    {
        out.push(k.bytes[i]);
        proof {
            assert(old(out)@ + k@.subrange(0, i as int) + seq![k@[i as int]] =~= old(out)@
                + k@.subrange(0, i + 1));
        }
        i += 1;
    }
    proof {
        assert(k@.subrange(0, 32) =~= k@);
    }
}

/// Appends a weight or time-reference value, little-endian.
fn push_u64_le(out: &mut Vec<u8>, v: u64)
    ensures
        final(out)@ == old(out)@ + vstd::bytes::spec_u64_to_le_bytes(v),
{
    let mut bytes = vstd::bytes::u64_to_le_bytes(v);
    out.append(&mut bytes);
}

/// Appends eight zero bytes: an absent value's fixed-size placeholder.
#[verifier::loop_isolation(false)]
fn push_zero8(out: &mut Vec<u8>)
    ensures
        final(out)@ == old(out)@ + Seq::new(8, |i: int| 0u8),
{
    let mut i: usize = 0;
    while i < 8
        invariant
            i <= 8,
            out@ == old(out)@ + Seq::new(i as nat, |j: int| 0u8),
        decreases 8 - i,
    {
        out.push(0u8);
        proof {
            assert(old(out)@ + Seq::new(i as nat, |j: int| 0u8) + seq![0u8] =~= old(out)@
                + Seq::new((i + 1) as nat, |j: int| 0u8));
        }
        i += 1;
    }
}

impl VoterWeightRecord {
    /// Serializes the record to its fixed byte layout, the authoritative
    /// surface the host engine reads (the discriminator is the host
    /// framework's and is not included).
    #[verifier::rlimit(50)]
    pub fn to_bytes(&self) -> (out: Vec<u8>)
        ensures
            out@ == spec_serialized_record(*self),
            out@.len() == PUBKEY_SIZE * 4 + 8 + 1 + 8 + 1 + 1 + 1 + 8,
    {
        let mut out: Vec<u8> = Vec::new();
        push_key(&mut out, &self.realm);
        push_key(&mut out, &self.governing_token_mint);
        push_key(&mut out, &self.governing_token_owner);
        push_u64_le(&mut out, self.voter_weight);
        match &self.voter_weight_expiry {
            None => {
                out.push(0u8);
                push_zero8(&mut out);
            },
            Some(v) => {
                out.push(1u8);
                push_u64_le(&mut out, *v);
            },
        }
        match &self.weight_action {
            None => {
                out.push(0u8);
                out.push(0u8);
            },
            Some(a) => {
                out.push(1u8);
                out.push(action_to_ordinal(*a));
            },
        }
        match &self.weight_action_target {
            None => {
                out.push(0u8);
                let zero = Pubkey::zero();
                push_key(&mut out, &zero);
            },
            Some(k) => {
                out.push(1u8);
                push_key(&mut out, k);
            },
        }
        let mut i: usize = 0;
        let ghost before: Seq<u8> = out@;
        #[verifier::loop_isolation(false)]
        while i < 8
            invariant
                i <= 8,
                out@ == before + self.reserved@.subrange(0, i as int),
            decreases 8 - i,
        {
            out.push(self.reserved[i]);
            proof {
                assert(before + self.reserved@.subrange(0, i as int) + seq![self.reserved@[i as int]]
                    =~= before + self.reserved@.subrange(0, i + 1));
            }
            i += 1;
        }
        proof {
            vstd::bytes::lemma_auto_spec_u64_to_from_le_bytes();
            assert(self.reserved@.subrange(0, 8) =~= self.reserved@);
            assert(out@ =~= spec_serialized_record(*self));
        }
        out
    }
}


/// A byte string that parses as a record: the layout's exact length, every
/// presence flag 0 or 1, a zero-filled value under every absent flag, and
/// an action ordinal inside the engine's enumeration.
pub open spec fn spec_record_bytes_wellformed(s: Seq<u8>) -> bool {
    &&& s.len() == 156
    &&& (s[104] == 0 || s[104] == 1)
    &&& (s[104] == 0 ==> s.subrange(105, 113) == Seq::new(8, |i: int| 0u8))
    &&& (s[113] == 0 || s[113] == 1)
    &&& (s[113] == 0 ==> s[114] == 0)
    &&& (s[113] == 1 ==> s[114] < 5)
    &&& (s[115] == 0 || s[115] == 1)
    &&& (s[115] == 0 ==> s.subrange(116, 148) == zero_key())
}

/// Law: what the serializer writes always parses back — every serialized
/// record is well-formed.
pub proof fn lemma_serialized_record_wellformed(r: VoterWeightRecord)
    ensures
        spec_record_bytes_wellformed(spec_serialized_record(r)),
{
    vstd::bytes::lemma_auto_spec_u64_to_from_le_bytes();
    let s = spec_serialized_record(r);
    match r.voter_weight_expiry {
        None => {
            assert(s.subrange(105, 113) =~= Seq::new(8, |i: int| 0u8));
        },
        Some(v) => {
            assert(s[104] == 1);
        },
    }
    match r.weight_action_target {
        None => {
            assert(s.subrange(116, 148) =~= zero_key());
        },
        Some(k) => {
            assert(s[115] == 1);
        },
    }
}

/// Reads a 32-byte identifier at a fixed offset.
#[verifier::loop_isolation(false)]
fn read_key(bytes: &[u8], offset: usize) -> (r: Pubkey)
    requires
        offset + 32 <= bytes@.len(),
    ensures
        r@ == bytes@.subrange(offset as int, offset + 32),
{
    let _n = bytes.len();
    let mut arr: [u8; 32] = [0u8; 32];
    let mut i: usize = 0;
    while i < 32
        invariant
            i <= 32,
            forall|j: int| 0 <= j < i ==> arr@[j] == bytes@[offset + j],
        decreases 32 - i,
    {
        arr[i] = *vstd::slice::slice_index_get(bytes, offset + i);
        i += 1;
    }
    let k = Pubkey { bytes: arr };
    proof {
        assert(k@ =~= bytes@.subrange(offset as int, offset + 32));
    }
    k
}

/// Whether a fixed region holds only zero bytes.
#[verifier::loop_isolation(false)]
fn region_is_zero(bytes: &[u8], start: usize, end: usize) -> (r: bool)
    requires
        start <= end <= bytes@.len(),
    ensures
        r == (bytes@.subrange(start as int, end as int) == Seq::new(
            (end - start) as nat,
            |i: int| 0u8,
        )),
{
    let ghost zeros = Seq::new((end - start) as nat, |i: int| 0u8);
    let _n = bytes.len();
    let mut i: usize = start;
    while i < end
        invariant
            start <= i <= end,
            forall|j: int| start <= j < i ==> bytes@[j] == 0u8,
        decreases end - i,
    {
        if *vstd::slice::slice_index_get(bytes, i) != 0 {
            proof {
                assert(bytes@.subrange(start as int, end as int)[i - start] != zeros[i - start]);
            }
            return false;
        }
        i += 1;
    }
    proof {
        assert(bytes@.subrange(start as int, end as int) =~= zeros);
    }
    true
}

impl VoterWeightRecord {
    /// Parses a record from its fixed byte layout (without the
    /// discriminator): the exact inverse of the serializer.  Returns the
    /// record whose serialization is the input, or nothing for a byte
    /// string no record serializes to.
    pub fn from_bytes(bytes: &[u8]) -> (r: Option<VoterWeightRecord>)
        ensures
            r is Some <==> spec_record_bytes_wellformed(bytes@),
            r matches Some(rec) ==> spec_serialized_record(rec) == bytes@,
    {
        proof {
            vstd::bytes::lemma_auto_spec_u64_to_from_le_bytes();
        }
        if bytes.len() != 156 {
            return None;
        }
        let realm = read_key(bytes, 0);
        let governing_token_mint = read_key(bytes, 32);
        let governing_token_owner = read_key(bytes, 64);
        let voter_weight = vstd::bytes::u64_from_le_bytes(
            vstd::slice::slice_subrange(bytes, 96, 104),
        );
        let expiry_flag = *vstd::slice::slice_index_get(bytes, 104);
        let voter_weight_expiry: Option<u64> = if expiry_flag == 0 {
            if !region_is_zero(bytes, 105, 113) {
                return None;
            }
            None
        } else if expiry_flag == 1 {
            Some(vstd::bytes::u64_from_le_bytes(vstd::slice::slice_subrange(bytes, 105, 113)))
        } else {
            return None;
        };
        let action_flag = *vstd::slice::slice_index_get(bytes, 113);
        let ordinal = *vstd::slice::slice_index_get(bytes, 114);
        let weight_action: Option<VoterWeightAction> = if action_flag == 0 {
            if ordinal != 0 {
                return None;
            }
            None
        } else if action_flag == 1 {
            match crate::action::action_from_ordinal(ordinal) {
                Err(_) => {
                    return None;
                },
                Ok(a) => Some(a),
            }
        } else {
            return None;
        };
        let target_flag = *vstd::slice::slice_index_get(bytes, 115);
        let weight_action_target: Option<Pubkey> = if target_flag == 0 {
            if !region_is_zero(bytes, 116, 148) {
                proof {
                    assert(zero_key() =~= Seq::new(32nat, |i: int| 0u8));
                }
                return None;
            }
            None
        } else if target_flag == 1 {
            Some(read_key(bytes, 116))
        } else {
            return None;
        };
        let mut reserved: [u8; 8] = [0u8; 8];
        let mut i: usize = 0;
        #[verifier::loop_isolation(false)]
        while i < 8
            invariant
                i <= 8,
                forall|j: int| 0 <= j < i ==> reserved@[j] == bytes@[148 + j],
            decreases 8 - i,
        {
            reserved[i] = *vstd::slice::slice_index_get(bytes, 148 + i);
            i += 1;
        }
        let rec = VoterWeightRecord {
            realm,
            governing_token_mint,
            governing_token_owner,
            voter_weight,
            voter_weight_expiry,
            weight_action,
            weight_action_target,
            reserved,
        };
        proof {
            assert(zero_key() =~= Seq::new(32nat, |i: int| 0u8));
            assert(spec_serialized_record(rec) =~= bytes@);
        }
        Some(rec)
    }
}


/// Every field of a record stands at a fixed offset of its serialization
/// and can be read back from it.
pub proof fn lemma_serialized_record_fields(r: VoterWeightRecord)
    ensures
        ({
            let s = spec_serialized_record(r);
            &&& s.len() == 156
            &&& s.subrange(0, 32) == r.realm@
            &&& s.subrange(32, 64) == r.governing_token_mint@
            &&& s.subrange(64, 96) == r.governing_token_owner@
            &&& s.subrange(96, 104) == vstd::bytes::spec_u64_to_le_bytes(r.voter_weight)
            &&& (s[104] == 1 <==> r.voter_weight_expiry is Some)
            &&& (r.voter_weight_expiry matches Some(v) ==> s.subrange(105, 113)
                == vstd::bytes::spec_u64_to_le_bytes(v))
            &&& (s[113] == 1 <==> r.weight_action is Some)
            &&& (r.weight_action matches Some(a) ==> s[114] == spec_action_ordinal(a))
            &&& (s[115] == 1 <==> r.weight_action_target is Some)
            &&& (r.weight_action_target matches Some(t) ==> s.subrange(116, 148) == t@)
            &&& s.subrange(148, 156) == r.reserved@
        }),
{
    vstd::bytes::lemma_auto_spec_u64_to_from_le_bytes();
    let s = spec_serialized_record(r);
    assert(s.subrange(0, 32) =~= r.realm@);
    assert(s.subrange(32, 64) =~= r.governing_token_mint@);
    assert(s.subrange(64, 96) =~= r.governing_token_owner@);
    assert(s.subrange(96, 104) =~= vstd::bytes::spec_u64_to_le_bytes(r.voter_weight));
    match r.voter_weight_expiry {
        Some(v) => {
            assert(s.subrange(105, 113) =~= vstd::bytes::spec_u64_to_le_bytes(v));
        },
        None => {},
    }
    match r.weight_action_target {
        Some(t) => {
            assert(s.subrange(116, 148) =~= t@);
        },
        None => {},
    }
    assert(s.subrange(148, 156) =~= r.reserved@);
}

/// Law: serialization is injective — two records with the same bytes agree
/// on every field — so parsing a serialized record recovers it exactly.
pub proof fn lemma_serialization_injective(r1: VoterWeightRecord, r2: VoterWeightRecord)
    requires
        spec_serialized_record(r1) == spec_serialized_record(r2),
    ensures
        r1.realm@ == r2.realm@,
        r1.governing_token_mint@ == r2.governing_token_mint@,
        r1.governing_token_owner@ == r2.governing_token_owner@,
        r1.voter_weight == r2.voter_weight,
        r1.voter_weight_expiry == r2.voter_weight_expiry,
        r1.weight_action == r2.weight_action,
        r1.weight_action_target is Some <==> r2.weight_action_target is Some,
        r1.weight_action_target is Some ==> r1.weight_action_target->Some_0@
            == r2.weight_action_target->Some_0@,
        r1.reserved@ == r2.reserved@,
{
    vstd::bytes::lemma_auto_spec_u64_to_from_le_bytes();
    lemma_serialized_record_fields(r1);
    lemma_serialized_record_fields(r2);
    match (r1.voter_weight_expiry, r2.voter_weight_expiry) {
        (Some(v1), Some(v2)) => {
            assert(vstd::bytes::spec_u64_from_le_bytes(
                vstd::bytes::spec_u64_to_le_bytes(v1),
            ) == vstd::bytes::spec_u64_from_le_bytes(vstd::bytes::spec_u64_to_le_bytes(v2)));
        },
        _ => {},
    }
    match (r1.weight_action, r2.weight_action) {
        (Some(a1), Some(a2)) => {
            assert(spec_action_ordinal(a1) == spec_action_ordinal(a2));
            assert(a1 == a2);
        },
        _ => {},
    }
}

} // verus!

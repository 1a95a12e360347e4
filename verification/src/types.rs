//! Core data structures: the 32-byte semantic atom, its builder and the
//! telemetry, trust, predicate and status constants.
//!
//! Wire layout of an atom (all fields little-endian):
//!
//! | bytes | field          |
//! |-------|----------------|
//! | 0-3   | entity_id      |
//! | 4-7   | sequence       |
//! | 8-11  | value_fixed    |
//! | 12-15 | status_flags   |
//! | 16-23 | timestamp_us   |
//! | 24-25 | node_id        |
//! | 26-27 | telemetry_type |
//! | 28-31 | trust_pqc      |

pub mod wire;
pub mod telemetry;
pub mod trust;
pub mod predicate;
pub mod status;

use vstd::prelude::*;
use crate::types::wire::{
    le_u16, le_u32, le_u64, read_u16, read_u32, read_u64, lemma_u16_roundtrip,
    lemma_u32_roundtrip, lemma_u64_roundtrip, lemma_u16_bytes, lemma_u32_bytes, u16_to_le,
    u32_to_le, u16_from_le, u32_from_le, u64_from_le,
};
use crate::utils::time::now_us;

verus! {

/// Entity identifier type (32 bits)
pub type EntityId = u32;

/// Telemetry type identifier (16 bits)
pub type TelemetryType = u16;

/// Trust level identifier (8 bits)
pub type TrustLevel = u8;

/// Predicate identifier (32 bits)
pub type PredicateId = u32;

/// Fixed-point value type (32 bits, hundredths precision)
pub type FixedPointValue = u32;

/// Core semantic atom: one 32-byte telemetry record.
#[derive(Debug, Clone, Copy, PartialEq, Eq, Structural)]
pub struct SemanticAtom {
    /// Entity identifier
    pub entity_id: EntityId,
    /// Sequence number for ordering
    pub sequence: u32,
    /// Fixed-point measurement value (hundredths of unit)
    pub value_fixed: FixedPointValue,
    /// Status flags and metadata
    pub status_flags: u32,
    /// Timestamp in microseconds since Unix epoch
    pub timestamp_us: u64,
    /// Node identifier
    pub node_id: u16,
    /// Telemetry type
    pub telemetry_type: TelemetryType,
    /// Trust level (low 8 bits) and PQC anchor (high 24 bits)
    pub trust_pqc: u32,
}

/// The atom whose fields are all zero.
pub open spec fn zero_atom() -> SemanticAtom {
    SemanticAtom {
        entity_id: 0,
        sequence: 0,
        value_fixed: 0,
        status_flags: 0,
        timestamp_us: 0,
        node_id: 0,
        telemetry_type: 0,
        trust_pqc: 0,
    }
}

/// The 32-byte wire encoding of an atom.
pub open spec fn atom_bytes(a: SemanticAtom) -> Seq<u8> {
    le_u32(a.entity_id) + le_u32(a.sequence) + le_u32(a.value_fixed) + le_u32(a.status_flags)
        + le_u64(a.timestamp_us) + le_u16(a.node_id) + le_u16(a.telemetry_type) + le_u32(
        a.trust_pqc,
    )
}

/// The atom that a 32-byte buffer encodes.
pub open spec fn atom_from_bytes(b: Seq<u8>) -> SemanticAtom {
    SemanticAtom {
        entity_id: read_u32(b, 0),
        sequence: read_u32(b, 4),
        value_fixed: read_u32(b, 8),
        status_flags: read_u32(b, 12),
        timestamp_us: read_u64(b, 16),
        node_id: read_u16(b, 24),
        telemetry_type: read_u16(b, 26),
        trust_pqc: read_u32(b, 28),
    }
}

/// Decoding the encoding of an atom gives the atom back, and the encoding is 32 bytes long.
pub proof fn lemma_atom_encode_decode(a: SemanticAtom)
    ensures
        atom_bytes(a).len() == 32,
        atom_from_bytes(atom_bytes(a)) == a,
{
    let b = atom_bytes(a);
    lemma_u32_roundtrip(a.entity_id);
    lemma_u32_roundtrip(a.sequence);
    lemma_u32_roundtrip(a.value_fixed);
    lemma_u32_roundtrip(a.status_flags);
    lemma_u64_roundtrip(a.timestamp_us);
    lemma_u16_roundtrip(a.node_id);
    lemma_u16_roundtrip(a.telemetry_type);
    lemma_u32_roundtrip(a.trust_pqc);
    assert(b.subrange(0, 4) =~= le_u32(a.entity_id));
    assert(b.subrange(4, 8) =~= le_u32(a.sequence));
    assert(b.subrange(8, 12) =~= le_u32(a.value_fixed));
    assert(b.subrange(12, 16) =~= le_u32(a.status_flags));
    assert(b.subrange(16, 24) =~= le_u64(a.timestamp_us));
    assert(b.subrange(24, 26) =~= le_u16(a.node_id));
    assert(b.subrange(26, 28) =~= le_u16(a.telemetry_type));
    assert(b.subrange(28, 32) =~= le_u32(a.trust_pqc));
    assert(read_u32(b, 0) == read_u32(b.subrange(0, 4), 0));
    assert(read_u32(b, 4) == read_u32(b.subrange(4, 8), 0));
    assert(read_u32(b, 8) == read_u32(b.subrange(8, 12), 0));
    assert(read_u32(b, 12) == read_u32(b.subrange(12, 16), 0));
    assert(read_u32(b, 16) == read_u32(b.subrange(16, 24), 0));
    assert(read_u32(b, 20) == read_u32(b.subrange(16, 24), 4));
    assert(read_u16(b, 24) == read_u16(b.subrange(24, 26), 0));
    assert(read_u16(b, 26) == read_u16(b.subrange(26, 28), 0));
    assert(read_u32(b, 28) == read_u32(b.subrange(28, 32), 0));
}

/// Encoding the atom that a 32-byte buffer decodes to gives the buffer back.
pub proof fn lemma_atom_decode_encode(b: Seq<u8>)
    requires
        b.len() == 32,
    ensures
        atom_bytes(atom_from_bytes(b)) == b,
{
    let a = atom_from_bytes(b);
    lemma_u32_bytes(b[0], b[1], b[2], b[3]);
    lemma_u32_bytes(b[4], b[5], b[6], b[7]);
    lemma_u32_bytes(b[8], b[9], b[10], b[11]);
    lemma_u32_bytes(b[12], b[13], b[14], b[15]);
    lemma_u32_bytes(b[16], b[17], b[18], b[19]);
    lemma_u32_bytes(b[20], b[21], b[22], b[23]);
    lemma_u16_bytes(b[24], b[25]);
    lemma_u16_bytes(b[26], b[27]);
    lemma_u32_bytes(b[28], b[29], b[30], b[31]);
    let lo = read_u32(b, 16);
    let hi = read_u32(b, 20);
    assert(a.timestamp_us == lo + 4294967296 * hi);
    assert((lo + 4294967296 * hi) % 4294967296 == lo && (lo + 4294967296 * hi) / 4294967296
        == hi) by (nonlinear_arith)
        requires
            lo < 4294967296,
    ;
    assert(atom_bytes(a) =~= b);
}

/// Default atom: all fields zero.
impl Default for SemanticAtom {
    fn default() -> (r: Self)
        ensures
            r == zero_atom(),
    {
        SemanticAtom {
            entity_id: 0,
            sequence: 0,
            value_fixed: 0,
            status_flags: 0,
            timestamp_us: 0,
            node_id: 0,
            telemetry_type: 0,
            trust_pqc: 0,
        }
    }
}

impl SemanticAtom {
    /// Create a new atom with all fields zero.
    pub fn new() -> (r: Self)
        ensures
            r == zero_atom(),
    {
        Self::default()
    }

    /// The atom's 32-byte little-endian wire encoding.
    pub fn as_bytes(&self) -> (r: [u8; 32])
        ensures
            r@ == atom_bytes(*self),
    {
        let e = u32_to_le(self.entity_id);
        let s = u32_to_le(self.sequence);
        let v = u32_to_le(self.value_fixed);
        let f = u32_to_le(self.status_flags);
        let tl = u32_to_le((self.timestamp_us % 4294967296) as u32);
        let th = u32_to_le((self.timestamp_us / 4294967296) as u32);
        let n = u16_to_le(self.node_id);
        let t = u16_to_le(self.telemetry_type);
        let p = u32_to_le(self.trust_pqc);
        let r = [
            e[0], e[1], e[2], e[3], s[0], s[1], s[2], s[3],
            v[0], v[1], v[2], v[3], f[0], f[1], f[2], f[3],
            tl[0], tl[1], tl[2], tl[3], th[0], th[1], th[2], th[3],
            n[0], n[1], t[0], t[1], p[0], p[1], p[2], p[3],
        ];
        assert(r@ =~= atom_bytes(*self));
        r
    }

    /// Decode an atom from its 32-byte wire encoding; `None` when `data` is
    /// not exactly 32 bytes long.
    pub fn from_bytes(data: &[u8]) -> (r: Option<SemanticAtom>)
        ensures
            data@.len() == 32 <==> r is Some,
            r matches Some(a) ==> a == atom_from_bytes(data@),
    {
        if data.len() != 32 {
            return None;
        }
        assert(data@.subrange(0, 32) =~= data@);
        Some(Self::from_bytes_at(data, 0))
    }

    /// Decode the atom whose encoding starts at `offset` in `data`.
    pub fn from_bytes_at(data: &[u8], offset: usize) -> (r: SemanticAtom)
        requires
            offset + 32 <= data@.len(),
        ensures
            r == atom_from_bytes(data@.subrange(offset as int, offset + 32)),
    {
        let ghost b = data@.subrange(offset as int, offset + 32);
        let len = data.len();
        assert(offset + 32 <= len);
        let r = SemanticAtom {
            entity_id: u32_from_le(data, offset),
            sequence: u32_from_le(data, offset + 4),
            value_fixed: u32_from_le(data, offset + 8),
            status_flags: u32_from_le(data, offset + 12),
            timestamp_us: u64_from_le(data, offset + 16),
            node_id: u16_from_le(data, offset + 24),
            telemetry_type: u16_from_le(data, offset + 26),
            trust_pqc: u32_from_le(data, offset + 28),
        };
        assert(read_u32(data@, offset as int) == read_u32(b, 0));
        assert(read_u32(data@, offset + 4) == read_u32(b, 4));
        assert(read_u32(data@, offset + 8) == read_u32(b, 8));
        assert(read_u32(data@, offset + 12) == read_u32(b, 12));
        assert(read_u32(data@, offset + 16) == read_u32(b, 16));
        assert(read_u32(data@, offset + 20) == read_u32(b, 20));
        assert(read_u16(data@, offset + 24) == read_u16(b, 24));
        assert(read_u16(data@, offset + 26) == read_u16(b, 26));
        assert(read_u32(data@, offset + 28) == read_u32(b, 28));
        r
    }

    /// Entity identifier.
    pub fn entity_id(&self) -> (r: EntityId)
        ensures
            r == self.entity_id,
    {
        self.entity_id
    }

    /// Sequence number.
    pub fn sequence(&self) -> (r: u32)
        ensures
            r == self.sequence,
    {
        self.sequence
    }

    /// Fixed-point value (hundredths).
    pub fn value_fixed(&self) -> (r: FixedPointValue)
        ensures
            r == self.value_fixed,
    {
        self.value_fixed
    }

    /// Status flags.
    pub fn status_flags(&self) -> (r: u32)
        ensures
            r == self.status_flags,
    {
        self.status_flags
    }

    /// Timestamp in microseconds.
    pub fn timestamp_us(&self) -> (r: u64)
        ensures
            r == self.timestamp_us,
    {
        self.timestamp_us
    }

    /// Node identifier.
    pub fn node_id(&self) -> (r: u16)
        ensures
            r == self.node_id,
    {
        self.node_id
    }

    /// Telemetry type.
    pub fn telemetry_type(&self) -> (r: TelemetryType)
        ensures
            r == self.telemetry_type,
    {
        self.telemetry_type
    }

    /// Trust level: the low 8 bits of `trust_pqc`.
    pub fn trust_level(&self) -> (r: TrustLevel)
        ensures
            r == self.trust_pqc % 256,
    {
        (self.trust_pqc % 256) as u8
    }

    /// PQC anchor: the high 24 bits of `trust_pqc`.
    pub fn pqc_anchor(&self) -> (r: u32)
        ensures
            r == self.trust_pqc / 256,
    {
        self.trust_pqc / 256
    }
}

/// Builder for semantic atoms.
///
/// Fields that are not set stay zero, except the timestamp: an atom built
/// without an explicit timestamp is stamped with the current time.
#[derive(Debug, Clone, Copy)]
pub struct AtomBuilder {
    entity_id: u32,
    sequence: u32,
    value_fixed: u32,
    status_flags: u32,
    timestamp_us: Option<u64>,
    node_id: u16,
    telemetry_type: u16,
    trust_pqc: u32,
}

impl AtomBuilder {
    /// The atom this builder produces when `timestamp` is the time it is stamped with.
    pub closed spec fn spec_atom(self, timestamp: u64) -> SemanticAtom {
        SemanticAtom {
            entity_id: self.entity_id,
            sequence: self.sequence,
            value_fixed: self.value_fixed,
            status_flags: self.status_flags,
            timestamp_us: match self.timestamp_us {
                Some(t) => t,
                None => timestamp,
            },
            node_id: self.node_id,
            telemetry_type: self.telemetry_type,
            trust_pqc: self.trust_pqc,
        }
    }

    /// Whether an explicit timestamp has been set.
    pub closed spec fn has_timestamp(self) -> bool {
        self.timestamp_us is Some
    }

    /// A builder with every field zero and no timestamp set.
    pub fn new() -> (r: Self)
        ensures
            !r.has_timestamp(),
            forall|t: u64| #[trigger] r.spec_atom(t) == (SemanticAtom { timestamp_us: t, ..zero_atom() }),
    {
        AtomBuilder {
            entity_id: 0,
            sequence: 0,
            value_fixed: 0,
            status_flags: 0,
            timestamp_us: None,
            node_id: 0,
            telemetry_type: 0,
            trust_pqc: 0,
        }
    }

    /// Set the entity identifier.
    pub fn entity_id(self, id: EntityId) -> (r: Self)
        ensures
            r.has_timestamp() == self.has_timestamp(),
            forall|t: u64| #[trigger] r.spec_atom(t) == (SemanticAtom { entity_id: id, ..self.spec_atom(t) }),
    {
        AtomBuilder { entity_id: id, ..self }
    }

    /// Set the sequence number.
    pub fn sequence(self, seq: u32) -> (r: Self)
        ensures
            r.has_timestamp() == self.has_timestamp(),
            forall|t: u64| #[trigger] r.spec_atom(t) == (SemanticAtom { sequence: seq, ..self.spec_atom(t) }),
    {
        AtomBuilder { sequence: seq, ..self }
    }

    /// Set the fixed-point value (hundredths).
    pub fn value_fixed(self, value: FixedPointValue) -> (r: Self)
        ensures
            r.has_timestamp() == self.has_timestamp(),
            forall|t: u64| #[trigger] r.spec_atom(t) == (SemanticAtom { value_fixed: value, ..self.spec_atom(t) }),
    {
        AtomBuilder { value_fixed: value, ..self }
    }

    /// Set the status flags.
    pub fn status_flags(self, flags: u32) -> (r: Self)
        ensures
            r.has_timestamp() == self.has_timestamp(),
            forall|t: u64| #[trigger] r.spec_atom(t) == (SemanticAtom { status_flags: flags, ..self.spec_atom(t) }),
    {
        AtomBuilder { status_flags: flags, ..self }
    }

    /// Set the timestamp in microseconds.
    pub fn timestamp_us(self, ts: u64) -> (r: Self)
        ensures
            r.has_timestamp(),
            forall|t: u64| #[trigger] r.spec_atom(t) == (SemanticAtom { timestamp_us: ts, ..self.spec_atom(t) }),
    {
        AtomBuilder { timestamp_us: Some(ts), ..self }
    }

    /// Set the node identifier.
    pub fn node_id(self, id: u16) -> (r: Self)
        ensures
            r.has_timestamp() == self.has_timestamp(),
            forall|t: u64| #[trigger] r.spec_atom(t) == (SemanticAtom { node_id: id, ..self.spec_atom(t) }),
    {
        AtomBuilder { node_id: id, ..self }
    }

    /// Set the telemetry type.
    pub fn telemetry_type(self, ty: TelemetryType) -> (r: Self)
        ensures
            r.has_timestamp() == self.has_timestamp(),
            forall|t: u64| #[trigger] r.spec_atom(t) == (SemanticAtom { telemetry_type: ty, ..self.spec_atom(t) }),
    {
        AtomBuilder { telemetry_type: ty, ..self }
    }

    /// Set the trust level (the low 8 bits of `trust_pqc`), keeping the PQC anchor.
    pub fn trust_level(self, level: TrustLevel) -> (r: Self)
        ensures
            r.has_timestamp() == self.has_timestamp(),
            forall|t: u64| #[trigger] r.spec_atom(t) == (SemanticAtom {
                trust_pqc: ((self.spec_atom(t).trust_pqc / 256) * 256 + level) as u32,
                ..self.spec_atom(t)
            }),
    {
        let p = (self.trust_pqc / 256) * 256 + level as u32;
        AtomBuilder { trust_pqc: p, ..self }
    }

    /// Set the PQC anchor (the high 24 bits of `trust_pqc`), keeping the trust level.
    pub fn pqc_anchor(self, anchor: u32) -> (r: Self)
        ensures
            r.has_timestamp() == self.has_timestamp(),
            forall|t: u64| #[trigger] r.spec_atom(t) == (SemanticAtom {
                trust_pqc: ((anchor % 16777216) * 256 + self.spec_atom(t).trust_pqc % 256) as u32,
                ..self.spec_atom(t)
            }),
    {
        let p = (anchor % 16777216) * 256 + self.trust_pqc % 256;
        AtomBuilder { trust_pqc: p, ..self }
    }

    /// Build the atom. Without an explicit timestamp the atom is stamped with
    /// the current time.
    pub fn build(self) -> (r: SemanticAtom)
        ensures
            r == self.spec_atom(r.timestamp_us),
            self.has_timestamp() ==> r == self.spec_atom(0),
    {
        let ts = match self.timestamp_us {
            Some(t) => t,
            None => now_us(),
        };
        self.build_at(ts)
    }

    /// Build the atom, stamping it with the current time.
    pub fn build_now(self) -> (r: SemanticAtom)
        ensures
            r == (SemanticAtom { timestamp_us: r.timestamp_us, ..self.spec_atom(0) }),
    {
        let t = now_us();
        self.timestamp_us(t).build_at(t)
    }

    /// Build the atom; `now` is the timestamp used when none was set.
    pub fn build_at(self, now: u64) -> (r: SemanticAtom)
        ensures
            r == self.spec_atom(now),
    {
        SemanticAtom {
            entity_id: self.entity_id,
            sequence: self.sequence,
            value_fixed: self.value_fixed,
            status_flags: self.status_flags,
            timestamp_us: match self.timestamp_us {
                Some(t) => t,
                None => now,
            },
            node_id: self.node_id,
            telemetry_type: self.telemetry_type,
            trust_pqc: self.trust_pqc,
        }
    }
}

} // verus!

//! Data protection for semantic atoms: anonymization, value obfuscation and
//! HMAC-SHA256 signing of atoms and protected packets.

use vstd::prelude::*;
use crate::types::{SemanticAtom, atom_bytes, atom_from_bytes, lemma_atom_decode_encode};
use crate::types::trust;
use hmac::digest::InvalidLength;

verus! {

/// Error types for shield operations
#[derive(Debug, Clone, Copy, PartialEq, Eq, Structural)]
pub enum ShieldError {
    /// Invalid key size
    InvalidKeySize,
    /// Invalid signature
    InvalidSignature,
    /// Cryptographic operation failed
    CryptoError,
    /// Buffer size mismatch
    BufferSizeError,
}

impl ShieldError {
    /// Human-readable description of the error.
    pub fn message(&self) -> (r: &'static str)
        ensures
            r == match self {
                ShieldError::InvalidKeySize => "Invalid key size",
                ShieldError::InvalidSignature => "Invalid signature",
                ShieldError::CryptoError => "Cryptographic operation failed",
                ShieldError::BufferSizeError => "Buffer size mismatch",
            },
    {
        match self {
            ShieldError::InvalidKeySize => "Invalid key size",
            ShieldError::InvalidSignature => "Invalid signature",
            ShieldError::CryptoError => "Cryptographic operation failed",
            ShieldError::BufferSizeError => "Buffer size mismatch",
        }
    }
}

/// Anonymization levels for semantic atoms, from none to maximum.
#[derive(Debug, Clone, Copy, PartialEq, Eq, PartialOrd, Ord, Structural)]
pub enum AnonymizationLevel {
    /// No anonymization - raw data
    Off,
    /// Basic anonymization - entity ID masking
    Basic,
    /// Medium anonymization - entity + node ID masking
    Medium,
    /// High anonymization - all identifying information masked
    High,
    /// Maximum anonymization - complete data obfuscation
    Maximum,
}

/// Semantic obfuscation strategies
#[derive(Debug, Clone, Copy, PartialEq, Eq, Structural)]
pub enum ObfuscationStrategy {
    /// Replace with zeros
    Zeroize,
    /// Add pseudo-random noise
    Noise,
    /// Use hash-based masking
    HashMask,
    /// Apply differential privacy (Laplace noise in floating point)
    DifferentialPrivacy,
    /// Round down to a bucket of 10 units
    Bucketize,
}

/// Shield configuration for atom protection.
///
/// The privacy budget that drives differential privacy is a floating-point
/// quantity and is kept by the caller that applies that strategy.
#[derive(Debug, Clone, Copy, PartialEq, Eq, Structural)]
pub struct ShieldConfig {
    /// Anonymization level
    pub anonymization_level: AnonymizationLevel,
    /// Obfuscation strategy
    pub obfuscation_strategy: ObfuscationStrategy,
    /// Enable PQC signing
    pub enable_pqc: bool,
}

/// The default configuration: basic anonymization, hash masking, signing enabled.
pub open spec fn default_config() -> ShieldConfig {
    ShieldConfig {
        anonymization_level: AnonymizationLevel::Basic,
        obfuscation_strategy: ObfuscationStrategy::HashMask,
        enable_pqc: true,
    }
}

impl Default for ShieldConfig {
    fn default() -> (r: Self)
        ensures
            r == default_config(),
    {
        ShieldConfig {
            anonymization_level: AnonymizationLevel::Basic,
            obfuscation_strategy: ObfuscationStrategy::HashMask,
            enable_pqc: true,
        }
    }
}

/// One hour in microseconds.
pub const HOUR_US: u64 = 3_600_000_000;

/// Size of a value bucket in hundredths (10.00 units).
pub const BUCKET_SIZE: u32 = 1000;

/// Size of a protected packet: an atom followed by its 32-byte signature.
pub const PROTECTED_PACKET_SIZE: usize = 64;

/// The 32-bit mixing function used to mask identifiers.
#[verifier::opaque]
pub open spec fn mix32(value: u32) -> u32 {
    let h1 = value.wrapping_mul(0x9e3779b9u32);
    let h2 = h1 ^ (h1 >> 16u32);
    let h3 = h2.wrapping_mul(0x85ebca6bu32);
    let h4 = h3 ^ (h3 >> 13u32);
    h4.wrapping_mul(0xc2b2ae35u32)
}

/// The 16-bit mask: the high half of the 32-bit mix.
pub open spec fn mix16(value: u16) -> u16 {
    (mix32(value as u32) >> 16u32) as u16
}

/// The atom after anonymization at `level`.
pub open spec fn anonymized(level: AnonymizationLevel, a: SemanticAtom) -> SemanticAtom {
    match level {
        AnonymizationLevel::Off => a,
        AnonymizationLevel::Basic => SemanticAtom { entity_id: mix32(a.entity_id), ..a },
        AnonymizationLevel::Medium => SemanticAtom {
            entity_id: mix32(a.entity_id),
            node_id: mix16(a.node_id),
            ..a
        },
        AnonymizationLevel::High => SemanticAtom {
            entity_id: mix32(a.entity_id),
            node_id: mix16(a.node_id),
            sequence: mix32(a.sequence),
            timestamp_us: ((a.timestamp_us / HOUR_US) * HOUR_US) as u64,
            ..a
        },
        AnonymizationLevel::Maximum => SemanticAtom {
            entity_id: 0,
            sequence: 0,
            value_fixed: 0,
            status_flags: 0,
            timestamp_us: 0,
            node_id: 0,
            trust_pqc: trust::UNTRUSTED as u32,
            ..a
        },
    }
}

/// The pseudo-random noise added to a value: between -50 and 49 hundredths.
pub open spec fn value_noise(value: u32) -> int {
    (mix32(value) % 100) - 50
}

/// Whether adding noise to `value`, read as a signed 32-bit number, stays in range.
pub open spec fn noise_fits(value: u32) -> bool {
    i32::MIN <= (value as i32) + value_noise(value) <= i32::MAX
}

/// The value after obfuscation with an integer strategy.
pub open spec fn obfuscated_value(strategy: ObfuscationStrategy, value: u32) -> u32 {
    match strategy {
        ObfuscationStrategy::Zeroize => 0,
        ObfuscationStrategy::Noise => {
            let x = (value as i32) + value_noise(value);
            if x < 0 { 0 } else { x as u32 }
        },
        ObfuscationStrategy::HashMask => mix32(value),
        ObfuscationStrategy::Bucketize => ((value / BUCKET_SIZE) * BUCKET_SIZE) as u32,
        ObfuscationStrategy::DifferentialPrivacy => value,
    }
}

/// The 32-bit mixing function the shield masks identifiers with.
pub fn mask_u32(value: u32) -> (r: u32)
    ensures
        r == mix32(value),
{
    proof {
        reveal(mix32);
    }
    let mut hash = value.wrapping_mul(0x9e3779b9);
    hash ^= hash >> 16;
    hash = hash.wrapping_mul(0x85ebca6b);
    hash ^= hash >> 13;
    hash = hash.wrapping_mul(0xc2b2ae35);
    hash
}

/// The HMAC-SHA256 tag of `message` under `key`.
pub uninterp spec fn hmac_sha256(key: Seq<u8>, message: Seq<u8>) -> Seq<u8>;

#[verifier::external_type_specification]
#[verifier::external_body]
pub struct ExInvalidLength(InvalidLength);

/// `<Hmac<Sha256> as Mac>::new_from_slice(key)`, then `Mac::update(message)`
/// and `Mac::finalize().into_bytes()`. Claims that the key is accepted (the
/// hmac crate pads or hashes keys of any length, so `new_from_slice` never
/// fails for HMAC) and that the tag is the named `hmac_sha256` of key and
/// message. The hash computation itself is not stated.
#[verifier::external_body]
fn hmac_sha256_tag(key: &[u8], message: &[u8]) -> (r: Result<[u8; 32], InvalidLength>)
    ensures
        r is Ok,
        r matches Ok(tag) ==> tag@ == hmac_sha256(key@, message@),
{
    let mut mac = <hmac::Hmac<sha2::Sha256> as hmac::Mac>::new_from_slice(key)?;
    hmac::Mac::update(&mut mac, message);
    Ok(hmac::Mac::finalize(mac).into_bytes().into())
}

/// The 32-byte key a shield holds after `set_key(key)`: the key, zero-padded.
pub open spec fn padded_key(key: Seq<u8>) -> Seq<u8> {
    key + Seq::new((32 - key.len()) as nat, |i: int| 0u8)
}

/// The signature of an atom under a key.
pub open spec fn atom_signature(key: Seq<u8>, a: SemanticAtom) -> Seq<u8> {
    hmac_sha256(key, atom_bytes(a))
}

/// What verifying `signature` for an atom gives: whether it is the atom's
/// signature, or an error when it is not 32 bytes long.
pub open spec fn verification(key: Seq<u8>, a: SemanticAtom, signature: Seq<u8>) -> Result<bool, ShieldError> {
    if signature.len() != 32 {
        Err(ShieldError::InvalidSignature)
    } else {
        Ok(atom_signature(key, a) == signature)
    }
}

/// A protected packet: the atom's bytes followed by their signature.
pub open spec fn protected_packet(key: Seq<u8>, a: SemanticAtom) -> Seq<u8> {
    atom_bytes(a) + atom_signature(key, a)
}

/// What extracting a packet gives: the atom its first 32 bytes encode and
/// whether the last 32 bytes are that atom's signature; a buffer-size error
/// when the packet is not 64 bytes long.
pub open spec fn extracted_packet(key: Seq<u8>, packet: Seq<u8>) -> Result<(SemanticAtom, bool), ShieldError> {
    if packet.len() != 64 {
        Err(ShieldError::BufferSizeError)
    } else {
        let a = atom_from_bytes(packet.take(32));
        Ok((a, atom_signature(key, a) == packet.skip(32)))
    }
}

/// Main protection interface: a configuration and a 32-byte signing key.
pub struct Shield {
    config: ShieldConfig,
    hmac_key: [u8; 32],
}

impl Shield {
    /// The shield's configuration.
    pub closed spec fn spec_config(&self) -> ShieldConfig {
        self.config
    }

    /// The shield's 32-byte signing key.
    pub closed spec fn key(&self) -> Seq<u8> {
        self.hmac_key@
    }

    /// Create a new shield with the default configuration and an all-zero key.
    pub fn new() -> (r: Self)
        ensures
            r.spec_config() == default_config(),
            r.key() == Seq::new(32, |i: int| 0u8),
    {
        Self::with_config(ShieldConfig::default())
    }

    /// Create a new shield with a custom configuration and an all-zero key.
    pub fn with_config(config: ShieldConfig) -> (r: Self)
        ensures
            r.spec_config() == config,
            r.key() == Seq::new(32, |i: int| 0u8),
    {
        let r = Shield { config, hmac_key: [0u8; 32] };
        assert(r.hmac_key@ =~= Seq::new(32, |i: int| 0u8));
        r
    }

    /// The shield's configuration.
    pub fn config(&self) -> (r: &ShieldConfig)
        ensures
            *r == self.spec_config(),
    {
        &self.config
    }

    /// Set the HMAC key. Keys of up to 32 bytes are accepted and zero-padded
    /// to 32 bytes (HMAC pads short keys with zeros, so signatures equal HMAC
    /// under the key as given); longer keys are refused and the shield is unchanged.
    pub fn set_key(&mut self, key: &[u8]) -> (r: Result<(), ShieldError>)
        ensures
            key@.len() > 32 ==> r == Err::<(), ShieldError>(ShieldError::InvalidKeySize)
                && final(self).key() == old(self).key(),
            key@.len() <= 32 ==> r is Ok && final(self).key() == padded_key(key@),
            final(self).spec_config() == old(self).spec_config(),
    {
        let n = key.len();
        if n > 32 {
            return Err(ShieldError::InvalidKeySize);
        }
        let mut k = [0u8; 32];
        let mut i: usize = 0;
        while i < 32
            invariant
                n == key@.len(),
                n <= 32,
                0 <= i <= 32,
                forall|j: int| 0 <= j < i ==> #[trigger] k@[j] == padded_key(key@)[j],
            decreases 32 - i,
        {
            k[i] = if i < n { key[i] } else { 0u8 };
            i += 1;
        }
        assert(k@ =~= padded_key(key@));
        self.hmac_key = k;
        Ok(())
    }

    /// Anonymize an atom according to the configured level.
    pub fn anonymize_atom(&self, atom: &mut SemanticAtom) -> (r: Result<(), ShieldError>)
        ensures
            r is Ok,
            *final(atom) == anonymized(self.spec_config().anonymization_level, *old(atom)),
    {
        match self.config.anonymization_level {
            AnonymizationLevel::Off => {},
            AnonymizationLevel::Basic => {
                self.anonymize_basic(atom);
            },
            AnonymizationLevel::Medium => {
                self.anonymize_basic(atom);
                self.anonymize_medium(atom);
            },
            AnonymizationLevel::High => {
                self.anonymize_basic(atom);
                self.anonymize_medium(atom);
                self.anonymize_high(atom);
            },
            AnonymizationLevel::Maximum => {
                self.anonymize_maximum(atom);
            },
        }
        Ok(())
    }

    /// Obfuscate an atom's value according to the configured strategy.
    ///
    /// Differential privacy draws Laplace noise in floating point from the
    /// privacy budget; that strategy is applied by the caller that holds the
    /// budget, and this function serves the integer strategies. Noise is added
    /// to the value read as a signed 32-bit number and must not overflow it.
    pub fn obfuscate_values(&self, atom: &mut SemanticAtom) -> (r: Result<(), ShieldError>)
        requires
            self.spec_config().obfuscation_strategy != ObfuscationStrategy::DifferentialPrivacy,
            self.spec_config().obfuscation_strategy == ObfuscationStrategy::Noise ==> noise_fits(
                old(atom).value_fixed,
            ),
        ensures
            r is Ok,
            *final(atom) == (SemanticAtom {
                value_fixed: obfuscated_value(self.spec_config().obfuscation_strategy, old(atom).value_fixed),
                ..*old(atom)
            }),
    {
        match self.config.obfuscation_strategy {
            ObfuscationStrategy::Zeroize => {
                atom.value_fixed = 0;
            },
            ObfuscationStrategy::Noise => {
                self.add_noise(atom);
            },
            ObfuscationStrategy::HashMask => {
                atom.value_fixed = self.hash_u32(atom.value_fixed);
            },
            ObfuscationStrategy::DifferentialPrivacy => {},
            ObfuscationStrategy::Bucketize => {
                atom.value_fixed = (atom.value_fixed / BUCKET_SIZE) * BUCKET_SIZE;
            },
        }
        Ok(())
    }

    /// Whether the noise strategy can be applied to `value`: adding its noise
    /// to the value read as a signed 32-bit number does not overflow.
    pub fn noise_in_range(&self, value: u32) -> (r: bool)
        ensures
            r == noise_fits(value),
    {
        let m = mask_u32(value) % 100;
        let noise = m as i64 - 50;
        let x = #[verifier::truncate] (value as i32);
        let sum = x as i64 + noise;
        i32::MIN as i64 <= sum && sum <= i32::MAX as i64
    }

    /// Sign an atom: HMAC-SHA256 of its 32-byte encoding under the shield's key.
    pub fn sign_atom(&self, atom: &SemanticAtom) -> (r: Result<[u8; 32], ShieldError>)
        ensures
            r is Ok,
            r matches Ok(sig) ==> sig@ == atom_signature(self.key(), *atom),
    {
        let bytes = atom.as_bytes();
        match hmac_sha256_tag(self.hmac_key.as_slice(), bytes.as_slice()) {
            Ok(tag) => Ok(tag),
            Err(_) => Err(ShieldError::CryptoError),
        }
    }

    /// Verify an atom's signature; a signature that is not 32 bytes long is an error.
    pub fn verify_atom(&self, atom: &SemanticAtom, signature: &[u8]) -> (r: Result<bool, ShieldError>)
        ensures
            r == verification(self.key(), *atom, signature@),
    {
        if signature.len() != 32 {
            return Err(ShieldError::InvalidSignature);
        }
        let expected = self.sign_atom(atom)?;
        Ok(bytes_equal(expected.as_slice(), signature))
    }

    /// Create a protected packet: the atom's 32 bytes followed by its signature.
    pub fn create_protected_packet(&self, atom: &SemanticAtom) -> (r: Result<[u8; 64], ShieldError>)
        ensures
            r is Ok,
            r matches Ok(p) ==> p@ == protected_packet(self.key(), *atom),
    {
        let signature = self.sign_atom(atom)?;
        let bytes = atom.as_bytes();
        let mut packet = [0u8; 64];
        let mut i: usize = 0;
        while i < 32
            invariant
                0 <= i <= 32,
                bytes@.len() == 32,
                signature@.len() == 32,
                forall|j: int| 0 <= j < i ==> #[trigger] packet@[j] == bytes@[j],
                forall|j: int| 32 <= j < 32 + i ==> #[trigger] packet@[j] == signature@[j - 32],
            decreases 32 - i,
        {
            packet[i] = bytes[i];
            packet[32 + i] = signature[i];
            i += 1;
        }
        assert(packet@ =~= bytes@ + signature@);
        Ok(packet)
    }

    /// Extract an atom from a protected packet and check its signature; a
    /// packet that is not 64 bytes long is an error.
    pub fn extract_protected_packet(&self, packet: &[u8]) -> (r: Result<(SemanticAtom, bool), ShieldError>)
        ensures
            r == extracted_packet(self.key(), packet@),
    {
        if packet.len() != 64 {
            return Err(ShieldError::BufferSizeError);
        }
        let mut atom_data = [0u8; 32];
        let mut signature = [0u8; 32];
        let mut i: usize = 0;
        while i < 32
            invariant
                0 <= i <= 32,
                packet@.len() == 64,
                forall|j: int| 0 <= j < i ==> #[trigger] atom_data@[j] == packet@[j],
                forall|j: int| 0 <= j < i ==> #[trigger] signature@[j] == packet@[32 + j],
            decreases 32 - i,
        {
            atom_data[i] = packet[i];
            signature[i] = packet[32 + i];
            i += 1;
        }
        assert(atom_data@ =~= packet@.take(32));
        assert(signature@ =~= packet@.skip(32));
        let atom = match SemanticAtom::from_bytes(atom_data.as_slice()) {
            Some(a) => a,
            None => {
                return Err(ShieldError::BufferSizeError);
            },
        };
        let is_valid = self.verify_atom(&atom, signature.as_slice())?;
        Ok((atom, is_valid))
    }

    fn anonymize_basic(&self, atom: &mut SemanticAtom)
        ensures
            *final(atom) == (SemanticAtom { entity_id: mix32(old(atom).entity_id), ..*old(atom) }),
    {
        atom.entity_id = self.hash_u32(atom.entity_id);
    }

    fn anonymize_medium(&self, atom: &mut SemanticAtom)
        ensures
            *final(atom) == (SemanticAtom { node_id: mix16(old(atom).node_id), ..*old(atom) }),
    {
        atom.node_id = self.hash_u16(atom.node_id);
    }

    fn anonymize_high(&self, atom: &mut SemanticAtom)
        ensures
            *final(atom) == (SemanticAtom {
                sequence: mix32(old(atom).sequence),
                timestamp_us: ((old(atom).timestamp_us / HOUR_US) * HOUR_US) as u64,
                ..*old(atom)
            }),
    {
        atom.sequence = self.hash_u32(atom.sequence);
        atom.timestamp_us = (atom.timestamp_us / HOUR_US) * HOUR_US;
    }

    fn anonymize_maximum(&self, atom: &mut SemanticAtom)
        ensures
            *final(atom) == anonymized(AnonymizationLevel::Maximum, *old(atom)),
    {
        atom.entity_id = 0;
        atom.sequence = 0;
        atom.value_fixed = 0;
        atom.status_flags = 0;
        atom.timestamp_us = 0;
        atom.node_id = 0;
        atom.trust_pqc = trust::UNTRUSTED as u32;
    }

    fn add_noise(&self, atom: &mut SemanticAtom)
        requires
            noise_fits(old(atom).value_fixed),
        ensures
            *final(atom) == (SemanticAtom {
                value_fixed: obfuscated_value(ObfuscationStrategy::Noise, old(atom).value_fixed),
                ..*old(atom)
            }),
    {
        let v = atom.value_fixed;
        let h = self.hash_u32(v);
        let m = h % 100;
        let noise = m as i32 - 50;
        assert(noise == value_noise(v));
        let x = #[verifier::truncate] (v as i32);
        let sum = x + noise;
        atom.value_fixed = if sum < 0 { 0 } else { sum as u32 };
    }

    fn hash_u32(&self, value: u32) -> (r: u32)
        ensures
            r == mix32(value),
    {
        mask_u32(value)
    }

    fn hash_u16(&self, value: u16) -> (r: u16)
        ensures
            r == mix16(value),
    {
        let hash = self.hash_u32(value as u32);
        (hash >> 16) as u16
    }
}

impl Default for Shield {
    fn default() -> (r: Self)
        ensures
            r.spec_config() == default_config(),
            r.key() == Seq::new(32, |i: int| 0u8),
    {
        Self::new()
    }
}

/// Whether two byte strings are equal.
fn bytes_equal(a: &[u8], b: &[u8]) -> (r: bool)
    ensures
        r == (a@ == b@),
{
    if a.len() != b.len() {
        return false;
    }
    let mut i: usize = 0;
    while i < a.len()
        invariant
            a@.len() == b@.len(),
            0 <= i <= a@.len(),
            forall|j: int| 0 <= j < i ==> a@[j] == b@[j],
        decreases a@.len() - i,
    {
        if a[i] != b[i] {
            return false;
        }
        i += 1;
    }
    assert(a@ =~= b@);
    true
}

/// Anonymization never changes the telemetry type, at any level.
pub proof fn lemma_anonymize_keeps_telemetry_type(level: AnonymizationLevel, a: SemanticAtom)
    ensures
        anonymized(level, a).telemetry_type == a.telemetry_type,
{
}

/// Below the maximum level anonymization keeps the measurement: value,
/// status flags, trust and telemetry type.
pub proof fn lemma_anonymize_keeps_measurement(level: AnonymizationLevel, a: SemanticAtom)
    requires
        level != AnonymizationLevel::Maximum,
    ensures
        anonymized(level, a).value_fixed == a.value_fixed,
        anonymized(level, a).status_flags == a.status_flags,
        anonymized(level, a).trust_pqc == a.trust_pqc,
        anonymized(level, a).telemetry_type == a.telemetry_type,
{
}

/// Each level masks at least what the level below it masks: the entity id
/// from basic up, the node id from medium up, the sequence and the
/// sub-hour part of the timestamp at high.
pub proof fn lemma_anonymize_levels_nest(a: SemanticAtom)
    ensures
        anonymized(AnonymizationLevel::Medium, a) == (SemanticAtom {
            node_id: mix16(a.node_id),
            ..anonymized(AnonymizationLevel::Basic, a)
        }),
        anonymized(AnonymizationLevel::High, a) == (SemanticAtom {
            sequence: mix32(a.sequence),
            timestamp_us: ((a.timestamp_us / HOUR_US) * HOUR_US) as u64,
            ..anonymized(AnonymizationLevel::Medium, a)
        }),
        anonymized(AnonymizationLevel::Off, a) == a,
{
}

/// Maximum anonymization keeps nothing but the telemetry type: two atoms
/// give the same result exactly when their telemetry types agree, and
/// anonymizing again changes nothing.
pub proof fn lemma_maximum_anonymization(a: SemanticAtom, b: SemanticAtom)
    ensures
        (anonymized(AnonymizationLevel::Maximum, a) == anonymized(AnonymizationLevel::Maximum, b))
            <==> a.telemetry_type == b.telemetry_type,
        anonymized(AnonymizationLevel::Maximum, anonymized(AnonymizationLevel::Maximum, a))
            == anonymized(AnonymizationLevel::Maximum, a),
{
}

/// Bucketizing rounds down to a multiple of 10.00 units, and bucketizing again changes nothing.
pub proof fn lemma_bucketize(value: u32)
    ensures
        ({
            let b = obfuscated_value(ObfuscationStrategy::Bucketize, value);
            &&& b % BUCKET_SIZE == 0
            &&& b <= value < b + BUCKET_SIZE
            &&& obfuscated_value(ObfuscationStrategy::Bucketize, b) == b
        }),
{
    let q = value / BUCKET_SIZE;
    assert((q * 1000) % 1000 == 0 && (q * 1000) / 1000 == q) by (nonlinear_arith);
}

/// Multiplying by an odd constant modulo 2^32 is undone by its inverse.
proof fn lemma_wrapping_mul_invertible(x: u32, c: u32, c_inverse: u32)
    requires
        (c == 0x9e3779b9u32 && c_inverse == 0x144cbc89u32) || (c == 0x85ebca6bu32 && c_inverse
            == 0xa5cb9243u32) || (c == 0xc2b2ae35u32 && c_inverse == 0x7ed1b41du32),
    ensures
        x.wrapping_mul(c).wrapping_mul(c_inverse) == x,
{
    let h = x.wrapping_mul(c);
    assert(h == (x as nat * c as nat) % 4294967296);
    let y = h.wrapping_mul(c_inverse);
    assert(y == (h as nat * c_inverse as nat) % 4294967296);
    assert(y == x) by (bit_vector)
        requires
            h == (x * c) % 4294967296,
            y == (h * c_inverse) % 4294967296,
            (c == 0x9e3779b9u32 && c_inverse == 0x144cbc89u32) || (c == 0x85ebca6bu32 && c_inverse
                == 0xa5cb9243u32) || (c == 0xc2b2ae35u32 && c_inverse == 0x7ed1b41du32),
    ;
}

/// The mixing steps undone one by one: `mix32` has an inverse.
pub open spec fn unmix32(h: u32) -> u32 {
    let h4 = h.wrapping_mul(0x7ed1b41du32);
    let h3 = h4 ^ (h4 >> 13u32) ^ (h4 >> 26u32);
    let h2 = h3.wrapping_mul(0xa5cb9243u32);
    let h1 = h2 ^ (h2 >> 16u32);
    h1.wrapping_mul(0x144cbc89u32)
}

/// Undoing the mix gives the value back, so the mask keeps distinct values
/// distinct.
pub proof fn lemma_mix32_injective(a: u32, b: u32)
    ensures
        unmix32(mix32(a)) == a,
        mix32(a) == mix32(b) <==> a == b,
{
    reveal(mix32);
    lemma_mix32_inverse(a);
    lemma_mix32_inverse(b);
}

proof fn lemma_mix32_inverse(v: u32)
    ensures
        unmix32(mix32(v)) == v,
{
    reveal(mix32);
    let h1 = v.wrapping_mul(0x9e3779b9u32);
    let h2 = h1 ^ (h1 >> 16u32);
    let h3 = h2.wrapping_mul(0x85ebca6bu32);
    let h4 = h3 ^ (h3 >> 13u32);
    let h = h4.wrapping_mul(0xc2b2ae35u32);
    lemma_wrapping_mul_invertible(h4, 0xc2b2ae35u32, 0x7ed1b41du32);
    assert(h4 ^ (h4 >> 13u32) ^ (h4 >> 26u32) == h3) by (bit_vector)
        requires
            h4 == h3 ^ (h3 >> 13u32),
    ;
    lemma_wrapping_mul_invertible(h2, 0x85ebca6bu32, 0xa5cb9243u32);
    assert(h2 ^ (h2 >> 16u32) == h1) by (bit_vector)
        requires
            h2 == h1 ^ (h1 >> 16u32),
    ;
    lemma_wrapping_mul_invertible(v, 0x9e3779b9u32, 0x144cbc89u32);
}

/// At the basic, medium and high levels the mask depends on the level and the
/// atom alone (not on the key or other settings), and it keeps distinct
/// entity ids distinct.
pub proof fn lemma_entity_mask_deterministic_and_injective(
    level: AnonymizationLevel,
    x: SemanticAtom,
    y: SemanticAtom,
)
    requires
        level == AnonymizationLevel::Basic || level == AnonymizationLevel::Medium || level
            == AnonymizationLevel::High,
    ensures
        x == y ==> anonymized(level, x) == anonymized(level, y),
        (x.entity_id == y.entity_id) <==> (anonymized(level, x).entity_id == anonymized(
            level,
            y,
        ).entity_id),
{
    lemma_mix32_injective(x.entity_id, y.entity_id);
}

/// Noise moves a value that fits in a signed 32-bit number by at most 50
/// hundredths, and never below zero.
pub proof fn lemma_noise_bounded(value: u32)
    requires
        value <= i32::MAX,
    ensures
        ({
            let n = obfuscated_value(ObfuscationStrategy::Noise, value);
            &&& value - 50 <= n <= value + 49
        }),
{
    assert((value as i32) == value);
}

/// A signature made with a shield's key verifies under that key.
pub proof fn lemma_signature_verifies(key: Seq<u8>, a: SemanticAtom, signature: Seq<u8>)
    requires
        signature == atom_signature(key, a),
        signature.len() == 32,
    ensures
        verification(key, a, signature) == Ok::<bool, ShieldError>(true),
{
}

/// Extracting a protected packet made from an atom gives the atom back,
/// with a valid signature, under the key it was made with.
pub proof fn lemma_protected_packet_roundtrip(key: Seq<u8>, a: SemanticAtom, packet: Seq<u8>)
    requires
        packet == protected_packet(key, a),
        packet.len() == PROTECTED_PACKET_SIZE,
    ensures
        extracted_packet(key, packet) == Ok::<(SemanticAtom, bool), ShieldError>((a, true)),
{
    crate::types::lemma_atom_encode_decode(a);
    assert(packet.take(32) =~= atom_bytes(a));
    assert(packet.skip(32) =~= atom_signature(key, a));
}

/// The basic level masks the entity id and nothing else; the medium level
/// masks the entity id and the node id and nothing else. Below the high level
/// the sequence number and the timestamp are kept.
pub proof fn lemma_low_levels_mask_only_ids(a: SemanticAtom)
    ensures
        anonymized(AnonymizationLevel::Basic, a).entity_id == mix32(a.entity_id),
        anonymized(AnonymizationLevel::Basic, a).node_id == a.node_id,
        anonymized(AnonymizationLevel::Medium, a).entity_id == mix32(a.entity_id),
        anonymized(AnonymizationLevel::Medium, a).node_id == mix16(a.node_id),
        forall|level: AnonymizationLevel|
            #![trigger anonymized(level, a)]
            level == AnonymizationLevel::Off || level == AnonymizationLevel::Basic || level
                == AnonymizationLevel::Medium ==> {
                let b = anonymized(level, a);
                &&& b.sequence == a.sequence
                &&& b.timestamp_us == a.timestamp_us
                &&& b.value_fixed == a.value_fixed
                &&& b.status_flags == a.status_flags
                &&& b.telemetry_type == a.telemetry_type
                &&& b.trust_pqc == a.trust_pqc
            },
{
}

/// The high level additionally masks the sequence number and coarsens the
/// timestamp to the start of its hour: the result is a whole number of hours,
/// at most the original and less than an hour before it.
pub proof fn lemma_high_level_coarsens_time(a: SemanticAtom)
    ensures
        ({
            let b = anonymized(AnonymizationLevel::High, a);
            &&& b.sequence == mix32(a.sequence)
            &&& b.timestamp_us % 3_600_000_000 == 0
            &&& b.timestamp_us <= a.timestamp_us < b.timestamp_us + 3_600_000_000
            &&& b.value_fixed == a.value_fixed
            &&& b.status_flags == a.status_flags
            &&& b.telemetry_type == a.telemetry_type
            &&& b.trust_pqc == a.trust_pqc
        }),
{
    let t = a.timestamp_us;
    let q = t / HOUR_US;
    assert((q * 3_600_000_000) % 3_600_000_000 == 0 && q * 3_600_000_000 <= t < q * 3_600_000_000
        + 3_600_000_000) by (nonlinear_arith)
        requires
            q == t / 3_600_000_000,
    ;
}

/// With the noise strategy the value, read as a signed 32-bit number, is moved
/// by `mix32(value) % 100 - 50` hundredths and clamped at zero; the noise
/// strategy applies exactly when that sum stays a signed 32-bit number.
pub proof fn lemma_noise_offset(value: u32)
    ensures
        ({
            let x = (value as i32) + (mix32(value) % 100) - 50;
            &&& obfuscated_value(ObfuscationStrategy::Noise, value) == (if x < 0 { 0 } else { x as u32 })
            &&& noise_fits(value) <==> i32::MIN <= x <= i32::MAX
        }),
        value <= i32::MAX ==> obfuscated_value(ObfuscationStrategy::Noise, value) == (if value + (
        mix32(value) % 100) - 50 < 0 {
            0
        } else {
            value + (mix32(value) % 100) - 50
        }),
{
    if value <= i32::MAX {
        assert((value as i32) == value);
    }
}

/// A protected packet is the atom's encoding followed by the HMAC-SHA256 of
/// that encoding under the shield's key (exactly what `sign_atom` gives), and
/// extraction reports valid exactly when the last 32 bytes are the HMAC of the
/// first 32 under the key, which is what `verify_atom` answers for them.
pub proof fn lemma_packet_carries_keyed_signature(key: Seq<u8>, a: SemanticAtom, packet: Seq<u8>)
    requires
        hmac_sha256(key, atom_bytes(a)).len() == 32,
    ensures
        protected_packet(key, a).len() == 64,
        protected_packet(key, a).take(32) == atom_bytes(a),
        protected_packet(key, a).skip(32) == hmac_sha256(key, atom_bytes(a)),
        protected_packet(key, a).skip(32) == atom_signature(key, a),
        packet.len() == 64 ==> ({
            let b = atom_from_bytes(packet.take(32));
            &&& extracted_packet(key, packet) == Ok::<(SemanticAtom, bool), ShieldError>(
                (b, hmac_sha256(key, packet.take(32)) == packet.skip(32)),
            )
            &&& extracted_packet(key, packet) == Ok::<(SemanticAtom, bool), ShieldError>(
                (b, verification(key, b, packet.skip(32)) == Ok::<bool, ShieldError>(true)),
            )
        }),
{
    crate::types::lemma_atom_encode_decode(a);
    let p = protected_packet(key, a);
    assert(p.take(32) =~= atom_bytes(a));
    assert(p.skip(32) =~= hmac_sha256(key, atom_bytes(a)));
    if packet.len() == 64 {
        lemma_atom_decode_encode(packet.take(32));
    }
}

} // verus!

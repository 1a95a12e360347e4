//! Serialization of atoms and batches of atoms to their wire encoding.

use vstd::prelude::*;
use crate::types::{SemanticAtom, atom_bytes, atom_from_bytes, lemma_atom_encode_decode};

verus! {

/// Codec for encoding atoms into and decoding atoms from bytes.
pub trait SamsCodec {
    /// Error type for codec operations
    type Error;

    /// Encode a single atom into a fixed 32-byte buffer
    fn encode_atom(&self, atom: &SemanticAtom, output: &mut [u8; 32]) -> Result<(), Self::Error>;

    /// Decode a single atom from a byte buffer
    fn decode_atom(&self, data: &[u8]) -> Result<SemanticAtom, Self::Error>;
}

/// Codec errors.
#[derive(Debug, Clone, Copy, PartialEq, Eq, Structural)]
pub enum CodecError {
    /// The input is not a whole number of 32-byte atoms.
    InvalidLength,
}

/// The concatenated encodings of a sequence of atoms.
pub open spec fn batch_bytes(atoms: Seq<SemanticAtom>) -> Seq<u8>
    decreases atoms.len(),
{
    if atoms.len() == 0 {
        Seq::empty()
    } else {
        batch_bytes(atoms.drop_last()) + atom_bytes(atoms.last())
    }
}

/// The atoms that a buffer of whole 32-byte records encodes.
pub open spec fn batch_from_bytes(data: Seq<u8>) -> Seq<SemanticAtom> {
    Seq::new(data.len() / 32, |i: int| atom_from_bytes(data.subrange(32 * i, 32 * i + 32)))
}

/// A batch of `n` atoms encodes to `32 * n` bytes.
pub proof fn lemma_batch_bytes_len(atoms: Seq<SemanticAtom>)
    ensures
        batch_bytes(atoms).len() == 32 * atoms.len(),
    decreases atoms.len(),
{
    if atoms.len() > 0 {
        lemma_batch_bytes_len(atoms.drop_last());
        lemma_atom_encode_decode(atoms.last());
    }
}

/// Each atom of a batch occupies its own 32 bytes of the batch encoding.
pub proof fn lemma_batch_bytes_slot(atoms: Seq<SemanticAtom>, i: int)
    requires
        0 <= i < atoms.len(),
    ensures
        batch_bytes(atoms).subrange(32 * i, 32 * i + 32) == atom_bytes(atoms[i]),
    decreases atoms.len(),
{
    let init = atoms.drop_last();
    let b = batch_bytes(atoms);
    lemma_batch_bytes_len(init);
    lemma_atom_encode_decode(atoms.last());
    if i < atoms.len() - 1 {
        lemma_batch_bytes_slot(init, i);
        assert(b.subrange(32 * i, 32 * i + 32) =~= batch_bytes(init).subrange(32 * i, 32 * i + 32));
    } else {
        assert(b.subrange(32 * i, 32 * i + 32) =~= atom_bytes(atoms.last()));
    }
}

/// Decoding the encoding of a batch gives the batch back.
pub proof fn lemma_batch_roundtrip(atoms: Seq<SemanticAtom>)
    ensures
        batch_from_bytes(batch_bytes(atoms)) == atoms,
{
    lemma_batch_bytes_len(atoms);
    let b = batch_bytes(atoms);
    assert forall|i: int| 0 <= i < atoms.len() implies #[trigger] batch_from_bytes(b)[i] == atoms[i] by {
        lemma_batch_bytes_slot(atoms, i);
        lemma_atom_encode_decode(atoms[i]);
    }
    assert(batch_from_bytes(b) =~= atoms);
}

/// The standard atom codec: the 32-byte little-endian wire encoding.
#[derive(Debug, Clone, Copy)]
pub struct AtomCodec;

impl AtomCodec {
    /// Create a codec.
    pub fn new() -> Self {
        AtomCodec
    }

    /// Encode a batch of atoms: their encodings, one after another.
    pub fn encode_atoms(&self, atoms: &[SemanticAtom]) -> (r: Vec<u8>)
        requires
            32 * atoms@.len() <= usize::MAX,
        ensures
            r@ == batch_bytes(atoms@),
    {
        let mut out: Vec<u8> = Vec::new();
        let mut i: usize = 0;
        while i < atoms.len()
            invariant
                0 <= i <= atoms@.len(),
                out@ == batch_bytes(atoms@.take(i as int)),
            decreases atoms@.len() - i,
        {
            let bytes = atoms[i].as_bytes();
            let mut j: usize = 0;
            let ghost start = out@;
            while j < 32
                invariant
                    0 <= j <= 32,
                    bytes@.len() == 32,
                    out@ == start + bytes@.take(j as int),
                decreases 32 - j,
            {
                out.push(bytes[j]);
                assert(bytes@.take(j + 1) =~= bytes@.take(j as int).push(bytes@[j as int]));
                j += 1;
            }
            assert(bytes@.take(32) =~= bytes@);
            assert(atoms@.take(i + 1).drop_last() =~= atoms@.take(i as int));
            i += 1;
        }
        assert(atoms@.take(atoms@.len() as int) =~= atoms@);
        out
    }

    /// Decode a batch of atoms; an error when the input is not a whole
    /// number of 32-byte records.
    pub fn decode_atoms(&self, data: &[u8]) -> (r: Result<Vec<SemanticAtom>, CodecError>)
        ensures
            data@.len() % 32 != 0 ==> r == Err::<Vec<SemanticAtom>, CodecError>(CodecError::InvalidLength),
            data@.len() % 32 == 0 ==> (r matches Ok(v) && v@ == batch_from_bytes(data@)),
    {
        if data.len() % 32 != 0 {
            return Err(CodecError::InvalidLength);
        }
        let n = data.len();
        let count = n / 32;
        let mut out: Vec<SemanticAtom> = Vec::new();
        let mut i: usize = 0;
        while i < count
            invariant
                0 <= i <= count,
                count == data@.len() / 32,
                n == data@.len(),
                data@.len() % 32 == 0,
                out@ == batch_from_bytes(data@).take(i as int),
            decreases count - i,
        {
            assert(32 * i + 32 <= data@.len()) by (nonlinear_arith)
                requires
                    i < count,
                    count == data@.len() / 32,
            ;
            let a = SemanticAtom::from_bytes_at(data, 32 * i);
            out.push(a);
            assert(out@ =~= batch_from_bytes(data@).take(i + 1));
            i += 1;
        }
        assert(out@ =~= batch_from_bytes(data@));
        Ok(out)
    }
}

impl SamsCodec for AtomCodec {
    type Error = CodecError;

    /// Write the atom's 32-byte encoding into `output`; never fails.
    fn encode_atom(&self, atom: &SemanticAtom, output: &mut [u8; 32]) -> (r: Result<(), CodecError>)
        ensures
            r is Ok,
            final(output)@ == atom_bytes(*atom),
    {
        *output = atom.as_bytes();
        Ok(())
    }

    /// Decode an atom from exactly 32 bytes; an error for any other length.
    fn decode_atom(&self, data: &[u8]) -> (r: Result<SemanticAtom, CodecError>)
        ensures
            data@.len() != 32 ==> r == Err::<SemanticAtom, CodecError>(CodecError::InvalidLength),
            data@.len() == 32 ==> r == Ok::<SemanticAtom, CodecError>(atom_from_bytes(data@)),
    {
        match SemanticAtom::from_bytes(data) {
            Some(a) => Ok(a),
            None => Err(CodecError::InvalidLength),
        }
    }
}

} // verus!

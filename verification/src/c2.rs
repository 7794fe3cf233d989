//! The compute-input envelope.
//!
//! A submitted job carries a prover id, a sector number and the serialized
//! first-phase output of the external prover, an opaque blob. The envelope
//! is framed into one byte string before it goes to the resource store, and
//! parsed back by the worker that claimed the task: 32 bytes of prover id,
//! 8 bytes of sector number (little endian), then the blob. The round-trip
//! lemma at the bottom ties the two directions together.

use vstd::prelude::*;

verus! {

/// One compute job's inputs, as stored and as handed to the prover.
pub struct C2 {
    /// The prover's 32-byte identity.
    pub prove_id: [u8; 32],
    /// The sector the proof is for.
    pub sector_id: u64,
    /// The serialized first-phase output, opaque to this library.
    pub phase1_output: Vec<u8>,
}

/// The little-endian bytes of `x`.
pub open spec fn u64_le_bytes(x: u64) -> Seq<u8> {
    seq![
        (x & 0xff) as u8,
        ((x >> 8) & 0xff) as u8,
        ((x >> 16) & 0xff) as u8,
        ((x >> 24) & 0xff) as u8,
        ((x >> 32) & 0xff) as u8,
        ((x >> 40) & 0xff) as u8,
        ((x >> 48) & 0xff) as u8,
        ((x >> 56) & 0xff) as u8,
    ]
}

/// The number eight little-endian bytes spell.
pub open spec fn u64_of_le(b: Seq<u8>) -> u64
    recommends
        b.len() == 8,
{
    ((b[0] as u64) | ((b[1] as u64) << 8) | ((b[2] as u64) << 16) | ((b[3] as u64) << 24)
        | ((b[4] as u64) << 32) | ((b[5] as u64) << 40) | ((b[6] as u64) << 48) | (
    (b[7] as u64) << 56)) as u64
}

/// Reading the little-endian bytes of `x` gives `x` back.
pub proof fn lemma_u64_le_round_trip(x: u64)
    ensures
        u64_of_le(u64_le_bytes(x)) == x,
{
    assert((((x & 0xff) as u8 as u64) | ((((x >> 8) & 0xff) as u8 as u64) << 8) | ((((x >> 16)
        & 0xff) as u8 as u64) << 16) | ((((x >> 24) & 0xff) as u8 as u64) << 24) | ((((x >> 32)
        & 0xff) as u8 as u64) << 32) | ((((x >> 40) & 0xff) as u8 as u64) << 40) | ((((x >> 48)
        & 0xff) as u8 as u64) << 48) | ((((x >> 56) & 0xff) as u8 as u64) << 56)) == x)
        by (bit_vector);
}

/// The framed envelope: prover id, sector number, blob.
pub open spec fn c2_encode(prover_id: Seq<u8>, sector_id: u64, blob: Seq<u8>) -> Seq<u8> {
    prover_id + u64_le_bytes(sector_id) + blob
}

impl C2 {
    /// Frame the envelope into one byte string.
    pub fn encode(&self) -> (out: Vec<u8>)
        ensures
            out@ == c2_encode(self.prove_id@, self.sector_id, self.phase1_output@),
    {
        let mut out: Vec<u8> = Vec::new();
        let mut i: usize = 0;
        while i < 32
            invariant
                i <= 32,
                out@ =~= self.prove_id@.subrange(0, i as int),
            decreases 32 - i,
        {
            out.push(self.prove_id[i]);
            i = i + 1;
        }
        proof {
            assert(out@ =~= self.prove_id@);
        }
        let x = self.sector_id;
        out.push((x & 0xff) as u8);
        out.push(((x >> 8) & 0xff) as u8);
        out.push(((x >> 16) & 0xff) as u8);
        out.push(((x >> 24) & 0xff) as u8);
        out.push(((x >> 32) & 0xff) as u8);
        out.push(((x >> 40) & 0xff) as u8);
        out.push(((x >> 48) & 0xff) as u8);
        out.push(((x >> 56) & 0xff) as u8);
        proof {
            assert(out@ =~= self.prove_id@ + u64_le_bytes(x));
        }
        let ghost head = out@;
        let n = self.phase1_output.len();
        let mut k: usize = 0;
        while k < n
            invariant
                n == self.phase1_output@.len(),
                k <= n,
                out@ =~= head + self.phase1_output@.subrange(0, k as int),
            decreases n - k,
        {
            out.push(self.phase1_output[k]);
            k = k + 1;
        }
        proof {
            assert(out@ =~= c2_encode(self.prove_id@, self.sector_id, self.phase1_output@));
        }
        out
    }

    /// Parse a framed envelope back; answers `None` exactly on byte strings
    /// too short to carry the fixed header.
    pub fn decode(bytes: &Vec<u8>) -> (r: Option<C2>)
        ensures
            match r {
                Some(c) => {
                    &&& bytes@.len() >= 40
                    &&& c.prove_id@ == bytes@.subrange(0, 32)
                    &&& c.sector_id == u64_of_le(bytes@.subrange(32, 40))
                    &&& c.phase1_output@ == bytes@.subrange(40, bytes@.len() as int)
                },
                None => bytes@.len() < 40,
            },
    {
        if bytes.len() < 40 {
            return None;
        }
        let mut pid: [u8; 32] = [0; 32];
        let mut i: usize = 0;
        while i < 32
            invariant
                i <= 32,
                bytes@.len() >= 40,
                pid@.len() == 32,
                forall|j: int| 0 <= j < i ==> pid@[j] == bytes@[j],
            decreases 32 - i,
        {
            pid[i] = bytes[i];
            i = i + 1;
        }
        proof {
            assert(pid@ =~= bytes@.subrange(0, 32));
        }
        let x: u64 = (bytes[32] as u64) | ((bytes[33] as u64) << 8) | ((bytes[34] as u64) << 16)
            | ((bytes[35] as u64) << 24) | ((bytes[36] as u64) << 32) | ((bytes[37] as u64) << 40)
            | ((bytes[38] as u64) << 48) | ((bytes[39] as u64) << 56);
        let n = bytes.len();
        let mut blob: Vec<u8> = Vec::new();
        let mut k: usize = 40;
        while k < n
            invariant
                n == bytes@.len(),
                40 <= k <= n,
                blob@ =~= bytes@.subrange(40, k as int),
            decreases n - k,
        {
            blob.push(bytes[k]);
            k = k + 1;
        }
        proof {
            let tail = bytes@.subrange(32, 40);
            assert(tail[0] == bytes@[32] && tail[1] == bytes@[33] && tail[2] == bytes@[34]
                && tail[3] == bytes@[35] && tail[4] == bytes@[36] && tail[5] == bytes@[37]
                && tail[6] == bytes@[38] && tail[7] == bytes@[39]);
        }
        Some(C2 { prove_id: pid, sector_id: x, phase1_output: blob })
    }
}

/// Round-trip: a framed envelope parses back to exactly the pieces it was
/// framed from.
pub proof fn lemma_c2_round_trip(prover_id: Seq<u8>, sector_id: u64, blob: Seq<u8>)
    requires
        prover_id.len() == 32,
    ensures
        c2_encode(prover_id, sector_id, blob).len() == 40 + blob.len(),
        c2_encode(prover_id, sector_id, blob).subrange(0, 32) =~= prover_id,
        u64_of_le(c2_encode(prover_id, sector_id, blob).subrange(32, 40)) == sector_id,
        c2_encode(prover_id, sector_id, blob).subrange(
            40,
            c2_encode(prover_id, sector_id, blob).len() as int,
        ) =~= blob,
{
    let enc = c2_encode(prover_id, sector_id, blob);
    assert(enc.subrange(32, 40) =~= u64_le_bytes(sector_id));
    lemma_u64_le_round_trip(sector_id);
}

} // verus!

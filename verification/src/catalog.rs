//! The star catalog: a fixed binary blob of 16-byte records, parsed once,
//! converted from galactic to equatorial coordinates exactly once, and
//! serialized exactly once into the GPU-resident star buffer.
//!
//! Each record holds four little-endian 32-bit words: two coordinate
//! words — IEEE-754 single-precision bit patterns, first galactic
//! longitude and latitude, after conversion right ascension and
//! declination — and two reserved words that pad the record to a
//! GPU-friendly 16-byte stride.  This module fixes the byte layout and
//! guards the catalog's lifecycle; the host computes the converted
//! coordinate bits with its spherical trigonometry and hands them back as
//! plain words.

use vstd::prelude::*;

verus! {

/// A catalog failure.  A size mismatch is a packaging defect and aborts
/// initialization; the lifecycle errors guard against converting or
/// uploading the catalog more than once, or uploading it unconverted.
#[derive(Clone, Copy, PartialEq, Eq, Structural, Debug)]
pub enum CatalogError {
    /// The blob's byte length is not exactly the record count times the
    /// 16-byte stride.
    SizeMismatch,
    /// The catalog's coordinates were already converted.
    AlreadyConverted,
    /// The catalog still holds raw galactic coordinates.
    NotConverted,
    /// The GPU buffer bytes were already taken.
    AlreadyUploaded,
}

/// One catalog entry: four 32-bit words of a 16-byte record.
#[derive(Clone, Copy, PartialEq, Eq, Structural, Debug)]
pub struct StarRecord {
    /// Galactic longitude before conversion, right ascension after, as
    /// IEEE-754 single-precision bits.
    pub lon_ra_bits: u32,
    /// Galactic latitude before conversion, declination after, as
    /// IEEE-754 single-precision bits.
    pub lat_dec_bits: u32,
    /// First reserved word; never rewritten.
    pub reserved0_bits: u32,
    /// Second reserved word; never rewritten.
    pub reserved1_bits: u32,
}

/// Whether the catalog's coordinate words still hold the raw galactic
/// values or the converted equatorial values.
#[derive(Clone, Copy, PartialEq, Eq, Structural, Debug)]
pub enum CatalogState {
    Raw,
    Converted,
}

/// The star catalog and its lifecycle state.
#[derive(Debug)]
pub struct StarCatalog {
    /// The records, in blob order.
    pub records: Vec<StarRecord>,
    /// Raw until the one conversion pass has run.
    pub state: CatalogState,
    /// Whether the GPU buffer bytes have been taken.
    pub uploaded: bool,
}

/// The value of a little-endian 32-bit word with bytes `b0` (lowest)
/// through `b3` (highest).
pub open spec fn le_word(b0: u8, b1: u8, b2: u8, b3: u8) -> u32 {
    (b0 + 256 * b1 + 65536 * b2 + 16777216 * b3) as u32
}

/// Byte `k` (0 = lowest) of the little-endian encoding of `w`.
pub open spec fn word_byte(w: u32, k: int) -> u8 {
    if k == 0 {
        (w % 256) as u8
    } else if k == 1 {
        ((w / 256) % 256) as u8
    } else if k == 2 {
        ((w / 65536) % 256) as u8
    } else {
        ((w / 16777216) % 256) as u8
    }
}

/// Record `i` of a catalog blob: four little-endian words read at byte
/// offset `16 * i`.
pub open spec fn parsed_record(b: Seq<u8>, i: int) -> StarRecord {
    StarRecord {
        lon_ra_bits: le_word(b[16 * i], b[16 * i + 1], b[16 * i + 2], b[16 * i + 3]),
        lat_dec_bits: le_word(b[16 * i + 4], b[16 * i + 5], b[16 * i + 6], b[16 * i + 7]),
        reserved0_bits: le_word(b[16 * i + 8], b[16 * i + 9], b[16 * i + 10], b[16 * i + 11]),
        reserved1_bits: le_word(b[16 * i + 12], b[16 * i + 13], b[16 * i + 14], b[16 * i + 15]),
    }
}

/// Byte `k` (0 <= k < 16) of the 16-byte serialization of a record.
pub open spec fn record_byte(r: StarRecord, k: int) -> u8 {
    if k < 4 {
        word_byte(r.lon_ra_bits, k)
    } else if k < 8 {
        word_byte(r.lat_dec_bits, k - 4)
    } else if k < 12 {
        word_byte(r.reserved0_bits, k - 8)
    } else {
        word_byte(r.reserved1_bits, k - 12)
    }
}

/// Read the little-endian 32-bit word at byte offset `off`.
fn read_word_le(blob: &Vec<u8>, off: usize) -> (r: u32)
    requires
        off + 4 <= blob@.len(),
        blob@.len() <= usize::MAX,
    ensures
        r == le_word(blob@[off as int], blob@[off as int + 1], blob@[off as int + 2], blob@[off as int + 3]),
{
    blob[off] as u32 + 256 * (blob[off + 1] as u32) + 65536 * (blob[off + 2] as u32) + 16777216
        * (blob[off + 3] as u32)
}

/// Append the four little-endian bytes of `w`.
pub fn push_word_le(out: &mut Vec<u8>, w: u32)
    ensures
        final (out)@.len() == old(out)@.len() + 4,
        forall|j: int| 0 <= j < old(out)@.len() ==> final (out)@[j] == old(out)@[j],
        final (out)@[old(out)@.len() as int] == word_byte(w, 0),
        final (out)@[old(out)@.len() + 1int] == word_byte(w, 1),
        final (out)@[old(out)@.len() + 2int] == word_byte(w, 2),
        final (out)@[old(out)@.len() + 3int] == word_byte(w, 3),
{
    out.push((w % 256) as u8);
    out.push(((w / 256) % 256) as u8);
    out.push(((w / 65536) % 256) as u8);
    out.push(((w / 16777216) % 256) as u8);
}

impl StarCatalog {
    /// Parse a catalog blob of exactly `n` 16-byte records.  The blob's
    /// length is a packaging invariant: any other length is rejected so
    /// that startup fails fast.
    pub fn from_blob(blob: &Vec<u8>, n: usize) -> (r: Result<StarCatalog, CatalogError>)
        ensures
            blob@.len() == 16 * n ==> (r matches Ok(c) && c.records@.len() == n && (forall|i: int|
                0 <= i < n ==> c.records@[i] == parsed_record(blob@, i)) && c.state is Raw
                && !c.uploaded),
            blob@.len() != 16 * n ==> r == Err::<StarCatalog, CatalogError>(
                CatalogError::SizeMismatch,
            ),
    {
        let blob_len: usize = blob.len();
        if n > usize::MAX / 16 {
            return Err(CatalogError::SizeMismatch);
        }
        if blob_len != n * 16 {
            return Err(CatalogError::SizeMismatch);
        }
        let mut records: Vec<StarRecord> = Vec::new();
        let mut i: usize = 0;
        while i < n
            invariant
                blob@.len() == 16 * n,
                n * 16 <= usize::MAX,
                i <= n,
                records@.len() == i,
                forall|k: int| 0 <= k < i ==> records@[k] == parsed_record(blob@, k),
            decreases n - i,
        {
            let base: usize = i * 16;
            let rec = StarRecord {
                lon_ra_bits: read_word_le(blob, base),
                lat_dec_bits: read_word_le(blob, base + 4),
                reserved0_bits: read_word_le(blob, base + 8),
                reserved1_bits: read_word_le(blob, base + 12),
            };
            assert(rec == parsed_record(blob@, i as int));
            records.push(rec);
            i = i + 1;
        }
        Ok(StarCatalog { records, state: CatalogState::Raw, uploaded: false })
    }

    /// The number of records.
    pub fn len(&self) -> (r: usize)
        ensures
            r == self.records@.len(),
    {
        self.records.len()
    }

    /// Whether the one conversion pass has already run.
    pub fn is_converted(&self) -> (r: bool)
        ensures
            r == (self.state is Converted),
    {
        match self.state {
            CatalogState::Converted => true,
            CatalogState::Raw => false,
        }
    }

    /// Record `i`, for the host to read the raw galactic coordinate bits
    /// it feeds to its conversion.
    pub fn record(&self, i: usize) -> (r: StarRecord)
        requires
            i < self.records@.len(),
        ensures
            r == self.records@[i as int],
    {
        self.records[i]
    }

    /// Replace the two coordinate words of every record by the converted
    /// equatorial bits in `pairs`, in place, leaving both reserved words
    /// of every record untouched.  The pass is guarded to run exactly
    /// once: a second call changes nothing and reports
    /// `AlreadyConverted`.
    pub fn convert(&mut self, pairs: &Vec<(u32, u32)>) -> (r: Result<(), CatalogError>)
        requires
            pairs@.len() == old(self).records@.len(),
        ensures
            old(self).state is Converted ==> (r == Err::<(), CatalogError>(
                CatalogError::AlreadyConverted,
            ) && *final (self) == *old(self)),
            old(self).state is Raw ==> (r == Ok::<(), CatalogError>(()) && final (self).state
                is Converted && final (self).uploaded == old(self).uploaded && final (
            self).records@.len() == old(self).records@.len() && (forall|i: int|
                0 <= i < old(self).records@.len() ==> final (self).records@[i] == (StarRecord {
                    lon_ra_bits: pairs@[i].0,
                    lat_dec_bits: pairs@[i].1,
                    reserved0_bits: old(self).records@[i].reserved0_bits,
                    reserved1_bits: old(self).records@[i].reserved1_bits,
                }))),
    {
        match self.state {
            CatalogState::Converted => Err(CatalogError::AlreadyConverted),
            CatalogState::Raw => {
                let n: usize = self.records.len();
                let mut i: usize = 0;
                while i < n
                    invariant
                        n == old(self).records@.len(),
                        pairs@.len() == n,
                        i <= n,
                        self.records@.len() == n,
                        self.state == old(self).state,
                        self.uploaded == old(self).uploaded,
                        forall|k: int|
                            0 <= k < i ==> self.records@[k] == (StarRecord {
                                lon_ra_bits: pairs@[k].0,
                                lat_dec_bits: pairs@[k].1,
                                reserved0_bits: old(self).records@[k].reserved0_bits,
                                reserved1_bits: old(self).records@[k].reserved1_bits,
                            }),
                        forall|k: int| i <= k < n ==> self.records@[k] == old(self).records@[k],
                    decreases n - i,
                {
                    let mut rec = self.records[i];
                    rec.lon_ra_bits = pairs[i].0;
                    rec.lat_dec_bits = pairs[i].1;
                    self.records.set(i, rec);
                    i = i + 1;
                }
                self.state = CatalogState::Converted;
                Ok(())
            },
        }
    }

    /// Serialize the converted catalog into the bytes of the GPU-resident
    /// star buffer: the records back-to-back at the 16-byte stride, words
    /// little-endian.  The buffer is written once per process: the bytes
    /// can be taken only after conversion and only once; any later call
    /// changes nothing and reports `AlreadyUploaded`.
    pub fn take_gpu_bytes(&mut self) -> (r: Result<Vec<u8>, CatalogError>)
        requires
            16 * old(self).records@.len() <= usize::MAX,
        ensures
            old(self).state is Raw ==> (r == Err::<Vec<u8>, CatalogError>(
                CatalogError::NotConverted,
            ) && *final (self) == *old(self)),
            old(self).state is Converted && old(self).uploaded ==> (r == Err::<Vec<u8>, CatalogError>(
                CatalogError::AlreadyUploaded,
            ) && *final (self) == *old(self)),
            old(self).state is Converted && !old(self).uploaded ==> (r matches Ok(bytes)
                && bytes@.len() == 16 * old(self).records@.len() && (forall|j: int|
                0 <= j < bytes@.len() ==> bytes@[j] == record_byte(
                    old(self).records@[j / 16],
                    j % 16,
                )) && final (self).records@ == old(self).records@ && final (self).state == old(
            self).state && final (self).uploaded),
    {
        match self.state {
            CatalogState::Raw => Err(CatalogError::NotConverted),
            CatalogState::Converted => {
                if self.uploaded {
                    return Err(CatalogError::AlreadyUploaded);
                }
                let n: usize = self.records.len();
                let mut out: Vec<u8> = Vec::new();
                let mut i: usize = 0;
                while i < n
                    invariant
                        n == self.records@.len(),
                        16 * n <= usize::MAX,
                        i <= n,
                        out@.len() == 16 * i,
                        forall|j: int|
                            0 <= j < out@.len() ==> out@[j] == record_byte(
                                self.records@[j / 16],
                                j % 16,
                            ),
                    decreases n - i,
                {
                    let rec = self.records[i];
                    push_word_le(&mut out, rec.lon_ra_bits);
                    push_word_le(&mut out, rec.lat_dec_bits);
                    push_word_le(&mut out, rec.reserved0_bits);
                    push_word_le(&mut out, rec.reserved1_bits);
                    proof {
                        assert forall|j: int| 16 * i <= j < 16 * i + 16 implies #[trigger] (j / 16)
                            == i && j % 16 == j - 16 * i by {
                            assert(j / 16 == i && j % 16 == j - 16 * i) by (nonlinear_arith)
                                requires
                                    16 * i <= j < 16 * i + 16,
                            ;
                        }
                    }
                    i = i + 1;
                }
                self.uploaded = true;
                Ok(out)
            },
        }
    }
}

/// Serializing a little-endian word recovers exactly the bytes it was
/// read from.
#[verifier::rlimit(50)]
pub proof fn lemma_le_word_bytes(b0: u8, b1: u8, b2: u8, b3: u8)
    ensures
        word_byte(le_word(b0, b1, b2, b3), 0) == b0,
        word_byte(le_word(b0, b1, b2, b3), 1) == b1,
        word_byte(le_word(b0, b1, b2, b3), 2) == b2,
        word_byte(le_word(b0, b1, b2, b3), 3) == b3,
{
}

/// Parsing a well-sized blob and serializing the parsed records gives
/// back exactly the original blob, byte for byte: the 16-byte stride and
/// the reserved padding survive a round trip unchanged.
pub proof fn lemma_catalog_bytes_roundtrip(b: Seq<u8>, n: int, j: int)
    requires
        b.len() == 16 * n,
        0 <= j < 16 * n,
    ensures
        record_byte(parsed_record(b, j / 16), j % 16) == b[j],
{
    let i = j / 16;
    let k = j % 16;
    assert(0 <= i < n && 0 <= k < 16 && j == 16 * i + k) by (nonlinear_arith)
        requires
            0 <= j < 16 * n,
            i == j / 16,
            k == j % 16,
    ;
    lemma_le_word_bytes(b[16 * i], b[16 * i + 1], b[16 * i + 2], b[16 * i + 3]);
    lemma_le_word_bytes(b[16 * i + 4], b[16 * i + 5], b[16 * i + 6], b[16 * i + 7]);
    lemma_le_word_bytes(b[16 * i + 8], b[16 * i + 9], b[16 * i + 10], b[16 * i + 11]);
    lemma_le_word_bytes(b[16 * i + 12], b[16 * i + 13], b[16 * i + 14], b[16 * i + 15]);
}

} // verus!

//! The iNES cartridge image: header validation and the split into PRG and
//! CHR banks. The core never parses files; it is handed the raw bytes.

use vstd::prelude::*;
use vstd::string::StringExecFns;

verus! {

/// How many bytes one PRG bank holds.
pub const PRG_BANK: usize = 16384;

/// How many bytes one CHR bank holds.
pub const CHR_BANK: usize = 8192;

/// The nametable mirroring arrangement the header declares.
#[derive(Clone, Copy, PartialEq, Eq, Structural, Debug)]
pub enum Mirroring {
    Horizontal,
    Vertical,
    FourScreen,
}

/// Whether the image begins with the iNES magic tag.
pub open spec fn spec_tag_ok(raw: Seq<u8>) -> bool {
    &&& raw.len() >= 16
    &&& raw[0] == 0x4E
    &&& raw[1] == 0x45
    &&& raw[2] == 0x53
    &&& raw[3] == 0x1A
}

/// The header's format version field.
pub open spec fn spec_ines_version(raw: Seq<u8>) -> u8 {
    (raw[7] / 4) % 4
}

/// The mapper number, assembled from the two header nibbles: the high
/// nibble of byte seven above the high nibble of byte six.
pub open spec fn spec_mapper(raw: Seq<u8>) -> u8 {
    (raw[7] / 16 * 16 + raw[6] / 16) as u8
}

/// The mirroring arrangement the header flags declare.
pub open spec fn spec_mirroring(raw: Seq<u8>) -> Mirroring {
    if raw[6] & 0x08 != 0 {
        Mirroring::FourScreen
    } else if raw[6] & 0x01 != 0 {
        Mirroring::Vertical
    } else {
        Mirroring::Horizontal
    }
}

/// Where the PRG data begins: past the header, and past the trainer when the
/// header declares one.
pub open spec fn spec_prg_start(raw: Seq<u8>) -> int {
    16 + if raw[6] & 0x04 != 0 {
        512int
    } else {
        0int
    }
}

/// How many PRG bytes the header declares.
pub open spec fn spec_prg_size(raw: Seq<u8>) -> int {
    raw[4] * 16384
}

/// How many CHR bytes the header declares.
pub open spec fn spec_chr_size(raw: Seq<u8>) -> int {
    raw[5] * 8192
}

/// Whether the image is large enough to hold what its own header declares.
pub open spec fn spec_sizes_ok(raw: Seq<u8>) -> bool {
    raw.len() >= spec_prg_start(raw) + spec_prg_size(raw) + spec_chr_size(raw)
}

/// A parsed cartridge: the PRG and CHR banks, the mapper number, and the
/// declared mirroring.
#[derive(Debug)]
pub struct Cartridge {
    pub prg: Vec<u8>,
    pub chr: Vec<u8>,
    pub mapper: u8,
    pub mirroring: Mirroring,
}

impl Cartridge {
    /// Parses an iNES image: rejects a missing magic tag and any format
    /// version other than the first, and otherwise splits the image into its
    /// PRG and CHR banks as the header declares them.
    pub fn new(raw: &[u8]) -> (r: Result<Cartridge, String>)
        requires
            raw@.len() >= 16,
            spec_tag_ok(raw@) && spec_ines_version(raw@) == 0 ==> spec_sizes_ok(raw@),
        ensures
            !spec_tag_ok(raw@) ==> (r matches Err(e) && e@ == "File is not in iNES file format"@),
            spec_tag_ok(raw@) && spec_ines_version(raw@) != 0 ==> (r matches Err(e) && e@
                == "NES2.0 format is not supported"@),
            spec_tag_ok(raw@) && spec_ines_version(raw@) == 0 ==> (r matches Ok(c) && {
                &&& c.prg@ == raw@.subrange(
                    spec_prg_start(raw@),
                    spec_prg_start(raw@) + spec_prg_size(raw@),
                )
                &&& c.chr@ == raw@.subrange(
                    spec_prg_start(raw@) + spec_prg_size(raw@),
                    spec_prg_start(raw@) + spec_prg_size(raw@) + spec_chr_size(raw@),
                )
                &&& c.mapper == spec_mapper(raw@)
                &&& c.mirroring == spec_mirroring(raw@)
            }),
    {
        if !(raw[0] == 0x4E && raw[1] == 0x45 && raw[2] == 0x53 && raw[3] == 0x1A) {
            return Err(String::from_str("File is not in iNES file format"));
        }
        if (raw[7] / 4) % 4 != 0 {
            return Err(String::from_str("NES2.0 format is not supported"));
        }
        let mapper = raw[7] / 16 * 16 + raw[6] / 16;
        let mirroring = if raw[6] & 0x08 != 0 {
            Mirroring::FourScreen
        } else if raw[6] & 0x01 != 0 {
            Mirroring::Vertical
        } else {
            Mirroring::Horizontal
        };
        let prg_start: usize = if raw[6] & 0x04 != 0 {
            16 + 512
        } else {
            16
        };
        let prg_size: usize = raw[4] as usize * PRG_BANK;
        let chr_size: usize = raw[5] as usize * CHR_BANK;
        let total = raw.len();
        assert(prg_start + prg_size + chr_size <= total);
        let prg = copy_range(raw, prg_start, prg_size);
        let chr = copy_range(raw, prg_start + prg_size, chr_size);
        Ok(Cartridge { prg, chr, mapper, mirroring })
    }
}

/// Copies `count` bytes of `raw` starting at `start` into a fresh vector.
fn copy_range(raw: &[u8], start: usize, count: usize) -> (r: Vec<u8>)
    requires
        start + count <= raw@.len(),
        raw@.len() <= usize::MAX,
    ensures
        r@ == raw@.subrange(start as int, start + count),
{
    let mut out: Vec<u8> = Vec::new();
    let mut k: usize = 0;
    while k < count
        invariant
            k <= count,
            start + count <= raw@.len(),
            raw@.len() <= usize::MAX,
            out@ =~= raw@.subrange(start as int, start + k),
        decreases count - k,
    {
        let value = raw[start + k];
        out.push(value);
        assert(out@ =~= raw@.subrange(start as int, start + k + 1));
        k += 1;
    }
    assert(out@ =~= raw@.subrange(start as int, start + count));
    out
}

} // verus!

use vstd::prelude::*;
use vstd::string::StringExecFns;

use crate::n64header::entrypoint::sub_mod;
use crate::n64header::RomError;

verus! {

/// A known boot ROM: the checksum of its boot code, its part names for the
/// NTSC and PAL regions (where it has one), and how it moves the entrypoint.
#[derive(Clone, Copy, Debug)]
pub struct CICInfo {
    pub checksum: u32,
    pub ntsc_name: Option<&'static str>,
    pub pal_name: Option<&'static str>,
    pub entrypoint_offset: u32,
}

/// The boot ROMs that can be identified.
pub open spec fn cic_table() -> Seq<CICInfo> {
    seq![
        CICInfo { checksum: 0xD1F2D592, ntsc_name: Some("6102"), pal_name: Some("7101"), entrypoint_offset: 0x000000 },
        CICInfo { checksum: 0x27DF61E2, ntsc_name: Some("6103"), pal_name: Some("7103"), entrypoint_offset: 0x100000 },
        CICInfo { checksum: 0x229F516C, ntsc_name: Some("6105"), pal_name: Some("7105"), entrypoint_offset: 0x000000 },
        CICInfo { checksum: 0xA0DD69F7, ntsc_name: Some("6106"), pal_name: Some("7106"), entrypoint_offset: 0x200000 },
        CICInfo { checksum: 0x0013579C, ntsc_name: Some("6101"), pal_name: None, entrypoint_offset: 0x000000 },
        CICInfo { checksum: 0xDAB442CD, ntsc_name: None, pal_name: Some("7102"), entrypoint_offset: 0x80000480 },
    ]
}

/// The entry of the table whose checksum is `crc`, if there is one.
pub open spec fn cic_lookup(crc: u32) -> Option<CICInfo>
{
    if exists|i: int| 0 <= i < cic_table().len() && #[trigger] cic_table()[i].checksum == crc {
        Some(cic_table()[choose|i: int| 0 <= i < cic_table().len() && #[trigger] cic_table()[i].checksum == crc])
    } else {
        None
    }
}

/// The name shown for a boot ROM: both part names joined by " / ", or the
/// one it has.
pub open spec fn cic_name(c: CICInfo) -> Seq<char> {
    match (c.ntsc_name, c.pal_name) {
        (Some(n), Some(p)) => n@ + " / "@ + p@,
        (Some(n), None) => n@,
        (None, Some(p)) => p@,
        (None, None) => Seq::empty(),
    }
}

/// The entrypoint that a boot ROM really jumps to: an offset with the top bit
/// set is the entrypoint itself, any other is taken off the header's value.
pub open spec fn corrected_entrypoint(offset: u32, header_entrypoint: u32) -> u32 {
    if offset >= 0x8000_0000 {
        offset
    } else {
        sub_mod(header_entrypoint, offset)
    }
}

/// The checksum of a byte string with the CRC-32/CKSUM parameters.
pub uninterp spec fn cksum_of(bytes: Seq<u8>) -> u32;

/// Relies on `crc::Crc::<u32>::checksum` under `crc::CRC_32_CKSUM`: the
/// checksum is a function of the bytes alone.
#[verifier::external_body]
fn cksum(bytes: &[u8]) -> (r: u32)
    ensures
        r == cksum_of(bytes@),
{
    crc::Crc::<u32>::new(&crc::CRC_32_CKSUM).checksum(bytes)
}

impl CICInfo {
    fn new(
        checksum: u32,
        ntsc_name: Option<&'static str>,
        pal_name: Option<&'static str>,
        entrypoint_offset: u32,
    ) -> (r: CICInfo)
        ensures
            r == (CICInfo { checksum, ntsc_name, pal_name, entrypoint_offset }),
    {
        CICInfo { checksum, ntsc_name, pal_name, entrypoint_offset }
    }

    /// The known boot ROM whose boot code has checksum `crc`.
    pub fn get_from_crc(crc: u32) -> (r: Result<CICInfo, RomError>)
        ensures
            r == match cic_lookup(crc) {
                Some(c) => Ok::<CICInfo, RomError>(c),
                None => Err(RomError::UnknownBootROM),
            },
    {
        let ghost t = cic_table();
        proof {
            lemma_cic_table_lookup();
            assert(t[0].checksum == 0xD1F2D592 && t[1].checksum == 0x27DF61E2 && t[2].checksum
                == 0x229F516C && t[3].checksum == 0xA0DD69F7 && t[4].checksum == 0x0013579C
                && t[5].checksum == 0xDAB442CD);
        }
        if crc == 0xD1F2D592 {
            Ok(CICInfo::new(0xD1F2D592, Some("6102"), Some("7101"), 0x000000))
        } else if crc == 0x27DF61E2 {
            Ok(CICInfo::new(0x27DF61E2, Some("6103"), Some("7103"), 0x100000))
        } else if crc == 0x229F516C {
            Ok(CICInfo::new(0x229F516C, Some("6105"), Some("7105"), 0x000000))
        } else if crc == 0xA0DD69F7 {
            Ok(CICInfo::new(0xA0DD69F7, Some("6106"), Some("7106"), 0x200000))
        } else if crc == 0x0013579C {
            Ok(CICInfo::new(0x0013579C, Some("6101"), None, 0x000000))
        } else if crc == 0xDAB442CD {
            Ok(CICInfo::new(0xDAB442CD, None, Some("7102"), 0x80000480))
        } else {
            assert(forall|i: int| 0 <= i < t.len() ==> #[trigger] t[i].checksum != crc);
            Err(RomError::UnknownBootROM)
        }
    }

    pub fn name(&self) -> (r: String)
        ensures
            r@ == cic_name(*self),
    {
        match (self.ntsc_name, self.pal_name) {
            (Some(n), Some(p)) => String::from_str(n).concat(" / ").concat(p),
            (Some(n), None) => String::from_str(n),
            (None, Some(p)) => String::from_str(p),
            (None, None) => String::new(),
        }
    }

    fn entrypoint_offset(&self) -> (r: u32)
        ensures
            r == self.entrypoint_offset,
    {
        self.entrypoint_offset
    }

    /// Corrects the entrypoint that the header claims.
    pub fn correct_entrypoint(&self, header_entrypoint: u32) -> (r: u32)
        ensures
            r == corrected_entrypoint(self.entrypoint_offset, header_entrypoint),
    {
        let offset = self.entrypoint_offset();
        if offset >= 0x8000_0000 {
            offset
        } else {
            header_entrypoint.wrapping_sub(offset)
        }
    }
}

/// Each entry of the table is what its own checksum looks up, with its names
/// and offset, and no two entries share a checksum.
pub proof fn lemma_cic_table_lookup()
    ensures
        forall|i: int|
            0 <= i < cic_table().len() ==> cic_lookup(#[trigger] cic_table()[i].checksum) == Some(
                cic_table()[i],
            ),
        forall|i: int, j: int|
            0 <= i < cic_table().len() && 0 <= j < cic_table().len() && i != j
                ==> #[trigger] cic_table()[i].checksum != #[trigger] cic_table()[j].checksum,
        forall|crc: u32|
            (forall|i: int| 0 <= i < cic_table().len() ==> #[trigger] cic_table()[i].checksum != crc)
                ==> #[trigger] cic_lookup(crc) is None,
{
    let t = cic_table();
    assert forall|i: int| 0 <= i < t.len() implies cic_lookup(#[trigger] t[i].checksum) == Some(t[i]) by {
        let j = choose|j: int| 0 <= j < t.len() && #[trigger] t[j].checksum == t[i].checksum;
        assert(0 <= j < t.len() && t[j].checksum == t[i].checksum);
        assert(j == i);
    }
}

/// The checksum of the boot code of a canonical-order image, the bytes from
/// 0x40 up to 0x1000.
pub fn ipl3_checksum(rom: &[u8]) -> (r: Result<u32, RomError>)
    ensures
        rom@.len() < 0x1000 ==> r == Err::<u32, RomError>(RomError::Truncated),
        rom@.len() >= 0x1000 ==> r == Ok::<u32, RomError>(cksum_of(rom@.subrange(0x40, 0x1000))),
{
    if rom.len() < 0x1000 {
        return Err(RomError::Truncated);
    }
    let ipl3 = vstd::slice::slice_subrange(rom, 0x40, 0x1000);
    Ok(cksum(ipl3))
}

/// Identifies the boot ROM of a canonical-order image by the checksum of its
/// boot code, the bytes from 0x40 up to 0x1000.
pub fn identify(rom: &[u8]) -> (r: Result<CICInfo, RomError>)
    ensures
        rom@.len() < 0x1000 ==> r == Err::<CICInfo, RomError>(RomError::Truncated),
        rom@.len() >= 0x1000 ==> r == match cic_lookup(cksum_of(rom@.subrange(0x40, 0x1000))) {
            Some(c) => Ok::<CICInfo, RomError>(c),
            None => Err(RomError::UnknownBootROM),
        },
{
    match ipl3_checksum(rom) {
        Ok(hash) => CICInfo::get_from_crc(hash),
        Err(e) => Err(e),
    }
}

} // verus!

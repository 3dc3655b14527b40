pub mod entrypoint;
pub mod ipl3;

use vstd::prelude::*;
use vstd::slice::slice_subrange;

verus! {

/// The three byte orders in which an image may be stored: canonical
/// big-endian, each 4-byte word reversed, and each 2-byte half swapped.
#[derive(Clone, Copy, Debug, PartialEq, Eq, Structural)]
pub enum Endian {
    Good,
    Bad,
    Ugly,
}

/// Conditions that stop the analysis of one image.
#[derive(Clone, Copy, Debug, PartialEq, Eq, Structural)]
pub enum RomError {
    /// Fewer bytes than a fixed-size read needs.
    Truncated,
    /// The first four bytes are none of the three magic patterns.
    UnrecognizedFormat,
    /// The boot-code checksum is not in the table of known boot ROMs.
    UnknownBootROM,
}

/// How the first four bytes of an image look when stored in order `e`.
pub open spec fn magic_of(e: Endian) -> Seq<u8> {
    match e {
        Endian::Good => seq![0x80u8, 0x37u8, 0x12u8, 0x40u8],
        Endian::Bad => seq![0x40u8, 0x12u8, 0x37u8, 0x80u8],
        Endian::Ugly => seq![0x37u8, 0x80u8, 0x40u8, 0x12u8],
    }
}

/// The order whose magic pattern starts `b`, if any.
pub open spec fn endian_of(b: Seq<u8>) -> Option<Endian> {
    if b.len() < 4 {
        None
    } else if b.subrange(0, 4) == magic_of(Endian::Good) {
        Some(Endian::Good)
    } else if b.subrange(0, 4) == magic_of(Endian::Bad) {
        Some(Endian::Bad)
    } else if b.subrange(0, 4) == magic_of(Endian::Ugly) {
        Some(Endian::Ugly)
    } else {
        None
    }
}

/// Where byte `i` of the rewritten buffer comes from. The map is its own
/// inverse, so it also says where byte `i` of a canonical buffer is stored.
pub open spec fn reend_index(i: int, e: Endian) -> int {
    match e {
        Endian::Good => i,
        Endian::Bad => i - i % 4 + (3 - i % 4),
        Endian::Ugly => i - i % 2 + (1 - i % 2),
    }
}

/// The buffer `s`, stored in order `e`, rewritten in canonical order.
pub open spec fn reend_bytes(s: Seq<u8>, e: Endian) -> Seq<u8> {
    Seq::new(s.len(), |i: int| s[reend_index(i, e)])
}

/// The big-endian value of four bytes.
pub open spec fn be_word(s: Seq<u8>) -> u32 {
    (s[0] as int * 0x100_0000 + s[1] as int * 0x1_0000 + s[2] as int * 0x100 + s[3] as int) as u32
}

/// The canonical-order word of the four bytes at `at`.
pub open spec fn word_at(s: Seq<u8>, at: int, e: Endian) -> u32 {
    be_word(reend_bytes(s.subrange(at, at + 4), e))
}

/// The whole words of `s`, in canonical order.
pub open spec fn words_of(s: Seq<u8>, e: Endian) -> Seq<u32> {
    Seq::new(s.len() / 4, |k: int| word_at(s, 4 * k, e))
}

/// Classifies an image by its first four bytes.
pub fn get_endian(input: &[u8]) -> (r: Result<Endian, RomError>)
    ensures
        input@.len() < 4 ==> r == Err::<Endian, RomError>(RomError::Truncated),
        input@.len() >= 4 ==> r == match endian_of(input@) {
            Some(e) => Ok::<Endian, RomError>(e),
            None => Err(RomError::UnrecognizedFormat),
        },
{
    if input.len() < 4 {
        return Err(RomError::Truncated);
    }
    let (b0, b1, b2, b3) = (input[0], input[1], input[2], input[3]);
    let ghost head = input@.subrange(0, 4);
    assert(head == seq![b0, b1, b2, b3]);
    if b0 == 0x80 && b1 == 0x37 && b2 == 0x12 && b3 == 0x40 {
        Ok(Endian::Good)
    } else if b0 == 0x40 && b1 == 0x12 && b2 == 0x37 && b3 == 0x80 {
        Ok(Endian::Bad)
    } else if b0 == 0x37 && b1 == 0x80 && b2 == 0x40 && b3 == 0x12 {
        Ok(Endian::Ugly)
    } else {
        assert(head != magic_of(Endian::Good) && head != magic_of(Endian::Bad) && head != magic_of(
            Endian::Ugly,
        )) by {
            if head == magic_of(Endian::Good) {
                assert(head[0] == 0x80 && head[1] == 0x37 && head[2] == 0x12 && head[3] == 0x40);
            }
            if head == magic_of(Endian::Bad) {
                assert(head[0] == 0x40 && head[1] == 0x12 && head[2] == 0x37 && head[3] == 0x80);
            }
            if head == magic_of(Endian::Ugly) {
                assert(head[0] == 0x37 && head[1] == 0x80 && head[2] == 0x40 && head[3] == 0x12);
            }
        }
        Err(RomError::UnrecognizedFormat)
    }
}

proof fn lemma_block_index(k: int, m: int)
    requires
        k >= 0,
        m == 2 || m == 4,
    ensures
        forall|r: int| 0 <= r < m ==> #[trigger] ((m * k + r) % m) == r,
{
    assert forall|r: int| 0 <= r < m implies #[trigger] ((m * k + r) % m) == r by {
        vstd::arithmetic::div_mod::lemma_fundamental_div_mod_converse(m * k + r, m, k, r);
    }
}

/// Rewrites a buffer stored in order `endian` into canonical order, in place.
pub fn reend_array(v: &mut [u8], endian: &Endian)
    requires
        old(v)@.len() % 4 == 0,
    ensures
        final(v)@ == reend_bytes(old(v)@, *endian),
{
    let n = v.len();
    let ghost orig = v@;
    match endian {
        Endian::Good => {
            assert(v@ =~= reend_bytes(orig, *endian));
        },
        Endian::Bad => {
            let mut k: usize = 0;
            while k < n / 4
                invariant
                    n == orig.len(),
                    n % 4 == 0,
                    k <= n / 4,
                    v@.len() == n,
                    forall|i: int| 0 <= i < 4 * k ==> #[trigger] v@[i] == orig[reend_index(i, Endian::Bad)],
                    forall|i: int| 4 * k <= i < n ==> #[trigger] v@[i] == orig[i],
                decreases n / 4 - k,
            {
                let at = 4 * k;
                let (b0, b1, b2, b3) = (v[at], v[at + 1], v[at + 2], v[at + 3]);
                v[at] = b3;
                v[at + 1] = b2;
                v[at + 2] = b1;
                v[at + 3] = b0;
                proof {
                    lemma_block_index(k as int, 4);
                }
                k = k + 1;
            }
            assert(v@ =~= reend_bytes(orig, *endian));
        },
        Endian::Ugly => {
            let mut k: usize = 0;
            while k < n / 2
                invariant
                    n == orig.len(),
                    n % 4 == 0,
                    k <= n / 2,
                    v@.len() == n,
                    forall|i: int| 0 <= i < 2 * k ==> #[trigger] v@[i] == orig[reend_index(i, Endian::Ugly)],
                    forall|i: int| 2 * k <= i < n ==> #[trigger] v@[i] == orig[i],
                decreases n / 2 - k,
            {
                let at = 2 * k;
                let (b0, b1) = (v[at], v[at + 1]);
                v[at] = b1;
                v[at + 1] = b0;
                proof {
                    lemma_block_index(k as int, 2);
                }
                k = k + 1;
            }
            assert(v@ =~= reend_bytes(orig, *endian));
        },
    }
}

/// The canonical-order word of the first four bytes of a buffer stored in
/// order `endian`.
pub fn bytes_to_reend_word(bytes: &[u8], endian: &Endian) -> (r: u32)
    requires
        bytes@.len() >= 4,
    ensures
        r == word_at(bytes@, 0, *endian),
{
    let (b0, b1, b2, b3): (u8, u8, u8, u8) = match endian {
        Endian::Good => (bytes[0], bytes[1], bytes[2], bytes[3]),
        Endian::Bad => (bytes[3], bytes[2], bytes[1], bytes[0]),
        Endian::Ugly => (bytes[1], bytes[0], bytes[3], bytes[2]),
    };
    let ghost four = reend_bytes(bytes@.subrange(0, 4), *endian);
    assert(four[0] == b0 && four[1] == b1 && four[2] == b2 && four[3] == b3);
    (b0 as u32) * 0x100_0000 + (b1 as u32) * 0x1_0000 + (b2 as u32) * 0x100 + (b3 as u32)
}

/// Reads the whole words of a buffer stored in order `endian`.
pub fn read_words(data: &[u8], endian: &Endian) -> (r: Vec<u32>)
    ensures
        r@ == words_of(data@, *endian),
{
    let len = data.len();
    let n = len / 4;
    let mut out: Vec<u32> = Vec::new();
    let mut k: usize = 0;
    let mut at: usize = 0;
    while k < n
        invariant
            len == data@.len(),
            n == data@.len() / 4,
            k <= n,
            at == 4 * k,
            at <= data@.len(),
            out@ =~= words_of(data@, *endian).subrange(0, k as int),
        decreases n - k,
    {
        assert(at + 4 <= len);
        let chunk = slice_subrange(data, at, at + 4);
        let w = bytes_to_reend_word(chunk, endian);
        assert(chunk@.subrange(0, 4) =~= data@.subrange(at as int, at + 4));
        out.push(w);
        k = k + 1;
        at = at + 4;
    }
    assert(out@ =~= words_of(data@, *endian));
    out
}

/// A canonical image stored in any of the three orders is recognised by its
/// own first four bytes, and normalising it in that order gives the canonical
/// bytes back.
pub proof fn lemma_normalize_stored(c: Seq<u8>, e: Endian)
    requires
        c.len() % 4 == 0,
        c.len() >= 4,
        c.subrange(0, 4) == magic_of(Endian::Good),
    ensures
        endian_of(reend_bytes(c, e)) == Some(e),
        reend_bytes(reend_bytes(c, e), e) == c,
{
    let s = reend_bytes(c, e);
    assert forall|i: int| 0 <= i < c.len() implies 0 <= #[trigger] reend_index(i, e) < c.len()
        && reend_index(reend_index(i, e), e) == i by {}
    assert(reend_bytes(s, e) =~= c);
    let head = s.subrange(0, 4);
    assert(c[0] == 0x80 && c[1] == 0x37 && c[2] == 0x12 && c[3] == 0x40) by {
        assert(c.subrange(0, 4)[0] == c[0] && c.subrange(0, 4)[1] == c[1]);
        assert(c.subrange(0, 4)[2] == c[2] && c.subrange(0, 4)[3] == c[3]);
    }
    assert(reend_index(0, e) < 4 && reend_index(1, e) < 4 && reend_index(2, e) < 4
        && reend_index(3, e) < 4);
    match e {
        Endian::Good => {
            assert(head =~= magic_of(Endian::Good));
        },
        Endian::Bad => {
            assert(head =~= magic_of(Endian::Bad));
            assert(head != magic_of(Endian::Good)) by {
                assert(head[0] != magic_of(Endian::Good)[0]);
            }
        },
        Endian::Ugly => {
            assert(head =~= magic_of(Endian::Ugly));
            assert(head != magic_of(Endian::Good)) by {
                assert(head[0] != magic_of(Endian::Good)[0]);
            }
            assert(head != magic_of(Endian::Bad)) by {
                assert(head[0] != magic_of(Endian::Bad)[0]);
            }
        },
    }
}

/// The big-endian value of the four bytes at `at`.
pub open spec fn be_u32_at(b: Seq<u8>, at: int) -> u32 {
    be_word(b.subrange(at, at + 4))
}

/// The fixed 0x40-byte header at the start of an image, in canonical order.
#[derive(Clone, Copy, Debug)]
pub struct N64Header {
    pub pibsddomain1_register: [u8; 4],
    pub clock_rate: u32,
    pub entrypoint: u32,
    /// The low byte is the libultra version.
    pub revision: u32,
    pub checksum1: u32,
    pub checksum2: u32,
    pub unk_18: [u8; 8],
    /// The internal name, Shift-JIS text.
    pub image_name: [u8; 20],
    pub unk_34: [u8; 4],
    pub media_format: u32,
    pub cartridge_id: [u8; 2],
    pub country_code: u8,
    pub version: u8,
}

/// Whether `h` holds the fields of the canonical-order header bytes `b`.
pub open spec fn header_of(h: N64Header, b: Seq<u8>) -> bool {
    &&& h.pibsddomain1_register@ == b.subrange(0x00, 0x04)
    &&& h.clock_rate == be_u32_at(b, 0x04)
    &&& h.entrypoint == be_u32_at(b, 0x08)
    &&& h.revision == be_u32_at(b, 0x0C)
    &&& h.checksum1 == be_u32_at(b, 0x10)
    &&& h.checksum2 == be_u32_at(b, 0x14)
    &&& h.unk_18@ == b.subrange(0x18, 0x20)
    &&& h.image_name@ == b.subrange(0x20, 0x34)
    &&& h.unk_34@ == b.subrange(0x34, 0x38)
    &&& h.media_format == be_u32_at(b, 0x38)
    &&& h.cartridge_id@ == b.subrange(0x3C, 0x3E)
    &&& h.country_code == b[0x3E]
    &&& h.version == b[0x3F]
}

/// What the media-format code says, read as a character.
pub open spec fn media_format_text(code: u32) -> Option<&'static str> {
    if code == 'N' as u32 {
        Some("cartridge")
    } else if code == 'D' as u32 {
        Some("64DD disk")
    } else if code == 'C' as u32 {
        Some("cartridge part of expandable game OR GameCube")
    } else if code == 'E' as u32 {
        Some("64DD expansion for cart")
    } else if code == 'Z' as u32 {
        Some("Aleck64 cartridge")
    } else {
        None
    }
}

/// What the country-code character says.
pub open spec fn country_code_text(c: char) -> Option<&'static str> {
    match c {
        '7' => Some("Beta"),
        'A' => Some("Asian (NTSC)"),
        'B' => Some("Brazilian"),
        'C' => Some("Chinese"),
        'D' => Some("German"),
        'E' => Some("North America"),
        'F' => Some("French"),
        'G' => Some("Gateway 64 (NTSC)"),
        'H' => Some("Dutch"),
        'I' => Some("Italian"),
        'J' => Some("Japanese"),
        'K' => Some("Korean"),
        'L' => Some("Gateway 64 (PAL)"),
        'N' => Some("Canadian"),
        'P' => Some("European (basic spec.)"),
        'S' => Some("Spanish"),
        'U' => Some("Australian"),
        'W' => Some("Scandinavian"),
        'X' => Some("European"),
        'Y' => Some("European"),
        '\0' => Some("iQue roms have zeros here"),
        _ => None,
    }
}

/// Whether `x` is a Unicode scalar value.
pub open spec fn is_scalar_value(x: u32) -> bool {
    x < 0xD800 || (0xE000 <= x && x < 0x11_0000)
}

/// Relies on `char::from_u32`: the character of a Unicode scalar value, and
/// `None` for any other number.
#[verifier::external_body]
fn char_from_u32(x: u32) -> (r: Option<char>)
    ensures
        r is Some <==> is_scalar_value(x),
        r matches Some(c) ==> c as u32 == x,
{
    char::from_u32(x)
}

/// The text of a byte string decoded as Shift-JIS, or as UTF-8 or UTF-16
/// where it starts with the byte-order mark of one of those, the mark removed.
pub uninterp spec fn shift_jis_text(bytes: Seq<u8>) -> Seq<char>;

/// Relies on `encoding_rs::SHIFT_JIS.decode`, which first looks for a
/// byte-order mark: the decoded text depends on the bytes alone.
#[verifier::external_body]
fn decode_shift_jis(bytes: &[u8]) -> (r: String)
    ensures
        r@ == shift_jis_text(bytes@),
{
    encoding_rs::SHIFT_JIS.decode(bytes).0.to_string()
}

/// The text of a byte string read as UTF-8, with malformed sequences replaced.
pub uninterp spec fn utf8_lossy_text(bytes: Seq<u8>) -> Seq<char>;

/// Relies on `String::from_utf8_lossy`: the text depends on the bytes alone,
/// and ASCII bytes come out as the same characters.
#[verifier::external_body]
fn from_utf8_lossy(bytes: &[u8]) -> (r: String)
    ensures
        r@ == utf8_lossy_text(bytes@),
        (forall|i: int| 0 <= i < bytes@.len() ==> #[trigger] bytes@[i] < 0x80) ==> r@ == Seq::new(
            bytes@.len(),
            |i: int| bytes@[i] as char,
        ),
{
    String::from_utf8_lossy(bytes).to_string()
}

fn copy_bytes<const N: usize>(b: &[u8], at: usize) -> (r: [u8; N])
    requires
        at + N <= b@.len(),
    ensures
        r@ == b@.subrange(at as int, at + N),
{
    let len = b.len();
    let mut r = [0u8; N];
    let mut i: usize = 0;
    while i < N
        invariant
            len == b@.len(),
            at + N <= b@.len(),
            i <= N,
            r@.len() == N,
            forall|k: int| 0 <= k < i ==> #[trigger] r@[k] == b@[at + k],
        decreases N - i,
    {
        assert(at + i < len);
        r[i] = b[at + i];
        i = i + 1;
    }
    assert(r@ =~= b@.subrange(at as int, at + N));
    r
}

fn be_u32(b: &[u8], at: usize) -> (r: u32)
    requires
        at + 4 <= b@.len(),
    ensures
        r == be_u32_at(b@, at as int),
{
    let len = b.len();
    assert(at + 4 <= len);
    let four = slice_subrange(b, at, at + 4);
    assert(reend_bytes(four@.subrange(0, 4), Endian::Good) =~= b@.subrange(at as int, at + 4));
    bytes_to_reend_word(four, &Endian::Good)
}

impl N64Header {
    fn new(
        pibsddomain1_register: [u8; 4],
        clock_rate: u32,
        entrypoint: u32,
        revision: u32,
        checksum1: u32,
        checksum2: u32,
        unk_18: [u8; 8],
        image_name: [u8; 20],
        unk_34: [u8; 4],
        media_format: u32,
        cartridge_id: [u8; 2],
        country_code: u8,
        version: u8,
    ) -> (r: N64Header)
        ensures
            r.pibsddomain1_register == pibsddomain1_register,
            r.clock_rate == clock_rate,
            r.entrypoint == entrypoint,
            r.revision == revision,
            r.checksum1 == checksum1,
            r.checksum2 == checksum2,
            r.unk_18 == unk_18,
            r.image_name == image_name,
            r.unk_34 == unk_34,
            r.media_format == media_format,
            r.cartridge_id == cartridge_id,
            r.country_code == country_code,
            r.version == version,
    {
        N64Header {
            pibsddomain1_register,
            clock_rate,
            entrypoint,
            revision,
            checksum1,
            checksum2,
            unk_18,
            image_name,
            unk_34,
            media_format,
            cartridge_id,
            country_code,
            version,
        }
    }

    /// The entrypoint that the header claims.
    pub fn entrypoint(&self) -> (r: u32)
        ensures
            r == self.entrypoint,
    {
        self.entrypoint
    }

    /// The libultra version: the character of the revision's low byte.
    pub fn libultra_version(&self) -> (r: Option<char>)
        ensures
            r == Some(((self.revision & 0xFF) as u8) as char),
    {
        Some(((self.revision & 0xFF) as u8) as char)
    }

    /// The internal name, decoded from Shift-JIS.
    pub fn image_name(&self) -> (r: String)
        ensures
            r@ == shift_jis_text(self.image_name@),
    {
        decode_shift_jis(self.image_name.as_slice())
    }

    /// The media-format character, where the code is a character at all.
    pub fn media_format(&self) -> (r: Option<char>)
        ensures
            r is Some <==> is_scalar_value(self.media_format),
            r matches Some(c) ==> c as u32 == self.media_format,
    {
        char_from_u32(self.media_format)
    }

    pub fn cartridge_id(&self) -> (r: String)
        ensures
            r@ == utf8_lossy_text(self.cartridge_id@),
    {
        from_utf8_lossy(self.cartridge_id.as_slice())
    }

    pub fn country_code(&self) -> (r: char)
        ensures
            r == self.country_code as char,
    {
        self.country_code as char
    }

    pub fn checksum(&self) -> (r: (u32, u32))
        ensures
            r == (self.checksum1, self.checksum2),
    {
        (self.checksum1, self.checksum2)
    }

    pub fn media_format_description(&self) -> (r: Result<&'static str, &'static str>)
        ensures
            r == match media_format_text(self.media_format) {
                Some(d) => Ok::<&'static str, &'static str>(d),
                None => Err("Unrecognised media format"),
            },
    {
        let code = self.media_format;
        if code == 'N' as u32 {
            Ok("cartridge")
        } else if code == 'D' as u32 {
            Ok("64DD disk")
        } else if code == 'C' as u32 {
            Ok("cartridge part of expandable game OR GameCube")
        } else if code == 'E' as u32 {
            Ok("64DD expansion for cart")
        } else if code == 'Z' as u32 {
            Ok("Aleck64 cartridge")
        } else {
            Err("Unrecognised media format")
        }
    }

    pub fn country_code_description(&self) -> (r: Result<&'static str, &'static str>)
        ensures
            r == match country_code_text(self.country_code as char) {
                Some(d) => Ok::<&'static str, &'static str>(d),
                None => Err("Unrecognised country code"),
            },
    {
        match self.country_code() {
            '7' => Ok("Beta"),
            'A' => Ok("Asian (NTSC)"),
            'B' => Ok("Brazilian"),
            'C' => Ok("Chinese"),
            'D' => Ok("German"),
            'E' => Ok("North America"),
            'F' => Ok("French"),
            'G' => Ok("Gateway 64 (NTSC)"),
            'H' => Ok("Dutch"),
            'I' => Ok("Italian"),
            'J' => Ok("Japanese"),
            'K' => Ok("Korean"),
            'L' => Ok("Gateway 64 (PAL)"),
            'N' => Ok("Canadian"),
            'P' => Ok("European (basic spec.)"),
            'S' => Ok("Spanish"),
            'U' => Ok("Australian"),
            'W' => Ok("Scandinavian"),
            'X' => Ok("European"),
            'Y' => Ok("European"),
            '\0' => Ok("iQue roms have zeros here"),
            _ => Err("Unrecognised country code"),
        }
    }
}

/// Parses the header from the first 0x40 bytes of a canonical-order image.
pub fn read_header(bytes: &[u8]) -> (r: Result<N64Header, RomError>)
    ensures
        bytes@.len() < 0x40 <==> r is Err,
        r matches Err(e) ==> e == RomError::Truncated,
        r matches Ok(h) ==> header_of(h, bytes@),
{
    if bytes.len() < 0x40 {
        return Err(RomError::Truncated);
    }
    Ok(
        N64Header::new(
            copy_bytes(bytes, 0x00),
            be_u32(bytes, 0x04),
            be_u32(bytes, 0x08),
            be_u32(bytes, 0x0C),
            be_u32(bytes, 0x10),
            be_u32(bytes, 0x14),
            copy_bytes(bytes, 0x18),
            copy_bytes(bytes, 0x20),
            copy_bytes(bytes, 0x34),
            be_u32(bytes, 0x38),
            copy_bytes(bytes, 0x3C),
            bytes[0x3E],
            bytes[0x3F],
        ),
    )
}

} // verus!

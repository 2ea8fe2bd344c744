use vstd::prelude::*;
use vstd::arithmetic::power2::lemma2_to64;
use vstd::arithmetic::power2::lemma_pow2_strictly_increases;
use vstd::arithmetic::power2::pow2;

use crate::error::GifError;
use crate::parser::GifBuffer;
use crate::parser::le16_at;

verus! {

/// ASCII uppercasing of one byte: lowercase letters lose 0x20, everything
/// else is unchanged.
pub open spec fn ascii_upper(b: u8) -> u8 {
    if 97 <= b && b <= 122 {
        (b - 32) as u8
    } else {
        b
    }
}

/// The three bytes at `i` spell "GIF" up to ASCII case.
pub open spec fn magic_ok_at(s: Seq<u8>, i: int) -> bool
    recommends
        0 <= i,
        i + 3 <= s.len(),
{
    &&& ascii_upper(s[i]) == 71
    &&& ascii_upper(s[i + 1]) == 73
    &&& ascii_upper(s[i + 2]) == 70
}

/// The version a three-byte sequence names: "87a", "89a", or nothing.
pub open spec fn version_of(s: Seq<u8>) -> Option<GifVersion> {
    if s.len() == 3 && s[0] == 56 && s[1] == 55 && s[2] == 97 {
        Some(GifVersion::GIF87a)
    } else if s.len() == 3 && s[0] == 56 && s[1] == 57 && s[2] == 97 {
        Some(GifVersion::GIF89a)
    } else {
        None
    }
}

/// The version enumeration carried by the six-byte signature.
#[derive(Debug, Clone, Copy, PartialEq, Eq, Structural)]
pub enum GifVersion {
    GIF89a,
    GIF87a,
}

impl GifVersion {
    /// The three bytes that spell this version in a stream.
    pub fn version_bytes(&self) -> (r: Vec<u8>)
        ensures
            version_of(r@) == Some(*self),
    {
        match self {
            GifVersion::GIF87a => vec![56u8, 55u8, 97u8],
            GifVersion::GIF89a => vec![56u8, 57u8, 97u8],
        }
    }

    /// Maps three version bytes to the enumeration; anything other than
    /// "87a" or "89a" is `UnsupportedVersion`.
    pub fn from_bytes(bytes: &Vec<u8>) -> (r: Result<GifVersion, GifError>)
        ensures
            r == (match version_of(bytes@) {
                Some(v) => Ok::<GifVersion, GifError>(v),
                None => Err::<GifVersion, GifError>(GifError::UnsupportedVersion),
            }),
    {
        if bytes.len() == 3 && bytes[0] == 56 && bytes[1] == 55 && bytes[2] == 97 {
            Ok(GifVersion::GIF87a)
        } else if bytes.len() == 3 && bytes[0] == 56 && bytes[1] == 57 && bytes[2] == 97 {
            Ok(GifVersion::GIF89a)
        } else {
            Err(GifError::UnsupportedVersion)
        }
    }
}

/// The six-byte stream signature: the "GIF" tag, normalized to uppercase,
/// and the version that follows it.
#[derive(Debug, PartialEq, Eq)]
pub struct GifSignature {
    pub magic: Vec<u8>,
    pub version: GifVersion,
}

impl GifSignature {
    /// Decodes the six-byte signature. The first three bytes must spell
    /// "GIF" up to ASCII case, else `InvalidSignature`; the next three must
    /// name a known version, else `UnsupportedVersion`. On failure the
    /// cursor stands exactly after the bytes that were read before the
    /// check failed.
    pub fn parse(buf: &mut GifBuffer) -> (r: Result<GifSignature, GifError>)
        requires
            old(buf).wf(),
        ensures
            final(buf).wf(),
            final(buf).buffer@ == old(buf).buffer@,
            final(buf).size == old(buf).size,
            match r {
                Ok(sig) => {
                    &&& old(buf).remaining() >= 6
                    &&& magic_ok_at(old(buf).buffer@, old(buf).pointer as int)
                    &&& sig.magic@ == seq![71u8, 73u8, 70u8]
                    &&& Some(sig.version) == version_of(
                        old(buf).buffer@.subrange(
                            old(buf).pointer + 3,
                            old(buf).pointer + 6,
                        ),
                    )
                    &&& final(buf).pointer == old(buf).pointer + 6
                },
                Err(e) => {
                    ||| {
                        &&& e == GifError::BufferUnderrun
                        &&& old(buf).remaining() < 3
                        &&& final(buf).pointer == old(buf).pointer
                    }
                    ||| {
                        &&& e == GifError::InvalidSignature
                        &&& old(buf).remaining() >= 3
                        &&& !magic_ok_at(old(buf).buffer@, old(buf).pointer as int)
                        &&& final(buf).pointer == old(buf).pointer + 3
                    }
                    ||| {
                        &&& e == GifError::BufferUnderrun
                        &&& 3 <= old(buf).remaining() < 6
                        &&& magic_ok_at(old(buf).buffer@, old(buf).pointer as int)
                        &&& final(buf).pointer == old(buf).pointer + 3
                    }
                    ||| {
                        &&& e == GifError::UnsupportedVersion
                        &&& old(buf).remaining() >= 6
                        &&& magic_ok_at(old(buf).buffer@, old(buf).pointer as int)
                        &&& version_of(
                            old(buf).buffer@.subrange(
                                old(buf).pointer + 3,
                                old(buf).pointer + 6,
                            ),
                        ) is None
                        &&& final(buf).pointer == old(buf).pointer + 3 + 3
                    }
                },
            },
    {
        let raw_magic = match buf.read_slice(3) {
            Ok(v) => v,
            Err(e) => {
                return Err(e);
            },
        };
        let m0 = ascii_to_upper(raw_magic[0]);
        let m1 = ascii_to_upper(raw_magic[1]);
        let m2 = ascii_to_upper(raw_magic[2]);
        if !(m0 == 71 && m1 == 73 && m2 == 70) {
            return Err(GifError::InvalidSignature);
        }
        let raw_version = match buf.read_slice(3) {
            Ok(v) => v,
            Err(e) => {
                return Err(e);
            },
        };
        let version = match GifVersion::from_bytes(&raw_version) {
            Ok(v) => v,
            Err(e) => {
                return Err(e);
            },
        };
        let magic = vec![m0, m1, m2];
        Ok(GifSignature { magic, version })
    }
}

/// The bit-split of a logical screen descriptor packed-fields byte:
/// bit 7 the global-color-table flag, bits 6-4 the color resolution minus
/// one, bit 3 the sort flag, bits 2-0 the table size exponent minus one.
pub open spec fn lsd_packed_of(b: u8) -> LSDPackedFields {
    LSDPackedFields {
        global_color_table_flag: (b >> 7) & 1 == 1,
        color_resolution: (((b >> 4) & 7) + 1) as u8,
        sort_flag: (b >> 3) & 1 == 1,
        global_color_table_size: ((b & 7) + 1) as u8,
    }
}

/// Re-encoding of logical screen descriptor packed fields into one byte,
/// the inverse of `lsd_packed_of`.
pub open spec fn lsd_packed_byte(p: LSDPackedFields) -> u8 {
    (if p.global_color_table_flag {
        128u8
    } else {
        0u8
    }) | (((p.color_resolution - 1) as u8) << 4) | (if p.sort_flag {
        8u8
    } else {
        0u8
    }) | ((p.global_color_table_size - 1) as u8)
}

/// The packed-fields byte of a logical screen descriptor, bit-split into
/// its components. The two numeric fields are stored already incremented
/// by one from their raw three-bit values.
#[derive(Debug, Clone, Copy, PartialEq, Eq, Structural)]
pub struct LSDPackedFields {
    /// Whether a global color table immediately follows the logical screen
    /// descriptor (bit 7 of the packed byte).
    pub global_color_table_flag: bool,
    /// Bits per primary color available to the original image (bits 6-4,
    /// plus one).
    pub color_resolution: u8,
    /// Whether the global color table is ordered by decreasing importance
    /// (bit 3).
    pub sort_flag: bool,
    /// Exponent giving the global color table's entry count (bits 2-0,
    /// plus one): the table holds `3 * 2^exponent` bytes.
    pub global_color_table_size: u8,
}

impl LSDPackedFields {
    /// Both numeric fields carry a raw three-bit value incremented by one.
    pub open spec fn wf(&self) -> bool {
        &&& 1 <= self.color_resolution <= 8
        &&& 1 <= self.global_color_table_size <= 8
    }

    /// Bit-splits one packed byte into its components.
    pub fn from_byte(b: u8) -> (r: LSDPackedFields)
        ensures
            r == lsd_packed_of(b),
            r.global_color_table_flag == ((b >> 7) & 1 == 1),
            r.color_resolution == ((b >> 4) & 7) + 1,
            r.sort_flag == ((b >> 3) & 1 == 1),
            r.global_color_table_size == (b & 7) + 1,
            r.wf(),
    {
        proof {
            assert((b >> 4) & 7 <= 7 && (b & 7) <= 7) by (bit_vector);
        }
        LSDPackedFields {
            global_color_table_flag: (b >> 7) & 1 == 1,
            color_resolution: ((b >> 4) & 7) + 1,
            sort_flag: (b >> 3) & 1 == 1,
            global_color_table_size: (b & 7) + 1,
        }
    }

    /// Re-encodes the components into the packed byte they came from.
    pub fn to_byte(&self) -> (r: u8)
        requires
            self.wf(),
        ensures
            r == lsd_packed_byte(*self),
    {
        (if self.global_color_table_flag {
            128u8
        } else {
            0u8
        }) | ((self.color_resolution - 1) << 4) | (if self.sort_flag {
            8u8
        } else {
            0u8
        }) | (self.global_color_table_size - 1)
    }

    /// Reads one byte from the cursor and bit-splits it.
    pub fn parse(buf: &mut GifBuffer) -> (r: Result<LSDPackedFields, GifError>)
        requires
            old(buf).wf(),
        ensures
            final(buf).wf(),
            final(buf).buffer@ == old(buf).buffer@,
            final(buf).size == old(buf).size,
            match r {
                Ok(p) => {
                    &&& old(buf).remaining() >= 1
                    &&& p == lsd_packed_of(old(buf).buffer@[old(buf).pointer as int])
                    &&& p.wf()
                    &&& final(buf).pointer == old(buf).pointer + 1
                },
                Err(e) => {
                    &&& e == GifError::BufferUnderrun
                    &&& old(buf).remaining() == 0
                    &&& final(buf).pointer == old(buf).pointer
                },
            },
    {
        let b = match buf.read_u8() {
            Ok(v) => v,
            Err(e) => {
                return Err(e);
            },
        };
        Ok(LSDPackedFields::from_byte(b))
    }
}

/// Bit-splitting a logical screen descriptor packed byte is lossless: all
/// eight bits land in some component, so re-encoding the components
/// reproduces the byte.
pub proof fn lemma_lsd_packed_round_trip(b: u8)
    ensures
        lsd_packed_of(b).wf(),
        lsd_packed_byte(lsd_packed_of(b)) == b,
{
    assert((b >> 4) & 7 <= 7 && (b & 7) <= 7) by (bit_vector);
    assert(((if (b >> 7) & 1 == 1 {
        128u8
    } else {
        0u8
    }) | (((b >> 4) & 7) << 4) | (if (b >> 3) & 1 == 1 {
        8u8
    } else {
        0u8
    }) | (b & 7)) == b) by (bit_vector);
}

/// The bit-split of an image descriptor packed-fields byte: bit 7 the
/// local-color-table flag, bit 6 the interlace flag, bit 5 the sort flag,
/// bits 4-3 the reserved pair, bits 2-0 the table size exponent minus
/// one. Every bit lands in exactly one component.
pub open spec fn id_packed_of(b: u8) -> IDPackedFields {
    IDPackedFields {
        local_color_table_flag: (b >> 7) & 1 == 1,
        interlace_flag: (b >> 6) & 1 == 1,
        sort_flag: (b >> 5) & 1 == 1,
        reserved: (b >> 3) & 3,
        local_color_table_size: ((b & 7) + 1) as u8,
    }
}

/// Re-encoding of image descriptor packed fields into one byte, the
/// inverse of `id_packed_of`.
pub open spec fn id_packed_byte(p: IDPackedFields) -> u8 {
    (if p.local_color_table_flag {
        128u8
    } else {
        0u8
    }) | (if p.interlace_flag {
        64u8
    } else {
        0u8
    }) | (if p.sort_flag {
        32u8
    } else {
        0u8
    }) | (p.reserved << 3) | ((p.local_color_table_size - 1) as u8)
}

/// The packed-fields byte of an image descriptor, bit-split into its
/// components. The size field is stored already incremented by one from
/// its raw three-bit value.
#[derive(Debug, Clone, Copy, PartialEq, Eq, Structural)]
pub struct IDPackedFields {
    /// Whether a local color table immediately follows the image
    /// descriptor (bit 7 of the packed byte).
    pub local_color_table_flag: bool,
    /// Whether the image is stored in interlaced order (bit 6).
    pub interlace_flag: bool,
    /// Whether the local color table is ordered by decreasing importance
    /// (bit 5).
    pub sort_flag: bool,
    /// The two-bit pair reserved for future definition (bits 4-3).
    pub reserved: u8,
    /// Exponent giving the local color table's entry count (bits 2-0, plus
    /// one).
    pub local_color_table_size: u8,
}

impl IDPackedFields {
    /// The reserved pair is two bits wide and the size field carries a raw
    /// three-bit value incremented by one.
    pub open spec fn wf(&self) -> bool {
        &&& self.reserved <= 3
        &&& 1 <= self.local_color_table_size <= 8
    }

    /// Bit-splits one packed byte into its components.
    pub fn from_byte(b: u8) -> (r: IDPackedFields)
        ensures
            r == id_packed_of(b),
            r.local_color_table_flag == ((b >> 7) & 1 == 1),
            r.interlace_flag == ((b >> 6) & 1 == 1),
            r.sort_flag == ((b >> 5) & 1 == 1),
            r.reserved == (b >> 3) & 3,
            r.local_color_table_size == (b & 7) + 1,
            r.wf(),
    {
        proof {
            assert((b >> 3) & 3 <= 3 && (b & 7) <= 7) by (bit_vector);
        }
        IDPackedFields {
            local_color_table_flag: (b >> 7) & 1 == 1,
            interlace_flag: (b >> 6) & 1 == 1,
            sort_flag: (b >> 5) & 1 == 1,
            reserved: (b >> 3) & 3,
            local_color_table_size: (b & 7) + 1,
        }
    }

    /// Re-encodes the components into the packed byte they came from.
    pub fn to_byte(&self) -> (r: u8)
        requires
            self.wf(),
        ensures
            r == id_packed_byte(*self),
    {
        (if self.local_color_table_flag {
            128u8
        } else {
            0u8
        }) | (if self.interlace_flag {
            64u8
        } else {
            0u8
        }) | (if self.sort_flag {
            32u8
        } else {
            0u8
        }) | (self.reserved << 3) | (self.local_color_table_size - 1)
    }

    /// Reads one byte from the cursor and bit-splits it.
    pub fn parse(buf: &mut GifBuffer) -> (r: Result<IDPackedFields, GifError>)
        requires
            old(buf).wf(),
        ensures
            final(buf).wf(),
            final(buf).buffer@ == old(buf).buffer@,
            final(buf).size == old(buf).size,
            match r {
                Ok(p) => {
                    &&& old(buf).remaining() >= 1
                    &&& p == id_packed_of(old(buf).buffer@[old(buf).pointer as int])
                    &&& p.wf()
                    &&& final(buf).pointer == old(buf).pointer + 1
                },
                Err(e) => {
                    &&& e == GifError::BufferUnderrun
                    &&& old(buf).remaining() == 0
                    &&& final(buf).pointer == old(buf).pointer
                },
            },
    {
        let b = match buf.read_u8() {
            Ok(v) => v,
            Err(e) => {
                return Err(e);
            },
        };
        Ok(IDPackedFields::from_byte(b))
    }
}

/// Bit-splitting an image descriptor packed byte is lossless: all eight
/// bits land in some component, so re-encoding the components reproduces
/// the byte.
pub proof fn lemma_id_packed_round_trip(b: u8)
    ensures
        id_packed_of(b).wf(),
        id_packed_byte(id_packed_of(b)) == b,
{
    assert((b >> 3) & 3 <= 3 && (b & 7) <= 7) by (bit_vector);
    assert(((if (b >> 7) & 1 == 1 {
        128u8
    } else {
        0u8
    }) | (if (b >> 6) & 1 == 1 {
        64u8
    } else {
        0u8
    }) | (if (b >> 5) & 1 == 1 {
        32u8
    } else {
        0u8
    }) | (((b >> 3) & 3) << 3) | (b & 7)) == b) by (bit_vector);
}

/// The logical screen descriptor spelled by the seven bytes at `i`: two
/// little-endian sizes, the packed-fields byte, the background color
/// index, and the pixel aspect ratio, in that order.
pub open spec fn lsd_of(s: Seq<u8>, i: int) -> LogicalScreenDescriptor
    recommends
        0 <= i,
        i + 7 <= s.len(),
{
    LogicalScreenDescriptor {
        logical_screen_width: le16_at(s, i),
        logical_screen_height: le16_at(s, i + 2),
        packed_fields: lsd_packed_of(s[i + 4]),
        background_color_index: s[i + 5],
        pixel_aspect_ratio: s[i + 6],
    }
}

/// The logical screen descriptor: the screen's extent, the packed flag
/// byte, the background color index, and the pixel aspect ratio.
#[derive(Debug, Clone, Copy, PartialEq, Eq, Structural)]
pub struct LogicalScreenDescriptor {
    /// Raster width of the logical screen in pixels (read low byte first).
    pub logical_screen_width: u16,
    /// Raster height of the logical screen in pixels (read low byte
    /// first).
    pub logical_screen_height: u16,
    /// The bit-split packed-fields byte.
    pub packed_fields: LSDPackedFields,
    /// Index into the global color table for the background color;
    /// meaningful only when that table is present.
    pub background_color_index: u8,
    /// Factor approximating the pixel aspect ratio, or zero when none is
    /// given.
    pub pixel_aspect_ratio: u8,
}

impl LogicalScreenDescriptor {
    /// Consumes the seven-byte logical screen descriptor record. Every
    /// byte value is legal, so the only failure is running out of bytes,
    /// which leaves the cursor where it stood.
    pub fn parse(buf: &mut GifBuffer) -> (r: Result<LogicalScreenDescriptor, GifError>)
        requires
            old(buf).wf(),
        ensures
            final(buf).wf(),
            final(buf).buffer@ == old(buf).buffer@,
            final(buf).size == old(buf).size,
            match r {
                Ok(d) => {
                    &&& old(buf).remaining() >= 7
                    &&& d == lsd_of(old(buf).buffer@, old(buf).pointer as int)
                    &&& d.packed_fields.wf()
                    &&& final(buf).pointer == old(buf).pointer + 7
                },
                Err(e) => {
                    &&& e == GifError::BufferUnderrun
                    &&& old(buf).remaining() < 7
                    &&& final(buf).pointer == old(buf).pointer
                },
            },
    {
        if buf.get_size() - buf.get_pointer() < 7 {
            return Err(GifError::BufferUnderrun);
        }
        let logical_screen_width = match buf.read_le_u16() {
            Ok(v) => v,
            Err(e) => {
                return Err(e);
            },
        };
        let logical_screen_height = match buf.read_le_u16() {
            Ok(v) => v,
            Err(e) => {
                return Err(e);
            },
        };
        let packed_fields = match LSDPackedFields::parse(buf) {
            Ok(v) => v,
            Err(e) => {
                return Err(e);
            },
        };
        let background_color_index = match buf.read_u8() {
            Ok(v) => v,
            Err(e) => {
                return Err(e);
            },
        };
        let pixel_aspect_ratio = match buf.read_u8() {
            Ok(v) => v,
            Err(e) => {
                return Err(e);
            },
        };
        Ok(LogicalScreenDescriptor {
            logical_screen_width,
            logical_screen_height,
            packed_fields,
            background_color_index,
            pixel_aspect_ratio,
        })
    }
}

/// The number of bytes a color table with the given size exponent holds:
/// three bytes (one red-green-blue triplet) for each of `2^exponent`
/// entries.
pub open spec fn color_table_byte_len(exponent: u8) -> int {
    3 * pow2(exponent as nat) as int
}

/// The intensity transform this decoder applies to each raw color table
/// byte: scale by `255 / (2^exponent - 1)` and keep the low eight bits of
/// the quotient.
pub open spec fn scale_intensity(raw: u8, exponent: u8) -> u8
    recommends
        1 <= exponent <= 8,
{
    (((raw * 255) / (pow2(exponent as nat) - 1)) % 256) as u8
}

/// The global color table: the intensity-scaled red-green-blue bytes and
/// their declared count.
#[derive(Debug, PartialEq, Eq)]
pub struct GlobalColorMap {
    /// The scaled bytes, red, green and blue interleaved.
    pub intensities: Vec<u8>,
    /// The declared byte count, always the length of `intensities`.
    pub size: usize,
}

impl GlobalColorMap {
    /// Conditionally consumes the global color table. When the screen
    /// descriptor's flag is clear, nothing is read and no table is
    /// produced; when it is set, `3 * 2^exponent` bytes are read and each
    /// is intensity-scaled before being stored.
    pub fn parse(buf: &mut GifBuffer, screen_descriptor: &LogicalScreenDescriptor) -> (r: Result<
        Option<GlobalColorMap>,
        GifError,
    >)
        requires
            old(buf).wf(),
            screen_descriptor.packed_fields.wf(),
        ensures
            final(buf).wf(),
            final(buf).buffer@ == old(buf).buffer@,
            final(buf).size == old(buf).size,
            match r {
                Ok(None) => {
                    &&& !screen_descriptor.packed_fields.global_color_table_flag
                    &&& final(buf).pointer == old(buf).pointer
                },
                Ok(Some(m)) => {
                    &&& screen_descriptor.packed_fields.global_color_table_flag
                    &&& old(buf).remaining() >= color_table_byte_len(
                        screen_descriptor.packed_fields.global_color_table_size,
                    )
                    &&& m.size == color_table_byte_len(
                        screen_descriptor.packed_fields.global_color_table_size,
                    )
                    &&& m.intensities@.len() == m.size
                    &&& (forall|j: int|
                        0 <= j < m.size ==> m.intensities@[j] == scale_intensity(
                            old(buf).buffer@[old(buf).pointer + j],
                            screen_descriptor.packed_fields.global_color_table_size,
                        ))
                    &&& final(buf).pointer == old(buf).pointer + m.size
                },
                Err(e) => {
                    &&& e == GifError::BufferUnderrun
                    &&& screen_descriptor.packed_fields.global_color_table_flag
                    &&& old(buf).remaining() < color_table_byte_len(
                        screen_descriptor.packed_fields.global_color_table_size,
                    )
                    &&& final(buf).pointer == old(buf).pointer
                },
            },
    {
        if !screen_descriptor.packed_fields.global_color_table_flag {
            return Ok(None);
        }
        let pixel = screen_descriptor.packed_fields.global_color_table_size;
        let entries = pow2_exec(pixel);
        proof {
            lemma_pow2_strictly_increases(0, pixel as nat);
            lemma_pow2_strictly_increases(pixel as nat, 9);
            lemma2_to64();
        }
        let size: usize = 3 * entries;
        let raw = match buf.read_slice(size) {
            Ok(v) => v,
            Err(e) => {
                return Err(e);
            },
        };
        let divisor: u32 = (entries - 1) as u32;
        let mut intensities: Vec<u8> = Vec::new();
        let mut i: usize = 0;
        while i < size
            invariant
                i <= size,
                raw@.len() == size,
                1 <= pixel <= 8,
                divisor == pow2(pixel as nat) - 1,
                divisor >= 1,
                intensities@.len() == i,
                forall|j: int|
                    0 <= j < i ==> intensities@[j] == scale_intensity(raw@[j], pixel),
            decreases size - i,
        {
            let v: u32 = (raw[i] as u32 * 255) / divisor;
            let b: u8 = #[verifier::truncate] (v as u8);
            proof {
                assert(v as u8 == v % 256) by (bit_vector);
            }
            intensities.push(b);
            i = i + 1;
        }
        Ok(Some(GlobalColorMap { intensities, size }))
    }
}

/// Two raised to a small exponent, as a machine integer.
fn pow2_exec(e: u8) -> (r: usize)
    requires
        e <= 8,
    ensures
        r == pow2(e as nat),
{
    proof {
        lemma2_to64();
    }
    match e {
        0 => 1,
        1 => 2,
        2 => 4,
        3 => 8,
        4 => 16,
        5 => 32,
        6 => 64,
        7 => 128,
        _ => 256,
    }
}

/// The image descriptor spelled by the ten bytes at `i`: the 0x2C
/// separator, four little-endian position and size fields, and the packed
/// byte. The separator itself is checked separately and not stored.
pub open spec fn image_descriptor_of(s: Seq<u8>, i: int) -> ImageDescriptor
    recommends
        0 <= i,
        i + 10 <= s.len(),
{
    ImageDescriptor {
        image_left: le16_at(s, i + 1),
        image_top: le16_at(s, i + 3),
        image_width: le16_at(s, i + 5),
        image_height: le16_at(s, i + 7),
        packed_fields: id_packed_of(s[i + 9]),
    }
}

/// One image's descriptor: its placement on the logical screen, its
/// extent, and its bit-split packed-fields byte. The record begins with a
/// 0x2C separator byte in the stream.
#[derive(Debug, Clone, Copy, PartialEq, Eq, Structural)]
pub struct ImageDescriptor {
    /// Column of the image's left edge within the logical screen.
    pub image_left: u16,
    /// Row of the image's top edge within the logical screen.
    pub image_top: u16,
    /// Width of the image in pixels.
    pub image_width: u16,
    /// Height of the image in pixels.
    pub image_height: u16,
    /// The bit-split packed-fields byte.
    pub packed_fields: IDPackedFields,
}

impl ImageDescriptor {
    /// Consumes the ten-byte image descriptor record. The leading byte
    /// must be the 0x2C separator; when it is not, exactly that one byte
    /// has been consumed and no further read is attempted.
    pub fn parse(buf: &mut GifBuffer) -> (r: Result<ImageDescriptor, GifError>)
        requires
            old(buf).wf(),
        ensures
            final(buf).wf(),
            final(buf).buffer@ == old(buf).buffer@,
            final(buf).size == old(buf).size,
            match r {
                Ok(d) => {
                    &&& old(buf).remaining() >= 10
                    &&& old(buf).buffer@[old(buf).pointer as int] == 0x2C
                    &&& d == image_descriptor_of(old(buf).buffer@, old(buf).pointer as int)
                    &&& d.packed_fields.wf()
                    &&& final(buf).pointer == old(buf).pointer + 10
                },
                Err(e) => {
                    ||| {
                        &&& e == GifError::BufferUnderrun
                        &&& old(buf).remaining() == 0
                        &&& final(buf).pointer == old(buf).pointer
                    }
                    ||| {
                        &&& e == GifError::InvalidImageSeparator
                        &&& old(buf).remaining() >= 1
                        &&& old(buf).buffer@[old(buf).pointer as int] != 0x2C
                        &&& final(buf).pointer == old(buf).pointer + 1
                    }
                    ||| {
                        &&& e == GifError::BufferUnderrun
                        &&& 1 <= old(buf).remaining() < 10
                        &&& old(buf).buffer@[old(buf).pointer as int] == 0x2C
                        &&& final(buf).pointer == old(buf).pointer + 1
                    }
                },
            },
    {
        let image_separator = match buf.read_u8() {
            Ok(v) => v,
            Err(e) => {
                return Err(e);
            },
        };
        if image_separator != 0x2C {
            return Err(GifError::InvalidImageSeparator);
        }
        if buf.get_size() - buf.get_pointer() < 9 {
            return Err(GifError::BufferUnderrun);
        }
        let image_left = match buf.read_le_u16() {
            Ok(v) => v,
            Err(e) => {
                return Err(e);
            },
        };
        let image_top = match buf.read_le_u16() {
            Ok(v) => v,
            Err(e) => {
                return Err(e);
            },
        };
        let image_width = match buf.read_le_u16() {
            Ok(v) => v,
            Err(e) => {
                return Err(e);
            },
        };
        let image_height = match buf.read_le_u16() {
            Ok(v) => v,
            Err(e) => {
                return Err(e);
            },
        };
        let packed_fields = match IDPackedFields::parse(buf) {
            Ok(v) => v,
            Err(e) => {
                return Err(e);
            },
        };
        Ok(ImageDescriptor {
            image_left,
            image_top,
            image_width,
            image_height,
            packed_fields,
        })
    }
}

/// Placeholder for a local color table. Its payload is deliberately not
/// decoded: only its presence, mirrored from the image descriptor's flag,
/// is recorded, and no payload bytes are consumed.
#[derive(Debug, Clone, Copy, PartialEq, Eq, Structural)]
pub struct LocalColorMap {}

impl LocalColorMap {
    /// Produces the presence marker: a table exactly when the image
    /// descriptor's local-color-table flag is set. The cursor is not
    /// touched.
    pub fn parse(_buf: &mut GifBuffer, image_descriptor: &ImageDescriptor) -> (r: Option<
        LocalColorMap,
    >)
        ensures
            *final(_buf) == *old(_buf),
            r is Some <==> image_descriptor.packed_fields.local_color_table_flag,
    {
        if !image_descriptor.packed_fields.local_color_table_flag {
            return None;
        }
        Some(LocalColorMap {})
    }
}

/// Placeholder for the raster image data. Its payload is deliberately not
/// decoded: only whether the image is interlaced is recorded.
#[derive(Debug, Clone, Copy, PartialEq, Eq, Structural)]
pub struct RasterData {
    /// Whether the associated image is stored in interlaced order,
    /// mirrored from the image descriptor's flag.
    pub interlaced: bool,
}

impl RasterData {
    /// Produces the raster placeholder, capturing the interlace flag. The
    /// cursor is not touched.
    pub fn parse(_buf: &mut GifBuffer, image_descriptor: &ImageDescriptor) -> (r: RasterData)
        ensures
            *final(_buf) == *old(_buf),
            r.interlaced == image_descriptor.packed_fields.interlace_flag,
    {
        RasterData { interlaced: image_descriptor.packed_fields.interlace_flag }
    }
}

/// The per-image unit: an image descriptor, its optional local color
/// table marker, and its raster data placeholder.
#[derive(Debug, Clone, Copy, PartialEq, Eq, Structural)]
pub struct DescriptorGroup {
    pub image_descriptor: ImageDescriptor,
    pub local_color_map: Option<LocalColorMap>,
    pub raster_data: RasterData,
}

impl DescriptorGroup {
    /// Decodes one image descriptor and assembles it with its local color
    /// table marker and raster placeholder; only the descriptor's ten
    /// bytes are consumed.
    pub fn parse(buf: &mut GifBuffer) -> (r: Result<DescriptorGroup, GifError>)
        requires
            old(buf).wf(),
        ensures
            final(buf).wf(),
            final(buf).buffer@ == old(buf).buffer@,
            final(buf).size == old(buf).size,
            match r {
                Ok(g) => {
                    &&& old(buf).remaining() >= 10
                    &&& old(buf).buffer@[old(buf).pointer as int] == 0x2C
                    &&& g.image_descriptor == image_descriptor_of(
                        old(buf).buffer@,
                        old(buf).pointer as int,
                    )
                    &&& g.image_descriptor.packed_fields.wf()
                    &&& (g.local_color_map is Some
                        <==> g.image_descriptor.packed_fields.local_color_table_flag)
                    &&& g.raster_data.interlaced
                        == g.image_descriptor.packed_fields.interlace_flag
                    &&& final(buf).pointer == old(buf).pointer + 10
                },
                Err(e) => {
                    ||| {
                        &&& e == GifError::BufferUnderrun
                        &&& old(buf).remaining() == 0
                        &&& final(buf).pointer == old(buf).pointer
                    }
                    ||| {
                        &&& e == GifError::InvalidImageSeparator
                        &&& old(buf).remaining() >= 1
                        &&& old(buf).buffer@[old(buf).pointer as int] != 0x2C
                        &&& final(buf).pointer == old(buf).pointer + 1
                    }
                    ||| {
                        &&& e == GifError::BufferUnderrun
                        &&& 1 <= old(buf).remaining() < 10
                        &&& old(buf).buffer@[old(buf).pointer as int] == 0x2C
                        &&& final(buf).pointer == old(buf).pointer + 1
                    }
                },
            },
    {
        let image_descriptor = match ImageDescriptor::parse(buf) {
            Ok(v) => v,
            Err(e) => {
                return Err(e);
            },
        };
        let local_color_map = LocalColorMap::parse(buf, &image_descriptor);
        let raster_data = RasterData::parse(buf, &image_descriptor);
        Ok(DescriptorGroup { image_descriptor, local_color_map, raster_data })
    }
}

/// Placeholder for the 0x3B end-of-stream marker, whose detection is out
/// of scope for this decoder's single-group decode.
#[derive(Debug, Clone, Copy, PartialEq, Eq, Structural)]
pub struct Terminator {}

impl Terminator {
    /// Produces the terminator placeholder without touching the cursor.
    pub fn parse(_buf: &mut GifBuffer) -> (r: Terminator)
        ensures
            *final(_buf) == *old(_buf),
    {
        Terminator {}
    }
}

/// Whether the stream's logical screen descriptor announces a global
/// color table: bit 7 of the packed byte at offset 10.
pub open spec fn stream_gct_flag(s: Seq<u8>) -> bool
    recommends
        s.len() >= 11,
{
    lsd_packed_of(s[10]).global_color_table_flag
}

/// The global color table size exponent the stream declares, already
/// incremented by one from its raw three-bit value.
pub open spec fn stream_gct_exp(s: Seq<u8>) -> u8
    recommends
        s.len() >= 11,
{
    lsd_packed_of(s[10]).global_color_table_size
}

/// How many global color table bytes the stream carries: the table's
/// byte length when announced, zero otherwise.
pub open spec fn stream_gct_len(s: Seq<u8>) -> int
    recommends
        s.len() >= 11,
{
    if stream_gct_flag(s) {
        color_table_byte_len(stream_gct_exp(s))
    } else {
        0
    }
}

/// The offset of the image descriptor's separator byte: past the six-byte
/// signature, the seven-byte screen descriptor, and the color table.
pub open spec fn stream_image_off(s: Seq<u8>) -> int
    recommends
        s.len() >= 11,
{
    13 + stream_gct_len(s)
}

/// The first failure a decode of `s` runs into, in the fixed order the
/// records are consumed, or nothing when the whole header decodes.
pub open spec fn decode_failure(s: Seq<u8>) -> Option<GifError> {
    if s.len() < 3 {
        Some(GifError::BufferUnderrun)
    } else if !magic_ok_at(s, 0) {
        Some(GifError::InvalidSignature)
    } else if s.len() < 6 {
        Some(GifError::BufferUnderrun)
    } else if version_of(s.subrange(3, 6)) is None {
        Some(GifError::UnsupportedVersion)
    } else if s.len() < 13 {
        Some(GifError::BufferUnderrun)
    } else if s.len() < stream_image_off(s) + 1 {
        Some(GifError::BufferUnderrun)
    } else if s[stream_image_off(s)] != 0x2C {
        Some(GifError::InvalidImageSeparator)
    } else if s.len() < stream_image_off(s) + 10 {
        Some(GifError::BufferUnderrun)
    } else {
        None
    }
}

/// The root aggregate of one decode: the signature, the logical screen
/// descriptor, the optional global color table, and the decoded image
/// descriptor groups (exactly one in this decoder).
#[derive(Debug, PartialEq, Eq)]
pub struct Gif {
    pub signature: GifSignature,
    pub logical_screen_descriptor: LogicalScreenDescriptor,
    pub global_color_map: Option<GlobalColorMap>,
    pub descriptor_groups: Vec<DescriptorGroup>,
}

impl Gif {
    /// Decodes the structural header of one GIF stream held in memory:
    /// signature, logical screen descriptor, the global color table when
    /// the descriptor announces one, and one image descriptor group. The
    /// first failure is surfaced as-is; no partial aggregate is returned.
    pub fn decode(bytes: Vec<u8>) -> (r: Result<Gif, GifError>)
        ensures
            match r {
                Ok(g) => {
                    &&& decode_failure(bytes@) is None
                    &&& g.signature.magic@ == seq![71u8, 73u8, 70u8]
                    &&& Some(g.signature.version) == version_of(bytes@.subrange(3, 6))
                    &&& g.logical_screen_descriptor == lsd_of(bytes@, 6)
                    &&& (g.global_color_map is Some <==> stream_gct_flag(bytes@))
                    &&& (match g.global_color_map {
                        Some(m) => {
                            &&& m.size == stream_gct_len(bytes@)
                            &&& m.intensities@.len() == m.size
                            &&& (forall|j: int|
                                0 <= j < m.size ==> m.intensities@[j] == scale_intensity(
                                    bytes@[13 + j],
                                    stream_gct_exp(bytes@),
                                ))
                        },
                        None => true,
                    })
                    &&& g.descriptor_groups@.len() == 1
                    &&& g.descriptor_groups@[0].image_descriptor == image_descriptor_of(
                        bytes@,
                        stream_image_off(bytes@),
                    )
                    &&& (g.descriptor_groups@[0].local_color_map is Some
                        <==> g.descriptor_groups@[0].image_descriptor.packed_fields.local_color_table_flag)
                    &&& g.descriptor_groups@[0].raster_data.interlaced
                        == g.descriptor_groups@[0].image_descriptor.packed_fields.interlace_flag
                },
                Err(e) => decode_failure(bytes@) == Some(e),
            },
    {
        let mut buf = GifBuffer::new(bytes);
        let signature = match GifSignature::parse(&mut buf) {
            Ok(v) => v,
            Err(e) => {
                return Err(e);
            },
        };
        let logical_screen_descriptor = match LogicalScreenDescriptor::parse(&mut buf) {
            Ok(v) => v,
            Err(e) => {
                return Err(e);
            },
        };
        let global_color_map = match GlobalColorMap::parse(&mut buf, &logical_screen_descriptor) {
            Ok(v) => v,
            Err(e) => {
                return Err(e);
            },
        };
        let group = match DescriptorGroup::parse(&mut buf) {
            Ok(v) => v,
            Err(e) => {
                return Err(e);
            },
        };
        let mut descriptor_groups: Vec<DescriptorGroup> = Vec::new();
        descriptor_groups.push(group);
        Ok(Gif { signature, logical_screen_descriptor, global_color_map, descriptor_groups })
    }
}

/// ASCII uppercasing of one byte, executable form of `ascii_upper`.
fn ascii_to_upper(b: u8) -> (r: u8)
    ensures
        r == ascii_upper(b),
{
    if 97 <= b && b <= 122 {
        b - 32
    } else {
        b
    }
}

} // verus!

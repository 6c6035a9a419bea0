//! The PE `IMAGE_SECTION_HEADER` record: a fixed 40-byte, little-endian
//! structure describing one section of a PE image, as PDB streams carry it.

use crate::common::Error;
use crate::common::ParseBuffer;
use crate::common::RawString;
use crate::common::u16_le;
use crate::common::u32_le;
use vstd::prelude::*;
use vstd::slice::slice_subrange;

verus! {

broadcast use vstd::array::group_array_axioms;

/// A PE `IMAGE_SECTION_HEADER`, as described in the Microsoft documentation.
#[derive(Debug, Copy, Clone, PartialEq, Eq)]
pub struct ImageSectionHeader {
    /// An 8-byte, null-padded UTF-8 string. There is no terminating null
    /// character if the string is exactly eight characters long. For longer
    /// names, this member contains a forward slash (`/`) followed by an ASCII
    /// representation of a decimal number that is an offset into the string
    /// table. Executable images do not use a string table and do not support
    /// section names longer than eight characters.
    pub name: [u8; 8],
    /// The file address.
    pub physical_address: u32,
    /// The address of the first byte of the section when loaded into memory,
    /// relative to the image base. For object files, this is the address of
    /// the first byte before relocation is applied.
    pub virtual_address: u32,
    /// The size of the initialized data on disk, in bytes. This value must be
    /// a multiple of the `FileAlignment` member of the `IMAGE_OPTIONAL_HEADER`
    /// structure. If this value is less than the `VirtualSize` member, the
    /// remainder of the section is filled with zeroes. If the section contains
    /// only uninitialized data, the member is zero.
    pub size_of_raw_data: u32,
    /// A file pointer to the first page within the COFF file. This value must
    /// be a multiple of the `FileAlignment` member of the
    /// `IMAGE_OPTIONAL_HEADER` structure. If a section contains only
    /// uninitialized data, set this member is zero.
    pub pointer_to_raw_data: u32,
    /// A file pointer to the beginning of the relocation entries for the
    /// section. If there are no relocations, this value is zero.
    pub pointer_to_relocations: u32,
    /// A file pointer to the beginning of the line-number entries for the
    /// section. If there are no COFF line numbers, this value is zero.
    pub pointer_to_line_numbers: u32,
    /// The number of relocation entries for the section. This value is zero
    /// for executable images.
    pub number_of_relocations: u16,
    /// The number of line-number entries for the section.
    pub number_of_line_numbers: u16,
    /// The characteristics of the image.
    pub characteristics: u32,
}

/// Holds when `header` is the decoding of the first 40 bytes of `b`:
/// the name is `b[0..8]` copied verbatim, and each integer field is the
/// little-endian value of its fixed slot, in on-disk order.
pub open spec fn parses_to(b: Seq<u8>, header: ImageSectionHeader) -> bool {
    &&& b.len() >= 40
    &&& header.name@ == b.subrange(0, 8)
    &&& header.physical_address == u32_le(b.subrange(8, 12))
    &&& header.virtual_address == u32_le(b.subrange(12, 16))
    &&& header.size_of_raw_data == u32_le(b.subrange(16, 20))
    &&& header.pointer_to_raw_data == u32_le(b.subrange(20, 24))
    &&& header.pointer_to_relocations == u32_le(b.subrange(24, 28))
    &&& header.pointer_to_line_numbers == u32_le(b.subrange(28, 32))
    &&& header.number_of_relocations == u16_le(b.subrange(32, 34))
    &&& header.number_of_line_numbers == u16_le(b.subrange(34, 36))
    &&& header.characteristics == u32_le(b.subrange(36, 40))
}

/// The length of the printable prefix of a name field: the index of the
/// first null byte, or the whole length when there is none.
pub open spec fn name_prefix_len(s: Seq<u8>) -> int
    decreases s.len(),
{
    if s.len() == 0 {
        0
    } else if s[0] == 0 {
        0
    } else {
        1 + name_prefix_len(s.skip(1))
    }
}

/// The printable prefix stops exactly at the first null byte: it lies
/// within the name, it holds no null byte itself, and it is followed by
/// a null byte unless it covers the whole name.
pub proof fn lemma_name_prefix(s: Seq<u8>)
    ensures
        0 <= name_prefix_len(s) <= s.len(),
        forall|j: int| 0 <= j < name_prefix_len(s) ==> s[j] != 0,
        name_prefix_len(s) < s.len() ==> s[name_prefix_len(s)] == 0,
    decreases s.len(),
{
    if s.len() == 0 {
    } else if s[0] == 0 {
    } else {
        lemma_name_prefix(s.skip(1));
        assert forall|j: int| 0 <= j < name_prefix_len(s) implies s[j] != 0 by {
            if j > 0 {
                assert(s.skip(1)[j - 1] != 0);
            }
        }
    }
}

/// `name_prefix_len` is pinned down by its defining property: a prefix
/// of non-null bytes that either reaches the end or stops at a null.
proof fn lemma_name_prefix_len_is(s: Seq<u8>, i: int)
    requires
        0 <= i <= s.len(),
        forall|j: int| 0 <= j < i ==> s[j] != 0,
        i < s.len() ==> s[i] == 0,
    ensures
        name_prefix_len(s) == i,
    decreases s.len(),
{
    if i == 0 {
    } else {
        assert(s[0] != 0);
        assert forall|j: int| 0 <= j < i - 1 implies s.skip(1)[j] != 0 by {
            assert(s[j + 1] != 0);
        }
        lemma_name_prefix_len_is(s.skip(1), i - 1);
    }
}

impl ImageSectionHeader {
    /// Decode one section header from the front of `parse_buffer`.
    ///
    /// On success the cursor has advanced by exactly 40 bytes and the
    /// returned header is the field-by-field decoding of those bytes;
    /// with fewer than 40 bytes left the parse fails with a short-buffer
    /// error.
    pub fn parse(parse_buffer: &mut ParseBuffer) -> (r: Result<Self, Error>)
        requires
            old(parse_buffer).wf(),
        ensures
            final(parse_buffer).wf(),
            final(parse_buffer).spec_buf() == old(parse_buffer).spec_buf(),
            old(parse_buffer).remaining().len() >= 40 ==> {
                &&& r is Ok
                &&& parses_to(old(parse_buffer).remaining(), r->Ok_0)
                &&& final(parse_buffer).spec_pos() == old(parse_buffer).spec_pos() + 40
                &&& final(parse_buffer).remaining() == old(parse_buffer).remaining().skip(40)
            },
            old(parse_buffer).remaining().len() < 40 ==> {
                &&& r is Err
                &&& r->Err_0 == Error::UnexpectedEof
            },
    {
        let ghost b = old(parse_buffer).remaining();
        let name_bytes = match parse_buffer.take(8) {
            Ok(bytes) => bytes,
            Err(e) => {
                return Err(e);
            },
        };
        let name = [
            name_bytes[0],
            name_bytes[1],
            name_bytes[2],
            name_bytes[3],
            name_bytes[4],
            name_bytes[5],
            name_bytes[6],
            name_bytes[7],
        ];
        proof {
            assert(name@ =~= b.subrange(0, 8));
        }
        let physical_address = match parse_buffer.parse_u32() {
            Ok(v) => v,
            Err(e) => {
                return Err(e);
            },
        };
        proof {
            assert(b.skip(8).take(4) =~= b.subrange(8, 12));
            assert(b.skip(8).skip(4) =~= b.skip(12));
        }
        let virtual_address = match parse_buffer.parse_u32() {
            Ok(v) => v,
            Err(e) => {
                return Err(e);
            },
        };
        proof {
            assert(b.skip(12).take(4) =~= b.subrange(12, 16));
            assert(b.skip(12).skip(4) =~= b.skip(16));
        }
        let size_of_raw_data = match parse_buffer.parse_u32() {
            Ok(v) => v,
            Err(e) => {
                return Err(e);
            },
        };
        proof {
            assert(b.skip(16).take(4) =~= b.subrange(16, 20));
            assert(b.skip(16).skip(4) =~= b.skip(20));
        }
        let pointer_to_raw_data = match parse_buffer.parse_u32() {
            Ok(v) => v,
            Err(e) => {
                return Err(e);
            },
        };
        proof {
            assert(b.skip(20).take(4) =~= b.subrange(20, 24));
            assert(b.skip(20).skip(4) =~= b.skip(24));
        }
        let pointer_to_relocations = match parse_buffer.parse_u32() {
            Ok(v) => v,
            Err(e) => {
                return Err(e);
            },
        };
        proof {
            assert(b.skip(24).take(4) =~= b.subrange(24, 28));
            assert(b.skip(24).skip(4) =~= b.skip(28));
        }
        let pointer_to_line_numbers = match parse_buffer.parse_u32() {
            Ok(v) => v,
            Err(e) => {
                return Err(e);
            },
        };
        proof {
            assert(b.skip(28).take(4) =~= b.subrange(28, 32));
            assert(b.skip(28).skip(4) =~= b.skip(32));
        }
        let number_of_relocations = match parse_buffer.parse_u16() {
            Ok(v) => v,
            Err(e) => {
                return Err(e);
            },
        };
        proof {
            assert(b.skip(32).take(2) =~= b.subrange(32, 34));
            assert(b.skip(32).skip(2) =~= b.skip(34));
        }
        let number_of_line_numbers = match parse_buffer.parse_u16() {
            Ok(v) => v,
            Err(e) => {
                return Err(e);
            },
        };
        proof {
            assert(b.skip(34).take(2) =~= b.subrange(34, 36));
            assert(b.skip(34).skip(2) =~= b.skip(36));
        }
        let characteristics = match parse_buffer.parse_u32() {
            Ok(v) => v,
            Err(e) => {
                return Err(e);
            },
        };
        proof {
            assert(b.skip(36).take(4) =~= b.subrange(36, 40));
            assert(b.skip(36).skip(4) =~= b.skip(40));
        }
        Ok(ImageSectionHeader {
            name,
            physical_address,
            virtual_address,
            size_of_raw_data,
            pointer_to_raw_data,
            pointer_to_relocations,
            pointer_to_line_numbers,
            number_of_relocations,
            number_of_line_numbers,
            characteristics,
        })
    }

    /// The printable section name: the prefix of the `name` field up to
    /// (exclusive of) its first null byte, or all eight bytes when none
    /// is null. A name beginning with `/` is returned verbatim; the
    /// string-table lookup it refers to is the caller's concern.
    pub fn name(&self) -> (r: RawString<'_>)
        ensures
            r@ == self.name@.take(name_prefix_len(self.name@)),
    {
        let mut i: usize = 0;
        while i < 8 && self.name[i] != 0
            invariant
                0 <= i <= 8,
                forall|j: int| 0 <= j < i ==> self.name@[j] != 0,
            decreases 8 - i,
        {
            i = i + 1;
        }
        proof {
            lemma_name_prefix_len_is(self.name@, i as int);
        }
        let prefix = slice_subrange(self.name.as_slice(), 0, i);
        proof {
            assert(prefix@ =~= self.name@.take(name_prefix_len(self.name@)));
        }
        RawString::new(prefix)
    }
}

/// Decoding is a function of the bytes alone: two headers parsed from
/// the same byte sequence are equal. Together with the contract of
/// [`ImageSectionHeader::parse`], this says that two successive parses
/// of the same bytes yield equal headers.
pub proof fn lemma_parse_deterministic(b: Seq<u8>, h1: ImageSectionHeader, h2: ImageSectionHeader)
    requires
        parses_to(b, h1),
        parses_to(b, h2),
    ensures
        h1 == h2,
{
    assert(h1.name =~= h2.name);
}

} // verus!

//! The NARC (Nitro ARChive) container format: a header, a file allocation table and an image
//! block from which member files are read by index.

use vstd::prelude::*;
use vstd::slice::slice_subrange;
use vstd::slice::slice_to_vec;

use crate::nds::{le_u16, le_u32, read_u16_le, read_u32_le};

verus! {

/// The magic number at the beginning of a NARC file ("NARC" in little-endian).
pub const NARC_MAGIC: u32 = 0x4352414E;

/// The magic number of a File Allocation Table Block chunk.
pub const FATB_MAGIC: u32 = 0x46415442;

/// The magic number of a File Name Table Block chunk.
pub const FNTB_MAGIC: u32 = 0x464E5442;

/// The magic number of a File Image Block chunk.
pub const FIMG_MAGIC: u32 = 0x46494D47;

/// Error for a byte order mark that is neither big- nor little-endian.
#[derive(Debug, Clone, Copy, PartialEq, Eq)]
pub enum NarcByteOrderError {
    /// The byte order mark found.
    InvalidBom([u8; 2]),
}

/// The byte order that a NARC announces.
#[derive(Debug, Clone, Copy, PartialEq, Eq, Structural)]
pub enum NarcByteOrder {
    /// Order mark `FE FF`.
    BigEndian,
    /// Order mark `FF FE`.
    LittleEndian,
}

/// The byte order that the mark `b0 b1` announces, if any.
pub open spec fn spec_byte_order(b0: u8, b1: u8) -> Option<NarcByteOrder> {
    if b0 == 0xFE && b1 == 0xFF {
        Some(NarcByteOrder::BigEndian)
    } else if b0 == 0xFF && b1 == 0xFE {
        Some(NarcByteOrder::LittleEndian)
    } else {
        None
    }
}

impl NarcByteOrder {
    /// Determines the byte order from its 2-byte mark.
    pub fn from_bom(bom: &[u8; 2]) -> (r: Result<Self, NarcByteOrderError>)
        ensures
            match spec_byte_order(bom@[0], bom@[1]) {
                Some(o) => r == Ok::<Self, NarcByteOrderError>(o),
                None => r == Err::<Self, NarcByteOrderError>(NarcByteOrderError::InvalidBom(*bom)),
            },
    {
        if bom[0] == 0xFE && bom[1] == 0xFF {
            Ok(NarcByteOrder::BigEndian)
        } else if bom[0] == 0xFF && bom[1] == 0xFE {
            Ok(NarcByteOrder::LittleEndian)
        } else {
            Err(NarcByteOrderError::InvalidBom(*bom))
        }
    }
}

/// Where a member file lies in the image block: `[start_address, end_address)`.
#[derive(Debug, Clone, Copy, PartialEq, Eq, Structural)]
pub struct NarcFileAllocationTableEntry {
    pub start_address: u32,
    pub end_address: u32,
}

/// The File Allocation Table Block.
#[derive(Debug, Clone)]
pub struct NarcFileAllocationTableBlock {
    pub chunk_size: u32,
    pub number_of_files: u16,
    pub files: Vec<NarcFileAllocationTableEntry>,
}

/// The File Name Table Block, kept by size only.
#[derive(Debug, Clone, Copy, PartialEq, Eq, Structural)]
pub struct NarcFileNameTableBlock {
    pub chunk_size: u32,
}

/// The File Image Block: where its payload starts in the file.
#[derive(Debug, Clone, Copy, PartialEq, Eq, Structural)]
pub struct NarcFileImageBlock {
    pub chunk_size: u32,
    pub img_position: u64,
}

/// The header of a NARC file and its chunks.
#[derive(Debug, Clone)]
pub struct NarcHeader {
    pub byte_order: Option<NarcByteOrder>,
    pub version: u16,
    pub file_size: u32,
    pub narc_header_size: u16,
    pub number_of_chunks: u16,
    pub fat: Option<NarcFileAllocationTableBlock>,
    pub fnt: Option<NarcFileNameTableBlock>,
    pub files: Option<NarcFileImageBlock>,
}

/// Error type for NARC reading.
#[derive(Debug, Clone, Copy, PartialEq, Eq)]
pub enum NarcReaderError {
    /// The data ends before something that is read.
    FileReadError,
    /// The magic number is wrong; holds the number found.
    WrongNarcMagic(u32),
    /// The byte order mark is unknown; holds the mark found.
    UnknownBom([u8; 2]),
    /// The archive has no File Allocation Table Block.
    FatBlockNotFound,
    /// The archive has no File Image Block.
    FimgBlockNotFound,
    /// There is no member file at this index.
    FileNotFound(u16),
}

/// Flags that configure the NARC reader.
#[derive(Debug, Default, Clone, Copy, PartialEq, Eq, Structural)]
pub struct NarcReaderFlags {
    /// Whether to accept any magic number.
    pub skip_narc_magic_number_check: bool,
    /// Whether to accept any byte order mark.
    pub skip_bom_check: bool,
}

impl NarcReaderFlags {
    /// Flags with the given checks skipped.
    pub fn new(skip_narc_magic_number_check: bool, skip_bom_check: bool) -> (r: Self)
        ensures
            r.skip_narc_magic_number_check == skip_narc_magic_number_check,
            r.skip_bom_check == skip_bom_check,
    {
        NarcReaderFlags { skip_narc_magic_number_check, skip_bom_check }
    }
}

/// A NARC archive held in memory, with its parsed header; member files are cut out on demand.
#[derive(Debug, Clone)]
pub struct NarcReader {
    /// The bytes of the archive.
    pub data: Vec<u8>,
    /// The parsed header.
    pub narc_header: NarcHeader,
}

/// The FAT chunk at `pos` can be read: its count, and that many entries after the reserved
/// field.
pub open spec fn fatb_fits(b: Seq<u8>, pos: int) -> bool {
    pos + 10 <= b.len() && (le_u16(b, pos + 8) == 0 || pos + 12 + 8 * le_u16(b, pos + 8)
        <= b.len())
}

/// Reads `left` chunks from `pos` on, keeping the start of the last chunk of each known kind:
/// the positions of the FAT, FNT and FIMG chunks, or the error met.
pub open spec fn scan_chunks(
    b: Seq<u8>,
    left: int,
    pos: int,
    fat: Option<int>,
    fnt: Option<int>,
    img: Option<int>,
) -> Result<(Option<int>, Option<int>, Option<int>), NarcReaderError>
    decreases left,
{
    if left <= 0 {
        Ok((fat, fnt, img))
    } else if pos + 8 > b.len() {
        Err(NarcReaderError::FileReadError)
    } else {
        let magic = le_u32(b, pos);
        let next = pos + le_u32(b, pos + 4);
        if magic == FATB_MAGIC {
            if fatb_fits(b, pos) {
                scan_chunks(b, left - 1, next, Some(pos), fnt, img)
            } else {
                Err(NarcReaderError::FileReadError)
            }
        } else if magic == FNTB_MAGIC {
            scan_chunks(b, left - 1, next, fat, Some(pos), img)
        } else if magic == FIMG_MAGIC {
            scan_chunks(b, left - 1, next, fat, fnt, Some(pos))
        } else {
            scan_chunks(b, left - 1, next, fat, fnt, img)
        }
    }
}

/// The chunks of the archive `b`.
pub open spec fn spec_chunks(b: Seq<u8>) -> Result<
    (Option<int>, Option<int>, Option<int>),
    NarcReaderError,
> {
    scan_chunks(b, le_u16(b, 14) as int, 16, None, None, None)
}

/// The error that reading the header of `b` gives, if any.
pub open spec fn narc_header_error(b: Seq<u8>, flags: NarcReaderFlags) -> Option<NarcReaderError> {
    if b.len() < 4 {
        Some(NarcReaderError::FileReadError)
    } else if !flags.skip_narc_magic_number_check && le_u32(b, 0) != NARC_MAGIC {
        Some(NarcReaderError::WrongNarcMagic(le_u32(b, 0)))
    } else if b.len() < 6 {
        Some(NarcReaderError::FileReadError)
    } else if !flags.skip_bom_check && spec_byte_order(b[4], b[5]) is None {
        Some(NarcReaderError::UnknownBom([b[4], b[5]]))
    } else if b.len() < 16 {
        Some(NarcReaderError::FileReadError)
    } else {
        match spec_chunks(b) {
            Err(e) => Some(e),
            Ok(_) => None,
        }
    }
}

/// The FAT block that the chunk at `pos` holds.
pub open spec fn fat_block_at(b: Seq<u8>, pos: int, f: NarcFileAllocationTableBlock) -> bool {
    &&& f.chunk_size == le_u32(b, pos + 4)
    &&& f.number_of_files == le_u16(b, pos + 8)
    &&& f.files@.len() == f.number_of_files
    &&& forall|i: int|
        0 <= i < f.files@.len() ==> f.files@[i] == (NarcFileAllocationTableEntry {
            start_address: le_u32(b, pos + 12 + 8 * i),
            end_address: le_u32(b, pos + 16 + 8 * i),
        })
}

/// `h` is the header of `b`: the fixed fields, and the last chunk of each known kind.
pub open spec fn narc_header_decodes(b: Seq<u8>, h: NarcHeader) -> bool {
    &&& h.byte_order == spec_byte_order(b[4], b[5])
    &&& h.version == if h.byte_order == Some(NarcByteOrder::LittleEndian) {
        le_u16(b, 6)
    } else {
        (256 * b[6] + b[7]) as u16
    }
    &&& h.file_size == le_u32(b, 8)
    &&& h.narc_header_size == le_u16(b, 12)
    &&& h.number_of_chunks == le_u16(b, 14)
    &&& spec_chunks(b) matches Ok((fat, fnt, img)) && {
        &&& (fat is Some) == (h.fat is Some)
        &&& (fat matches Some(p) ==> fat_block_at(b, p, h.fat->0))
        &&& (fnt is Some) == (h.fnt is Some)
        &&& (fnt matches Some(p) ==> h.fnt->0.chunk_size == le_u32(b, p + 4))
        &&& (img is Some) == (h.files is Some)
        &&& (img matches Some(p) ==> h.files->0 == (NarcFileImageBlock {
            chunk_size: le_u32(b, p + 4),
            img_position: (p + 8) as u64,
        }))
    }
}

/// The member file `index` of a reader: the error, or its bytes.
pub open spec fn spec_get_file(r: NarcReader, index: u16) -> Result<Seq<u8>, NarcReaderError> {
    let d = r.data@;
    match r.narc_header.fat {
        None => Err(NarcReaderError::FatBlockNotFound),
        Some(fat) => if index >= fat.files@.len() {
            Err(NarcReaderError::FileNotFound(index))
        } else {
            match r.narc_header.files {
                None => Err(NarcReaderError::FimgBlockNotFound),
                Some(img) => {
                    let e = fat.files@[index as int];
                    let start = img.img_position + e.start_address;
                    let end = img.img_position + e.end_address;
                    if e.end_address < e.start_address || end > d.len() {
                        Err(NarcReaderError::FileReadError)
                    } else {
                        Ok(d.subrange(start, end))
                    }
                },
            }
        },
    }
}

/// The number of member files: that of the FAT, or zero without one.
pub open spec fn spec_number_of_files(r: NarcReader) -> u16 {
    match r.narc_header.fat {
        Some(fat) => fat.number_of_files,
        None => 0,
    }
}

/// A reader whose FAT holds as many entries as it declares, as one built from bytes does.
pub open spec fn narc_reader_wf(r: NarcReader) -> bool {
    r.narc_header.fat matches Some(fat) ==> fat.files@.len() == fat.number_of_files
}

impl NarcReader {
    /// Reads the header of the archive held in `data`, with the checks that `flags` leave.
    pub fn read_from_bytes(data: Vec<u8>, flags: NarcReaderFlags) -> (r: Result<
        Self,
        NarcReaderError,
    >)
        ensures
            match r {
                Ok(reader) => narc_header_error(data@, flags) is None && reader.data@ == data@
                    && narc_header_decodes(data@, reader.narc_header) && narc_reader_wf(reader),
                Err(e) => narc_header_error(data@, flags) == Some(e),
            },
    {
        let narc_header = Self::read_header(data.as_slice(), &flags)?;
        Ok(NarcReader { data, narc_header })
    }

    /// Reads the fixed fields of the header, then the chunks.
    fn read_header(b: &[u8], flags: &NarcReaderFlags) -> (r: Result<NarcHeader, NarcReaderError>)
        ensures
            match r {
                Ok(h) => narc_header_error(b@, *flags) is None && narc_header_decodes(b@, h),
                Err(e) => narc_header_error(b@, *flags) == Some(e),
            },
    {
        let len = b.len();
        if len < 4 {
            return Err(NarcReaderError::FileReadError);
        }
        let magic = read_u32_le(b, 0);
        if !flags.skip_narc_magic_number_check && magic != NARC_MAGIC {
            return Err(NarcReaderError::WrongNarcMagic(magic));
        }
        if len < 6 {
            return Err(NarcReaderError::FileReadError);
        }
        let bom: [u8; 2] = [b[4], b[5]];
        let byte_order = match NarcByteOrder::from_bom(&bom) {
            Ok(o) => Some(o),
            Err(_) => {
                if !flags.skip_bom_check {
                    return Err(NarcReaderError::UnknownBom(bom));
                }
                None
            },
        };
        if len < 16 {
            return Err(NarcReaderError::FileReadError);
        }
        let version = match byte_order {
            Some(NarcByteOrder::LittleEndian) => read_u16_le(b, 6),
            _ => 256 * (b[6] as u16) + b[7] as u16,
        };
        let file_size = read_u32_le(b, 8);
        let narc_header_size = read_u16_le(b, 12);
        let number_of_chunks = read_u16_le(b, 14);
        let mut narc_header = NarcHeader {
            byte_order,
            version,
            file_size,
            narc_header_size,
            number_of_chunks,
            fat: None,
            fnt: None,
            files: None,
        };
        Self::read_chunks(b, &mut narc_header)?;
        Ok(narc_header)
    }

    /// Reads the chunks that the header counts, from offset 16 on; each chunk starts with its
    /// magic and its size, the size counting those 8 bytes.
    pub fn read_chunks(b: &[u8], narc_header: &mut NarcHeader) -> (r: Result<(), NarcReaderError>)
        requires
            b@.len() >= 16,
            old(narc_header).number_of_chunks == le_u16(b@, 14),
            old(narc_header).fat is None,
            old(narc_header).fnt is None,
            old(narc_header).files is None,
        ensures
            match r {
                Ok(_) => spec_chunks(b@) matches Ok((fat, fnt, img)) && {
                    &&& (fat is Some) == (final(narc_header).fat is Some)
                    &&& (fat matches Some(p) ==> fat_block_at(b@, p, final(narc_header).fat->0))
                    &&& (fnt is Some) == (final(narc_header).fnt is Some)
                    &&& (fnt matches Some(p) ==> final(narc_header).fnt->0.chunk_size == le_u32(
                        b@,
                        p + 4,
                    ))
                    &&& (img is Some) == (final(narc_header).files is Some)
                    &&& (img matches Some(p) ==> final(narc_header).files->0 == (NarcFileImageBlock {
                        chunk_size: le_u32(b@, p + 4),
                        img_position: (p + 8) as u64,
                    }))
                },
                Err(e) => spec_chunks(b@) == Err::<
                    (Option<int>, Option<int>, Option<int>),
                    NarcReaderError,
                >(e),
            },
            final(narc_header).byte_order == old(narc_header).byte_order,
            final(narc_header).version == old(narc_header).version,
            final(narc_header).file_size == old(narc_header).file_size,
            final(narc_header).narc_header_size == old(narc_header).narc_header_size,
            final(narc_header).number_of_chunks == old(narc_header).number_of_chunks,
    {
        let len = b.len() as u128;
        let count = narc_header.number_of_chunks;
        let mut pos: u128 = 16;
        let mut k: u16 = 0;
        let ghost mut fat_pos: Option<int> = None;
        let ghost mut fnt_pos: Option<int> = None;
        let ghost mut img_pos: Option<int> = None;
        while k < count
            invariant
                len == b@.len(),
                len == b.len(),
                count == narc_header.number_of_chunks,
                count == le_u16(b@, 14),
                k <= count,
                pos <= len + 0xFFFF_FFFF,
                spec_chunks(b@) == scan_chunks(
                    b@,
                    count - k,
                    pos as int,
                    fat_pos,
                    fnt_pos,
                    img_pos,
                ),
                (fat_pos is Some) == (narc_header.fat is Some),
                (fat_pos matches Some(p) ==> fat_block_at(b@, p, narc_header.fat->0)),
                (fnt_pos is Some) == (narc_header.fnt is Some),
                (fnt_pos matches Some(p) ==> narc_header.fnt->0.chunk_size == le_u32(b@, p + 4)),
                (img_pos is Some) == (narc_header.files is Some),
                (img_pos matches Some(p) ==> narc_header.files->0 == (NarcFileImageBlock {
                    chunk_size: le_u32(b@, p + 4),
                    img_position: (p + 8) as u64,
                })),
                narc_header.byte_order == old(narc_header).byte_order,
                narc_header.version == old(narc_header).version,
                narc_header.file_size == old(narc_header).file_size,
                narc_header.narc_header_size == old(narc_header).narc_header_size,
                narc_header.number_of_chunks == old(narc_header).number_of_chunks,
            decreases count - k,
        {
            if pos > len || len - pos < 8 {
                return Err(NarcReaderError::FileReadError);
            }
            let p = pos as usize;
            let chunk_magic = read_u32_le(b, p);
            let chunk_size = read_u32_le(b, p + 4);
            assert(p as int == pos as int);
            if chunk_magic == FATB_MAGIC {
                let fat = Self::read_fatb_chunk(b, p, chunk_size)?;
                narc_header.fat = Some(fat);
                proof {
                    fat_pos = Some(pos as int);
                }
            } else if chunk_magic == FNTB_MAGIC {
                narc_header.fnt = Some(Self::read_fntb_chunk(chunk_size));
                proof {
                    fnt_pos = Some(pos as int);
                }
            } else if chunk_magic == FIMG_MAGIC {
                narc_header.files = Some(NarcFileImageBlock { chunk_size, img_position: (pos + 8) as u64 });
                proof {
                    img_pos = Some(pos as int);
                }
            }
            pos = pos + chunk_size as u128;
            k = k + 1;
        }
        Ok(())
    }

    /// Reads a File Allocation Table Block chunk that starts at `pos`: the number of files, a
    /// reserved field, then a (start, end) pair of `u32` for each file.
    fn read_fatb_chunk(b: &[u8], pos: usize, chunk_size: u32) -> (r: Result<
        NarcFileAllocationTableBlock,
        NarcReaderError,
    >)
        requires
            pos + 8 <= b.len(),
            chunk_size == le_u32(b@, pos + 4),
        ensures
            match r {
                Ok(f) => fatb_fits(b@, pos as int) && fat_block_at(b@, pos as int, f),
                Err(e) => !fatb_fits(b@, pos as int) && e == NarcReaderError::FileReadError,
            },
    {
        let len = b.len();
        if len - pos < 10 {
            return Err(NarcReaderError::FileReadError);
        }
        let number_of_files = read_u16_le(b, pos + 8);
        if number_of_files > 0 && (len - pos < 12 || len - pos - 12 < 8 * (number_of_files as usize)) {
            return Err(NarcReaderError::FileReadError);
        }
        let mut files: Vec<NarcFileAllocationTableEntry> = Vec::new();
        let mut i: u16 = 0;
        while i < number_of_files
            invariant
                len == b@.len(),
                number_of_files == le_u16(b@, pos + 8),
                number_of_files > 0 ==> pos + 12 + 8 * number_of_files <= len,
                i <= number_of_files,
                files@.len() == i,
                forall|j: int|
                    0 <= j < i ==> files@[j] == (NarcFileAllocationTableEntry {
                        start_address: le_u32(b@, pos + 12 + 8 * j),
                        end_address: le_u32(b@, pos + 16 + 8 * j),
                    }),
            decreases number_of_files - i,
        {
            let off = pos + 12 + 8 * (i as usize);
            let start_address = read_u32_le(b, off);
            let end_address = read_u32_le(b, off + 4);
            files.push(NarcFileAllocationTableEntry { start_address, end_address });
            i = i + 1;
        }
        Ok(NarcFileAllocationTableBlock { chunk_size, number_of_files, files })
    }

    /// A File Name Table Block chunk is kept by its size; names are not resolved.
    fn read_fntb_chunk(chunk_size: u32) -> (r: NarcFileNameTableBlock)
        ensures
            r.chunk_size == chunk_size,
    {
        NarcFileNameTableBlock { chunk_size }
    }

    /// Returns the parsed header.
    pub fn narc_header(&self) -> (r: &NarcHeader)
        ensures
            *r == self.narc_header,
    {
        &self.narc_header
    }

    /// Returns the number of member files: that of the FAT, or zero without one.
    pub fn number_of_files(&self) -> (r: u16)
        ensures
            r == spec_number_of_files(*self),
    {
        match &self.narc_header.fat {
            Some(fat) => fat.number_of_files,
            None => 0,
        }
    }

    /// Reads the member file at `index`.
    pub fn get_file(&self, index: u16) -> (r: Result<Vec<u8>, NarcReaderError>)
        ensures
            match r {
                Ok(v) => spec_get_file(*self, index) == Ok::<Seq<u8>, NarcReaderError>(v@),
                Err(e) => spec_get_file(*self, index) == Err::<Seq<u8>, NarcReaderError>(e),
            },
    {
        let fat = match &self.narc_header.fat {
            Some(fat) => fat,
            None => {
                return Err(NarcReaderError::FatBlockNotFound);
            },
        };
        if index as usize >= fat.files.len() {
            return Err(NarcReaderError::FileNotFound(index));
        }
        let fat_entry = fat.files[index as usize];
        let files = match &self.narc_header.files {
            Some(files) => files,
            None => {
                return Err(NarcReaderError::FimgBlockNotFound);
            },
        };
        if fat_entry.end_address < fat_entry.start_address {
            return Err(NarcReaderError::FileReadError);
        }
        let len = self.data.len();
        if files.img_position > len as u64 || fat_entry.end_address as u64 > len as u64
            - files.img_position {
            return Err(NarcReaderError::FileReadError);
        }
        let start = (files.img_position + fat_entry.start_address as u64) as usize;
        let end = (files.img_position + fat_entry.end_address as u64) as usize;
        Ok(slice_to_vec(slice_subrange(self.data.as_slice(), start, end)))
    }

    /// Returns an iterator over the member files, in order.
    pub fn files_iter(&self) -> (r: NarcReaderFilesIter<'_>)
        ensures
            r.curr == 0,
            *r.narc_reader == *self,
    {
        NarcReaderFilesIter::new(self)
    }
}

/// An iterator over the member files of a NARC, each read when it is reached.
#[derive(Debug)]
pub struct NarcReaderFilesIter<'a> {
    /// The index of the next file.
    pub curr: u16,
    /// The reader.
    pub narc_reader: &'a NarcReader,
}

impl<'a> NarcReaderFilesIter<'a> {
    /// Creates an iterator over the member files of `narc_reader`, from the first.
    pub fn new(narc_reader: &'a NarcReader) -> (r: Self)
        ensures
            r.curr == 0,
            *r.narc_reader == *narc_reader,
    {
        NarcReaderFilesIter { curr: 0, narc_reader }
    }

    /// Reads the next member file, or `None` after the last.
    pub fn next(&mut self) -> (r: Option<Result<Vec<u8>, NarcReaderError>>)
        ensures
            *final(self).narc_reader == *old(self).narc_reader,
            old(self).curr >= spec_number_of_files(*old(self).narc_reader) ==> r is None
                && final(self).curr == old(self).curr,
            old(self).curr < spec_number_of_files(*old(self).narc_reader) ==> final(self).curr
                == old(self).curr + 1 && match r {
                Some(Ok(v)) => spec_get_file(*old(self).narc_reader, old(self).curr) == Ok::<
                    Seq<u8>,
                    NarcReaderError,
                >(v@),
                Some(Err(e)) => spec_get_file(*old(self).narc_reader, old(self).curr) == Err::<
                    Seq<u8>,
                    NarcReaderError,
                >(e),
                None => false,
            },
    {
        if self.curr >= self.narc_reader.number_of_files() {
            return None;
        }
        let file = self.narc_reader.get_file(self.curr);
        self.curr = self.curr + 1;
        Some(file)
    }
}

} // verus!

//! UUID extraction from unsigned OP-TEE trusted-application ELF images and
//! plugins.
//!
//! A TA's UUID is the first 16 bytes of the dynamically exported `ta_head`
//! object. A plugin's UUID follows the leading name pointer of the
//! dynamically exported `plugin_method` object (4 or 8 bytes, from the ELF
//! class). Both symbols must be objects large enough to cover the UUID, and
//! the UUID must be file-backed in a loadable segment.
use vstd::prelude::*;

use crate::text::str_eq;

verus! {

/// `EI_CLASS` value of 32-bit objects.
pub const ELFCLASS32: u8 = 1;
/// `EI_CLASS` value of 64-bit objects.
pub const ELFCLASS64: u8 = 2;
/// Shared-object file type.
pub const ET_DYN: u16 = 3;
/// 32-bit ARM machine.
pub const EM_ARM: u16 = 40;
/// 64-bit ARM machine.
pub const EM_AARCH64: u16 = 183;
/// Loadable segment type.
pub const PT_LOAD: u32 = 1;
/// Global symbol binding.
pub const STB_GLOBAL: u8 = 1;
/// Weak symbol binding.
pub const STB_WEAK: u8 = 2;
/// Symbol of no given type.
pub const STT_NOTYPE: u8 = 0;
/// Data-object symbol.
pub const STT_OBJECT: u8 = 1;
/// Size of a `TEE_UUID`.
pub const TEE_UUID_SIZE: usize = 16;

/// The header fields the checks look at.
#[derive(Clone, Copy, Debug, PartialEq, Eq, Structural)]
pub struct ElfHeader {
    pub little_endian: bool,
    pub e_type: u16,
    pub e_machine: u16,
    pub ei_class: u8,
    pub is_64: bool,
}

/// A symbol table entry, with its name looked up in the string table.
#[derive(Debug)]
pub struct ElfSymbol {
    pub name: Option<String>,
    pub info: u8,
    pub shndx: usize,
    pub value: u64,
    pub size: u64,
}

/// A program header.
#[derive(Clone, Copy, Debug, PartialEq, Eq, Structural)]
pub struct ProgramHeader {
    pub p_type: u32,
    pub vaddr: u64,
    pub memsz: u64,
    pub filesz: u64,
    pub offset: u64,
}

/// What the UUID extraction reads of a parsed ELF file.
#[derive(Debug)]
pub struct ElfImage {
    pub header: ElfHeader,
    /// The dynamic symbol table.
    pub dynsyms: Vec<ElfSymbol>,
    /// The regular symbol table.
    pub syms: Vec<ElfSymbol>,
    pub program_headers: Vec<ProgramHeader>,
}

/// What `goblin::elf::Elf::parse` makes of a file, in the fields above;
/// `None` when it cannot parse the file.
pub uninterp spec fn parsed_elf(data: Seq<u8>) -> Option<ElfImage>;

/// The header of the file as `goblin::elf::Elf::parse` reads it, or `None`
/// when the file does not parse.
#[verifier::external_body]
fn elf_header(data: &[u8]) -> (r: Option<ElfHeader>)
    ensures
        r == (match parsed_elf(data@) {
            Some(img) => Some(img.header),
            None => None,
        }),
{
    match goblin::elf::Elf::parse(data) {
        Ok(elf) => Some(ElfHeader {
            little_endian: elf.little_endian,
            e_type: elf.header.e_type,
            e_machine: elf.header.e_machine,
            ei_class: elf.header.e_ident[goblin::elf::header::EI_CLASS],
            is_64: elf.is_64,
        }),
        Err(_) => None,
    }
}

/// The dynamic symbols of a file that `goblin::elf::Elf::parse` parses,
/// with their names from the dynamic string table.
#[verifier::external_body]
fn elf_dynamic_symbols(data: &[u8]) -> (r: Vec<ElfSymbol>)
    requires
        parsed_elf(data@) is Some,
    ensures
        r == parsed_elf(data@)->0.dynsyms,
{
    let mut out = Vec::new();
    if let Ok(elf) = goblin::elf::Elf::parse(data) {
        for s in elf.dynsyms.iter() {
            let name = elf.dynstrtab.get_at(s.st_name).map(String::from);
            out.push(ElfSymbol { name, info: s.st_info, shndx: s.st_shndx, value: s.st_value, size: s.st_size });
        }
    }
    out
}

/// The regular symbols of a file that `goblin::elf::Elf::parse` parses,
/// with their names from the string table.
#[verifier::external_body]
fn elf_symbols(data: &[u8]) -> (r: Vec<ElfSymbol>)
    requires
        parsed_elf(data@) is Some,
    ensures
        r == parsed_elf(data@)->0.syms,
{
    let mut out = Vec::new();
    if let Ok(elf) = goblin::elf::Elf::parse(data) {
        for s in elf.syms.iter() {
            let name = elf.strtab.get_at(s.st_name).map(String::from);
            out.push(ElfSymbol { name, info: s.st_info, shndx: s.st_shndx, value: s.st_value, size: s.st_size });
        }
    }
    out
}

/// The program headers of a file that `goblin::elf::Elf::parse` parses.
#[verifier::external_body]
fn elf_program_headers(data: &[u8]) -> (r: Vec<ProgramHeader>)
    requires
        parsed_elf(data@) is Some,
    ensures
        r == parsed_elf(data@)->0.program_headers,
{
    let mut out = Vec::new();
    if let Ok(elf) = goblin::elf::Elf::parse(data) {
        for ph in elf.program_headers.iter() {
            out.push(ProgramHeader {
                p_type: ph.p_type,
                vaddr: ph.p_vaddr,
                memsz: ph.p_memsz,
                filesz: ph.p_filesz,
                offset: ph.p_offset,
            });
        }
    }
    out
}

/// Why a UUID could not be read.
#[derive(Debug)]
pub enum UuidError {
    /// The file does not start with the ELF magic.
    NotElf,
    /// The ELF file is truncated or malformed.
    Malformed,
    /// The file is big-endian.
    BigEndian,
    /// The file is not a shared object.
    UnsupportedType(u16),
    /// The file is not AArch64 64-bit or ARM 32-bit.
    UnsupportedTarget { machine: u16, class: u8, is_64: bool },
    /// The symbol is in the regular symbol table only.
    NotExported(String),
    /// The symbol is not exported at all.
    SymbolNotFound(String),
    /// The symbol is not a data object.
    NotAnObject { name: String, symbol_type: u8 },
    /// The symbol is too small to hold the UUID.
    TooSmall { name: String, size: u64, min_size: u64 },
    /// Skipping the name pointer of `plugin_method` overflows.
    AddressOverflow(u64),
    /// The UUID's address range overflows.
    VirtualAddressOverflow(u64),
    /// A loadable segment's address range overflows.
    SegmentOverflow { vaddr: u64, extent: u64 },
    /// The UUID lies in the zero-filled part of a segment.
    InBss(u64),
    /// The UUID's file offset overflows.
    FileOffsetOverflow(u64),
    /// The UUID's file offset does not fit in `usize`.
    OffsetTooLarge(u64),
    /// The UUID's file range overflows `usize`.
    FileRangeOverflow(usize),
    /// The UUID's file range does not fit in the file.
    OutOfFile { offset: usize, length: usize, file_len: usize },
    /// The UUID's address is in no loadable segment.
    NotMapped(u64),
    /// The UUID is not 16 bytes long.
    BadUuidLength(usize),
}

/// A `TEE_UUID` read from a file, in the standard (big-endian) byte order.
#[derive(Clone, Copy, Debug)]
pub struct TeeUuid {
    pub bytes: [u8; 16],
}

/// The standard byte order of a UUID whose first three fields are stored
/// little-endian: those fields are byte-reversed, the rest stays.
pub open spec fn spec_uuid_from_le(b: Seq<u8>) -> Seq<u8> {
    seq![b[3], b[2], b[1], b[0], b[5], b[4], b[7], b[6]] + b.subrange(8, 16)
}

/// Reorders the bytes of a little-endian `TEE_UUID` into the standard order
/// (`uuid::Uuid::from_bytes_le`, then `into_bytes`).
#[verifier::external_body]
fn uuid_from_bytes_le(b: [u8; 16]) -> (r: [u8; 16])
    ensures
        r@ == spec_uuid_from_le(b@),
{
    uuid::Uuid::from_bytes_le(b).into_bytes()
}

/// Whether the file starts with the ELF magic.
pub open spec fn spec_has_elf_magic(data: Seq<u8>) -> bool {
    data.len() >= 4 && data[0] == 0x7f && data[1] == 0x45 && data[2] == 0x4c && data[3] == 0x46
}

/// Whether the header is that of a supported OP-TEE TA or plugin: a
/// little-endian shared object for AArch64 (64-bit) or ARM (32-bit).
pub open spec fn spec_header_supported(h: ElfHeader) -> bool {
    h.little_endian && h.e_type == ET_DYN && ((h.e_machine == EM_AARCH64 && h.ei_class == ELFCLASS64
        && h.is_64) || (h.e_machine == EM_ARM && h.ei_class == ELFCLASS32 && !h.is_64))
}

/// The checks of a parsed header, in order.
pub open spec fn spec_check_header(h: ElfHeader) -> Option<UuidErrorView> {
    if !h.little_endian {
        Some(UuidErrorView::BigEndian)
    } else if h.e_type != ET_DYN {
        Some(UuidErrorView::UnsupportedType(h.e_type))
    } else if spec_header_supported(h) {
        None
    } else {
        Some(UuidErrorView::UnsupportedTarget { machine: h.e_machine, class: h.ei_class, is_64: h.is_64 })
    }
}

/// The abstract form of a [`UuidError`]: the same variants, with text as
/// character sequences.
pub enum UuidErrorView {
    NotElf,
    Malformed,
    BigEndian,
    UnsupportedType(u16),
    UnsupportedTarget { machine: u16, class: u8, is_64: bool },
    NotExported(Seq<char>),
    SymbolNotFound(Seq<char>),
    NotAnObject { name: Seq<char>, symbol_type: u8 },
    TooSmall { name: Seq<char>, size: u64, min_size: u64 },
    AddressOverflow(u64),
    VirtualAddressOverflow(u64),
    SegmentOverflow { vaddr: u64, extent: u64 },
    InBss(u64),
    FileOffsetOverflow(u64),
    OffsetTooLarge(u64),
    FileRangeOverflow(usize),
    OutOfFile { offset: usize, length: usize, file_len: usize },
    NotMapped(u64),
    BadUuidLength(usize),
}

impl View for UuidError {
    type V = UuidErrorView;

    open spec fn view(&self) -> UuidErrorView {
        match self {
            UuidError::NotElf => UuidErrorView::NotElf,
            UuidError::Malformed => UuidErrorView::Malformed,
            UuidError::BigEndian => UuidErrorView::BigEndian,
            UuidError::UnsupportedType(t) => UuidErrorView::UnsupportedType(*t),
            UuidError::UnsupportedTarget { machine, class, is_64 } => UuidErrorView::UnsupportedTarget {
                machine: *machine,
                class: *class,
                is_64: *is_64,
            },
            UuidError::NotExported(n) => UuidErrorView::NotExported(n@),
            UuidError::SymbolNotFound(n) => UuidErrorView::SymbolNotFound(n@),
            UuidError::NotAnObject { name, symbol_type } => UuidErrorView::NotAnObject {
                name: name@,
                symbol_type: *symbol_type,
            },
            UuidError::TooSmall { name, size, min_size } => UuidErrorView::TooSmall {
                name: name@,
                size: *size,
                min_size: *min_size,
            },
            UuidError::AddressOverflow(v) => UuidErrorView::AddressOverflow(*v),
            UuidError::VirtualAddressOverflow(v) => UuidErrorView::VirtualAddressOverflow(*v),
            UuidError::SegmentOverflow { vaddr, extent } => UuidErrorView::SegmentOverflow {
                vaddr: *vaddr,
                extent: *extent,
            },
            UuidError::InBss(v) => UuidErrorView::InBss(*v),
            UuidError::FileOffsetOverflow(v) => UuidErrorView::FileOffsetOverflow(*v),
            UuidError::OffsetTooLarge(v) => UuidErrorView::OffsetTooLarge(*v),
            UuidError::FileRangeOverflow(v) => UuidErrorView::FileRangeOverflow(*v),
            UuidError::OutOfFile { offset, length, file_len } => UuidErrorView::OutOfFile {
                offset: *offset,
                length: *length,
                file_len: *file_len,
            },
            UuidError::NotMapped(v) => UuidErrorView::NotMapped(*v),
            UuidError::BadUuidLength(n) => UuidErrorView::BadUuidLength(*n),
        }
    }
}

/// Checks the magic and the header of an OP-TEE ELF file and reads the
/// symbol tables and program headers.
pub fn parse_optee_elf(data: &[u8]) -> (r: Result<ElfImage, UuidError>)
    ensures
        !spec_has_elf_magic(data@) ==> (r matches Err(e) && e@ == UuidErrorView::NotElf),
        spec_has_elf_magic(data@) && parsed_elf(data@) is None ==> (r matches Err(e) && e@
            == UuidErrorView::Malformed),
        spec_has_elf_magic(data@) ==> (parsed_elf(data@) matches Some(img) ==> match spec_check_header(
            img.header,
        ) {
            Some(k) => r matches Err(e) && e@ == k,
            None => r == Ok::<ElfImage, UuidError>(img),
        }),
{
    if data.len() < 4 || data[0] != 0x7fu8 || data[1] != 0x45u8 || data[2] != 0x4cu8 || data[3] != 0x46u8 {
        return Err(UuidError::NotElf);
    }
    let header = match elf_header(data) {
        Some(h) => h,
        None => return Err(UuidError::Malformed),
    };
    if !header.little_endian {
        return Err(UuidError::BigEndian);
    }
    if header.e_type != ET_DYN {
        return Err(UuidError::UnsupportedType(header.e_type));
    }
    let supported = (header.e_machine == EM_AARCH64 && header.ei_class == ELFCLASS64 && header.is_64)
        || (header.e_machine == EM_ARM && header.ei_class == ELFCLASS32 && !header.is_64);
    if !supported {
        return Err(
            UuidError::UnsupportedTarget {
                machine: header.e_machine,
                class: header.ei_class,
                is_64: header.is_64,
            },
        );
    }
    let dynsyms = elf_dynamic_symbols(data);
    let syms = elf_symbols(data);
    let program_headers = elf_program_headers(data);
    Ok(ElfImage { header, dynsyms, syms, program_headers })
}

/// The binding of a symbol (`st_bind`).
pub open spec fn spec_bind(info: u8) -> u8 {
    info >> 4
}

/// The type of a symbol (`st_type`).
pub open spec fn spec_symbol_type(info: u8) -> u8 {
    info & 0xf
}

/// Whether a symbol is a defined, global or weak symbol of the given name.
pub open spec fn spec_is_exported(sym: ElfSymbol, name: Seq<char>) -> bool {
    sym.name.deep_view() == Some(name) && sym.shndx != 0 && (spec_bind(sym.info) == STB_GLOBAL
        || spec_bind(sym.info) == STB_WEAK)
}

/// The first exported symbol of the given name.
pub open spec fn spec_find_exported(syms: Seq<ElfSymbol>, name: Seq<char>) -> Option<ElfSymbol>
    decreases syms.len(),
{
    if syms.len() == 0 {
        None
    } else if spec_is_exported(syms[0], name) {
        Some(syms[0])
    } else {
        spec_find_exported(syms.drop_first(), name)
    }
}

/// Whether some defined symbol has the given name.
pub open spec fn spec_has_named_sym(syms: Seq<ElfSymbol>, name: Seq<char>) -> bool {
    exists|i: int| 0 <= i < syms.len() && syms[i].name.deep_view() == Some(name) && syms[i].shndx != 0
}

fn same_name(sym_name: &Option<String>, name: &str) -> (b: bool)
    ensures
        b == (sym_name.deep_view() == Some(name@)),
{
    match sym_name {
        Some(n) => str_eq(n.as_str(), name),
        None => false,
    }
}

/// The first dynamically exported symbol of the given name: defined, and
/// global or weak.
pub fn exported_symbol<'a>(image: &'a ElfImage, name: &str) -> (r: Option<&'a ElfSymbol>)
    ensures
        r matches Some(s) ==> spec_find_exported(image.dynsyms@, name@) == Some(*s),
        r is None ==> spec_find_exported(image.dynsyms@, name@) is None,
{
    let syms = &image.dynsyms;
    let n = syms.len();
    let mut i: usize = 0;
    assert(syms@.skip(0) =~= syms@);
    while i < n
        invariant
            *syms == image.dynsyms,
            n == syms@.len(),
            i <= n,
            spec_find_exported(syms@, name@) == spec_find_exported(syms@.skip(i as int), name@),
        decreases n - i,
    {
        let s = &syms[i];
        assert(syms@.skip(i as int)[0] == syms@[i as int]);
        let bind = s.info >> 4u8;
        if same_name(&s.name, name) && s.shndx != 0 && (bind == STB_GLOBAL || bind == STB_WEAK) {
            return Some(s);
        }
        assert(syms@.skip(i as int).drop_first() =~= syms@.skip(i + 1));
        i += 1;
    }
    None
}

/// Whether the regular symbol table has a defined symbol of the given name.
pub fn has_named_sym(image: &ElfImage, name: &str) -> (b: bool)
    ensures
        b == spec_has_named_sym(image.syms@, name@),
{
    let syms = &image.syms;
    let n = syms.len();
    let mut i: usize = 0;
    while i < n
        invariant
            *syms == image.syms,
            n == syms@.len(),
            i <= n,
            forall|k: int| 0 <= k < i ==> !(syms@[k].name.deep_view() == Some(name@) && syms@[k].shndx != 0),
        decreases n - i,
    {
        if same_name(&syms[i].name, name) && syms[i].shndx != 0 {
            assert(0 <= i < syms@.len() && syms@[i as int].name.deep_view() == Some(name@) && syms@[i as int].shndx != 0);
            return true;
        }
        i += 1;
    }
    false
}

/// The check that a symbol is a data object large enough for the UUID: its
/// type is object or none, and a known size (not 0) covers `min_size`.
pub open spec fn spec_ensure_object(name: Seq<char>, sym: ElfSymbol, min_size: u64) -> Option<UuidErrorView> {
    if spec_symbol_type(sym.info) != STT_OBJECT && spec_symbol_type(sym.info) != STT_NOTYPE {
        Some(UuidErrorView::NotAnObject { name, symbol_type: spec_symbol_type(sym.info) })
    } else if sym.size != 0 && sym.size < min_size {
        Some(UuidErrorView::TooSmall { name, size: sym.size, min_size })
    } else {
        None
    }
}

/// Rejects functions and undersized objects, so that a shifted layout fails
/// instead of returning a neighboring field as a UUID.
pub fn ensure_object(name: &str, sym: &ElfSymbol, min_size: u64) -> (r: Result<(), UuidError>)
    ensures
        match spec_ensure_object(name@, *sym, min_size) {
            Some(k) => r matches Err(e) && e@ == k,
            None => r is Ok,
        },
{
    let t = sym.info & 0xfu8;
    if t != STT_OBJECT && t != STT_NOTYPE {
        return Err(UuidError::NotAnObject { name: String::from_str(name), symbol_type: t });
    }
    if sym.size != 0 && sym.size < min_size {
        return Err(UuidError::TooSmall { name: String::from_str(name), size: sym.size, min_size });
    }
    Ok(())
}

/// The pointer width of the file, in bytes.
pub open spec fn spec_pointer_width(image: ElfImage) -> u64 {
    if image.header.is_64 {
        8
    } else {
        4
    }
}

/// The pointer width of the file, in bytes.
pub fn pointer_width(image: &ElfImage) -> (w: u64)
    ensures
        w == spec_pointer_width(*image),
{
    if image.header.is_64 {
        8
    } else {
        4
    }
}

/// The file offset of the virtual range `[va, end)`: the first loadable
/// segment that maps the whole range decides, and the range must lie in its
/// file-backed part. Overflowing segment bounds are errors as met.
pub open spec fn spec_locate(phs: Seq<ProgramHeader>, va: u64, end: int) -> Result<int, UuidErrorView>
    decreases phs.len(),
{
    if phs.len() == 0 {
        Err(UuidErrorView::NotMapped(va))
    } else {
        let ph = phs[0];
        if ph.p_type != PT_LOAD {
            spec_locate(phs.drop_first(), va, end)
        } else if ph.vaddr + ph.memsz > u64::MAX {
            Err(UuidErrorView::SegmentOverflow { vaddr: ph.vaddr, extent: ph.memsz })
        } else if va < ph.vaddr || end > ph.vaddr + ph.memsz {
            spec_locate(phs.drop_first(), va, end)
        } else if ph.vaddr + ph.filesz > u64::MAX {
            Err(UuidErrorView::SegmentOverflow { vaddr: ph.vaddr, extent: ph.filesz })
        } else if end > ph.vaddr + ph.filesz {
            Err(UuidErrorView::InBss(va))
        } else if ph.offset + (va - ph.vaddr) > u64::MAX {
            Err(UuidErrorView::FileOffsetOverflow(va))
        } else {
            Ok(ph.offset + (va - ph.vaddr))
        }
    }
}

/// The `size` bytes of the file at virtual address `va`.
pub open spec fn spec_bytes_at_va(
    phs: Seq<ProgramHeader>,
    data: Seq<u8>,
    va: u64,
    size: usize,
) -> Result<Seq<u8>, UuidErrorView> {
    if va + size > u64::MAX {
        Err(UuidErrorView::VirtualAddressOverflow(va))
    } else {
        match spec_locate(phs, va, va + size) {
            Err(k) => Err(k),
            Ok(off) => if off > usize::MAX {
                Err(UuidErrorView::OffsetTooLarge(off as u64))
            } else if off + size > usize::MAX {
                Err(UuidErrorView::FileRangeOverflow(off as usize))
            } else if off + size > data.len() {
                Err(UuidErrorView::OutOfFile { offset: off as usize, length: size, file_len: data.len() as usize })
            } else {
                Ok(data.subrange(off, off + size))
            },
        }
    }
}

/// The bytes of a result, or the kind of its error.
pub open spec fn spec_bytes_result(r: Result<&[u8], UuidError>) -> Result<Seq<u8>, UuidErrorView> {
    match r {
        Ok(b) => Ok(b@),
        Err(e) => Err(e@),
    }
}

/// Reads `size` bytes at virtual address `va` from the file contents, via
/// the loadable segment that maps them.
pub fn bytes_at_va<'a>(image: &ElfImage, data: &'a [u8], va: u64, size: usize) -> (r: Result<
    &'a [u8],
    UuidError,
>)
    ensures
        spec_bytes_result(r) == spec_bytes_at_va(image.program_headers@, data@, va, size),
{
    let size_u64 = size as u64;
    let end = match va.checked_add(size_u64) {
        Some(e) => e,
        None => return Err(UuidError::VirtualAddressOverflow(va)),
    };
    let phs = &image.program_headers;
    let n = phs.len();
    let mut i: usize = 0;
    assert(phs@.skip(0) =~= phs@);
    while i < n
        invariant
            *phs == image.program_headers,
            n == phs@.len(),
            i <= n,
            end == va + size,
            spec_locate(phs@, va, end as int) == spec_locate(phs@.skip(i as int), va, end as int),
        decreases n - i,
    {
        let ph = phs[i];
        assert(phs@.skip(i as int)[0] == phs@[i as int]);
        assert(phs@.skip(i as int).drop_first() =~= phs@.skip(i + 1));
        if ph.p_type != PT_LOAD {
            i += 1;
            continue;
        }
        let load_end = match ph.vaddr.checked_add(ph.memsz) {
            Some(e) => e,
            None => return Err(UuidError::SegmentOverflow { vaddr: ph.vaddr, extent: ph.memsz }),
        };
        if va < ph.vaddr || end > load_end {
            i += 1;
            continue;
        }
        let file_end = match ph.vaddr.checked_add(ph.filesz) {
            Some(e) => e,
            None => return Err(UuidError::SegmentOverflow { vaddr: ph.vaddr, extent: ph.filesz }),
        };
        if end > file_end {
            return Err(UuidError::InBss(va));
        }
        let delta = va - ph.vaddr;
        let off = match ph.offset.checked_add(delta) {
            Some(o) => o,
            None => return Err(UuidError::FileOffsetOverflow(va)),
        };
        if off > usize::MAX as u64 {
            return Err(UuidError::OffsetTooLarge(off));
        }
        let off = off as usize;
        let end_off = match off.checked_add(size) {
            Some(e) => e,
            None => return Err(UuidError::FileRangeOverflow(off)),
        };
        if end_off > data.len() {
            return Err(UuidError::OutOfFile { offset: off, length: size, file_len: data.len() });
        }
        let bytes = slice_range(data, off, end_off);
        return Ok(bytes);
    }
    Err(UuidError::NotMapped(va))
}

/// The bytes of `data` from `start` to `end`.
fn slice_range(data: &[u8], start: usize, end: usize) -> (r: &[u8])
    requires
        start <= end <= data@.len(),
    ensures
        r@ == data@.subrange(start as int, end as int),
{
    let (head, _) = data.split_at(end);
    let (_, tail) = head.split_at(start);
    assert(tail@ =~= data@.subrange(start as int, end as int));
    tail
}

/// The standard byte order of a little-endian `TEE_UUID` of 16 bytes.
pub open spec fn spec_tee_uuid(bytes: Seq<u8>) -> Result<Seq<u8>, UuidErrorView> {
    if bytes.len() != 16 {
        Err(UuidErrorView::BadUuidLength(bytes.len() as usize))
    } else {
        Ok(spec_uuid_from_le(bytes))
    }
}

/// The bytes of a UUID result, or the kind of its error.
pub open spec fn spec_uuid_result(r: Result<TeeUuid, UuidError>) -> Result<Seq<u8>, UuidErrorView> {
    match r {
        Ok(u) => Ok(u.bytes@),
        Err(e) => Err(e@),
    }
}

/// Reads a `TEE_UUID` stored little-endian.
pub fn tee_uuid(bytes: &[u8]) -> (r: Result<TeeUuid, UuidError>)
    ensures
        spec_uuid_result(r) == spec_tee_uuid(bytes@),
{
    if bytes.len() != 16 {
        return Err(UuidError::BadUuidLength(bytes.len()));
    }
    let mut b = [0u8; 16];
    let mut i: usize = 0;
    while i < 16
        invariant
            bytes@.len() == 16,
            i <= 16,
            forall|k: int| 0 <= k < i ==> b@[k] == bytes@[k],
        decreases 16 - i,
    {
        b[i] = bytes[i];
        i += 1;
    }
    assert(b@ =~= bytes@);
    Ok(TeeUuid { bytes: uuid_from_bytes_le(b) })
}

/// The UUID of a TA image: 16 bytes at the exported `ta_head`.
pub open spec fn spec_ta_uuid(img: ElfImage, data: Seq<u8>) -> Result<Seq<u8>, UuidErrorView> {
    match spec_find_exported(img.dynsyms@, "ta_head"@) {
        None => Err(
            if spec_has_named_sym(img.syms@, "ta_head"@) {
                UuidErrorView::NotExported("ta_head"@)
            } else {
                UuidErrorView::SymbolNotFound("ta_head"@)
            },
        ),
        Some(sym) => match spec_ensure_object("ta_head"@, sym, 16) {
            Some(k) => Err(k),
            None => match spec_bytes_at_va(img.program_headers@, data, sym.value, 16) {
                Err(k) => Err(k),
                Ok(b) => spec_tee_uuid(b),
            },
        },
    }
}

/// The UUID of a plugin image: 16 bytes after the name pointer of the
/// exported `plugin_method`.
pub open spec fn spec_plugin_uuid(img: ElfImage, data: Seq<u8>) -> Result<Seq<u8>, UuidErrorView> {
    match spec_find_exported(img.dynsyms@, "plugin_method"@) {
        None => Err(
            if spec_has_named_sym(img.syms@, "plugin_method"@) {
                UuidErrorView::NotExported("plugin_method"@)
            } else {
                UuidErrorView::SymbolNotFound("plugin_method"@)
            },
        ),
        Some(sym) => {
            let off = spec_pointer_width(img);
            match spec_ensure_object("plugin_method"@, sym, (off + 16) as u64) {
                Some(k) => Err(k),
                None => if sym.value + off > u64::MAX {
                    Err(UuidErrorView::AddressOverflow(sym.value))
                } else {
                    match spec_bytes_at_va(img.program_headers@, data, (sym.value + off) as u64, 16) {
                        Err(k) => Err(k),
                        Ok(b) => spec_tee_uuid(b),
                    }
                },
            }
        },
    }
}

/// In a supported image a pointer (the name pointer that leads
/// `plugin_method`) is as wide as the ELF class says: 32 bits for
/// `ELFCLASS32`, 64 bits for `ELFCLASS64`.
pub proof fn lemma_pointer_width_follows_class(img: ElfImage)
    requires
        spec_check_header(img.header) is None,
    ensures
        spec_pointer_width(img) * 8 == 32 * img.header.ei_class,
{
}

/// The plugin UUID is the 16 bytes right after the name pointer of the
/// exported `plugin_method`: 4 bytes in for a 32-bit image, 8 for a 64-bit
/// one.
pub proof fn lemma_plugin_uuid_after_name_pointer(img: ElfImage, data: Seq<u8>, sym: ElfSymbol)
    requires
        spec_check_header(img.header) is None,
        spec_find_exported(img.dynsyms@, "plugin_method"@) == Some(sym),
        spec_ensure_object("plugin_method"@, sym, (4 * img.header.ei_class + 16) as u64) is None,
        sym.value + 4 * img.header.ei_class <= u64::MAX,
    ensures
        spec_plugin_uuid(img, data) == (match spec_bytes_at_va(
            img.program_headers@,
            data,
            (sym.value + 4 * img.header.ei_class) as u64,
            16,
        ) {
            Err(k) => Err(k),
            Ok(b) => spec_tee_uuid(b),
        }),
{
}

/// Reads the TA UUID from a checked image and the file contents it was
/// parsed from.
pub fn read_ta_uuid_from_image(image: &ElfImage, data: &[u8]) -> (r: Result<TeeUuid, UuidError>)
    ensures
        spec_uuid_result(r) == spec_ta_uuid(*image, data@),
{
    proof {
        reveal_strlit("ta_head");
    }
    let sym = match exported_symbol(image, "ta_head") {
        Some(s) => s,
        None => {
            if has_named_sym(image, "ta_head") {
                return Err(UuidError::NotExported(String::from_str("ta_head")));
            } else {
                return Err(UuidError::SymbolNotFound(String::from_str("ta_head")));
            }
        },
    };
    match ensure_object("ta_head", sym, 16) {
        Ok(()) => {},
        Err(e) => return Err(e),
    }
    let bytes = match bytes_at_va(image, data, sym.value, TEE_UUID_SIZE) {
        Ok(b) => b,
        Err(e) => return Err(e),
    };
    tee_uuid(bytes)
}

/// Reads the plugin UUID from a checked image and the file contents it was
/// parsed from.
pub fn read_plugin_uuid_from_image(image: &ElfImage, data: &[u8]) -> (r: Result<TeeUuid, UuidError>)
    ensures
        spec_uuid_result(r) == spec_plugin_uuid(*image, data@),
{
    proof {
        reveal_strlit("plugin_method");
    }
    let sym = match exported_symbol(image, "plugin_method") {
        Some(s) => s,
        None => {
            if has_named_sym(image, "plugin_method") {
                return Err(UuidError::NotExported(String::from_str("plugin_method")));
            } else {
                return Err(UuidError::SymbolNotFound(String::from_str("plugin_method")));
            }
        },
    };
    let uuid_off = pointer_width(image);
    match ensure_object("plugin_method", sym, uuid_off + 16) {
        Ok(()) => {},
        Err(e) => return Err(e),
    }
    let va = match sym.value.checked_add(uuid_off) {
        Some(v) => v,
        None => return Err(UuidError::AddressOverflow(sym.value)),
    };
    let bytes = match bytes_at_va(image, data, va, TEE_UUID_SIZE) {
        Ok(b) => b,
        Err(e) => return Err(e),
    };
    tee_uuid(bytes)
}

/// Reads the TA UUID from the contents of an unsigned TA ELF file.
pub fn read_ta_uuid_from_bytes(data: &[u8]) -> (r: Result<TeeUuid, UuidError>)
    ensures
        !spec_has_elf_magic(data@) ==> (r matches Err(e) && e@ == UuidErrorView::NotElf),
        spec_has_elf_magic(data@) && parsed_elf(data@) is None ==> (r matches Err(e) && e@
            == UuidErrorView::Malformed),
        spec_has_elf_magic(data@) ==> (parsed_elf(data@) matches Some(img) ==> match spec_check_header(
            img.header,
        ) {
            Some(k) => r matches Err(e) && e@ == k,
            None => spec_uuid_result(r) == spec_ta_uuid(img, data@),
        }),
{
    let image = match parse_optee_elf(data) {
        Ok(i) => i,
        Err(e) => return Err(e),
    };
    read_ta_uuid_from_image(&image, data)
}

/// Reads the plugin UUID from the contents of an unsigned plugin shared
/// library.
pub fn read_plugin_uuid_from_bytes(data: &[u8]) -> (r: Result<TeeUuid, UuidError>)
    ensures
        !spec_has_elf_magic(data@) ==> (r matches Err(e) && e@ == UuidErrorView::NotElf),
        spec_has_elf_magic(data@) && parsed_elf(data@) is None ==> (r matches Err(e) && e@
            == UuidErrorView::Malformed),
        spec_has_elf_magic(data@) ==> (parsed_elf(data@) matches Some(img) ==> match spec_check_header(
            img.header,
        ) {
            Some(k) => r matches Err(e) && e@ == k,
            None => spec_uuid_result(r) == spec_plugin_uuid(img, data@),
        }),
{
    let image = match parse_optee_elf(data) {
        Ok(i) => i,
        Err(e) => return Err(e),
    };
    read_plugin_uuid_from_image(&image, data)
}

/// The lower-case hexadecimal digit of a number below sixteen.
pub open spec fn spec_hex_digit(d: nat) -> char {
    if d < 10 {
        ((d + 48) as u8) as char
    } else {
        ((d - 10 + 97) as u8) as char
    }
}

/// Two lower-case hexadecimal digits per byte.
pub open spec fn spec_hex(bytes: Seq<u8>) -> Seq<char>
    decreases bytes.len(),
{
    if bytes.len() == 0 {
        Seq::empty()
    } else {
        spec_hex(bytes.drop_last()) + seq![
            spec_hex_digit((bytes.last() / 16) as nat),
            spec_hex_digit((bytes.last() % 16) as nat),
        ]
    }
}

/// The hyphenated lower-case form of a UUID: 8-4-4-4-12 hexadecimal digits.
pub open spec fn spec_uuid_text(b: Seq<u8>) -> Seq<char> {
    spec_hex(b.subrange(0, 4)) + "-"@ + spec_hex(b.subrange(4, 6)) + "-"@ + spec_hex(b.subrange(6, 8))
        + "-"@ + spec_hex(b.subrange(8, 10)) + "-"@ + spec_hex(b.subrange(10, 16))
}

/// Renders a UUID in its hyphenated lower-case form (`uuid::Uuid`'s
/// `Display`).
#[verifier::external_body]
fn uuid_text(bytes: [u8; 16]) -> (r: String)
    ensures
        r@ == spec_uuid_text(bytes@),
{
    uuid::Uuid::from_bytes(bytes).to_string()
}

impl TeeUuid {
    /// The hyphenated lower-case form, as used in `<uuid>.ta` file names.
    pub fn to_text(&self) -> (r: String)
        ensures
            r@ == spec_uuid_text(self.bytes@),
    {
        uuid_text(self.bytes)
    }
}

} // verus!

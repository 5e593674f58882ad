//! Parser for the simulator's binary `.ibt` telemetry files.
//!
//! Every function here works on the bytes of the file; the caller reads the
//! file. Positions that lie past the end of the file fail as reading past
//! the end of a file fails ("failed to fill whole buffer").

use vstd::prelude::*;
use crate::storage_error::{StorageError, is_parse_error};
use crate::float_bits::{f32_bits_to_i32, f64_bits_to_i32, f32_bits_nonzero, f64_bits_nonzero, f32_to_i32_spec, f64_to_i32_spec, f32_nonzero, f64_nonzero};
use crate::text::{decimal, u64_to_decimal};

verus! {

/// Length of a variable name field.
pub const VAR_NAME_LEN: usize = 32;

/// Length of a variable description field.
pub const VAR_DESC_LEN: usize = 64;

/// Length of a variable unit field.
pub const VAR_UNIT_LEN: usize = 32;

/// Length of one variable header record.
pub const VAR_HEADER_SIZE: usize = 144;

/// Offset of the data buffer table in the file header.
pub const BUF_INFO_OFFSET: usize = 48;

/// The text a read past the end of the file reports.
pub open spec fn eof_text() -> Seq<char> {
    "failed to fill whole buffer"@
}

/// Little-endian unsigned 32-bit value of four bytes at `pos`.
pub open spec fn le_u32(b: Seq<u8>, pos: int) -> u32 {
    (b[pos] + 256 * b[pos + 1] + 65536 * b[pos + 2] + 16777216 * b[pos + 3]) as u32
}

/// Little-endian two's-complement 32-bit value of four bytes at `pos`.
pub open spec fn le_i32(b: Seq<u8>, pos: int) -> i32 {
    le_u32(b, pos) as i32
}

/// Little-endian unsigned 64-bit value of eight bytes at `pos`.
pub open spec fn le_u64(b: Seq<u8>, pos: int) -> u64 {
    (le_u32(b, pos) + 4294967296 * le_u32(b, pos + 4)) as u64
}

/// Whether `len` bytes can be read at `pos` in a file of `size` bytes.
pub open spec fn fits(size: int, pos: int, len: int) -> bool {
    0 <= pos && pos + len <= size
}

/// Reads a little-endian unsigned 32-bit value at `pos`.
pub fn read_u32_at(data: &[u8], pos: usize) -> (r: u32)
    requires
        fits(data.len() as int, pos as int, 4),
    ensures
        r == le_u32(data@, pos as int),
{
    let b0 = data[pos] as u32;
    let b1 = data[pos + 1] as u32;
    let b2 = data[pos + 2] as u32;
    let b3 = data[pos + 3] as u32;
    b0 + 256 * b1 + 65536 * b2 + 16777216 * b3
}

/// Reads a little-endian unsigned 64-bit value at `pos`.
pub fn read_u64_at(data: &[u8], pos: usize) -> (r: u64)
    requires
        fits(data.len() as int, pos as int, 8),
    ensures
        r == le_u64(data@, pos as int),
{
    let lo = read_u32_at(data, pos) as u64;
    let hi = read_u32_at(data, pos + 4) as u64;
    lo + 4294967296 * hi
}

/// Reads a little-endian 32-bit integer at `pos`, failing when the file ends first.
pub fn read_i32(data: &[u8], pos: usize) -> (r: Result<i32, StorageError>)
    ensures
        fits(data.len() as int, pos as int, 4) ==> r == Ok::<i32, StorageError>(
            le_i32(data@, pos as int),
        ),
        !fits(data.len() as int, pos as int, 4) ==> (r matches Err(e) && is_parse_error(
            e,
            "Failed to read i32: "@ + eof_text(),
        )),
{
    if pos > data.len() || data.len() - pos < 4 {
        return Err(eof_error("Failed to read i32: "));
    }
    Ok(read_u32_at(data, pos) as i32)
}

/// The parse error for a read past the end of the file, after the given context.
fn eof_error(context: &str) -> (e: StorageError)
    ensures
        is_parse_error(e, context@ + eof_text()),
{
    let mut m = context.to_owned();
    m.append("failed to fill whole buffer");
    StorageError::ParseError(m)
}

/// Position of the first NUL byte, or the length when there is none.
pub open spec fn nul_index(b: Seq<u8>) -> nat
    decreases b.len(),
{
    if b.len() == 0 {
        0
    } else if b[0] == 0 {
        0
    } else {
        1 + nul_index(b.skip(1))
    }
}

/// The bytes before the first NUL byte.
pub open spec fn until_nul(b: Seq<u8>) -> Seq<u8> {
    b.take(nul_index(b) as int)
}

proof fn lemma_nul_index(b: Seq<u8>)
    ensures
        nul_index(b) <= b.len(),
        forall|j: int| 0 <= j < nul_index(b) ==> b[j] != 0,
        nul_index(b) < b.len() ==> b[nul_index(b) as int] == 0,
    decreases b.len(),
{
    if b.len() > 0 && b[0] != 0 {
        lemma_nul_index(b.skip(1));
        assert forall|j: int| 0 <= j < nul_index(b) implies b[j] != 0 by {
            if j > 0 {
                assert(b[j] == b.skip(1)[j - 1]);
            }
        }
    }
}

proof fn lemma_nul_index_unique(b: Seq<u8>, k: int)
    requires
        0 <= k <= b.len(),
        forall|j: int| 0 <= j < k ==> b[j] != 0,
        k < b.len() ==> b[k] == 0,
    ensures
        nul_index(b) == k,
    decreases b.len(),
{
    if b.len() > 0 && b[0] != 0 {
        lemma_nul_index_unique(b.skip(1), k - 1);
    }
}

/// Finds the position of the first NUL byte in `data[start..start + len]`,
/// relative to `start`, or `len` when there is none.
fn find_nul(data: &[u8], start: usize, len: usize) -> (r: usize)
    requires
        fits(data.len() as int, start as int, len as int),
    ensures
        r == nul_index(data@.subrange(start as int, start + len)),
{
    let ghost s = data@.subrange(start as int, start + len);
    let mut i: usize = 0;
    while i < len
        invariant
            fits(data.len() as int, start as int, len as int),
            s == data@.subrange(start as int, start + len),
            0 <= i <= len,
            forall|j: int| 0 <= j < i ==> s[j] != 0,
        decreases len - i,
    {
        if data[start + i] == 0 {
            proof {
                lemma_nul_index_unique(s, i as int);
            }
            return i;
        }
        i = i + 1;
    }
    proof {
        lemma_nul_index_unique(s, len as int);
    }
    len
}

/// The text that lossy UTF-8 decoding makes of a byte sequence.
pub uninterp spec fn utf8_lossy(bytes: Seq<u8>) -> Seq<char>;

/// Calls `String::from_utf8_lossy` on `bytes` and makes an owned `String` of
/// the result. The text is named `utf8_lossy`; as the documentation says,
/// bytes that are valid UTF-8 decode to exactly their characters.
#[verifier::external_body]
fn from_utf8_lossy(bytes: &[u8]) -> (s: String)
    ensures
        s@ == utf8_lossy(bytes@),
        vstd::utf8::valid_utf8(bytes@) ==> s@ == vstd::utf8::decode_utf8(bytes@),
{
    String::from_utf8_lossy(bytes).to_string()
}

/// The text of a NUL-terminated string field of `len` bytes at `pos`.
pub open spec fn fixed_string(b: Seq<u8>, pos: int, len: int) -> Seq<char> {
    utf8_lossy(until_nul(b.subrange(pos, pos + len)))
}

/// Reads a NUL-terminated string field of `len` bytes at `pos`.
pub fn read_fixed_string(data: &[u8], pos: usize, len: usize) -> (r: Result<String, StorageError>)
    ensures
        fits(data.len() as int, pos as int, len as int) ==> (r matches Ok(s) && s@
            == fixed_string(data@, pos as int, len as int)),
        !fits(data.len() as int, pos as int, len as int) ==> (r matches Err(e) && is_parse_error(
            e,
            "Failed to read string: "@ + eof_text(),
        )),
{
    if pos > data.len() || data.len() - pos < len {
        return Err(eof_error("Failed to read string: "));
    }
    let end = find_nul(data, pos, len);
    proof {
        lemma_nul_index(data@.subrange(pos as int, pos + len));
    }
    let field = vstd::slice::slice_subrange(data, pos, pos + end);
    proof {
        assert(field@ =~= until_nul(data@.subrange(pos as int, pos + len)));
    }
    Ok(from_utf8_lossy(field))
}

/// Data types of `.ibt` variables.
#[derive(Debug, Clone, Copy, PartialEq, Eq, Structural)]
pub enum IbtVarType {
    Char,
    Bool,
    Int,
    BitField,
    Float,
    Double,
}

/// The variable type of a type code (0 char, 1 bool, 2 int, 3 bit field,
/// 4 float, 5 double); other codes name no type.
pub open spec fn var_type_of(val: i32) -> Option<IbtVarType> {
    if val == 0 {
        Some(IbtVarType::Char)
    } else if val == 1 {
        Some(IbtVarType::Bool)
    } else if val == 2 {
        Some(IbtVarType::Int)
    } else if val == 3 {
        Some(IbtVarType::BitField)
    } else if val == 4 {
        Some(IbtVarType::Float)
    } else if val == 5 {
        Some(IbtVarType::Double)
    } else {
        None
    }
}

impl IbtVarType {
    /// Decodes a type code.
    pub fn from_i32(val: i32) -> (r: Option<IbtVarType>)
        ensures
            r == var_type_of(val),
    {
        match val {
            0 => Some(IbtVarType::Char),
            1 => Some(IbtVarType::Bool),
            2 => Some(IbtVarType::Int),
            3 => Some(IbtVarType::BitField),
            4 => Some(IbtVarType::Float),
            5 => Some(IbtVarType::Double),
            _ => None,
        }
    }

    /// Size in bytes of a value of the type.
    pub open spec fn size(&self) -> nat {
        match self {
            IbtVarType::Char | IbtVarType::Bool => 1,
            IbtVarType::Int | IbtVarType::BitField | IbtVarType::Float => 4,
            IbtVarType::Double => 8,
        }
    }

    /// Returns the size in bytes of a value of the type.
    pub fn byte_size(&self) -> (r: usize)
        ensures
            r == self.size(),
    {
        match self {
            IbtVarType::Char | IbtVarType::Bool => 1,
            IbtVarType::Int | IbtVarType::BitField | IbtVarType::Float => 4,
            IbtVarType::Double => 8,
        }
    }
}

/// Parsed `.ibt` file header.
#[derive(Debug, Clone, Copy, PartialEq, Eq, Structural)]
pub struct IbtHeader {
    pub version: i32,
    pub tick_rate: i32,
    pub session_info_offset: i32,
    pub session_info_length: i32,
    pub num_vars: i32,
    pub var_header_offset: i32,
    pub num_buf: i32,
    pub buf_len: i32,
    pub buf_offset: i32,
}

/// Size of the part of the file header that is read.
pub const HEADER_READ_LEN: usize = 56;

/// The header fields as they stand in the file: ten 32-bit fields from the
/// start, and the first data buffer's offset after its tick count at 48.
pub open spec fn header_fields(b: Seq<u8>) -> IbtHeader {
    IbtHeader {
        version: le_i32(b, 0),
        tick_rate: le_i32(b, 8),
        session_info_length: le_i32(b, 16),
        session_info_offset: le_i32(b, 20),
        num_vars: le_i32(b, 24),
        var_header_offset: le_i32(b, 28),
        num_buf: le_i32(b, 32),
        buf_len: le_i32(b, 36),
        buf_offset: le_i32(b, 52),
    }
}

/// The first header field, in the order the parser checks them, that is
/// negative, with the message that reports it; `None` when none is.
pub open spec fn header_defect(h: IbtHeader) -> Option<Seq<char>> {
    if h.session_info_offset < 0 {
        Some("Invalid .ibt file: session_info_offset is negative"@)
    } else if h.session_info_length < 0 {
        Some("Invalid .ibt file: session_info_length is negative"@)
    } else if h.num_vars < 0 {
        Some("Invalid .ibt file: num_vars is negative"@)
    } else if h.var_header_offset < 0 {
        Some("Invalid .ibt file: var_header_offset is negative"@)
    } else if h.num_buf < 0 {
        Some("Invalid .ibt file: num_buf is negative"@)
    } else if h.buf_len < 0 {
        Some("Invalid .ibt file: buf_len is negative"@)
    } else if h.buf_offset < 0 {
        Some("Invalid .ibt file: buf_offset is negative"@)
    } else {
        None
    }
}

/// A parse error holding the given message.
fn parse_error(msg: &str) -> (e: StorageError)
    ensures
        is_parse_error(e, msg@),
{
    StorageError::ParseError(msg.to_owned())
}

/// Parses the file header. Fails when the file is shorter than the header,
/// or when an offset, length or count field is negative.
pub fn parse_header(data: &[u8]) -> (r: Result<IbtHeader, StorageError>)
    ensures
        data.len() < HEADER_READ_LEN ==> (r matches Err(e) && is_parse_error(
            e,
            "Failed to read i32: "@ + eof_text(),
        )),
        data.len() >= HEADER_READ_LEN ==> match header_defect(header_fields(data@)) {
            Some(msg) => r matches Err(e) && is_parse_error(e, msg),
            None => r == Ok::<IbtHeader, StorageError>(header_fields(data@)),
        },
{
    if data.len() < HEADER_READ_LEN {
        return Err(eof_error("Failed to read i32: "));
    }
    let h = IbtHeader {
        version: read_u32_at(data, 0) as i32,
        tick_rate: read_u32_at(data, 8) as i32,
        session_info_length: read_u32_at(data, 16) as i32,
        session_info_offset: read_u32_at(data, 20) as i32,
        num_vars: read_u32_at(data, 24) as i32,
        var_header_offset: read_u32_at(data, 28) as i32,
        num_buf: read_u32_at(data, 32) as i32,
        buf_len: read_u32_at(data, 36) as i32,
        buf_offset: read_u32_at(data, 52) as i32,
    };
    if h.session_info_offset < 0 {
        return Err(parse_error("Invalid .ibt file: session_info_offset is negative"));
    }
    if h.session_info_length < 0 {
        return Err(parse_error("Invalid .ibt file: session_info_length is negative"));
    }
    if h.num_vars < 0 {
        return Err(parse_error("Invalid .ibt file: num_vars is negative"));
    }
    if h.var_header_offset < 0 {
        return Err(parse_error("Invalid .ibt file: var_header_offset is negative"));
    }
    if h.num_buf < 0 {
        return Err(parse_error("Invalid .ibt file: num_buf is negative"));
    }
    if h.buf_len < 0 {
        return Err(parse_error("Invalid .ibt file: buf_len is negative"));
    }
    if h.buf_offset < 0 {
        return Err(parse_error("Invalid .ibt file: buf_offset is negative"));
    }
    Ok(h)
}

/// The session info text: the NUL-terminated text of the session info block.
pub open spec fn session_info_text(b: Seq<u8>, h: IbtHeader) -> Seq<char> {
    utf8_lossy(until_nul(b.subrange(h.session_info_offset as int, h.session_info_offset + h.session_info_length)))
}

/// Reads the session info block that the header points at.
pub fn parse_session_info(data: &[u8], header: &IbtHeader) -> (r: Result<String, StorageError>)
    requires
        header.session_info_offset >= 0,
        header.session_info_length >= 0,
    ensures
        fits(data.len() as int, header.session_info_offset as int, header.session_info_length as int)
            ==> (r matches Ok(s) && s@ == session_info_text(data@, *header)),
        !fits(data.len() as int, header.session_info_offset as int, header.session_info_length as int)
            ==> (r matches Err(e) && is_parse_error(e, "Failed to read session info: "@ + eof_text())),
{
    let pos = header.session_info_offset as usize;
    let len = header.session_info_length as usize;
    if pos > data.len() || data.len() - pos < len {
        return Err(eof_error("Failed to read session info: "));
    }
    let end = find_nul(data, pos, len);
    proof {
        lemma_nul_index(data@.subrange(pos as int, pos + len));
    }
    let block = vstd::slice::slice_subrange(data, pos, pos + end);
    proof {
        assert(block@ =~= until_nul(data@.subrange(pos as int, pos + len)));
    }
    Ok(from_utf8_lossy(block))
}

/// A variable definition from the file's variable header table.
#[derive(Debug, Clone)]
pub struct IbtVarHeader {
    pub name: String,
    pub description: String,
    pub unit: String,
    pub var_type: IbtVarType,
    pub count: i32,
    pub offset: i32,
}

/// The content of a variable definition.
pub struct IbtVarHeaderView {
    pub name: Seq<char>,
    pub description: Seq<char>,
    pub unit: Seq<char>,
    pub var_type: IbtVarType,
    pub count: i32,
    pub offset: i32,
}

impl View for IbtVarHeader {
    type V = IbtVarHeaderView;

    open spec fn view(&self) -> IbtVarHeaderView {
        IbtVarHeaderView {
            name: self.name@,
            description: self.description@,
            unit: self.unit@,
            var_type: self.var_type,
            count: self.count,
            offset: self.offset,
        }
    }
}

/// The variable definition stored at `p`, or `None` when its type code is unknown.
/// The record holds the type code, the value offset, the count, four bytes of
/// padding, and the NUL-terminated name, description and unit.
pub open spec fn var_entry(b: Seq<u8>, p: int) -> Option<IbtVarHeaderView> {
    match var_type_of(le_i32(b, p)) {
        Some(t) => Some(
            IbtVarHeaderView {
                name: fixed_string(b, p + 16, VAR_NAME_LEN as int),
                description: fixed_string(b, p + 48, VAR_DESC_LEN as int),
                unit: fixed_string(b, p + 112, VAR_UNIT_LEN as int),
                var_type: t,
                count: le_i32(b, p + 8),
                offset: le_i32(b, p + 4),
            },
        ),
        None => None,
    }
}

/// The message for a variable record at `p` that the file of `size` bytes cuts short:
/// it names the first field that cannot be read.
pub open spec fn var_entry_error(size: int, p: int) -> Seq<char> {
    if p + 12 > size {
        "Failed to read i32: "@ + eof_text()
    } else if p + 16 > size {
        "Failed to read var header pad: "@ + eof_text()
    } else {
        "Failed to read string: "@ + eof_text()
    }
}

/// The known variable definitions among the first `n` records of the table at `off`.
pub open spec fn var_entries(b: Seq<u8>, off: int, n: nat) -> Seq<IbtVarHeaderView>
    decreases n,
{
    if n == 0 {
        Seq::empty()
    } else {
        let prev = var_entries(b, off, (n - 1) as nat);
        match var_entry(b, off + VAR_HEADER_SIZE * (n - 1)) {
            Some(e) => prev.push(e),
            None => prev,
        }
    }
}

/// Parses the variable record at `pos`.
fn parse_var_entry(data: &[u8], pos: usize) -> (r: Result<Option<IbtVarHeader>, StorageError>)
    ensures
        fits(data.len() as int, pos as int, VAR_HEADER_SIZE as int) ==> match r {
            Ok(Some(h)) => var_entry(data@, pos as int) == Some(h@),
            Ok(None) => var_entry(data@, pos as int) is None,
            Err(_) => false,
        },
        !fits(data.len() as int, pos as int, VAR_HEADER_SIZE as int) ==> (r matches Err(e)
            && is_parse_error(e, var_entry_error(data.len() as int, pos as int))),
{
    let var_type_raw = match read_i32(data, pos) {
        Ok(v) => v,
        Err(e) => {
            return Err(e);
        },
    };
    if data.len() - pos < 12 {
        return Err(eof_error("Failed to read i32: "));
    }
    let offset = read_u32_at(data, pos + 4) as i32;
    let count = read_u32_at(data, pos + 8) as i32;
    if data.len() - pos < 16 {
        return Err(eof_error("Failed to read var header pad: "));
    }
    let name = match read_fixed_string(data, pos + 16, VAR_NAME_LEN) {
        Ok(s) => s,
        Err(e) => {
            return Err(e);
        },
    };
    let description = match read_fixed_string(data, pos + 48, VAR_DESC_LEN) {
        Ok(s) => s,
        Err(e) => {
            return Err(e);
        },
    };
    let unit = match read_fixed_string(data, pos + 112, VAR_UNIT_LEN) {
        Ok(s) => s,
        Err(e) => {
            return Err(e);
        },
    };
    match IbtVarType::from_i32(var_type_raw) {
        Some(var_type) => Ok(Some(IbtVarHeader { name, description, unit, var_type, count, offset })),
        None => Ok(None),
    }
}

/// The index of the first variable record that a file of `size` bytes cuts
/// short, for a table at `off`.
pub open spec fn first_short_entry(size: int, off: int) -> int {
    if off <= size {
        (size - off) / (VAR_HEADER_SIZE as int)
    } else {
        0
    }
}

/// Parses the variable header table; records with an unknown type code are
/// skipped. Fails when the file ends inside the table.
pub fn parse_var_headers(data: &[u8], header: &IbtHeader) -> (r: Result<Vec<IbtVarHeader>, StorageError>)
    requires
        header.var_header_offset >= 0,
        header.num_vars >= 0,
    ensures
        ({
            let off = header.var_header_offset as int;
            let n = header.num_vars as int;
            if n == 0 || off + VAR_HEADER_SIZE * n <= data.len() {
                r matches Ok(v) && v@.map_values(|h: IbtVarHeader| h@) == var_entries(data@, off, n as nat)
            } else {
                r matches Err(e) && is_parse_error(
                    e,
                    var_entry_error(data.len() as int, off + VAR_HEADER_SIZE * first_short_entry(data.len() as int, off)),
                )
            }
        }),
{
    let ghost off = header.var_header_offset as int;
    let n = header.num_vars as usize;
    let mut pos = header.var_header_offset as usize;
    let mut out: Vec<IbtVarHeader> = Vec::new();
    let mut k: usize = 0;
    while k < n
        invariant
            0 <= k <= n,
            n == header.num_vars,
            off == header.var_header_offset,
            pos == off + VAR_HEADER_SIZE * k,
            k > 0 ==> pos <= data.len(),
            out@.map_values(|h: IbtVarHeader| h@) == var_entries(data@, off, k as nat),
        decreases n - k,
    {
        let entry = parse_var_entry(data, pos);
        match entry {
            Ok(Some(h)) => {
                out.push(h);
                proof {
                    assert(out@.map_values(|h: IbtVarHeader| h@) =~= var_entries(data@, off, (k + 1) as nat));
                }
            },
            Ok(None) => {
                proof {
                    assert(out@.map_values(|h: IbtVarHeader| h@) =~= var_entries(data@, off, (k + 1) as nat));
                }
            },
            Err(e) => {
                proof {
                    assert(off + VAR_HEADER_SIZE * k + VAR_HEADER_SIZE > data.len());
                    if off <= data.len() {
                        assert(first_short_entry(data.len() as int, off) == k);
                    }
                }
                return Err(e);
            },
        }
        pos = pos + VAR_HEADER_SIZE;
        k = k + 1;
    }
    Ok(out)
}

/// Position of a variable's value within a data record (a negative offset
/// wraps around, as a cast to `usize` does).
pub open spec fn value_pos(vh: IbtVarHeaderView) -> int {
    (vh.offset as usize) as int
}

/// A variable's value in a data record, as a 32-bit integer: floats are
/// truncated toward zero, and a value that lies past the end of the record reads as 0.
pub open spec fn var_as_i32(rec: Seq<u8>, vh: IbtVarHeaderView) -> i32 {
    let p = value_pos(vh);
    if p + vh.var_type.size() > rec.len() {
        0
    } else {
        match vh.var_type {
            IbtVarType::Int | IbtVarType::BitField => le_i32(rec, p),
            IbtVarType::Float => f32_to_i32_spec(le_u32(rec, p)),
            IbtVarType::Double => f64_to_i32_spec(le_u64(rec, p)),
            IbtVarType::Bool | IbtVarType::Char => rec[p] as i32,
        }
    }
}

/// A variable's value in a data record, as a flag: nonzero is true, and a value
/// that lies past the end of the record reads as false.
pub open spec fn var_as_bool(rec: Seq<u8>, vh: IbtVarHeaderView) -> bool {
    let p = value_pos(vh);
    if p >= rec.len() {
        false
    } else {
        match vh.var_type {
            IbtVarType::Bool | IbtVarType::Char => rec[p] != 0,
            IbtVarType::Int | IbtVarType::BitField => p + 4 <= rec.len() && le_i32(rec, p) != 0,
            IbtVarType::Float => p + 4 <= rec.len() && f32_nonzero(le_u32(rec, p)),
            IbtVarType::Double => p + 8 <= rec.len() && f64_nonzero(le_u64(rec, p)),
        }
    }
}

/// Reads a variable's value from a data record as a 32-bit integer.
pub fn read_var_as_i32(record: &[u8], vh: &IbtVarHeader) -> (r: Result<i32, StorageError>)
    requires
        value_pos(vh@) + vh.var_type.size() <= usize::MAX,
    ensures
        r == Ok::<i32, StorageError>(var_as_i32(record@, vh@)),
{
    let offset = vh.offset as usize;
    if offset + vh.var_type.byte_size() > record.len() {
        return Ok(0);
    }
    match vh.var_type {
        IbtVarType::Int | IbtVarType::BitField => Ok(read_u32_at(record, offset) as i32),
        IbtVarType::Float => Ok(f32_bits_to_i32(read_u32_at(record, offset))),
        IbtVarType::Double => Ok(f64_bits_to_i32(read_u64_at(record, offset))),
        IbtVarType::Bool | IbtVarType::Char => Ok(record[offset] as i32),
    }
}

/// Reads a variable's value from a data record as a flag.
pub fn read_var_as_bool(record: &[u8], vh: &IbtVarHeader) -> (r: Result<bool, StorageError>)
    ensures
        r == Ok::<bool, StorageError>(var_as_bool(record@, vh@)),
{
    let offset = vh.offset as usize;
    if offset >= record.len() {
        return Ok(false);
    }
    match vh.var_type {
        IbtVarType::Bool | IbtVarType::Char => Ok(record[offset] != 0),
        IbtVarType::Int | IbtVarType::BitField => {
            if record.len() - offset < 4 {
                return Ok(false);
            }
            Ok(read_u32_at(record, offset) as i32 != 0)
        },
        IbtVarType::Float => {
            if record.len() - offset < 4 {
                return Ok(false);
            }
            Ok(f32_bits_nonzero(read_u32_at(record, offset)))
        },
        IbtVarType::Double => {
            if record.len() - offset < 8 {
                return Ok(false);
            }
            Ok(f64_bits_nonzero(read_u64_at(record, offset)))
        },
    }
}

/// The raw bits of a variable's value, for callers that need its floating-point value.
#[derive(Debug, Clone, Copy, PartialEq, Eq, Structural)]
pub enum VarBits {
    /// A char or bool byte.
    Byte(u8),
    /// A 32-bit integer or bit field.
    Int(i32),
    /// The bits of a single-precision value.
    F32(u32),
    /// The bits of a double-precision value.
    F64(u64),
}

/// A variable's raw value in a data record, or `None` when it lies past the
/// end of the record.
pub open spec fn var_bits(rec: Seq<u8>, vh: IbtVarHeaderView) -> Option<VarBits> {
    let p = value_pos(vh);
    if p + vh.var_type.size() > rec.len() {
        None
    } else {
        Some(
            match vh.var_type {
                IbtVarType::Int | IbtVarType::BitField => VarBits::Int(le_i32(rec, p)),
                IbtVarType::Float => VarBits::F32(le_u32(rec, p)),
                IbtVarType::Double => VarBits::F64(le_u64(rec, p)),
                IbtVarType::Bool | IbtVarType::Char => VarBits::Byte(rec[p]),
            },
        )
    }
}

/// Reads a variable's raw value from a data record.
pub fn read_var_bits(record: &[u8], vh: &IbtVarHeader) -> (r: Option<VarBits>)
    requires
        value_pos(vh@) + vh.var_type.size() <= usize::MAX,
    ensures
        r == var_bits(record@, vh@),
{
    let offset = vh.offset as usize;
    if offset + vh.var_type.byte_size() > record.len() {
        return None;
    }
    match vh.var_type {
        IbtVarType::Int | IbtVarType::BitField => Some(VarBits::Int(read_u32_at(record, offset) as i32)),
        IbtVarType::Float => Some(VarBits::F32(read_u32_at(record, offset))),
        IbtVarType::Double => Some(VarBits::F64(read_u64_at(record, offset))),
        IbtVarType::Bool | IbtVarType::Char => Some(VarBits::Byte(record[offset])),
    }
}

/// The number of whole data records in a file of `size` bytes, with the
/// records' offset and length from the header, or the message of the reason
/// there are none.
pub open spec fn record_count_spec(size: nat, h: IbtHeader) -> Result<nat, Seq<char>> {
    let start = h.buf_offset as nat;
    let len = h.buf_len as nat;
    if len == 0 {
        Err("Invalid .ibt file: record length is 0"@)
    } else if start > size {
        Err(
            "Invalid .ibt file: data offset ("@ + decimal(start) + ") exceeds file size ("@
                + decimal(size) + ")"@,
        )
    } else if (size - start) / (len as int) == 0 {
        Err("No telemetry data records found in .ibt file"@)
    } else {
        Ok(((size - start) / (len as int)) as nat)
    }
}

/// Computes how many whole data records follow the data offset.
pub fn record_count(file_size: usize, header: &IbtHeader) -> (r: Result<usize, StorageError>)
    requires
        header.buf_offset >= 0,
        header.buf_len >= 0,
    ensures
        match record_count_spec(file_size as nat, *header) {
            Ok(n) => r == Ok::<usize, StorageError>(n as usize),
            Err(msg) => r matches Err(e) && is_parse_error(e, msg),
        },
{
    let data_start = header.buf_offset as usize;
    let record_len = header.buf_len as usize;
    if record_len == 0 {
        return Err(parse_error("Invalid .ibt file: record length is 0"));
    }
    if data_start > file_size {
        let mut m = "Invalid .ibt file: data offset (".to_owned();
        let a = u64_to_decimal(data_start as u64);
        m.append(a.as_str());
        m.append(") exceeds file size (");
        let b = u64_to_decimal(file_size as u64);
        m.append(b.as_str());
        m.append(")");
        return Err(StorageError::ParseError(m));
    }
    let num_records = (file_size - data_start) / record_len;
    if num_records == 0 {
        return Err(parse_error("No telemetry data records found in .ibt file"));
    }
    Ok(num_records)
}

} // verus!

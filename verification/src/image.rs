use vstd::prelude::*;

verus! {

/// Where the legacy DOS header of an executable image stores the offset of
/// the image's NT headers (the signed 32-bit field `e_lfanew`).
pub const NT_HEADERS_OFFSET_FIELD: usize = 0x3C;

/// Where, counted from the start of the NT headers, the optional header
/// stores `SizeOfCode`: after the 4-byte signature, the 20-byte file header,
/// the 2-byte magic and the two 1-byte linker versions.
pub const SIZE_OF_CODE_FIELD: usize = 0x1C;

/// The little-endian unsigned 32-bit number stored at `off` in `s`.
pub open spec fn le_u32(s: Seq<u8>, off: int) -> int {
    s[off] + s[off + 1] * 0x100 + s[off + 2] * 0x1_0000 + s[off + 3] * 0x100_0000
}

/// The offset of the NT headers as the DOS header stores it, if the header
/// holds the field and its signed value is not negative.
pub open spec fn nt_headers_offset(image: Seq<u8>) -> Option<int> {
    if image.len() < NT_HEADERS_OFFSET_FIELD + 4 || le_u32(image, NT_HEADERS_OFFSET_FIELD as int) >= 0x8000_0000 {
        None
    } else {
        Some(le_u32(image, NT_HEADERS_OFFSET_FIELD as int))
    }
}

/// Where, counted from the start of the NT headers, the optional header
/// stores `BaseOfCode`, the offset of the code from the image's start: after
/// `SizeOfCode`, the sizes of initialized and uninitialized data and the
/// entry point, four bytes each.
pub const BASE_OF_CODE_FIELD: usize = 0x2C;

/// The code of the image, as its optional header states it: the offset of
/// its start from the image's start and its size in bytes, if the given
/// bytes reach as far as both fields.
pub open spec fn spec_code_range(image: Seq<u8>) -> Option<(int, int)> {
    match nt_headers_offset(image) {
        None => None,
        Some(nt) => if nt + BASE_OF_CODE_FIELD + 4 <= image.len() {
            Some((le_u32(image, nt + BASE_OF_CODE_FIELD), le_u32(image, nt + SIZE_OF_CODE_FIELD)))
        } else {
            None
        },
    }
}

/// The NT headers' offset as the four bytes at 0x3C spell it, least
/// significant first.
pub open spec fn stated_nt_offset(image: Seq<u8>) -> int {
    image[0x3C] + image[0x3D] * 0x100 + image[0x3E] * 0x1_0000 + image[0x3F] * 0x100_0000
}

/// The code range reads nothing but its fields: two header buffers of the
/// same length that agree on the NT headers' offset and on the four bytes
/// each of `SizeOfCode` (at that offset + 0x1C) and `BaseOfCode` (at that
/// offset + 0x2C) give the same answer, whatever else they hold (the
/// optional header's magic included).
pub proof fn lemma_code_range_reads_only_its_fields(a: Seq<u8>, b: Seq<u8>)
    requires
        a.len() == b.len(),
        a.len() >= 0x40,
        forall|i: int| 0x3C <= i < 0x40 ==> a[i] == b[i],
        forall|i: int| stated_nt_offset(a) + 0x1C <= i < stated_nt_offset(a) + 0x20 && i < a.len()
            ==> #[trigger] a[i] == b[i],
        forall|i: int| stated_nt_offset(a) + 0x2C <= i < stated_nt_offset(a) + 0x30 && i < a.len()
            ==> #[trigger] a[i] == b[i],
    ensures
        spec_code_range(a) == spec_code_range(b),
{
    let nt = stated_nt_offset(a);
    assert(le_u32(a, 0x3C) == nt);
    assert(le_u32(b, 0x3C) == nt);
    if nt + 0x30 <= a.len() {
        assert(a[nt + 0x1C] == b[nt + 0x1C] && a[nt + 0x1D] == b[nt + 0x1D]
            && a[nt + 0x1E] == b[nt + 0x1E] && a[nt + 0x1F] == b[nt + 0x1F]);
        assert(a[nt + 0x2C] == b[nt + 0x2C] && a[nt + 0x2D] == b[nt + 0x2D]
            && a[nt + 0x2E] == b[nt + 0x2E] && a[nt + 0x2F] == b[nt + 0x2F]);
    }
}

/// The size comes from `SizeOfCode` and the start from `BaseOfCode`, not
/// the other way round: changing only the bytes of one field leaves the
/// other part of the answer as it was (for NT headers placed after the
/// 0x40-byte DOS header, as they always are).
pub proof fn lemma_code_range_fields_apart(a: Seq<u8>, b: Seq<u8>, field: int)
    requires
        a.len() == b.len(),
        a.len() >= 0x40,
        0x40 <= stated_nt_offset(a),
        stated_nt_offset(a) + 0x30 <= a.len(),
        field == 0x1C || field == 0x2C,
        forall|i: int| 0 <= i < a.len() && !(stated_nt_offset(a) + field <= i < stated_nt_offset(a) + field + 4)
            ==> #[trigger] a[i] == b[i],
        a[0x3F] < 0x80,
    ensures
        spec_code_range(a) is Some && spec_code_range(b) is Some,
        field == 0x1C ==> spec_code_range(a).unwrap().0 == spec_code_range(b).unwrap().0,
        field == 0x2C ==> spec_code_range(a).unwrap().1 == spec_code_range(b).unwrap().1,
{
    let nt = stated_nt_offset(a);
    assert(le_u32(a, 0x3C) == nt);
    assert(a[0x3C] == b[0x3C] && a[0x3D] == b[0x3D] && a[0x3E] == b[0x3E] && a[0x3F] == b[0x3F]);
    assert(le_u32(b, 0x3C) == nt);
    let other: int = if field == 0x1C { 0x2C } else { 0x1C };
    assert(a[nt + other] == b[nt + other]);
    assert(a[nt + other + 1] == b[nt + other + 1]);
    assert(a[nt + other + 2] == b[nt + other + 2]);
    assert(a[nt + other + 3] == b[nt + other + 3]);
}

/// Reads the little-endian unsigned 32-bit number at `off`.
fn read_le_u32(s: &[u8], off: usize) -> (v: u32)
    requires
        off + 4 <= s@.len(),
    ensures
        v == le_u32(s@, off as int),
{
    let b0 = s[off] as u32;
    let b1 = s[off + 1] as u32;
    let b2 = s[off + 2] as u32;
    let b3 = s[off + 3] as u32;
    b0 + b1 * 0x100 + b2 * 0x1_0000 + b3 * 0x100_0000
}

/// Where the NT headers start, as the DOS header at the start of `image`
/// states it; `None` when the bytes end before the field or its signed value
/// is negative.
pub fn nt_headers_at(image: &[u8]) -> (r: Option<usize>)
    ensures
        r is None <==> nt_headers_offset(image@) is None,
        r matches Some(n) ==> nt_headers_offset(image@) == Some(n as int),
{
    if image.len() < NT_HEADERS_OFFSET_FIELD + 4 {
        return None;
    }
    let nt = read_le_u32(image, NT_HEADERS_OFFSET_FIELD);
    if nt >= 0x8000_0000 {
        return None;
    }
    Some(nt as usize)
}

/// The code of the executable image whose first bytes are `headers`: the
/// `BaseOfCode` and `SizeOfCode` fields of the optional header that the DOS
/// header points to, as (offset of the code from the image's start, size of
/// the code). `None` when the pointer is negative or the bytes end before
/// the fields.
pub fn code_range(headers: &[u8]) -> (r: Option<(usize, usize)>)
    ensures
        r is None <==> spec_code_range(headers@) is None,
        r matches Some((base, size)) ==> spec_code_range(headers@) == Some((base as int, size as int)),
{
    let nt = match nt_headers_at(headers) {
        None => return None,
        Some(nt) => nt,
    };
    if headers.len() < BASE_OF_CODE_FIELD + 4 || nt > headers.len() - (BASE_OF_CODE_FIELD + 4) {
        return None;
    }
    let base = read_le_u32(headers, nt + BASE_OF_CODE_FIELD);
    let size = read_le_u32(headers, nt + SIZE_OF_CODE_FIELD);
    Some((base as usize, size as usize))
}

} // verus!

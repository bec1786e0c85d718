use vstd::prelude::*;
use widestring::U16CString;

verus! {

/// Declares `widestring::U16CString`, an owned nul-terminated UTF-16
/// string, to the verifier; its contents are known only through
/// [`wide_units`].
#[verifier::external_type_specification]
#[verifier::external_body]
pub struct ExU16CString(U16CString);

/// The UTF-16 code units that a nul-terminated wide string holds, without
/// its terminator.
pub uninterp spec fn wide_units(s: U16CString) -> Seq<u16>;

/// Whether a code unit stands for itself in UTF-16, that is, is not a
/// surrogate.
pub open spec fn is_plain_unit(u: u16) -> bool {
    u < 0xD800 || u >= 0xE000
}

/// Whether a code unit is a leading (high) surrogate.
pub open spec fn is_high_surrogate(u: u16) -> bool {
    0xD800 <= u < 0xDC00
}

/// Whether a code unit is a trailing (low) surrogate.
pub open spec fn is_low_surrogate(u: u16) -> bool {
    0xDC00 <= u < 0xE000
}

/// The text that lossy UTF-16 decoding makes of a run of code units, as
/// UTF-16 defines it: a leading surrogate followed by a trailing one stands
/// for one character above the basic plane, any other surrogate becomes the
/// replacement character U+FFFD, and every other unit stands for itself.
pub open spec fn utf16_lossy(units: Seq<u16>) -> Seq<char>
    decreases units.len(),
{
    if units.len() == 0 {
        Seq::empty()
    } else if units.len() >= 2 && is_high_surrogate(units[0]) && is_low_surrogate(units[1]) {
        seq![(0x10000 + (units[0] - 0xD800) * 0x400 + (units[1] - 0xDC00)) as char]
            + utf16_lossy(units.skip(2))
    } else if !is_plain_unit(units[0]) {
        seq!['\u{FFFD}'] + utf16_lossy(units.skip(1))
    } else {
        seq![units[0] as char] + utf16_lossy(units.skip(1))
    }
}

/// Units none of which is a surrogate decode to one character per unit, of
/// the unit's value.
pub proof fn lemma_plain_units_decode(units: Seq<u16>)
    requires
        forall|i: int| 0 <= i < units.len() ==> is_plain_unit(#[trigger] units[i]),
    ensures
        utf16_lossy(units) == units.map_values(|u: u16| u as char),
    decreases units.len(),
{
    if units.len() > 0 {
        let rest = units.skip(1);
        assert forall|i: int| 0 <= i < rest.len() implies is_plain_unit(#[trigger] rest[i]) by {
            assert(rest[i] == units[i + 1]);
        }
        lemma_plain_units_decode(rest);
        assert(utf16_lossy(units) =~= units.map_values(|u: u16| u as char));
    }
}

/// Decoding keeps text from vanishing: every unit is part of a decoded
/// character or replaced by one, so nonempty units decode to nonempty text.
pub proof fn lemma_decoding_nonempty(units: Seq<u16>)
    ensures
        units.len() > 0 ==> utf16_lossy(units).len() > 0,
{
}

/// Whether a run of code units holds a nul anywhere but in its last place.
pub open spec fn has_interior_nul(units: Seq<u16>) -> bool {
    exists|i: int| 0 <= i < units.len() - 1 && units[i] == 0
}

/// The units without a nul in last place, if there is one.
pub open spec fn without_terminator(units: Seq<u16>) -> Seq<u16> {
    if units.len() > 0 && units.last() == 0 {
        units.drop_last()
    } else {
        units
    }
}

/// Builds a nul-terminated wide string from code units.
///
/// Trusted: wraps `widestring::U16CString::from_vec`. Its source scans for
/// the first nul: it fails when that nul is not the last unit, and otherwise
/// keeps the units, dropping a nul in last place (a terminator is stored
/// apart from the contents).
#[verifier::external_body]
fn wide_cstring_from_vec(units: Vec<u16>) -> (r: Option<U16CString>)
    ensures
        r is None <==> has_interior_nul(units@),
        r matches Some(s) ==> wide_units(s) == without_terminator(units@),
{
    U16CString::from_vec(units).ok()
}

/// The UTF-16 code units that encode a text, as UTF-16 defines it: a
/// character of the basic plane is one unit of its value, any other is a
/// leading and a trailing surrogate.
pub open spec fn utf16_encode(text: Seq<char>) -> Seq<u16>
    decreases text.len(),
{
    if text.len() == 0 {
        Seq::empty()
    } else {
        let c = text[0] as int;
        let head: Seq<u16> = if c < 0x10000 {
            seq![c as u16]
        } else {
            seq![(0xD800 + (c - 0x10000) / 0x400) as u16, (0xDC00 + (c - 0x10000) % 0x400) as u16]
        };
        head + utf16_encode(text.skip(1))
    }
}

/// Encodes a text as a nul-terminated wide string.
///
/// Trusted: wraps `widestring::U16CString::from_str`, whose source collects
/// `str::encode_utf16` of the text and hands the units to `from_vec`: it
/// fails when a nul unit stands anywhere but last, and otherwise keeps the
/// units, dropping a nul in last place.
#[verifier::external_body]
pub(crate) fn wide_cstring_from_str(text: &str) -> (r: Option<U16CString>)
    ensures
        r is None <==> has_interior_nul(utf16_encode(text@)),
        r matches Some(w) ==> wide_units(w) == without_terminator(utf16_encode(text@)),
{
    U16CString::from_str(text).ok()
}

/// Decodes a wide string into text, replacing what is not valid UTF-16.
///
/// Trusted: wraps `widestring::U16CStr::to_string_lossy`, whose source is
/// `String::from_utf16_lossy` on the units without the terminator: UTF-16
/// decoding with invalid units replaced, as [`utf16_lossy`] states it.
#[verifier::external_body]
fn wide_cstring_to_string_lossy(s: &U16CString) -> (r: String)
    ensures
        r@ == utf16_lossy(wide_units(*s)),
{
    s.to_string_lossy()
}

/// Decodes the first `length` units of a buffer filled by the operating
/// system with a path: `None` when a nul stands anywhere but last among
/// them, else their lossy UTF-16 decoding without a final nul.
pub fn decode_wide_path(buffer: &[u16], length: usize) -> (r: Option<String>)
    requires
        length <= buffer@.len(),
    ensures
        r is None <==> has_interior_nul(buffer@.take(length as int)),
        r matches Some(s) ==> s@ == utf16_lossy(without_terminator(buffer@.take(length as int))),
        r matches Some(s) ==> (forall|i: int| 0 <= i < without_terminator(buffer@.take(length as int)).len()
            ==> is_plain_unit(#[trigger] without_terminator(buffer@.take(length as int))[i]))
            ==> s@ == without_terminator(buffer@.take(length as int)).map_values(|u: u16| u as char),
        r matches Some(s) ==> (without_terminator(buffer@.take(length as int)).len() > 0 ==> s@.len() > 0),
{
    let mut units: Vec<u16> = Vec::new();
    let mut i: usize = 0;
    while i < length
        invariant
            length <= buffer@.len(),
            i <= length,
            units@ == buffer@.take(i as int),
        decreases length - i,
    {
        units.push(buffer[i]);
        i = i + 1;
        assert(units@ == buffer@.take(i as int));
    }
    match wide_cstring_from_vec(units) {
        None => None,
        Some(s) => {
            let text = wide_cstring_to_string_lossy(&s);
            proof {
                let w = without_terminator(buffer@.take(length as int));
                if forall|i: int| 0 <= i < w.len() ==> is_plain_unit(#[trigger] w[i]) {
                    lemma_plain_units_decode(w);
                }
                lemma_decoding_nonempty(w);
            }
            Some(text)
        },
    }
}

} // verus!

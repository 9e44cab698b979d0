//! The calls this library makes into `pdf`, `pdf_encoding` and std, each with
//! the contract that the called code is relied on for.

use std::collections::HashMap;

use pdf::font::ToUnicodeMap;
use pdf_encoding::DifferenceForwardMap;
use vstd::prelude::*;
use vstd::string::StringExecFns;

verus! {

#[verifier::external_type_specification]
#[verifier::external_body]
pub struct ExToUnicodeMap(ToUnicodeMap);

#[verifier::external_type_specification]
#[verifier::external_body]
pub struct ExDifferenceForwardMap(DifferenceForwardMap);

/// The base encoding tables a font may name under its encoding entry.
#[derive(Clone, Copy, Debug, PartialEq, Eq, Structural)]
pub enum BaseEncoding {
    StandardEncoding,
    SymbolEncoding,
    WinAnsiEncoding,
    MacRomanEncoding,
    /// No base table is named: only the differences give text.
    BuiltIn,
    /// A table this library has no mapping for.
    Unsupported,
}

impl BaseEncoding {
    pub open spec fn is_supported(self) -> bool {
        self != BaseEncoding::Unsupported
    }

    pub open spec fn has_table(self) -> bool {
        self != BaseEncoding::Unsupported && self != BaseEncoding::BuiltIn
    }
}

/// What a `ToUnicodeMap` holds: the text of each code it maps.
pub uninterp spec fn unicode_entries(m: ToUnicodeMap) -> Map<u16, Seq<char>>;

/// What a `DifferenceForwardMap` holds: the text of each byte code it maps.
pub uninterp spec fn forward_entries(m: DifferenceForwardMap) -> Map<u8, Seq<char>>;

/// The text that the Adobe glyph list gives a glyph name, if it knows the name.
pub uninterp spec fn glyph_text(name: Seq<char>) -> Option<Seq<char>>;

/// The character that a base encoding table gives a byte code, if any.
pub uninterp spec fn base_char(base: BaseEncoding, code: u8) -> Option<char>;

/// The text of bytes read as UTF-8, or nothing where they are not valid UTF-8.
pub uninterp spec fn utf8_text(bytes: Seq<u8>) -> Option<Seq<char>>;

/// The text of bytes read as UTF-16 big-endian code units (an odd last byte is
/// not read), or nothing where the units are not valid UTF-16.
pub uninterp spec fn utf16be_text(bytes: Seq<u8>) -> Option<Seq<char>>;

pub open spec fn map_get<K>(m: Map<K, Seq<char>>, k: K) -> Option<Seq<char>> {
    if m.contains_key(k) {
        Some(m[k])
    } else {
        None
    }
}

/// The text a difference map gives a byte code: the override's glyph text where
/// the glyph list knows the name, else the base table's character.
pub open spec fn override_entry(
    base: BaseEncoding,
    differences: Map<u32, String>,
    code: u8,
) -> Option<Seq<char>> {
    if differences.contains_key(code as u32) && glyph_text(differences[code as u32]@) is Some {
        glyph_text(differences[code as u32]@)
    } else if base.has_table() && base_char(base, code) is Some {
        Some(seq![base_char(base, code)->Some_0])
    } else {
        None
    }
}

/// Relies on pdf's `ToUnicodeMap::get`: the text stored for a code, if any.
#[verifier::external_body]
pub(crate) fn unicode_map_get(m: &ToUnicodeMap, code: u16) -> (r: Option<String>)
    ensures
        match r {
            Some(s) => map_get(unicode_entries(*m), code) == Some(s@),
            None => map_get(unicode_entries(*m), code) is None,
        },
{
    m.get(code).map(|s| s.to_string())
}

/// Relies on pdf_encoding's `DifferenceForwardMap::new` over the tables
/// `STANDARD`, `SYMBOL`, `WINANSI` and `MACROMAN`: each byte code maps to the
/// glyph-list text of its override where there is one, else to the base
/// table's character.
#[verifier::external_body]
pub(crate) fn difference_map_new(
    base: BaseEncoding,
    differences: HashMap<u32, String>,
) -> (r: DifferenceForwardMap)
    requires
        base.is_supported(),
    ensures
        forall|c: u8| #[trigger]
            map_get(forward_entries(r), c) == (if differences@.contains_key(c as u32) && glyph_text(
                differences@[c as u32]@,
            ) is Some {
                glyph_text(differences@[c as u32]@)
            } else if base.has_table() && base_char(base, c) is Some {
                Some(seq![base_char(base, c)->Some_0])
            } else {
                None
            }),
{
    let table = match base {
        BaseEncoding::StandardEncoding => Some(&pdf_encoding::STANDARD),
        BaseEncoding::SymbolEncoding => Some(&pdf_encoding::SYMBOL),
        BaseEncoding::WinAnsiEncoding => Some(&pdf_encoding::WINANSI),
        BaseEncoding::MacRomanEncoding => Some(&pdf_encoding::MACROMAN),
        BaseEncoding::BuiltIn | BaseEncoding::Unsupported => None,
    };
    DifferenceForwardMap::new(table, differences)
}

/// Relies on pdf_encoding's `DifferenceForwardMap::get`: the text stored for a
/// byte code, if any.
#[verifier::external_body]
pub(crate) fn difference_map_get(m: &DifferenceForwardMap, code: u8) -> (r: Option<String>)
    ensures
        match r {
            Some(s) => map_get(forward_entries(*m), code) == Some(s@),
            None => map_get(forward_entries(*m), code) is None,
        },
{
    m.get(code).cloned()
}

/// Relies on `std::str::from_utf8`: the text where the bytes are valid UTF-8.
#[verifier::external_body]
pub(crate) fn utf8_decode(bytes: &[u8]) -> (r: Option<String>)
    ensures
        match r {
            Some(s) => utf8_text(bytes@) == Some(s@),
            None => utf8_text(bytes@) is None,
        },
        bytes@.len() == 0 ==> r is Some && r->Some_0@.len() == 0,
{
    std::str::from_utf8(bytes).ok().map(|s| s.to_string())
}

/// Relies on pdf's `utf16be_to_char`: the characters of the big-endian code
/// units, or nothing where one of them does not decode.
#[verifier::external_body]
pub(crate) fn utf16be_decode(bytes: &[u8]) -> (r: Option<String>)
    ensures
        match r {
            Some(s) => utf16be_text(bytes@) == Some(s@),
            None => utf16be_text(bytes@) is None,
        },
        bytes@.len() == 0 ==> r is Some && r->Some_0@.len() == 0,
{
    pdf::font::utf16be_to_char(bytes).collect::<Result<String, _>>().ok()
}

/// Relies on `String::push`: the character is appended.
#[verifier::external_body]
pub(crate) fn push_char(out: &mut String, c: char)
    ensures
        final(out)@ == old(out)@.push(c),
{
    out.push(c)
}

/// Relies on `str::chars`: the characters of a string, in order.
#[verifier::external_body]
pub(crate) fn chars_of(s: &str) -> (r: Vec<char>)
    ensures
        r@ == s@,
{
    s.chars().collect()
}

/// Relies on `String::from_iter`: the string of the characters, in order.
#[verifier::external_body]
pub(crate) fn string_of(cs: &[char]) -> (r: String)
    ensures
        r@ == cs@,
{
    cs.iter().collect()
}

/// Appends `s` to `out`.
pub(crate) fn push_text(out: &mut String, s: &String)
    ensures
        final(out)@ == old(out)@ + s@,
{
    out.append(s.as_str());
}

} // verus!

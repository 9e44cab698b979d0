//! Glyph decoders: how the bytes a drawing operator shows become text.

use pdf::font::ToUnicodeMap;
use pdf_encoding::DifferenceForwardMap;
use vstd::prelude::*;

use crate::outside::{
    difference_map_get, forward_entries, map_get, push_char, push_text, unicode_entries,
    unicode_map_get, utf16be_decode, utf16be_text, utf8_decode, utf8_text,
};

verus! {

/// The ways a font's bytes are turned into text.
pub enum GlyphDecoder {
    /// An embedded code-to-text map.
    UnicodeMap(ToUnicodeMap),
    /// Byte codes through a difference table laid over a base encoding.
    DifferenceMap(DifferenceForwardMap),
    /// No table: the bytes are UTF-16BE behind a byte-order mark, else UTF-8.
    RawFallback,
    /// The default for unresolved fonts: no text at all.
    Silent,
}

/// Why the text of a page could not be reconstructed.
#[derive(Debug)]
pub enum TextError {
    /// Bytes under the raw fallback that are not valid UTF-8.
    Utf8Decode(Vec<u8>),
    /// Bytes after a byte-order mark that are not valid UTF-16BE.
    Utf16Decode,
    /// Marked content whose properties are not of the expected kind.
    UnexpectedPrimitive { expected: String, found: String },
}

/// The mathematical content of a [`TextError`].
pub enum TextErrorView {
    Utf8Decode(Seq<u8>),
    Utf16Decode,
    UnexpectedPrimitive(Seq<char>, Seq<char>),
}

impl View for TextError {
    type V = TextErrorView;

    open spec fn view(&self) -> TextErrorView {
        match self {
            TextError::Utf8Decode(b) => TextErrorView::Utf8Decode(b@),
            TextError::Utf16Decode => TextErrorView::Utf16Decode,
            TextError::UnexpectedPrimitive { expected, found } => TextErrorView::UnexpectedPrimitive(
                expected@,
                found@,
            ),
        }
    }
}

pub open spec fn has_bom(data: Seq<u8>) -> bool {
    data.len() >= 2 && data[0] == 0xfeu8 && data[1] == 0xffu8
}

pub open spec fn text_or_empty(t: Option<Seq<char>>) -> Seq<char> {
    match t {
        Some(s) => s,
        None => Seq::empty(),
    }
}

/// Each byte looked up on its own in a map keyed by byte codes; unmapped bytes
/// give nothing.
pub open spec fn bytes_text(m: Map<u8, Seq<char>>, data: Seq<u8>) -> Seq<char>
    decreases data.len(),
{
    if data.len() == 0 {
        Seq::empty()
    } else {
        bytes_text(m, data.drop_last()) + text_or_empty(map_get(m, data.last()))
    }
}

/// Each byte looked up on its own in a map keyed by 16-bit codes.
pub open spec fn codes_text(m: Map<u16, Seq<char>>, data: Seq<u8>) -> Seq<char>
    decreases data.len(),
{
    if data.len() == 0 {
        Seq::empty()
    } else {
        codes_text(m, data.drop_last()) + text_or_empty(map_get(m, data.last() as u16))
    }
}

/// The `i`-th big-endian 2-byte code unit of `data`.
pub open spec fn unit_at(data: Seq<u8>, i: int) -> u16 {
    (data[2 * i] as int * 256 + data[2 * i + 1] as int) as u16
}

/// The first `n` 2-byte code units of `data`, each looked up on its own.
pub open spec fn units_text(m: Map<u16, Seq<char>>, data: Seq<u8>, n: nat) -> Seq<char>
    decreases n,
{
    if n == 0 {
        Seq::empty()
    } else {
        units_text(m, data, (n - 1) as nat) + text_or_empty(map_get(m, unit_at(data, n - 1)))
    }
}

/// The mathematical content of a decoder: its tables as maps.
pub enum FontModel {
    UnicodeMap(Map<u16, Seq<char>>),
    DifferenceMap(Map<u8, Seq<char>>),
    RawFallback,
    Silent,
}

impl View for GlyphDecoder {
    type V = FontModel;

    open spec fn view(&self) -> FontModel {
        match self {
            GlyphDecoder::UnicodeMap(m) => FontModel::UnicodeMap(unicode_entries(*m)),
            GlyphDecoder::DifferenceMap(m) => FontModel::DifferenceMap(forward_entries(*m)),
            GlyphDecoder::RawFallback => FontModel::RawFallback,
            GlyphDecoder::Silent => FontModel::Silent,
        }
    }
}

/// What a font makes of the bytes of one drawing operator.
pub open spec fn decoded(f: FontModel, data: Seq<u8>) -> Result<Seq<char>, TextErrorView> {
    match f {
        FontModel::UnicodeMap(m) => Ok(
            if has_bom(data) {
                let units = data.skip(2);
                units_text(m, units, units.len() / 2)
            } else {
                codes_text(m, data)
            },
        ),
        FontModel::DifferenceMap(m) => Ok(bytes_text(m, data)),
        FontModel::RawFallback => if has_bom(data) {
            match utf16be_text(data.skip(2)) {
                Some(t) => Ok(t),
                None => Err(TextErrorView::Utf16Decode),
            }
        } else {
            match utf8_text(data) {
                Some(t) => Ok(t),
                None => Err(TextErrorView::Utf8Decode(data)),
            }
        },
        FontModel::Silent => Ok(Seq::empty()),
    }
}

/// A font as the text reconstruction sees it: its decoder.
pub struct FontInfo {
    pub decoder: GlyphDecoder,
}

fn starts_with_bom(data: &[u8]) -> (r: bool)
    ensures
        r == has_bom(data@),
{
    data.len() >= 2 && data[0] == 0xfe && data[1] == 0xff
}

fn copy_bytes(data: &[u8]) -> (r: Vec<u8>)
    ensures
        r@ == data@,
{
    let mut r: Vec<u8> = Vec::new();
    let mut i: usize = 0;
    while i < data.len()
        invariant
            i <= data@.len(),
            r@ == data@.take(i as int),
        decreases data@.len() - i,
    {
        r.push(data[i]);
        i = i + 1;
        assert(r@ =~= data@.take(i as int));
    }
    assert(data@.take(data@.len() as int) =~= data@);
    r
}

fn decode_units(m: &ToUnicodeMap, data: &[u8], out: &mut String)
    ensures
        final(out)@ == old(out)@ + units_text(unicode_entries(*m), data@, data@.len() / 2),
{
    let len = data.len();
    let n = len / 2;
    let mut i: usize = 0;
    while i < n
        invariant
            len == data@.len(),
            n == data@.len() / 2,
            i <= n,
            out@ == old(out)@ + units_text(unicode_entries(*m), data@, i as nat),
        decreases n - i,
    {
        assert(2 * i + 1 < data@.len());
        let unit: u16 = (data[2 * i] as u16) * 256 + (data[2 * i + 1] as u16);
        assert(unit == unit_at(data@, i as int));
        if let Some(s) = unicode_map_get(m, unit) {
            push_text(out, &s);
        }
        i = i + 1;
        assert(out@ == old(out)@ + units_text(unicode_entries(*m), data@, i as nat));
    }
}

fn decode_codes(m: &ToUnicodeMap, data: &[u8], out: &mut String)
    ensures
        final(out)@ == old(out)@ + codes_text(unicode_entries(*m), data@),
{
    let mut i: usize = 0;
    while i < data.len()
        invariant
            i <= data@.len(),
            out@ == old(out)@ + codes_text(unicode_entries(*m), data@.take(i as int)),
        decreases data@.len() - i,
    {
        if let Some(s) = unicode_map_get(m, data[i] as u16) {
            push_text(out, &s);
        }
        assert(data@.take(i + 1).drop_last() =~= data@.take(i as int));
        i = i + 1;
    }
    assert(data@.take(data@.len() as int) =~= data@);
}

fn decode_bytes(m: &DifferenceForwardMap, data: &[u8], out: &mut String)
    ensures
        final(out)@ == old(out)@ + bytes_text(forward_entries(*m), data@),
{
    let mut i: usize = 0;
    while i < data.len()
        invariant
            i <= data@.len(),
            out@ == old(out)@ + bytes_text(forward_entries(*m), data@.take(i as int)),
        decreases data@.len() - i,
    {
        if let Some(s) = difference_map_get(m, data[i]) {
            push_text(out, &s);
        }
        assert(data@.take(i + 1).drop_last() =~= data@.take(i as int));
        i = i + 1;
    }
    assert(data@.take(data@.len() as int) =~= data@);
}

impl View for FontInfo {
    type V = FontModel;

    open spec fn view(&self) -> FontModel {
        self.decoder@
    }
}

impl FontInfo {
    /// The text this font gives `data`.
    pub open spec fn decoded(&self, data: Seq<u8>) -> Result<Seq<char>, TextErrorView> {
        decoded(self@, data)
    }

    /// Appends the text of `data` to `out`; on an error `out` is left as it was.
    pub fn decode(&self, data: &[u8], out: &mut String) -> (r: Result<(), TextError>)
        ensures
            match self.decoded(data@) {
                Ok(t) => r is Ok && final(out)@ == old(out)@ + t,
                Err(e) => r is Err && r->Err_0@ == e && final(out)@ == old(out)@,
            },
    {
        match &self.decoder {
            GlyphDecoder::UnicodeMap(m) => {
                if starts_with_bom(data) {
                    let (_, units) = data.split_at(2);
                    assert(units@ =~= data@.skip(2));
                    decode_units(m, units, out);
                } else {
                    decode_codes(m, data, out);
                }
                Ok(())
            },
            GlyphDecoder::DifferenceMap(m) => {
                decode_bytes(m, data, out);
                Ok(())
            },
            GlyphDecoder::RawFallback => {
                if starts_with_bom(data) {
                    let (_, units) = data.split_at(2);
                    assert(units@ =~= data@.skip(2));
                    match utf16be_decode(units) {
                        Some(s) => {
                            push_text(out, &s);
                            Ok(())
                        },
                        None => Err(TextError::Utf16Decode),
                    }
                } else {
                    match utf8_decode(data) {
                        Some(s) => {
                            push_text(out, &s);
                            Ok(())
                        },
                        None => Err(TextError::Utf8Decode(copy_bytes(data))),
                    }
                }
            },
            GlyphDecoder::Silent => {
                assert(old(out)@ + Seq::<char>::empty() =~= old(out)@);
                Ok(())
            },
        }
    }
}

proof fn lemma_codes_one_char_each(m: Map<u16, Seq<char>>, data: Seq<u8>)
    requires
        forall|b: u8| #[trigger] m.contains_key(b as u16) && m[b as u16].len() == 1,
    ensures
        codes_text(m, data) == Seq::new(data.len(), |i: int| m[data[i] as u16][0]),
    decreases data.len(),
{
    if data.len() == 0 {
        assert(codes_text(m, data) =~= Seq::new(data.len(), |i: int| m[data[i] as u16][0]));
    } else {
        lemma_codes_one_char_each(m, data.drop_last());
        let b = data.last();
        assert(m.contains_key(b as u16) && m[b as u16].len() == 1);
        assert(m[b as u16] =~= seq![m[b as u16][0]]);
        assert(codes_text(m, data) =~= Seq::new(data.len(), |i: int| m[data[i] as u16][0]));
    }
}

/// Under an embedded map that gives every byte code exactly one character,
/// bytes without a byte-order mark decode to those characters, one per byte,
/// in the order of the bytes.
pub proof fn lemma_unicode_map_letters(font: FontInfo, data: Seq<u8>)
    requires
        font@ is UnicodeMap,
        forall|b: u8| #[trigger]
            font@->UnicodeMap_0.contains_key(b as u16) && font@->UnicodeMap_0[b as u16].len() == 1,
        !has_bom(data),
    ensures
        font.decoded(data) == Ok::<Seq<char>, TextErrorView>(
            Seq::new(data.len(), |i: int| font@->UnicodeMap_0[data[i] as u16][0]),
        ),
{
    let m = font@->UnicodeMap_0;
    assert forall|b: u8| #[trigger] m.contains_key(b as u16) && m[b as u16].len() == 1 by {
        assert(font@->UnicodeMap_0.contains_key(b as u16));
    }
    lemma_codes_one_char_each(m, data);
}

/// Under an embedded map, bytes behind the byte-order mark 0xFE 0xFF are read
/// as 2-byte big-endian code units; the same bytes without the mark are read
/// one byte at a time.
pub proof fn lemma_bom_selects_code_units(font: FontInfo, data: Seq<u8>)
    requires
        font@ is UnicodeMap,
        has_bom(data),
        !has_bom(data.skip(2)),
    ensures
        font.decoded(data) == Ok::<Seq<char>, TextErrorView>(
            units_text(font@->UnicodeMap_0, data.skip(2), data.skip(2).len() / 2),
        ),
        font.decoded(data.skip(2)) == Ok::<Seq<char>, TextErrorView>(
            codes_text(font@->UnicodeMap_0, data.skip(2)),
        ),
{
}

} // verus!

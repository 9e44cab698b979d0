//! The fonts of one page, resolved to decoders and looked up by name.

use std::collections::HashMap;

use pdf::font::ToUnicodeMap;
use vstd::prelude::*;

use crate::decoder::{bytes_text, decoded, FontInfo, FontModel, GlyphDecoder, TextErrorView};
use crate::outside::{
    base_char, difference_map_new, forward_entries, glyph_text, map_get, override_entry,
    unicode_entries, BaseEncoding,
};

verus! {

/// A base encoding with the codes whose glyph names it overrides.
pub struct FontEncoding {
    pub base: BaseEncoding,
    pub differences: HashMap<u32, String>,
}

/// What a page's resources say of a font.
pub struct FontDescription {
    pub unicode_map: Option<ToUnicodeMap>,
    pub encoding: Option<FontEncoding>,
}

/// A font under the name it is referred to by.
pub struct NamedFont {
    pub name: String,
    pub font: FontDescription,
}

/// The font of a graphics state; `font` is empty where its reference could
/// not be resolved.
pub struct GraphicsStateFont {
    pub font: Option<NamedFont>,
    pub size: i32,
}

/// A named graphics-state resource.
pub struct GraphicsState {
    pub name: String,
    pub font: Option<GraphicsStateFont>,
}

/// The resources of one page that text reconstruction reads.
pub struct PageResources {
    pub fonts: Vec<NamedFont>,
    pub graphics_states: Vec<GraphicsState>,
}

/// A registered font.
pub struct FontEntry {
    pub name: String,
    pub info: FontInfo,
}

/// A graphics state as the registry keeps it: its name, and the name of its
/// font (empty where unresolved) with the font size.
pub struct StateEntry {
    pub name: String,
    pub font: Option<(Option<String>, i32)>,
}

pub open spec fn override_map(base: BaseEncoding, differences: Map<u32, String>) -> Map<
    u8,
    Seq<char>,
> {
    Map::new(
        |c: u8| override_entry(base, differences, c) is Some,
        |c: u8| override_entry(base, differences, c)->Some_0,
    )
}

/// The decoder a font description resolves to: its embedded map, else its
/// encoding, else the raw fallback; nothing where the base encoding is
/// unsupported.
pub open spec fn resolved(f: FontDescription) -> Option<FontModel> {
    match f.unicode_map {
        Some(m) => Some(FontModel::UnicodeMap(unicode_entries(m))),
        None => match f.encoding {
            Some(e) => if e.base.is_supported() {
                Some(FontModel::DifferenceMap(override_map(e.base, e.differences@)))
            } else {
                None
            },
            None => Some(FontModel::RawFallback),
        },
    }
}

/// The first position of `name` among the registered fonts.
pub open spec fn find_font(entries: Seq<(Seq<char>, FontModel)>, name: Seq<char>) -> Option<int>
    decreases entries.len(),
{
    if entries.len() == 0 {
        None
    } else {
        match find_font(entries.drop_last(), name) {
            Some(i) => Some(i),
            None => if entries.last().0 == name {
                Some(entries.len() - 1)
            } else {
                None
            },
        }
    }
}

/// Registration of one font: kept out where the name is taken or the font
/// does not resolve.
pub open spec fn with_font(entries: Seq<(Seq<char>, FontModel)>, f: NamedFont) -> Seq<
    (Seq<char>, FontModel),
> {
    if find_font(entries, f.name@) is Some {
        entries
    } else {
        match resolved(f.font) {
            Some(m) => entries.push((f.name@, m)),
            None => entries,
        }
    }
}

pub open spec fn with_fonts(entries: Seq<(Seq<char>, FontModel)>, fonts: Seq<NamedFont>) -> Seq<
    (Seq<char>, FontModel),
>
    decreases fonts.len(),
{
    if fonts.len() == 0 {
        entries
    } else {
        with_font(with_fonts(entries, fonts.drop_last()), fonts.last())
    }
}

/// The fonts of the graphics states, registered by their own names.
pub open spec fn with_state_fonts(
    entries: Seq<(Seq<char>, FontModel)>,
    states: Seq<GraphicsState>,
) -> Seq<(Seq<char>, FontModel)>
    decreases states.len(),
{
    if states.len() == 0 {
        entries
    } else {
        let before = with_state_fonts(entries, states.drop_last());
        match states.last().font {
            Some(g) => match g.font {
                Some(f) => with_font(before, f),
                None => before,
            },
            None => before,
        }
    }
}

/// The fonts a page registers: its named fonts, then those of its graphics
/// states.
pub open spec fn registered(r: PageResources) -> Seq<(Seq<char>, FontModel)> {
    with_state_fonts(with_fonts(Seq::empty(), r.fonts@), r.graphics_states@)
}

pub open spec fn state_view(g: GraphicsState) -> (Seq<char>, Option<(Option<Seq<char>>, i32)>) {
    (
        g.name@,
        match g.font {
            Some(f) => Some(
                (
                    match f.font {
                        Some(n) => Some(n.name@),
                        None => None,
                    },
                    f.size,
                ),
            ),
            None => None,
        },
    )
}

pub open spec fn state_entry_view(s: StateEntry) -> (
    Seq<char>,
    Option<(Option<Seq<char>>, i32)>,
) {
    (
        s.name@,
        match s.font {
            Some(f) => Some(
                (
                    match f.0 {
                        Some(n) => Some(n@),
                        None => None,
                    },
                    f.1,
                ),
            ),
            None => None,
        },
    )
}

pub open spec fn states_view(states: Seq<GraphicsState>) -> Seq<
    (Seq<char>, Option<(Option<Seq<char>>, i32)>),
> {
    states.map_values(|g: GraphicsState| state_view(g))
}

pub open spec fn find_state(
    states: Seq<(Seq<char>, Option<(Option<Seq<char>>, i32)>)>,
    name: Seq<char>,
) -> Option<int>
    decreases states.len(),
{
    if states.len() == 0 {
        None
    } else {
        match find_state(states.drop_last(), name) {
            Some(i) => Some(i),
            None => if states.last().0 == name {
                Some(states.len() - 1)
            } else {
                None
            },
        }
    }
}

proof fn lemma_find_font_prefix(entries: Seq<(Seq<char>, FontModel)>, name: Seq<char>, k: int)
    requires
        0 <= k <= entries.len(),
        find_font(entries.take(k), name) is Some,
    ensures
        find_font(entries, name) == find_font(entries.take(k), name),
    decreases entries.len(),
{
    if entries.len() == k {
        assert(entries.take(k) =~= entries);
    } else {
        assert(entries.drop_last().take(k) =~= entries.take(k));
        lemma_find_font_prefix(entries.drop_last(), name, k);
    }
}

proof fn lemma_find_state_prefix(
    states: Seq<(Seq<char>, Option<(Option<Seq<char>>, i32)>)>,
    name: Seq<char>,
    k: int,
)
    requires
        0 <= k <= states.len(),
        find_state(states.take(k), name) is Some,
    ensures
        find_state(states, name) == find_state(states.take(k), name),
    decreases states.len(),
{
    if states.len() == k {
        assert(states.take(k) =~= states);
    } else {
        assert(states.drop_last().take(k) =~= states.take(k));
        lemma_find_state_prefix(states.drop_last(), name, k);
    }
}

/// The mathematical content of a [`FontCache`].
pub struct RegistryView {
    pub fonts: Seq<(Seq<char>, FontModel)>,
    pub states: Seq<(Seq<char>, Option<(Option<Seq<char>>, i32)>)>,
}

impl RegistryView {
    /// The font a handle stands for: a registered font, else the default one,
    /// which gives no text.
    pub open spec fn font_model(self, handle: Option<usize>) -> FontModel {
        match handle {
            Some(i) => if i < self.fonts.len() {
                self.fonts[i as int].1
            } else {
                FontModel::Silent
            },
            None => FontModel::Silent,
        }
    }

    /// The handle of the font registered under `name`.
    pub open spec fn handle_of(self, name: Seq<char>) -> Option<usize> {
        match find_font(self.fonts, name) {
            Some(i) => Some(i as usize),
            None => None,
        }
    }

    /// The font and size that the graphics state `name` sets: absent where
    /// there is no such state, it names no font, or its font could not be
    /// resolved; a font name that is not registered gives the default font.
    pub open spec fn state_font(self, name: Seq<char>) -> Option<(Option<usize>, i32)> {
        match find_state(self.states, name) {
            Some(i) => match self.states[i].1 {
                Some((Some(n), size)) => Some((self.handle_of(n), size)),
                _ => None,
            },
            None => None,
        }
    }
}

/// The registry that a page's resources give.
pub open spec fn page_registry(r: PageResources) -> RegistryView {
    RegistryView { fonts: registered(r), states: states_view(r.graphics_states@) }
}

/// The fonts and graphics states of one page.
pub struct FontCache {
    fonts: Vec<FontEntry>,
    states: Vec<StateEntry>,
    default_font: FontInfo,
}

impl View for FontCache {
    type V = RegistryView;

    open spec fn view(&self) -> RegistryView {
        RegistryView { fonts: self.entries(), states: self.states() }
    }
}

impl FontCache {
    /// The registered fonts, in order of registration.
    pub closed spec fn entries(&self) -> Seq<(Seq<char>, FontModel)> {
        self.fonts@.map_values(|e: FontEntry| (e.name@, e.info@))
    }

    /// The graphics states, in the page's order.
    pub closed spec fn states(&self) -> Seq<(Seq<char>, Option<(Option<Seq<char>>, i32)>)> {
        self.states@.map_values(|s: StateEntry| state_entry_view(s))
    }

    pub closed spec fn wf(&self) -> bool {
        self.default_font@ == FontModel::Silent
    }

    /// Builds the registry of a page from its resources.
    pub fn new(resources: PageResources) -> (r: FontCache)
        ensures
            r.wf(),
            r@ == page_registry(resources),
    {
        let mut cache = FontCache {
            fonts: Vec::new(),
            states: Vec::new(),
            default_font: FontInfo { decoder: GlyphDecoder::Silent },
        };
        assert(cache.entries() =~= Seq::empty());
        assert(cache.states() =~= Seq::empty());
        cache.populate(resources);
        cache
    }

    /// Registers the named fonts of a page, then the fonts of its graphics
    /// states, and keeps its graphics states.
    pub fn populate(&mut self, resources: PageResources)
        requires
            old(self).wf(),
        ensures
            final(self).wf(),
            final(self).entries() == with_state_fonts(
                with_fonts(old(self).entries(), resources.fonts@),
                resources.graphics_states@,
            ),
            final(self).states() == old(self).states() + states_view(
                resources.graphics_states@,
            ),
    {
        let PageResources { mut fonts, mut graphics_states } = resources;
        let ghost all_fonts = fonts@;
        let ghost all_states = graphics_states@;
        let ghost start = self.entries();
        let ghost start_states = self.states();
        let ghost mut k: int = 0;
        assert(all_fonts.take(0) =~= Seq::<NamedFont>::empty());
        assert(all_fonts.skip(0) =~= all_fonts);
        while fonts.len() > 0
            invariant
                self.wf(),
                0 <= k <= all_fonts.len(),
                fonts@ == all_fonts.skip(k),
                self.entries() == with_fonts(start, all_fonts.take(k)),
                self.states() == start_states,
            decreases fonts@.len(),
        {
            let f = fonts.remove(0);
            assert(f == all_fonts[k]);
            assert(all_fonts.take(k + 1).drop_last() =~= all_fonts.take(k));
            self.add_font(f.name, f.font);
            proof {
                k = k + 1;
            }
            assert(fonts@ =~= all_fonts.skip(k));
        }
        assert(all_fonts.take(k) =~= all_fonts);
        let ghost mid = self.entries();
        let ghost mut j: int = 0;
        assert(all_states.take(0) =~= Seq::<GraphicsState>::empty());
        assert(all_states.skip(0) =~= all_states);
        assert(start_states + states_view(all_states.take(0)) =~= start_states);
        while graphics_states.len() > 0
            invariant
                self.wf(),
                0 <= j <= all_states.len(),
                graphics_states@ == all_states.skip(j),
                self.entries() == with_state_fonts(mid, all_states.take(j)),
                self.states() == start_states + states_view(all_states.take(j)),
            decreases graphics_states@.len(),
        {
            let g = graphics_states.remove(0);
            assert(g == all_states[j]);
            assert(all_states.take(j + 1).drop_last() =~= all_states.take(j));
            let ghost gv = state_view(g);
            let GraphicsState { name, font } = g;
            let kept = match font {
                Some(gf) => {
                    let GraphicsStateFont { font: named, size } = gf;
                    match named {
                        Some(nf) => {
                            let font_name = nf.name.clone();
                            self.add_font(nf.name, nf.font);
                            Some((Some(font_name), size))
                        },
                        None => Some((None, size)),
                    }
                },
                None => None,
            };
            let entry = StateEntry { name, font: kept };
            assert(state_entry_view(entry) == gv);
            let ghost before = self.states();
            self.states.push(entry);
            assert(self.states() =~= before.push(gv));
            proof {
                j = j + 1;
            }
            assert(states_view(all_states.take(j)) =~= states_view(all_states.take(j - 1)).push(
                gv,
            ));
            assert(self.states() =~= start_states + states_view(all_states.take(j)));
            assert(graphics_states@ =~= all_states.skip(j));
        }
        assert(all_states.take(j) =~= all_states);
    }

    /// Registers `font` under `name`, unless the name is taken or the font's
    /// base encoding is unsupported (then the font is left out).
    pub fn add_font(&mut self, name: String, font: FontDescription)
        requires
            old(self).wf(),
        ensures
            final(self).wf(),
            final(self).entries() == with_font(old(self).entries(), NamedFont { name, font }),
            final(self).states() == old(self).states(),
    {
        let ghost named = NamedFont { name, font };
        if self.find(&name).is_some() {
            return ;
        }
        let FontDescription { unicode_map, encoding } = font;
        let decoder = match unicode_map {
            Some(m) => GlyphDecoder::UnicodeMap(m),
            None => match encoding {
                Some(e) => {
                    if e.base == BaseEncoding::Unsupported {
                        return ;
                    }
                    let ghost expected = override_map(e.base, e.differences@);
                    let m = difference_map_new(e.base, e.differences);
                    assert forall|c: u8| #[trigger]
                        forward_entries(m).contains_key(c) == expected.contains_key(c) && (
                        expected.contains_key(c) ==> forward_entries(m)[c] == expected[c]) by {
                        assert(map_get(forward_entries(m), c) == override_entry(
                            e.base,
                            e.differences@,
                            c,
                        ));
                    }
                    assert(forward_entries(m) =~= expected);
                    GlyphDecoder::DifferenceMap(m)
                },
                None => GlyphDecoder::RawFallback,
            },
        };
        assert(resolved(named.font) == Some(decoder@));
        self.fonts.push(FontEntry { name, info: FontInfo { decoder } });
        assert(self.entries() =~= old(self).entries().push((named.name@, decoder@)));
    }

    fn find(&self, name: &String) -> (r: Option<usize>)
        ensures
            r == self@.handle_of(name@),
            r matches Some(i) ==> i < self.entries().len(),
    {
        let mut i: usize = 0;
        while i < self.fonts.len()
            invariant
                i <= self.fonts@.len(),
                find_font(self.entries().take(i as int), name@) is None,
            decreases self.fonts@.len() - i,
        {
            assert(self.entries().take(i + 1).drop_last() =~= self.entries().take(i as int));
            if self.fonts[i].name == *name {
                proof {
                    lemma_find_font_prefix(self.entries(), name@, i + 1);
                }
                return Some(i);
            }
            i = i + 1;
        }
        assert(self.entries().take(i as int) =~= self.entries());
        None
    }

    /// The handle of the font registered under `name`; empty where none is,
    /// which stands for the default font.
    pub fn get_by_font_name(&self, name: &str) -> (r: Option<usize>)
        ensures
            r == self@.handle_of(name@),
            r matches Some(i) ==> i < self.entries().len(),
    {
        let key = name.to_owned();
        self.find(&key)
    }

    /// The font of a handle; the default font where the handle is empty.
    pub fn font(&self, handle: Option<usize>) -> (r: &FontInfo)
        requires
            self.wf(),
        ensures
            r@ == self@.font_model(handle),
    {
        match handle {
            Some(i) => if i < self.fonts.len() {
                &self.fonts[i].info
            } else {
                &self.default_font
            },
            None => &self.default_font,
        }
    }

    /// The font handle and size that the graphics state `name` sets (see
    /// [`RegistryView::state_font`]).
    pub fn get_by_graphic_state_name(&self, name: &str) -> (r: Option<(Option<usize>, i32)>)
        ensures
            r == self@.state_font(name@),
    {
        let key = name.to_owned();
        let mut i: usize = 0;
        while i < self.states.len()
            invariant
                i <= self.states@.len(),
                key@ == name@,
                find_state(self.states().take(i as int), name@) is None,
            decreases self.states@.len() - i,
        {
            assert(self.states().take(i + 1).drop_last() =~= self.states().take(i as int));
            if self.states[i].name == key {
                proof {
                    lemma_find_state_prefix(self.states(), name@, i + 1);
                }
                return match &self.states[i].font {
                    Some((Some(font_name), size)) => Some((self.find(font_name), *size)),
                    _ => None,
                };
            }
            i = i + 1;
        }
        assert(self.states().take(i as int) =~= self.states());
        None
    }
}

/// A difference entry wins over the base table: where a font's differences
/// redefine code 65 to a glyph that the glyph list knows, while its base
/// table maps 65 to 'A', byte 65 decodes to that glyph's text.
pub proof fn lemma_override_wins(font: FontDescription, glyph: Seq<char>)
    requires
        font.unicode_map is None,
        font.encoding matches Some(e) && e.base.is_supported() && e.differences@.contains_key(
            65u32,
        ) && glyph_text(e.differences@[65u32]@) == Some(glyph) && base_char(e.base, 65u8) == Some(
            'A',
        ),
    ensures
        resolved(font) matches Some(f) && decoded(f, seq![65u8]) == Ok::<
            Seq<char>,
            TextErrorView,
        >(glyph),
{
    let e = font.encoding->Some_0;
    let m = override_map(e.base, e.differences@);
    let data = seq![65u8];
    assert(data.drop_last() =~= Seq::<u8>::empty());
    assert(override_entry(e.base, e.differences@, 65u8) == Some(glyph));
    assert(data.last() == 65u8);
    assert(map_get(m, data.last()) == Some(glyph));
    assert(bytes_text(m, data.drop_last()) == Seq::<char>::empty());
    assert(bytes_text(m, data) =~= Seq::<char>::empty() + glyph);
    assert(Seq::<char>::empty() + glyph =~= glyph);
}

} // verus!

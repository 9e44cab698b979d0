use std::collections::HashMap;

use pdf::font::ToUnicodeMap;
use viac_pdf_import::assemble::{page_text, pdf2strings, PageContent};
use viac_pdf_import::decoder::{FontInfo, GlyphDecoder, TextError};
use viac_pdf_import::outside::BaseEncoding;
use viac_pdf_import::registry::{
    FontCache, FontDescription, FontEncoding, GraphicsState, GraphicsStateFont, NamedFont,
    PageResources,
};
use viac_pdf_import::state::{
    ops_with_text_state, ContentOperator, MarkedProperties, TextItem, TextState, Transform, UNIT,
};

fn encoded_font(name: &str, base: BaseEncoding, differences: HashMap<u32, String>) -> NamedFont {
    NamedFont {
        name: name.to_string(),
        font: FontDescription {
            unicode_map: None,
            encoding: Some(FontEncoding { base, differences }),
        },
    }
}

fn win_ansi_page() -> PageResources {
    PageResources {
        fonts: vec![encoded_font("F1", BaseEncoding::WinAnsiEncoding, HashMap::new())],
        graphics_states: vec![],
    }
}

fn set_f1() -> ContentOperator {
    ContentOperator::SetFont { name: "F1".to_string(), size: 12 * UNIT }
}

fn draw(text: &str) -> ContentOperator {
    ContentOperator::DrawText { data: text.as_bytes().to_vec() }
}

fn letters_map() -> ToUnicodeMap {
    let mut m = ToUnicodeMap::new();
    for b in 0..=255u16 {
        let c = char::from_u32(0x100 + b as u32).unwrap();
        m.insert(b, c.to_string().as_str().into());
    }
    m
}

fn decode_with(decoder: GlyphDecoder, data: &[u8]) -> Result<String, TextError> {
    let font = FontInfo { decoder };
    let mut out = String::from(">");
    font.decode(data, &mut out)?;
    Ok(out)
}

#[test]
fn win_ansi_hello() {
    let ops = vec![ContentOperator::BeginText, set_f1(), draw("Hello")];
    assert_eq!(page_text(win_ansi_page(), ops).unwrap(), "Hello");
}

#[test]
fn zero_translation_is_a_line_break() {
    let ops = vec![
        ContentOperator::BeginText,
        set_f1(),
        draw("Hello"),
        ContentOperator::Translate { dx: 0, dy: 0 },
        draw("World"),
    ];
    assert_eq!(page_text(win_ansi_page(), ops).unwrap(), "Hello\nWorld");
}

#[test]
fn wide_horizontal_move_is_a_tab() {
    let ops = vec![
        ContentOperator::BeginText,
        set_f1(),
        draw("Hello"),
        ContentOperator::Translate { dx: 5 * UNIT, dy: -14 * UNIT },
        draw("World"),
    ];
    assert_eq!(page_text(win_ansi_page(), ops).unwrap(), "Hello\tWorld");
}

#[test]
fn small_move_adds_nothing() {
    let ops = vec![
        set_f1(),
        draw("ab"),
        ContentOperator::Translate { dx: 2 * UNIT, dy: -14 * UNIT },
        draw("cd"),
    ];
    assert_eq!(page_text(win_ansi_page(), ops).unwrap(), "abcd");
}

#[test]
fn span_without_actual_text_adds_nothing() {
    let ops = vec![
        set_f1(),
        draw("a"),
        ContentOperator::BeginMarkedContent {
            tag: "Span".to_string(),
            properties: Some(MarkedProperties::Dictionary { actual_text: None }),
        },
        draw("b"),
    ];
    assert_eq!(page_text(win_ansi_page(), ops).unwrap(), "ab");
    let without = vec![set_f1(), draw("a"), draw("b")];
    assert_eq!(page_text(win_ansi_page(), without).unwrap(), "ab");
}

#[test]
fn span_actual_text_is_decoded() {
    let ops = vec![
        set_f1(),
        ContentOperator::BeginMarkedContent {
            tag: "Span".to_string(),
            properties: Some(MarkedProperties::Dictionary { actual_text: Some(b"fi".to_vec()) }),
        },
    ];
    assert_eq!(page_text(win_ansi_page(), ops).unwrap(), "fi");
}

#[test]
fn span_with_other_properties_fails_the_page() {
    let ops = vec![
        set_f1(),
        draw("a"),
        ContentOperator::BeginMarkedContent {
            tag: "Span".to_string(),
            properties: Some(MarkedProperties::Other { kind: "Integer".to_string() }),
        },
    ];
    match page_text(win_ansi_page(), ops) {
        Err(TextError::UnexpectedPrimitive { expected, found }) => {
            assert_eq!(expected, "Dictionary");
            assert_eq!(found, "Integer");
        }
        other => panic!("unexpected result {:?}", other),
    }
}

#[test]
fn other_tags_are_ignored() {
    let ops = vec![
        set_f1(),
        ContentOperator::BeginMarkedContent {
            tag: "P".to_string(),
            properties: Some(MarkedProperties::Other { kind: "Integer".to_string() }),
        },
        draw("x"),
    ];
    assert_eq!(page_text(win_ansi_page(), ops).unwrap(), "x");
}

#[test]
fn newline_operator_always_breaks() {
    let ops = vec![
        set_f1(),
        ContentOperator::SetLeading { leading: -14 * UNIT },
        draw("a"),
        ContentOperator::Newline,
        draw("b"),
    ];
    assert_eq!(page_text(win_ansi_page(), ops).unwrap(), "a\nb");
}

#[test]
fn text_matrix_same_line_is_a_tab_new_line_breaks() {
    let m1 = Transform { a: UNIT, b: 0, c: 0, d: UNIT, e: 72_000_000, f: 700_000_000 };
    let m2 = Transform { e: 300_000_000, ..m1 };
    let m3 = Transform { f: 686_000_000, ..m1 };
    let ops = vec![
        set_f1(),
        ContentOperator::SetTextMatrix { matrix: m1 },
        draw("a"),
        ContentOperator::SetTextMatrix { matrix: m2 },
        draw("b"),
        ContentOperator::SetTextMatrix { matrix: m3 },
        draw("c"),
    ];
    assert_eq!(page_text(win_ansi_page(), ops).unwrap(), "\na\tb\nc");
}

#[test]
fn adjusted_text_skips_adjustments() {
    let ops = vec![
        set_f1(),
        ContentOperator::DrawAdjustedText {
            items: vec![
                TextItem::Text(b"Ab".to_vec()),
                TextItem::Adjustment(-250),
                TextItem::Text(b"c".to_vec()),
            ],
        },
    ];
    assert_eq!(page_text(win_ansi_page(), ops).unwrap(), "Abc");
}

#[test]
fn unknown_font_gives_no_text() {
    let ops = vec![
        ContentOperator::SetFont { name: "F9".to_string(), size: UNIT },
        draw("hidden"),
    ];
    assert_eq!(page_text(win_ansi_page(), ops).unwrap(), "");
}

#[test]
fn unsupported_encoding_drops_the_font() {
    let resources = PageResources {
        fonts: vec![encoded_font("F1", BaseEncoding::Unsupported, HashMap::new())],
        graphics_states: vec![],
    };
    let cache = FontCache::new(resources);
    assert_eq!(cache.get_by_font_name("F1"), None);
    let resources = PageResources {
        fonts: vec![encoded_font("F1", BaseEncoding::Unsupported, HashMap::new())],
        graphics_states: vec![],
    };
    assert_eq!(page_text(resources, vec![set_f1(), draw("x")]).unwrap(), "");
}

#[test]
fn first_registration_of_a_name_wins() {
    let mut differences = HashMap::new();
    differences.insert(65u32, "Alpha".to_string());
    let resources = PageResources {
        fonts: vec![
            encoded_font("F1", BaseEncoding::WinAnsiEncoding, HashMap::new()),
            encoded_font("F1", BaseEncoding::WinAnsiEncoding, differences),
        ],
        graphics_states: vec![],
    };
    assert_eq!(page_text(resources, vec![set_f1(), draw("A")]).unwrap(), "A");
}

#[test]
fn graphics_state_sets_font_and_size() {
    let resources = PageResources {
        fonts: vec![],
        graphics_states: vec![
            GraphicsState { name: "GS0".to_string(), font: None },
            GraphicsState {
                name: "GS9".to_string(),
                font: Some(GraphicsStateFont { font: None, size: 5 * UNIT }),
            },
            GraphicsState {
                name: "GS1".to_string(),
                font: Some(GraphicsStateFont {
                    font: Some(encoded_font(
                        "Helvetica",
                        BaseEncoding::StandardEncoding,
                        HashMap::new(),
                    )),
                    size: 9 * UNIT,
                }),
            },
        ],
    };
    let cache = FontCache::new(resources);
    assert_eq!(cache.get_by_graphic_state_name("GS0"), None);
    assert_eq!(cache.get_by_graphic_state_name("GS1"), Some((Some(0), 9 * UNIT)));
    assert_eq!(cache.get_by_graphic_state_name("GS2"), None);
    assert_eq!(cache.get_by_graphic_state_name("GS9"), None);
    let ops = vec![
        ContentOperator::SetGraphicsState { name: "GS0".to_string() },
        ContentOperator::SetGraphicsState { name: "GS1".to_string() },
        draw("Hi"),
    ];
    let pairs = ops_with_text_state(&cache, ops);
    assert_eq!(pairs[0].1, TextState::initial());
    assert_eq!(pairs[1].1.font, Some(0));
    assert_eq!(pairs[1].1.font_size, 9 * UNIT);
    assert_eq!(pairs[2].1, pairs[1].1);
}

#[test]
fn states_follow_the_operators() {
    let cache = FontCache::new(win_ansi_page());
    let ops = vec![
        ContentOperator::BeginText,
        set_f1(),
        ContentOperator::SetLeading { leading: 2 * UNIT },
        ContentOperator::Newline,
        ContentOperator::Translate { dx: 3 * UNIT, dy: 4 * UNIT },
        ContentOperator::Other,
    ];
    let pairs = ops_with_text_state(&cache, ops);
    assert_eq!(pairs.len(), 6);
    assert_eq!(pairs[0].1, TextState::initial());
    assert_eq!(pairs[1].1.font, Some(0));
    assert_eq!(pairs[1].1.font_size, 12 * UNIT);
    assert_eq!(pairs[2].1.text_leading, 2 * UNIT);
    assert_eq!(pairs[3].1.text_matrix.f, 2_000_000);
    assert_eq!(pairs[4].1.text_matrix.e, 3_000_000);
    assert_eq!(pairs[4].1.text_matrix.f, 6_000_000);
    assert_eq!(pairs[5].1, pairs[4].1);
}

#[test]
fn pre_translate_uses_the_linear_part() {
    let m = Transform { a: 2 * UNIT, b: 0, c: 0, d: 3 * UNIT, e: 1_000_000, f: 0 };
    let t = m.pre_translate(UNIT, -UNIT);
    assert_eq!(t.e, 3_000_000);
    assert_eq!(t.f, -3_000_000);
    let far = Transform { e: i64::MAX, ..m };
    assert_eq!(far.pre_translate(UNIT, 0).e, i64::MAX);
}

#[test]
fn unicode_map_letters_in_order() {
    let data: Vec<u8> = vec![0, 65, 255, 7, 65];
    let out = decode_with(GlyphDecoder::UnicodeMap(letters_map()), &data).unwrap();
    assert_eq!(out, ">\u{100}\u{141}\u{1ff}\u{107}\u{141}");
}

#[test]
fn byte_order_mark_selects_code_units() {
    let mut m = ToUnicodeMap::new();
    m.insert(0x0041, "x".into());
    m.insert(0x4142, "y".into());
    m.insert(0x42, "z".into());
    let with_mark = decode_with(GlyphDecoder::UnicodeMap(m.clone()), &[0xfe, 0xff, 0x41, 0x42]);
    assert_eq!(with_mark.unwrap(), ">y");
    let without_mark = decode_with(GlyphDecoder::UnicodeMap(m), &[0x41, 0x42]);
    assert_eq!(without_mark.unwrap(), ">xz");
}

#[test]
fn unmapped_codes_are_skipped() {
    let mut m = ToUnicodeMap::new();
    m.insert(0x0001, "one".into());
    let out = decode_with(GlyphDecoder::UnicodeMap(m), &[0xfe, 0xff, 0x00, 0x01, 0x00, 0x02, 0x00]);
    assert_eq!(out.unwrap(), ">one");
}

#[test]
fn difference_overrides_base_table() {
    let mut differences = HashMap::new();
    differences.insert(65u32, "Alpha".to_string());
    differences.insert(66u32, "no-such-glyph".to_string());
    let resources = PageResources {
        fonts: vec![encoded_font("F1", BaseEncoding::WinAnsiEncoding, differences)],
        graphics_states: vec![],
    };
    assert_eq!(page_text(resources, vec![set_f1(), draw("ABC")]).unwrap(), "\u{391}BC");
}

#[test]
fn built_in_encoding_maps_only_differences() {
    let mut differences = HashMap::new();
    differences.insert(1u32, "a".to_string());
    let resources = PageResources {
        fonts: vec![encoded_font("F1", BaseEncoding::BuiltIn, differences)],
        graphics_states: vec![],
    };
    assert_eq!(page_text(resources, vec![set_f1(), draw("\u{1}A")]).unwrap(), "a");
}

#[test]
fn raw_fallback_reads_utf8_and_utf16() {
    assert_eq!(decode_with(GlyphDecoder::RawFallback, "Grüße".as_bytes()).unwrap(), ">Grüße");
    let utf16 = [0xfe, 0xff, 0x00, 0x48, 0x00, 0xe9];
    assert_eq!(decode_with(GlyphDecoder::RawFallback, &utf16).unwrap(), ">Hé");
}

#[test]
fn raw_fallback_errors() {
    match decode_with(GlyphDecoder::RawFallback, &[0x61, 0xff]) {
        Err(TextError::Utf8Decode(bytes)) => assert_eq!(bytes, vec![0x61, 0xff]),
        other => panic!("unexpected result {:?}", other),
    }
    match decode_with(GlyphDecoder::RawFallback, &[0xfe, 0xff, 0xd8, 0x00]) {
        Err(TextError::Utf16Decode) => {}
        other => panic!("unexpected result {:?}", other),
    }
}

#[test]
fn silent_decoder_gives_nothing() {
    assert_eq!(decode_with(GlyphDecoder::Silent, &[0xff, 0xfe, 0x00]).unwrap(), ">");
}

#[test]
fn font_without_tables_uses_raw_fallback() {
    let resources = PageResources {
        fonts: vec![NamedFont {
            name: "F1".to_string(),
            font: FontDescription { unicode_map: None, encoding: None },
        }],
        graphics_states: vec![],
    };
    assert_eq!(page_text(resources, vec![set_f1(), draw("plain")]).unwrap(), "plain");
}

#[test]
fn extraction_is_repeatable() {
    let ops = || {
        vec![
            set_f1(),
            draw("Hello"),
            ContentOperator::Translate { dx: 0, dy: 0 },
            draw("World"),
        ]
    };
    let first = page_text(win_ansi_page(), ops()).unwrap();
    let second = page_text(win_ansi_page(), ops()).unwrap();
    assert_eq!(first, second);
}

#[test]
fn document_pages_in_order_and_first_error_fails() {
    let pages = vec![
        PageContent { resources: win_ansi_page(), operations: vec![set_f1(), draw("one")] },
        PageContent { resources: win_ansi_page(), operations: vec![set_f1(), draw("two")] },
    ];
    assert_eq!(pdf2strings(pages).unwrap(), vec!["one".to_string(), "two".to_string()]);
    let raw = PageResources {
        fonts: vec![NamedFont {
            name: "F1".to_string(),
            font: FontDescription { unicode_map: None, encoding: None },
        }],
        graphics_states: vec![],
    };
    let pages = vec![
        PageContent { resources: win_ansi_page(), operations: vec![set_f1(), draw("one")] },
        PageContent {
            resources: raw,
            operations: vec![set_f1(), ContentOperator::DrawText { data: vec![0xff] }],
        },
    ];
    assert!(matches!(pdf2strings(pages), Err(TextError::Utf8Decode(_))));
}

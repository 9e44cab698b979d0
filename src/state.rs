//! The text state along a page's operators: font, size, leading and text
//! matrix after each operator.
//!
//! Numbers are fixed-point. Operands (sizes, leading, translations and the
//! linear part of a matrix) count thousandths of a unit; the translation part
//! of a matrix counts millionths, so that translating a matrix is exact.

use vstd::prelude::*;

use crate::registry::{FontCache, RegistryView};

verus! {

/// One unit in the fixed-point operands.
pub const UNIT: i32 = 1000;

/// A 2D affine transform `[a b 0; c d 0; e f 1]`.
#[derive(Clone, Copy, Debug, PartialEq, Eq, Structural)]
pub struct Transform {
    pub a: i32,
    pub b: i32,
    pub c: i32,
    pub d: i32,
    pub e: i64,
    pub f: i64,
}

pub open spec fn clamp_i64(x: int) -> i64 {
    if x > i64::MAX {
        i64::MAX
    } else if x < i64::MIN {
        i64::MIN
    } else {
        x as i64
    }
}

pub open spec fn identity() -> Transform {
    Transform { a: 1000, b: 0, c: 0, d: 1000, e: 0, f: 0 }
}

/// The transform moved by `(dx, dy)` in its own space (a translation applied
/// before it); the translation saturates at the bounds of `i64`.
pub open spec fn pre_translated(m: Transform, dx: i32, dy: i32) -> Transform {
    Transform {
        a: m.a,
        b: m.b,
        c: m.c,
        d: m.d,
        e: clamp_i64(m.e + dx * m.a + dy * m.c),
        f: clamp_i64(m.f + dx * m.b + dy * m.d),
    }
}

fn wide_product(x: i32, y: i32) -> (r: i128)
    ensures
        r == x * y,
        -0x4000_0000_0000_0000 <= r <= 0x4000_0000_0000_0000,
{
    proof {
        assert(-0x4000_0000_0000_0000 <= x * y <= 0x4000_0000_0000_0000) by (nonlinear_arith)
            requires
                -0x8000_0000 <= x <= 0x7fff_ffff,
                -0x8000_0000 <= y <= 0x7fff_ffff,
        ;
    }
    (x as i128) * (y as i128)
}

fn saturate(x: i128) -> (r: i64)
    ensures
        r == clamp_i64(x as int),
{
    if x > i64::MAX as i128 {
        i64::MAX
    } else if x < i64::MIN as i128 {
        i64::MIN
    } else {
        x as i64
    }
}

impl Transform {
    pub fn identity() -> (r: Transform)
        ensures
            r == identity(),
    {
        Transform { a: 1000, b: 0, c: 0, d: 1000, e: 0, f: 0 }
    }

    /// This transform moved by `(dx, dy)` in its own space.
    pub fn pre_translate(&self, dx: i32, dy: i32) -> (r: Transform)
        ensures
            r == pre_translated(*self, dx, dy),
    {
        let e = self.e as i128 + wide_product(dx, self.a) + wide_product(dy, self.c);
        let f = self.f as i128 + wide_product(dx, self.b) + wide_product(dy, self.d);
        Transform { a: self.a, b: self.b, c: self.c, d: self.d, e: saturate(e), f: saturate(f) }
    }
}

/// One element of an adjusted-text array: bytes to show, or a kerning
/// adjustment.
pub enum TextItem {
    Text(Vec<u8>),
    Adjustment(i32),
}

/// The properties of a marked-content operator.
pub enum MarkedProperties {
    /// A dictionary, with the bytes of its `ActualText` string if it has one.
    Dictionary { actual_text: Option<Vec<u8>> },
    /// Any other kind of object, by the name of its kind.
    Other { kind: String },
}

/// The content-stream operators that text reconstruction reads.
pub enum ContentOperator {
    BeginText,
    SetFont { name: String, size: i32 },
    SetGraphicsState { name: String },
    SetLeading { leading: i32 },
    Newline,
    Translate { dx: i32, dy: i32 },
    SetTextMatrix { matrix: Transform },
    DrawText { data: Vec<u8> },
    DrawAdjustedText { items: Vec<TextItem> },
    BeginMarkedContent { tag: String, properties: Option<MarkedProperties> },
    Other,
}

/// The text state in force at one point of a page.
#[derive(Clone, Copy, Debug, PartialEq, Eq, Structural)]
pub struct TextState {
    /// The font's handle in the page's registry; empty for the default font.
    pub font: Option<usize>,
    pub font_size: i32,
    pub text_leading: i32,
    pub text_matrix: Transform,
}

pub open spec fn initial_state() -> TextState {
    TextState { font: None, font_size: 0, text_leading: 0, text_matrix: identity() }
}

/// The state after one operator.
pub open spec fn next_state(reg: RegistryView, s: TextState, op: ContentOperator) -> TextState {
    match op {
        ContentOperator::SetFont { name, size } => TextState {
            font: reg.handle_of(name@),
            font_size: size,
            ..s
        },
        ContentOperator::SetGraphicsState { name } => match reg.state_font(name@) {
            Some((font, size)) => TextState { font, font_size: size, ..s },
            None => s,
        },
        ContentOperator::SetLeading { leading } => TextState { text_leading: leading, ..s },
        ContentOperator::Newline => TextState {
            text_matrix: pre_translated(s.text_matrix, 0, s.text_leading),
            ..s
        },
        ContentOperator::Translate { dx, dy } => TextState {
            text_matrix: pre_translated(s.text_matrix, dx, dy),
            ..s
        },
        ContentOperator::SetTextMatrix { matrix } => TextState { text_matrix: matrix, ..s },
        _ => s,
    }
}

/// The state after a sequence of operators.
pub open spec fn state_after(reg: RegistryView, ops: Seq<ContentOperator>) -> TextState
    decreases ops.len(),
{
    if ops.len() == 0 {
        initial_state()
    } else {
        next_state(reg, state_after(reg, ops.drop_last()), ops.last())
    }
}

impl TextState {
    pub fn initial() -> (r: TextState)
        ensures
            r == initial_state(),
    {
        TextState { font: None, font_size: 0, text_leading: 0, text_matrix: Transform::identity() }
    }

    /// The state after `op`.
    pub fn next(&self, cache: &FontCache, op: &ContentOperator) -> (r: TextState)
        ensures
            r == next_state(cache@, *self, *op),
    {
        match op {
            ContentOperator::SetFont { name, size } => TextState {
                font: cache.get_by_font_name(name.as_str()),
                font_size: *size,
                ..*self
            },
            ContentOperator::SetGraphicsState { name } => match cache.get_by_graphic_state_name(
                name.as_str(),
            ) {
                Some((font, size)) => TextState { font, font_size: size, ..*self },
                None => *self,
            },
            ContentOperator::SetLeading { leading } => TextState {
                text_leading: *leading,
                ..*self
            },
            ContentOperator::Newline => TextState {
                text_matrix: self.text_matrix.pre_translate(0, self.text_leading),
                ..*self
            },
            ContentOperator::Translate { dx, dy } => TextState {
                text_matrix: self.text_matrix.pre_translate(*dx, *dy),
                ..*self
            },
            ContentOperator::SetTextMatrix { matrix } => TextState {
                text_matrix: *matrix,
                ..*self
            },
            _ => *self,
        }
    }
}

/// Pairs each operator with the state in force after it, in order.
pub fn ops_with_text_state(cache: &FontCache, ops: Vec<ContentOperator>) -> (r: Vec<
    (ContentOperator, TextState),
>)
    ensures
        r@.len() == ops@.len(),
        forall|i: int|
            0 <= i < ops@.len() ==> (#[trigger] r@[i]).0 == ops@[i] && r@[i].1 == state_after(
                cache@,
                ops@.take(i + 1),
            ),
{
    let ghost all = ops@;
    let mut rest = ops;
    let mut out: Vec<(ContentOperator, TextState)> = Vec::new();
    let mut state = TextState::initial();
    assert(all.take(0) =~= Seq::<ContentOperator>::empty());
    assert(all.skip(0) =~= all);
    while rest.len() > 0
        invariant
            out@.len() <= all.len(),
            rest@ == all.skip(out@.len() as int),
            state == state_after(cache@, all.take(out@.len() as int)),
            forall|i: int|
                0 <= i < out@.len() ==> (#[trigger] out@[i]).0 == all[i] && out@[i].1
                    == state_after(cache@, all.take(i + 1)),
        decreases rest@.len(),
    {
        let ghost k = out@.len() as int;
        let op = rest.remove(0);
        assert(op == all[k]);
        assert(all.take(k + 1).drop_last() =~= all.take(k));
        state = state.next(cache, &op);
        out.push((op, state));
        assert(rest@ =~= all.skip(out@.len() as int));
    }
    out
}

} // verus!

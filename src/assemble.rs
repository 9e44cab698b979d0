//! The text of a page: drawn bytes decoded through the font in force, with
//! line breaks and tabs put back from the cursor's movements.

use vstd::prelude::*;

use crate::decoder::{decoded, FontInfo, FontModel, TextError, TextErrorView};
use crate::outside::push_char;
use crate::registry::{page_registry, FontCache, PageResources, RegistryView};
use crate::state::{
    next_state, ops_with_text_state, state_after, ContentOperator, MarkedProperties, TextItem,
    TextState,
};

verus! {

/// A translation whose vertical part (in thousandths) is at most this in
/// magnitude stays on the line.
pub const LINE_EPSILON: i32 = 0;

/// A new text matrix whose vertical translation differs from the previous
/// one's (in millionths) by at most this stays on the line.
pub const MATRIX_LINE_EPSILON: i64 = 0;

/// A horizontal move (in thousandths) larger than this in magnitude is a
/// column gap.
pub const TAB_THRESHOLD: i32 = 3000;

/// One page's content: its resources and its operators in order.
pub struct PageContent {
    pub resources: PageResources,
    pub operations: Vec<ContentOperator>,
}

/// The text of the items of an adjusted-text array; adjustments give none.
pub open spec fn items_text(f: FontModel, items: Seq<TextItem>) -> Result<Seq<char>, TextErrorView>
    decreases items.len(),
{
    if items.len() == 0 {
        Ok(Seq::empty())
    } else {
        match items_text(f, items.drop_last()) {
            Ok(t) => match items.last() {
                TextItem::Text(d) => match decoded(f, d@) {
                    Ok(u) => Ok(t + u),
                    Err(e) => Err(e),
                },
                TextItem::Adjustment(_) => Ok(t),
            },
            Err(e) => Err(e),
        }
    }
}

/// The separator a translation stands for: a line break where it stays on the
/// line vertically, a tab where it jumps far horizontally, else nothing.
pub open spec fn translate_text(dx: i32, dy: i32) -> Seq<char> {
    if -LINE_EPSILON <= dy <= LINE_EPSILON {
        seq!['\n']
    } else if dx > TAB_THRESHOLD || dx < -TAB_THRESHOLD {
        seq!['\t']
    } else {
        Seq::empty()
    }
}

/// The text one operator adds, given the font in force after it and the
/// vertical translation of the text matrix before it.
pub open spec fn op_text(f: FontModel, previous_f: i64, op: ContentOperator) -> Result<
    Seq<char>,
    TextErrorView,
> {
    match op {
        ContentOperator::DrawText { data } => decoded(f, data@),
        ContentOperator::DrawAdjustedText { items } => items_text(f, items@),
        ContentOperator::Newline => Ok(seq!['\n']),
        ContentOperator::Translate { dx, dy } => Ok(translate_text(dx, dy)),
        ContentOperator::SetTextMatrix { matrix } => Ok(
            if -MATRIX_LINE_EPSILON <= matrix.f - previous_f <= MATRIX_LINE_EPSILON {
                seq!['\t']
            } else {
                seq!['\n']
            },
        ),
        ContentOperator::BeginMarkedContent { tag, properties } => if tag@ == "Span"@ {
            match properties {
                Some(MarkedProperties::Dictionary { actual_text }) => match actual_text {
                    Some(t) => decoded(f, t@),
                    None => Ok(Seq::empty()),
                },
                Some(MarkedProperties::Other { kind }) => Err(
                    TextErrorView::UnexpectedPrimitive("Dictionary"@, kind@),
                ),
                None => Ok(Seq::empty()),
            }
        } else {
            Ok(Seq::empty())
        },
        _ => Ok(Seq::empty()),
    }
}

/// The text of a page's operators, or the first error met.
pub open spec fn page_result(reg: RegistryView, ops: Seq<ContentOperator>) -> Result<
    Seq<char>,
    TextErrorView,
>
    decreases ops.len(),
{
    if ops.len() == 0 {
        Ok(Seq::empty())
    } else {
        let before = state_after(reg, ops.drop_last());
        let after = next_state(reg, before, ops.last());
        match page_result(reg, ops.drop_last()) {
            Ok(t) => match op_text(
                reg.font_model(after.font),
                before.text_matrix.f,
                ops.last(),
            ) {
                Ok(u) => Ok(t + u),
                Err(e) => Err(e),
            },
            Err(e) => Err(e),
        }
    }
}

/// The text of a page given its resources and operators.
pub open spec fn page_text_of(page: PageContent) -> Result<Seq<char>, TextErrorView> {
    page_result(page_registry(page.resources), page.operations@)
}

/// Whether `r` is what [`page_text`] owes for a page's resources and
/// operators.
pub open spec fn page_text_meets(
    resources: PageResources,
    operations: Seq<ContentOperator>,
    r: Result<String, TextError>,
) -> bool {
    match page_result(page_registry(resources), operations) {
        Ok(t) => r is Ok && r->Ok_0@ == t,
        Err(e) => r is Err && r->Err_0@ == e,
    }
}

/// The texts of pages in order, or the first error met.
pub open spec fn document_result(pages: Seq<PageContent>) -> Result<
    Seq<Seq<char>>,
    TextErrorView,
>
    decreases pages.len(),
{
    if pages.len() == 0 {
        Ok(Seq::empty())
    } else {
        match document_result(pages.drop_last()) {
            Ok(ts) => match page_text_of(pages.last()) {
                Ok(t) => Ok(ts.push(t)),
                Err(e) => Err(e),
            },
            Err(e) => Err(e),
        }
    }
}

fn push_line_break(out: &mut String)
    ensures
        final(out)@ == old(out)@ + seq!['\n'],
{
    push_char(out, '\n');
    assert(old(out)@.push('\n') =~= old(out)@ + seq!['\n']);
}

fn push_tab(out: &mut String)
    ensures
        final(out)@ == old(out)@ + seq!['\t'],
{
    push_char(out, '\t');
    assert(old(out)@.push('\t') =~= old(out)@ + seq!['\t']);
}

fn append_items(font: &FontInfo, items: &Vec<TextItem>, out: &mut String) -> (r: Result<
    (),
    TextError,
>)
    ensures
        match items_text(font@, items@) {
            Ok(t) => r is Ok && final(out)@ == old(out)@ + t,
            Err(e) => r is Err && r->Err_0@ == e,
        },
{
    let mut i: usize = 0;
    assert(items@.take(0) =~= Seq::<TextItem>::empty());
    assert(old(out)@ + Seq::<char>::empty() =~= old(out)@);
    while i < items.len()
        invariant
            i <= items@.len(),
            items_text(font@, items@.take(i as int)) matches Ok(t) && out@ == old(out)@ + t,
        decreases items@.len() - i,
    {
        assert(items@.take(i + 1).drop_last() =~= items@.take(i as int));
        let ghost before = out@;
        match &items[i] {
            TextItem::Text(data) => {
                let res = font.decode(data.as_slice(), out);
                if res.is_err() {
                    proof {
                        lemma_items_error_stays(font@, items@, i as int + 1);
                        assert(items@.take(items@.len() as int) =~= items@);
                    }
                    return res;
                }
                assert(out@ =~= old(out)@ + items_text(font@, items@.take(i + 1))->Ok_0);
            },
            TextItem::Adjustment(_) => {},
        }
        i = i + 1;
    }
    assert(items@.take(items@.len() as int) =~= items@);
    Ok(())
}

proof fn lemma_items_error_stays(f: FontModel, items: Seq<TextItem>, k: int)
    requires
        0 <= k <= items.len(),
        items_text(f, items.take(k)) is Err,
    ensures
        items_text(f, items) == items_text(f, items.take(k)),
    decreases items.len(),
{
    if items.len() == k {
        assert(items.take(k) =~= items);
    } else {
        assert(items.drop_last().take(k) =~= items.take(k));
        lemma_items_error_stays(f, items.drop_last(), k);
    }
}

proof fn lemma_page_error_stays(reg: RegistryView, ops: Seq<ContentOperator>, k: int)
    requires
        0 <= k <= ops.len(),
        page_result(reg, ops.take(k)) is Err,
    ensures
        page_result(reg, ops) == page_result(reg, ops.take(k)),
    decreases ops.len(),
{
    if ops.len() == k {
        assert(ops.take(k) =~= ops);
    } else {
        assert(ops.drop_last().take(k) =~= ops.take(k));
        lemma_page_error_stays(reg, ops.drop_last(), k);
    }
}

proof fn lemma_document_error_stays(pages: Seq<PageContent>, k: int)
    requires
        0 <= k <= pages.len(),
        document_result(pages.take(k)) is Err,
    ensures
        document_result(pages) == document_result(pages.take(k)),
    decreases pages.len(),
{
    if pages.len() == k {
        assert(pages.take(k) =~= pages);
    } else {
        assert(pages.drop_last().take(k) =~= pages.take(k));
        lemma_document_error_stays(pages.drop_last(), k);
    }
}

/// Appends the text of one operator, given the state after it and the
/// vertical translation of the text matrix before it.
pub fn append_op_text(
    font: &FontInfo,
    previous_f: i64,
    op: &ContentOperator,
    out: &mut String,
) -> (r: Result<(), TextError>)
    ensures
        match op_text(font@, previous_f, *op) {
            Ok(t) => r is Ok && final(out)@ == old(out)@ + t,
            Err(e) => r is Err && r->Err_0@ == e,
        },
{
    match op {
        ContentOperator::DrawText { data } => font.decode(data.as_slice(), out),
        ContentOperator::DrawAdjustedText { items } => append_items(font, items, out),
        ContentOperator::Newline => {
            push_line_break(out);
            Ok(())
        },
        ContentOperator::Translate { dx, dy } => {
            if -LINE_EPSILON <= *dy && *dy <= LINE_EPSILON {
                push_line_break(out);
            } else if *dx > TAB_THRESHOLD || *dx < -TAB_THRESHOLD {
                push_tab(out);
            } else {
                assert(old(out)@ + Seq::<char>::empty() =~= old(out)@);
            }
            Ok(())
        },
        ContentOperator::SetTextMatrix { matrix } => {
            let diff: i128 = matrix.f as i128 - previous_f as i128;
            if -(MATRIX_LINE_EPSILON as i128) <= diff && diff <= MATRIX_LINE_EPSILON as i128 {
                push_tab(out);
            } else {
                push_line_break(out);
            }
            Ok(())
        },
        ContentOperator::BeginMarkedContent { tag, properties } => {
            let span = "Span".to_owned();
            if *tag == span {
                match properties {
                    Some(MarkedProperties::Dictionary { actual_text }) => match actual_text {
                        Some(t) => font.decode(t.as_slice(), out),
                        None => {
                            assert(old(out)@ + Seq::<char>::empty() =~= old(out)@);
                            Ok(())
                        },
                    },
                    Some(MarkedProperties::Other { kind }) => Err(
                        TextError::UnexpectedPrimitive {
                            expected: "Dictionary".to_owned(),
                            found: kind.clone(),
                        },
                    ),
                    None => {
                        assert(old(out)@ + Seq::<char>::empty() =~= old(out)@);
                        Ok(())
                    },
                }
            } else {
                assert(old(out)@ + Seq::<char>::empty() =~= old(out)@);
                Ok(())
            }
        },
        _ => {
            assert(old(out)@ + Seq::<char>::empty() =~= old(out)@);
            Ok(())
        },
    }
}

/// The text of one page: its resources registered, its operators paired with
/// their states, and each operator's text appended in order. The first error
/// fails the page.
pub fn page_text(resources: PageResources, operations: Vec<ContentOperator>) -> (r: Result<
    String,
    TextError,
>)
    ensures
        page_text_meets(resources, operations@, r),
{
    let cache = FontCache::new(resources);
    let ghost reg = cache@;
    let ghost ops = operations@;
    let pairs = ops_with_text_state(&cache, operations);
    let mut out = String::new();
    let mut previous_f: i64 = 0;
    let mut i: usize = 0;
    assert(ops.take(0) =~= Seq::<ContentOperator>::empty());
    while i < pairs.len()
        invariant
            cache.wf(),
            reg == cache@,
            reg == page_registry(resources),
            ops == operations@,
            pairs@.len() == ops.len(),
            forall|j: int|
                0 <= j < ops.len() ==> (#[trigger] pairs@[j]).0 == ops[j] && pairs@[j].1
                    == state_after(reg, ops.take(j + 1)),
            i <= ops.len(),
            previous_f == state_after(reg, ops.take(i as int)).text_matrix.f,
            page_result(reg, ops.take(i as int)) matches Ok(t) && out@ == t,
        decreases ops.len() - i,
    {
        let (op, state) = &pairs[i];
        assert(ops.take(i + 1).drop_last() =~= ops.take(i as int));
        let font = cache.font(state.font);
        let res = append_op_text(font, previous_f, op, &mut out);
        if let Err(e) = res {
            proof {
                assert(ops.take(i + 1).last() == ops[i as int]);
                assert(page_result(reg, ops.take(i + 1)) == Err::<Seq<char>, TextErrorView>(e@));
                lemma_page_error_stays(reg, ops, i + 1);
            }
            return Err(e);
        }
        previous_f = state.text_matrix.f;
        i = i + 1;
    }
    assert(ops.take(ops.len() as int) =~= ops);
    Ok(out)
}

/// The texts of a document's pages in order; the first page that fails fails
/// the whole document.
pub fn pdf2strings(pages: Vec<PageContent>) -> (r: Result<Vec<String>, TextError>)
    ensures
        match document_result(pages@) {
            Ok(ts) => r is Ok && r->Ok_0@.len() == ts.len() && forall|i: int|
                0 <= i < ts.len() ==> (#[trigger] r->Ok_0@[i])@ == ts[i],
            Err(e) => r is Err && r->Err_0@ == e,
        },
{
    let ghost all = pages@;
    let mut rest = pages;
    let mut texts: Vec<String> = Vec::new();
    assert(all.take(0) =~= Seq::<PageContent>::empty());
    assert(all.skip(0) =~= all);
    while rest.len() > 0
        invariant
            all == pages@,
            texts@.len() <= all.len(),
            rest@ == all.skip(texts@.len() as int),
            document_result(all.take(texts@.len() as int)) matches Ok(ts) && ts.len()
                == texts@.len() && forall|i: int|
                0 <= i < ts.len() ==> (#[trigger] texts@[i])@ == ts[i],
        decreases rest@.len(),
    {
        let ghost k = texts@.len() as int;
        let page = rest.remove(0);
        assert(page == all[k]);
        assert(all.take(k + 1).drop_last() =~= all.take(k));
        let PageContent { resources, operations } = page;
        match page_text(resources, operations) {
            Ok(t) => {
                texts.push(t);
            },
            Err(e) => {
                proof {
                    assert(all.take(k + 1).last() == all[k]);
                    assert(document_result(all.take(k + 1)) == Err::<Seq<Seq<char>>, TextErrorView>(
                        e@,
                    ));
                    lemma_document_error_stays(all, k + 1);
                }
                return Err(e);
            },
        }
        assert(rest@ =~= all.skip(texts@.len() as int));
    }
    assert(all.take(all.len() as int) =~= all);
    Ok(texts)
}

/// Extraction is deterministic: on identical resources and operators, any two
/// results that [`page_text`] may return hold the same text, or the same
/// error.
pub proof fn lemma_extraction_deterministic(
    resources: PageResources,
    operations: Seq<ContentOperator>,
    first: Result<String, TextError>,
    second: Result<String, TextError>,
)
    requires
        page_text_meets(resources, operations, first),
        page_text_meets(resources, operations, second),
    ensures
        first is Ok <==> second is Ok,
        first is Ok ==> first->Ok_0@ == second->Ok_0@,
        first is Err ==> first->Err_0@ == second->Err_0@,
{
}

/// A "Span" marked-content operator whose properties are a dictionary without
/// an `ActualText` entry adds no text and no error.
pub proof fn lemma_span_without_actual_text(f: FontModel, previous_f: i64, op: ContentOperator)
    requires
        op matches ContentOperator::BeginMarkedContent { tag, properties } && tag@ == "Span"@
            && properties == (Some(MarkedProperties::Dictionary { actual_text: None })),
    ensures
        op_text(f, previous_f, op) == Ok::<Seq<char>, TextErrorView>(Seq::empty()),
{
}

proof fn lemma_span_insert_prefix(
    reg: RegistryView,
    ops: Seq<ContentOperator>,
    k: int,
    span: ContentOperator,
)
    requires
        0 <= k <= ops.len(),
        span matches ContentOperator::BeginMarkedContent { tag, properties } && tag@ == "Span"@
            && properties == (Some(MarkedProperties::Dictionary { actual_text: None })),
    ensures
        state_after(reg, ops.insert(k, span)) == state_after(reg, ops),
        page_result(reg, ops.insert(k, span)) == page_result(reg, ops),
    decreases ops.len(),
{
    let ins = ops.insert(k, span);
    if k == ops.len() {
        assert(ins.drop_last() =~= ops);
        assert(ins.last() == span);
        lemma_span_without_actual_text(
            reg.font_model(state_after(reg, ins).font),
            state_after(reg, ops).text_matrix.f,
            span,
        );
        if let Ok(t) = page_result(reg, ops) {
            assert(t + Seq::<char>::empty() =~= t);
        }
    } else {
        lemma_span_insert_prefix(reg, ops.drop_last(), k, span);
        assert(ins.drop_last() =~= ops.drop_last().insert(k, span));
        assert(ins.last() == ops.last());
    }
}

/// Inserting, anywhere among a page's operators, a "Span" marked-content
/// operator whose properties are a dictionary without an `ActualText` entry
/// leaves the page's text, or its error, unchanged.
pub proof fn lemma_span_insertion_keeps_text(
    resources: PageResources,
    operations: Seq<ContentOperator>,
    k: int,
    span: ContentOperator,
)
    requires
        0 <= k <= operations.len(),
        span matches ContentOperator::BeginMarkedContent { tag, properties } && tag@ == "Span"@
            && properties == (Some(MarkedProperties::Dictionary { actual_text: None })),
    ensures
        page_result(page_registry(resources), operations.insert(k, span)) == page_result(
            page_registry(resources),
            operations,
        ),
{
    lemma_span_insert_prefix(page_registry(resources), operations, k, span);
}

} // verus!

//! Reading VIAC bank statements from the reconstructed text of their pages.

use vstd::prelude::*;

use crate::lines::{
    contains_chars, contains_seq, has_prefix, line_before, lines_of, same_line, split_lines,
    starts_with, views,
};
use crate::date::{date_in, parse_date, Date};
use crate::money::{
    amt, decimal_parsed, Amount, ascii_bytes, is_ascii_chars, parse_decimal, parses_as_decimal, Money,
};
use crate::document::{ViacPdfFrench, ViacPdfGerman};
use crate::outside::{chars_of, string_of};

verus! {

/// Whether a part of a path between separators is a component: not empty
/// and not `.`.
pub open spec fn is_component(part: Seq<char>) -> bool {
    part.len() > 0 && part != seq!['.']
}

pub open spec fn component_or(last: Seq<char>, part: Seq<char>) -> Seq<char> {
    if is_component(part) {
        part
    } else {
        last
    }
}

/// The last component ended so far, and the part being read.
pub open spec fn name_scan(path: Seq<char>) -> (Seq<char>, Seq<char>)
    decreases path.len(),
{
    if path.len() == 0 {
        (Seq::empty(), Seq::empty())
    } else {
        let (last, part) = name_scan(path.drop_last());
        if path.last() == '/' {
            (component_or(last, part), Seq::empty())
        } else {
            (last, part.push(path.last()))
        }
    }
}

/// The file name of a path: its last component, where empty parts and `.`
/// parts are skipped (so a trailing `/` or `/.` changes nothing); none where
/// there is no component or the last one is `..`.
pub open spec fn file_name_of(path: Seq<char>) -> Option<Seq<char>> {
    let name = component_or(name_scan(path).0, name_scan(path).1);
    if name.len() > 0 && name != seq!['.', '.'] {
        Some(name)
    } else {
        None
    }
}

fn component(part: &Vec<char>) -> (r: bool)
    ensures
        r == is_component(part@),
{
    if part.len() == 0 {
        return false;
    }
    let r = !(part.len() == 1 && part[0] == '.');
    assert(!r ==> part@ =~= seq!['.']);
    assert(part@ == seq!['.'] ==> part@[0] == '.');
    r
}

/// The first line whose previous line starts with `p`.
pub open spec fn line_after_prefix(lines: Seq<Seq<char>>, p: Seq<char>) -> Option<int>
    decreases lines.len(),
{
    if lines.len() == 0 {
        None
    } else {
        match line_after_prefix(lines.drop_last(), p) {
            Some(i) => Some(i),
            None => if starts_with(line_before(lines, lines.len() - 1), p) {
                Some(lines.len() - 1)
            } else {
                None
            },
        }
    }
}

/// The account and portfolio numbers found in the first `n` lines: each is
/// the line after its label (a later label wins), and reading stops once both
/// are non-empty.
pub open spec fn account_scan(
    lines: Seq<Seq<char>>,
    account_label: Seq<char>,
    portfolio_label: Seq<char>,
    n: nat,
) -> (Seq<char>, Seq<char>)
    decreases n,
{
    if n == 0 {
        (Seq::empty(), Seq::empty())
    } else {
        let (a, p) = account_scan(lines, account_label, portfolio_label, (n - 1) as nat);
        if a.len() > 0 && p.len() > 0 {
            (a, p)
        } else {
            let before = line_before(lines, n - 1);
            (
                if before == account_label {
                    lines[n - 1]
                } else {
                    a
                },
                if before == portfolio_label {
                    lines[n - 1]
                } else {
                    p
                },
            )
        }
    }
}


/// The first index below `n` where `pred` holds.
pub open spec fn first_where(n: int, pred: spec_fn(int) -> bool) -> Option<int>
    decreases n,
{
    if n <= 0 {
        None
    } else {
        match first_where(n - 1, pred) {
            Some(i) => Some(i),
            None => if pred(n - 1) {
                Some(n - 1)
            } else {
                None
            },
        }
    }
}

pub proof fn lemma_first_where_stays(n: int, k: int, pred: spec_fn(int) -> bool)
    requires
        0 <= k <= n,
        first_where(k, pred) is Some,
    ensures
        first_where(n, pred) == first_where(k, pred),
    decreases n - k,
{
    if n > k {
        lemma_first_where_stays(n - 1, k, pred);
    }
}

pub open spec fn prefix_pred(lines: Seq<Seq<char>>, p: Seq<char>) -> spec_fn(int) -> bool {
    |i: int| starts_with(lines[i], p)
}

pub open spec fn equal_pred(lines: Seq<Seq<char>>, s: Seq<char>) -> spec_fn(int) -> bool {
    |i: int| lines[i] == s
}

pub open spec fn after_equal_pred(lines: Seq<Seq<char>>, s: Seq<char>) -> spec_fn(int) -> bool {
    |i: int| line_before(lines, i) == s
}

/// The first line that starts with `p`.
pub open spec fn first_with_prefix(lines: Seq<Seq<char>>, p: Seq<char>) -> Option<int> {
    first_where(lines.len() as int, prefix_pred(lines, p))
}

/// The first line equal to `s`.
pub open spec fn first_equal(lines: Seq<Seq<char>>, s: Seq<char>) -> Option<int> {
    first_where(lines.len() as int, equal_pred(lines, s))
}

/// The first line whose previous line equals `s`.
pub open spec fn line_after_equal(lines: Seq<Seq<char>>, s: Seq<char>) -> Option<int> {
    first_where(lines.len() as int, after_equal_pred(lines, s))
}

/// The line two lines before line `i`; empty before the second line.
pub open spec fn line_two_before(lines: Seq<Seq<char>>, i: int) -> Seq<char> {
    if i < 2 {
        Seq::empty()
    } else {
        lines[i - 2]
    }
}

/// A text with its apostrophes (thousands separators) removed.
pub open spec fn without_quotes(s: Seq<char>) -> Seq<char>
    decreases s.len(),
{
    if s.len() == 0 {
        Seq::empty()
    } else if s.last() == '\'' {
        without_quotes(s.drop_last())
    } else {
        without_quotes(s.drop_last()).push(s.last())
    }
}

/// Where the scan for an amount under a title stands after some lines.
pub enum AmountScan {
    Searching,
    Currency(Seq<char>),
    Found(Seq<char>, Seq<char>),
    Malformed,
}

pub open spec fn currency_from(line: Seq<char>) -> AmountScan {
    if line.len() >= 3 {
        AmountScan::Currency(line.take(3))
    } else {
        AmountScan::Malformed
    }
}

/// The amount under a title: the line after a line starting with the title
/// gives the currency (its first three characters), and the line after that
/// the amount, unless the currency read holds a '.' (a conversion rate), in
/// which case the next line gives the currency again.
pub open spec fn amount_scan(lines: Seq<Seq<char>>, title: Seq<char>, n: nat) -> AmountScan
    decreases n,
{
    if n == 0 {
        AmountScan::Searching
    } else {
        let s = amount_scan(lines, title, (n - 1) as nat);
        let line = lines[n - 1];
        match s {
            AmountScan::Found(_, _) => s,
            AmountScan::Malformed => s,
            _ => if starts_with(line_before(lines, n - 1), title) {
                currency_from(line)
            } else {
                match s {
                    AmountScan::Currency(c) => if c.contains('.') {
                        currency_from(line)
                    } else {
                        AmountScan::Found(c, without_quotes(line))
                    },
                    _ => AmountScan::Searching,
                }
            },
        }
    }
}

proof fn lemma_amount_scan_stays(lines: Seq<Seq<char>>, title: Seq<char>, k: nat)
    requires
        k <= lines.len(),
        amount_scan(lines, title, k) is Found || amount_scan(lines, title, k) is Malformed,
    ensures
        amount_scan(lines, title, lines.len()) == amount_scan(lines, title, k),
    decreases lines.len() - k,
{
    if k < lines.len() {
        lemma_amount_scan_stays(lines, title, k + 1);
    }
}

/// Whether a line reads as an amount: three ASCII characters of currency, a
/// separator, and a number.
pub open spec fn money_line_ok(line: Seq<char>) -> bool {
    line.len() >= 4 && is_ascii_chars(line.take(3)) && parses_as_decimal(
        without_quotes(line.skip(4)),
    )
}

fn drop_quotes(s: &[char]) -> (r: Vec<char>)
    ensures
        r@ == without_quotes(s@),
{
    let mut r: Vec<char> = Vec::new();
    let mut i: usize = 0;
    assert(s@.take(0) =~= Seq::<char>::empty());
    while i < s.len()
        invariant
            i <= s@.len(),
            r@ == without_quotes(s@.take(i as int)),
        decreases s@.len() - i,
    {
        assert(s@.take(i + 1).drop_last() =~= s@.take(i as int));
        if s[i] != '\'' {
            r.push(s[i]);
        }
        i = i + 1;
    }
    assert(s@.take(s@.len() as int) =~= s@);
    r
}

pub(crate) fn all_ascii(s: &[char]) -> (r: bool)
    ensures
        r == is_ascii_chars(s@),
{
    let mut i: usize = 0;
    while i < s.len()
        invariant
            i <= s@.len(),
            forall|j: int| 0 <= j < i ==> (#[trigger] s@[j]) < 128 as char,
        decreases s@.len() - i,
    {
        if s[i] >= 128 as char {
            return false;
        }
        i = i + 1;
    }
    true
}

fn contains_dot(s: &Vec<char>) -> (r: bool)
    ensures
        r == s@.contains('.'),
{
    let mut i: usize = 0;
    while i < s.len()
        invariant
            i <= s@.len(),
            forall|j: int| 0 <= j < i ==> s@[j] != '.',
        decreases s@.len() - i,
    {
        if s[i] == '.' {
            return true;
        }
        i = i + 1;
    }
    false
}

fn first_chars(s: &Vec<char>, n: usize) -> (r: Vec<char>)
    requires
        n <= s@.len(),
    ensures
        r@ == s@.take(n as int),
{
    let mut r: Vec<char> = Vec::new();
    let mut i: usize = 0;
    while i < n
        invariant
            n <= s@.len(),
            i <= n,
            r@ == s@.take(i as int),
        decreases n - i,
    {
        r.push(s[i]);
        i = i + 1;
        assert(r@ =~= s@.take(i as int));
    }
    r
}

fn chars_from(s: &Vec<char>, n: usize) -> (r: Vec<char>)
    requires
        n <= s@.len(),
    ensures
        r@ == s@.skip(n as int),
{
    let mut r: Vec<char> = Vec::new();
    let mut i: usize = n;
    while i < s.len()
        invariant
            n <= i <= s@.len(),
            r@ == s@.subrange(n as int, i as int),
        decreases s@.len() - i,
    {
        r.push(s[i]);
        i = i + 1;
        assert(r@ =~= s@.subrange(n as int, i as int));
    }
    assert(s@.subrange(n as int, s@.len() as int) =~= s@.skip(n as int));
    r
}

/// The number a text reads as, with apostrophes removed.
fn decimal_of_chars(s: &[char]) -> (r: Option<Amount>)
    ensures
        r is Some == parses_as_decimal(without_quotes(s@)),
        r matches Some(a) ==> decimal_parsed(without_quotes(s@)) == Some(amt(a)),
{
    let clean = drop_quotes(s);
    let text = string_of(clean.as_slice());
    parse_decimal(text.as_str())
}

/// The number a line reads as.
fn decimal_of_line(s: &Vec<char>) -> (r: Option<Amount>)
    ensures
        r is Some == parses_as_decimal(s@),
        r matches Some(a) ==> decimal_parsed(s@) == Some(amt(a)),
{
    let text = string_of(s.as_slice());
    parse_decimal(text.as_str())
}

/// The amount a line reads as (see [`money_line_ok`]).
fn money_of_line(line: &Vec<char>) -> (r: Option<Money>)
    ensures
        r is Some == money_line_ok(line@),
        r matches Some(m) ==> m.currency@ == ascii_bytes(line@.take(3)) && decimal_parsed(
            without_quotes(line@.skip(4)),
        ) == Some(amt(m.amount)),
{
    if line.len() < 4 {
        return None;
    }
    let code = first_chars(line, 3);
    if !all_ascii(code.as_slice()) {
        return None;
    }
    let rest = chars_from(line, 4);
    match decimal_of_chars(rest.as_slice()) {
        Some(amount) => Some(Money::from_code_chars(code.as_slice(), amount)),
        None => None,
    }
}

/// The tests that the line finders apply to a line.
#[derive(Clone, Copy, PartialEq, Eq, Structural)]
pub enum LineTest {
    /// The line starts with the pattern.
    Prefix,
    /// The line equals the pattern.
    Equal,
    /// The line before it equals the pattern.
    AfterEqual,
}

/// Finds the first line that passes `test` with the pattern `pat`.
fn find_line(lines: &Vec<Vec<char>>, test: LineTest, pat: &Vec<char>) -> (r: Option<usize>)
    ensures
        match r {
            Some(i) => i < lines@.len() && first_where(
                lines@.len() as int,
                line_pred(views(lines@), test, pat@),
            ) == Some(i as int),
            None => first_where(lines@.len() as int, line_pred(views(lines@), test, pat@)) is None,
        },
{
    let ghost ls = views(lines@);
    let ghost pred = line_pred(ls, test, pat@);
    let empty: Vec<char> = Vec::new();
    let mut i: usize = 0;
    while i < lines.len()
        invariant
            ls == views(lines@),
            pred == line_pred(ls, test, pat@),
            empty@.len() == 0,
            i <= lines@.len(),
            first_where(i as int, pred) is None,
        decreases lines@.len() - i,
    {
        let hit = if test == LineTest::Prefix {
            has_prefix(&lines[i], pat)
        } else if test == LineTest::Equal {
            same_line(&lines[i], pat)
        } else {
            let before = if i == 0 {
                &empty
            } else {
                &lines[i - 1]
            };
            assert(before@ == line_before(ls, i as int));
            same_line(before, pat)
        };
        assert(hit == pred(i as int));
        if hit {
            proof {
                lemma_first_where_stays(lines@.len() as int, i + 1, pred);
            }
            return Some(i);
        }
        i = i + 1;
    }
    None
}

pub open spec fn line_pred(lines: Seq<Seq<char>>, test: LineTest, pat: Seq<char>) -> spec_fn(
    int,
) -> bool {
    match test {
        LineTest::Prefix => prefix_pred(lines, pat),
        LineTest::Equal => equal_pred(lines, pat),
        LineTest::AfterEqual => after_equal_pred(lines, pat),
    }
}


/// The pieces of a line between single spaces.
pub open spec fn words_acc(s: Seq<char>) -> (Seq<Seq<char>>, Seq<char>)
    decreases s.len(),
{
    if s.len() == 0 {
        (Seq::empty(), Seq::empty())
    } else {
        let (done, cur) = words_acc(s.drop_last());
        if s.last() == ' ' {
            (done.push(cur), Seq::empty())
        } else {
            (done, cur.push(s.last()))
        }
    }
}

pub open spec fn words(s: Seq<char>) -> Seq<Seq<char>> {
    words_acc(s).0.push(words_acc(s).1)
}

/// Where the scan for an exchange rate stands after some lines.
pub enum RateScan {
    Searching,
    NextLine,
    Found(Seq<char>),
}

/// The exchange rate's text: the `k`-th word of the first line starting with
/// the label that has one, or the whole next line where that word is empty.
pub open spec fn rate_scan(lines: Seq<Seq<char>>, label: Seq<char>, k: int, n: nat) -> RateScan
    decreases n,
{
    if n == 0 {
        RateScan::Searching
    } else {
        let s = rate_scan(lines, label, k, (n - 1) as nat);
        let line = lines[n - 1];
        match s {
            RateScan::Found(_) => s,
            RateScan::NextLine => RateScan::Found(line),
            RateScan::Searching => if starts_with(line, label) && 0 <= k < words(line).len() {
                if words(line)[k].len() == 0 {
                    RateScan::NextLine
                } else {
                    RateScan::Found(words(line)[k])
                }
            } else {
                RateScan::Searching
            },
        }
    }
}

proof fn lemma_rate_scan_stays(lines: Seq<Seq<char>>, label: Seq<char>, k: int, j: nat)
    requires
        j <= lines.len(),
        rate_scan(lines, label, k, j) is Found,
    ensures
        rate_scan(lines, label, k, lines.len()) == rate_scan(lines, label, k, j),
    decreases lines.len() - j,
{
    if j < lines.len() {
        lemma_rate_scan_stays(lines, label, k, j + 1);
    }
}

fn split_words(s: &Vec<char>) -> (r: Vec<Vec<char>>)
    ensures
        views(r@) == words(s@),
{
    let mut done: Vec<Vec<char>> = Vec::new();
    let mut cur: Vec<char> = Vec::new();
    let mut i: usize = 0;
    assert(s@.take(0) =~= Seq::<char>::empty());
    assert(views(done@) =~= Seq::<Seq<char>>::empty());
    while i < s.len()
        invariant
            i <= s@.len(),
            (views(done@), cur@) == words_acc(s@.take(i as int)),
        decreases s@.len() - i,
    {
        assert(s@.take(i + 1).drop_last() =~= s@.take(i as int));
        if s[i] == ' ' {
            let ghost before = views(done@);
            let ghost piece = cur@;
            done.push(cur);
            assert(views(done@) =~= before.push(piece));
            cur = Vec::new();
        } else {
            cur.push(s[i]);
        }
        i = i + 1;
    }
    assert(s@.take(s@.len() as int) =~= s@);
    let ghost before = views(done@);
    let ghost piece = cur@;
    done.push(cur);
    assert(views(done@) =~= before.push(piece));
    done
}


/// Whether the first line starting with `p` reads as a date in `format`.
pub open spec fn date_ok(lines: Seq<Seq<char>>, p: Seq<char>, format: Seq<char>) -> bool {
    first_with_prefix(lines, p) matches Some(i) && date_in(lines[i], format) is Some
}

/// Whether the amount under `title` reads (see [`amount_scan`]).
pub open spec fn amount_ok(lines: Seq<Seq<char>>, title: Seq<char>) -> bool {
    amount_scan(lines, title, lines.len()) matches AmountScan::Found(c, price) && is_ascii_chars(c)
        && parses_as_decimal(price)
}

/// The number of the amount under `title`, where it reads.
pub open spec fn amount_at(lines: Seq<Seq<char>>, title: Seq<char>) -> (int, int) {
    decimal_parsed(amount_scan(lines, title, lines.len())->Found_1)->Some_0
}

/// The number on the line after the line equal to `content`, where it reads.
pub open spec fn money_at(lines: Seq<Seq<char>>, content: Seq<char>) -> (int, int) {
    decimal_parsed(without_quotes(lines[line_after_equal(lines, content)->Some_0].skip(4)))->Some_0
}

/// The exchange rate's number, where it reads.
pub open spec fn rate_at(lines: Seq<Seq<char>>, label: Seq<char>, k: int) -> (int, int) {
    decimal_parsed(rate_scan(lines, label, k, lines.len())->Found_0)->Some_0
}

/// Whether the line after the line equal to `content` reads as an amount.
pub open spec fn money_after_ok(lines: Seq<Seq<char>>, content: Seq<char>) -> bool {
    line_after_equal(lines, content) matches Some(i) && money_line_ok(lines[i])
}

/// Whether the ISIN is there.
pub open spec fn isin_ok(lines: Seq<Seq<char>>) -> bool {
    line_after_prefix(lines, "ISIN:"@) matches Some(i) && lines[i].len() > 0
}

/// The ISIN's text, where it is there.
pub open spec fn isin_text(lines: Seq<Seq<char>>) -> Seq<char> {
    lines[line_after_prefix(lines, "ISIN:"@)->Some_0]
}

/// Whether the exchange rate (see [`rate_scan`]) reads as a number.
pub open spec fn rate_ok(lines: Seq<Seq<char>>, label: Seq<char>, k: int) -> bool {
    rate_scan(lines, label, k, lines.len()) matches RateScan::Found(t) && parses_as_decimal(t)
}

/// The date of the first line starting with `p` read in `format`.
pub open spec fn date_at(lines: Seq<Seq<char>>, p: Seq<char>, format: Seq<char>) -> (i32, u32, u32) {
    date_in(lines[first_with_prefix(lines, p)->Some_0], format)->Some_0
}

/// A statement: where it was read from, its metadata, and the text of each
/// page.
pub struct ViacPdfData {
    pub path: String,
    pub title: Option<String>,
    pub author: Option<String>,
    pub pages: Vec<String>,
}

impl ViacPdfData {
    pub open spec fn wf(&self) -> bool {
        self.pages@.len() > 0
    }

    /// The lines of the first page.
    pub open spec fn lines(&self) -> Seq<Seq<char>> {
        lines_of(self.pages@[0]@)
    }

    fn first_page_lines(&self) -> (r: Vec<Vec<char>>)
        requires
            self.wf(),
        ensures
            views(r@) == self.lines(),
    {
        let text = chars_of(self.pages[0].as_str());
        split_lines(&text)
    }

    /// The file name of the statement's path (see [`file_name_of`]).
    pub fn filename(&self) -> (r: String)
        requires
            file_name_of(self.path@) is Some,
        ensures
            r@ == file_name_of(self.path@)->Some_0,
    {
        let cs = chars_of(self.path.as_str());
        let mut last: Vec<char> = Vec::new();
        let mut part: Vec<char> = Vec::new();
        let mut i: usize = 0;
        assert(cs@.take(0) =~= Seq::<char>::empty());
        while i < cs.len()
            invariant
                i <= cs@.len(),
                (last@, part@) == name_scan(cs@.take(i as int)),
            decreases cs@.len() - i,
        {
            assert(cs@.take(i + 1).drop_last() =~= cs@.take(i as int));
            if cs[i] == '/' {
                if component(&part) {
                    last = part;
                }
                part = Vec::new();
                assert(part@ =~= Seq::<char>::empty());
            } else {
                part.push(cs[i]);
            }
            i = i + 1;
        }
        assert(cs@.take(cs@.len() as int) =~= cs@);
        if component(&part) {
            last = part;
        }
        string_of(last.as_slice())
    }

    fn find_line_after_prefix(lines: &Vec<Vec<char>>, p: &Vec<char>) -> (r: Option<usize>)
        ensures
            match r {
                Some(i) => i < lines@.len() && line_after_prefix(views(lines@), p@) == Some(i as int),
                None => line_after_prefix(views(lines@), p@) is None,
            },
    {
        let ghost ls = views(lines@);
        let empty: Vec<char> = Vec::new();
        let mut i: usize = 0;
        assert(ls.take(0) =~= Seq::<Seq<char>>::empty());
        while i < lines.len()
            invariant
                ls == views(lines@),
                empty@.len() == 0,
                i <= lines@.len(),
                line_after_prefix(ls.take(i as int), p@) is None,
            decreases lines@.len() - i,
        {
            let ghost t = ls.take(i + 1);
            assert(t.drop_last() =~= ls.take(i as int));
            assert(line_before(t, i as int) == line_before(ls, i as int));
            let before = if i == 0 {
                &empty
            } else {
                &lines[i - 1]
            };
            assert(before@ == line_before(ls, i as int));
            if has_prefix(before, p) {
                proof {
                    lemma_line_after_prefix_stays(ls, p@, i + 1);
                }
                return Some(i);
            }
            i = i + 1;
        }
        assert(ls.take(ls.len() as int) =~= ls);
        None
    }

    /// The ISIN: the line after the first line starting with "ISIN:", where
    /// it is not empty.
    pub fn isin(&self) -> (r: Option<String>)
        requires
            self.wf(),
        ensures
            match line_after_prefix(self.lines(), "ISIN:"@) {
                Some(i) => if self.lines()[i].len() > 0 {
                    r is Some && r->Some_0@ == self.lines()[i]
                } else {
                    r is None
                },
                None => r is None,
            },
    {
        let lines = self.first_page_lines();
        let p = chars_of("ISIN:");
        let found = Self::find_line_after_prefix(&lines, &p);
        assert(line_after_prefix(self.lines(), "ISIN:"@) == line_after_prefix(views(lines@), p@));
        match found {
            Some(i) => {
                assert(views(lines@)[i as int] == lines@[i as int]@);
                if lines[i].len() > 0 {
                    Some(string_of(lines[i].as_slice()))
                } else {
                    None
                }
            },
            None => None,
        }
    }

    /// The amount under a title (see [`amount_scan`]); empty where there is
    /// none, or its currency is not three ASCII characters, or its number does
    /// not read.
    pub fn title_currency_amount(&self, title: &str) -> (r: Option<Money>)
        requires
            self.wf(),
        ensures
            match amount_scan(self.lines(), title@, self.lines().len()) {
                AmountScan::Found(c, price) => (r is Some == (is_ascii_chars(c) && parses_as_decimal(
                    price,
                ))) && (r matches Some(m) ==> m.currency@ == ascii_bytes(c) && decimal_parsed(price)
                    == Some(amt(m.amount))),
                _ => r is None,
            },
    {
        let lines = self.first_page_lines();
        let ghost ls = views(lines@);
        let t = chars_of(title);
        let mut currency: Option<Vec<char>> = None;
        let empty: Vec<char> = Vec::new();
        let mut i: usize = 0;
        while i < lines.len()
            invariant
                ls == views(lines@),
                ls == self.lines(),
                t@ == title@,
                empty@.len() == 0,
                i <= lines@.len(),
                amount_scan(ls, title@, i as nat) == match currency {
                    Some(c) => AmountScan::Currency(c@),
                    None => AmountScan::Searching,
                },
                currency matches Some(c) ==> c@.len() == 3,
            decreases lines@.len() - i,
        {
            let line = &lines[i];
            assert(line@ == ls[i as int]);
            let before = if i == 0 {
                &empty
            } else {
                &lines[i - 1]
            };
            assert(before@ == line_before(ls, i as int));
            let read_currency = if has_prefix(before, &t) {
                true
            } else {
                match &currency {
                    Some(c) => contains_dot(c),
                    None => false,
                }
            };
            if read_currency {
                if line.len() < 3 {
                    proof {
                        lemma_amount_scan_stays(ls, title@, i as nat + 1);
                    }
                    return None;
                }
                currency = Some(first_chars(line, 3));
            } else {
                match &currency {
                    Some(c) => {
                        let ghost found = AmountScan::Found(c@, without_quotes(line@));
                        assert(amount_scan(ls, title@, i as nat + 1) == found);
                        proof {
                            lemma_amount_scan_stays(ls, title@, i as nat + 1);
                        }
                        if !all_ascii(c.as_slice()) {
                            return None;
                        }
                        return match decimal_of_chars(line.as_slice()) {
                            Some(amount) => Some(Money::from_code_chars(c.as_slice(), amount)),
                            None => None,
                        };
                    },
                    None => {},
                }
            }
            i = i + 1;
        }
        None
    }

    /// The amount on the line after the line equal to `content`: a currency
    /// of three characters, a separator, and a number.
    pub fn money_after_line(&self, content: &str) -> (r: Option<Money>)
        requires
            self.wf(),
        ensures
            match line_after_equal(self.lines(), content@) {
                Some(i) => r is Some == money_line_ok(self.lines()[i]) && (r matches Some(m)
                    ==> m.currency@ == ascii_bytes(self.lines()[i].take(3)) && decimal_parsed(
                    without_quotes(self.lines()[i].skip(4)),
                ) == Some(amt(m.amount))),
                None => r is None,
            },
    {
        let lines = self.first_page_lines();
        let pat = chars_of(content);
        match find_line(&lines, LineTest::AfterEqual, &pat) {
            Some(i) => {
                assert(views(lines@)[i as int] == lines@[i as int]@);
                money_of_line(&lines[i])
            },
            None => None,
        }
    }

    /// The number on the line before the first line equal to `s`.
    pub fn decimal_before_equal(&self, s: &str) -> (r: Option<Amount>)
        requires
            self.wf(),
        ensures
            match first_equal(self.lines(), s@) {
                Some(i) => r is Some == parses_as_decimal(line_before(self.lines(), i)) && (r matches Some(
                    a,
                ) ==> decimal_parsed(line_before(self.lines(), i)) == Some(amt(a))),
                None => r is None,
            },
    {
        let lines = self.first_page_lines();
        let pat = chars_of(s);
        match find_line(&lines, LineTest::Equal, &pat) {
            Some(i) => {
                if i == 0 {
                    let empty: Vec<char> = Vec::new();
                    decimal_of_line(&empty)
                } else {
                    assert(views(lines@)[i - 1] == lines@[i - 1]@);
                    decimal_of_line(&lines[i - 1])
                }
            },
            None => None,
        }
    }

    /// The number two lines before the first line starting with `p`.
    pub fn decimal_two_before_prefix(&self, p: &str) -> (r: Option<Amount>)
        requires
            self.wf(),
        ensures
            match first_with_prefix(self.lines(), p@) {
                Some(i) => r is Some == parses_as_decimal(line_two_before(self.lines(), i)) && (
                r matches Some(a) ==> decimal_parsed(line_two_before(self.lines(), i)) == Some(
                    amt(a),
                )),
                None => r is None,
            },
    {
        let lines = self.first_page_lines();
        let pat = chars_of(p);
        match find_line(&lines, LineTest::Prefix, &pat) {
            Some(i) => {
                if i < 2 {
                    let empty: Vec<char> = Vec::new();
                    decimal_of_line(&empty)
                } else {
                    assert(views(lines@)[i - 2] == lines@[i - 2]@);
                    decimal_of_line(&lines[i - 2])
                }
            },
            None => None,
        }
    }

    /// The line after the first line equal to `s`.
    pub fn line_after(&self, s: &str) -> (r: Option<String>)
        requires
            self.wf(),
        ensures
            match line_after_equal(self.lines(), s@) {
                Some(i) => r is Some && r->Some_0@ == self.lines()[i],
                None => r is None,
            },
    {
        let lines = self.first_page_lines();
        let pat = chars_of(s);
        match find_line(&lines, LineTest::AfterEqual, &pat) {
            Some(i) => {
                assert(views(lines@)[i as int] == lines@[i as int]@);
                Some(string_of(lines[i].as_slice()))
            },
            None => None,
        }
    }

    /// The line before the first line starting with `p`.
    pub fn line_before_prefix(&self, p: &str) -> (r: Option<String>)
        requires
            self.wf(),
        ensures
            match first_with_prefix(self.lines(), p@) {
                Some(i) => r is Some && r->Some_0@ == line_before(self.lines(), i),
                None => r is None,
            },
    {
        let lines = self.first_page_lines();
        let pat = chars_of(p);
        match find_line(&lines, LineTest::Prefix, &pat) {
            Some(i) => {
                if i == 0 {
                    Some(String::new())
                } else {
                    assert(views(lines@)[i - 1] == lines@[i - 1]@);
                    Some(string_of(lines[i - 1].as_slice()))
                }
            },
            None => None,
        }
    }

    /// The date on the first line starting with `p`, read in `format`.
    pub fn date_at_prefix(&self, p: &str, format: &str) -> (r: Option<Date>)
        requires
            self.wf(),
        ensures
            match first_with_prefix(self.lines(), p@) {
                Some(i) => match r {
                    Some(d) => date_in(self.lines()[i], format@) == Some((d.year, d.month, d.day)),
                    None => date_in(self.lines()[i], format@) is None,
                },
                None => r is None,
            },
    {
        let lines = self.first_page_lines();
        let pat = chars_of(p);
        match find_line(&lines, LineTest::Prefix, &pat) {
            Some(i) => {
                assert(views(lines@)[i as int] == lines@[i as int]@);
                let text = string_of(lines[i].as_slice());
                parse_date(text.as_str(), format)
            },
            None => None,
        }
    }

    /// The exchange rate (see [`rate_scan`]) as a number.
    pub fn rate_value(&self, label: &str, k: usize) -> (r: Option<Amount>)
        requires
            self.wf(),
        ensures
            match rate_scan(self.lines(), label@, k as int, self.lines().len()) {
                RateScan::Found(t) => r is Some == parses_as_decimal(t) && (r matches Some(a)
                    ==> decimal_parsed(t) == Some(amt(a))),
                _ => r is None,
            },
    {
        let lines = self.first_page_lines();
        let ghost ls = views(lines@);
        let pat = chars_of(label);
        let mut next_line = false;
        let mut i: usize = 0;
        while i < lines.len()
            invariant
                ls == views(lines@),
                ls == self.lines(),
                pat@ == label@,
                i <= lines@.len(),
                rate_scan(ls, label@, k as int, i as nat) == if next_line {
                    RateScan::NextLine
                } else {
                    RateScan::Searching
                },
            decreases lines@.len() - i,
        {
            let line = &lines[i];
            assert(line@ == ls[i as int]);
            if next_line {
                proof {
                    lemma_rate_scan_stays(ls, label@, k as int, i as nat + 1);
                }
                return decimal_of_line(line);
            }
            if has_prefix(line, &pat) {
                let ws = split_words(line);
                if k < ws.len() {
                    assert(views(ws@)[k as int] == ws@[k as int]@);
                    if ws[k].len() == 0 {
                        next_line = true;
                    } else {
                        proof {
                            lemma_rate_scan_stays(ls, label@, k as int, i as nat + 1);
                        }
                        return decimal_of_line(&ws[k]);
                    }
                }
            }
            i = i + 1;
        }
        None
    }

    /// The account and portfolio numbers: the lines after the lines equal to
    /// the two labels.
    pub fn account_numbers(&self, account_line: &str, portfolio_line: &str) -> (r: (
        String,
        String,
    ))
        requires
            self.wf(),
        ensures
            (r.0@, r.1@) == account_scan(
                self.lines(),
                account_line@,
                portfolio_line@,
                self.lines().len(),
            ),
    {
        let lines = self.first_page_lines();
        let ghost ls = views(lines@);
        let account_label = chars_of(account_line);
        let portfolio_label = chars_of(portfolio_line);
        let empty: Vec<char> = Vec::new();
        let mut account: Vec<char> = Vec::new();
        let mut portfolio: Vec<char> = Vec::new();
        let mut i: usize = 0;
        while i < lines.len()
            invariant
                ls == views(lines@),
                ls == self.lines(),
                empty@.len() == 0,
                account_label@ == account_line@,
                portfolio_label@ == portfolio_line@,
                i <= lines@.len(),
                (account@, portfolio@) == account_scan(
                    ls,
                    account_line@,
                    portfolio_line@,
                    i as nat,
                ),
                i < lines@.len() ==> !(account@.len() > 0 && portfolio@.len() > 0),
            decreases lines@.len() - i,
        {
            let before = if i == 0 {
                &empty
            } else {
                &lines[i - 1]
            };
            assert(before@ == line_before(ls, i as int));
            if same_line(before, &account_label) {
                account = lines[i].clone();
            }
            if same_line(before, &portfolio_label) {
                portfolio = lines[i].clone();
            }
            i = i + 1;
            if account.len() > 0 && portfolio.len() > 0 {
                proof {
                    lemma_account_scan_stops(ls, account_line@, portfolio_line@, i as nat);
                }
                return (string_of(account.as_slice()), string_of(portfolio.as_slice()));
            }
        }
        (string_of(account.as_slice()), string_of(portfolio.as_slice()))
    }
}

proof fn lemma_line_after_prefix_stays(lines: Seq<Seq<char>>, p: Seq<char>, k: int)
    requires
        0 <= k <= lines.len(),
        line_after_prefix(lines.take(k), p) is Some,
    ensures
        line_after_prefix(lines, p) == line_after_prefix(lines.take(k), p),
    decreases lines.len(),
{
    if lines.len() == k {
        assert(lines.take(k) =~= lines);
    } else {
        assert(lines.drop_last().take(k) =~= lines.take(k));
        lemma_line_after_prefix_stays(lines.drop_last(), p, k);
    }
}

proof fn lemma_account_scan_stops(
    lines: Seq<Seq<char>>,
    account_label: Seq<char>,
    portfolio_label: Seq<char>,
    k: nat,
)
    requires
        k <= lines.len(),
        account_scan(lines, account_label, portfolio_label, k).0.len() > 0,
        account_scan(lines, account_label, portfolio_label, k).1.len() > 0,
    ensures
        account_scan(lines, account_label, portfolio_label, lines.len()) == account_scan(
            lines,
            account_label,
            portfolio_label,
            k,
        ),
    decreases lines.len() - k,
{
    if k < lines.len() {
        lemma_account_scan_stops(lines, account_label, portfolio_label, k + 1);
    }
}

/// A statement, by the language it is written in.
pub enum ViacPdf {
    French(ViacPdfFrench),
    German(ViacPdfGerman),
}

impl ViacPdf {
    /// Whether a statement whose first page reads `first_page` is in French.
    pub open spec fn is_french(first_page: Seq<char>) -> bool {
        contains_seq(first_page, "de la Banque WIR"@)
    }

    /// A statement from its path, metadata and page texts: French where the
    /// first page names "de la Banque WIR", else German.
    pub fn from_pages(
        path: String,
        title: Option<String>,
        author: Option<String>,
        pages: Vec<String>,
    ) -> (r: ViacPdf)
        requires
            pages@.len() > 0,
        ensures
            match r {
                ViacPdf::French(f) => Self::is_french(pages@[0]@) && f.0 == (ViacPdfData {
                    path,
                    title,
                    author,
                    pages,
                }),
                ViacPdf::German(g) => !Self::is_french(pages@[0]@) && g.0 == (ViacPdfData {
                    path,
                    title,
                    author,
                    pages,
                }),
            },
    {
        let first = chars_of(pages[0].as_str());
        let marker = chars_of("de la Banque WIR");
        let data = ViacPdfData { path, title, author, pages };
        if contains_chars(&first, &marker) {
            ViacPdf::French(ViacPdfFrench(data))
        } else {
            ViacPdf::German(ViacPdfGerman(data))
        }
    }
}

} // verus!

//! How many terminal rows a status line takes.
use vstd::arithmetic::div_mod::{lemma_div_is_ordered, lemma_fundamental_div_mod};
use vstd::prelude::*;

verus! {

/// Terminal width assumed when the terminal does not report one.
pub const DEFAULT_COLUMNS: u16 = 80;

/// What `console::strip_ansi_codes` leaves of a text: the text without its
/// terminal escape sequences.
pub uninterp spec fn ansi_stripped(s: Seq<char>) -> Seq<char>;

/// The number of terminal columns that `unicode_width` gives a text.
pub uninterp spec fn display_width_of(s: Seq<char>) -> nat;

/// Relies on `console::strip_ansi_codes`: the text with its escape sequences
/// removed, a result that depends on the text alone.
#[verifier::external_body]
fn strip_ansi(s: &str) -> (r: String)
    ensures
        r@ == ansi_stripped(s@),
{
    console::strip_ansi_codes(s).into_owned()
}

/// Relies on `unicode_width::UnicodeWidthStr::width`: the display width of a
/// text, which depends on its characters alone.
#[verifier::external_body]
fn display_width(s: &str) -> (r: usize)
    ensures
        r as nat == display_width_of(s@),
{
    unicode_width::UnicodeWidthStr::width(s)
}

/// Relies on `termion::terminal_size`: the (columns, rows) of the terminal on
/// standard output, when it can be read. Nothing is known of the value.
#[verifier::external_body]
pub(crate) fn terminal_columns() -> (r: Option<u16>) {
    termion::terminal_size().ok().map(|size| size.0)
}

/// The width to lay lines out in: the reported one, or the default where the
/// terminal reported none or a width of zero.
pub open spec fn columns_from(reported: Option<u16>) -> u16 {
    match reported {
        Some(c) => if c > 0 { c } else { DEFAULT_COLUMNS },
        None => DEFAULT_COLUMNS,
    }
}

/// The width to lay lines out in, from what the terminal reported.
pub fn columns_or_default(reported: Option<u16>) -> (r: u16)
    ensures
        r == columns_from(reported),
        r >= 1,
{
    match reported {
        Some(c) => if c > 0 { c } else { DEFAULT_COLUMNS },
        None => DEFAULT_COLUMNS,
    }
}

/// A count held in a `usize`: counts past its range stay at its largest value.
pub open spec fn capped(n: nat) -> nat {
    if n > usize::MAX { usize::MAX as nat } else { n }
}

/// Rows of `columns` cells that hold a line of `width` columns after the glyph
/// and its space: the ceiling of `(width + 2) / columns`.
pub open spec fn rows_of_width(width: nat, columns: nat) -> nat
    recommends
        columns >= 1,
{
    (((width + 1) as int) / (columns as int) + 1) as nat
}

/// Where the first line break of `s` stands, or `s.len()` where it has none.
pub open spec fn first_break(s: Seq<char>) -> nat
    decreases s.len(),
{
    if s.len() == 0 || s[0] == '\n' {
        0
    } else {
        1 + first_break(s.drop_first())
    }
}

/// Rows taken by a text once stripped: the sum, over its physical lines, of
/// the rows that each one takes on its own.
pub open spec fn rows_of_lines(s: Seq<char>, columns: nat) -> nat
    decreases s.len(),
{
    let k = first_break(s);
    let here = rows_of_width(display_width_of(s.take(k as int)), columns);
    if k < s.len() {
        here + rows_of_lines(s.skip(k + 1 as int), columns)
    } else {
        here
    }
}

/// Rows taken on a terminal of `columns` columns by a spinner showing `line`.
pub open spec fn rows_of_text(line: Seq<char>, columns: nat) -> nat {
    rows_of_lines(ansi_stripped(line), columns)
}

/// `rows_of_width` is the ceiling it is said to be: the fewest rows whose
/// cells hold the line with its glyph.
pub proof fn lemma_rows_is_ceiling(width: nat, columns: nat)
    requires
        columns >= 1,
    ensures
        (rows_of_width(width, columns) - 1) * columns < width + 2,
        width + 2 <= rows_of_width(width, columns) * columns,
{
    let a = (width + 1) as int;
    let c = columns as int;
    lemma_fundamental_div_mod(a, c);
    let q = a / c;
    let m = a % c;
    assert(0 <= m < c);
    assert(q >= 0) by (nonlinear_arith)
        requires a >= 0, c >= 1, q == a / c;
    assert(rows_of_width(width, columns) == q + 1);
    assert((q + 1) * c == q * c + c) by (nonlinear_arith);
    assert(q * c == c * q) by (nonlinear_arith);
}

/// A spinner always takes at least one row.
pub proof fn lemma_rows_of_width_positive(width: nat, columns: nat)
    requires
        columns >= 1,
    ensures
        rows_of_width(width, columns) >= 1,
{
    assert(((width + 1) as int) / (columns as int) >= 0) by (nonlinear_arith)
        requires columns >= 1;
}

/// A wider line never takes fewer rows.
pub proof fn lemma_rows_of_width_monotone(w1: nat, w2: nat, columns: nat)
    requires
        columns >= 1,
        w1 <= w2,
    ensures
        rows_of_width(w1, columns) <= rows_of_width(w2, columns),
{
    lemma_div_is_ordered((w1 + 1) as int, (w2 + 1) as int, columns as int);
    lemma_rows_of_width_positive(w1, columns);
}

proof fn lemma_rows_of_lines_positive(s: Seq<char>, columns: nat)
    requires
        columns >= 1,
    ensures
        rows_of_lines(s, columns) >= 1,
    decreases s.len(),
{
    let k = first_break(s);
    lemma_rows_of_width_positive(display_width_of(s.take(k as int)), columns);
    if k < s.len() {
        lemma_rows_of_lines_positive(s.skip(k + 1 as int), columns);
    }
}

/// Any text, the empty one included, takes at least one row, on any terminal.
pub proof fn lemma_rows_for_at_least_one(line: Seq<char>, columns: nat)
    requires
        columns >= 1,
    ensures
        rows_of_text(line, columns) >= 1,
        capped(rows_of_text(line, columns)) >= 1,
{
    lemma_rows_of_lines_positive(ansi_stripped(line), columns);
}

/// A text of one physical line takes the rows of its display width.
pub proof fn lemma_single_line_rows(s: Seq<char>, columns: nat)
    requires
        forall|j: int| 0 <= j < s.len() ==> s[j] != '\n',
    ensures
        rows_of_lines(s, columns) == rows_of_width(display_width_of(s), columns),
{
    lemma_first_break_at(s, s.len() as nat);
    assert(s.take(s.len() as int) =~= s);
}

/// For a fixed terminal width, of two texts that are each one line once
/// stripped, the one whose stripped form is wider never takes fewer rows.
pub proof fn lemma_rows_for_monotone(a: Seq<char>, b: Seq<char>, columns: nat)
    requires
        columns >= 1,
        forall|j: int| 0 <= j < ansi_stripped(a).len() ==> ansi_stripped(a)[j] != '\n',
        forall|j: int| 0 <= j < ansi_stripped(b).len() ==> ansi_stripped(b)[j] != '\n',
        display_width_of(ansi_stripped(a)) <= display_width_of(ansi_stripped(b)),
    ensures
        rows_of_text(a, columns) <= rows_of_text(b, columns),
        capped(rows_of_text(a, columns)) <= capped(rows_of_text(b, columns)),
{
    lemma_single_line_rows(ansi_stripped(a), columns);
    lemma_single_line_rows(ansi_stripped(b), columns);
    lemma_rows_of_width_monotone(
        display_width_of(ansi_stripped(a)),
        display_width_of(ansi_stripped(b)),
        columns,
    );
}

/// `first_break` finds the first line break: the position `k` before which
/// there is none, and at which there is one or the text ends.
proof fn lemma_first_break_at(s: Seq<char>, k: nat)
    requires
        k <= s.len(),
        forall|j: int| 0 <= j < k ==> s[j] != '\n',
        k == s.len() || s[k as int] == '\n',
    ensures
        first_break(s) == k,
    decreases k,
{
    if k > 0 {
        let t = s.drop_first();
        assert forall|j: int| 0 <= j < k - 1 implies t[j] != '\n' by {
            assert(t[j] == s[j + 1]);
        }
        if k < s.len() {
            assert(t[k - 1] == s[k as int]);
        }
        lemma_first_break_at(t, (k - 1) as nat);
    }
}

/// Rows for one physical line of measured width `width`, counted as
/// `rows_of_width` does.
pub fn rows_for_width(width: usize, columns: u16) -> (r: usize)
    requires
        columns >= 1,
    ensures
        r == capped(rows_of_width(width as nat, columns as nat)),
{
    let rows: u128 = (width as u128 + 1) / (columns as u128) + 1;
    assert(rows == rows_of_width(width as nat, columns as nat));
    if rows > usize::MAX as u128 {
        usize::MAX
    } else {
        rows as usize
    }
}

fn rows_of_physical_line(piece: &str, columns: u16) -> (r: usize)
    requires
        columns >= 1,
    ensures
        r == capped(rows_of_width(display_width_of(piece@), columns as nat)),
{
    let width = display_width(piece);
    rows_for_width(width, columns)
}

proof fn lemma_capped_sum(a: nat, b: nat)
    ensures
        capped(capped(a) + capped(b)) == capped(a + b),
{
}

/// Rows taken on a terminal of `columns` columns by a spinner showing `line`:
/// escape sequences are stripped, each physical line is measured by its
/// display width plus the glyph and its space, and the rows add up.
pub fn rows_for(line: &str, columns: u16) -> (r: usize)
    requires
        columns >= 1,
    ensures
        r == capped(rows_of_text(line@, columns as nat)),
        r >= 1,
{
    let stripped = strip_ansi(line);
    let s = stripped.as_str();
    let n = s.unicode_len();
    let c = Ghost(columns as nat);
    let mut total: usize = 0;
    let mut partial = Ghost(0nat);
    let mut start: usize = 0;
    let mut i: usize = 0;
    assert(s@.skip(0) =~= s@);
    while i < n
        invariant
            n == s@.len(),
            s@ == ansi_stripped(line@),
            c@ == columns as nat,
            columns >= 1,
            start <= i <= n,
            forall|j: int| start <= j < i ==> s@[j] != '\n',
            total == capped(partial@),
            partial@ + rows_of_lines(s@.skip(start as int), c@) == rows_of_lines(s@, c@),
        decreases n - i,
    {
        if s.get_char(i) == '\n' {
            let piece = s.substring_char(start, i);
            let rows = rows_of_physical_line(piece, columns);
            proof {
                let t = s@.skip(start as int);
                let k = (i - start) as nat;
                assert forall|j: int| 0 <= j < k implies t[j] != '\n' by {
                    assert(t[j] == s@[start + j]);
                }
                assert(t[k as int] == s@[i as int]);
                lemma_first_break_at(t, k);
                assert(t.take(k as int) =~= piece@);
                assert(t.skip(k + 1 as int) =~= s@.skip(i + 1));
                lemma_capped_sum(partial@, rows_of_width(display_width_of(piece@), c@));
            }
            total = total.saturating_add(rows);
            partial = Ghost(partial@ + rows_of_width(display_width_of(piece@), c@));
            start = i + 1;
        }
        i = i + 1;
    }
    let piece = s.substring_char(start, n);
    let rows = rows_of_physical_line(piece, columns);
    proof {
        let t = s@.skip(start as int);
        let k = (n - start) as nat;
        assert forall|j: int| 0 <= j < k implies t[j] != '\n' by {
            assert(t[j] == s@[start + j]);
        }
        lemma_first_break_at(t, k);
        assert(t.take(k as int) =~= piece@);
        lemma_capped_sum(partial@, rows_of_width(display_width_of(piece@), c@));
        lemma_rows_for_at_least_one(line@, c@);
    }
    total.saturating_add(rows)
}

} // verus!

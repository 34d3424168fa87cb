//! Laying text out: wrapped paragraphs and tables.

use vstd::prelude::*;

use crate::list::{extend_by, map_list, move_in};
use crate::text::{
    byte_length, chars_of, join, joined, lemma_joined_of_both, lemma_nonempty_of_both,
    lemma_split_of_both, lemma_still_opens, lemma_words_hold_none, nonempty, opens_with, pad_right,
    padded, split_on, split_whitespace, words_of, CharSet,
};

verus! {

// ---------------------------------------------------------------------------
// Paragraphs
// ---------------------------------------------------------------------------

/// The paragraphs of a text, which stand between blank lines; `open` is the text of the first so
/// far.
pub open spec fn paragraphs_from(s: Seq<char>, open: Seq<char>) -> Seq<Seq<char>>
    decreases s.len(),
{
    if s.len() == 0 {
        seq![open]
    } else if s.len() >= 2 && s[0] == '\n' && s[1] == '\n' {
        seq![open] + paragraphs_from(s.skip(2), Seq::empty())
    } else {
        paragraphs_from(s.drop_first(), open.push(s[0]))
    }
}

pub open spec fn paragraphs(s: Seq<char>) -> Seq<Seq<char>> {
    paragraphs_from(s, Seq::empty())
}

pub fn split_paragraphs(text: &str) -> (r: Vec<String>)
    ensures
        r.deep_view() == paragraphs(text@),
{
    let v = chars_of(text);
    let mut done: Vec<String> = Vec::new();
    let mut open = String::new();
    let mut i: usize = 0;
    assert(v@.skip(0) =~= v@);
    assert(done.deep_view() + paragraphs_from(v@, open@) =~= paragraphs(v@));
    while i < v.len()
        invariant
            i <= v.len(),
            v@ == text@,
            done.deep_view() + paragraphs_from(v@.skip(i as int), open@) == paragraphs(text@),
        decreases v.len() - i,
    {
        let ghost rest = v@.skip(i as int);
        let ghost before = done.deep_view();
        let ghost now = open@;
        assert(rest.drop_first() =~= v@.skip(i + 1));
        if v.len() - i >= 2 && v[i] == '\n' && v[i + 1] == '\n' {
            assert(rest.skip(2) =~= v@.skip(i + 2));
            extend_by(&mut done, open);
            open = String::new();
            assert(done.deep_view() + paragraphs_from(rest.skip(2), Seq::empty()) =~= before
                + paragraphs_from(rest, now));
            i += 2;
        } else {
            open.push(v[i]);
            i += 1;
        }
    }
    assert(v@.skip(i as int).len() == 0);
    let ghost before = done.deep_view();
    let ghost now = open@;
    extend_by(&mut done, open);
    assert(before + seq![now] =~= done.deep_view());
    done
}

/// The full lines, and the open one, that words fill: a word goes on the open line where it fits
/// into `width` bytes with a space before it, and else opens the next line.
pub open spec fn filled(words: Seq<Seq<char>>, width: nat) -> (Seq<Seq<char>>, Seq<char>)
    decreases words.len(),
{
    if words.len() == 0 {
        (Seq::empty(), Seq::empty())
    } else {
        let (lines, open) = filled(words.drop_last(), width);
        let word = words.last();
        if open.len() == 0 {
            (lines, word)
        } else if byte_length(open) + 1 + byte_length(word) <= width {
            (lines, open + " "@ + word)
        } else {
            (lines.push(open), word)
        }
    }
}

pub open spec fn paragraph_lines(paragraph: Seq<char>, width: nat) -> Seq<Seq<char>> {
    let (lines, open) = filled(words_of(paragraph, CharSet::Whitespace), width);
    if open.len() > 0 {
        lines.push(open)
    } else {
        lines
    }
}

pub open spec fn all_lines(parts: Seq<Seq<char>>, width: nat) -> Seq<Seq<char>>
    decreases parts.len(),
{
    if parts.len() == 0 {
        Seq::empty()
    } else {
        all_lines(parts.drop_last(), width) + paragraph_lines(parts.last(), width)
    }
}

/// The text in lines of up to `width` bytes; one empty line where it holds no word.
pub open spec fn wrapped(text: Seq<char>, width: nat) -> Seq<Seq<char>> {
    let lines = all_lines(paragraphs(text), width);
    if lines.len() == 0 {
        seq![Seq::empty()]
    } else {
        lines
    }
}

fn wrap_paragraph(paragraph: &str, width: usize) -> (r: Vec<String>)
    ensures
        r.deep_view() == paragraph_lines(paragraph@, width as nat),
{
    let words = split_whitespace(paragraph);
    let ghost all = words.deep_view();
    let mut lines: Vec<String> = Vec::new();
    let mut current = String::new();
    let mut i: usize = 0;
    assert(lines.deep_view() =~= Seq::<Seq<char>>::empty());
    assert(all.take(0).len() == 0);
    assert(current@ =~= Seq::<char>::empty());
    while i < words.len()
        invariant
            i <= words.len(),
            all == words.deep_view(),
            filled(all.take(i as int), width as nat) == (lines.deep_view(), current@),
        decreases words.len() - i,
    {
        assert(all.take(i + 1).drop_last() =~= all.take(i as int));
        assert(all.take(i + 1).last() == words@[i as int]@);
        let word = words[i].as_str();
        if current.as_str().is_empty() {
            current = word.to_owned();
        } else if fits(current.as_str(), word, width) {
            current.append(" ");
            current.append(word);
        } else {
            extend_by(&mut lines, current);
            current = word.to_owned();
        }
        i += 1;
    }
    assert(all.take(i as int) =~= all);
    if !current.as_str().is_empty() {
        extend_by(&mut lines, current);
    }
    lines
}

/// The number of bytes of the text in UTF-8, where a machine word holds it.
pub fn text_bytes(s: &str) -> (r: usize)
    ensures
        r == byte_length(s@),
{
    let bytes = s.as_bytes();
    bytes.len()
}

fn fits(open: &str, word: &str, width: usize) -> (r: bool)
    ensures
        r == (byte_length(open@) + 1 + byte_length(word@) <= width),
{
    let total: u128 = text_bytes(open) as u128 + 1 + text_bytes(word) as u128;
    total <= width as u128
}

pub fn wrap_text(text: &str, width: usize) -> (r: Vec<String>)
    ensures
        r.deep_view() == wrapped(text@, width as nat),
{
    let parts = split_paragraphs(text);
    let ghost all = parts.deep_view();
    let mut lines: Vec<String> = Vec::new();
    let mut i: usize = 0;
    assert(lines.deep_view() =~= all_lines(all.take(0), width as nat));
    while i < parts.len()
        invariant
            i <= parts.len(),
            all == parts.deep_view(),
            lines.deep_view() == all_lines(all.take(i as int), width as nat),
        decreases parts.len() - i,
    {
        assert(all.take(i + 1).drop_last() =~= all.take(i as int));
        assert(all.take(i + 1).last() == parts@[i as int]@);
        move_in(&mut lines, wrap_paragraph(parts[i].as_str(), width));
        i += 1;
    }
    assert(all.take(i as int) =~= all);
    assert(lines.deep_view().len() == lines.len());
    if lines.len() == 0 {
        extend_by(&mut lines, String::new());
        assert(lines.deep_view() =~= seq![Seq::<char>::empty()]);
    }
    lines
}

pub open spec fn message_lines(from_user: Seq<char>, message: Seq<char>) -> Seq<Seq<char>> {
    seq!["   @"@ + from_user] + wrapped(message, 77).map_values(|l: Seq<char>| "   "@ + l)
        + seq![Seq::<char>::empty()]
}

/// A message under the name of its author, indented.
pub fn print_message(from_user: &str, message: &str) -> (r: Vec<String>)
    ensures
        r.deep_view() == message_lines(from_user@, message@),
{
    let mut out: Vec<String> = Vec::new();
    extend_by(&mut out, crate::text::cat2("   @", from_user));
    assert(out.deep_view() =~= seq!["   @"@ + from_user@]);
    let body = wrap_text(message, 77);
    let indent = |l: &String| -> (r: String)
        ensures
            r@ == "   "@ + l@,
    {
        crate::text::cat2("   ", l.as_str())
    };
    let indented = map_list(&body, indent, Ghost(|l: Seq<char>| "   "@ + l));
    move_in(&mut out, indented);
    let ghost before = out.deep_view();
    extend_by(&mut out, String::new());
    assert(out.deep_view() =~= before + seq![Seq::<char>::empty()]);
    out
}

// ---------------------------------------------------------------------------
// Tables
// ---------------------------------------------------------------------------

/// The largest byte length in a column, and at least `start`.
pub open spec fn widest(rows: Seq<Seq<Seq<char>>>, column: int, start: nat) -> nat
    decreases rows.len(),
{
    if rows.len() == 0 {
        start
    } else {
        let front = widest(rows.drop_last(), column, start);
        if 0 <= column < rows.last().len() && byte_length(rows.last()[column]) > front {
            byte_length(rows.last()[column])
        } else {
            front
        }
    }
}

pub open spec fn column_width(
    headings: Seq<Seq<char>>,
    rows: Seq<Seq<Seq<char>>>,
    column: int,
) -> nat {
    widest(rows, column, byte_length(headings[column]))
}

pub open spec fn row_line(
    row: Seq<Seq<char>>,
    headings: Seq<Seq<char>>,
    rows: Seq<Seq<Seq<char>>>,
) -> Seq<char> {
    joined(
        Seq::new(row.len(), |j: int| padded(row[j], column_width(headings, rows, j))),
        "  "@,
    )
}

/// The lines of a table: headings, then rows, each column as wide as its longest entry; nothing
/// without rows.
pub open spec fn table_lines(
    headings: Seq<Seq<char>>,
    rows: Seq<Seq<Seq<char>>>,
) -> Seq<Seq<char>> {
    if rows.len() == 0 {
        Seq::empty()
    } else {
        seq![row_line(headings, headings, rows)] + rows.map_values(
            |row: Seq<Seq<char>>| row_line(row, headings, rows),
        )
    }
}

fn measure_columns(headings: &Vec<String>, rows: &Vec<Vec<String>>) -> (r: Vec<usize>)
    ensures
        r@.len() == headings@.len(),
        forall|j: int|
            0 <= j < headings@.len() ==> #[trigger] r@[j] == column_width(
                headings.deep_view(),
                rows.deep_view(),
                j,
            ),
{
    let ghost heads = headings.deep_view();
    let ghost all = rows.deep_view();
    let mut widths: Vec<usize> = Vec::new();
    let mut j: usize = 0;
    while j < headings.len()
        invariant
            j <= headings.len(),
            heads == headings.deep_view(),
            all == rows.deep_view(),
            widths@.len() == j,
            forall|k: int|
                0 <= k < j ==> #[trigger] widths@[k] == column_width(heads, all, k),
        decreases headings.len() - j,
    {
        let mut w: usize = text_bytes(headings[j].as_str());
        let mut i: usize = 0;
        assert(all.take(0).len() == 0);
        while i < rows.len()
            invariant
                i <= rows.len(),
                j < headings.len(),
                heads == headings.deep_view(),
                all == rows.deep_view(),
                w == widest(all.take(i as int), j as int, byte_length(heads[j as int])),
            decreases rows.len() - i,
        {
            assert(all.take(i + 1).drop_last() =~= all.take(i as int));
            assert(all.take(i + 1).last() == rows@[i as int].deep_view());
            if j < rows[i].len() {
                let n: usize = text_bytes(rows[i][j].as_str());
                if n > w {
                    w = n;
                }
            }
            i += 1;
        }
        assert(all.take(i as int) =~= all);
        widths.push(w);
        j += 1;
    }
    widths
}

fn lay_out_row(
    row: &Vec<String>,
    widths: &Vec<usize>,
    Ghost(heads): Ghost<Seq<Seq<char>>>,
    Ghost(rows): Ghost<Seq<Seq<Seq<char>>>>,
) -> (r: String)
    requires
        row@.len() <= widths@.len(),
        forall|j: int| 0 <= j < widths@.len() ==> #[trigger] widths@[j] == column_width(heads, rows, j),
    ensures
        r@ == row_line(row.deep_view(), heads, rows),
{
    let ghost cells = row.deep_view();
    let mut parts: Vec<String> = Vec::new();
    let mut j: usize = 0;
    let ghost goal = Seq::new(
        cells.len(),
        |j: int| padded(cells[j], column_width(heads, rows, j)),
    );
    assert(parts.deep_view() =~= goal.take(0));
    while j < row.len()
        invariant
            j <= row.len() <= widths.len(),
            cells == row.deep_view(),
            goal == Seq::new(
                cells.len(),
                |j: int| padded(cells[j], column_width(heads, rows, j)),
            ),
            forall|j: int|
                0 <= j < widths@.len() ==> #[trigger] widths@[j] == column_width(heads, rows, j),
            parts.deep_view() == goal.take(j as int),
        decreases row.len() - j,
    {
        extend_by(&mut parts, pad_right(row[j].as_str(), widths[j]));
        j += 1;
        assert(parts.deep_view() =~= goal.take(j as int));
    }
    assert(parts.deep_view() =~= goal);
    join(&parts, "  ")
}

pub fn print_table(headings: &Vec<String>, rows: &Vec<Vec<String>>) -> (r: Vec<String>)
    requires
        forall|i: int|
            0 <= i < rows.deep_view().len() ==> (#[trigger] rows.deep_view()[i]).len()
                <= headings.deep_view().len(),
    ensures
        r.deep_view() == table_lines(headings.deep_view(), rows.deep_view()),
{
    let mut out: Vec<String> = Vec::new();
    let ghost heads = headings.deep_view();
    let ghost all = rows.deep_view();
    if rows.len() == 0 {
        assert(out.deep_view() =~= Seq::<Seq<char>>::empty());
        return out;
    }
    let widths = measure_columns(headings, rows);
    extend_by(&mut out, lay_out_row(headings, &widths, Ghost(heads), Ghost(all)));
    let ghost f = |row: Seq<Seq<char>>| row_line(row, heads, all);
    let ghost first = out.deep_view();
    let mut i: usize = 0;
    assert(first + all.take(0).map_values(f) =~= first);
    while i < rows.len()
        invariant
            i <= rows.len(),
            heads == headings.deep_view(),
            all == rows.deep_view(),
            f == (|row: Seq<Seq<char>>| row_line(row, heads, all)),
            widths@.len() == headings@.len(),
            forall|j: int|
                0 <= j < headings@.len() ==> #[trigger] widths@[j] == column_width(heads, all, j),
            forall|i: int| 0 <= i < all.len() ==> (#[trigger] all[i]).len() <= heads.len(),
            out.deep_view() == first + all.take(i as int).map_values(f),
        decreases rows.len() - i,
    {
        proof {
            crate::list::lemma_mapped_step(all, i as int, f);
        }
        assert(all[i as int] == rows@[i as int].deep_view());
        extend_by(&mut out, lay_out_row(&rows[i], &widths, Ghost(heads), Ghost(all)));
        assert(out.deep_view() =~= first + all.take(i + 1).map_values(f));
        i += 1;
    }
    assert(all.take(i as int) =~= all);
    assert(out.deep_view() =~= table_lines(heads, all));
    out
}

/// The largest byte length of a key.
pub open spec fn widest_key(rows: Seq<(Seq<char>, Seq<char>)>) -> nat
    decreases rows.len(),
{
    if rows.len() == 0 {
        0
    } else {
        let front = widest_key(rows.drop_last());
        if byte_length(rows.last().0) > front {
            byte_length(rows.last().0)
        } else {
            front
        }
    }
}

pub open spec fn key_value_lines(rows: Seq<(Seq<char>, Seq<char>)>) -> Seq<Seq<char>> {
    rows.map_values(|r: (Seq<char>, Seq<char>)| padded(r.0, widest_key(rows)) + "  "@ + r.1)
}

pub fn print_key_value_table(rows: &Vec<(String, String)>) -> (r: Vec<String>)
    ensures
        r.deep_view() == key_value_lines(rows.deep_view()),
{
    let ghost all = rows.deep_view();
    let mut width: usize = 0;
    let mut i: usize = 0;
    assert(all.take(0).len() == 0);
    while i < rows.len()
        invariant
            i <= rows.len(),
            all == rows.deep_view(),
            width == widest_key(all.take(i as int)),
        decreases rows.len() - i,
    {
        assert(all.take(i + 1).drop_last() =~= all.take(i as int));
        assert(all.take(i + 1).last() == rows@[i as int].deep_view());
        let n: usize = text_bytes(rows[i].0.as_str());
        if n > width {
            width = n;
        }
        i += 1;
    }
    assert(all.take(i as int) =~= all);
    let show = |r: &(String, String)| -> (s: String)
        ensures
            width == widest_key(rows.deep_view()) ==> s@ == padded(
                r.0@,
                widest_key(rows.deep_view()),
            ) + "  "@ + r.1@,
    {
        pad_right(r.0.as_str(), width).concat("  ").concat(r.1.as_str())
    };
    map_list(
        rows,
        show,
        Ghost(|r: (Seq<char>, Seq<char>)| padded(r.0, widest_key(all)) + "  "@ + r.1),
    )
}

/// `key: value` for each pair whose value is not empty.
pub open spec fn labelled(pair: (Seq<char>, Seq<char>)) -> Option<Seq<char>> {
    if pair.1.len() > 0 {
        Some(pair.0 + ": "@ + pair.1)
    } else {
        None
    }
}

pub open spec fn labelled_lines(rows: Seq<(Seq<char>, Seq<char>)>) -> Seq<Seq<char>> {
    crate::list::collected(rows, |r: (Seq<char>, Seq<char>)| labelled(r))
}

pub fn print_labelled(rows: &Vec<(String, String)>) -> (r: Vec<String>)
    ensures
        r.deep_view() == labelled_lines(rows.deep_view()),
{
    let show = |r: &(String, String)| -> (s: Option<String>)
        ensures
            s.deep_view() == labelled((r.0@, r.1@)),
    {
        if r.1.as_str().is_empty() {
            None
        } else {
            Some(r.0.clone().concat(": ").concat(r.1.as_str()))
        }
    };
    crate::list::collect_list(rows, show, Ghost(|r: (Seq<char>, Seq<char>)| labelled(r)))
}

// ---------------------------------------------------------------------------
// Laws
// ---------------------------------------------------------------------------

/// Whether a line is within the width, or a word that is too long for any line.
pub open spec fn is_narrow(line: Seq<char>, words: Seq<Seq<char>>, width: nat) -> bool {
    byte_length(line) <= width || words.contains(line)
}

proof fn lemma_filled(words: Seq<Seq<char>>, width: nat)
    requires
        forall|i: int| 0 <= i < words.len() ==> (#[trigger] words[i]).len() > 0,
    ensures
        ({
            let (lines, open) = filled(words, width);
            &&& forall|i: int| 0 <= i < lines.len() ==> is_narrow(#[trigger] lines[i], words, width)
            &&& open.len() > 0 ==> is_narrow(open, words, width)
            &&& (open.len() == 0) == (words.len() == 0)
            &&& words.len() == 0 ==> lines.len() == 0
            &&& words.len() > 0 ==> joined(lines.push(open), " "@) == joined(words, " "@)
        }),
    decreases words.len(),
{
    if words.len() > 0 {
        let front = words.drop_last();
        let word = words.last();
        assert forall|i: int| 0 <= i < front.len() implies (#[trigger] front[i]).len() > 0 by {
            assert(front[i] == words[i]);
        }
        lemma_filled(front, width);
        let (before, open) = filled(front, width);
        let (lines, now) = filled(words, width);
        assert(words.contains(word)) by {
            assert(words[words.len() - 1] == word);
        }
        assert forall|line: Seq<char>| is_narrow(line, front, width) implies #[trigger] is_narrow(
            line,
            words,
            width,
        ) by {
            if front.contains(line) {
                let k = choose|k: int| 0 <= k < front.len() && front[k] == line;
                assert(words[k] == line);
            }
        }
        if open.len() == 0 {
            assert(words.len() == 1);
            assert(lines.push(now) =~= seq![word]);
        } else if byte_length(open) + 1 + byte_length(word) <= width {
            reveal_strlit(" ");
            assert(byte_length(" "@) == 1) by {
                assert(" "@ =~= seq![' ']);
                reveal_with_fuel(vstd::utf8::encode_utf8, 2);
                assert(vstd::utf8::encode_scalar(' ' as u32).len() == 1);
            }
            crate::text::lemma_bytes_of_both(open, " "@);
            crate::text::lemma_bytes_of_both(open + " "@, word);
            assert(lines.push(now).drop_last() =~= lines);
            assert(before.push(open).drop_last() =~= before);
            lemma_joined_grows(before, open, word);
        } else {
            assert(lines.push(now).drop_last() =~= before.push(open));
        }
    }
}

proof fn lemma_joined_grows(before: Seq<Seq<char>>, open: Seq<char>, word: Seq<char>)
    ensures
        joined(before.push(open + " "@ + word), " "@) == joined(before.push(open), " "@) + " "@
            + word,
{
    let longer = open + " "@ + word;
    assert(before.push(longer).drop_last() =~= before);
    assert(before.push(open).drop_last() =~= before);
    if before.len() == 0 {
        assert(before.push(longer).len() == 1);
    } else {
        assert(joined(before.push(longer), " "@) =~= joined(before, " "@) + " "@ + longer);
        assert(joined(before, " "@) + " "@ + longer =~= (joined(before, " "@) + " "@ + open) + " "@
            + word);
    }
}

/// Wrapping keeps the words of a paragraph and their order, and no line is wider than asked for
/// unless it is one long word.
pub proof fn law_wrapping_keeps_the_words(paragraph: Seq<char>, width: nat)
    ensures
        joined(paragraph_lines(paragraph, width), " "@) == joined(
            words_of(paragraph, CharSet::Whitespace),
            " "@,
        ),
        forall|i: int|
            0 <= i < paragraph_lines(paragraph, width).len() ==> is_narrow(
                #[trigger] paragraph_lines(paragraph, width)[i],
                words_of(paragraph, CharSet::Whitespace),
                width,
            ),
{
    let words = words_of(paragraph, CharSet::Whitespace);
    crate::text::lemma_nonempty(split_on(paragraph, CharSet::Whitespace));
    lemma_filled(words, width);
}

/// The words of paragraphs, one paragraph after the other.
pub open spec fn all_words(parts: Seq<Seq<char>>) -> Seq<Seq<char>>
    decreases parts.len(),
{
    if parts.len() == 0 {
        Seq::empty()
    } else {
        all_words(parts.drop_last()) + words_of(parts.last(), CharSet::Whitespace)
    }
}

proof fn lemma_first_words(first: Seq<char>, rest: Seq<Seq<char>>)
    ensures
        all_words(seq![first] + rest) == words_of(first, CharSet::Whitespace) + all_words(rest),
    decreases rest.len(),
{
    let all = seq![first] + rest;
    if rest.len() == 0 {
        assert(all.drop_last() =~= Seq::empty());
        assert(all_words(all.drop_last()) =~= Seq::empty());
        assert(all_words(all) =~= words_of(first, CharSet::Whitespace) + all_words(rest));
    } else {
        lemma_first_words(first, rest.drop_last());
        assert(all.drop_last() =~= seq![first] + rest.drop_last());
        assert(all_words(all) =~= words_of(first, CharSet::Whitespace) + all_words(rest));
    }
}

proof fn lemma_paragraph_words(s: Seq<char>, open: Seq<char>)
    ensures
        all_words(paragraphs_from(s, open)) == words_of(open + s, CharSet::Whitespace),
    decreases s.len(),
{
    let set = CharSet::Whitespace;
    if s.len() == 0 {
        assert(open + s =~= open);
        lemma_first_words(open, Seq::empty());
        assert(seq![open] + Seq::<Seq<char>>::empty() =~= seq![open]);
        assert(words_of(open, set) + all_words(Seq::empty()) =~= words_of(open, set));
    } else if s.len() >= 2 && s[0] == '\n' && s[1] == '\n' {
        let rest = s.skip(2);
        let behind = seq!['\n'] + rest;
        lemma_paragraph_words(rest, Seq::empty());
        assert(Seq::<char>::empty() + rest =~= rest);
        lemma_first_words(open, paragraphs_from(rest, Seq::empty()));
        lemma_split_of_both(open, '\n', behind, set);
        lemma_split_of_both(Seq::empty(), '\n', rest, set);
        assert(open + s =~= open.push('\n') + behind);
        assert(behind =~= Seq::<char>::empty().push('\n') + rest);
        let none = seq![Seq::<char>::empty()];
        assert(nonempty(none.drop_last()) =~= Seq::empty());
        assert(nonempty(none) =~= Seq::empty());
        lemma_nonempty_of_both(split_on(open, set), split_on(behind, set));
        lemma_nonempty_of_both(none, split_on(rest, set));
        assert(words_of(behind, set) =~= words_of(rest, set));
    } else {
        lemma_paragraph_words(s.drop_first(), open.push(s[0]));
        assert(open.push(s[0]) + s.drop_first() =~= open + s);
    }
}

proof fn lemma_all_lines(parts: Seq<Seq<char>>, width: nat)
    ensures
        joined(all_lines(parts, width), " "@) == joined(all_words(parts), " "@),
        (all_lines(parts, width).len() == 0) == (all_words(parts).len() == 0),
        forall|i: int|
            0 <= i < all_lines(parts, width).len() ==> is_narrow(
                #[trigger] all_lines(parts, width)[i],
                all_words(parts),
                width,
            ),
    decreases parts.len(),
{
    if parts.len() > 0 {
        let fewer = parts.drop_last();
        let paragraph = parts.last();
        let words = words_of(paragraph, CharSet::Whitespace);
        let lines = paragraph_lines(paragraph, width);
        lemma_all_lines(fewer, width);
        law_wrapping_keeps_the_words(paragraph, width);
        crate::text::lemma_nonempty(split_on(paragraph, CharSet::Whitespace));
        lemma_filled(words, width);
        lemma_joined_of_both(all_lines(fewer, width), lines, " "@);
        lemma_joined_of_both(all_words(fewer), words, " "@);
        assert forall|i: int| 0 <= i < all_lines(parts, width).len() implies is_narrow(
            #[trigger] all_lines(parts, width)[i],
            all_words(parts),
            width,
        ) by {
            let line = all_lines(parts, width)[i];
            let front = all_lines(fewer, width);
            if i < front.len() {
                assert(line == front[i]);
                assert(is_narrow(front[i], all_words(fewer), width));
                if all_words(fewer).contains(line) {
                    let k = choose|k: int|
                        0 <= k < all_words(fewer).len() && all_words(fewer)[k] == line;
                    assert(all_words(parts)[k] == line);
                }
            } else {
                let j = i - front.len();
                assert(line == lines[j]);
                assert(is_narrow(lines[j], words, width));
                if words.contains(line) {
                    let k = choose|k: int| 0 <= k < words.len() && words[k] == line;
                    assert(all_words(parts)[all_words(fewer).len() + k] == line);
                }
            }
        }
    }
}

/// Wrapping keeps the words of a text and their order. No line is wider than asked for unless it
/// is one word; a line that holds a space never is.
pub proof fn law_wrapping_keeps_the_text(text: Seq<char>, width: nat)
    ensures
        joined(wrapped(text, width), " "@) == joined(words_of(text, CharSet::Whitespace), " "@),
        forall|i: int|
            0 <= i < wrapped(text, width).len() ==> {
                let line = #[trigger] wrapped(text, width)[i];
                &&& is_narrow(line, words_of(text, CharSet::Whitespace), width)
                &&& line.contains(' ') ==> byte_length(line) <= width
            },
{
    let parts = paragraphs(text);
    let words = words_of(text, CharSet::Whitespace);
    lemma_all_lines(parts, width);
    lemma_paragraph_words(text, Seq::empty());
    assert(Seq::<char>::empty() + text =~= text);
    lemma_words_hold_none(text, CharSet::Whitespace);
    let lines = all_lines(parts, width);
    if lines.len() == 0 {
        assert(words.len() == 0);
        assert(byte_length(Seq::empty()) == 0) by {
            reveal_with_fuel(vstd::utf8::encode_utf8, 1);
        }
    }
    assert forall|i: int| 0 <= i < wrapped(text, width).len() implies {
        let line = #[trigger] wrapped(text, width)[i];
        &&& is_narrow(line, words, width)
        &&& line.contains(' ') ==> byte_length(line) <= width
    } by {
        let line = wrapped(text, width)[i];
        if lines.len() > 0 {
            assert(line == lines[i]);
        }
        if line.contains(' ') && words.contains(line) {
            let k = choose|k: int| 0 <= k < words.len() && words[k] == line;
            let j = choose|j: int| 0 <= j < line.len() && line[j] == ' ';
            assert(!CharSet::Whitespace.holds(words[k][j]));
        }
    }
}

/// Whether a line opens with a word that did not fit on the line before it.
pub open spec fn is_due(line: Seq<char>, next: Seq<char>, word: Seq<char>, width: nat) -> bool {
    opens_with(next, word, " "@) && byte_length(line) + 1 + byte_length(word) > width
}

/// Whether a line is broken where one of the words did not fit.
pub open spec fn is_broken_duly(
    line: Seq<char>,
    next: Seq<char>,
    words: Seq<Seq<char>>,
    width: nat,
) -> bool {
    exists|k: int| 0 <= k < words.len() && is_due(line, next, #[trigger] words[k], width)
}

proof fn lemma_breaks(words: Seq<Seq<char>>, width: nat)
    requires
        forall|i: int| 0 <= i < words.len() ==> (#[trigger] words[i]).len() > 0,
    ensures
        ({
            let (lines, open) = filled(words, width);
            let all = lines.push(open);
            forall|i: int|
                0 < i < all.len() ==> is_broken_duly(all[i - 1], #[trigger] all[i], words, width)
        }),
    decreases words.len(),
{
    if words.len() > 0 {
        let front = words.drop_last();
        let word = words.last();
        assert forall|i: int| 0 <= i < front.len() implies (#[trigger] front[i]).len() > 0 by {
            assert(front[i] == words[i]);
        }
        lemma_breaks(front, width);
        lemma_filled(front, width);
        let (before, open) = filled(front, width);
        let (lines, now) = filled(words, width);
        let earlier = before.push(open);
        let all = lines.push(now);
        assert forall|i: int| 0 < i < all.len() implies is_broken_duly(
            all[i - 1],
            #[trigger] all[i],
            words,
            width,
        ) by {
            if i < earlier.len() {
                assert(is_broken_duly(earlier[i - 1], earlier[i], front, width));
                let k = choose|k: int|
                    0 <= k < front.len() && is_due(
                        earlier[i - 1],
                        earlier[i],
                        #[trigger] front[k],
                        width,
                    );
                assert(words[k] == front[k]);
                assert(all[i - 1] == earlier[i - 1]);
                if all[i] != earlier[i] {
                    lemma_still_opens(open, front[k], " "@, word);
                }
                assert(is_due(all[i - 1], all[i], words[k], width));
            } else {
                assert(words[words.len() - 1] == word);
                assert(is_due(all[i - 1], all[i], words[words.len() - 1], width));
            }
        }
    }
}

/// Within a paragraph a line is broken only where the next word would make it too wide.
pub proof fn law_lines_are_broken_where_a_word_does_not_fit(
    paragraph: Seq<char>,
    width: nat,
    i: int,
)
    requires
        0 < i < paragraph_lines(paragraph, width).len(),
    ensures
        is_broken_duly(
            paragraph_lines(paragraph, width)[i - 1],
            paragraph_lines(paragraph, width)[i],
            words_of(paragraph, CharSet::Whitespace),
            width,
        ),
{
    let words = words_of(paragraph, CharSet::Whitespace);
    crate::text::lemma_nonempty(split_on(paragraph, CharSet::Whitespace));
    lemma_breaks(words, width);
    lemma_filled(words, width);
    let (lines, open) = filled(words, width);
    let all = lines.push(open);
    assert(all =~= paragraph_lines(paragraph, width));
    assert(is_broken_duly(all[i - 1], all[i], words, width));
}

} // verus!

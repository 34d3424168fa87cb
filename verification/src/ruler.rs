//! A ruler for the length of a tweet.

use vstd::prelude::*;

use crate::text::{chars_of, decimal, decimal_usize, string_of};

verus! {

/// How many characters the ruler measures.
pub const RULER_WIDTH: usize = 280;

/// A line with text written over it from a place on; the line grows where it is too short.
pub open spec fn overlaid(line: Seq<char>, start: nat, text: Seq<char>) -> Seq<char> {
    Seq::new(
        if line.len() < start + text.len() {
            start + text.len()
        } else {
            line.len()
        },
        |i: int|
            if start <= i < start + text.len() {
                text[i - start]
            } else if i < line.len() {
                line[i]
            } else {
                ' '
            },
    )
}

pub fn overlay_text(line: &mut Vec<char>, start: usize, text: &str)
    requires
        start + text@.len() <= usize::MAX,
    ensures
        final(line)@ == overlaid(old(line)@, start as nat, text@),
{
    let ghost before = line@;
    let chars = chars_of(text);
    let needed: usize = start + chars.len();
    while line.len() < needed
        invariant
            before.len() <= line@.len(),
            needed == start + text@.len(),
            line@.len() <= before.len() || line@.len() <= needed,
            forall|i: int| 0 <= i < before.len() ==> line@[i] == before[i],
            forall|i: int| before.len() <= i < line@.len() ==> line@[i] == ' ',
        decreases needed - line@.len(),
    {
        line.push(' ');
    }
    let ghost wide = line@;
    let mut index: usize = 0;
    while index < chars.len()
        invariant
            index <= chars@.len(),
            chars@ == text@,
            needed == start + text@.len(),
            needed <= line@.len(),
            line@.len() == wide.len(),
            forall|i: int|
                0 <= i < line@.len() ==> line@[i] == (if start <= i < start + index {
                    text@[i - start]
                } else {
                    wide[i]
                }),
        decreases chars@.len() - index,
    {
        line.set(start + index, chars[index]);
        index += 1;
    }
    assert(line@ =~= overlaid(before, start as nat, text@));
}

/// A mark of the ruler, without the numbers.
pub open spec fn mark(position: int) -> char {
    if position % 10 == 0 {
        '|'
    } else if position % 5 == 0 {
        ':'
    } else {
        '.'
    }
}

/// The multiple of twenty whose number stands nearest behind a place.
pub open spec fn marker_for(i: int) -> int {
    (i / 20 + 1) * 20
}

/// The character at a place of the ruler: a number right before each twentieth mark, and else the
/// mark.
pub open spec fn ruler_char(i: int) -> char {
    let marker = marker_for(i);
    let label = decimal(marker as nat);
    let start = marker - 1 - label.len();
    if start <= i < marker - 1 {
        label[i - start]
    } else {
        mark(i + 1)
    }
}

/// The ruler.
pub open spec fn ruler_line() -> Seq<char> {
    Seq::new(RULER_WIDTH as nat, |i: int| ruler_char(i))
}

proof fn lemma_short_number(n: nat)
    requires
        n < 1000,
    ensures
        1 <= decimal(n).len() <= 3,
{
    reveal_with_fuel(decimal, 3);
}

pub fn numbered_ruler_line() -> (r: String)
    ensures
        r@ == ruler_line(),
{
    let mut line: Vec<char> = Vec::new();
    let mut position: usize = 1;
    while position <= RULER_WIDTH
        invariant
            1 <= position <= RULER_WIDTH + 1,
            line@.len() == position - 1,
            forall|i: int| 0 <= i < line@.len() ==> line@[i] == mark(i + 1),
        decreases RULER_WIDTH + 1 - position,
    {
        if position % 10 == 0 {
            line.push('|');
        } else if position % 5 == 0 {
            line.push(':');
        } else {
            line.push('.');
        }
        position += 1;
    }
    let mut marker: usize = 20;
    while marker <= RULER_WIDTH
        invariant
            20 <= marker <= RULER_WIDTH + 20,
            marker % 20 == 0,
            line@.len() == RULER_WIDTH,
            forall|i: int|
                0 <= i < RULER_WIDTH ==> line@[i] == (if i < marker - 20 {
                    ruler_char(i)
                } else {
                    mark(i + 1)
                }),
        decreases RULER_WIDTH + 20 - marker,
    {
        let ghost before = line@;
        let label = decimal_usize(marker);
        proof {
            lemma_short_number(marker as nat);
        }
        let length: usize = label.as_str().unicode_len();
        let start: usize = marker - (length + 1);
        overlay_text(&mut line, start, label.as_str());
        assert forall|i: int| 0 <= i < RULER_WIDTH implies line@[i] == (if i < marker {
            ruler_char(i)
        } else {
            mark(i + 1)
        }) by {
            if marker - 20 <= i < marker {
                assert(marker_for(i) == marker) by {
                    assert(i / 20 == (marker - 20) / 20);
                }
            }
        }
        marker += 20;
    }
    assert(line@ =~= ruler_line());
    string_of(&line)
}

/// The ruler is as long as a tweet may be, each tenth place is marked, and the number right before
/// each twentieth mark says where the mark stands.
pub proof fn law_ruler_measures(position: int)
    requires
        0 < position <= RULER_WIDTH,
    ensures
        ruler_line().len() == RULER_WIDTH,
        position % 10 == 0 ==> ruler_line()[position - 1] == '|',
        position % 20 == 0 ==> ruler_line().subrange(
            position - 1 - decimal(position as nat).len(),
            position - 1,
        ) == decimal(position as nat),
{
    let line = ruler_line();
    if position % 10 == 0 {
        let i = position - 1;
        let marker = marker_for(i);
        lemma_short_number(marker as nat);
        assert(marker == position || marker == position + 10);
    }
    if position % 20 == 0 {
        let label = decimal(position as nat);
        lemma_short_number(position as nat);
        let start = position - 1 - label.len();
        assert forall|k: int| 0 <= k < label.len() implies line.subrange(start, position - 1)[k]
            == label[k] by {
            let i = start + k;
            assert(marker_for(i) == position) by {
                assert(position - 20 <= i < position);
                assert(i / 20 == (position - 20) / 20);
            }
        }
        assert(line.subrange(start, position - 1) =~= label);
    }
}

} // verus!

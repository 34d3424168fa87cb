//! Small pieces of text: names, mentions, counts and comma-separated rows.

use vstd::prelude::*;

use crate::list::{collected, extend_by, lemma_collected_step, lemma_mapped_step};
use crate::text::{
    begins_with, chars_of, decimal, decimal_u64, decimal_usize, join, joined, replace, replaced,
    split_at_first, split_once, split_whitespace, strip_prefix, trim, trim_both, trim_front,
    trim_matches, trim_start, trimmed, words_of, CharSet,
};

verus! {

// ---------------------------------------------------------------------------
// Names of accounts
// ---------------------------------------------------------------------------

/// A name without the `@` signs before it.
pub open spec fn bare_name(s: Seq<char>) -> Seq<char> {
    trim_front(s, CharSet::Only('@'))
}

pub fn strip_at(value: &str) -> (r: String)
    ensures
        r@ == bare_name(value@),
{
    trim_start(value, &CharSet::Only('@'))
}

pub proof fn lemma_trim_front_stops(s: Seq<char>, set: CharSet)
    ensures
        trim_front(s, set).len() == 0 || !set.holds(trim_front(s, set)[0]),
    decreases s.len(),
{
    if s.len() > 0 && set.holds(s[0]) {
        lemma_trim_front_stops(s.drop_first(), set);
    }
}

/// A bare name stays as it is.
pub proof fn law_bare_name_is_final(s: Seq<char>)
    ensures
        bare_name(bare_name(s)) == bare_name(s),
        bare_name(s).len() == 0 || bare_name(s)[0] != '@',
        bare_name(seq!['@'] + s) == bare_name(s),
{
    lemma_trim_front_stops(s, CharSet::Only('@'));
    assert((seq!['@'] + s).drop_first() =~= s);
}

/// How an argument names a user: by identifier as it stands, else by bare name.
pub open spec fn user_arg(value: Seq<char>, by_id: bool) -> Seq<char> {
    if by_id {
        value
    } else {
        bare_name(value)
    }
}

pub fn normalize_user_arg(value: &str, by_id: bool) -> (r: String)
    ensures
        r@ == user_arg(value@, by_id),
{
    if by_id {
        value.to_owned()
    } else {
        strip_at(value)
    }
}

pub fn resolve_user_list(args: &Vec<String>, by_id: bool) -> (r: Vec<String>)
    ensures
        r.deep_view() == args.deep_view().map_values(|a: Seq<char>| user_arg(a, by_id)),
{
    let ghost f = |a: Seq<char>| user_arg(a, by_id);
    let ghost all = args.deep_view();
    let mut out: Vec<String> = Vec::new();
    let mut i: usize = 0;
    assert(out.deep_view() =~= all.take(0).map_values(f));
    while i < args.len()
        invariant
            i <= args.len(),
            all == args.deep_view(),
            f == (|a: Seq<char>| user_arg(a, by_id)),
            out.deep_view() == all.take(i as int).map_values(f),
        decreases args.len() - i,
    {
        proof {
            lemma_mapped_step(all, i as int, f);
        }
        extend_by(&mut out, normalize_user_arg(args[i].as_str(), by_id));
        i += 1;
    }
    assert(all.take(i as int) =~= all);
    out
}

pub fn resolve_id_list(args: &Vec<String>) -> (r: Vec<String>)
    ensures
        r.deep_view() == args.deep_view().map_values(|a: Seq<char>| trimmed(a)),
{
    let ghost f = |a: Seq<char>| trimmed(a);
    let ghost all = args.deep_view();
    let mut out: Vec<String> = Vec::new();
    let mut i: usize = 0;
    assert(out.deep_view() =~= all.take(0).map_values(f));
    while i < args.len()
        invariant
            i <= args.len(),
            all == args.deep_view(),
            f == (|a: Seq<char>| trimmed(a)),
            out.deep_view() == all.take(i as int).map_values(f),
        decreases args.len() - i,
    {
        proof {
            lemma_mapped_step(all, i as int, f);
        }
        extend_by(&mut out, trim(args[i].as_str()));
        i += 1;
    }
    assert(all.take(i as int) =~= all);
    out
}

/// The owner and the list that `owner/list` names; without a slash, a list of the default owner.
pub open spec fn owner_and_list(
    user_list: Seq<char>,
    by_id: bool,
    default_owner: Seq<char>,
) -> (Seq<char>, Seq<char>) {
    match split_at_first(user_list, '/') {
        Some((owner, list)) => (user_arg(owner, by_id), list),
        None => (default_owner, user_list),
    }
}

pub fn extract_owner_and_list(user_list: &str, by_id: bool, default_owner: &str) -> (r: (
    String,
    String,
))
    ensures
        r.deep_view() == owner_and_list(user_list@, by_id, default_owner@),
{
    match split_once(user_list, '/') {
        Some((owner, list_name)) => if by_id {
            (owner, list_name)
        } else {
            (strip_at(owner.as_str()), list_name)
        },
        None => (default_owner.to_owned(), user_list.to_owned()),
    }
}

pub open spec fn user_param(by_id: bool, user: Seq<char>) -> (Seq<char>, Seq<char>) {
    if by_id {
        ("user_id"@, user)
    } else {
        ("screen_name"@, bare_name(user))
    }
}

pub fn user_query_param(by_id: bool, user: &str) -> (r: (String, String))
    ensures
        r.deep_view() == user_param(by_id, user@),
{
    if by_id {
        ("user_id".to_owned(), user.to_owned())
    } else {
        ("screen_name".to_owned(), strip_at(user))
    }
}

// ---------------------------------------------------------------------------
// Mentions
// ---------------------------------------------------------------------------

/// The name that a word mentions: what follows an `@` once punctuation round the word is dropped.
pub open spec fn mention_in(word: Seq<char>) -> Option<Seq<char>> {
    let candidate = trim_both(word, CharSet::Punctuation);
    if candidate.len() > 1 && candidate[0] == '@' {
        Some(candidate.drop_first())
    } else {
        None
    }
}

pub open spec fn mentions_in(text: Seq<char>) -> Seq<Seq<char>> {
    collected(words_of(text, CharSet::Whitespace), |w: Seq<char>| mention_in(w))
}

pub fn extract_mentions(text: &str) -> (r: Vec<String>)
    ensures
        r.deep_view() == mentions_in(text@),
{
    let tokens = split_whitespace(text);
    let ghost all = tokens.deep_view();
    let ghost f = |w: Seq<char>| mention_in(w);
    let mut mentions: Vec<String> = Vec::new();
    let mut i: usize = 0;
    assert(mentions.deep_view() =~= collected(all.take(0), f));
    while i < tokens.len()
        invariant
            i <= tokens.len(),
            all == tokens.deep_view(),
            f == (|w: Seq<char>| mention_in(w)),
            mentions.deep_view() == collected(all.take(i as int), f),
        decreases tokens.len() - i,
    {
        proof {
            lemma_collected_step(all, i as int, f);
        }
        let candidate = trim_matches(tokens[i].as_str(), &CharSet::Punctuation);
        let stripped = strip_prefix(candidate.as_str(), "@");
        proof {
            reveal_strlit("@");
            assert("@"@ =~= seq!['@']);
            if candidate@.len() > 0 {
                let head = candidate@.subrange(0, 0int + "@"@.len());
                assert(head =~= seq![candidate@[0]]);
                assert(head[0] == candidate@[0]);
                assert(candidate@.skip(1) =~= candidate@.drop_first());
            }
            assert(begins_with(candidate@, "@"@) == (candidate@.len() > 0 && candidate@[0] == '@'));
        }
        if let Some(name) = stripped {
            if !name.as_str().is_empty() {
                extend_by(&mut mentions, name);
            }
        }
        i += 1;
    }
    assert(all.take(i as int) =~= all);
    mentions
}

// ---------------------------------------------------------------------------
// Tags
// ---------------------------------------------------------------------------

/// The text outside tags; `inside` says whether the text starts within one.
pub open spec fn untagged(s: Seq<char>, inside: bool) -> Seq<char>
    decreases s.len(),
{
    if s.len() == 0 {
        s
    } else if s[0] == '<' {
        untagged(s.drop_first(), true)
    } else if s[0] == '>' {
        untagged(s.drop_first(), false)
    } else if inside {
        untagged(s.drop_first(), true)
    } else {
        seq![s[0]] + untagged(s.drop_first(), false)
    }
}

pub fn strip_tags(input: &str) -> (r: String)
    ensures
        r@ == untagged(input@, false),
{
    let v = chars_of(input);
    let mut inside_tag = false;
    let mut output = String::new();
    let mut i: usize = 0;
    assert(v@.skip(0) =~= v@);
    assert(output@ + untagged(v@, false) =~= untagged(v@, false));
    while i < v.len()
        invariant
            i <= v.len(),
            output@ + untagged(v@.skip(i as int), inside_tag) == untagged(v@, false),
        decreases v.len() - i,
    {
        let ghost before = output@;
        let ghost rest = v@.skip(i as int);
        assert(rest.drop_first() =~= v@.skip(i + 1));
        if v[i] == '<' {
            inside_tag = true;
        } else if v[i] == '>' {
            inside_tag = false;
        } else if !inside_tag {
            output.push(v[i]);
            assert(output@ + untagged(v@.skip(i + 1), false) =~= before + untagged(rest, false));
        }
        i += 1;
    }
    assert(output@ + v@.skip(i as int) =~= output@);
    output
}

/// Text without tags holds no angle bracket, and taking tags out of it leaves it as it is.
pub proof fn law_untagged_is_final(s: Seq<char>, inside: bool)
    ensures
        !untagged(s, inside).contains('<'),
        !untagged(s, inside).contains('>'),
        untagged(untagged(s, inside), false) == untagged(s, inside),
    decreases s.len(),
{
    if s.len() > 0 {
        law_untagged_is_final(s.drop_first(), true);
        law_untagged_is_final(s.drop_first(), false);
        if s[0] != '<' && s[0] != '>' && !inside {
            let r = seq![s[0]] + untagged(s.drop_first(), false);
            assert(r.drop_first() =~= untagged(s.drop_first(), false));
            assert forall|i: int| 0 <= i < r.len() implies r[i] != '<' && r[i] != '>' by {
                if i > 0 {
                    assert(r[i] == untagged(s.drop_first(), false)[i - 1]);
                }
            }
        }
    }
}

// ---------------------------------------------------------------------------
// Counts
// ---------------------------------------------------------------------------

pub open spec fn yes_no(value: Option<bool>) -> Seq<char> {
    if value == Some(true) {
        "Yes"@
    } else {
        "No"@
    }
}

pub fn bool_to_yes_no(value: Option<bool>) -> (r: String)
    ensures
        r@ == yes_no(value),
{
    match value {
        Some(true) => "Yes".to_owned(),
        _ => "No".to_owned(),
    }
}

/// Digits in groups of three, counted from the right.
pub open spec fn grouped(digits: Seq<char>, delimiter: char) -> Seq<char>
    decreases digits.len(),
{
    if digits.len() <= 3 {
        digits
    } else {
        grouped(digits.take(digits.len() - 3), delimiter) + seq![delimiter] + digits.skip(
            digits.len() - 3,
        )
    }
}

pub open spec fn delimited(number: int, delimiter: char) -> Seq<char> {
    if number < 0 {
        seq!['-'] + grouped(decimal((-number) as nat), delimiter)
    } else {
        grouped(decimal(number as nat), delimiter)
    }
}

fn group_digits(digits: &Vec<char>, upto: usize, delimiter: char) -> (r: String)
    requires
        upto <= digits.len(),
    ensures
        r@ == grouped(digits@.take(upto as int), delimiter),
    decreases upto,
{
    let ghost here = digits@.take(upto as int);
    if upto <= 3 {
        let mut out = String::new();
        let mut i: usize = 0;
        while i < upto
            invariant
                i <= upto <= digits.len(),
                out@ == digits@.take(i as int),
            decreases upto - i,
        {
            out.push(digits[i]);
            i += 1;
            assert(out@ =~= digits@.take(i as int));
        }
        out
    } else {
        let mut out = group_digits(digits, upto - 3, delimiter);
        assert(here.take(here.len() - 3) =~= digits@.take(upto - 3));
        let ghost front = out@;
        out.push(delimiter);
        out.push(digits[upto - 3]);
        out.push(digits[upto - 2]);
        out.push(digits[upto - 1]);
        assert(out@ =~= front + seq![delimiter] + here.skip(here.len() - 3));
        out
    }
}

/// A count in groups of three digits.
pub fn count_with_delimiter(number: u64, delimiter: char) -> (r: String)
    ensures
        r@ == delimited(number as int, delimiter),
{
    let digits = chars_of(decimal_u64(number).as_str());
    let n: usize = digits.len();
    assert(digits@.take(n as int) =~= digits@);
    group_digits(&digits, n, delimiter)
}

pub fn number_with_delimiter(number: i64, delimiter: char) -> (r: String)
    ensures
        r@ == delimited(number as int, delimiter),
{
    if number < 0 {
        let m: u64 = (-(number as i128)) as u64;
        let mut out = String::new();
        out.push('-');
        out.append(count_with_delimiter(m, delimiter).as_str());
        assert(out@ =~= delimited(number as int, delimiter));
        out
    } else {
        count_with_delimiter(number as u64, delimiter)
    }
}

pub open spec fn without(s: Seq<char>, c: char) -> Seq<char>
    decreases s.len(),
{
    if s.len() == 0 {
        s
    } else if s.last() == c {
        without(s.drop_last(), c)
    } else {
        without(s.drop_last(), c).push(s.last())
    }
}

proof fn lemma_without_concat(a: Seq<char>, b: Seq<char>, c: char)
    ensures
        without(a + b, c) == without(a, c) + without(b, c),
    decreases b.len(),
{
    if b.len() == 0 {
        assert(a + b =~= a);
        assert(without(a, c) + without(b, c) =~= without(a, c));
    } else {
        assert((a + b).drop_last() =~= a + b.drop_last());
        lemma_without_concat(a, b.drop_last(), c);
        assert(without(a + b, c) =~= without(a, c) + without(b, c));
    }
}

proof fn lemma_without_absent(s: Seq<char>, c: char)
    requires
        !s.contains(c),
    ensures
        without(s, c) == s,
    decreases s.len(),
{
    if s.len() > 0 {
        assert(s[s.len() - 1] != c);
        assert forall|x: int| 0 <= x < s.drop_last().len() implies s.drop_last()[x] != c by {
            assert(s[x] != c);
        }
        lemma_without_absent(s.drop_last(), c);
        assert(s =~= s.drop_last().push(s.last()));
    }
}

/// Taking the delimiters out of a grouped number gives its digits back.
pub proof fn law_grouping_keeps_the_digits(digits: Seq<char>, delimiter: char)
    requires
        !digits.contains(delimiter),
    ensures
        without(grouped(digits, delimiter), delimiter) == digits,
    decreases digits.len(),
{
    if digits.len() <= 3 {
        lemma_without_absent(digits, delimiter);
    } else {
        let front = digits.take(digits.len() - 3);
        let back = digits.skip(digits.len() - 3);
        assert forall|x: int| 0 <= x < front.len() implies front[x] != delimiter by {
            assert(digits[x] != delimiter);
        }
        assert forall|x: int| 0 <= x < back.len() implies back[x] != delimiter by {
            assert(digits[x + digits.len() - 3] != delimiter);
        }
        law_grouping_keeps_the_digits(front, delimiter);
        lemma_without_absent(back, delimiter);
        lemma_without_concat(grouped(front, delimiter) + seq![delimiter], back, delimiter);
        lemma_without_concat(grouped(front, delimiter), seq![delimiter], delimiter);
        assert(seq![delimiter].drop_last() =~= Seq::<char>::empty());
        assert(without(seq![delimiter], delimiter) =~= Seq::<char>::empty()) by {
            reveal_with_fuel(without, 2);
        }
        assert(digits =~= front + back);
        assert(front + Seq::<char>::empty() =~= front);
    }
}

pub open spec fn counted(count: nat, singular: Seq<char>, plural: Option<Seq<char>>) -> Seq<char> {
    if count == 1 {
        decimal(count) + " "@ + singular
    } else {
        decimal(count) + " "@ + (match plural {
            Some(p) => p,
            None => singular + "s"@,
        })
    }
}

pub fn pluralize(count: usize, singular: &str, plural: Option<&str>) -> (r: String)
    ensures
        r@ == counted(count as nat, singular@, plural.deep_view()),
{
    let mut out = decimal_usize(count);
    out.append(" ");
    if count == 1 {
        out.append(singular);
    } else {
        match plural {
            Some(p) => {
                out.append(p);
            },
            None => {
                let many = singular.to_owned().concat("s");
                out.append(many.as_str());
            },
        }
    }
    out
}

// ---------------------------------------------------------------------------
// Comma-separated rows
// ---------------------------------------------------------------------------

/// A field of a row: quoted, with its quotes doubled, where it holds a comma, a quote or a line
/// feed.
pub open spec fn csv_field(s: Seq<char>) -> Seq<char> {
    if s.contains(',') || s.contains('"') || s.contains('\n') {
        "\""@ + replaced(s, "\""@, "\"\""@) + "\""@
    } else {
        s
    }
}

pub open spec fn csv_line(fields: Seq<Seq<char>>) -> Seq<char> {
    joined(fields.map_values(|f: Seq<char>| csv_field(f)), ","@)
}

fn holds_special(s: &str) -> (r: bool)
    ensures
        r == (s@.contains(',') || s@.contains('"') || s@.contains('\n')),
{
    let v = chars_of(s);
    let mut i: usize = 0;
    while i < v.len()
        invariant
            i <= v.len(),
            v@ == s@,
            forall|k: int| 0 <= k < i ==> s@[k] != ',' && s@[k] != '"' && s@[k] != '\n',
        decreases v.len() - i,
    {
        if v[i] == ',' || v[i] == '"' || v[i] == '\n' {
            assert(s@.contains(s@[i as int]));
            return true;
        }
        i += 1;
    }
    false
}

pub fn csv_row(values: &Vec<String>) -> (r: String)
    ensures
        r@ == csv_line(values.deep_view()),
{
    let ghost f = |s: Seq<char>| csv_field(s);
    let ghost all = values.deep_view();
    let mut fields: Vec<String> = Vec::new();
    let mut i: usize = 0;
    assert(fields.deep_view() =~= all.take(0).map_values(f));
    while i < values.len()
        invariant
            i <= values.len(),
            all == values.deep_view(),
            f == (|s: Seq<char>| csv_field(s)),
            fields.deep_view() == all.take(i as int).map_values(f),
        decreases values.len() - i,
    {
        proof {
            lemma_mapped_step(all, i as int, f);
        }
        let value = values[i].as_str();
        if holds_special(value) {
            let body = replace(value, "\"", "\"\"");
            let field = "\"".to_owned().concat(body.as_str()).concat("\"");
            extend_by(&mut fields, field);
        } else {
            extend_by(&mut fields, value.to_owned());
        }
        i += 1;
    }
    assert(all.take(i as int) =~= all);
    join(&fields, ",")
}

// ---------------------------------------------------------------------------
// Reading CSV back
// ---------------------------------------------------------------------------

/// A text with doubled quotation marks made single.
pub open spec fn undoubled(s: Seq<char>) -> Seq<char>
    decreases s.len(),
{
    if s.len() == 0 {
        s
    } else if s.len() >= 2 && s[0] == '"' && s[1] == '"' {
        seq!['"'] + undoubled(s.skip(2))
    } else {
        seq![s[0]] + undoubled(s.drop_first())
    }
}

/// What a field of a CSV line stands for.
pub open spec fn csv_value(field: Seq<char>) -> Seq<char> {
    if field.len() >= 2 && field[0] == '"' {
        undoubled(field.subrange(1, field.len() - 1))
    } else {
        field
    }
}

proof fn lemma_undoubled(s: Seq<char>)
    ensures
        undoubled(replaced(s, "\""@, "\"\""@)) == s,
        s.len() > 0 ==> replaced(s, "\""@, "\"\""@).len() > 0,
        s.len() > 0 && s[0] != '"' ==> replaced(s, "\""@, "\"\""@)[0] == s[0],
    decreases s.len(),
{
    reveal_strlit("\"");
    reveal_strlit("\"\"");
    let mark = "\""@;
    assert(mark =~= seq!['"']);
    assert("\"\""@ =~= seq!['"', '"']);
    if s.len() > 0 {
        let rest = s.drop_first();
        lemma_undoubled(rest);
        let doubled = replaced(rest, "\""@, "\"\""@);
        if s[0] == '"' {
            assert(s.subrange(0, 1) =~= mark);
            assert(crate::text::begins_with(s, mark));
            assert(s.skip(1) =~= rest);
            let all = "\"\""@ + doubled;
            assert(replaced(s, "\""@, "\"\""@) == all);
            assert(all.skip(2) =~= doubled);
            assert(seq!['"'] + rest =~= s);
        } else {
            assert(!crate::text::begins_with(s, mark)) by {
                if crate::text::begins_with(s, mark) {
                    assert(s.subrange(0, 1)[0] == mark[0]);
                }
            }
            let all = seq![s[0]] + doubled;
            assert(replaced(s, "\""@, "\"\""@) == all);
            assert(all.drop_first() =~= doubled);
            assert(seq![s[0]] + rest =~= s);
        }
    }
}

/// A field of a CSV line reads back as the text that was written. A text that was written without
/// quotation marks holds nothing that ends a field.
pub proof fn law_csv_field_reads_back(s: Seq<char>)
    ensures
        csv_value(csv_field(s)) == s,
        csv_field(s) == s ==> !s.contains(',') && !s.contains('"') && !s.contains('\n'),
{
    reveal_strlit("\"");
    assert("\""@ =~= seq!['"']);
    lemma_undoubled(s);
    let doubled = replaced(s, "\""@, "\"\""@);
    if s.contains(',') || s.contains('"') || s.contains('\n') {
        let field = csv_field(s);
        assert(field =~= seq!['"'] + doubled + seq!['"']);
        assert(field.subrange(1, field.len() - 1) =~= doubled);
        if field == s {
            lemma_doubled_is_no_shorter(s);
            assert(field.len() == doubled.len() + 2);
        }
    } else {
        if s.len() > 0 && s[0] == '"' {
            assert(s.contains('"'));
        }
    }
}

proof fn lemma_doubled_is_no_shorter(s: Seq<char>)
    ensures
        replaced(s, "\""@, "\"\""@).len() >= s.len(),
    decreases s.len(),
{
    reveal_strlit("\"");
    reveal_strlit("\"\"");
    if s.len() > 0 {
        assert("\""@.len() == 1);
        assert(s.skip(1) =~= s.drop_first());
        lemma_doubled_is_no_shorter(s.drop_first());
    }
}

/// The fields of a CSV line, which commas outside quotation marks part; `open` is the text of the
/// first so far, and `quoted` says whether it is within quotation marks.
pub open spec fn csv_fields_from(s: Seq<char>, quoted: bool, open: Seq<char>) -> Seq<Seq<char>>
    decreases s.len(),
{
    if s.len() == 0 {
        seq![open]
    } else if s[0] == ',' && !quoted {
        seq![open] + csv_fields_from(s.drop_first(), false, Seq::empty())
    } else {
        csv_fields_from(s.drop_first(), quoted != (s[0] == '"'), open.push(s[0]))
    }
}

/// What the fields of a CSV line stand for.
pub open spec fn csv_values(line: Seq<char>) -> Seq<Seq<char>> {
    csv_fields_from(line, false, Seq::empty()).map_values(|f: Seq<char>| csv_value(f))
}

proof fn lemma_plain_field(s: Seq<char>, rest: Seq<char>, open: Seq<char>)
    requires
        !s.contains(','),
        !s.contains('"'),
    ensures
        csv_fields_from(s + rest, false, open) == csv_fields_from(rest, false, open + s),
    decreases s.len(),
{
    if s.len() == 0 {
        assert(s + rest =~= rest);
        assert(open + s =~= open);
    } else {
        let tail = s.drop_first();
        assert(s.contains(s[0]));
        assert forall|c: char| tail.contains(c) implies s.contains(c) by {
            let k = choose|k: int| 0 <= k < tail.len() && tail[k] == c;
            assert(s[k + 1] == c);
        }
        lemma_plain_field(tail, rest, open.push(s[0]));
        assert((s + rest).drop_first() =~= tail + rest);
        assert(open.push(s[0]) + tail =~= open + s);
    }
}

proof fn lemma_quoted_text(s: Seq<char>, rest: Seq<char>, open: Seq<char>)
    ensures
        csv_fields_from(replaced(s, "\""@, "\"\""@) + rest, true, open) == csv_fields_from(
            rest,
            true,
            open + replaced(s, "\""@, "\"\""@),
        ),
    decreases s.len(),
{
    reveal_strlit("\"");
    reveal_strlit("\"\"");
    let mark = "\""@;
    assert(mark =~= seq!['"']);
    assert("\"\""@ =~= seq!['"', '"']);
    let doubled = replaced(s, "\""@, "\"\""@);
    if s.len() == 0 {
        assert(doubled =~= Seq::empty());
        assert(doubled + rest =~= rest);
        assert(open + doubled =~= open);
    } else {
        let tail = s.drop_first();
        let back = replaced(tail, "\""@, "\"\""@);
        if s[0] == '"' {
            assert(s.subrange(0, 1) =~= mark);
            assert(crate::text::begins_with(s, mark));
            assert(s.skip(1) =~= tail);
            assert(doubled == "\"\""@ + back);
            lemma_quoted_text(tail, rest, open.push('"').push('"'));
            let all = doubled + rest;
            assert(all[0] == '"');
            assert(all.drop_first()[0] == '"');
            assert(all.drop_first().drop_first() =~= back + rest);
            assert(csv_fields_from(all.drop_first(), false, open.push('"')) == csv_fields_from(
                back + rest,
                true,
                open.push('"').push('"'),
            ));
            assert(open.push('"').push('"') + back =~= open + doubled);
        } else {
            assert(!crate::text::begins_with(s, mark)) by {
                if crate::text::begins_with(s, mark) {
                    assert(s.subrange(0, 1)[0] == mark[0]);
                }
            }
            assert(doubled == seq![s[0]] + back);
            lemma_quoted_text(tail, rest, open.push(s[0]));
            assert((doubled + rest).drop_first() =~= back + rest);
            assert(open.push(s[0]) + back =~= open + doubled);
        }
    }
}

proof fn lemma_one_field(s: Seq<char>, rest: Seq<char>)
    ensures
        csv_fields_from(csv_field(s) + rest, false, Seq::empty()) == csv_fields_from(
            rest,
            false,
            csv_field(s),
        ),
{
    let field = csv_field(s);
    if s.contains(',') || s.contains('"') || s.contains('\n') {
        reveal_strlit("\"");
        assert("\""@ =~= seq!['"']);
        let doubled = replaced(s, "\""@, "\"\""@);
        let end = seq!['"'] + rest;
        lemma_quoted_text(s, end, seq!['"']);
        assert(field =~= seq!['"'] + doubled + seq!['"']);
        assert((field + rest)[0] == '"');
        assert((field + rest).drop_first() =~= doubled + end);
        assert(Seq::<char>::empty().push('"') =~= seq!['"']);
        assert(end.drop_first() =~= rest);
        assert((seq!['"'] + doubled).push('"') =~= field);
    } else {
        lemma_plain_field(s, rest, Seq::empty());
        assert(Seq::<char>::empty() + s =~= s);
    }
}

proof fn lemma_fields(row: Seq<Seq<char>>, rest: Seq<char>)
    requires
        row.len() > 0,
    ensures
        csv_fields_from(csv_line(row) + rest, false, Seq::empty()) == row.drop_last().map_values(
            |s: Seq<char>| csv_field(s),
        ) + csv_fields_from(rest, false, csv_field(row.last())),
    decreases row.len(),
{
    let f = |s: Seq<char>| csv_field(s);
    let fields = row.map_values(f);
    let front = row.drop_last();
    let last = csv_field(row.last());
    lemma_one_field(row.last(), rest);
    assert(fields.drop_last() =~= front.map_values(f));
    if row.len() == 1 {
        assert(front.map_values(f) =~= Seq::empty());
        assert(csv_line(row) == last);
        assert(Seq::<Seq<char>>::empty() + csv_fields_from(rest, false, last) =~= csv_fields_from(
            rest,
            false,
            last,
        ));
    } else {
        reveal_strlit(",");
        assert(","@ =~= seq![',']);
        let behind = seq![','] + (last + rest);
        assert(csv_line(row) + rest =~= csv_line(front) + behind);
        lemma_fields(front, behind);
        assert(behind[0] == ',');
        assert(behind.drop_first() =~= last + rest);
        let before = front.drop_last().map_values(f);
        assert(before + (seq![csv_field(front.last())] + csv_fields_from(rest, false, last))
            =~= front.map_values(f) + csv_fields_from(rest, false, last));
    }
}

/// A CSV line reads back as the texts that were written, whatever they hold.
pub proof fn law_csv_row_reads_back(row: Seq<Seq<char>>)
    requires
        row.len() > 0,
    ensures
        csv_values(csv_line(row)) == row,
{
    let f = |s: Seq<char>| csv_field(s);
    lemma_fields(row, Seq::empty());
    assert(csv_line(row) + Seq::<char>::empty() =~= csv_line(row));
    let fields = csv_fields_from(csv_line(row), false, Seq::empty());
    assert(fields =~= row.map_values(f));
    assert forall|i: int| 0 <= i < row.len() implies csv_value(#[trigger] fields[i]) == row[i] by {
        assert(fields[i] == csv_field(row[i]));
        law_csv_field_reads_back(row[i]);
    }
    assert(csv_values(csv_line(row)) =~= row);
}

} // verus!

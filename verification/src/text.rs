//! Text as sequences of characters: trimming, splitting, searching, replacing and numbers.

use vstd::prelude::*;

verus! {

/// `String::push` puts one character at the end of the string.
pub assume_specification[ String::push ](s: &mut String, c: char)
    ensures
        final(s)@ == old(s)@.push(c),
;

/// The characters of a string, in order.
pub fn chars_of(s: &str) -> (r: Vec<char>)
    ensures
        r@ == s@,
{
    let mut r: Vec<char> = Vec::new();
    for c in it: s.chars()
        invariant
            r@ == it.seq().take(it.index()),
            it.seq() == s@,
    {
        r.push(c);
        assert(r@ =~= it.seq().take(it.index() + 1));
    }
    assert(r@ =~= s@);
    r
}

/// The string made of the given characters.
pub fn string_of(chars: &Vec<char>) -> (r: String)
    ensures
        r@ == chars@,
{
    let mut r = String::new();
    let mut i: usize = 0;
    while i < chars.len()
        invariant
            i <= chars.len(),
            r@ == chars@.take(i as int),
        decreases chars.len() - i,
    {
        r.push(chars[i]);
        assert(r@ =~= chars@.take(i + 1));
        i += 1;
    }
    assert(r@ =~= chars@);
    r
}

/// Whether two strings hold the same characters.
pub fn same(a: &str, b: &str) -> (r: bool)
    ensures
        r == (a@ == b@),
{
    let x = chars_of(a);
    let y = chars_of(b);
    if x.len() != y.len() {
        return false;
    }
    let mut i: usize = 0;
    while i < x.len()
        invariant
            i <= x.len(),
            x.len() == y.len(),
            x@ == a@,
            y@ == b@,
            forall|k: int| 0 <= k < i ==> x@[k] == y@[k],
        decreases x.len() - i,
    {
        if x[i] != y[i] {
            assert(a@[i as int] != b@[i as int]);
            return false;
        }
        i += 1;
    }
    assert(a@ =~= b@);
    true
}

pub fn cat2(a: &str, b: &str) -> (r: String)
    ensures
        r@ == a@ + b@,
{
    a.to_owned().concat(b)
}

pub fn cat3(a: &str, b: &str, c: &str) -> (r: String)
    ensures
        r@ == a@ + b@ + c@,
{
    a.to_owned().concat(b).concat(c)
}

// ---------------------------------------------------------------------------
// Classes of characters
// ---------------------------------------------------------------------------

/// A class of characters that text is trimmed or split by.
pub enum CharSet {
    /// Characters with the Unicode `White_Space` property.
    Whitespace,
    /// One character alone.
    Only(char),
    /// Carriage return and line feed.
    LineBreaks,
    /// White space and commas.
    Separators,
    /// Everything but ASCII letters, ASCII digits, `_` and `@`.
    Punctuation,
}

/// The Unicode `White_Space` property.
pub open spec fn is_white_space(c: char) -> bool {
    ||| 0x9 <= c as u32 <= 0xd
    ||| c as u32 == 0x20
    ||| c as u32 == 0x85
    ||| c as u32 == 0xa0
    ||| c as u32 == 0x1680
    ||| 0x2000 <= c as u32 <= 0x200a
    ||| c as u32 == 0x2028
    ||| c as u32 == 0x2029
    ||| c as u32 == 0x202f
    ||| c as u32 == 0x205f
    ||| c as u32 == 0x3000
}

pub open spec fn is_digit(c: char) -> bool {
    '0' <= c <= '9'
}

pub open spec fn is_upper(c: char) -> bool {
    'A' <= c <= 'Z'
}

pub open spec fn is_lower(c: char) -> bool {
    'a' <= c <= 'z'
}

pub open spec fn is_alphanumeric(c: char) -> bool {
    is_digit(c) || is_upper(c) || is_lower(c)
}

pub fn white_space(c: char) -> (r: bool)
    ensures
        r == is_white_space(c),
{
    let n: u32 = c as u32;
    (0x9 <= n && n <= 0xd) || n == 0x20 || n == 0x85 || n == 0xa0 || n == 0x1680 || (0x2000 <= n && n
        <= 0x200a) || n == 0x2028 || n == 0x2029 || n == 0x202f || n == 0x205f || n == 0x3000
}

pub fn alphanumeric(c: char) -> (r: bool)
    ensures
        r == is_alphanumeric(c),
{
    ('0' <= c && c <= '9') || ('A' <= c && c <= 'Z') || ('a' <= c && c <= 'z')
}

impl CharSet {
    /// Whether the class holds the character.
    pub open spec fn holds(self, c: char) -> bool {
        match self {
            CharSet::Whitespace => is_white_space(c),
            CharSet::Only(d) => c == d,
            CharSet::LineBreaks => c == '\r' || c == '\n',
            CharSet::Separators => is_white_space(c) || c == ',',
            CharSet::Punctuation => !is_alphanumeric(c) && c != '_' && c != '@',
        }
    }

    pub fn has(&self, c: char) -> (r: bool)
        ensures
            r == self.holds(c),
    {
        match self {
            CharSet::Whitespace => white_space(c),
            CharSet::Only(d) => c == *d,
            CharSet::LineBreaks => c == '\r' || c == '\n',
            CharSet::Separators => white_space(c) || c == ',',
            CharSet::Punctuation => !alphanumeric(c) && c != '_' && c != '@',
        }
    }
}

// ---------------------------------------------------------------------------
// Trimming
// ---------------------------------------------------------------------------

/// The text without the characters of the class at its start.
pub open spec fn trim_front(s: Seq<char>, set: CharSet) -> Seq<char>
    decreases s.len(),
{
    if s.len() > 0 && set.holds(s[0]) {
        trim_front(s.drop_first(), set)
    } else {
        s
    }
}

/// The text without the characters of the class at its end.
pub open spec fn trim_back(s: Seq<char>, set: CharSet) -> Seq<char>
    decreases s.len(),
{
    if s.len() > 0 && set.holds(s.last()) {
        trim_back(s.drop_last(), set)
    } else {
        s
    }
}

/// The text without the characters of the class at either end.
pub open spec fn trim_both(s: Seq<char>, set: CharSet) -> Seq<char> {
    trim_back(trim_front(s, set), set)
}

/// The text without white space at either end.
pub open spec fn trimmed(s: Seq<char>) -> Seq<char> {
    trim_both(s, CharSet::Whitespace)
}

pub fn trim_start(s: &str, set: &CharSet) -> (r: String)
    ensures
        r@ == trim_front(s@, *set),
{
    let v = chars_of(s);
    let mut i: usize = 0;
    assert(v@.skip(0) =~= v@);
    while i < v.len() && set.has(v[i])
        invariant
            i <= v.len(),
            v@ == s@,
            trim_front(v@.skip(i as int), *set) == trim_front(v@, *set),
        decreases v.len() - i,
    {
        assert(v@.skip(i as int).drop_first() =~= v@.skip(i + 1));
        i += 1;
    }
    let n: usize = v.len();
    assert(s@.subrange(i as int, n as int) =~= v@.skip(i as int));
    s.substring_char(i, n).to_owned()
}

pub fn trim_end(s: &str, set: &CharSet) -> (r: String)
    ensures
        r@ == trim_back(s@, *set),
{
    let v = chars_of(s);
    let mut n: usize = v.len();
    assert(v@.take(n as int) =~= v@);
    while n > 0 && set.has(v[n - 1])
        invariant
            n <= v.len(),
            v@ == s@,
            trim_back(v@.take(n as int), *set) == trim_back(v@, *set),
        decreases n,
    {
        assert(v@.take(n as int).last() == v@[n - 1]);
        assert(v@.take(n as int).drop_last() =~= v@.take(n - 1));
        n -= 1;
    }
    if n > 0 {
        assert(v@.take(n as int).last() == v@[n - 1]);
    }
    assert(s@.subrange(0, n as int) =~= v@.take(n as int));
    s.substring_char(0, n).to_owned()
}

pub fn trim_matches(s: &str, set: &CharSet) -> (r: String)
    ensures
        r@ == trim_both(s@, *set),
{
    let front = trim_start(s, set);
    trim_end(front.as_str(), set)
}

pub fn trim(s: &str) -> (r: String)
    ensures
        r@ == trimmed(s@),
{
    trim_matches(s, &CharSet::Whitespace)
}

// ---------------------------------------------------------------------------
// Splitting and joining
// ---------------------------------------------------------------------------

/// The pieces of the text between characters of the class, empty ones among them.
pub open spec fn split_on(s: Seq<char>, set: CharSet) -> Seq<Seq<char>>
    decreases s.len(),
{
    if s.len() == 0 {
        seq![Seq::empty()]
    } else {
        let front = split_on(s.drop_last(), set);
        if set.holds(s.last()) {
            front.push(Seq::empty())
        } else {
            front.drop_last().push(front.last().push(s.last()))
        }
    }
}

/// The pieces that are not empty, in order.
pub open spec fn nonempty(pieces: Seq<Seq<char>>) -> Seq<Seq<char>>
    decreases pieces.len(),
{
    if pieces.len() == 0 {
        Seq::empty()
    } else if pieces.last().len() > 0 {
        nonempty(pieces.drop_last()).push(pieces.last())
    } else {
        nonempty(pieces.drop_last())
    }
}

/// The maximal runs of characters outside the class.
pub open spec fn words_of(s: Seq<char>, set: CharSet) -> Seq<Seq<char>> {
    nonempty(split_on(s, set))
}

pub fn split(s: &str, set: &CharSet) -> (r: Vec<String>)
    ensures
        r.deep_view() == split_on(s@, *set),
{
    let v = chars_of(s);
    let mut pieces: Vec<String> = Vec::new();
    let mut current = String::new();
    let mut i: usize = 0;
    assert(split_on(v@.take(0), *set) =~= pieces.deep_view().push(current@));
    while i < v.len()
        invariant
            i <= v.len(),
            v@ == s@,
            split_on(v@.take(i as int), *set) == pieces.deep_view().push(current@),
        decreases v.len() - i,
    {
        let ghost front = pieces.deep_view();
        let ghost now = current@;
        assert(v@.take(i + 1).drop_last() =~= v@.take(i as int));
        assert(v@.take(i + 1).last() == v@[i as int]);
        if set.has(v[i]) {
            pieces.push(current);
            current = String::new();
            assert(pieces.deep_view() =~= front.push(now));
        } else {
            current.push(v[i]);
            assert(front.push(now).drop_last() =~= front);
        }
        i += 1;
    }
    assert(v@.take(v.len() as int) =~= v@);
    let ghost front = pieces.deep_view();
    let ghost now = current@;
    pieces.push(current);
    assert(pieces.deep_view() =~= front.push(now));
    pieces
}

pub fn words(s: &str, set: &CharSet) -> (r: Vec<String>)
    ensures
        r.deep_view() == words_of(s@, *set),
{
    let pieces = split(s, set);
    let mut out: Vec<String> = Vec::new();
    let mut i: usize = 0;
    assert(out.deep_view() =~= nonempty(pieces.deep_view().take(0)));
    while i < pieces.len()
        invariant
            i <= pieces.len(),
            pieces.deep_view() == split_on(s@, *set),
            out.deep_view() == nonempty(pieces.deep_view().take(i as int)),
        decreases pieces.len() - i,
    {
        let ghost before = out.deep_view();
        let ghost all = pieces.deep_view();
        assert(all.take(i + 1).drop_last() =~= all.take(i as int));
        assert(all.take(i + 1).last() == pieces@[i as int]@);
        if !pieces[i].as_str().is_empty() {
            out.push(pieces[i].clone());
            assert(out.deep_view() =~= before.push(pieces@[i as int]@));
        }
        i += 1;
    }
    assert(pieces.deep_view().take(pieces.len() as int) =~= pieces.deep_view());
    out
}

pub fn split_whitespace(s: &str) -> (r: Vec<String>)
    ensures
        r.deep_view() == words_of(s@, CharSet::Whitespace),
{
    words(s, &CharSet::Whitespace)
}

/// The parts one after another, with `sep` between neighbours.
pub open spec fn joined(parts: Seq<Seq<char>>, sep: Seq<char>) -> Seq<char>
    decreases parts.len(),
{
    if parts.len() == 0 {
        Seq::empty()
    } else if parts.len() == 1 {
        parts[0]
    } else {
        joined(parts.drop_last(), sep) + sep + parts.last()
    }
}

pub fn join(parts: &Vec<String>, sep: &str) -> (r: String)
    ensures
        r@ == joined(parts.deep_view(), sep@),
{
    let mut r = String::new();
    let mut i: usize = 0;
    let ghost all = parts.deep_view();
    assert(r@ =~= joined(all.take(0), sep@));
    while i < parts.len()
        invariant
            i <= parts.len(),
            all == parts.deep_view(),
            r@ == joined(all.take(i as int), sep@),
        decreases parts.len() - i,
    {
        assert(all.take(i + 1).drop_last() =~= all.take(i as int));
        assert(all.take(i + 1).last() == parts@[i as int]@);
        if i > 0 {
            r.append(sep);
        } else {
            assert(r@ + parts@[0]@ =~= parts@[0]@);
        }
        r.append(parts[i].as_str());
        i += 1;
    }
    assert(all.take(parts.len() as int) =~= all);
    r
}

/// The first place where the class holds a character, or the length of the text.
pub open spec fn first_in(s: Seq<char>, set: CharSet) -> nat
    decreases s.len(),
{
    if s.len() == 0 || set.holds(s[0]) {
        0
    } else {
        1 + first_in(s.drop_first(), set)
    }
}

/// What stands before and after the first `c`, where there is one.
pub open spec fn split_at_first(s: Seq<char>, c: char) -> Option<(Seq<char>, Seq<char>)> {
    let i = first_in(s, CharSet::Only(c));
    if i < s.len() {
        Some((s.take(i as int), s.skip(i as int + 1)))
    } else {
        None
    }
}

pub fn split_once(s: &str, c: char) -> (r: Option<(String, String)>)
    ensures
        r.deep_view() == split_at_first(s@, c),
{
    let v = chars_of(s);
    let mut i: usize = 0;
    let set = CharSet::Only(c);
    assert(v@.skip(0) =~= v@);
    while i < v.len() && v[i] != c
        invariant
            i <= v.len(),
            v@ == s@,
            set == CharSet::Only(c),
            first_in(v@, set) == i + first_in(v@.skip(i as int), set),
        decreases v.len() - i,
    {
        assert(v@.skip(i as int).drop_first() =~= v@.skip(i + 1));
        i += 1;
    }
    let n: usize = v.len();
    if i < n {
        let left = s.substring_char(0, i).to_owned();
        let right = s.substring_char(i + 1, n).to_owned();
        assert(left@ =~= s@.take(i as int));
        assert(right@ =~= s@.skip(i + 1));
        Some((left, right))
    } else {
        None
    }
}

// ---------------------------------------------------------------------------
// Searching and replacing
// ---------------------------------------------------------------------------

/// Whether `part` stands in `s` from place `i` on.
pub open spec fn stands_at(s: Seq<char>, part: Seq<char>, i: int) -> bool {
    0 <= i && i + part.len() <= s.len() && s.subrange(i, i + part.len()) == part
}

pub open spec fn contains_text(s: Seq<char>, part: Seq<char>) -> bool {
    exists|i: int| stands_at(s, part, i)
}

pub open spec fn begins_with(s: Seq<char>, part: Seq<char>) -> bool {
    stands_at(s, part, 0)
}

fn matches_at(v: &Vec<char>, part: &Vec<char>, i: usize) -> (r: bool)
    requires
        i <= v.len(),
    ensures
        r == stands_at(v@, part@, i as int),
{
    if part.len() > v.len() - i {
        return false;
    }
    let mut k: usize = 0;
    while k < part.len()
        invariant
            k <= part.len(),
            i + part.len() <= v.len(),
            forall|j: int| 0 <= j < k ==> v@[i + j] == part@[j],
        decreases part.len() - k,
    {
        if v[i + k] != part[k] {
            assert(v@.subrange(i as int, i + part.len())[k as int] != part@[k as int]);
            return false;
        }
        k += 1;
    }
    assert(v@.subrange(i as int, i + part.len()) =~= part@);
    true
}

pub fn contains(s: &str, part: &str) -> (r: bool)
    ensures
        r == contains_text(s@, part@),
{
    let v = chars_of(s);
    let p = chars_of(part);
    let mut i: usize = 0;
    while i < v.len()
        invariant
            i <= v.len(),
            v@ == s@,
            p@ == part@,
            forall|k: int| 0 <= k < i ==> !stands_at(s@, part@, k),
        decreases v.len() - i,
    {
        if matches_at(&v, &p, i) {
            return true;
        }
        i += 1;
    }
    matches_at(&v, &p, i)
}

pub fn starts_with(s: &str, part: &str) -> (r: bool)
    ensures
        r == begins_with(s@, part@),
{
    let v = chars_of(s);
    let p = chars_of(part);
    matches_at(&v, &p, 0)
}

pub fn strip_prefix(s: &str, part: &str) -> (r: Option<String>)
    ensures
        r.deep_view() == (if begins_with(s@, part@) {
            Some(s@.skip(part@.len() as int))
        } else {
            None
        }),
{
    let v = chars_of(s);
    let p = chars_of(part);
    if matches_at(&v, &p, 0) {
        let n: usize = v.len();
        let m: usize = p.len();
        let rest = s.substring_char(m, n).to_owned();
        assert(rest@ =~= s@.skip(part@.len() as int));
        Some(rest)
    } else {
        None
    }
}

/// The text with every occurrence of `from` replaced by `to`, taken from the left without overlap;
/// an empty `from` occurs before every character and at the end.
pub open spec fn replaced(s: Seq<char>, from: Seq<char>, to: Seq<char>) -> Seq<char>
    decreases s.len(),
{
    if from.len() == 0 {
        if s.len() == 0 {
            to
        } else {
            to + seq![s[0]] + replaced(s.drop_first(), from, to)
        }
    } else if s.len() == 0 {
        s
    } else if begins_with(s, from) {
        to + replaced(s.skip(from.len() as int), from, to)
    } else {
        seq![s[0]] + replaced(s.drop_first(), from, to)
    }
}

pub fn replace(s: &str, from: &str, to: &str) -> (r: String)
    ensures
        r@ == replaced(s@, from@, to@),
{
    let v = chars_of(s);
    let f = chars_of(from);
    let mut out = String::new();
    let mut i: usize = 0;
    assert(v@.skip(0) =~= v@);
    assert(out@ + replaced(v@, from@, to@) =~= replaced(v@, from@, to@));
    while i < v.len()
        invariant
            i <= v.len(),
            v@ == s@,
            f@ == from@,
            out@ + replaced(v@.skip(i as int), from@, to@) == replaced(v@, from@, to@),
        decreases v.len() - i,
    {
        let ghost before = out@;
        let ghost rest = v@.skip(i as int);
        assert(rest.drop_first() =~= v@.skip(i + 1));
        if f.len() == 0 {
            out.append(to);
            out.push(v[i]);
            assert(out@ + replaced(v@.skip(i + 1), from@, to@) =~= before + replaced(rest, from@, to@));
            i += 1;
        } else {
            assert(stands_at(v@, from@, i as int) == begins_with(rest, from@)) by {
                if i + from@.len() <= v@.len() {
                    assert(v@.subrange(i as int, i + from@.len()) =~= rest.subrange(
                        0,
                        from@.len() as int,
                    ));
                }
            }
            if matches_at(&v, &f, i) {
                out.append(to);
                assert(rest.skip(from@.len() as int) =~= v@.skip(i + from@.len()));
                assert(out@ + replaced(v@.skip(i + from@.len()), from@, to@) =~= before + replaced(
                    rest,
                    from@,
                    to@,
                ));
                i += f.len();
            } else {
                out.push(v[i]);
                assert(out@ + replaced(v@.skip(i + 1), from@, to@) =~= before + replaced(
                    rest,
                    from@,
                    to@,
                ));
                i += 1;
            }
        }
    }
    assert(v@.skip(i as int).len() == 0);
    if f.len() == 0 {
        out.append(to);
    } else {
        assert(out@ + v@.skip(i as int) =~= out@);
    }
    out
}

// ---------------------------------------------------------------------------
// Letter case
// ---------------------------------------------------------------------------

pub open spec fn lower_char(c: char) -> char {
    if is_upper(c) {
        ((c as u32 + 32) as u32) as char
    } else {
        c
    }
}

/// The text with ASCII capitals turned into small letters.
pub open spec fn lowered(s: Seq<char>) -> Seq<char> {
    Seq::new(s.len(), |i: int| lower_char(s[i]))
}

pub fn to_lower_char(c: char) -> (r: char)
    ensures
        r == lower_char(c),
{
    if 'A' <= c && c <= 'Z' {
        let n: u8 = c as u8 + 32;
        n as char
    } else {
        c
    }
}

pub fn to_ascii_lowercase(s: &str) -> (r: String)
    ensures
        r@ == lowered(s@),
{
    let v = chars_of(s);
    let mut out = String::new();
    let mut i: usize = 0;
    while i < v.len()
        invariant
            i <= v.len(),
            v@ == s@,
            out@ == lowered(s@).take(i as int),
        decreases v.len() - i,
    {
        out.push(to_lower_char(v[i]));
        assert(out@ =~= lowered(s@).take(i + 1));
        i += 1;
    }
    assert(out@ =~= lowered(s@));
    out
}

pub fn eq_ignore_ascii_case(a: &str, b: &str) -> (r: bool)
    ensures
        r == (lowered(a@) == lowered(b@)),
{
    let x = to_ascii_lowercase(a);
    let y = to_ascii_lowercase(b);
    x == y
}

// ---------------------------------------------------------------------------
// Numbers
// ---------------------------------------------------------------------------

pub open spec fn digit_char(n: int) -> char {
    (48 + n) as char
}

pub open spec fn digit_value(c: char) -> int {
    c as int - 48
}

/// A number in decimal notation, without leading zeros.
pub open spec fn decimal(n: nat) -> Seq<char>
    decreases n,
{
    if n < 10 {
        seq![digit_char(n as int)]
    } else {
        decimal(n / 10).push(digit_char((n % 10) as int))
    }
}

/// A number in decimal notation, with a minus sign where it is negative.
pub open spec fn signed_decimal(n: int) -> Seq<char> {
    if n < 0 {
        seq!['-'] + decimal((-n) as nat)
    } else {
        decimal(n as nat)
    }
}

pub open spec fn all_digits(s: Seq<char>) -> bool {
    forall|i: int| 0 <= i < s.len() ==> is_digit(#[trigger] s[i])
}

/// The number that a sequence of decimal digits stands for.
pub open spec fn value_of(s: Seq<char>) -> nat
    decreases s.len(),
{
    if s.len() == 0 {
        0
    } else {
        (value_of(s.drop_last()) * 10 + digit_value(s.last())) as nat
    }
}

/// The number that `s` spells with at least one digit, where it is at most `max`.
pub open spec fn digits_up_to(s: Seq<char>, max: nat) -> Option<nat> {
    if s.len() > 0 && all_digits(s) && value_of(s) <= max {
        Some(value_of(s))
    } else {
        None
    }
}

/// How an unsigned integer is read: digits, after a plus sign or none.
pub open spec fn read_unsigned(s: Seq<char>, max: nat) -> Option<nat> {
    if s.len() > 0 && s[0] == '+' {
        digits_up_to(s.drop_first(), max)
    } else {
        digits_up_to(s, max)
    }
}

/// How a signed 64-bit integer is read: digits, after a sign or none.
pub open spec fn read_signed(s: Seq<char>) -> Option<int> {
    if s.len() > 0 && s[0] == '-' {
        match digits_up_to(s.drop_first(), 0x8000_0000_0000_0000) {
            Some(n) => Some(-(n as int)),
            None => None,
        }
    } else {
        match read_unsigned(s, 0x7fff_ffff_ffff_ffff) {
            Some(n) => Some(n as int),
            None => None,
        }
    }
}

/// Reading a number back from its decimal notation gives the number.
pub proof fn law_decimal_reads_back(n: nat)
    ensures
        all_digits(decimal(n)),
        decimal(n).len() > 0,
        value_of(decimal(n)) == n,
        read_unsigned(decimal(n), n) == Some(n),
    decreases n,
{
    let s = decimal(n);
    if n >= 10 {
        law_decimal_reads_back(n / 10);
        assert(s.drop_last() =~= decimal(n / 10));
    } else {
        assert(s.drop_last() =~= Seq::<char>::empty());
        assert(value_of(s.drop_last()) == 0);
    }
    assert(is_digit(s[0])) by {
        if n >= 10 {
            assert(decimal(n / 10)[0] == s[0]);
        }
    }
}

fn digit_of(n: u64) -> (r: char)
    requires
        n < 10,
    ensures
        r == digit_char(n as int),
{
    let b: u8 = 48 + n as u8;
    b as char
}

pub fn decimal_u64(n: u64) -> (r: String)
    ensures
        r@ == decimal(n as nat),
    decreases n,
{
    if n < 10 {
        let mut r = String::new();
        r.push(digit_of(n));
        assert(r@ =~= decimal(n as nat));
        r
    } else {
        let mut r = decimal_u64(n / 10);
        r.push(digit_of(n % 10));
        r
    }
}

pub fn decimal_usize(n: usize) -> (r: String)
    ensures
        r@ == decimal(n as nat),
{
    decimal_u64(n as u64)
}

pub fn decimal_i64(n: i64) -> (r: String)
    ensures
        r@ == signed_decimal(n as int),
{
    if n < 0 {
        let mut r = String::new();
        r.push('-');
        let m: u64 = (-(n as i128)) as u64;
        let d = decimal_u64(m);
        r.append(d.as_str());
        assert(r@ =~= signed_decimal(n as int));
        r
    } else {
        decimal_u64(n as u64)
    }
}

proof fn lemma_value_grows(s: Seq<char>, n: int)
    requires
        all_digits(s),
        0 <= n <= s.len(),
    ensures
        value_of(s.take(n)) <= value_of(s),
    decreases s.len() - n,
{
    if n == s.len() {
        assert(s.take(n) =~= s);
    } else {
        lemma_value_grows(s, n + 1);
        assert(s.take(n + 1).drop_last() =~= s.take(n));
        assert(is_digit(s[n]));
    }
}

fn read_digits(v: &Vec<char>, from: usize, max: u64) -> (r: Option<u64>)
    requires
        from <= v.len(),
    ensures
        r is Some == digits_up_to(v@.skip(from as int), max as nat) is Some,
        r matches Some(n) ==> digits_up_to(v@.skip(from as int), max as nat) == Some(n as nat),
{
    let ghost body = v@.skip(from as int);
    if from == v.len() {
        return None;
    }
    let mut i: usize = from;
    let mut total: u64 = 0;
    assert(body.take(0).len() == 0);
    while i < v.len()
        invariant
            from <= i <= v.len(),
            body == v@.skip(from as int),
            forall|k: int| 0 <= k < i - from ==> is_digit(#[trigger] body[k]),
            total == value_of(body.take(i - from)),
            total <= max,
        decreases v.len() - i,
    {
        let c = v[i];
        assert(c == body[i - from]);
        if !('0' <= c && c <= '9') {
            assert(!is_digit(body[i - from]));
            return None;
        }
        let d: u64 = c as u64 - 48;
        assert(body.take(i - from + 1).drop_last() =~= body.take(i - from));
        let wide: u128 = total as u128 * 10 + d as u128;
        assert(wide == value_of(body.take(i - from + 1)));
        if wide > max as u128 {
            proof {
                if all_digits(body) {
                    lemma_value_grows(body, i - from + 1);
                }
            }
            return None;
        }
        total = wide as u64;
        i += 1;
    }
    assert(body.take(i - from) =~= body);
    Some(total)
}

pub fn parse_unsigned(s: &str, max: u64) -> (r: Option<u64>)
    ensures
        r is Some == read_unsigned(s@, max as nat) is Some,
        r matches Some(n) ==> read_unsigned(s@, max as nat) == Some(n as nat),
{
    let v = chars_of(s);
    if v.len() > 0 && v[0] == '+' {
        assert(v@.skip(1) =~= s@.drop_first());
        read_digits(&v, 1, max)
    } else {
        assert(v@.skip(0) =~= s@);
        read_digits(&v, 0, max)
    }
}

pub fn parse_usize(s: &str) -> (r: Option<usize>)
    ensures
        r is Some == read_unsigned(s@, usize::MAX as nat) is Some,
        r matches Some(n) ==> read_unsigned(s@, usize::MAX as nat) == Some(n as nat),
{
    match parse_unsigned(s, usize::MAX as u64) {
        Some(n) => Some(n as usize),
        None => None,
    }
}

pub fn parse_i64(s: &str) -> (r: Option<i64>)
    ensures
        r is Some == read_signed(s@) is Some,
        r matches Some(n) ==> read_signed(s@) == Some(n as int),
{
    let v = chars_of(s);
    if v.len() > 0 && v[0] == '-' {
        assert(v@.skip(1) =~= s@.drop_first());
        match read_digits(&v, 1, 0x8000_0000_0000_0000) {
            Some(n) => {
                let m: i128 = -(n as i128);
                Some(m as i64)
            },
            None => None,
        }
    } else {
        match parse_unsigned(s, 0x7fff_ffff_ffff_ffff) {
            Some(n) => Some(n as i64),
            None => None,
        }
    }
}

// ---------------------------------------------------------------------------
// Width
// ---------------------------------------------------------------------------

/// The number of bytes that the text takes in UTF-8.
pub open spec fn byte_length(s: Seq<char>) -> nat {
    vstd::utf8::encode_utf8(s).len()
}

pub open spec fn spaces(n: int) -> Seq<char> {
    Seq::new(
        if n > 0 {
            n as nat
        } else {
            0
        },
        |i: int| ' ',
    )
}

/// The text filled up with spaces to `width` characters; longer text stays as it is.
pub open spec fn padded(s: Seq<char>, width: nat) -> Seq<char> {
    s + spaces(width - s.len())
}

pub fn blank(n: usize) -> (r: String)
    ensures
        r@ == spaces(n as int),
{
    let mut r = String::new();
    let mut i: usize = 0;
    while i < n
        invariant
            i <= n,
            r@ == spaces(i as int),
        decreases n - i,
    {
        r.push(' ');
        i += 1;
        assert(r@ =~= spaces(i as int));
    }
    r
}

pub fn pad_right(s: &str, width: usize) -> (r: String)
    ensures
        r@ == padded(s@, width as nat),
{
    let v = chars_of(s);
    let n: usize = v.len();
    let fill: usize = if n < width {
        width - n
    } else {
        0
    };
    let tail = blank(fill);
    let mut r = s.to_owned();
    r.append(tail.as_str());
    assert(r@ =~= padded(s@, width as nat));
    r
}

/// The bytes of one text after another are those of the first and then those of the second.
pub proof fn lemma_bytes_of_both(a: Seq<char>, b: Seq<char>)
    ensures
        vstd::utf8::encode_utf8(a + b) == vstd::utf8::encode_utf8(a) + vstd::utf8::encode_utf8(b),
        byte_length(a + b) == byte_length(a) + byte_length(b),
    decreases a.len(),
{
    if a.len() == 0 {
        assert(a + b =~= b);
        assert(vstd::utf8::encode_utf8(a) =~= Seq::empty());
    } else {
        lemma_bytes_of_both(a.drop_first(), b);
        assert((a + b).drop_first() =~= a.drop_first() + b);
        assert((a + b)[0] == a[0]);
    }
    assert(vstd::utf8::encode_utf8(a + b) =~= vstd::utf8::encode_utf8(a)
        + vstd::utf8::encode_utf8(b));
}

/// No piece that is kept is empty.
pub proof fn lemma_nonempty(pieces: Seq<Seq<char>>)
    ensures
        forall|i: int| 0 <= i < nonempty(pieces).len() ==> (#[trigger] nonempty(pieces)[i]).len() > 0,
    decreases pieces.len(),
{
    if pieces.len() > 0 {
        lemma_nonempty(pieces.drop_last());
        let front = nonempty(pieces.drop_last());
        let all = nonempty(pieces);
        assert forall|i: int| 0 <= i < all.len() implies (#[trigger] all[i]).len() > 0 by {
            if i < front.len() {
                assert(all[i] == front[i]);
            }
        }
    }
}

pub proof fn lemma_nonempty_of_both(a: Seq<Seq<char>>, b: Seq<Seq<char>>)
    ensures
        nonempty(a + b) == nonempty(a) + nonempty(b),
    decreases b.len(),
{
    if b.len() == 0 {
        assert(a + b =~= a);
        assert(nonempty(a) + nonempty(b) =~= nonempty(a));
    } else {
        lemma_nonempty_of_both(a, b.drop_last());
        assert((a + b).drop_last() =~= a + b.drop_last());
        assert(nonempty(a + b) =~= nonempty(a) + nonempty(b));
    }
}

/// A character of the class parts a text into what stands before it and what stands behind it.
pub proof fn lemma_split_of_both(a: Seq<char>, c: char, b: Seq<char>, set: CharSet)
    requires
        set.holds(c),
    ensures
        split_on(a.push(c) + b, set) == split_on(a, set) + split_on(b, set),
        split_on(b, set).len() > 0,
    decreases b.len(),
{
    let whole = a.push(c) + b;
    if b.len() == 0 {
        assert(whole =~= a.push(c));
        assert(a.push(c).drop_last() =~= a);
        assert(split_on(whole, set) =~= split_on(a, set) + split_on(b, set));
    } else {
        let fewer = b.drop_last();
        lemma_split_of_both(a, c, fewer, set);
        assert(whole.drop_last() =~= a.push(c) + fewer);
        assert(whole.last() == b.last());
        assert(split_on(whole, set) =~= split_on(a, set) + split_on(b, set));
    }
}

/// A word holds no character of the class that parts words.
pub proof fn lemma_words_hold_none(s: Seq<char>, set: CharSet)
    ensures
        forall|i: int, j: int|
            0 <= i < words_of(s, set).len() && 0 <= j < words_of(s, set)[i].len() ==> !set.holds(
                #[trigger] words_of(s, set)[i][j],
            ),
{
    lemma_pieces_hold_none(s, set);
    lemma_nonempty_holds_none(split_on(s, set), set);
}

proof fn lemma_pieces_hold_none(s: Seq<char>, set: CharSet)
    ensures
        split_on(s, set).len() > 0,
        forall|i: int, j: int|
            0 <= i < split_on(s, set).len() && 0 <= j < split_on(s, set)[i].len() ==> !set.holds(
                #[trigger] split_on(s, set)[i][j],
            ),
    decreases s.len(),
{
    if s.len() > 0 {
        let front = split_on(s.drop_last(), set);
        let all = split_on(s, set);
        lemma_pieces_hold_none(s.drop_last(), set);
        assert forall|i: int, j: int| 0 <= i < all.len() && 0 <= j < all[i].len() implies
            !set.holds(#[trigger] all[i][j]) by {
            if i < front.len() - 1 || (i < front.len() && j < front[i].len()) {
                assert(all[i][j] == front[i][j]);
            }
        }
    }
}

proof fn lemma_nonempty_holds_none(pieces: Seq<Seq<char>>, set: CharSet)
    requires
        forall|i: int, j: int|
            0 <= i < pieces.len() && 0 <= j < pieces[i].len() ==> !set.holds(
                #[trigger] pieces[i][j],
            ),
    ensures
        forall|i: int, j: int|
            0 <= i < nonempty(pieces).len() && 0 <= j < nonempty(pieces)[i].len() ==> !set.holds(
                #[trigger] nonempty(pieces)[i][j],
            ),
    decreases pieces.len(),
{
    if pieces.len() > 0 {
        let fewer = pieces.drop_last();
        let front = nonempty(fewer);
        let all = nonempty(pieces);
        assert forall|i: int, j: int| 0 <= i < fewer.len() && 0 <= j < fewer[i].len() implies
            !set.holds(#[trigger] fewer[i][j]) by {
            assert(fewer[i][j] == pieces[i][j]);
        }
        lemma_nonempty_holds_none(fewer, set);
        assert forall|i: int, j: int| 0 <= i < all.len() && 0 <= j < all[i].len() implies
            !set.holds(#[trigger] all[i][j]) by {
            if i < front.len() {
                assert(all[i][j] == front[i][j]);
            } else {
                assert(all[i][j] == pieces[pieces.len() - 1][j]);
            }
        }
    }
}

/// Two lists that are joined are joined by the separator, unless one of them is empty.
pub proof fn lemma_joined_of_both(a: Seq<Seq<char>>, b: Seq<Seq<char>>, sep: Seq<char>)
    ensures
        a.len() == 0 ==> joined(a + b, sep) == joined(b, sep),
        b.len() == 0 ==> joined(a + b, sep) == joined(a, sep),
        a.len() > 0 && b.len() > 0 ==> joined(a + b, sep) == joined(a, sep) + sep + joined(b, sep),
    decreases b.len(),
{
    if a.len() == 0 {
        assert(a + b =~= b);
    } else if b.len() == 0 {
        assert(a + b =~= a);
    } else {
        let fewer = b.drop_last();
        assert((a + b).drop_last() =~= a + fewer);
        assert((a + b).last() == b.last());
        lemma_joined_of_both(a, fewer, sep);
        if b.len() == 1 {
            assert(a + fewer =~= a);
        } else {
            assert(joined(a + b, sep) =~= joined(a, sep) + sep + joined(b, sep));
        }
    }
}

/// Whether a text is a part alone, or a part with a separator behind it and then more.
pub open spec fn opens_with(s: Seq<char>, part: Seq<char>, sep: Seq<char>) -> bool {
    s == part || begins_with(s, part + sep)
}

/// A text that grows opens with the same part.
pub proof fn lemma_still_opens(s: Seq<char>, part: Seq<char>, sep: Seq<char>, more: Seq<char>)
    requires
        opens_with(s, part, sep),
    ensures
        opens_with(s + sep + more, part, sep),
{
    let longer = s + sep + more;
    let head = part + sep;
    if s == part {
        assert(longer.subrange(0, head.len() as int) =~= head);
    } else {
        assert(longer.subrange(0, head.len() as int) =~= s.subrange(0, head.len() as int));
    }
}

} // verus!

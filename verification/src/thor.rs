//! Reading command classes in the notation of Thor, line by line.

use vstd::prelude::*;

use crate::json::or_empty;
use crate::list::{collect_list, collected, extend_by, map_list};
use crate::manifest::{
    copy_options, lemma_subcommands, CommandData, CommandSpec, OptionData, OptionSpec,
};
use crate::options::{find_text, text_for};
use crate::patterns::{
    all_captured, captured_behind, captured_with, captures_all, captures_behind, captures_with,
    find_group_with, get_group, group_of, group_with,
};
use crate::text::{
    chars_of, contains, contains_text, same, split, split_on, split_whitespace, stands_at, starts_with, string_of, trim,
    trim_back, trim_both, trim_end, trim_front, trim_matches, trim_start, trimmed, words_of,
    begins_with, CharSet,
};

verus! {

// ---------------------------------------------------------------------------
// Lines
// ---------------------------------------------------------------------------

/// The lines of a text. A line break at its end begins no further line.
pub open spec fn raw_lines(source: Seq<char>) -> Seq<Seq<char>> {
    let pieces = split_on(source, CharSet::Only('\n'));
    if pieces.len() > 0 && pieces.last().len() == 0 {
        pieces.drop_last()
    } else {
        pieces
    }
}

/// The lines of a text without the space around them.
pub open spec fn lines_of(source: Seq<char>) -> Seq<Seq<char>> {
    raw_lines(source).map_values(|line: Seq<char>| trimmed(line))
}

fn split_lines(source: &str) -> (r: Vec<String>)
    ensures
        r.deep_view() == lines_of(source@),
{
    let mut pieces = split(source, &CharSet::Only('\n'));
    let ghost all = pieces.deep_view();
    assert(all.len() == pieces@.len());
    if pieces.len() > 0 && pieces[pieces.len() - 1].as_str().is_empty() {
        let ghost before = pieces@;
        assert(all.last() == before.last()@);
        let _ = pieces.pop();
        assert(pieces@ =~= before.drop_last());
        assert(pieces.deep_view() =~= all.drop_last());
    }
    let clean = |line: &String| -> (r: String)
        ensures
            r@ == trimmed(line@),
    {
        trim(line.as_str())
    };
    map_list(&pieces, clean, Ghost(|line: Seq<char>| trimmed(line)))
}

/// What a line of a class says.
pub enum ClassLine {
    /// An option of all commands, and what stands behind its name.
    ClassOption(String, String),
    /// The signature and the description of the next command.
    Desc(String, String),
    /// An option of the next command, and what stands behind its name.
    MethodOption(String, String),
    /// The method of a group of commands, and its class.
    Subcommand(String, String),
    /// The method of a command.
    Def(String),
    /// Aliases of a method.
    Aliases(Vec<String>, String),
    /// Nothing about commands.
    Other,
}

pub ghost enum LineData {
    ClassOption(Seq<char>, Seq<char>),
    Desc(Seq<char>, Seq<char>),
    MethodOption(Seq<char>, Seq<char>),
    Subcommand(Seq<char>, Seq<char>),
    Def(Seq<char>),
    Aliases(Seq<Seq<char>>, Seq<char>),
    Other,
}

impl DeepView for ClassLine {
    type V = LineData;

    open spec fn deep_view(&self) -> LineData {
        match *self {
            ClassLine::ClassOption(a, b) => LineData::ClassOption(a@, b@),
            ClassLine::Desc(a, b) => LineData::Desc(a@, b@),
            ClassLine::MethodOption(a, b) => LineData::MethodOption(a@, b@),
            ClassLine::Subcommand(a, b) => LineData::Subcommand(a@, b@),
            ClassLine::Def(a) => LineData::Def(a@),
            ClassLine::Aliases(v, m) => LineData::Aliases(v.deep_view(), m@),
            ClassLine::Other => LineData::Other,
        }
    }
}

pub const CLASS_OPTION_PATTERN: &'static str = r#"^\s*class_option\s+\"([^\"]+)\"(.*)$"#;

pub const DESC_PATTERN: &'static str = r#"^\s*desc\s+\"([^\"]+)\"\s*,\s*\"([^\"]*)\""#;

pub const METHOD_OPTION_PATTERN: &'static str = r#"^\s*method_option\s+\"([^\"]+)\"(.*)$"#;

pub const DEF_PATTERN: &'static str = r#"^\s*def\s+([a-zA-Z0-9_!?]+)"#;

pub const MAP_PATTERN: &'static str = r#"^\s*map\s+%w\[(.*?)\]\s*=>\s*:([a-zA-Z0-9_!?]+)"#;

pub const SUBCOMMAND_PATTERN: &'static str = r#"^\s*subcommand\s+\"([^\"]+)\"\s*,\s*T::([A-Za-z0-9_]+)"#;

pub const CONSTANT_PATTERN: &'static str = r#"^\s*([A-Z][A-Z0-9_]*)\s*=\s*(?:\"([^\"]*)\"|'([^']*)'|([0-9]+))"#;

pub const INTERPOLATION_PATTERN: &'static str = r#"\#\{([A-Z][A-Z0-9_]*)\}"#;

pub const SHORT_PATTERN: &'static str = r#"aliases:\s*\"-([A-Za-z])\""#;

pub const TYPE_PATTERN: &'static str = r#"type:\s*:(\w+)"#;

pub const ENUM_PATTERN: &'static str = r#"enum:\s*%w\[(.*?)\]"#;

pub const BANNER_PATTERN: &'static str = r#"banner:\s*\"([^\"]+)\""#;

pub const DEFAULT_QUOTED_PATTERN: &'static str = r#"default:\s*\"([^\"]*)\""#;

pub const DEFAULT_BARE_PATTERN: &'static str = r#"default:\s*([0-9]+|nil)"#;

pub const DEFAULT_CONST_PATTERN: &'static str = r#"default:\s*([A-Z][A-Z0-9_]*)"#;

/// The text of a group; nothing where the group took no part.
pub open spec fn group_text(groups: Seq<Option<Seq<char>>>, n: int) -> Seq<char> {
    or_empty(group_of(groups, n))
}

fn get_text(groups: &Vec<Option<String>>, n: usize) -> (r: String)
    ensures
        r@ == group_text(groups.deep_view(), n as int),
{
    match get_group(groups, n) {
        Some(s) => s,
        None => String::new(),
    }
}

/// The ways in which a line can speak of commands.
#[derive(Debug, Clone, Copy)]
pub enum LineKind {
    ClassOption,
    Desc,
    MethodOption,
    Subcommand,
    Def,
    Aliases,
}

/// What the groups of a line's pattern say.
pub open spec fn line_from(kind: LineKind, g: Seq<Option<Seq<char>>>) -> LineData {
    match kind {
        LineKind::ClassOption => LineData::ClassOption(group_text(g, 1), group_text(g, 2)),
        LineKind::Desc => LineData::Desc(group_text(g, 1), group_text(g, 2)),
        LineKind::MethodOption => LineData::MethodOption(group_text(g, 1), group_text(g, 2)),
        LineKind::Subcommand => LineData::Subcommand(group_text(g, 1), group_text(g, 2)),
        LineKind::Def => LineData::Def(group_text(g, 1)),
        LineKind::Aliases => LineData::Aliases(
            words_of(group_text(g, 1), CharSet::Whitespace),
            group_text(g, 2),
        ),
    }
}

pub fn make_line(kind: LineKind, g: &Vec<Option<String>>) -> (r: ClassLine)
    ensures
        r.deep_view() == line_from(kind, g.deep_view()),
{
    match kind {
        LineKind::ClassOption => ClassLine::ClassOption(get_text(g, 1), get_text(g, 2)),
        LineKind::Desc => ClassLine::Desc(get_text(g, 1), get_text(g, 2)),
        LineKind::MethodOption => ClassLine::MethodOption(get_text(g, 1), get_text(g, 2)),
        LineKind::Subcommand => ClassLine::Subcommand(get_text(g, 1), get_text(g, 2)),
        LineKind::Def => ClassLine::Def(get_text(g, 1)),
        LineKind::Aliases => ClassLine::Aliases(
            split_whitespace(get_text(g, 1).as_str()),
            get_text(g, 2),
        ),
    }
}

/// What a line says: that which the first pattern that matches makes of it.
pub open spec fn line_in(line: Seq<char>) -> LineData {
    match captured_behind("class_option"@, CLASS_OPTION_PATTERN@, line) {
        Some(g) => line_from(LineKind::ClassOption, g),
        None => match captured_behind("desc"@, DESC_PATTERN@, line) {
            Some(g) => line_from(LineKind::Desc, g),
            None => match captured_behind("method_option"@, METHOD_OPTION_PATTERN@, line) {
                Some(g) => line_from(LineKind::MethodOption, g),
                None => match captured_behind("subcommand"@, SUBCOMMAND_PATTERN@, line) {
                    Some(g) => line_from(LineKind::Subcommand, g),
                    None => match captured_behind("def"@, DEF_PATTERN@, line) {
                        Some(g) => line_from(LineKind::Def, g),
                        None => match captured_behind("map"@, MAP_PATTERN@, line) {
                            Some(g) => line_from(LineKind::Aliases, g),
                            None => LineData::Other,
                        },
                    },
                },
            },
        },
    }
}

pub fn scan_line(line: &str) -> (r: ClassLine)
    ensures
        r.deep_view() == line_in(line@),
{
    if let Some(g) = captures_behind("class_option", CLASS_OPTION_PATTERN, line) {
        return make_line(LineKind::ClassOption, &g);
    }
    if let Some(g) = captures_behind("desc", DESC_PATTERN, line) {
        return make_line(LineKind::Desc, &g);
    }
    if let Some(g) = captures_behind("method_option", METHOD_OPTION_PATTERN, line) {
        return make_line(LineKind::MethodOption, &g);
    }
    if let Some(g) = captures_behind("subcommand", SUBCOMMAND_PATTERN, line) {
        return make_line(LineKind::Subcommand, &g);
    }
    if let Some(g) = captures_behind("def", DEF_PATTERN, line) {
        return make_line(LineKind::Def, &g);
    }
    if let Some(g) = captures_behind("map", MAP_PATTERN, line) {
        return make_line(LineKind::Aliases, &g);
    }
    ClassLine::Other
}

// ---------------------------------------------------------------------------
// Constants
// ---------------------------------------------------------------------------

/// The constant that a line defines, where it defines one.
pub open spec fn constant_in(line: Seq<char>) -> Option<(Seq<char>, Seq<char>)> {
    match captured_with("="@, CONSTANT_PATTERN@, line) {
        Some(g) => Some(constant_of(g)),
        None => None,
    }
}

/// The name of a constant, and its value: in double or single quotes, or a number.
pub open spec fn constant_of(g: Seq<Option<Seq<char>>>) -> (Seq<char>, Seq<char>) {
    (
        group_text(g, 1),
        match group_of(g, 2) {
            Some(v) => v,
            None => match group_of(g, 3) {
                Some(v) => v,
                None => group_text(g, 4),
            },
        },
    )
}

pub fn make_constant(g: &Vec<Option<String>>) -> (r: (String, String))
    ensures
        r.0@ == constant_of(g.deep_view()).0,
        r.1@ == constant_of(g.deep_view()).1,
{
    let value = match get_group(g, 2) {
        Some(v) => v,
        None => match get_group(g, 3) {
            Some(v) => v,
            None => get_text(g, 4),
        },
    };
    (get_text(g, 1), value)
}

fn read_constant(line: &str) -> (r: Option<(String, String)>)
    ensures
        r.deep_view() == constant_in(line@),
{
    match captures_with("=", CONSTANT_PATTERN, line) {
        Some(g) => Some(make_constant(&g)),
        None => None,
    }
}

/// The constants that a text defines, in order.
pub open spec fn constants_in(source: Seq<char>) -> Seq<(Seq<char>, Seq<char>)> {
    collected(lines_of(source), |line: Seq<char>| constant_in(line))
}

fn parse_constants(source: &str) -> (r: Vec<(String, String)>)
    ensures
        r.deep_view() == constants_in(source@),
{
    let read = |line: &String| -> (r: Option<(String, String)>)
        ensures
            r.deep_view() == constant_in(line@),
    {
        read_constant(line.as_str())
    };
    collect_list(
        &split_lines(source),
        read,
        Ghost(|line: Seq<char>| constant_in(line)),
    )
}

/// The first place where a part stands in a text.
pub open spec fn first_place(s: Seq<char>, part: Seq<char>) -> Option<nat>
    decreases s.len(),
{
    if stands_at(s, part, 0) {
        Some(0)
    } else if s.len() == 0 {
        None
    } else {
        match first_place(s.drop_first(), part) {
            Some(i) => Some(i + 1),
            None => None,
        }
    }
}

/// A text in which each place that was found gives way to the constant that it names. One that
/// names none stays.
pub open spec fn spliced(
    rest: Seq<char>,
    found: Seq<Seq<Option<Seq<char>>>>,
    constants: Seq<(Seq<char>, Seq<char>)>,
) -> Seq<char>
    decreases found.len(),
{
    if found.len() == 0 {
        rest
    } else {
        let whole = group_text(found[0], 0);
        match first_place(rest, whole) {
            None => rest,
            Some(i) => rest.take(i as int) + (match text_for(constants, group_text(found[0], 1)) {
                Some(value) => value,
                None => whole,
            }) + spliced(rest.skip((i + whole.len()) as int), found.drop_first(), constants),
        }
    }
}

/// A text with the constants that it names filled in.
pub open spec fn interpolated(input: Seq<char>, constants: Seq<(Seq<char>, Seq<char>)>) -> Seq<
    char,
> {
    if contains_text(input, "#{"@) {
        spliced(input, all_captured(INTERPOLATION_PATTERN@, input), constants)
    } else {
        input
    }
}

proof fn lemma_first_place(s: Seq<char>, part: Seq<char>, i: int)
    requires
        0 <= i <= s.len(),
        stands_at(s, part, i),
        forall|k: int| 0 <= k < i ==> !stands_at(s, part, k),
    ensures
        first_place(s, part) == Some(i as nat),
    decreases s.len(),
{
    if i > 0 {
        let rest = s.drop_first();
        assert(rest.subrange(i - 1, i - 1 + part.len()) =~= s.subrange(i, i + part.len()));
        assert forall|k: int| 0 <= k < i - 1 implies !stands_at(rest, part, k) by {
            if stands_at(rest, part, k) {
                assert(s.subrange(k + 1, k + 1 + part.len()) =~= rest.subrange(
                    k,
                    k + part.len(),
                ));
                assert(stands_at(s, part, k + 1));
            }
        }
        assert(!stands_at(s, part, 0));
        lemma_first_place(rest, part, i - 1);
    }
}

proof fn lemma_no_place(s: Seq<char>, part: Seq<char>)
    requires
        forall|k: int| 0 <= k <= s.len() ==> !stands_at(s, part, k),
    ensures
        first_place(s, part) is None,
    decreases s.len(),
{
    assert(!stands_at(s, part, 0));
    if s.len() > 0 {
        let rest = s.drop_first();
        assert forall|k: int| 0 <= k <= rest.len() implies !stands_at(rest, part, k) by {
            if stands_at(rest, part, k) {
                assert(s.subrange(k + 1, k + 1 + part.len()) =~= rest.subrange(
                    k,
                    k + part.len(),
                ));
                assert(stands_at(s, part, k + 1));
            }
        }
        lemma_no_place(rest, part);
    }
}

fn part_stands_at(v: &Vec<char>, part: &Vec<char>, i: usize) -> (r: bool)
    requires
        i <= v@.len(),
    ensures
        r == stands_at(v@, part@, i as int),
{
    let total: usize = v.len();
    if part.len() > total - i {
        return false;
    }
    let mut k: usize = 0;
    while k < part.len()
        invariant
            k <= part@.len(),
            total == v@.len(),
            i + part@.len() <= v@.len(),
            forall|j: int| 0 <= j < k ==> v@[i + j] == part@[j],
        decreases part@.len() - k,
    {
        if v[i + k] != part[k] {
            assert(v@.subrange(i as int, i + part@.len())[k as int] != part@[k as int]);
            return false;
        }
        k += 1;
    }
    assert(v@.subrange(i as int, i + part@.len()) =~= part@);
    true
}

fn find_place(v: &Vec<char>, part: &Vec<char>) -> (r: Option<usize>)
    ensures
        match r {
            Some(i) => first_place(v@, part@) == Some(i as nat) && i + part@.len() <= v@.len(),
            None => first_place(v@, part@) is None,
        },
{
    let mut i: usize = 0;
    while i <= v.len()
        invariant
            i <= v@.len(),
            forall|k: int| 0 <= k < i ==> !stands_at(v@, part@, k),
        decreases v@.len() - i,
    {
        if part_stands_at(v, part, i) {
            proof {
                lemma_first_place(v@, part@, i as int);
            }
            return Some(i);
        }
        if i == v.len() {
            proof {
                lemma_no_place(v@, part@);
            }
            return None;
        }
        i += 1;
    }
    None
}

fn slice(v: &Vec<char>, from: usize, to: usize) -> (r: Vec<char>)
    requires
        from <= to <= v@.len(),
    ensures
        r@ == v@.subrange(from as int, to as int),
{
    let mut out: Vec<char> = Vec::new();
    let mut i: usize = from;
    while i < to
        invariant
            from <= i <= to <= v@.len(),
            out@ == v@.subrange(from as int, i as int),
        decreases to - i,
    {
        out.push(v[i]);
        i += 1;
        assert(out@ =~= v@.subrange(from as int, i as int));
    }
    out
}

/// Fills constants in at the places that were found.
pub fn splice(rest: &str, found: &Vec<Vec<Option<String>>>, from: usize, constants: &Vec<
    (String, String),
>) -> (r: String)
    requires
        from <= found@.len(),
    ensures
        r@ == spliced(rest@, found.deep_view().skip(from as int), constants.deep_view()),
    decreases found@.len() - from,
{
    let ghost places = found.deep_view().skip(from as int);
    if from == found.len() {
        return rest.to_owned();
    }
    assert(places[0] == found@[from as int].deep_view());
    assert(places.drop_first() =~= found.deep_view().skip(from + 1));
    let whole = get_text(&found[from], 0);
    let v = chars_of(rest);
    let part = chars_of(whole.as_str());
    match find_place(&v, &part) {
        None => rest.to_owned(),
        Some(i) => {
            let key = get_text(&found[from], 1);
            let value = match find_text(constants, key.as_str()) {
                Some(value) => value.clone(),
                None => whole,
            };
            let before = string_of(&slice(&v, 0, i));
            let total: usize = v.len();
            let after = string_of(&slice(&v, i + part.len(), total));
            assert(before@ =~= rest@.take(i as int));
            assert(after@ =~= rest@.skip(i + part@.len()));
            let tail = splice(after.as_str(), found, from + 1, constants);
            before.concat(value.as_str()).concat(tail.as_str())
        },
    }
}

pub fn interpolate_ruby_constants(input: &str, constants: &Vec<(String, String)>) -> (r: String)
    ensures
        r@ == interpolated(input@, constants.deep_view()),
{
    if !contains(input, "#{") {
        return input.to_owned();
    }
    let found = captures_all(INTERPOLATION_PATTERN, input);
    assert(found.deep_view().skip(0) =~= found.deep_view());
    splice(input, &found, 0, constants)
}

// ---------------------------------------------------------------------------
// Signatures and options
// ---------------------------------------------------------------------------

/// Whether a text ends with a character.
pub open spec fn ends_in(s: Seq<char>, c: char) -> bool {
    s.len() > 0 && s.last() == c
}

/// How many arguments a word of a signature asks for. Words in square brackets are optional.
pub open spec fn required_by(token: Seq<char>) -> nat {
    let cleaned = trim_both(token, CharSet::Only(','));
    let inner = trim_back(trim_front(cleaned, CharSet::Only('[')), CharSet::Only(']'));
    if cleaned == "SUBCOMMAND"@ || cleaned == "...ARGS"@ || inner.len() == 0 {
        0
    } else if begins_with(cleaned, "["@) && ends_in(cleaned, ']') {
        0
    } else {
        1
    }
}

pub open spec fn required_by_all(tokens: Seq<Seq<char>>) -> nat
    decreases tokens.len(),
{
    if tokens.len() == 0 {
        0
    } else {
        required_by_all(tokens.drop_last()) + required_by(tokens.last())
    }
}

/// The name in a signature, and how many arguments it asks for.
pub open spec fn signature_of(signature: Seq<char>) -> (Seq<char>, nat) {
    let tokens = words_of(signature, CharSet::Whitespace);
    if tokens.len() == 0 {
        (Seq::empty(), 0)
    } else {
        (tokens[0], required_by_all(tokens.drop_first()))
    }
}

fn is_required(token: &str) -> (r: bool)
    ensures
        required_by(token@) == (if r {
            1nat
        } else {
            0nat
        }),
{
    let cleaned = trim_matches(token, &CharSet::Only(','));
    let inner = trim_end(
        trim_start(cleaned.as_str(), &CharSet::Only('[')).as_str(),
        &CharSet::Only(']'),
    );
    if same(cleaned.as_str(), "SUBCOMMAND") || same(cleaned.as_str(), "...ARGS")
        || inner.as_str().is_empty() {
        return false;
    }
    let v = chars_of(cleaned.as_str());
    let closed = v.len() > 0 && v[v.len() - 1] == ']';
    !(starts_with(cleaned.as_str(), "[") && closed)
}

pub fn parse_signature(signature: &str) -> (r: (String, usize))
    ensures
        r.0@ == signature_of(signature@).0,
        r.1 == signature_of(signature@).1,
{
    let tokens = split_whitespace(signature);
    let ghost all = tokens.deep_view();
    assert(all.len() == tokens@.len());
    if tokens.len() == 0 {
        return (String::new(), 0);
    }
    assert(all[0] == tokens@[0]@);
    let ghost rest = all.drop_first();
    let mut min_args: usize = 0;
    let mut i: usize = 1;
    assert(rest.take(0) =~= Seq::empty());
    while i < tokens.len()
        invariant
            1 <= i <= tokens@.len(),
            all == tokens.deep_view(),
            rest == all.drop_first(),
            min_args == required_by_all(rest.take(i - 1)),
            min_args < i,
        decreases tokens@.len() - i,
    {
        assert(rest.take(i as int).drop_last() =~= rest.take(i - 1));
        assert(rest.take(i as int).last() == tokens@[i as int]@);
        if is_required(tokens[i].as_str()) {
            min_args += 1;
        }
        i += 1;
    }
    assert(rest.take(i - 1) =~= rest);
    (tokens[0].clone(), min_args)
}

/// The default value: in quotes, or a number, or the value of a constant; `nil` is none.
pub open spec fn default_from(
    quoted: Option<Seq<char>>,
    bare: Option<Seq<char>>,
    named: Option<Seq<char>>,
    constants: Seq<(Seq<char>, Seq<char>)>,
) -> Option<Seq<char>> {
    match (quoted, bare, named) {
        (Some(value), _, _) => Some(value),
        (None, Some(value), _) => if value == "nil"@ {
            None
        } else {
            Some(value)
        },
        (None, None, Some(key)) => text_for(constants, key),
        (None, None, None) => None,
    }
}

pub fn choose_default(
    quoted: Option<String>,
    bare: Option<String>,
    named: Option<String>,
    constants: &Vec<(String, String)>,
) -> (r: Option<String>)
    ensures
        r.deep_view() == default_from(
            quoted.deep_view(),
            bare.deep_view(),
            named.deep_view(),
            constants.deep_view(),
        ),
{
    if let Some(value) = quoted {
        return Some(value);
    }
    if let Some(value) = bare {
        return if same(value.as_str(), "nil") {
            None
        } else {
            Some(value)
        };
    }
    match named {
        Some(key) => match find_text(constants, key.as_str()) {
            Some(value) => Some(value.clone()),
            None => None,
        },
        None => None,
    }
}

/// The default value that what stands behind the name of an option gives.
pub open spec fn default_in(tail: Seq<char>, constants: Seq<(Seq<char>, Seq<char>)>) -> Option<
    Seq<char>,
> {
    default_from(
        group_with("default:"@, DEFAULT_QUOTED_PATTERN@, tail, 1),
        group_with("default:"@, DEFAULT_BARE_PATTERN@, tail, 1),
        group_with("default:"@, DEFAULT_CONST_PATTERN@, tail, 1),
        constants,
    )
}

pub fn parse_default_value(option_tail: &str, constants: &Vec<(String, String)>) -> (r: Option<
    String,
>)
    ensures
        r.deep_view() == default_in(option_tail@, constants.deep_view()),
{
    let quoted = find_group_with("default:", DEFAULT_QUOTED_PATTERN, option_tail, 1);
    let bare = if quoted.is_some() {
        None
    } else {
        find_group_with("default:", DEFAULT_BARE_PATTERN, option_tail, 1)
    };
    let named = if quoted.is_some() || bare.is_some() {
        None
    } else {
        find_group_with("default:", DEFAULT_CONST_PATTERN, option_tail, 1)
    };
    choose_default(quoted, bare, named, constants)
}

/// The option that its parts make. It takes a value unless its type is boolean; where no type is
/// given, it does where values are listed.
pub open spec fn option_from(
    name: Seq<char>,
    short: Option<Seq<char>>,
    kind: Option<Seq<char>>,
    values: Option<Seq<char>>,
    banner: Option<Seq<char>>,
    default_value: Option<Seq<char>>,
) -> OptionData {
    let possible_values = words_of(or_empty(values), CharSet::Whitespace);
    OptionData {
        long: name,
        short: match short {
            Some(s) => if s.len() > 0 {
                Some(s[0])
            } else {
                None
            },
            None => None,
        },
        takes_value: match kind {
            Some(k) => k != "boolean"@,
            None => possible_values.len() > 0,
        },
        value_name: banner,
        possible_values,
        default_value,
    }
}

pub fn make_option(
    name: String,
    short: Option<String>,
    kind: Option<String>,
    values: Option<String>,
    banner: Option<String>,
    default_value: Option<String>,
) -> (r: OptionSpec)
    ensures
        r.deep_view() == option_from(
            name@,
            short.deep_view(),
            kind.deep_view(),
            values.deep_view(),
            banner.deep_view(),
            default_value.deep_view(),
        ),
{
    let listed = match values {
        Some(v) => v,
        None => String::new(),
    };
    let possible_values = split_whitespace(listed.as_str());
    assert(possible_values.deep_view().len() == possible_values@.len());
    let short = match short {
        Some(s) => {
            let v = chars_of(s.as_str());
            if v.len() > 0 {
                Some(v[0])
            } else {
                None
            }
        },
        None => None,
    };
    let takes_value = match kind {
        Some(k) => !same(k.as_str(), "boolean"),
        None => possible_values.len() > 0,
    };
    OptionSpec { long: name, short, takes_value, value_name: banner, possible_values, default_value }
}

/// The option of a name, with what stands behind the name.
pub open spec fn option_in(
    name: Seq<char>,
    tail: Seq<char>,
    constants: Seq<(Seq<char>, Seq<char>)>,
) -> OptionData {
    option_from(
        name,
        group_with("aliases:"@, SHORT_PATTERN@, tail, 1),
        group_with("type:"@, TYPE_PATTERN@, tail, 1),
        group_with("enum:"@, ENUM_PATTERN@, tail, 1),
        group_with("banner:"@, BANNER_PATTERN@, tail, 1),
        default_in(tail, constants),
    )
}

pub fn parse_option(name: String, option_tail: &str, constants: &Vec<(String, String)>) -> (r:
    OptionSpec)
    ensures
        r.deep_view() == option_in(name@, option_tail@, constants.deep_view()),
{
    make_option(
        name,
        find_group_with("aliases:", SHORT_PATTERN, option_tail, 1),
        find_group_with("type:", TYPE_PATTERN, option_tail, 1),
        find_group_with("enum:", ENUM_PATTERN, option_tail, 1),
        find_group_with("banner:", BANNER_PATTERN, option_tail, 1),
        parse_default_value(option_tail, constants),
    )
}

// ---------------------------------------------------------------------------
// Classes
// ---------------------------------------------------------------------------

/// The options and commands of a class.
#[derive(Debug)]
pub struct ClassSpec {
    pub class_options: Vec<OptionSpec>,
    pub commands: Vec<CommandSpec>,
}

#[verifier::ext_equal]
pub ghost struct ClassData {
    pub class_options: Seq<OptionData>,
    pub commands: Seq<CommandData>,
}

impl DeepView for ClassSpec {
    type V = ClassData;

    open spec fn deep_view(&self) -> ClassData {
        ClassData {
            class_options: self.class_options.deep_view(),
            commands: self.commands.deep_view(),
        }
    }
}

/// A class that is read up to some line: what it holds, and what waits for the next method.
pub struct ClassReader {
    pub class_options: Vec<OptionSpec>,
    pub commands: Vec<CommandSpec>,
    pub desc: Option<(String, String)>,
    pub options: Vec<OptionSpec>,
}

#[verifier::ext_equal]
pub ghost struct ReaderData {
    pub class_options: Seq<OptionData>,
    pub commands: Seq<CommandData>,
    pub desc: Option<(Seq<char>, Seq<char>)>,
    pub options: Seq<OptionData>,
}

impl DeepView for ClassReader {
    type V = ReaderData;

    open spec fn deep_view(&self) -> ReaderData {
        ReaderData {
            class_options: self.class_options.deep_view(),
            commands: self.commands.deep_view(),
            desc: self.desc.deep_view(),
            options: self.options.deep_view(),
        }
    }
}

pub open spec fn fresh_reader() -> ReaderData {
    ReaderData {
        class_options: Seq::empty(),
        commands: Seq::empty(),
        desc: None,
        options: Seq::empty(),
    }
}

/// The command that a method, the description before it and the options before it make.
pub open spec fn new_command(
    desc: (Seq<char>, Seq<char>),
    method: Seq<char>,
    options: Seq<OptionData>,
    class: Option<Seq<char>>,
) -> CommandData {
    CommandData {
        name: signature_of(desc.0).0,
        method,
        about: desc.1,
        min_args: signature_of(desc.0).1,
        options,
        aliases: Seq::empty(),
        subcommand_class: class,
        subcommands: Seq::empty(),
    }
}

/// A method takes the description and the options that wait for it. One without a description is
/// no command.
pub open spec fn with_method(r: ReaderData, method: Seq<char>, class: Option<Seq<char>>) -> ReaderData {
    match r.desc {
        Some(desc) => ReaderData {
            commands: r.commands.push(new_command(desc, method, r.options, class)),
            desc: None,
            options: Seq::empty(),
            ..r
        },
        None => r,
    }
}

/// The place of the last command of a method.
pub open spec fn last_of_method(cs: Seq<CommandData>, method: Seq<char>) -> Option<nat>
    decreases cs.len(),
{
    if cs.len() == 0 {
        None
    } else if cs.last().method == method {
        Some((cs.len() - 1) as nat)
    } else {
        last_of_method(cs.drop_last(), method)
    }
}

/// The last command of a method gets further aliases.
pub open spec fn with_aliases(r: ReaderData, aliases: Seq<Seq<char>>, method: Seq<char>) -> ReaderData {
    match last_of_method(r.commands, method) {
        Some(i) => ReaderData {
            commands: r.commands.update(
                i as int,
                CommandData {
                    aliases: r.commands[i as int].aliases + aliases,
                    ..r.commands[i as int]
                },
            ),
            ..r
        },
        None => r,
    }
}

/// What one more line makes of a class.
pub open spec fn line_read(
    r: ReaderData,
    line: LineData,
    constants: Seq<(Seq<char>, Seq<char>)>,
) -> ReaderData {
    match line {
        LineData::ClassOption(name, tail) => ReaderData {
            class_options: r.class_options.push(option_in(name, tail, constants)),
            ..r
        },
        LineData::Desc(signature, about) => ReaderData {
            desc: Some((interpolated(signature, constants), interpolated(about, constants))),
            options: Seq::empty(),
            ..r
        },
        LineData::MethodOption(name, tail) => ReaderData {
            options: r.options.push(option_in(name, tail, constants)),
            ..r
        },
        LineData::Subcommand(method, class) => with_method(r, method, Some(class)),
        LineData::Def(method) => with_method(r, method, None),
        LineData::Aliases(aliases, method) => with_aliases(r, aliases, method),
        LineData::Other => r,
    }
}

fn no_options() -> (r: Vec<OptionSpec>)
    ensures
        r.deep_view() == Seq::<OptionData>::empty(),
{
    let r: Vec<OptionSpec> = Vec::new();
    assert(r.deep_view() =~= Seq::empty());
    r
}

impl ClassReader {
    pub fn new() -> (r: ClassReader)
        ensures
            r.deep_view() == fresh_reader(),
    {
        let commands: Vec<CommandSpec> = Vec::new();
        assert(commands.deep_view() =~= Seq::empty());
        ClassReader { class_options: no_options(), commands, desc: None, options: no_options() }
    }

    fn add_method(&mut self, method: String, class: Option<String>)
        ensures
            final(self).deep_view() == with_method(
                old(self).deep_view(),
                method@,
                class.deep_view(),
            ),
    {
        let (signature, about) = match &self.desc {
            Some((signature, about)) => (signature.clone(), about.clone()),
            None => {
                return ;
            },
        };
        let (name, min_args) = parse_signature(signature.as_str());
        let options = copy_options(&self.options);
        let aliases: Vec<String> = Vec::new();
        let subcommands: Vec<CommandSpec> = Vec::new();
        assert(aliases.deep_view() =~= Seq::empty());
        assert(subcommands.deep_view() =~= Seq::empty());
        let command = CommandSpec {
            name,
            method,
            about,
            min_args,
            options,
            aliases,
            subcommand_class: class,
            subcommands,
        };
        proof {
            lemma_subcommands(command);
        }
        extend_by(&mut self.commands, command);
        self.desc = None;
        self.options = no_options();
    }

    fn add_aliases(&mut self, aliases: Vec<String>, method: &str)
        ensures
            final(self).deep_view() == with_aliases(
                old(self).deep_view(),
                aliases.deep_view(),
                method@,
            ),
    {
        if let Some(i) = find_last_method(&self.commands, method) {
            let ghost all = self.commands.deep_view();
            let ghost before = self.commands@[i as int];
            assert(all[i as int] == before.deep_view());
            let mut command = self.commands[i].copy();
            crate::list::move_in(&mut command.aliases, aliases);
            proof {
                lemma_subcommands(command);
                lemma_subcommands(before);
            }
            self.commands.set(i, command);
            assert(self.commands.deep_view() =~= all.update(i as int, command.deep_view()));
        }
    }

    /// Reads one more line.
    pub fn read_line(&mut self, line: ClassLine, constants: &Vec<(String, String)>)
        ensures
            final(self).deep_view() == line_read(
                old(self).deep_view(),
                line.deep_view(),
                constants.deep_view(),
            ),
    {
        match line {
            ClassLine::ClassOption(name, tail) => {
                extend_by(
                    &mut self.class_options,
                    parse_option(name, tail.as_str(), constants),
                );
            },
            ClassLine::Desc(signature, about) => {
                self.desc = Some(
                    (
                        interpolate_ruby_constants(signature.as_str(), constants),
                        interpolate_ruby_constants(about.as_str(), constants),
                    ),
                );
                self.options = no_options();
            },
            ClassLine::MethodOption(name, tail) => {
                extend_by(&mut self.options, parse_option(name, tail.as_str(), constants));
            },
            ClassLine::Subcommand(method, class) => {
                self.add_method(method, Some(class));
            },
            ClassLine::Def(method) => {
                self.add_method(method, None);
            },
            ClassLine::Aliases(aliases, method) => {
                self.add_aliases(aliases, method.as_str());
            },
            ClassLine::Other => {},
        }
    }
}

fn find_last_method(commands: &Vec<CommandSpec>, method: &str) -> (r: Option<usize>)
    ensures
        match r {
            Some(i) => i < commands@.len() && last_of_method(commands.deep_view(), method@) == Some(
                i as nat,
            ),
            None => last_of_method(commands.deep_view(), method@) is None,
        },
{
    let ghost all = commands.deep_view();
    let mut i: usize = commands.len();
    assert(all.take(all.len() as int) =~= all);
    while i > 0
        invariant
            i <= commands@.len(),
            all == commands.deep_view(),
            last_of_method(all, method@) == last_of_method(all.take(i as int), method@),
        decreases i,
    {
        assert(all.take(i as int).last() == commands@[i - 1].deep_view());
        assert(all.take(i as int).drop_last() =~= all.take(i - 1));
        if same(commands[i - 1].method.as_str(), method) {
            return Some(i - 1);
        }
        i -= 1;
    }
    None
}

/// A class after its lines.
pub open spec fn lines_read(lines: Seq<Seq<char>>, constants: Seq<(Seq<char>, Seq<char>)>) -> ReaderData
    decreases lines.len(),
{
    if lines.len() == 0 {
        fresh_reader()
    } else {
        line_read(lines_read(lines.drop_last(), constants), line_in(lines.last()), constants)
    }
}

/// The class that a text defines.
pub open spec fn class_in(source: Seq<char>) -> ClassData {
    let r = lines_read(lines_of(source), constants_in(source));
    ClassData { class_options: r.class_options, commands: r.commands }
}

pub fn parse_class(source: &str) -> (r: ClassSpec)
    ensures
        r.deep_view() == class_in(source@),
{
    let constants = parse_constants(source);
    let lines = split_lines(source);
    let ghost all = lines.deep_view();
    let mut reader = ClassReader::new();
    let mut i: usize = 0;
    assert(all.take(0) =~= Seq::empty());
    while i < lines.len()
        invariant
            i <= lines@.len(),
            all == lines.deep_view(),
            reader.deep_view() == lines_read(all.take(i as int), constants.deep_view()),
        decreases lines@.len() - i,
    {
        assert(all.take(i + 1).drop_last() =~= all.take(i as int));
        assert(all.take(i + 1).last() == lines@[i as int]@);
        reader.read_line(scan_line(lines[i].as_str()), &constants);
        i += 1;
    }
    assert(all.take(i as int) =~= all);
    ClassSpec { class_options: reader.class_options, commands: reader.commands }
}

/// A command stands where its method is defined: commands come in the order of their methods, and
/// a further line adds one at the end at most.
pub proof fn law_commands_are_never_dropped(
    r: ReaderData,
    line: LineData,
    constants: Seq<(Seq<char>, Seq<char>)>,
)
    ensures
        ({
            let after = line_read(r, line, constants).commands;
            &&& r.commands.len() <= after.len() <= r.commands.len() + 1
            &&& forall|i: int|
                0 <= i < r.commands.len() ==> (#[trigger] after[i]).name == r.commands[i].name
                    && after[i].method == r.commands[i].method && after[i].options
                    == r.commands[i].options
        }),
{
    match line {
        LineData::Aliases(aliases, method) => {
            lemma_last_place(r.commands, method);
        },
        _ => {},
    }
}

proof fn lemma_last_place(cs: Seq<CommandData>, method: Seq<char>)
    ensures
        last_of_method(cs, method) matches Some(i) ==> i < cs.len(),
    decreases cs.len(),
{
    if cs.len() > 0 {
        lemma_last_place(cs.drop_last(), method);
    }
}

} // verus!

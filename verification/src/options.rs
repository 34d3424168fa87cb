//! The options that a command was called with.

use vstd::prelude::*;

use crate::text::{parse_usize, read_unsigned, same};

verus! {

/// The flags that were given, and the options with a value.
pub struct Options {
    pub flags: Vec<String>,
    pub values: Vec<(String, String)>,
}

#[verifier::ext_equal]
pub ghost struct OptionsData {
    pub flags: Seq<Seq<char>>,
    pub values: Seq<(Seq<char>, Seq<char>)>,
}

impl View for Options {
    type V = OptionsData;

    open spec fn view(&self) -> OptionsData {
        OptionsData { flags: self.flags.deep_view(), values: self.values.deep_view() }
    }
}

/// The text that pairs give for a key: that of the last pair with the key.
pub open spec fn text_for(pairs: Seq<(Seq<char>, Seq<char>)>, key: Seq<char>) -> Option<Seq<char>>
    decreases pairs.len(),
{
    if pairs.len() == 0 {
        None
    } else if pairs.last().0 == key {
        Some(pairs.last().1)
    } else {
        text_for(pairs.drop_last(), key)
    }
}

pub fn find_text<'a>(pairs: &'a Vec<(String, String)>, key: &str) -> (r: Option<&'a String>)
    ensures
        r.deep_view() == text_for(pairs.deep_view(), key@),
{
    let ghost all = pairs.deep_view();
    let mut i: usize = pairs.len();
    assert(all.take(all.len() as int) =~= all);
    while i > 0
        invariant
            i <= pairs.len(),
            all == pairs.deep_view(),
            text_for(all, key@) == text_for(all.take(i as int), key@),
        decreases i,
    {
        assert(all.take(i as int).last() == pairs@[i - 1].deep_view());
        assert(all.take(i as int).drop_last() =~= all.take(i - 1));
        if same(pairs[i - 1].0.as_str(), key) {
            return Some(&pairs[i - 1].1);
        }
        i -= 1;
    }
    None
}

impl OptionsData {
    pub open spec fn flag(self, key: Seq<char>) -> bool {
        self.flags.contains(key)
    }

    pub open spec fn text(self, key: Seq<char>) -> Option<Seq<char>> {
        text_for(self.values, key)
    }

    pub open spec fn text_or(self, key: Seq<char>, default: Seq<char>) -> Seq<char> {
        match self.text(key) {
            Some(s) => s,
            None => default,
        }
    }

    /// The number that the option gives, where it gives one.
    pub open spec fn number(self, key: Seq<char>) -> Option<nat> {
        match self.text(key) {
            Some(s) => read_unsigned(s, usize::MAX as nat),
            None => None,
        }
    }

    pub open spec fn number_or(self, key: Seq<char>, default: nat) -> nat {
        match self.number(key) {
            Some(n) => n,
            None => default,
        }
    }
}

pub fn opt_bool(options: &Options, key: &str) -> (r: bool)
    ensures
        r == options@.flag(key@),
{
    let mut i: usize = 0;
    let ghost all = options.flags.deep_view();
    while i < options.flags.len()
        invariant
            i <= options.flags.len(),
            all == options.flags.deep_view(),
            forall|k: int| 0 <= k < i ==> all[k] != key@,
        decreases options.flags.len() - i,
    {
        assert(all[i as int] == options.flags@[i as int]@);
        if same(options.flags[i].as_str(), key) {
            assert(all.contains(key@));
            return true;
        }
        i += 1;
    }
    false
}

pub fn opt_string<'a>(options: &'a Options, key: &str) -> (r: Option<&'a String>)
    ensures
        r.deep_view() == options@.text(key@),
{
    find_text(&options.values, key)
}

pub fn opt_text_or(options: &Options, key: &str, default: &str) -> (r: String)
    ensures
        r@ == options@.text_or(key@, default@),
{
    match opt_string(options, key) {
        Some(s) => s.clone(),
        None => default.to_owned(),
    }
}

pub fn opt_usize(options: &Options, key: &str) -> (r: Option<usize>)
    ensures
        r is Some == options@.number(key@) is Some,
        r matches Some(n) ==> options@.number(key@) == Some(n as nat),
{
    match opt_string(options, key) {
        Some(s) => parse_usize(s.as_str()),
        None => None,
    }
}

pub fn opt_usize_or(options: &Options, key: &str, default: usize) -> (r: usize)
    ensures
        r == options@.number_or(key@, default as nat),
{
    match opt_usize(options, key) {
        Some(n) => n,
        None => default,
    }
}

} // verus!

//! JSON values, and the mathematical data that they stand for.

use vstd::prelude::*;

use crate::list::extend_by;
use crate::text::{decimal_i64, decimal_u64, same};

verus! {

/// A JSON number: an integer of up to 64 bits, or the text of any other number.
pub enum Number {
    Unsigned(u64),
    /// A negative integer.
    Negative(i64),
    Float(String),
}

/// A JSON value. An object is its entries in order; of entries with one key the last counts.
pub enum Json {
    Null,
    Bool(bool),
    Number(Number),
    Text(String),
    Array(Vec<Json>),
    Object(Vec<(String, Json)>),
}

/// What a [`Number`] stands for.
pub ghost enum NumberData {
    Unsigned(u64),
    Negative(i64),
    Float(Seq<char>),
}

/// What a [`Json`] stands for.
#[verifier::ext_equal]
pub ghost enum Data {
    Null,
    Bool(bool),
    Number(NumberData),
    Text(Seq<char>),
    Array(Seq<Data>),
    Object(Seq<(Seq<char>, Data)>),
}

impl View for Number {
    type V = NumberData;

    open spec fn view(&self) -> NumberData {
        match *self {
            Number::Unsigned(n) => NumberData::Unsigned(n),
            Number::Negative(n) => NumberData::Negative(n),
            Number::Float(s) => NumberData::Float(s@),
        }
    }
}

pub open spec fn data_of(j: Json) -> Data
    decreases j,
{
    match j {
        Json::Null => Data::Null,
        Json::Bool(b) => Data::Bool(b),
        Json::Number(n) => Data::Number(n@),
        Json::Text(s) => Data::Text(s@),
        Json::Array(v) => Data::Array(
            Seq::new(
                v@.len(),
                |i: int|
                    if 0 <= i < v@.len() {
                        data_of(v@[i])
                    } else {
                        Data::Null
                    },
            ),
        ),
        Json::Object(v) => Data::Object(
            Seq::new(
                v@.len(),
                |i: int|
                    if 0 <= i < v@.len() {
                        (v@[i].0@, data_of(v@[i].1))
                    } else {
                        (Seq::empty(), Data::Null)
                    },
            ),
        ),
    }
}

impl View for Json {
    type V = Data;

    open spec fn view(&self) -> Data {
        data_of(*self)
    }
}

impl DeepView for Json {
    type V = Data;

    open spec fn deep_view(&self) -> Data {
        data_of(*self)
    }
}

/// What a list of entries maps a key to: the value of the last entry with that key.
pub open spec fn lookup(entries: Seq<(Seq<char>, Data)>, key: Seq<char>) -> Option<Data>
    decreases entries.len(),
{
    if entries.len() == 0 {
        None
    } else if entries.last().0 == key {
        Some(entries.last().1)
    } else {
        lookup(entries.drop_last(), key)
    }
}

pub open spec fn max_i64() -> int {
    0x7fff_ffff_ffff_ffff
}

impl Data {
    pub open spec fn get(self, key: Seq<char>) -> Option<Data> {
        match self {
            Data::Object(entries) => lookup(entries, key),
            _ => None,
        }
    }

    /// The value at the first key, or else at the second.
    pub open spec fn get_either(self, first: Seq<char>, second: Seq<char>) -> Option<Data> {
        match self.get(first) {
            Some(v) => Some(v),
            None => self.get(second),
        }
    }

    pub open spec fn as_text(self) -> Option<Seq<char>> {
        match self {
            Data::Text(s) => Some(s),
            _ => None,
        }
    }

    pub open spec fn as_array(self) -> Option<Seq<Data>> {
        match self {
            Data::Array(v) => Some(v),
            _ => None,
        }
    }

    pub open spec fn as_flag(self) -> Option<bool> {
        match self {
            Data::Bool(b) => Some(b),
            _ => None,
        }
    }

    /// The integer, where it fits in 64 bits with a sign.
    pub open spec fn as_signed(self) -> Option<i64> {
        match self {
            Data::Number(NumberData::Unsigned(n)) => if n <= max_i64() {
                Some(n as i64)
            } else {
                None
            },
            Data::Number(NumberData::Negative(n)) => Some(n),
            _ => None,
        }
    }

    pub open spec fn text_at(self, key: Seq<char>) -> Option<Seq<char>> {
        text_in(self.get(key))
    }

    /// The text at the key, or no text.
    pub open spec fn words_at(self, key: Seq<char>) -> Seq<char> {
        or_empty(self.text_at(key))
    }

    pub open spec fn array_at(self, key: Seq<char>) -> Option<Seq<Data>> {
        array_in(self.get(key))
    }

    pub open spec fn signed_at(self, key: Seq<char>) -> Option<i64> {
        match self.get(key) {
            Some(v) => v.as_signed(),
            None => None,
        }
    }

    pub open spec fn count_at(self, key: Seq<char>) -> i64 {
        match self.signed_at(key) {
            Some(n) => n,
            None => 0,
        }
    }

    pub open spec fn flag_at(self, key: Seq<char>) -> Option<bool> {
        match self.get(key) {
            Some(v) => v.as_flag(),
            None => None,
        }
    }

    /// Text, integers and truth values as text.
    pub open spec fn as_words(self) -> Option<Seq<char>> {
        match self {
            Data::Text(s) => Some(s),
            Data::Number(NumberData::Unsigned(n)) => Some(crate::text::decimal(n as nat)),
            Data::Number(NumberData::Negative(n)) => Some(crate::text::signed_decimal(n as int)),
            Data::Bool(true) => Some("true"@),
            Data::Bool(false) => Some("false"@),
            _ => None,
        }
    }

    /// The identifier of a record: its textual one, or else its `id`.
    pub open spec fn id(self) -> Option<Seq<char>> {
        match self.text_at("id_str"@) {
            Some(s) => Some(s),
            None => match self.get("id"@) {
                Some(v) => v.as_words(),
                None => None,
            },
        }
    }
}

pub open spec fn text_in(v: Option<Data>) -> Option<Seq<char>> {
    match v {
        Some(d) => d.as_text(),
        None => None,
    }
}

pub open spec fn array_in(v: Option<Data>) -> Option<Seq<Data>> {
    match v {
        Some(d) => d.as_array(),
        None => None,
    }
}

pub open spec fn get_in(v: Option<Data>, key: Seq<char>) -> Option<Data> {
    match v {
        Some(d) => d.get(key),
        None => None,
    }
}

pub open spec fn words_in(v: Option<Data>) -> Seq<char> {
    match v {
        Some(d) => or_empty(d.as_words()),
        None => Seq::empty(),
    }
}

pub open spec fn or_empty(s: Option<Seq<char>>) -> Seq<char> {
    match s {
        Some(t) => t,
        None => Seq::empty(),
    }
}

/// One entry, or none.
pub open spec fn entry(key: Seq<char>, value: Option<Data>) -> Seq<(Seq<char>, Data)> {
    match value {
        Some(v) => seq![(key, v)],
        None => Seq::empty(),
    }
}

pub open spec fn text_entry(key: Seq<char>, value: Option<Seq<char>>) -> Seq<(Seq<char>, Data)> {
    match value {
        Some(s) => seq![(key, Data::Text(s))],
        None => Seq::empty(),
    }
}

pub proof fn lemma_array_data(v: Vec<Json>)
    ensures
        Json::Array(v)@ == Data::Array(v.deep_view()),
{
    assert(Json::Array(v)@->Array_0 =~= v.deep_view());
}

pub proof fn lemma_object_data(v: Vec<(String, Json)>)
    ensures
        Json::Object(v)@ == Data::Object(v.deep_view()),
{
    assert(Json::Object(v)@->Object_0 =~= v.deep_view());
}

pub fn find_entry<'a>(entries: &'a Vec<(String, Json)>, key: &str) -> (r: Option<&'a Json>)
    ensures
        r.deep_view() == lookup(entries.deep_view(), key@),
{
    let ghost all = entries.deep_view();
    let mut i: usize = entries.len();
    assert(all.take(all.len() as int) =~= all);
    while i > 0
        invariant
            i <= entries.len(),
            all == entries.deep_view(),
            lookup(all, key@) == lookup(all.take(i as int), key@),
        decreases i,
    {
        assert(all.take(i as int).last() == entries@[i - 1].deep_view());
        assert(all.take(i as int).drop_last() =~= all.take(i - 1));
        if same(entries[i - 1].0.as_str(), key) {
            return Some(&entries[i - 1].1);
        }
        i -= 1;
    }
    None
}

impl Json {
    pub fn get(&self, key: &str) -> (r: Option<&Json>)
        ensures
            r.deep_view() == self@.get(key@),
    {
        match self {
            Json::Object(entries) => {
                proof {
                    lemma_object_data(*entries);
                }
                find_entry(entries, key)
            },
            _ => None,
        }
    }

    pub fn get_either(&self, first: &str, second: &str) -> (r: Option<&Json>)
        ensures
            r.deep_view() == self@.get_either(first@, second@),
    {
        match self.get(first) {
            Some(v) => Some(v),
            None => self.get(second),
        }
    }

    pub fn as_str(&self) -> (r: Option<&String>)
        ensures
            r.deep_view() == self@.as_text(),
    {
        match self {
            Json::Text(s) => Some(s),
            _ => None,
        }
    }

    pub fn as_array(&self) -> (r: Option<&Vec<Json>>)
        ensures
            r.deep_view() == self@.as_array(),
    {
        match self {
            Json::Array(v) => {
                proof {
                    lemma_array_data(*v);
                }
                Some(v)
            },
            _ => None,
        }
    }

    pub fn as_bool(&self) -> (r: Option<bool>)
        ensures
            r == self@.as_flag(),
    {
        match self {
            Json::Bool(b) => Some(*b),
            _ => None,
        }
    }

    pub fn as_i64(&self) -> (r: Option<i64>)
        ensures
            r == self@.as_signed(),
    {
        match self {
            Json::Number(Number::Unsigned(n)) => if *n <= 0x7fff_ffff_ffff_ffff {
                Some(*n as i64)
            } else {
                None
            },
            Json::Number(Number::Negative(n)) => Some(*n),
            _ => None,
        }
    }

    pub fn is_object(&self) -> (r: bool)
        ensures
            r == (self@ is Object),
    {
        match self {
            Json::Object(_) => true,
            _ => false,
        }
    }

    pub fn get_str(&self, key: &str) -> (r: Option<&String>)
        ensures
            r.deep_view() == self@.text_at(key@),
    {
        match self.get(key) {
            Some(v) => v.as_str(),
            None => None,
        }
    }

    pub fn words_at(&self, key: &str) -> (r: String)
        ensures
            r@ == self@.words_at(key@),
    {
        match self.get_str(key) {
            Some(s) => s.clone(),
            None => String::new(),
        }
    }

    pub fn get_array(&self, key: &str) -> (r: Option<&Vec<Json>>)
        ensures
            r.deep_view() == self@.array_at(key@),
    {
        match self.get(key) {
            Some(v) => v.as_array(),
            None => None,
        }
    }

    pub fn get_i64(&self, key: &str) -> (r: Option<i64>)
        ensures
            r == self@.signed_at(key@),
    {
        match self.get(key) {
            Some(v) => v.as_i64(),
            None => None,
        }
    }

    pub fn count_at(&self, key: &str) -> (r: i64)
        ensures
            r == self@.count_at(key@),
    {
        match self.get_i64(key) {
            Some(n) => n,
            None => 0,
        }
    }

    pub fn get_bool(&self, key: &str) -> (r: Option<bool>)
        ensures
            r == self@.flag_at(key@),
    {
        match self.get(key) {
            Some(v) => v.as_bool(),
            None => None,
        }
    }

    /// An equal value.
    pub fn copy(&self) -> (r: Json)
        ensures
            r@ == self@,
        decreases self,
    {
        match self {
            Json::Null => Json::Null,
            Json::Bool(b) => Json::Bool(*b),
            Json::Number(Number::Unsigned(n)) => Json::Number(Number::Unsigned(*n)),
            Json::Number(Number::Negative(n)) => Json::Number(Number::Negative(*n)),
            Json::Number(Number::Float(s)) => Json::Number(Number::Float(s.clone())),
            Json::Text(s) => Json::Text(s.clone()),
            Json::Array(v) => {
                assert(decreases_to!(*self => self->Array_0));
                assert(decreases_to!(*v => v@));
                let mut out: Vec<Json> = Vec::new();
                let mut i: usize = 0;
                while i < v.len()
                    invariant
                        i <= v.len(),
                        *self == Json::Array(*v),
                        decreases_to!(*self => v@),
                        out@.len() == i,
                        forall|k: int| 0 <= k < i ==> (#[trigger] out@[k])@ == v@[k]@,
                    decreases v.len() - i,
                {
                    assert(decreases_to!(v@ => v@[i as int]));
                    out.push(v[i].copy());
                    i += 1;
                }
                let r = Json::Array(out);
                proof {
                    lemma_array_data(out);
                    lemma_array_data(*v);
                    assert(out.deep_view() =~= v.deep_view());
                }
                r
            },
            Json::Object(v) => {
                assert(decreases_to!(*self => self->Object_0));
                assert(decreases_to!(*v => v@));
                let mut out: Vec<(String, Json)> = Vec::new();
                let mut i: usize = 0;
                while i < v.len()
                    invariant
                        i <= v.len(),
                        *self == Json::Object(*v),
                        decreases_to!(*self => v@),
                        out@.len() == i,
                        forall|k: int|
                            0 <= k < i ==> (#[trigger] out@[k]).0@ == v@[k].0@ && out@[k].1@
                                == v@[k].1@,
                    decreases v.len() - i,
                {
                    assert(decreases_to!(v@ => v@[i as int]));
                    assert(decreases_to!(v@[i as int] => v@[i as int].1));
                    out.push((v[i].0.clone(), v[i].1.copy()));
                    i += 1;
                }
                let r = Json::Object(out);
                proof {
                    lemma_object_data(out);
                    lemma_object_data(*v);
                    assert(out.deep_view() =~= v.deep_view());
                }
                r
            },
        }
    }

    pub fn as_words(&self) -> (r: Option<String>)
        ensures
            r.deep_view() == self@.as_words(),
    {
        match self {
            Json::Text(s) => Some(s.clone()),
            Json::Number(Number::Unsigned(n)) => Some(decimal_u64(*n)),
            Json::Number(Number::Negative(n)) => Some(decimal_i64(*n)),
            Json::Bool(b) => if *b {
                Some("true".to_owned())
            } else {
                Some("false".to_owned())
            },
            _ => None,
        }
    }
}

/// The identifier of a record: its textual one, or else its `id`.
pub fn value_id(value: &Json) -> (r: Option<String>)
    ensures
        r.deep_view() == value@.id(),
{
    match value.get_str("id_str") {
        Some(s) => Some(s.clone()),
        None => match value.get("id") {
            Some(v) => v.as_words(),
            None => None,
        },
    }
}

pub fn words_in_value(value: Option<&Json>) -> (r: String)
    ensures
        r@ == words_in(value.deep_view()),
{
    match value {
        Some(v) => match v.as_words() {
            Some(s) => s,
            None => String::new(),
        },
        None => String::new(),
    }
}

pub fn get_from<'a>(value: Option<&'a Json>, key: &str) -> (r: Option<&'a Json>)
    ensures
        r.deep_view() == get_in(value.deep_view(), key@),
{
    match value {
        Some(v) => v.get(key),
        None => None,
    }
}

pub fn str_from<'a>(value: Option<&'a Json>) -> (r: Option<&'a String>)
    ensures
        r.deep_view() == text_in(value.deep_view()),
{
    match value {
        Some(v) => v.as_str(),
        None => None,
    }
}

pub fn array_from<'a>(value: Option<&'a Json>) -> (r: Option<&'a Vec<Json>>)
    ensures
        r.deep_view() == array_in(value.deep_view()),
{
    match value {
        Some(v) => v.as_array(),
        None => None,
    }
}

pub fn text_or_empty(value: Option<&String>) -> (r: String)
    ensures
        r@ == or_empty(value.deep_view()),
{
    match value {
        Some(s) => s.clone(),
        None => String::new(),
    }
}

pub fn copy_list(values: &Vec<Json>) -> (r: Vec<Json>)
    ensures
        r.deep_view() == values.deep_view(),
{
    let mut out: Vec<Json> = Vec::new();
    let mut i: usize = 0;
    while i < values.len()
        invariant
            i <= values.len(),
            out.deep_view() == values.deep_view().take(i as int),
        decreases values.len() - i,
    {
        extend_by(&mut out, values[i].copy());
        i += 1;
        assert(out.deep_view() =~= values.deep_view().take(i as int));
    }
    assert(out.deep_view() =~= values.deep_view());
    out
}

pub fn copy_texts(values: &Vec<String>) -> (r: Vec<String>)
    ensures
        r.deep_view() == values.deep_view(),
{
    let mut out: Vec<String> = Vec::new();
    let mut i: usize = 0;
    while i < values.len()
        invariant
            i <= values.len(),
            out.deep_view() == values.deep_view().take(i as int),
        decreases values.len() - i,
    {
        extend_by(&mut out, values[i].clone());
        i += 1;
        assert(out.deep_view() =~= values.deep_view().take(i as int));
    }
    assert(out.deep_view() =~= values.deep_view());
    out
}

pub fn text_json(s: &str) -> (r: Json)
    ensures
        r@ == Data::Text(s@),
{
    Json::Text(s.to_owned())
}

pub fn array_json(values: Vec<Json>) -> (r: Json)
    ensures
        r@ == Data::Array(values.deep_view()),
{
    proof {
        lemma_array_data(values);
    }
    Json::Array(values)
}

pub fn object_json(entries: Vec<(String, Json)>) -> (r: Json)
    ensures
        r@ == Data::Object(entries.deep_view()),
{
    proof {
        lemma_object_data(entries);
    }
    Json::Object(entries)
}

pub fn put(entries: &mut Vec<(String, Json)>, key: &str, value: Json)
    ensures
        final(entries).deep_view() == old(entries).deep_view().push((key@, value@)),
{
    let ghost before = entries.deep_view();
    entries.push((key.to_owned(), value));
    assert(entries.deep_view() =~= before.push((key@, value@)));
}

/// Adds an entry for the value where there is one.
pub fn put_value(entries: &mut Vec<(String, Json)>, key: &str, value: Option<&Json>)
    ensures
        final(entries).deep_view() == old(entries).deep_view() + entry(key@, value.deep_view()),
{
    let ghost before = entries.deep_view();
    if let Some(v) = value {
        put(entries, key, v.copy());
    }
    assert(entries.deep_view() =~= before + entry(key@, value.deep_view()));
}

/// Adds an entry for the text where there is one.
pub fn put_text(entries: &mut Vec<(String, Json)>, key: &str, value: Option<&String>)
    ensures
        final(entries).deep_view() == old(entries).deep_view() + text_entry(
            key@,
            value.deep_view(),
        ),
{
    let ghost before = entries.deep_view();
    if let Some(s) = value {
        put(entries, key, Json::Text(s.clone()));
    }
    assert(entries.deep_view() =~= before + text_entry(key@, value.deep_view()));
}

} // verus!

use vstd::prelude::*;

verus! {

/// serde_json's document type, carried only inside the parsing wrapper.
#[verifier::external_type_specification]
#[verifier::external_body]
pub struct ExJsonValue(serde_json::Value);

/// A JSON document.
///
/// Numbers keep the text that serde_json prints for them; object members keep
/// the order in which serde_json hands them out.
#[derive(Debug)]
pub enum Json {
    Null,
    Bool(bool),
    Number(String),
    Str(String),
    Array(Vec<Json>),
    Object(Vec<(String, Json)>),
}

/// The document that the text `text` holds, or `None` where it is not JSON.
pub uninterp spec fn json_document(text: Seq<char>) -> Option<Json>;

/// The JSON string literal, quotes and escapes included, that stands for `s`.
pub uninterp spec fn json_string_literal(s: Seq<char>) -> Seq<char>;

/// Relies on `serde_json::from_str::<serde_json::Value>` to parse `text`; the
/// tree it returns is moved into a `Json`, variant for variant.
#[verifier::external_body]
pub(crate) fn parse_json(text: &str) -> (r: Option<Json>)
    ensures
        r == json_document(text@),
{
    serde_json::from_str::<serde_json::Value>(text).ok().map(json_from_value)
}

/// Moves serde_json's tree into a `Json`, one node for one node; a number
/// becomes the text that serde_json prints for it. It serves `parse_json`
/// alone, whose contract covers what it returns.
#[verifier::external_body]
fn json_from_value(v: serde_json::Value) -> Json {
    match v {
        serde_json::Value::Null => Json::Null,
        serde_json::Value::Bool(b) => Json::Bool(b),
        serde_json::Value::Number(n) => Json::Number(n.to_string()),
        serde_json::Value::String(s) => Json::Str(s),
        serde_json::Value::Array(a) => Json::Array(a.into_iter().map(json_from_value).collect()),
        serde_json::Value::Object(m) => Json::Object(
            m.into_iter().map(|(k, x)| (k, json_from_value(x))).collect(),
        ),
    }
}

/// Relies on `serde_json::to_string` on a `str`: it writes the string literal
/// that stands for `s` into an in-memory buffer, which cannot fail.
#[verifier::external_body]
pub(crate) fn quote_json(s: &str) -> (r: String)
    ensures
        r@ == json_string_literal(s@),
{
    serde_json::to_string(s).unwrap_or_default()
}

impl Json {
    /// The value of the member named `key`, where this is an object that has one.
    pub open spec fn field(self, key: Seq<char>) -> Option<Json> {
        match self {
            Json::Object(entries) => lookup(entries@, key),
            _ => None,
        }
    }

    /// The value of the member named `key`, or `Null` where there is none.
    pub open spec fn member_or_null(self, key: Seq<char>) -> Json {
        match self.field(key) {
            Some(v) => v,
            None => Json::Null,
        }
    }

    /// The text of this string.
    pub open spec fn str_value(self) -> Option<Seq<char>> {
        match self {
            Json::Str(s) => Some(s@),
            _ => None,
        }
    }

    /// The value of this number, where it is an integer that fits in an `i64`.
    pub open spec fn i64_value(self) -> Option<i64> {
        match self {
            Json::Number(t) => i64_of_text(t@),
            _ => None,
        }
    }

    /// The value of this number, where it is an integer that fits in an `i32`.
    pub open spec fn i32_value(self) -> Option<i32> {
        match self.i64_value() {
            Some(v) => if i32::MIN <= v <= i32::MAX {
                Some(v as i32)
            } else {
                None
            },
            None => None,
        }
    }

    /// The member named `key`, where this is an object that has one.
    pub fn get(&self, key: &str) -> (r: Option<&Json>)
        ensures
            match r {
                Some(j) => self.field(key@) == Some(*j),
                None => self.field(key@) is None,
            },
    {
        match self {
            Json::Object(entries) => match find_member(entries, key) {
                Some(i) => Some(&entries[i].1),
                None => None,
            },
            _ => None,
        }
    }

    /// The member named `key`, moved out of this object; `Null` where there is
    /// no such member.
    pub fn take(self, key: &str) -> (r: Json)
        ensures
            r == self.member_or_null(key@),
    {
        match self {
            Json::Object(mut entries) => match find_member(&entries, key) {
                Some(i) => entries.remove(i).1,
                None => Json::Null,
            },
            _ => Json::Null,
        }
    }

    /// The element at `index`, where this is an array that long.
    pub fn at(&self, index: usize) -> (r: Option<&Json>)
        ensures
            match r {
                Some(j) => self matches Json::Array(a) && index < a@.len() && *j == a@[index as int],
                None => !(self matches Json::Array(a) && index < a@.len()),
            },
    {
        match self {
            Json::Array(a) => if index < a.len() {
                Some(&a[index])
            } else {
                None
            },
            _ => None,
        }
    }

    /// The text of this string.
    pub fn as_str(&self) -> (r: Option<&str>)
        ensures
            match r {
                Some(s) => self.str_value() == Some(s@),
                None => self.str_value() is None,
            },
    {
        match self {
            Json::Str(s) => Some(s.as_str()),
            _ => None,
        }
    }

    /// The value of this number, where it is an integer that fits in an `i64`.
    pub fn as_i64(&self) -> (r: Option<i64>)
        ensures
            r == self.i64_value(),
    {
        match self {
            Json::Number(t) => parse_i64(t.as_str()),
            _ => None,
        }
    }

    /// The value of this number, where it is an integer that fits in an `i32`.
    pub fn as_i32(&self) -> (r: Option<i32>)
        ensures
            r == self.i32_value(),
    {
        match self.as_i64() {
            Some(v) => if -0x8000_0000 <= v && v <= 0x7fff_ffff {
                Some(v as i32)
            } else {
                None
            },
            None => None,
        }
    }
}

/// The index of the first member named `key` among `entries`.
fn find_member(entries: &Vec<(String, Json)>, key: &str) -> (r: Option<usize>)
    ensures
        match r {
            Some(i) => i < entries@.len() && lookup(entries@, key@) == Some(entries@[i as int].1),
            None => lookup(entries@, key@) is None,
        },
{
    let k = String::from_str(key);
    let mut i: usize = 0;
    assert(entries@.subrange(0, entries@.len() as int) =~= entries@);
    while i < entries.len()
        invariant
            i <= entries@.len(),
            k@ == key@,
            lookup(entries@.subrange(i as int, entries@.len() as int), key@) == lookup(entries@, key@),
        decreases entries.len() - i,
    {
        let ghost rest = entries@.subrange(i as int, entries@.len() as int);
        assert(rest[0] == entries@[i as int]);
        if entries[i].0 == k {
            assert(lookup(rest, key@) == Some(rest[0].1));
            return Some(i);
        }
        assert(rest.drop_first() =~= entries@.subrange(i + 1, entries@.len() as int));
        i = i + 1;
    }
    None
}

/// The value of the first member named `key` among `entries`.
pub open spec fn lookup(entries: Seq<(String, Json)>, key: Seq<char>) -> Option<Json>
    decreases entries.len(),
{
    if entries.len() == 0 {
        None
    } else if entries[0].0@ == key {
        Some(entries[0].1)
    } else {
        lookup(entries.drop_first(), key)
    }
}

pub open spec fn is_digit(c: char) -> bool {
    '0' <= c && c <= '9'
}

pub open spec fn all_digits(s: Seq<char>) -> bool {
    forall|i: int| 0 <= i < s.len() ==> is_digit(#[trigger] s[i])
}

/// The number that the decimal digits `s` spell.
pub open spec fn digits_value(s: Seq<char>) -> nat
    decreases s.len(),
{
    if s.len() == 0 {
        0
    } else {
        digits_value(s.drop_last()) * 10 + ((s.last() as int) - ('0' as int)) as nat
    }
}

/// The integer that `s` spells: one or more decimal digits, after an optional `-`.
pub open spec fn int_of_text(s: Seq<char>) -> Option<int> {
    if s.len() > 1 && s[0] == '-' && all_digits(s.drop_first()) {
        Some(-digits_value(s.drop_first()))
    } else if s.len() > 0 && all_digits(s) {
        Some(digits_value(s) as int)
    } else {
        None
    }
}

/// The integer that `s` spells, where it fits in an `i64`.
pub open spec fn i64_of_text(s: Seq<char>) -> Option<i64> {
    match int_of_text(s) {
        Some(v) => if i64::MIN <= v <= i64::MAX {
            Some(v as i64)
        } else {
            None
        },
        None => None,
    }
}

proof fn lemma_value_grows(s: Seq<char>, i: int)
    requires
        all_digits(s),
        0 <= i <= s.len(),
    ensures
        digits_value(s.take(i)) <= digits_value(s),
    decreases s.len(),
{
    if i < s.len() {
        let t = s.drop_last();
        assert(t.take(i) =~= s.take(i));
        lemma_value_grows(t, i);
    } else {
        assert(s.take(i) =~= s);
    }
}

/// The integer that `s` spells, where it fits in an `i64`.
pub fn parse_i64(s: &str) -> (r: Option<i64>)
    ensures
        r == i64_of_text(s@),
{
    let len = s.unicode_len();
    if len == 0 {
        return None;
    }
    let negative = s.get_char(0) == '-';
    let start: usize = if negative { 1 } else { 0 };
    if start == len {
        return None;
    }
    let ghost digits = s@.subrange(start as int, len as int);
    let mut mag: u128 = 0;
    let mut i: usize = start;
    while i < len
        invariant
            start <= i <= len,
            len == s@.len(),
            digits == s@.subrange(start as int, len as int),
            all_digits(digits.take(i - start)),
            mag == digits_value(digits.take(i - start)),
            mag <= 0x8000_0000_0000_0000,
            negative == (s@[0] == '-'),
            start == (if negative { 1usize } else { 0usize }),
        decreases len - i,
    {
        let c = s.get_char(i);
        if !('0' <= c && c <= '9') {
            proof {
                assert(digits[i - start] == c);
                assert(!all_digits(digits));
                if !negative {
                    assert(digits =~= s@);
                } else {
                    assert(digits =~= s@.drop_first());
                    assert(!is_digit(s@[0]));
                }
            }
            return None;
        }
        let d: u128 = (c as u32 - '0' as u32) as u128;
        proof {
            let t = digits.take(i + 1 - start);
            assert(t.drop_last() =~= digits.take(i - start));
            assert(t.last() == c);
        }
        mag = mag * 10 + d;
        i = i + 1;
        if mag > 0x8000_0000_0000_0000 {
            proof {
                lemma_rest_is_larger(s@, digits, start as int, i as int);
            }
            return None;
        }
    }
    proof {
        assert(digits.take(len - start) =~= digits);
        if negative {
            assert(digits =~= s@.drop_first());
        } else {
            assert(digits =~= s@);
        }
    }
    if negative {
        Some((0i128 - mag as i128) as i64)
    } else if mag <= 0x7fff_ffff_ffff_ffff {
        Some(mag as i64)
    } else {
        None
    }
}

/// Where the digits read so far already pass `2^63`, `s` spells no `i64`.
proof fn lemma_rest_is_larger(s: Seq<char>, digits: Seq<char>, start: int, i: int)
    requires
        start == 0 || start == 1,
        start == 1 <==> s[0] == '-',
        s.len() > start,
        digits == s.subrange(start, s.len() as int),
        start <= i <= s.len(),
        all_digits(digits.take(i - start)),
        digits_value(digits.take(i - start)) > 0x8000_0000_0000_0000,
    ensures
        i64_of_text(s) is None,
{
    if start == 1 {
        assert(digits =~= s.drop_first());
    } else {
        assert(digits =~= s);
    }
    if all_digits(digits) {
        lemma_value_grows(digits, i - start);
    }
}

} // verus!

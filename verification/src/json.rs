//! The crate's own model of a JSON document, with a verified serializer.
//!
//! Request bodies are built as [`JsonValue`] trees by the write-model
//! encoders and turned into text by [`to_json_text`], whose output is pinned
//! down exactly by [`spec_json_text`]. Response bodies are parsed by the
//! transport layer into the same model, and the read-model decoders take it
//! apart.

use vstd::prelude::*;
use crate::strutil::str_eq;

verus! {

/// A JSON value as this crate models it.
///
/// An object is an ordered list of key/value pairs (the serializer keeps the
/// order given). A number is either an `i64` or, when it does not fit in
/// `i64`, a number token carried as text in `NumText` (the transport fills
/// it with serde_json's rendering of the number, not necessarily the input
/// token); the serializer emits that text as it stands.
#[derive(Debug)]
pub enum JsonValue {
    Null,
    Bool(bool),
    Int(i64),
    NumText(String),
    Str(String),
    Array(Vec<JsonValue>),
    Object(Vec<(String, JsonValue)>),
}

// ---------------------------------------------------------------------------
// Object lookup
// ---------------------------------------------------------------------------

/// The value under the first pair whose key is `key`, if any.
pub open spec fn spec_pairs_lookup(pairs: Seq<(String, JsonValue)>, key: Seq<char>) -> Option<
    JsonValue,
>
    decreases pairs.len(),
{
    if pairs.len() == 0 {
        None
    } else if pairs[0].0@ == key {
        Some(pairs[0].1)
    } else {
        spec_pairs_lookup(pairs.skip(1), key)
    }
}

/// The value under `key` if `v` is an object holding that key, else `None`.
pub open spec fn spec_obj_lookup(v: JsonValue, key: Seq<char>) -> Option<JsonValue> {
    match v {
        JsonValue::Object(pairs) => spec_pairs_lookup(pairs@, key),
        _ => None,
    }
}

/// Whether `v` is an object holding the key `key`.
pub open spec fn spec_obj_has_key(v: JsonValue, key: Seq<char>) -> bool {
    spec_obj_lookup(v, key) is Some
}

proof fn lemma_pairs_lookup_step(pairs: Seq<(String, JsonValue)>, key: Seq<char>, i: int)
    requires
        0 <= i < pairs.len(),
        forall|k: int| 0 <= k < i ==> pairs[k].0@ != key,
    ensures
        pairs[i].0@ == key ==> spec_pairs_lookup(pairs, key) == Some(pairs[i].1),
        pairs[i].0@ != key ==> (forall|k: int| 0 <= k < i + 1 ==> pairs[k].0@ != key),
    decreases i,
{
    if i > 0 {
        lemma_pairs_lookup_step(pairs.skip(1), key, i - 1);
        assert(pairs.skip(1)[i - 1] == pairs[i]);
        assert(forall|k: int| 0 <= k < i - 1 ==> pairs.skip(1)[k] == pairs[k + 1]);
    }
}

proof fn lemma_pairs_lookup_none(pairs: Seq<(String, JsonValue)>, key: Seq<char>)
    requires
        forall|k: int| 0 <= k < pairs.len() ==> pairs[k].0@ != key,
    ensures
        spec_pairs_lookup(pairs, key) is None,
    decreases pairs.len(),
{
    if pairs.len() > 0 {
        lemma_pairs_lookup_none(pairs.skip(1), key);
    }
}

/// Look up `key` in `v`, returning the value under the first matching pair.
#[verifier::loop_isolation(false)]
pub fn obj_lookup<'a>(v: &'a JsonValue, key: &str) -> (r: Option<&'a JsonValue>)
    ensures
        match r {
            Some(x) => spec_obj_lookup(*v, key@) == Some(*x),
            None => spec_obj_lookup(*v, key@) is None,
        },
{
    match v {
        JsonValue::Object(pairs) => {
            let n = pairs.len();
            let mut i: usize = 0;
            while i < n
                invariant
                    n == pairs.len(),
                    i <= n,
                    forall|k: int| 0 <= k < i ==> pairs@[k].0@ != key@,
                decreases n - i,
            {
                let hit = str_eq(pairs[i].0.as_str(), key);
                proof {
                    lemma_pairs_lookup_step(pairs@, key@, i as int);
                }
                if hit {
                    assert(spec_obj_lookup(*v, key@) == spec_pairs_lookup(pairs@, key@));
                    assert(spec_pairs_lookup(pairs@, key@) == Some(pairs@[i as int].1));
                    return Some(&pairs[i].1);
                }
                i += 1;
            }
            proof {
                lemma_pairs_lookup_none(pairs@, key@);
            }
            None
        },
        _ => None,
    }
}

// ---------------------------------------------------------------------------
// Typed field extraction, for the read-model decoders
// ---------------------------------------------------------------------------

/// The keys of an object's pairs, in order.
pub open spec fn spec_pairs_keys(pairs: Seq<(String, JsonValue)>) -> Seq<Seq<char>> {
    Seq::new(pairs.len(), |i: int| pairs[i].0@)
}

/// The text of a required string field, if present with that type.
pub open spec fn spec_field_string(v: JsonValue, key: Seq<char>) -> Option<Seq<char>> {
    match spec_obj_lookup(v, key) {
        Some(JsonValue::Str(s)) => Some(s@),
        _ => None,
    }
}

/// A required boolean field, if present with that type.
pub open spec fn spec_field_bool(v: JsonValue, key: Seq<char>) -> Option<bool> {
    match spec_obj_lookup(v, key) {
        Some(JsonValue::Bool(b)) => Some(b),
        _ => None,
    }
}

/// A required integer field, if present with that type.
pub open spec fn spec_field_i64(v: JsonValue, key: Seq<char>) -> Option<i64> {
    match spec_obj_lookup(v, key) {
        Some(JsonValue::Int(i)) => Some(i),
        _ => None,
    }
}

/// A required integer field that must fit in `i32`.
pub open spec fn spec_field_i32(v: JsonValue, key: Seq<char>) -> Option<i32> {
    match spec_field_i64(v, key) {
        Some(i) => if i32::MIN <= i <= i32::MAX {
            Some(i as i32)
        } else {
            None
        },
        None => None,
    }
}

/// A required integer field that must fit in `u32`.
pub open spec fn spec_field_u32(v: JsonValue, key: Seq<char>) -> Option<u32> {
    match spec_field_i64(v, key) {
        Some(i) => if 0 <= i <= u32::MAX {
            Some(i as u32)
        } else {
            None
        },
        None => None,
    }
}

/// A required integer field that must fit in `u8`.
pub open spec fn spec_field_u8(v: JsonValue, key: Seq<char>) -> Option<u8> {
    match spec_field_i64(v, key) {
        Some(i) => if 0 <= i <= u8::MAX {
            Some(i as u8)
        } else {
            None
        },
        None => None,
    }
}

/// A required non-negative integer field (up to `i64::MAX`), as `u64`.
pub open spec fn spec_field_u64(v: JsonValue, key: Seq<char>) -> Option<u64> {
    match spec_field_i64(v, key) {
        Some(i) => if 0 <= i {
            Some(i as u64)
        } else {
            None
        },
        None => None,
    }
}

/// An optional string field: absent or null means `Some(None)`, a string
/// means `Some(Some(text))`, any other type is a shape error (`None`).
pub open spec fn spec_field_opt_string(v: JsonValue, key: Seq<char>) -> Option<
    Option<Seq<char>>,
> {
    match spec_obj_lookup(v, key) {
        None => Some(None),
        Some(JsonValue::Null) => Some(None),
        Some(JsonValue::Str(s)) => Some(Some(s@)),
        Some(_) => None,
    }
}

/// A required array-of-strings field, as the sequence of its texts.
pub open spec fn spec_field_string_list(v: JsonValue, key: Seq<char>) -> Option<Seq<Seq<char>>> {
    match spec_obj_lookup(v, key) {
        Some(JsonValue::Array(elems)) => if forall|i: int|
            0 <= i < elems@.len() ==> elems@[i] is Str {
            Some(Seq::new(elems@.len(), |i: int| elems@[i]->Str_0@))
        } else {
            None
        },
        _ => None,
    }
}

/// Extract a required string field.
pub fn field_string(v: &JsonValue, key: &str) -> (r: Option<String>)
    ensures
        match r {
            Some(s) => spec_field_string(*v, key@) == Some(s@),
            None => spec_field_string(*v, key@) is None,
        },
{
    match obj_lookup(v, key) {
        Some(JsonValue::Str(s)) => Some(s.clone()),
        _ => None,
    }
}

/// Extract a required boolean field.
pub fn field_bool(v: &JsonValue, key: &str) -> (r: Option<bool>)
    ensures
        r == spec_field_bool(*v, key@),
{
    match obj_lookup(v, key) {
        Some(JsonValue::Bool(b)) => Some(*b),
        _ => None,
    }
}

/// Extract a required integer field.
pub fn field_i64(v: &JsonValue, key: &str) -> (r: Option<i64>)
    ensures
        r == spec_field_i64(*v, key@),
{
    match obj_lookup(v, key) {
        Some(JsonValue::Int(i)) => Some(*i),
        _ => None,
    }
}

/// Extract a required integer field that must fit in `i32`.
pub fn field_i32(v: &JsonValue, key: &str) -> (r: Option<i32>)
    ensures
        r == spec_field_i32(*v, key@),
{
    match field_i64(v, key) {
        Some(i) => if i32::MIN as i64 <= i && i <= i32::MAX as i64 {
            Some(i as i32)
        } else {
            None
        },
        None => None,
    }
}

/// Extract a required integer field that must fit in `u32`.
pub fn field_u32(v: &JsonValue, key: &str) -> (r: Option<u32>)
    ensures
        r == spec_field_u32(*v, key@),
{
    match field_i64(v, key) {
        Some(i) => if 0 <= i && i <= u32::MAX as i64 {
            Some(i as u32)
        } else {
            None
        },
        None => None,
    }
}

/// Extract a required integer field that must fit in `u8`.
pub fn field_u8(v: &JsonValue, key: &str) -> (r: Option<u8>)
    ensures
        r == spec_field_u8(*v, key@),
{
    match field_i64(v, key) {
        Some(i) => if 0 <= i && i <= u8::MAX as i64 {
            Some(i as u8)
        } else {
            None
        },
        None => None,
    }
}

/// Extract a required non-negative integer field, as `u64`.
pub fn field_u64(v: &JsonValue, key: &str) -> (r: Option<u64>)
    ensures
        r == spec_field_u64(*v, key@),
{
    match field_i64(v, key) {
        Some(i) => if 0 <= i {
            Some(i as u64)
        } else {
            None
        },
        None => None,
    }
}

/// Extract an optional string field (absent and null both mean unset).
pub fn field_opt_string(v: &JsonValue, key: &str) -> (r: Option<Option<String>>)
    ensures
        match r {
            Some(Some(s)) => spec_field_opt_string(*v, key@) == Some(Some(s@)),
            Some(None) => spec_field_opt_string(*v, key@) == Some(None::<Seq<char>>),
            None => spec_field_opt_string(*v, key@) is None,
        },
{
    match obj_lookup(v, key) {
        None => Some(None),
        Some(JsonValue::Null) => Some(None),
        Some(JsonValue::Str(s)) => Some(Some(s.clone())),
        Some(_) => None,
    }
}

/// Extract a required array-of-strings field.
#[verifier::loop_isolation(false)]
pub fn field_string_list(v: &JsonValue, key: &str) -> (r: Option<Vec<String>>)
    ensures
        match r {
            Some(list) => spec_field_string_list(*v, key@) matches Some(ss) && ss.len()
                == list@.len() && (forall|i: int| 0 <= i < ss.len() ==> list@[i]@ == ss[i]),
            None => spec_field_string_list(*v, key@) is None,
        },
{
    match obj_lookup(v, key) {
        Some(arr) => match arr {
            JsonValue::Array(elems) => {
                let n = elems.len();
                let mut out: Vec<String> = Vec::new();
                let mut i: usize = 0;
                while i < n
                    invariant
                        i <= n,
                        out@.len() == i,
                        forall|k: int|
                            0 <= k < i ==> elems@[k] is Str && out@[k]@ == elems@[k]->Str_0@,
                    decreases n - i,
                {
                    match &elems[i] {
                        JsonValue::Str(s) => out.push(s.clone()),
                        _ => {
                            return None;
                        },
                    }
                    i += 1;
                }
                proof {
                    let ss = Seq::new(elems@.len(), |k: int| elems@[k]->Str_0@);
                    assert(spec_field_string_list(*v, key@) == Some(ss));
                }
                Some(out)
            },
            _ => None,
        },
        None => None,
    }
}

/// Whether `v` is the one-member object whose single key is `key` and whose
/// value is the string `value`: the shape of the small fixed request bodies
/// (a rename's `name`, a comment update's `content`).
pub open spec fn spec_single_string_member(v: JsonValue, key: Seq<char>, value: Seq<char>) -> bool {
    v matches JsonValue::Object(pairs) && pairs@.len() == 1 && pairs@[0].0@ == key && (
    pairs@[0].1 matches JsonValue::Str(s) && s@ == value)
}

/// Whether `v` is an array of strings.
pub open spec fn spec_string_list_shape(v: JsonValue) -> bool {
    v matches JsonValue::Array(elems) && (forall|i: int|
        0 <= i < elems@.len() ==> (#[trigger] elems@[i]) is Str)
}

/// The texts of an array of strings, in order.
pub open spec fn spec_string_list(v: JsonValue) -> Seq<Seq<char>>
    recommends
        spec_string_list_shape(v),
{
    match v {
        JsonValue::Array(elems) => Seq::new(elems@.len(), |i: int| elems@[i]->Str_0@),
        _ => Seq::empty(),
    }
}

/// Decode a whole value as an array of strings; succeeds exactly on arrays
/// whose every element is a string.
#[verifier::loop_isolation(false)]
pub fn json_string_list(v: &JsonValue) -> (r: Option<Vec<String>>)
    ensures
        r is Some <==> spec_string_list_shape(*v),
        r matches Some(list) ==> list@.len() == spec_string_list(*v).len() && (forall|i: int|
            0 <= i < list@.len() ==> list@[i]@ == spec_string_list(*v)[i]),
{
    match v {
        JsonValue::Array(elems) => {
            let n = elems.len();
            let mut out: Vec<String> = Vec::new();
            let mut i: usize = 0;
            while i < n
                invariant
                    i <= n,
                    out@.len() == i,
                    forall|k: int|
                        0 <= k < i ==> (#[trigger] elems@[k]) is Str && out@[k]@
                            == elems@[k]->Str_0@,
                decreases n - i,
            {
                match &elems[i] {
                    JsonValue::Str(s) => out.push(s.clone()),
                    _ => {
                        return None;
                    },
                }
                i += 1;
            }
            Some(out)
        },
        _ => None,
    }
}

/// Build a JSON array's elements from a list of strings, in order.
#[verifier::loop_isolation(false)]
pub fn strings_to_json_values(ls: &Vec<String>) -> (r: Vec<JsonValue>)
    ensures
        r@.len() == ls@.len(),
        forall|k: int| 0 <= k < ls@.len() ==> r@[k] == JsonValue::Str(ls@[k]),
{
    let n = ls.len();
    let mut out: Vec<JsonValue> = Vec::new();
    let mut i: usize = 0;
    while i < n
        invariant
            i <= n,
            out@.len() == i,
            forall|k: int| 0 <= k < i ==> out@[k] == JsonValue::Str(ls@[k]),
        decreases n - i,
    {
        out.push(JsonValue::Str(ls[i].clone()));
        i += 1;
    }
    out
}

/// Filtering distributes over appending one element at the end.
pub proof fn lemma_filter_push<A>(s: Seq<A>, x: A, pred: spec_fn(A) -> bool)
    ensures
        s.push(x).filter(pred) == (if pred(x) {
            s.filter(pred).push(x)
        } else {
            s.filter(pred)
        }),
{
    reveal_with_fuel(Seq::filter, 2);
    assert(s.push(x).drop_last() =~= s);
    assert(s.push(x).last() == x);
    assert(s.push(x).len() > 0);
    if pred(x) {
        assert(s.push(x).filter(pred) =~= s.filter(pred).push(x));
    } else {
        assert(s.push(x).filter(pred) =~= s.filter(pred));
    }
}

// ---------------------------------------------------------------------------
// String escaping
// ---------------------------------------------------------------------------

/// The hexadecimal digit character for `n` (lower case).
pub open spec fn spec_hex_digit(n: nat) -> char {
    if n == 0 {
        '0'
    } else if n == 1 {
        '1'
    } else if n == 2 {
        '2'
    } else if n == 3 {
        '3'
    } else if n == 4 {
        '4'
    } else if n == 5 {
        '5'
    } else if n == 6 {
        '6'
    } else if n == 7 {
        '7'
    } else if n == 8 {
        '8'
    } else if n == 9 {
        '9'
    } else if n == 10 {
        'a'
    } else if n == 11 {
        'b'
    } else if n == 12 {
        'c'
    } else if n == 13 {
        'd'
    } else if n == 14 {
        'e'
    } else {
        'f'
    }
}

/// How one character appears inside a JSON string literal: quotes and
/// backslashes are escaped, control characters become short or `\u00XX`
/// escapes, everything else stands as itself.
pub open spec fn spec_escape_char(c: char) -> Seq<char> {
    if c == '"' {
        seq!['\\', '"']
    } else if c == '\\' {
        seq!['\\', '\\']
    } else if c == '\n' {
        seq!['\\', 'n']
    } else if c == '\r' {
        seq!['\\', 'r']
    } else if c == '\t' {
        seq!['\\', 't']
    } else if (c as u32) < 32 {
        seq!['\\', 'u', '0', '0', spec_hex_digit((c as u32 / 16) as nat), spec_hex_digit(
            (c as u32 % 16) as nat,
        )]
    } else {
        seq![c]
    }
}

/// The body of a JSON string literal for the character sequence `s`.
pub open spec fn spec_escape(s: Seq<char>) -> Seq<char>
    decreases s.len(),
{
    if s.len() == 0 {
        Seq::empty()
    } else {
        spec_escape_char(s[0]) + spec_escape(s.skip(1))
    }
}

/// A character that appears in a JSON string literal as itself.
pub open spec fn spec_plain_char(c: char) -> bool {
    c != '"' && c != '\\' && (c as u32) >= 32
}

/// Escaping leaves a string of plain characters unchanged.
pub proof fn lemma_escape_plain(s: Seq<char>)
    requires
        forall|i: int| 0 <= i < s.len() ==> spec_plain_char(#[trigger] s[i]),
    ensures
        spec_escape(s) == s,
    decreases s.len(),
{
    if s.len() == 0 {
        assert(spec_escape(s) =~= s);
    } else {
        assert(spec_plain_char(s[0]));
        assert(spec_escape_char(s[0]) =~= seq![s[0]]);
        assert(forall|i: int| 0 <= i < s.skip(1).len() ==> spec_plain_char(#[trigger] s.skip(1)[i]));
        lemma_escape_plain(s.skip(1));
        assert(spec_escape(s) =~= s);
    }
}

/// Escaping distributes over appending one character at the end.
pub proof fn lemma_escape_push(s: Seq<char>, c: char)
    ensures
        spec_escape(s.push(c)) == spec_escape(s) + spec_escape_char(c),
    decreases s.len(),
{
    if s.len() == 0 {
        assert(s.push(c)[0] == c);
        assert(s.push(c).skip(1) =~= Seq::<char>::empty());
        assert(spec_escape(s.push(c)) == spec_escape_char(c) + spec_escape(s.push(c).skip(1)));
        assert(spec_escape_char(c) + Seq::<char>::empty() =~= spec_escape_char(c));
        assert(spec_escape(s) + spec_escape_char(c) =~= spec_escape_char(c));
    } else {
        assert(s.push(c)[0] == s[0]);
        assert(s.push(c).skip(1) =~= s.skip(1).push(c));
        lemma_escape_push(s.skip(1), c);
        assert(spec_escape(s.push(c)) == spec_escape_char(s[0]) + spec_escape(s.push(c).skip(1)));
        assert(spec_escape(s.push(c).skip(1)) == spec_escape(s.skip(1)) + spec_escape_char(c));
        assert(spec_escape(s) == spec_escape_char(s[0]) + spec_escape(s.skip(1)));
        vstd::seq_lib::lemma_concat_associative::<char>(
            spec_escape_char(s[0]),
            spec_escape(s.skip(1)),
            spec_escape_char(c),
        );
    }
}

fn hex_digit(n: u32) -> (c: char)
    requires
        n < 16,
    ensures
        c == spec_hex_digit(n as nat),
{
    match n {
        0 => '0',
        1 => '1',
        2 => '2',
        3 => '3',
        4 => '4',
        5 => '5',
        6 => '6',
        7 => '7',
        8 => '8',
        9 => '9',
        10 => 'a',
        11 => 'b',
        12 => 'c',
        13 => 'd',
        14 => 'e',
        _ => 'f',
    }
}

fn push_escaped_char(out: &mut String, c: char)
    ensures
        final(out)@ == old(out)@ + spec_escape_char(c),
{
    if c == '"' {
        out.push('\\');
        out.push('"');
    } else if c == '\\' {
        out.push('\\');
        out.push('\\');
    } else if c == '\n' {
        out.push('\\');
        out.push('n');
    } else if c == '\r' {
        out.push('\\');
        out.push('r');
    } else if c == '\t' {
        out.push('\\');
        out.push('t');
    } else if (c as u32) < 32 {
        out.push('\\');
        out.push('u');
        out.push('0');
        out.push('0');
        out.push(hex_digit(c as u32 / 16));
        out.push(hex_digit(c as u32 % 16));
    } else {
        out.push(c);
    }
    assert(out@ =~= old(out)@ + spec_escape_char(c));
}

/// Append the escaped body of a JSON string literal for `s` to `out`.
fn push_escaped(out: &mut String, s: &str)
    ensures
        final(out)@ == old(out)@ + spec_escape(s@),
{
    let n = s.unicode_len();
    let mut i: usize = 0;
    while i < n
        invariant
            n == s@.len(),
            i <= n,
            out@ == old(out)@ + spec_escape(s@.take(i as int)),
        decreases n - i,
    {
        let c = s.get_char(i);
        push_escaped_char(out, c);
        proof {
            assert(s@.take(i + 1) =~= s@.take(i as int).push(s@[i as int]));
            lemma_escape_push(s@.take(i as int), s@[i as int]);
        }
        i += 1;
    }
    proof {
        assert(s@.take(n as int) =~= s@);
    }
}

// ---------------------------------------------------------------------------
// Number formatting
// ---------------------------------------------------------------------------

/// The decimal digit character for `n`.
pub open spec fn spec_digit_char(n: nat) -> char {
    if n == 0 {
        '0'
    } else if n == 1 {
        '1'
    } else if n == 2 {
        '2'
    } else if n == 3 {
        '3'
    } else if n == 4 {
        '4'
    } else if n == 5 {
        '5'
    } else if n == 6 {
        '6'
    } else if n == 7 {
        '7'
    } else if n == 8 {
        '8'
    } else {
        '9'
    }
}

/// The decimal digits of `n`, most significant first, with no sign and no
/// leading zero except for `n == 0` itself.
pub open spec fn spec_dec_digits(n: nat) -> Seq<char>
    decreases n,
{
    if n < 10 {
        seq![spec_digit_char(n)]
    } else {
        spec_dec_digits(n / 10).push(spec_digit_char(n % 10))
    }
}

/// The decimal text of the integer `i`, with a leading minus when negative.
pub open spec fn spec_int_text(i: int) -> Seq<char> {
    if i < 0 {
        seq!['-'] + spec_dec_digits((-i) as nat)
    } else {
        spec_dec_digits(i as nat)
    }
}

fn digit_char(d: u64) -> (c: char)
    requires
        d < 10,
    ensures
        c == spec_digit_char(d as nat),
{
    match d {
        0 => '0',
        1 => '1',
        2 => '2',
        3 => '3',
        4 => '4',
        5 => '5',
        6 => '6',
        7 => '7',
        8 => '8',
        _ => '9',
    }
}

fn u64_to_dec(n: u64) -> (r: String)
    ensures
        r@ == spec_dec_digits(n as nat),
    decreases n,
{
    if n < 10 {
        let mut s = String::new();
        s.push(digit_char(n));
        assert(s@ =~= spec_dec_digits(n as nat));
        s
    } else {
        let mut s = u64_to_dec(n / 10);
        s.push(digit_char(n % 10));
        s
    }
}

/// Format an `i64` in decimal, exactly as [`spec_int_text`] states.
pub fn i64_to_dec(n: i64) -> (r: String)
    ensures
        r@ == spec_int_text(n as int),
{
    if n >= 0 {
        u64_to_dec(n as u64)
    } else {
        let mag: u64 = ((-(n + 1)) as u64) + 1;
        assert(mag as nat == (-(n as int)) as nat);
        let mut s = String::new();
        s.push('-');
        let digits = u64_to_dec(mag);
        s.append(digits.as_str());
        assert(s@ =~= spec_int_text(n as int));
        s
    }
}

// ---------------------------------------------------------------------------
// Serialization
// ---------------------------------------------------------------------------

/// The exact text that this crate's serializer produces for `v`: compact
/// JSON, members and elements in order, no added whitespace.
pub open spec fn spec_json_text(v: JsonValue) -> Seq<char>
    decreases v, 0int,
{
    match v {
        JsonValue::Null => "null"@,
        JsonValue::Bool(b) => if b {
            "true"@
        } else {
            "false"@
        },
        JsonValue::Int(i) => spec_int_text(i as int),
        JsonValue::NumText(s) => s@,
        JsonValue::Str(s) => seq!['"'] + spec_escape(s@) + seq!['"'],
        JsonValue::Array(elems) => seq!['['] + spec_json_elems(elems@, 0) + seq![']'],
        JsonValue::Object(pairs) => seq!['{'] + spec_json_members(pairs@, 0) + seq!['}'],
    }
}

/// The comma-separated text of the array elements from index `i` on.
pub open spec fn spec_json_elems(elems: Seq<JsonValue>, i: int) -> Seq<char>
    decreases elems, elems.len() - i,
{
    if i < 0 || i >= elems.len() {
        Seq::empty()
    } else if i == elems.len() - 1 {
        spec_json_text(elems[i])
    } else {
        spec_json_text(elems[i]) + seq![','] + spec_json_elems(elems, i + 1)
    }
}

/// The comma-separated text of the object members from index `i` on.
pub open spec fn spec_json_members(pairs: Seq<(String, JsonValue)>, i: int) -> Seq<char>
    decreases pairs, pairs.len() - i,
{
    if i < 0 || i >= pairs.len() {
        Seq::empty()
    } else {
        let member = seq!['"'] + spec_escape(pairs[i].0@) + seq!['"', ':'] + spec_json_text(
            pairs[i].1,
        );
        if i == pairs.len() - 1 {
            member
        } else {
            member + seq![','] + spec_json_members(pairs, i + 1)
        }
    }
}

/// The text of the first `i` array elements, each followed by a comma.
pub open spec fn spec_elems_prefix(elems: Seq<JsonValue>, i: int) -> Seq<char>
    decreases i,
{
    if i <= 0 {
        Seq::empty()
    } else {
        spec_elems_prefix(elems, i - 1) + spec_json_text(elems[i - 1]) + seq![',']
    }
}

proof fn lemma_elems_split(elems: Seq<JsonValue>, i: int)
    requires
        0 <= i < elems.len(),
    ensures
        spec_json_elems(elems, 0) == spec_elems_prefix(elems, i) + spec_json_elems(elems, i),
    decreases i,
{
    if i == 0 {
        assert(spec_elems_prefix(elems, 0) + spec_json_elems(elems, 0) =~= spec_json_elems(
            elems,
            0,
        ));
    } else {
        lemma_elems_split(elems, i - 1);
        assert(spec_elems_prefix(elems, i) + spec_json_elems(elems, i) =~= spec_elems_prefix(
            elems,
            i - 1,
        ) + spec_json_elems(elems, i - 1));
    }
}

/// The text of one object member: quoted key, colon, value.
pub open spec fn spec_member_text(pair: (String, JsonValue)) -> Seq<char> {
    seq!['"'] + spec_escape(pair.0@) + seq!['"', ':'] + spec_json_text(pair.1)
}

/// The text of the first `i` object members, each followed by a comma.
pub open spec fn spec_members_prefix(pairs: Seq<(String, JsonValue)>, i: int) -> Seq<char>
    decreases i,
{
    if i <= 0 {
        Seq::empty()
    } else {
        spec_members_prefix(pairs, i - 1) + spec_member_text(pairs[i - 1]) + seq![',']
    }
}

proof fn lemma_members_split(pairs: Seq<(String, JsonValue)>, i: int)
    requires
        0 <= i < pairs.len(),
    ensures
        spec_json_members(pairs, 0) == spec_members_prefix(pairs, i) + spec_json_members(pairs, i),
    decreases i,
{
    if i == 0 {
        assert(spec_members_prefix(pairs, 0) + spec_json_members(pairs, 0) =~= spec_json_members(
            pairs,
            0,
        ));
    } else {
        lemma_members_split(pairs, i - 1);
        assert(spec_members_prefix(pairs, i) + spec_json_members(pairs, i) =~= spec_members_prefix(
            pairs,
            i - 1,
        ) + spec_json_members(pairs, i - 1));
    }
}

/// Serialize `v` to compact JSON text, exactly as [`spec_json_text`] states.
#[verifier::loop_isolation(false)]
pub fn to_json_text(v: &JsonValue) -> (r: String)
    ensures
        r@ == spec_json_text(*v),
    decreases *v, 1int,
{
    match v {
        JsonValue::Null => "null".to_owned(),
        JsonValue::Bool(b) => if *b {
            "true".to_owned()
        } else {
            "false".to_owned()
        },
        JsonValue::Int(i) => i64_to_dec(*i),
        JsonValue::NumText(s) => s.clone(),
        JsonValue::Str(s) => {
            let mut out = String::new();
            out.push('"');
            push_escaped(&mut out, s.as_str());
            out.push('"');
            assert(out@ =~= spec_json_text(*v));
            out
        },
        JsonValue::Array(elems) => {
            let mut out = String::new();
            out.push('[');
            let n = elems.len();
            let mut i: usize = 0;
            while i < n
                invariant
                    n == elems@.len(),
                    i <= n,
                    i < n ==> out@ == seq!['['] + spec_elems_prefix(elems@, i as int),
                    i == n ==> out@ == seq!['['] + spec_json_elems(elems@, 0),
                decreases n - i,
            {
                proof {
                    assert(decreases_to!(*v => *elems));
                    assert(decreases_to!(*elems => elems@[i as int]));
                }
                let piece = to_json_text(&elems[i]);
                out.append(piece.as_str());
                if i + 1 < n {
                    out.push(',');
                    assert(out@ =~= seq!['['] + spec_elems_prefix(elems@, i + 1));
                } else {
                    proof {
                        lemma_elems_split(elems@, i as int);
                    }
                    assert(out@ =~= seq!['['] + spec_json_elems(elems@, 0));
                }
                i += 1;
            }
            out.push(']');
            assert(out@ =~= spec_json_text(*v));
            out
        },
        JsonValue::Object(pairs) => {
            let mut out = String::new();
            out.push('{');
            let n = pairs.len();
            let mut i: usize = 0;
            while i < n
                invariant
                    n == pairs@.len(),
                    i <= n,
                    i < n ==> out@ == seq!['{'] + spec_members_prefix(pairs@, i as int),
                    i == n ==> out@ == seq!['{'] + spec_json_members(pairs@, 0),
                decreases n - i,
            {
                out.push('"');
                push_escaped(&mut out, pairs[i].0.as_str());
                out.push('"');
                out.push(':');
                proof {
                    assert(decreases_to!(*v => *pairs));
                    assert(decreases_to!(*pairs => pairs@[i as int]));
                    assert(decreases_to!(pairs@[i as int] => pairs@[i as int].1));
                }
                let piece = to_json_text(&pairs[i].1);
                out.append(piece.as_str());
                if i + 1 < n {
                    out.push(',');
                    assert(out@ =~= seq!['{'] + spec_members_prefix(pairs@, i + 1));
                } else {
                    proof {
                        lemma_members_split(pairs@, i as int);
                    }
                    assert(out@ =~= seq!['{'] + spec_json_members(pairs@, 0));
                }
                i += 1;
            }
            out.push('}');
            assert(out@ =~= spec_json_text(*v));
            out
        },
    }
}

} // verus!

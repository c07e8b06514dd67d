//! The JSON documents that the API exchanges, as a value tree.
//!
//! Every request body the library produces and every response body it
//! consumes is one such tree.  Parsing text into a tree is delegated to
//! `serde_json` behind a trusted wrapper; everything that walks, builds
//! or writes a tree is verified.

use vstd::prelude::*;

verus! {

/// One JSON value.
///
/// Numbers are kept in two forms: a number with an exact 64-bit integer
/// value is an `Int`; any other number (a fraction, an exponent, or a
/// magnitude beyond `i64`) keeps its literal text as received in a `Num`.
/// The library's own logic only ever reads integers; fractional values
/// ride through unchanged.
#[derive(Debug, PartialEq)]
pub enum Json {
    Null,
    Bool(bool),
    Int(i64),
    Num(String),
    Str(String),
    Arr(Vec<Json>),
    Obj(Vec<(String, Json)>),
}

/// The first value bound to `key` among `entries`, if any.
pub open spec fn spec_obj_get(entries: Seq<(String, Json)>, key: Seq<char>) -> Option<Json>
    decreases entries.len(),
{
    if entries.len() == 0 {
        None
    } else if entries[0].0@ == key {
        Some(entries[0].1)
    } else {
        spec_obj_get(entries.drop_first(), key)
    }
}

/// The value bound to `key` when `j` is an object that binds it.
pub open spec fn spec_get(j: Json, key: Seq<char>) -> Option<Json> {
    match j {
        Json::Obj(entries) => spec_obj_get(entries@, key),
        _ => None,
    }
}

/// Lookup scans left to right, so it resolves across a concatenation:
/// the left part wins when it binds the key at all.
pub broadcast proof fn lemma_obj_get_concat(
    s1: Seq<(String, Json)>,
    s2: Seq<(String, Json)>,
    key: Seq<char>,
)
    ensures
        #[trigger] spec_obj_get(s1 + s2, key) == match spec_obj_get(s1, key) {
            Some(v) => Some(v),
            None => spec_obj_get(s2, key),
        },
    decreases s1.len(),
{
    if s1.len() == 0 {
        assert(s1 + s2 =~= s2);
    } else {
        assert((s1 + s2).drop_first() =~= s1.drop_first() + s2);
        lemma_obj_get_concat(s1.drop_first(), s2, key);
        assert((s1 + s2)[0] == s1[0]);
    }
}

/// Lookup through one appended entry: the earlier entries win; the new
/// entry answers only for a key they do not bind.
pub broadcast proof fn lemma_obj_get_push(
    s: Seq<(String, Json)>,
    e: (String, Json),
    key: Seq<char>,
)
    ensures
        #[trigger] spec_obj_get(s.push(e), key) == match spec_obj_get(s, key) {
            Some(v) => Some(v),
            None => if e.0@ == key {
                Some(e.1)
            } else {
                None
            },
        },
{
    assert(s.push(e) =~= s + seq![e]);
    lemma_obj_get_concat(s, seq![e], key);
    lemma_obj_get_single(e, key);
}

/// Lookup in a one-entry object.
pub proof fn lemma_obj_get_single(e: (String, Json), key: Seq<char>)
    ensures
        spec_obj_get(seq![e], key) == if e.0@ == key {
            Some(e.1)
        } else {
            None::<Json>
        },
{
    assert(seq![e].len() == 1);
    assert(seq![e][0] == e);
    assert(seq![e].drop_first() =~= Seq::<(String, Json)>::empty());
    assert(spec_obj_get(Seq::<(String, Json)>::empty(), key) is None);
}

/// Lookup passes over an entry whose key differs.
pub proof fn lemma_obj_get_skip_one(entries: Seq<(String, Json)>, key: Seq<char>)
    requires
        entries.len() > 0,
        entries[0].0@ != key,
    ensures
        spec_obj_get(entries, key) == spec_obj_get(entries.drop_first(), key),
{
}

/// Relies on `<str as PartialEq>::eq`: equality of two string slices is
/// equality of their character sequences.
#[verifier::external_body]
pub(crate) fn str_eq(a: &str, b: &str) -> (r: bool)
    ensures
        r == (a@ == b@),
{
    a == b
}

/// What `serde_json` parses a given text into: a tree for a well-formed
/// JSON document, nothing otherwise.  The result is a function of the
/// text alone.
pub uninterp spec fn parsed_json(s: Seq<char>) -> Option<Json>;

/// Relies on `serde_json::from_str::<serde_json::Value>`: parses one JSON
/// document, or fails; the outcome depends on the text alone.
#[verifier::external_body]
pub fn parse_json(s: &str) -> (r: Option<Json>)
    ensures
        r == parsed_json(s@),
{
    match serde_json::from_str::<serde_json::Value>(s) {
        Ok(v) => Some(value_to_json(v)),
        Err(_) => None,
    }
}

/// The parsed tree type of `serde_json`, opaque to this library; values
/// of it only ride from the parse call into [`value_to_json`].
#[verifier::external_type_specification]
#[verifier::external_body]
pub struct ExValue(serde_json::Value);

/// Relies on `serde_json::Value` and `serde_json::Number::as_i64`: maps
/// each variant of the parsed tree onto the matching variant of [`Json`].
#[verifier::external_body]
fn value_to_json(v: serde_json::Value) -> Json {
    match v {
        serde_json::Value::Null => Json::Null,
        serde_json::Value::Bool(b) => Json::Bool(b),
        serde_json::Value::Number(n) => match n.as_i64() {
            Some(i) => Json::Int(i),
            None => Json::Num(n.to_string()),
        },
        serde_json::Value::String(s) => Json::Str(s),
        serde_json::Value::Array(a) => Json::Arr(a.into_iter().map(value_to_json).collect()),
        serde_json::Value::Object(m) => {
            Json::Obj(m.into_iter().map(|(k, w)| (k, value_to_json(w))).collect())
        },
    }
}

impl Json {
    /// Looks `key` up in an object; yields nothing on any other value.
    pub fn get<'a>(&'a self, key: &str) -> (r: Option<&'a Json>)
        ensures
            match r {
                Some(v) => spec_get(*self, key@) == Some(*v),
                None => spec_get(*self, key@) is None,
            },
    {
        match self {
            Json::Obj(entries) => {
                let n = entries.len();
                let mut i: usize = 0;
                assert(entries@.skip(0) =~= entries@);
                while i < n
                    invariant
                        i <= n,
                        n == entries@.len(),
                        spec_get(*self, key@) == spec_obj_get(entries@, key@),
                        spec_obj_get(entries@, key@) == spec_obj_get(entries@.skip(i as int), key@),
                    decreases n - i,
                {
                    if str_eq(entries[i].0.as_str(), key) {
                        assert(entries@.skip(i as int)[0] == entries@[i as int]);
                        assert(spec_obj_get(entries@.skip(i as int), key@)
                            == Some(entries@[i as int].1));
                        return Some(&entries[i].1);
                    }
                    assert(entries@.skip(i as int).drop_first() =~= entries@.skip(i as int + 1));
                    i = i + 1;
                }
                assert(entries@.skip(n as int) =~= Seq::empty());
                None
            },
            _ => None,
        }
    }
}

/// Relies on `String::push`: appends exactly one character.
#[verifier::external_body]
pub(crate) fn push_char(s: &mut String, c: char)
    ensures
        final(s)@ == old(s)@.push(c),
{
    s.push(c);
}

/// The decimal digit `d` as a character; `d` must be below ten.
pub open spec fn spec_digit(d: int) -> char {
    ((48 + d) as u8) as char
}

/// The decimal text of `n`, without sign.
pub open spec fn spec_nat_text(n: nat) -> Seq<char>
    decreases n,
{
    if n < 10 {
        seq![spec_digit(n as int)]
    } else {
        spec_nat_text(n / 10).push(spec_digit((n % 10) as int))
    }
}

/// The decimal text of `i`, with a leading minus sign when negative.
pub open spec fn spec_int_text(i: int) -> Seq<char> {
    if i < 0 {
        seq!['-'] + spec_nat_text((-i) as nat)
    } else {
        spec_nat_text(i as nat)
    }
}

/// As `spec_nat_text`, except that zero yields no digits at all; the
/// shape the digit-collecting loop below maintains.
pub open spec fn spec_nat_text0(n: nat) -> Seq<char> {
    if n == 0 {
        Seq::empty()
    } else {
        spec_nat_text(n)
    }
}

proof fn lemma_nat_text_step(n: nat)
    requires
        n >= 1,
    ensures
        spec_nat_text(n) == spec_nat_text0(n / 10).push(spec_digit((n % 10) as int)),
{
    if n < 10 {
        assert(spec_nat_text(n) =~= spec_nat_text0(n / 10).push(spec_digit((n % 10) as int)));
    }
}

/// Appends the decimal text of `n` to `out`.
fn push_u64_text(n: u64, out: &mut String)
    ensures
        final(out)@ == old(out)@ + spec_nat_text(n as nat),
{
    let mut digits: Vec<char> = Vec::new();
    let mut m: u64 = n;
    assert(n != 0 ==> spec_nat_text0(n as nat) + digits@.reverse() =~= spec_nat_text(n as nat));
    loop
        invariant_except_break
            m == 0 ==> digits@.len() == 0 && n == 0,
            m != 0 ==> spec_nat_text(n as nat) == spec_nat_text0(m as nat) + digits@.reverse(),
        ensures
            spec_nat_text(n as nat) == digits@.reverse(),
        decreases m,
    {
        let d: u8 = (m % 10) as u8;
        let c: char = (48 + d) as char;
        proof {
            if m == 0 {
                assert(digits@.push(c).reverse() =~= seq![c]);
                assert(spec_nat_text(n as nat) == seq![spec_digit(0)]);
            } else {
                lemma_nat_text_step(m as nat);
                assert(digits@.push(c).reverse() =~= seq![c] + digits@.reverse());
                assert(spec_nat_text0((m / 10) as nat) + digits@.push(c).reverse()
                    =~= spec_nat_text0(m as nat) + digits@.reverse());
            }
        }
        digits.push(c);
        m = m / 10;
        if m == 0 {
            assert(Seq::<char>::empty() + digits@.reverse() =~= digits@.reverse());
            break ;
        }
    }
    let ghost out0: Seq<char> = out@;
    let mut i: usize = digits.len();
    assert(digits@.subrange(i as int, digits@.len() as int).reverse() =~= Seq::empty());
    while i > 0
        invariant
            i <= digits@.len(),
            out@ == out0 + digits@.subrange(i as int, digits@.len() as int).reverse(),
        decreases i,
    {
        i = i - 1;
        push_char(out, digits[i]);
        proof {
            assert(digits@.subrange(i as int, digits@.len() as int).reverse() =~= digits@.subrange(
                i as int + 1,
                digits@.len() as int,
            ).reverse().push(digits@[i as int]));
        }
    }
    assert(digits@.subrange(0, digits@.len() as int) =~= digits@);
}

/// Appends the decimal text of `v`, sign included, to `out`.
pub(crate) fn push_i64_text(v: i64, out: &mut String)
    ensures
        final(out)@ == old(out)@ + spec_int_text(v as int),
{
    if v >= 0 {
        push_u64_text(v as u64, out);
    } else {
        push_char(out, '-');
        let mag: u64 = if v == i64::MIN {
            9223372036854775808u64
        } else {
            (-v) as u64
        };
        let ghost mid: Seq<char> = out@;
        push_u64_text(mag, out);
        assert(out@ =~= old(out)@ + spec_int_text(v as int));
    }
}

/// How one character is written inside a JSON string literal.
pub open spec fn spec_escape_char(c: char) -> Seq<char> {
    if c == '"' {
        seq!['\\', '"']
    } else if c == '\\' {
        seq!['\\', '\\']
    } else if c == '\n' {
        seq!['\\', 'n']
    } else if c == '\r' {
        seq!['\\', 'r']
    } else if c == '\t' {
        seq!['\\', 't']
    } else if (c as int) < 32 {
        seq!['\\', 'u', '0', '0', spec_hex_digit(c as int / 16), spec_hex_digit(c as int % 16)]
    } else {
        seq![c]
    }
}

/// The hexadecimal digit `d` as a lower-case character; `d` is below sixteen.
pub open spec fn spec_hex_digit(d: int) -> char {
    if d < 10 {
        ((48 + d) as u8) as char
    } else {
        ((87 + d) as u8) as char
    }
}

/// The body of a JSON string literal holding the characters `s`.
pub open spec fn spec_escape(s: Seq<char>) -> Seq<char>
    decreases s.len(),
{
    if s.len() == 0 {
        Seq::empty()
    } else {
        spec_escape_char(s[0]) + spec_escape(s.drop_first())
    }
}

proof fn lemma_escape_take_step(s: Seq<char>, i: int)
    requires
        0 <= i < s.len(),
    ensures
        spec_escape(s.take(i + 1)) == spec_escape(s.take(i)) + spec_escape_char(s[i]),
    decreases i,
{
    if i == 0 {
        assert(s.take(1) =~= seq![s[0]]);
        assert(s.take(1).drop_first() =~= Seq::empty());
        assert(s.take(0) =~= Seq::empty());
        assert(spec_escape(s.take(1)) =~= spec_escape(s.take(0)) + spec_escape_char(s[0]));
    } else {
        lemma_escape_take_step(s.drop_first(), i - 1);
        assert(s.take(i + 1).drop_first() =~= s.drop_first().take(i));
        assert(s.take(i).drop_first() =~= s.drop_first().take(i - 1));
        assert(s.take(i + 1)[0] == s[0]);
        assert(s.take(i)[0] == s[0]);
        assert(spec_escape(s.take(i + 1)) =~= spec_escape(s.take(i)) + spec_escape_char(s[i]));
    }
}

/// Appends the escaped body of a string literal holding `s` to `out`.
fn push_escaped(s: &str, out: &mut String)
    ensures
        final(out)@ == old(out)@ + spec_escape(s@),
{
    let ghost out0: Seq<char> = out@;
    let n = s.unicode_len();
    let mut i: usize = 0;
    assert(s@.take(0) =~= Seq::empty());
    while i < n
        invariant
            i <= n,
            n == s@.len(),
            out@ == out0 + spec_escape(s@.take(i as int)),
        decreases n - i,
    {
        let c = s.get_char(i);
        if c == '"' {
            push_char(out, '\\');
            push_char(out, '"');
        } else if c == '\\' {
            push_char(out, '\\');
            push_char(out, '\\');
        } else if c == '\n' {
            push_char(out, '\\');
            push_char(out, 'n');
        } else if c == '\r' {
            push_char(out, '\\');
            push_char(out, 'r');
        } else if c == '\t' {
            push_char(out, '\\');
            push_char(out, 't');
        } else if (c as u32) < 32 {
            let code: u32 = c as u32;
            let hi: u8 = (code / 16) as u8;
            let lo: u8 = (code % 16) as u8;
            let hic: char = (48 + hi) as char;
            let loc: char = if lo < 10 {
                (48 + lo) as char
            } else {
                (87 + lo) as char
            };
            push_char(out, '\\');
            push_char(out, 'u');
            push_char(out, '0');
            push_char(out, '0');
            push_char(out, hic);
            push_char(out, loc);
        } else {
            push_char(out, c);
        }
        proof {
            lemma_escape_take_step(s@, i as int);
            assert(out@ =~= out0 + spec_escape(s@.take(i as int + 1)));
        }
        i = i + 1;
    }
    assert(s@.take(n as int) =~= s@);
}

/// The text of one JSON value, as this library writes it: no spacing,
/// object entries and array elements in their stored order.
pub open spec fn spec_json_text(j: Json) -> Seq<char>
    decreases j,
{
    match j {
        Json::Null => "null"@,
        Json::Bool(b) => if b {
            "true"@
        } else {
            "false"@
        },
        Json::Int(i) => spec_int_text(i as int),
        Json::Num(s) => s@,
        Json::Str(s) => seq!['"'] + spec_escape(s@) + seq!['"'],
        Json::Arr(elems) => seq!['['] + spec_elems_text(elems@) + seq![']'],
        Json::Obj(entries) => seq!['{'] + spec_entries_text(entries@) + seq!['}'],
    }
}

/// Array elements joined by commas.
pub open spec fn spec_elems_text(s: Seq<Json>) -> Seq<char>
    decreases s, 1int,
{
    if s.len() == 0 {
        Seq::empty()
    } else {
        spec_json_text(s[0]) + spec_elems_rest(s.drop_first())
    }
}

/// Array elements each preceded by a comma.
pub open spec fn spec_elems_rest(s: Seq<Json>) -> Seq<char>
    decreases s, 0int,
{
    if s.len() == 0 {
        Seq::empty()
    } else {
        seq![','] + spec_json_text(s[0]) + spec_elems_rest(s.drop_first())
    }
}

/// One object entry: quoted escaped key, a colon, the value.
pub open spec fn spec_entry_text(e: (String, Json)) -> Seq<char>
    decreases e,
{
    seq!['"'] + spec_escape(e.0@) + seq!['"', ':'] + spec_json_text(e.1)
}

/// Object entries joined by commas.
pub open spec fn spec_entries_text(s: Seq<(String, Json)>) -> Seq<char>
    decreases s, 1int,
{
    if s.len() == 0 {
        Seq::empty()
    } else {
        spec_entry_text(s[0]) + spec_entries_rest(s.drop_first())
    }
}

/// Object entries each preceded by a comma.
pub open spec fn spec_entries_rest(s: Seq<(String, Json)>) -> Seq<char>
    decreases s, 0int,
{
    if s.len() == 0 {
        Seq::empty()
    } else {
        seq![','] + spec_entry_text(s[0]) + spec_entries_rest(s.drop_first())
    }
}

proof fn lemma_elems_rest_take_step(s: Seq<Json>, i: int)
    requires
        0 <= i < s.len(),
    ensures
        spec_elems_rest(s.take(i + 1)) == spec_elems_rest(s.take(i)) + seq![','] + spec_json_text(
            s[i],
        ),
    decreases i,
{
    if i == 0 {
        assert(s.take(1) =~= seq![s[0]]);
        assert(s.take(1).drop_first() =~= Seq::empty());
        assert(s.take(0) =~= Seq::empty());
        assert(spec_elems_rest(s.take(1)) =~= spec_elems_rest(s.take(0)) + seq![',']
            + spec_json_text(s[0]));
    } else {
        lemma_elems_rest_take_step(s.drop_first(), i - 1);
        assert(s.take(i + 1).drop_first() =~= s.drop_first().take(i));
        assert(s.take(i).drop_first() =~= s.drop_first().take(i - 1));
        assert(s.take(i + 1)[0] == s[0]);
        assert(s.take(i)[0] == s[0]);
        assert(spec_elems_rest(s.take(i + 1)) =~= spec_elems_rest(s.take(i)) + seq![',']
            + spec_json_text(s[i]));
    }
}

proof fn lemma_entries_rest_take_step(s: Seq<(String, Json)>, i: int)
    requires
        0 <= i < s.len(),
    ensures
        spec_entries_rest(s.take(i + 1)) == spec_entries_rest(s.take(i)) + seq![',']
            + spec_entry_text(s[i]),
    decreases i,
{
    if i == 0 {
        assert(s.take(1) =~= seq![s[0]]);
        assert(s.take(1).drop_first() =~= Seq::empty());
        assert(s.take(0) =~= Seq::empty());
        assert(spec_entries_rest(s.take(1)) =~= spec_entries_rest(s.take(0)) + seq![',']
            + spec_entry_text(s[0]));
    } else {
        lemma_entries_rest_take_step(s.drop_first(), i - 1);
        assert(s.take(i + 1).drop_first() =~= s.drop_first().take(i));
        assert(s.take(i).drop_first() =~= s.drop_first().take(i - 1));
        assert(s.take(i + 1)[0] == s[0]);
        assert(s.take(i)[0] == s[0]);
        assert(spec_entries_rest(s.take(i + 1)) =~= spec_entries_rest(s.take(i)) + seq![',']
            + spec_entry_text(s[i]));
    }
}

/// Appends the text of `*j` to `out`.
pub fn write_json(j: &Json, out: &mut String)
    ensures
        final(out)@ == old(out)@ + spec_json_text(*j),
    decreases *j,
{
    match j {
        Json::Null => {
            out.append("null");
        },
        Json::Bool(b) => {
            if *b {
                out.append("true");
            } else {
                out.append("false");
            }
        },
        Json::Int(i) => {
            push_i64_text(*i, out);
        },
        Json::Num(s) => {
            out.append(s.as_str());
        },
        Json::Str(s) => {
            push_char(out, '"');
            push_escaped(s.as_str(), out);
            push_char(out, '"');
            assert(out@ =~= old(out)@ + spec_json_text(*j));
        },
        Json::Arr(elems) => {
            push_char(out, '[');
            write_elems(elems, out);
            push_char(out, ']');
            assert(out@ =~= old(out)@ + spec_json_text(*j));
        },
        Json::Obj(entries) => {
            push_char(out, '{');
            write_entries(entries, out);
            push_char(out, '}');
            assert(out@ =~= old(out)@ + spec_json_text(*j));
        },
    }
}

/// Appends the comma-joined texts of the elements of `*v` to `out`.
fn write_elems(v: &Vec<Json>, out: &mut String)
    ensures
        final(out)@ == old(out)@ + spec_elems_text(v@),
    decreases v@,
{
    let ghost out0: Seq<char> = out@;
    let n = v.len();
    if n == 0 {
        assert(out@ =~= out0 + spec_elems_text(v@));
        return ;
    }
    write_json(&v[0], out);
    let ghost rest: Seq<Json> = v@.drop_first();
    let mut i: usize = 1;
    assert(rest.take(0) =~= Seq::<Json>::empty());
    assert(out@ =~= out0 + spec_json_text(v@[0]) + spec_elems_rest(rest.take(0)));
    while i < n
        invariant
            1 <= i <= n,
            n == v@.len(),
            rest == v@.drop_first(),
            out@ == out0 + spec_json_text(v@[0]) + spec_elems_rest(rest.take(i - 1)),
        decreases n - i,
    {
        push_char(out, ',');
        write_json(&v[i], out);
        proof {
            lemma_elems_rest_take_step(rest, i - 1);
            assert(rest[i - 1] == v@[i as int]);
            assert(out@ =~= out0 + spec_json_text(v@[0]) + spec_elems_rest(rest.take(i as int)));
        }
        i = i + 1;
    }
    assert(rest.take(n - 1) =~= rest);
    assert(out@ =~= out0 + spec_elems_text(v@));
}

/// Appends the comma-joined texts of the entries of `*v` to `out`.
fn write_entries(v: &Vec<(String, Json)>, out: &mut String)
    ensures
        final(out)@ == old(out)@ + spec_entries_text(v@),
    decreases v@,
{
    let ghost out0: Seq<char> = out@;
    let n = v.len();
    if n == 0 {
        assert(out@ =~= out0 + spec_entries_text(v@));
        return ;
    }
    write_entry(&v[0], out);
    let ghost rest: Seq<(String, Json)> = v@.drop_first();
    let mut i: usize = 1;
    assert(rest.take(0) =~= Seq::<(String, Json)>::empty());
    assert(out@ =~= out0 + spec_entry_text(v@[0]) + spec_entries_rest(rest.take(0)));
    while i < n
        invariant
            1 <= i <= n,
            n == v@.len(),
            rest == v@.drop_first(),
            out@ == out0 + spec_entry_text(v@[0]) + spec_entries_rest(rest.take(i - 1)),
        decreases n - i,
    {
        push_char(out, ',');
        write_entry(&v[i], out);
        proof {
            lemma_entries_rest_take_step(rest, i - 1);
            assert(rest[i - 1] == v@[i as int]);
            assert(out@ =~= out0 + spec_entry_text(v@[0]) + spec_entries_rest(rest.take(i as int)));
        }
        i = i + 1;
    }
    assert(rest.take(n - 1) =~= rest);
    assert(out@ =~= out0 + spec_entries_text(v@));
}

/// Appends one object entry, `"key":value`, to `out`.
fn write_entry(e: &(String, Json), out: &mut String)
    ensures
        final(out)@ == old(out)@ + spec_entry_text(*e),
    decreases *e,
{
    push_char(out, '"');
    push_escaped(e.0.as_str(), out);
    push_char(out, '"');
    push_char(out, ':');
    write_json(&e.1, out);
    assert(out@ =~= old(out)@ + spec_entry_text(*e));
}

/// The string held by `j`, when `j` is a string.
pub open spec fn spec_as_str(j: Json) -> Option<String> {
    match j {
        Json::Str(s) => Some(s),
        _ => None,
    }
}

/// The integer held by `j`, when `j` is an integer number.
pub open spec fn spec_as_int(j: Json) -> Option<i64> {
    match j {
        Json::Int(i) => Some(i),
        _ => None,
    }
}

/// A required string field: the key must be bound to a string.
pub open spec fn spec_req_str(j: Json, key: Seq<char>) -> Option<String> {
    match spec_get(j, key) {
        Some(v) => spec_as_str(v),
        None => None,
    }
}

/// An optional string field: an absent key and a null value both stand
/// for no value; anything else must be a string.
pub open spec fn spec_opt_str(j: Json, key: Seq<char>) -> Option<Option<String>> {
    match spec_get(j, key) {
        None => Some(None),
        Some(Json::Null) => Some(None),
        Some(Json::Str(s)) => Some(Some(s)),
        Some(_) => None,
    }
}

/// A required 32-bit signed integer field.
pub open spec fn spec_req_i32(j: Json, key: Seq<char>) -> Option<i32> {
    match spec_get(j, key) {
        Some(Json::Int(i)) => if i32::MIN <= i <= i32::MAX {
            Some(i as i32)
        } else {
            None
        },
        _ => None,
    }
}

/// An optional 32-bit signed integer field.
pub open spec fn spec_opt_i32(j: Json, key: Seq<char>) -> Option<Option<i32>> {
    match spec_get(j, key) {
        None => Some(None),
        Some(Json::Null) => Some(None),
        Some(Json::Int(i)) => if i32::MIN <= i <= i32::MAX {
            Some(Some(i as i32))
        } else {
            None
        },
        Some(_) => None,
    }
}

/// A required 32-bit unsigned integer field.
pub open spec fn spec_req_u32(j: Json, key: Seq<char>) -> Option<u32> {
    match spec_get(j, key) {
        Some(Json::Int(i)) => if 0 <= i <= u32::MAX {
            Some(i as u32)
        } else {
            None
        },
        _ => None,
    }
}

/// An optional 32-bit unsigned integer field.
pub open spec fn spec_opt_u32(j: Json, key: Seq<char>) -> Option<Option<u32>> {
    match spec_get(j, key) {
        None => Some(None),
        Some(Json::Null) => Some(None),
        Some(Json::Int(i)) => if 0 <= i <= u32::MAX {
            Some(Some(i as u32))
        } else {
            None
        },
        Some(_) => None,
    }
}

/// A required boolean field.
pub open spec fn spec_req_bool(j: Json, key: Seq<char>) -> Option<bool> {
    match spec_get(j, key) {
        Some(Json::Bool(b)) => Some(b),
        _ => None,
    }
}

/// The elements bound to `key`, when it is bound to an array.
pub open spec fn spec_req_arr(j: Json, key: Seq<char>) -> Option<Seq<Json>> {
    match spec_get(j, key) {
        Some(Json::Arr(elems)) => Some(elems@),
        _ => None,
    }
}

/// An optional array field.
pub open spec fn spec_opt_arr(j: Json, key: Seq<char>) -> Option<Option<Seq<Json>>> {
    match spec_get(j, key) {
        None => Some(None),
        Some(Json::Null) => Some(None),
        Some(Json::Arr(elems)) => Some(Some(elems@)),
        Some(_) => None,
    }
}

impl Json {
    /// A required string field of an object.
    pub fn req_str(&self, key: &str) -> (r: Option<String>)
        ensures
            r == spec_req_str(*self, key@),
    {
        match self.get(key) {
            Some(Json::Str(s)) => Some(s.clone()),
            _ => None,
        }
    }

    /// An optional string field; the outer `None` reports a value of the
    /// wrong shape.
    pub fn opt_str(&self, key: &str) -> (r: Option<Option<String>>)
        ensures
            r == spec_opt_str(*self, key@),
    {
        match self.get(key) {
            None => Some(None),
            Some(Json::Null) => Some(None),
            Some(Json::Str(s)) => Some(Some(s.clone())),
            Some(_) => None,
        }
    }

    /// A required 32-bit signed integer field.
    pub fn req_i32(&self, key: &str) -> (r: Option<i32>)
        ensures
            r == spec_req_i32(*self, key@),
    {
        match self.get(key) {
            Some(Json::Int(i)) => {
                let i = *i;
                if i32::MIN as i64 <= i && i <= i32::MAX as i64 {
                    Some(i as i32)
                } else {
                    None
                }
            },
            _ => None,
        }
    }

    /// An optional 32-bit signed integer field.
    pub fn opt_i32(&self, key: &str) -> (r: Option<Option<i32>>)
        ensures
            r == spec_opt_i32(*self, key@),
    {
        match self.get(key) {
            None => Some(None),
            Some(Json::Null) => Some(None),
            Some(Json::Int(i)) => {
                let i = *i;
                if i32::MIN as i64 <= i && i <= i32::MAX as i64 {
                    Some(Some(i as i32))
                } else {
                    None
                }
            },
            Some(_) => None,
        }
    }

    /// A required 32-bit unsigned integer field.
    pub fn req_u32(&self, key: &str) -> (r: Option<u32>)
        ensures
            r == spec_req_u32(*self, key@),
    {
        match self.get(key) {
            Some(Json::Int(i)) => {
                let i = *i;
                if 0 <= i && i <= u32::MAX as i64 {
                    Some(i as u32)
                } else {
                    None
                }
            },
            _ => None,
        }
    }

    /// An optional 32-bit unsigned integer field.
    pub fn opt_u32(&self, key: &str) -> (r: Option<Option<u32>>)
        ensures
            r == spec_opt_u32(*self, key@),
    {
        match self.get(key) {
            None => Some(None),
            Some(Json::Null) => Some(None),
            Some(Json::Int(i)) => {
                let i = *i;
                if 0 <= i && i <= u32::MAX as i64 {
                    Some(Some(i as u32))
                } else {
                    None
                }
            },
            Some(_) => None,
        }
    }

    /// A required boolean field.
    pub fn req_bool(&self, key: &str) -> (r: Option<bool>)
        ensures
            r == spec_req_bool(*self, key@),
    {
        match self.get(key) {
            Some(Json::Bool(b)) => Some(*b),
            _ => None,
        }
    }

    /// A required array field, borrowed.
    pub fn req_arr<'a>(&'a self, key: &str) -> (r: Option<&'a Vec<Json>>)
        ensures
            match r {
                Some(v) => spec_req_arr(*self, key@) == Some(v@),
                None => spec_req_arr(*self, key@) is None,
            },
    {
        match self.get(key) {
            Some(Json::Arr(elems)) => Some(elems),
            _ => None,
        }
    }

    /// An optional array field, borrowed; the outer `None` reports a
    /// value of the wrong shape.
    pub fn opt_arr<'a>(&'a self, key: &str) -> (r: Option<Option<&'a Vec<Json>>>)
        ensures
            match r {
                Some(Some(v)) => spec_opt_arr(*self, key@) == Some(Some(v@)),
                Some(None) => spec_opt_arr(*self, key@) == Some(Option::<Seq<Json>>::None),
                None => spec_opt_arr(*self, key@) is None,
            },
    {
        match self.get(key) {
            None => Some(None),
            Some(Json::Null) => Some(None),
            Some(Json::Arr(elems)) => Some(Some(elems)),
            Some(_) => None,
        }
    }
}

/// Whether `v` is the array of exactly the strings `ss`, in order.
pub open spec fn spec_str_arr(v: Json, ss: Seq<String>) -> bool {
    match v {
        Json::Arr(elems) => elems@.len() == ss.len() && forall|k: int|
            0 <= k < ss.len() ==> #[trigger] elems@[k] == Json::Str(ss[k]),
        _ => false,
    }
}

/// Builds the array of the strings `ss`, in order.
pub(crate) fn str_arr(ss: &Vec<String>) -> (r: Json)
    ensures
        spec_str_arr(r, ss@),
{
    let mut elems: Vec<Json> = Vec::new();
    let n = ss.len();
    let mut i: usize = 0;
    while i < n
        invariant
            i <= n,
            n == ss@.len(),
            elems@.len() == i,
            forall|k: int| 0 <= k < i ==> #[trigger] elems@[k] == Json::Str(ss@[k]),
        decreases n - i,
    {
        elems.push(Json::Str(ss[i].clone()));
        i = i + 1;
    }
    Json::Arr(elems)
}

/// Whether `v` is a string whose characters are `text`.
pub open spec fn spec_bound_str(j: Json, key: Seq<char>, text: Seq<char>) -> bool {
    match spec_get(j, key) {
        Some(Json::Str(s)) => s@ == text,
        _ => false,
    }
}

/// The decimal text of a number value: an integer's canonical text, a
/// non-integer's literal as received.
pub open spec fn spec_num_text(j: Json) -> Option<Seq<char>> {
    match j {
        Json::Int(i) => Some(spec_int_text(i as int)),
        Json::Num(s) => Some(s@),
        _ => None,
    }
}

impl Json {
    /// The decimal text of this value, when it is a number.
    pub fn num_text(&self) -> (r: Option<String>)
        ensures
            match r {
                Some(s) => spec_num_text(*self) == Some(s@),
                None => spec_num_text(*self) is None,
            },
    {
        match self {
            Json::Int(i) => {
                let mut out = String::new();
                push_i64_text(*i, &mut out);
                assert(out@ =~= spec_int_text(*i as int));
                Some(out)
            },
            Json::Num(s) => Some(s.clone()),
            _ => None,
        }
    }
}

impl Json {
    /// The text of this value, exactly [`spec_json_text`].
    pub fn to_text(&self) -> (r: String)
        ensures
            r@ == spec_json_text(*self),
    {
        let mut out = String::new();
        write_json(self, &mut out);
        assert(out@ =~= spec_json_text(*self));
        out
    }
}

} // verus!

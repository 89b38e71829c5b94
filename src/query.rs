use vstd::prelude::*;

use crate::error::ApiError;
use crate::text::{keys_unique, TextParam};

verus! {

// A query-parameter list is an `arrayvec::ArrayVec` of at most two pairs, the
// most that any network operation sends.

#[verifier::external_type_specification]
#[verifier::external_body]
#[verifier::reject_recursive_types(T)]
pub struct ExArrayVec<T, const CAP: usize>(arrayvec::ArrayVec<T, CAP>);

/// The pairs held by a query-parameter list, in order.
pub uninterp spec fn pairs_of(a: arrayvec::ArrayVec<(String, String), 2>) -> Seq<(String, String)>;

/// The lower-case hexadecimal digit of `n`, for `n < 16`.
pub open spec fn hex_digit(n: int) -> char {
    seq!['0', '1', '2', '3', '4', '5', '6', '7', '8', '9', 'a', 'b', 'c', 'd', 'e', 'f'][n]
}

/// How one character is written inside a compact JSON string: quote and
/// backslash escaped, the five control characters with short escapes as such,
/// other control characters as `\u00` and two hexadecimal digits, and every
/// other character as it is.
pub open spec fn json_escaped(c: char) -> Seq<char> {
    if c == '"' {
        seq!['\\', '"']
    } else if c == '\\' {
        seq!['\\', '\\']
    } else if c == '\u{8}' {
        seq!['\\', 'b']
    } else if c == '\t' {
        seq!['\\', 't']
    } else if c == '\n' {
        seq!['\\', 'n']
    } else if c == '\u{c}' {
        seq!['\\', 'f']
    } else if c == '\r' {
        seq!['\\', 'r']
    } else if (c as u32) < 0x20 {
        seq!['\\', 'u', '0', '0', hex_digit((c as u32) as int / 16), hex_digit((c as u32) as int % 16)]
    } else {
        seq![c]
    }
}

/// A JSON string literal holding `s`.
pub open spec fn json_string(s: Seq<char>) -> Seq<char> {
    seq!['"'] + s.map_values(|c: char| json_escaped(c)).flatten() + seq!['"']
}

/// The parts, in order, with a comma between each two.
pub open spec fn comma_joined(parts: Seq<Seq<char>>) -> Seq<char>
    decreases parts.len(),
{
    if parts.len() == 0 {
        Seq::empty()
    } else if parts.len() == 1 {
        parts[0]
    } else {
        comma_joined(parts.drop_last()) + seq![','] + parts.last()
    }
}

/// A compact JSON array of strings.
pub open spec fn json_string_array(v: Seq<Seq<char>>) -> Seq<char> {
    seq!['['] + comma_joined(v.map_values(|s: Seq<char>| json_string(s))) + seq![']']
}

/// The compact JSON text of an object whose members are the given entries,
/// in the given order, each value being an array of strings.
pub open spec fn json_object_text(entries: Seq<(Seq<char>, Seq<Seq<char>>)>) -> Seq<char> {
    seq!['{'] + comma_joined(
        entries.map_values(
            |e: (Seq<char>, Seq<Seq<char>>)| json_string(e.0) + seq![':'] + json_string_array(e.1),
        ),
    ) + seq!['}']
}

/// A query-parameter list seen as key and value texts.
pub open spec fn pairs_view(a: arrayvec::ArrayVec<(String, String), 2>) -> Seq<(Seq<char>, Seq<char>)> {
    pairs_of(a).map_values(|p: (String, String)| (p.0@, p.1@))
}

/// The texts of a sequence of text values.
pub open spec fn texts<T: TextParam>(v: Seq<T>) -> Seq<Seq<char>> {
    v.map_values(|t: T| t.text())
}

/// A filter map seen as key texts, each with the texts of its values.
pub open spec fn filter_entries<T: TextParam>(f: Seq<(T, Vec<T>)>) -> Seq<(Seq<char>, Seq<Seq<char>>)> {
    f.map_values(|e: (T, Vec<T>)| (e.0.text(), texts(e.1@)))
}

/// The wire text of a boolean flag.
pub open spec fn bool_text(b: bool) -> Seq<char> {
    if b {
        "true"@
    } else {
        "false"@
    }
}

/// Relies on `arrayvec::ArrayVec::new`: a new list holds no pairs.
#[verifier::external_body]
pub(crate) fn empty_pairs() -> (r: arrayvec::ArrayVec<(String, String), 2>)
    ensures
        pairs_of(r) == Seq::<(String, String)>::empty(),
{
    arrayvec::ArrayVec::new()
}

/// Relies on `arrayvec::ArrayVec::push`: the pair is appended at the end; the
/// call panics on a full list, which `requires` rules out.
#[verifier::external_body]
pub(crate) fn push_pair(a: &mut arrayvec::ArrayVec<(String, String), 2>, p: (String, String))
    requires
        pairs_of(*old(a)).len() < 2,
    ensures
        pairs_of(*final(a)) == pairs_of(*old(a)).push(p),
{
    a.push(p)
}

/// Relies on serde's `Serializer::collect_map` driving `serde_json`'s compact
/// serializer: the entries are written as one JSON object, in the order given,
/// keys and values escaped by `serde_json`'s table. The bytes are taken as text by
/// `String::from_utf8`. Writing string keys and arrays of strings into a
/// `Vec<u8>` cannot fail, and `serde_json` writes only UTF-8, so the call
/// always succeeds.
#[verifier::external_body]
fn filters_json(entries: &Vec<(String, Vec<String>)>) -> (r: Result<String, serde_json::Error>)
    ensures
        r is Ok,
        r matches Ok(s) ==> s@ == json_object_text(filter_entries(entries@)),
{
    let mut buf: Vec<u8> = Vec::new();
    let mut ser = serde_json::Serializer::new(&mut buf);
    serde::Serializer::collect_map(&mut ser, entries.iter().map(|e| (&e.0, &e.1)))?;
    String::from_utf8(buf).map_err(serde::ser::Error::custom)
}

/// Owned copies of a sequence of text values, in order.
pub fn owned_texts<T: TextParam>(v: &Vec<T>) -> (r: Vec<String>)
    ensures
        texts(r@) == texts(v@),
{
    let mut r: Vec<String> = Vec::new();
    let mut i: usize = 0;
    while i < v.len()
        invariant
            i <= v@.len(),
            r@.len() == i,
            forall|j: int| 0 <= j < i ==> #[trigger] r@[j]@ == v@[j].text(),
        decreases v@.len() - i,
    {
        let s = v[i].to_text();
        r.push(s);
        i = i + 1;
    }
    assert(texts(r@) =~= texts(v@));
    r
}

/// An owned copy of a filter map, entries in order.
pub fn owned_filters<T: TextParam>(f: &Vec<(T, Vec<T>)>) -> (r: Vec<(String, Vec<String>)>)
    ensures
        filter_entries(r@) == filter_entries(f@),
{
    let mut r: Vec<(String, Vec<String>)> = Vec::new();
    let mut i: usize = 0;
    while i < f.len()
        invariant
            i <= f@.len(),
            r@.len() == i,
            forall|j: int|
                0 <= j < i ==> #[trigger] filter_entries(r@)[j] == filter_entries(f@)[j],
        decreases f@.len() - i,
    {
        let ghost old_r = r@;
        let key = f[i].0.to_text();
        let values = owned_texts(&f[i].1);
        r.push((key, values));
        i = i + 1;
        assert forall|j: int| 0 <= j < i implies #[trigger] filter_entries(r@)[j] == filter_entries(
            f@,
        )[j] by {
            assert(filter_entries(r@)[j] == (r@[j].0.text(), texts(r@[j].1@)));
            assert(filter_entries(f@)[j] == (f@[j].0.text(), texts(f@[j].1@)));
            if j == i - 1 {
                assert(r@[j] == (key, values));
            } else {
                assert(r@[j] == old_r[j]);
                assert(filter_entries(old_r)[j] == (old_r[j].0.text(), texts(old_r[j].1@)));
            }
        }
    }
    assert(filter_entries(r@) =~= filter_entries(f@));
    r
}

/// The query-parameter list that carries a filter map: the single pair
/// `("filters", json)` when the map's JSON text could be produced, and the
/// serialization error otherwise.
pub fn filters_query(json: Result<String, serde_json::Error>) -> (r: Result<
    arrayvec::ArrayVec<(String, String), 2>,
    ApiError,
>)
    ensures
        json matches Ok(s) ==> (r matches Ok(a) && pairs_view(a) == seq![("filters"@, s@)]),
        json matches Err(e) ==> (r matches Err(ApiError::JsonSerializeError { err }) && err == e),
{
    match json {
        Ok(s) => {
            let mut a = empty_pairs();
            push_pair(&mut a, ("filters".to_owned(), s));
            assert(pairs_view(a) =~= seq![("filters"@, s@)]);
            Ok(a)
        },
        Err(e) => Err(ApiError::JsonSerializeError { err: e }),
    }
}

/// No two entries of a filter map, seen as texts, have the same key.
pub open spec fn entry_keys_unique(e: Seq<(Seq<char>, Seq<Seq<char>>)>) -> bool {
    forall|i: int, j: int| 0 <= i < j < e.len() ==> #[trigger] e[i].0 != #[trigger] e[j].0
}

/// The keys of a filter map are unique exactly when the keys of its texts are.
pub proof fn lemma_keys_unique_as_texts<T: TextParam>(f: Seq<(T, Vec<T>)>)
    ensures
        keys_unique(f) <==> entry_keys_unique(filter_entries(f)),
{
    let e = filter_entries(f);
    assert forall|i: int| 0 <= i < f.len() implies #[trigger] e[i].0 == f[i].0.text() by {}
    if keys_unique(f) {
        assert forall|i: int, j: int| 0 <= i < j < e.len() implies #[trigger] e[i].0 != #[trigger] e[j].0 by {
            assert(f[i].0.text() != f[j].0.text());
        }
    }
    if entry_keys_unique(e) {
        assert forall|i: int, j: int|
            0 <= i < j < f.len() implies #[trigger] f[i].0.text() != #[trigger] f[j].0.text() by {
            assert(e[i].0 != e[j].0);
        }
    }
}

/// Whether no two entries of a filter map have keys with the same text.
pub fn filter_keys_unique<T: TextParam>(f: &Vec<(T, Vec<T>)>) -> (r: bool)
    ensures
        r == keys_unique(f@),
{
    let mut i: usize = 0;
    while i < f.len()
        invariant
            i <= f@.len(),
            forall|a: int, b: int|
                0 <= a < b < f@.len() && a < i ==> #[trigger] f@[a].0.text() != #[trigger] f@[b].0.text(),
        decreases f@.len() - i,
    {
        let ki = f[i].0.to_text();
        let mut j: usize = i + 1;
        while j < f.len()
            invariant
                i < j <= f@.len(),
                ki@ == f@[i as int].0.text(),
                forall|a: int, b: int|
                    0 <= a < b < f@.len() && a < i ==> #[trigger] f@[a].0.text() != #[trigger] f@[b].0.text(),
                forall|b: int| i < b < j ==> f@[i as int].0.text() != #[trigger] f@[b].0.text(),
            decreases f@.len() - j,
        {
            if f[j].0.to_text() == ki {
                return false;
            }
            j = j + 1;
        }
        i = i + 1;
    }
    true
}

/// Encodes a filter map as its query-parameter list: one pair named
/// `filters` whose value is the JSON object of the whole map, however many
/// entries it has. Writing the map never fails.
pub fn encode_filters<T: TextParam>(f: &Vec<(T, Vec<T>)>) -> (r: Result<
    arrayvec::ArrayVec<(String, String), 2>,
    ApiError,
>)
    requires
        keys_unique(f@),
    ensures
        r matches Ok(a) && pairs_view(a) == seq![("filters"@, json_object_text(filter_entries(f@)))],
        f@.len() == 0 ==> (r matches Ok(a) && pairs_view(a) == seq![("filters"@, seq!['{', '}'])]),
{
    let owned = owned_filters(f);
    assert(filter_entries(owned@).len() == owned@.len());
    assert(json_object_text(Seq::empty()) =~= seq!['{', '}']);
    let json = filters_json(&owned);
    filters_query(json)
}

} // verus!

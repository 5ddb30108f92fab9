//! A JSON value as plain data, and lookups into objects.

use vstd::prelude::*;

use crate::text::str_eq;

verus! {

/// A JSON value. Numbers keep their JSON text; object members keep their order.
#[derive(Debug, PartialEq)]
pub enum Json {
    Null,
    Bool(bool),
    Number(String),
    Str(String),
    Array(Vec<Json>),
    Object(Vec<(String, Json)>),
}

/// The member `key` of an object's member list (the first with that key).
pub open spec fn member(entries: Seq<(String, Json)>, key: Seq<char>) -> Option<Json>
    decreases entries.len(),
{
    if entries.len() == 0 {
        None
    } else if entries[0].0@ == key {
        Some(entries[0].1)
    } else {
        member(entries.drop_first(), key)
    }
}

/// The member `key` of `v`, when `v` is an object (`Value::get`).
pub open spec fn get_spec(v: Json, key: Seq<char>) -> Option<Json> {
    match v {
        Json::Object(entries) => member(entries@, key),
        _ => None,
    }
}

/// The text of a string value (`Value::as_str`).
pub open spec fn as_str_spec(v: Option<Json>) -> Option<Seq<char>> {
    match v {
        Some(Json::Str(s)) => Some(s@),
        _ => None,
    }
}

/// The member `key` of an object's member list.
pub fn member_of<'a>(entries: &'a Vec<(String, Json)>, key: &str) -> (r: Option<&'a Json>)
    ensures
        (match r {
            Some(x) => Some(*x),
            None => None,
        }) == member(entries@, key@),
{
    let mut i: usize = 0;
    assert(entries@.subrange(0, entries@.len() as int) =~= entries@);
    while i < entries.len()
        invariant
            i <= entries.len(),
            member(entries@, key@) == member(entries@.subrange(i as int, entries@.len() as int), key@),
        decreases entries.len() - i,
    {
        let ghost rest = entries@.subrange(i as int, entries@.len() as int);
        assert(rest.drop_first() =~= entries@.subrange(i + 1, entries@.len() as int));
        assert(rest[0] == entries@[i as int]);
        if str_eq(entries[i].0.as_str(), key) {
            return Some(&entries[i].1);
        }
        i = i + 1;
    }
    assert(entries@.subrange(i as int, entries@.len() as int).len() == 0);
    None
}

/// The member `key` of `v`, when `v` is an object.
pub fn get<'a>(v: &'a Json, key: &str) -> (r: Option<&'a Json>)
    ensures
        (match r {
            Some(x) => Some(*x),
            None => None,
        }) == get_spec(*v, key@),
{
    match v {
        Json::Object(entries) => member_of(entries, key),
        _ => None,
    }
}

/// The text of `v` when it is a string.
pub fn as_str<'a>(v: Option<&'a Json>) -> (r: Option<&'a str>)
    ensures
        (match r {
            Some(x) => Some(x@),
            None => None,
        }) == as_str_spec(match v {
            Some(x) => Some(*x),
            None => None,
        }),
{
    match v {
        Some(Json::Str(s)) => Some(s.as_str()),
        _ => None,
    }
}

/// The index of the first member named `key`.
pub fn position_of(entries: &Vec<(String, Json)>, key: &str) -> (r: Option<usize>)
    ensures
        match r {
            Some(i) => i < entries.len() && entries@[i as int].0@ == key@ && member(entries@, key@)
                == Some(entries@[i as int].1),
            None => member(entries@, key@) is None,
        },
{
    let mut i: usize = 0;
    assert(entries@.subrange(0, entries@.len() as int) =~= entries@);
    while i < entries.len()
        invariant
            i <= entries.len(),
            member(entries@, key@) == member(entries@.subrange(i as int, entries@.len() as int), key@),
        decreases entries.len() - i,
    {
        let ghost rest = entries@.subrange(i as int, entries@.len() as int);
        assert(rest.drop_first() =~= entries@.subrange(i + 1, entries@.len() as int));
        assert(rest[0] == entries@[i as int]);
        if str_eq(entries[i].0.as_str(), key) {
            return Some(i);
        }
        i = i + 1;
    }
    assert(entries@.subrange(i as int, entries@.len() as int).len() == 0);
    None
}

/// Removing a member named otherwise leaves the lookup of `key` unchanged.
pub proof fn lemma_member_remove(entries: Seq<(String, Json)>, i: int, key: Seq<char>)
    requires
        0 <= i < entries.len(),
        entries[i].0@ != key,
    ensures
        member(entries.remove(i), key) == member(entries, key),
    decreases entries.len(),
{
    if i == 0 {
        assert(entries.remove(0) =~= entries.drop_first());
    } else {
        let r = entries.remove(i);
        assert(r[0] == entries[0]);
        if entries[0].0@ != key {
            assert(r.drop_first() =~= entries.drop_first().remove(i - 1));
            lemma_member_remove(entries.drop_first(), i - 1, key);
        }
    }
}

/// Remove the first member named `key` and hand back its value; every other lookup
/// is unchanged.
pub fn take_member(entries: &mut Vec<(String, Json)>, key: &str) -> (r: Option<Json>)
    ensures
        r == member(old(entries)@, key@),
        forall|k: Seq<char>| k != key@ ==> member(final(entries)@, k) == member(old(entries)@, k),
{
    match position_of(entries, key) {
        Some(i) => {
            let ghost before = entries@;
            let (_, v) = entries.remove(i);
            proof {
                assert forall|k: Seq<char>| k != key@ implies member(entries@, k) == member(before, k) by {
                    lemma_member_remove(before, i as int, k);
                }
            }
            Some(v)
        },
        None => None,
    }
}

/// Whether `v` is Nestr's `{status, data, meta?, links?}` envelope: an object with
/// `data` beside at least one of `status`, `meta` and `links`.
pub open spec fn is_envelope(v: Json) -> bool {
    &&& get_spec(v, "data"@) is Some
    &&& (get_spec(v, "status"@) is Some || get_spec(v, "meta"@) is Some || get_spec(
        v,
        "links"@,
    ) is Some)
}

/// Unwrap Nestr's envelope into its `data`, `meta` and `links`; any other value comes
/// back as it is, with neither `meta` nor `links`. A nest that merely has a `data`
/// field, with no envelope sibling, is left untouched.
pub fn unwrap_data(v: Json) -> (r: (Json, Option<Json>, Option<Json>))
    ensures
        is_envelope(v) ==> r.0 == get_spec(v, "data"@)->0 && r.1 == get_spec(v, "meta"@) && r.2
            == get_spec(v, "links"@),
        !is_envelope(v) ==> r == (v, None::<Json>, None::<Json>),
{
    match v {
        Json::Object(mut entries) => {
            let wrapped = member_of(&entries, "data").is_some() && (member_of(
                &entries,
                "status",
            ).is_some() || member_of(&entries, "meta").is_some() || member_of(
                &entries,
                "links",
            ).is_some());
            if wrapped {
                let ghost before = entries@;
                proof {
                    reveal_strlit("data");
                    reveal_strlit("meta");
                    reveal_strlit("links");
                    assert("meta"@[0] != "data"@[0]);
                    assert("links"@[0] != "data"@[0]);
                    assert("links"@[0] != "meta"@[0]);
                }
                let data = take_member(&mut entries, "data");
                let meta = take_member(&mut entries, "meta");
                let links = take_member(&mut entries, "links");
                let d = match data {
                    Some(d) => d,
                    None => Json::Null,
                };
                (d, meta, links)
            } else {
                (Json::Object(entries), None, None)
            }
        },
        other => (other, None, None),
    }
}

/// A JSON value as mathematics: strings as character sequences, arrays and member
/// lists as sequences.
pub ghost enum JsonView {
    Null,
    Bool(bool),
    Number(Seq<char>),
    Str(Seq<char>),
    Array(Seq<JsonView>),
    Object(Seq<(Seq<char>, JsonView)>),
}

/// The mathematical value of a JSON value.
pub open spec fn json_view(v: Json) -> JsonView
    decreases v,
{
    match v {
        Json::Null => JsonView::Null,
        Json::Bool(b) => JsonView::Bool(b),
        Json::Number(n) => JsonView::Number(n@),
        Json::Str(s) => JsonView::Str(s@),
        Json::Array(a) => JsonView::Array(item_views(a@)),
        Json::Object(e) => JsonView::Object(entry_views(e@)),
    }
}

pub open spec fn item_views(items: Seq<Json>) -> Seq<JsonView>
    decreases items,
{
    if items.len() == 0 {
        seq![]
    } else {
        item_views(items.drop_last()).push(json_view(items.last()))
    }
}

pub open spec fn entry_views(entries: Seq<(String, Json)>) -> Seq<(Seq<char>, JsonView)>
    decreases entries,
{
    if entries.len() == 0 {
        seq![]
    } else {
        entry_views(entries.drop_last()).push((entries.last().0@, json_view(entries.last().1)))
    }
}

/// The member `key` of a member list of values (the first with that key).
pub open spec fn view_member(entries: Seq<(Seq<char>, JsonView)>, key: Seq<char>) -> Option<JsonView>
    decreases entries.len(),
{
    if entries.len() == 0 {
        None
    } else if entries[0].0 == key {
        Some(entries[0].1)
    } else {
        view_member(entries.drop_first(), key)
    }
}

/// The member `key` of a value, when it is an object.
pub open spec fn view_get(v: JsonView, key: Seq<char>) -> Option<JsonView> {
    match v {
        JsonView::Object(entries) => view_member(entries, key),
        _ => None,
    }
}

/// The text of a value, when it is a string.
pub open spec fn view_as_str(v: Option<JsonView>) -> Option<Seq<char>> {
    match v {
        Some(JsonView::Str(s)) => Some(s),
        _ => None,
    }
}

pub open spec fn opt_json_view(v: Option<Json>) -> Option<JsonView> {
    match v {
        Some(j) => Some(json_view(j)),
        None => None,
    }
}

pub proof fn lemma_entry_views_index(e: Seq<(String, Json)>)
    ensures
        entry_views(e).len() == e.len(),
        forall|i: int| 0 <= i < e.len() ==> #[trigger] entry_views(e)[i] == (e[i].0@, json_view(e[i].1)),
    decreases e.len(),
{
    if e.len() > 0 {
        lemma_entry_views_index(e.drop_last());
    }
}

/// Looking a key up in two member lists one after the other: the first list's
/// member if it has one, else the second's.
pub proof fn lemma_view_member_append(
    a: Seq<(Seq<char>, JsonView)>,
    b: Seq<(Seq<char>, JsonView)>,
    key: Seq<char>,
)
    ensures
        view_member(a + b, key) == (if view_member(a, key) is Some {
            view_member(a, key)
        } else {
            view_member(b, key)
        }),
    decreases a.len(),
{
    if a.len() == 0 {
        assert(a + b =~= b);
    } else {
        assert((a + b)[0] == a[0]);
        assert((a + b).drop_first() =~= a.drop_first() + b);
        lemma_view_member_append(a.drop_first(), b, key);
    }
}

/// The member `key` of a one-member list.
pub proof fn lemma_view_member_single(k: Seq<char>, v: JsonView, key: Seq<char>)
    ensures
        view_member(seq![(k, v)], key) == (if k == key {
            Some(v)
        } else {
            None::<JsonView>
        }),
{
    let e = seq![(k, v)];
    assert(e[0] == (k, v));
    assert(e.drop_first().len() == 0);
    assert(view_member(e.drop_first(), key) is None);
}

/// Looking a key up commutes with taking views.
pub proof fn lemma_view_member(e: Seq<(String, Json)>, key: Seq<char>)
    ensures
        view_member(entry_views(e), key) == opt_json_view(member(e, key)),
    decreases e.len(),
{
    lemma_entry_views_index(e);
    if e.len() > 0 {
        lemma_entry_views_index(e.drop_first());
        assert(entry_views(e).drop_first() =~= entry_views(e.drop_first()));
        lemma_view_member(e.drop_first(), key);
    }
}

/// Looking a key up in a value commutes with taking views.
pub proof fn lemma_view_get(v: Json, key: Seq<char>)
    ensures
        view_get(json_view(v), key) == opt_json_view(get_spec(v, key)),
        view_as_str(view_get(json_view(v), key)) == as_str_spec(get_spec(v, key)),
{
    match v {
        Json::Object(e) => lemma_view_member(e@, key),
        _ => {},
    }
}

// ---- JSON text ----

#[verifier::external_type_specification]
#[verifier::external_body]
pub struct ExJsonValue(serde_json::Value);

/// The value that serde_json reads from a JSON text, `None` where the text is not
/// JSON.
pub uninterp spec fn json_parse_spec(text: Seq<char>) -> Option<JsonView>;

/// `serde_json::from_str::<Value>`: the value of a JSON text, `None` where the text
/// is not JSON. The value is carried over variant for variant (numbers by their JSON
/// text, object members in the order of serde_json's map).
#[verifier::external_body]
pub(crate) fn parse_json(text: &str) -> (r: Option<Json>)
    ensures
        json_parse_spec(text@) == opt_json_view(r),
{
    serde_json::from_str::<serde_json::Value>(text).ok().map(json_of_value)
}

/// A serde_json value as a `Json`, variant for variant; numbers keep their JSON text.
#[verifier::external_body]
fn json_of_value(v: serde_json::Value) -> Json {
    match v {
        serde_json::Value::Null => Json::Null,
        serde_json::Value::Bool(b) => Json::Bool(b),
        serde_json::Value::Number(n) => Json::Number(n.to_string()),
        serde_json::Value::String(s) => Json::Str(s),
        serde_json::Value::Array(a) => Json::Array(a.into_iter().map(json_of_value).collect()),
        serde_json::Value::Object(o) => Json::Object(o.into_iter().map(|(k, x)| (k, json_of_value(x))).collect()),
    }
}

/// A `Json` as a serde_json value, variant for variant; `None` where a number's text
/// is not a JSON number.
#[verifier::external_body]
fn value_of_json(v: &Json) -> Option<serde_json::Value> {
    Some(match v {
        Json::Null => serde_json::Value::Null,
        Json::Bool(b) => serde_json::Value::Bool(*b),
        Json::Number(n) => serde_json::Value::Number(n.parse().ok()?),
        Json::Str(s) => serde_json::Value::String(s.clone()),
        Json::Array(a) => serde_json::Value::Array(a.iter().map(value_of_json).collect::<Option<_>>()?),
        Json::Object(o) => serde_json::Value::Object(o.iter().map(|(k, x)| Some((k.clone(), value_of_json(x)?))).collect::<Option<_>>()?),
    })
}

/// The text serde_json's `to_string_pretty` writes for a value (two-space
/// indentation), `None` where it cannot be written.
pub uninterp spec fn json_pretty_spec(v: JsonView) -> Option<Seq<char>>;

/// `serde_json::to_string_pretty` of the value; `None` where a number's text is not a
/// JSON number or serde_json reports an error.
#[verifier::external_body]
pub(crate) fn json_pretty(v: &Json) -> (r: Option<String>)
    ensures
        json_pretty_spec(json_view(*v)) == match r {
            Some(s) => Some(s@),
            None => None,
        },
{
    value_of_json(v).and_then(|x| serde_json::to_string_pretty(&x).ok())
}

// ---- building request bodies ----

/// The JSON strings of a list of texts.
pub open spec fn text_views(v: Seq<String>) -> Seq<JsonView> {
    v.map_values(|t: String| JsonView::Str(t@))
}

/// A JSON array of the given strings.
pub fn str_array(v: &[String]) -> (r: Json)
    ensures
        json_view(r) == JsonView::Array(text_views(v@)),
{
    let mut items: Vec<Json> = Vec::new();
    let mut i: usize = 0;
    while i < v.len()
        invariant
            i <= v.len(),
            item_views(items@) == text_views(v@.take(i as int)),
        decreases v.len() - i,
    {
        let ghost before = items@;
        let c = v[i].clone();
        assert(c@ == v@[i as int]@);
        items.push(Json::Str(c));
        assert(items@.drop_last() =~= before);
        assert(item_views(items@) == item_views(before).push(json_view(Json::Str(c))));
        assert(text_views(v@.take(i + 1)) =~= text_views(v@.take(i as int)).push(
            JsonView::Str(v@[i as int]@),
        ));
        i = i + 1;
    }
    assert(v@.take(v.len() as int) =~= v@);
    Json::Array(items)
}

/// Append the member `key: value`.
pub fn push_member(entries: &mut Vec<(String, Json)>, key: &str, value: Json)
    ensures
        entry_views(final(entries)@) == entry_views(old(entries)@).push((key@, json_view(value))),
{
    let ghost before = entries@;
    entries.push((crate::text::to_owned_string(key), value));
    assert(entries@.drop_last() =~= before);
}

/// A `key: "text"` member when the text is given; nothing otherwise.
pub open spec fn opt_text_member(key: Seq<char>, v: Option<String>) -> Seq<(Seq<char>, JsonView)> {
    match v {
        Some(t) => seq![(key, JsonView::Str(t@))],
        None => seq![],
    }
}

pub fn push_opt_text(entries: &mut Vec<(String, Json)>, key: &str, v: Option<String>)
    ensures
        entry_views(final(entries)@) == entry_views(old(entries)@) + opt_text_member(key@, v),
{
    let ghost before = entry_views(entries@);
    match v {
        Some(t) => push_member(entries, key, Json::Str(t)),
        None => {},
    }
    assert(entry_views(entries@) =~= before + opt_text_member(key@, v));
}

/// A `key: ["a", …]` member when the list is non-empty; nothing otherwise.
pub open spec fn texts_member(key: Seq<char>, v: Seq<String>) -> Seq<(Seq<char>, JsonView)> {
    if v.len() > 0 {
        seq![(key, JsonView::Array(text_views(v)))]
    } else {
        seq![]
    }
}

pub fn push_texts(entries: &mut Vec<(String, Json)>, key: &str, v: &[String])
    ensures
        entry_views(final(entries)@) == entry_views(old(entries)@) + texts_member(key@, v@),
{
    let ghost before = entry_views(entries@);
    if v.len() > 0 {
        push_member(entries, key, str_array(v));
    }
    assert(entry_views(entries@) =~= before + texts_member(key@, v@));
}

} // verus!

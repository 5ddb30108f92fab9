//! The decisions of the subcommands: request paths and parameters, request bodies,
//! and what a response means for the next step.

use vstd::prelude::*;

use crate::config::{
    trim_end_slashes, trim_end_slashes_of, AuthKind, CredentialStorage, OutputFormat, Profile,
};
use crate::oauth::{valid_at_spec, StoredOAuthTokens};
use crate::render::{clean_text, clean_text_spec, format_table, format_table_spec, rows_view, str_views};
use crate::json::{
    as_str, as_str_spec, entry_views, get, get_spec, item_views, json_view, opt_text_member, push_member,
    push_opt_text, push_texts, texts_member, Json, JsonView, text_views, view_get, view_member,
    lemma_view_member_append, lemma_view_member_single,
};
use crate::api_client::NestrError;
use crate::oauth::opt_view;
use crate::validation::{first_other_prime, is_prime, is_prime_spec, validate_added_prime, LabelError};
use crate::views::{label_codes, label_codes_spec};
use crate::text::{chars_of, starts_with, strip_prefix, string_from_chars, to_owned_string, push_str, views, words, words_of};

verus! {

/// Map the CLI `--direction in|out` to the API's `incoming`/`outgoing`.
pub fn map_direction(d: &str) -> (r: &'static str)
    ensures
        d@ == "in"@ ==> r@ == "incoming"@,
        d@ != "in"@ ==> r@ == "outgoing"@,
{
    if crate::text::str_eq(d, "in") {
        "incoming"
    } else {
        "outgoing"
    }
}

/// `cleanText=true` in text mode (titles are HTML server-side); nothing for JSON.
pub fn clean_params(output: OutputFormat) -> (r: Vec<(&'static str, &'static str)>)
    ensures
        output == OutputFormat::Text ==> r@.len() == 1 && r@[0].0@ == "cleanText"@ && r@[0].1@
            == "true"@,
        output == OutputFormat::Json ==> r@.len() == 0,
{
    let mut v: Vec<(&'static str, &'static str)> = Vec::new();
    match output {
        OutputFormat::Text => v.push(("cleanText", "true")),
        OutputFormat::Json => {},
    }
    v
}

/// The path of one tension: `/nests/{nest}/tensions/{tid}`.
pub fn base(nest: &str, tid: &str) -> (r: String)
    ensures
        r@ == "/nests/"@ + nest@ + "/tensions/"@ + tid@,
{
    let mut s = to_owned_string("/nests/");
    push_str(&mut s, nest);
    push_str(&mut s, "/tensions/");
    push_str(&mut s, tid);
    s
}

/// The tension state a consent vote records: `accepted` for `accept`, else `escalated`.
pub fn vote_state(decision: &str) -> (r: &'static str)
    ensures
        decision@ == "accept"@ ==> r@ == "accepted"@,
        decision@ != "accept"@ ==> r@ == "escalated"@,
{
    if crate::text::str_eq(decision, "accept") {
        "accepted"
    } else {
        "escalated"
    }
}

/// The id after the first `nest:` among whitespace-separated scope words.
pub open spec fn nest_scope_spec(ws: Seq<Seq<char>>) -> Option<Seq<char>>
    decreases ws.len(),
{
    if ws.len() == 0 {
        None
    } else if starts_with(ws[0], "nest:"@) {
        Some(ws[0].skip(5))
    } else {
        nest_scope_spec(ws.drop_first())
    }
}

/// The workspace a granted OAuth scope pins: the consent screen adds `nest:{id}` when
/// a single workspace is chosen; a full-account grant has none.
pub fn nest_scope_workspace(scope: Option<&str>) -> (r: Option<String>)
    ensures
        opt_view(r) == match scope {
            Some(s) => nest_scope_spec(words(s@)),
            None => None,
        },
{
    let s = match scope {
        Some(s) => s,
        None => return None,
    };
    let ws = words_of(&chars_of(s));
    proof {
        reveal_strlit("nest:");
    }
    let mut i: usize = 0;
    assert(views(ws@).subrange(0, ws@.len() as int) =~= views(ws@));
    while i < ws.len()
        invariant
            i <= ws.len(),
            scope == Some(s),
            views(ws@) == words(s@),
            nest_scope_spec(words(s@)) == nest_scope_spec(views(ws@).subrange(i as int, ws@.len() as int)),
        decreases ws.len() - i,
    {
        let ghost rest = views(ws@).subrange(i as int, ws@.len() as int);
        assert(rest.drop_first() =~= views(ws@).subrange(i + 1, ws@.len() as int));
        assert(rest[0] == ws@[i as int]@);
        match strip_prefix(&ws[i], "nest:") {
            Some(id) => {
                proof {
                    reveal_strlit("nest:");
                    assert(nest_scope_spec(rest) == Some(rest[0].skip(5)));
                }
                return Some(string_from_chars(&id));
            },
            None => {},
        }
        i = i + 1;
    }
    assert(views(ws@).subrange(i as int, ws@.len() as int).len() == 0);
    None
}

/// The string `_id`s of a list's items, skipping items without one.
pub open spec fn item_ids(items: Seq<Json>) -> Seq<Seq<char>>
    decreases items.len(),
{
    if items.len() == 0 {
        seq![]
    } else {
        let rest = item_ids(items.drop_last());
        match as_str_spec(get_spec(items.last(), "_id"@)) {
            Some(id) => rest.push(id),
            None => rest,
        }
    }
}

pub open spec fn array_items(data: Json) -> Seq<Json> {
    match data {
        Json::Array(a) => a@,
        _ => seq![],
    }
}

/// The ids of the items of a list payload (none when it is not an array).
pub fn list_ids(data: &Json) -> (r: Vec<String>)
    ensures
        crate::validation::string_views(r@) == item_ids(array_items(*data)),
{
    let mut out: Vec<String> = Vec::new();
    match data {
        Json::Array(items) => {
            let mut i: usize = 0;
            while i < items.len()
                invariant
                    i <= items.len(),
                    crate::validation::string_views(out@) == item_ids(items@.take(i as int)),
                decreases items.len() - i,
            {
                proof {
                    let t = items@.take(i + 1);
                    assert(t.drop_last() =~= items@.take(i as int));
                    assert(t.last() == items@[i as int]);
                }
                match as_str(get(&items[i], "_id")) {
                    Some(id) => {
                        let ghost before = crate::validation::string_views(out@);
                        out.push(to_owned_string(id));
                        assert(crate::validation::string_views(out@) =~= before.push(id@));
                    },
                    None => {},
                }
                i = i + 1;
            }
            assert(items@.take(items.len() as int) =~= items@);
        },
        _ => {},
    }
    out
}

/// The account's only workspace id, or `None` when the list holds zero or many.
pub fn sole_workspace_id(data: &Json) -> (r: Option<String>)
    ensures
        opt_view(r) == (if item_ids(array_items(*data)).len() == 1 {
            Some(item_ids(array_items(*data))[0])
        } else {
            None
        }),
{
    let mut ids = list_ids(data);
    if ids.len() == 1 {
        let id = ids.remove(0);
        Some(id)
    } else {
        None
    }
}

/// Whether `id` is the `_id` of one of a list payload's items.
pub fn list_has_id(data: &Json, id: &str) -> (r: bool)
    ensures
        r == item_ids(array_items(*data)).contains(id@),
{
    let ids = list_ids(data);
    let mut i: usize = 0;
    while i < ids.len()
        invariant
            i <= ids.len(),
            crate::validation::string_views(ids@) == item_ids(array_items(*data)),
            forall|j: int| 0 <= j < i ==> ids@[j]@ != id@,
        decreases ids.len() - i,
    {
        if crate::text::str_eq(ids[i].as_str(), id) {
            assert(crate::validation::string_views(ids@)[i as int] == id@);
            return true;
        }
        i = i + 1;
    }
    proof {
        let v = item_ids(array_items(*data));
        if v.contains(id@) {
            let j = choose|j: int| 0 <= j < v.len() && v[j] == id@;
            assert(crate::validation::string_views(ids@)[j] == ids@[j]@);
        }
    }
    false
}

/// The OS keyring was chosen but this build has none.
#[derive(Debug)]
pub struct NoKeyringForStorage;

impl NoKeyringForStorage {
    pub open spec fn message(&self) -> Seq<char> {
        "This build has no OS keyring backend (e.g. static musl Linux binaries ship without one), so 'os-store' would silently lose credentials. Choose 'file' storage instead."@
    }

    pub fn to_string(&self) -> (r: String)
        ensures
            r@ == self.message(),
    {
        to_owned_string(
            "This build has no OS keyring backend (e.g. static musl Linux binaries ship without one), so 'os-store' would silently lose credentials. Choose 'file' storage instead.",
        )
    }
}

/// The storage a credentials prompt answer selects: `os-store` is the OS keyring
/// (refused when the build has no keyring backend); any other answer is the file.
pub fn storage_choice(choice: &str, keyring_available: bool) -> (r: Result<
    CredentialStorage,
    NoKeyringForStorage,
>)
    ensures
        choice@ == "os-store"@ && !keyring_available ==> r is Err,
        choice@ == "os-store"@ && keyring_available ==> r == Ok::<
            CredentialStorage,
            NoKeyringForStorage,
        >(CredentialStorage::OsStore),
        choice@ != "os-store"@ ==> r == Ok::<CredentialStorage, NoKeyringForStorage>(
            CredentialStorage::File,
        ),
{
    if crate::text::str_eq(choice, "os-store") {
        if keyring_available {
            Ok(CredentialStorage::OsStore)
        } else {
            Err(NoKeyringForStorage)
        }
    } else {
        Ok(CredentialStorage::File)
    }
}

// ---- request bodies ----

pub open spec fn create_body_spec(
    title: String,
    parent: Option<String>,
    purpose: Option<String>,
    description: Option<String>,
    labels: Seq<String>,
    due: Option<String>,
    users: Seq<String>,
) -> JsonView {
    JsonView::Object(
        seq![("title"@, JsonView::Str(title@))] + opt_text_member("parentId"@, parent)
            + opt_text_member("purpose"@, purpose) + opt_text_member("description"@, description)
            + texts_member("labels"@, labels) + opt_text_member("due"@, due) + texts_member(
            "users"@,
            users,
        ),
    )
}

/// The `POST /nests` body. Optional fields are omitted, not sent as null or empty;
/// `users` carries the assignment an unassigned project would otherwise miss.
pub fn create_body(
    title: String,
    parent: Option<String>,
    purpose: Option<String>,
    description: Option<String>,
    labels: &[String],
    due: Option<String>,
    users: &[String],
) -> (r: Json)
    ensures
        json_view(r) == create_body_spec(title, parent, purpose, description, labels@, due, users@),
{
    let mut e: Vec<(String, Json)> = Vec::new();
    push_member(&mut e, "title", Json::Str(title));
    push_opt_text(&mut e, "parentId", parent);
    push_opt_text(&mut e, "purpose", purpose);
    push_opt_text(&mut e, "description", description);
    push_texts(&mut e, "labels", labels);
    push_opt_text(&mut e, "due", due);
    push_texts(&mut e, "users", users);
    Json::Object(e)
}

/// The string value of an optional text.
pub open spec fn opt_str_view(v: Option<String>) -> Option<JsonView> {
    match v {
        Some(t) => Some(JsonView::Str(t@)),
        None => None,
    }
}

/// The array of strings of a non-empty list; nothing for an empty one.
pub open spec fn texts_view(v: Seq<String>) -> Option<JsonView> {
    if v.len() > 0 {
        Some(JsonView::Array(text_views(v)))
    } else {
        None
    }
}

proof fn lemma_opt_text_member_get(k: Seq<char>, v: Option<String>, key: Seq<char>)
    ensures
        view_member(opt_text_member(k, v), key) == (if k == key {
            opt_str_view(v)
        } else {
            None
        }),
{
    match v {
        Some(t) => lemma_view_member_single(k, JsonView::Str(t@), key),
        None => {},
    }
}

proof fn lemma_texts_member_get(k: Seq<char>, v: Seq<String>, key: Seq<char>)
    ensures
        view_member(texts_member(k, v), key) == (if k == key {
            texts_view(v)
        } else {
            None
        }),
{
    if v.len() > 0 {
        lemma_view_member_single(k, JsonView::Array(text_views(v)), key);
    }
}

/// The create body carries each argument under its own key: `title` always; `parentId`,
/// `purpose`, `description` and `due` exactly when given, with their text; `labels`
/// and `users` exactly when non-empty, as arrays of their strings.
pub proof fn lemma_create_body_members(
    title: String,
    parent: Option<String>,
    purpose: Option<String>,
    description: Option<String>,
    labels: Seq<String>,
    due: Option<String>,
    users: Seq<String>,
)
    ensures
        ({
            let body = create_body_spec(title, parent, purpose, description, labels, due, users);
            &&& view_get(body, "title"@) == Some(JsonView::Str(title@))
            &&& view_get(body, "parentId"@) == opt_str_view(parent)
            &&& view_get(body, "purpose"@) == opt_str_view(purpose)
            &&& view_get(body, "description"@) == opt_str_view(description)
            &&& view_get(body, "labels"@) == texts_view(labels)
            &&& view_get(body, "due"@) == opt_str_view(due)
            &&& view_get(body, "users"@) == texts_view(users)
        }),
{
    reveal_strlit("title");
    reveal_strlit("parentId");
    reveal_strlit("purpose");
    reveal_strlit("description");
    reveal_strlit("labels");
    reveal_strlit("due");
    reveal_strlit("users");
    assert("title"@[0] != "users"@[0]);
    assert("title"@.len() == 5 && "parentId"@.len() == 8 && "purpose"@.len() == 7);
    assert("description"@.len() == 11 && "labels"@.len() == 6 && "due"@.len() == 3);
    assert("users"@.len() == 5);
    assert("title"@ != "users"@);
    let t = seq![("title"@, JsonView::Str(title@))];
    let p1 = opt_text_member("parentId"@, parent);
    let p2 = opt_text_member("purpose"@, purpose);
    let p3 = opt_text_member("description"@, description);
    let p4 = texts_member("labels"@, labels);
    let p5 = opt_text_member("due"@, due);
    let p6 = texts_member("users"@, users);
    let keys = seq!["title"@, "parentId"@, "purpose"@, "description"@, "labels"@, "due"@, "users"@];
    assert forall|n: int| 0 <= n < 7 implies ({
        let key = #[trigger] keys[n];
        &&& view_member(t + p1 + p2 + p3 + p4 + p5 + p6, key) == (if view_member(t, key) is Some {
            view_member(t, key)
        } else if view_member(p1, key) is Some {
            view_member(p1, key)
        } else if view_member(p2, key) is Some {
            view_member(p2, key)
        } else if view_member(p3, key) is Some {
            view_member(p3, key)
        } else if view_member(p4, key) is Some {
            view_member(p4, key)
        } else if view_member(p5, key) is Some {
            view_member(p5, key)
        } else {
            view_member(p6, key)
        })
    }) by {
        let key = keys[n];
        lemma_view_member_append(t + p1 + p2 + p3 + p4 + p5, p6, key);
        lemma_view_member_append(t + p1 + p2 + p3 + p4, p5, key);
        lemma_view_member_append(t + p1 + p2 + p3, p4, key);
        lemma_view_member_append(t + p1 + p2, p3, key);
        lemma_view_member_append(t + p1, p2, key);
        lemma_view_member_append(t, p1, key);
    }
    assert forall|n: int| 0 <= n < 7 implies {
        let key = #[trigger] keys[n];
        &&& view_member(t, key) == (if key == "title"@ { Some(JsonView::Str(title@)) } else { None })
        &&& view_member(p1, key) == (if key == "parentId"@ { opt_str_view(parent) } else { None })
        &&& view_member(p2, key) == (if key == "purpose"@ { opt_str_view(purpose) } else { None })
        &&& view_member(p3, key) == (if key == "description"@ { opt_str_view(description) } else { None })
        &&& view_member(p4, key) == (if key == "labels"@ { texts_view(labels) } else { None })
        &&& view_member(p5, key) == (if key == "due"@ { opt_str_view(due) } else { None })
        &&& view_member(p6, key) == (if key == "users"@ { texts_view(users) } else { None })
    } by {
        let key = keys[n];
        lemma_view_member_single("title"@, JsonView::Str(title@), key);
        lemma_opt_text_member_get("parentId"@, parent, key);
        lemma_opt_text_member_get("purpose"@, purpose, key);
        lemma_opt_text_member_get("description"@, description, key);
        lemma_texts_member_get("labels"@, labels, key);
        lemma_opt_text_member_get("due"@, due, key);
        lemma_texts_member_get("users"@, users, key);
    }
    assert(keys[0] == "title"@);
    assert(keys[1] == "parentId"@);
    assert(keys[2] == "purpose"@);
    assert(keys[3] == "description"@);
    assert(keys[4] == "labels"@);
    assert(keys[5] == "due"@);
    assert(keys[6] == "users"@);
    let body = create_body_spec(title, parent, purpose, description, labels, due, users);
    assert(body == JsonView::Object(t + p1 + p2 + p3 + p4 + p5 + p6));
}

pub open spec fn opt_flag_member(key: Seq<char>, v: Option<bool>) -> Seq<(Seq<char>, JsonView)> {
    match v {
        Some(b) => seq![(key, JsonView::Bool(b))],
        None => seq![],
    }
}

pub open spec fn update_body_spec(
    title: Option<String>,
    purpose: Option<String>,
    description: Option<String>,
    due: Option<String>,
    completed: Option<bool>,
    parent: Option<String>,
    labels: Seq<String>,
    users: Seq<String>,
) -> JsonView {
    JsonView::Object(
        opt_text_member("title"@, title) + opt_text_member("purpose"@, purpose) + opt_text_member(
            "description"@,
            description,
        ) + opt_text_member("due"@, due) + opt_flag_member("completed"@, completed)
            + opt_text_member("parentId"@, parent) + texts_member("labels"@, labels)
            + texts_member("users"@, users),
    )
}

/// The `PATCH /nests/{id}` body: only the fields given are sent; `labels` and `users`
/// replace the whole set.
pub fn update_body(
    title: Option<String>,
    purpose: Option<String>,
    description: Option<String>,
    due: Option<String>,
    completed: Option<bool>,
    parent: Option<String>,
    labels: &[String],
    users: &[String],
) -> (r: Json)
    ensures
        json_view(r) == update_body_spec(
            title,
            purpose,
            description,
            due,
            completed,
            parent,
            labels@,
            users@,
        ),
{
    let mut e: Vec<(String, Json)> = Vec::new();
    push_opt_text(&mut e, "title", title);
    push_opt_text(&mut e, "purpose", purpose);
    push_opt_text(&mut e, "description", description);
    push_opt_text(&mut e, "due", due);
    let ghost a = entry_views(e@);
    match completed {
        Some(c) => push_member(&mut e, "completed", Json::Bool(c)),
        None => {},
    }
    assert(entry_views(e@) =~= a + opt_flag_member("completed"@, completed));
    push_opt_text(&mut e, "parentId", parent);
    push_texts(&mut e, "labels", labels);
    push_texts(&mut e, "users", users);
    assert(entry_views(e@) =~= opt_text_member("title"@, title) + opt_text_member("purpose"@, purpose)
        + opt_text_member("description"@, description) + opt_text_member("due"@, due)
        + opt_flag_member("completed"@, completed) + opt_text_member("parentId"@, parent)
        + texts_member("labels"@, labels@) + texts_member("users"@, users@));
    Json::Object(e)
}

pub open spec fn governance_body_spec(
    title: Option<String>,
    parent: Option<String>,
    purpose: Option<String>,
    description: Option<String>,
    labels: Seq<String>,
    accountabilities: Seq<String>,
    domains: Seq<String>,
) -> JsonView {
    JsonView::Object(
        opt_text_member("title"@, title) + opt_text_member("parentId"@, parent) + opt_text_member(
            "purpose"@,
            purpose,
        ) + opt_text_member("description"@, description) + texts_member("labels"@, labels)
            + texts_member("accountabilities"@, accountabilities) + texts_member(
            "domains"@,
            domains,
        ),
    )
}

/// The write body of a circle or role: the fields given, with the accountability and
/// domain titles (and labels) as string arrays when there are any.
pub fn governance_body(
    title: Option<String>,
    parent: Option<String>,
    purpose: Option<String>,
    description: Option<String>,
    labels: &[String],
    accountabilities: &[String],
    domains: &[String],
) -> (r: Json)
    ensures
        json_view(r) == governance_body_spec(
            title,
            parent,
            purpose,
            description,
            labels@,
            accountabilities@,
            domains@,
        ),
{
    let mut e: Vec<(String, Json)> = Vec::new();
    push_opt_text(&mut e, "title", title);
    push_opt_text(&mut e, "parentId", parent);
    push_opt_text(&mut e, "purpose", purpose);
    push_opt_text(&mut e, "description", description);
    push_texts(&mut e, "labels", labels);
    push_texts(&mut e, "accountabilities", accountabilities);
    push_texts(&mut e, "domains", domains);
    assert(entry_views(e@) =~= opt_text_member("title"@, title) + opt_text_member("parentId"@, parent)
        + opt_text_member("purpose"@, purpose) + opt_text_member("description"@, description)
        + texts_member("labels"@, labels@) + texts_member("accountabilities"@, accountabilities@)
        + texts_member("domains"@, domains@));
    Json::Object(e)
}

pub open spec fn tension_body_spec(
    title: Option<String>,
    description: Option<String>,
    feeling: Option<String>,
    needs: Option<String>,
) -> JsonView {
    let fields = opt_text_member("tension.feeling"@, feeling) + opt_text_member(
        "tension.needs"@,
        needs,
    );
    JsonView::Object(
        opt_text_member("title"@, title) + opt_text_member("description"@, description) + (if fields.len()
            > 0 {
            seq![("fields"@, JsonView::Object(fields))]
        } else {
            seq![]
        }),
    )
}

/// A tension write body, with `feeling` and `needs` folded into its `fields` object
/// (left out when neither is given).
pub fn tension_body(
    title: Option<String>,
    description: Option<String>,
    feeling: Option<String>,
    needs: Option<String>,
) -> (r: Json)
    ensures
        json_view(r) == tension_body_spec(title, description, feeling, needs),
{
    let mut fields: Vec<(String, Json)> = Vec::new();
    push_opt_text(&mut fields, "tension.feeling", feeling);
    push_opt_text(&mut fields, "tension.needs", needs);
    let mut e: Vec<(String, Json)> = Vec::new();
    push_opt_text(&mut e, "title", title);
    push_opt_text(&mut e, "description", description);
    let ghost a = entry_views(e@);
    let ghost f = entry_views(fields@);
    assert(f =~= opt_text_member("tension.feeling"@, feeling) + opt_text_member("tension.needs"@, needs));
    if fields.len() > 0 {
        push_member(&mut e, "fields", Json::Object(fields));
    } else {
        assert(f.len() == 0);
    }
    assert(entry_views(e@) =~= opt_text_member("title"@, title) + opt_text_member("description"@, description) + (if f.len() > 0 {
        seq![("fields"@, JsonView::Object(f))]
    } else {
        seq![]
    }));
    Json::Object(e)
}

pub open spec fn workspace_body_spec(
    title: String,
    purpose: Option<String>,
    governance: Option<String>,
    plan: Option<String>,
    collaborators: Option<String>,
    apps: Seq<String>,
) -> JsonView {
    let config = opt_text_member("governance"@, governance) + opt_text_member("plan"@, plan)
        + opt_text_member("collaborators"@, collaborators) + texts_member("apps"@, apps);
    JsonView::Object(
        seq![("title"@, JsonView::Str(title@))] + opt_text_member("purpose"@, purpose) + (if config.len()
            > 0 {
            seq![("configuration"@, JsonView::Object(config))]
        } else {
            seq![]
        }),
    )
}

/// The `POST /workspaces` body: title, purpose, and a `configuration` object with the
/// governance, plan, collaborators and apps settings given (left out when none is).
pub fn workspace_body(
    title: String,
    purpose: Option<String>,
    governance: Option<String>,
    plan: Option<String>,
    collaborators: Option<String>,
    apps: &[String],
) -> (r: Json)
    ensures
        json_view(r) == workspace_body_spec(title, purpose, governance, plan, collaborators, apps@),
{
    let ghost t = title;
    let mut config: Vec<(String, Json)> = Vec::new();
    push_opt_text(&mut config, "governance", governance);
    push_opt_text(&mut config, "plan", plan);
    push_opt_text(&mut config, "collaborators", collaborators);
    push_texts(&mut config, "apps", apps);
    let ghost c = entry_views(config@);
    assert(c =~= opt_text_member("governance"@, governance) + opt_text_member("plan"@, plan)
        + opt_text_member("collaborators"@, collaborators) + texts_member("apps"@, apps@));
    let mut e: Vec<(String, Json)> = Vec::new();
    push_member(&mut e, "title", Json::Str(title));
    push_opt_text(&mut e, "purpose", purpose);
    if config.len() > 0 {
        push_member(&mut e, "configuration", Json::Object(config));
    } else {
        assert(c.len() == 0);
    }
    assert(entry_views(e@) =~= seq![("title"@, JsonView::Str(t@))] + opt_text_member("purpose"@, purpose) + (if c.len() > 0 {
        seq![("configuration"@, JsonView::Object(c))]
    } else {
        seq![]
    }));
    Json::Object(e)
}

// ---- workspace apps ----

/// An app's `_id` (empty when it has none).
pub open spec fn app_id_of(a: Json) -> Seq<char> {
    match as_str_spec(get_spec(a, "_id"@)) {
        Some(x) => x,
        None => seq![],
    }
}

/// An app's `enabled` flag (false when it has none).
pub open spec fn app_enabled_of(a: Json) -> bool {
    match get_spec(a, "enabled"@) {
        Some(Json::Bool(b)) => b,
        _ => false,
    }
}

/// `{_id, enabled}` for one app: the target gets the new state, the others keep theirs.
pub open spec fn toggled_app(a: Json, app_id: Seq<char>, enable: bool) -> JsonView {
    JsonView::Object(
        seq![
            ("_id"@, JsonView::Str(app_id_of(a))),
            ("enabled"@, JsonView::Bool(if app_id_of(a) == app_id {
                enable
            } else {
                app_enabled_of(a)
            })),
        ],
    )
}

pub open spec fn toggled_apps(apps: Seq<Json>, app_id: Seq<char>, enable: bool) -> Seq<JsonView> {
    apps.map_values(|a: Json| toggled_app(a, app_id, enable))
}

pub open spec fn no_such_app_message(app_id: Seq<char>) -> Seq<char> {
    "no app '"@ + app_id + "' in this workspace (run `nestr workspaces apps` to list them)"@
}

fn app_entry(a: &Json, app_id: &str, enable: bool) -> (r: (Json, bool))
    ensures
        json_view(r.0) == toggled_app(*a, app_id@, enable),
        r.1 == (app_id_of(*a) == app_id@),
{
    let id = match as_str(get(a, "_id")) {
        Some(x) => to_owned_string(x),
        None => String::new(),
    };
    let hit = crate::text::str_eq(id.as_str(), app_id);
    let en = if hit {
        enable
    } else {
        match get(a, "enabled") {
            Some(Json::Bool(b)) => *b,
            _ => false,
        }
    };
    let mut e: Vec<(String, Json)> = Vec::new();
    push_member(&mut e, "_id", Json::Str(id));
    push_member(&mut e, "enabled", Json::Bool(en));
    assert(entry_views(e@) =~= seq![("_id"@, JsonView::Str(app_id_of(*a))), ("enabled"@, JsonView::Bool(en))]);
    (Json::Object(e), hit)
}

/// The full apps array to write back when one app's `enabled` flag is set: every app
/// as `{_id, enabled}`, the target with the new state, the others as they were. An
/// unknown app is reported instead.
pub fn app_toggle_body(apps: &Json, app_id: &str, enable: bool) -> (r: Result<Json, NestrError>)
    ensures
        r is Ok <==> exists|i: int| 0 <= i < array_items(*apps).len() && app_id_of(
            #[trigger] array_items(*apps)[i],
        ) == app_id@,
        r matches Ok(b) ==> json_view(b) == JsonView::Array(
            toggled_apps(array_items(*apps), app_id@, enable),
        ),
        r matches Err(e) ==> e matches NestrError::NotFound(m) && m@ == no_such_app_message(app_id@),
{
    let ghost items = array_items(*apps);
    let mut out: Vec<Json> = Vec::new();
    let mut found = false;
    match apps {
        Json::Array(a) => {
            let mut i: usize = 0;
            while i < a.len()
                invariant
                    i <= a.len(),
                    items == a@,
                    item_views(out@) == toggled_apps(a@.take(i as int), app_id@, enable),
                    found <==> exists|j: int| 0 <= j < i && app_id_of(#[trigger] a@[j]) == app_id@,
                decreases a.len() - i,
            {
                let (entry, hit) = app_entry(&a[i], app_id, enable);
                let ghost before = out@;
                out.push(entry);
                assert(out@.drop_last() =~= before);
                assert(toggled_apps(a@.take(i + 1), app_id@, enable) =~= toggled_apps(
                    a@.take(i as int),
                    app_id@,
                    enable,
                ).push(toggled_app(a@[i as int], app_id@, enable)));
                if hit {
                    found = true;
                }
                i = i + 1;
            }
            assert(a@.take(a.len() as int) =~= a@);
        },
        _ => {
            assert(toggled_apps(items, app_id@, enable) =~= seq![]);
        },
    }
    if !found {
        let mut m = to_owned_string("no app '");
        push_str(&mut m, app_id);
        push_str(&mut m, "' in this workspace (run `nestr workspaces apps` to list them)");
        return Err(NestrError::NotFound(m));
    }
    Ok(Json::Array(out))
}

// ---- assignees ----

/// Whether an assignee list names `me`, which needs a `/users/me` lookup.
pub fn names_me(assignees: &[String]) -> (r: bool)
    ensures
        r == exists|i: int| 0 <= i < assignees@.len() && #[trigger] assignees@[i]@ == "me"@,
{
    let mut i: usize = 0;
    while i < assignees.len()
        invariant
            i <= assignees.len(),
            forall|j: int| 0 <= j < i ==> assignees@[j]@ != "me"@,
        decreases assignees.len() - i,
    {
        if crate::text::str_eq(assignees[i].as_str(), "me") {
            return true;
        }
        i = i + 1;
    }
    false
}

pub open spec fn with_me(assignees: Seq<String>, my_id: Seq<char>) -> Seq<Seq<char>> {
    assignees.map_values(|a: String| if a@ == "me"@ {
        my_id
    } else {
        a@
    })
}

pub open spec fn no_me_id_message() -> Seq<char> {
    "could not resolve `--assignee me`: /users/me returned no id"@
}

/// The `users` array a nest stores for `--assignee` tokens: ids pass through, the
/// literal `me` becomes the `_id` of the `/users/me` payload `me` (an error when it
/// has none).
pub fn resolve_assignees_with(assignees: &[String], me: &Json) -> (r: Result<
    Vec<String>,
    NestrError,
>)
    ensures
        ({
            let my_id = match as_str_spec(get_spec(*me, "_id"@)) {
                Some(x) => x,
                None => seq![],
            };
            &&& r is Err <==> my_id.len() == 0
            &&& r matches Ok(v) ==> crate::validation::string_views(v@) == with_me(assignees@, my_id)
            &&& r matches Err(e) ==> e matches NestrError::Validation(m) && m@ == no_me_id_message()
        }),
{
    let my_id = match as_str(get(me, "_id")) {
        Some(x) => x,
        None => "",
    };
    proof {
        reveal_strlit("");
    }
    if my_id.is_empty() {
        return Err(NestrError::Validation(to_owned_string("could not resolve `--assignee me`: /users/me returned no id")));
    }
    let mut out: Vec<String> = Vec::new();
    let mut i: usize = 0;
    while i < assignees.len()
        invariant
            i <= assignees.len(),
            crate::validation::string_views(out@) == with_me(assignees@.take(i as int), my_id@),
        decreases assignees.len() - i,
    {
        let v = if crate::text::str_eq(assignees[i].as_str(), "me") {
            to_owned_string(my_id)
        } else {
            assignees[i].clone()
        };
        let ghost before = crate::validation::string_views(out@);
        out.push(v);
        assert(crate::validation::string_views(out@) =~= before.push(v@));
        assert(with_me(assignees@.take(i + 1), my_id@) =~= with_me(assignees@.take(i as int), my_id@).push(
            v@,
        ));
        i = i + 1;
    }
    assert(assignees@.take(assignees.len() as int) =~= assignees@);
    Ok(out)
}

// ---- labels on an existing nest ----

/// The label codes of a nest payload (none when it has no `labels` array).
pub open spec fn nest_label_codes(nest: Json) -> Seq<Seq<char>> {
    match get_spec(nest, "labels"@) {
        Some(Json::Array(a)) => label_codes_spec(a@),
        _ => seq![],
    }
}

/// Whether the label `label_id` may be added to the nest `nest`: a prime label is
/// refused when the nest already carries a different prime; anything else is allowed.
pub fn check_added_label(nest: &Json, label_id: &str) -> (r: Result<(), LabelError>)
    ensures
        r is Ok <==> (!is_prime_spec(label_id@) || first_other_prime(nest_label_codes(*nest), label_id@) is None),
        r matches Err(e) ==> e matches LabelError::PrimeConflict { current, adding } && adding@
            == label_id@ && Some(current@) == first_other_prime(nest_label_codes(*nest), label_id@),
{
    if !is_prime(label_id) {
        return Ok(());
    }
    let existing = match get(nest, "labels") {
        Some(Json::Array(a)) => label_codes(a),
        _ => Vec::new(),
    };
    assert(crate::validation::string_views(existing@) == nest_label_codes(*nest));
    validate_added_prime(existing.as_slice(), label_id)
}

/// The `message` of a response, or `fallback` when it carries none.
pub fn message_or(data: &Json, fallback: &str) -> (r: String)
    ensures
        r@ == match as_str_spec(get_spec(*data, "message"@)) {
            Some(m) => m,
            None => fallback@,
        },
{
    match as_str(get(data, "message")) {
        Some(m) => to_owned_string(m),
        None => to_owned_string(fallback),
    }
}

// ---- profiles ----

/// The host a new profile gets: `--host` (or `NESTR_HOST`), else Nestr's hosted app,
/// without trailing slashes.
pub open spec fn new_host(host_override: Option<&str>) -> Seq<char> {
    trim_end_slashes(
        match host_override {
            Some(h) => h@,
            None => "https://app.nestr.io"@,
        },
    )
}

/// Whether an added profile becomes the default: always the first profile, else
/// only when the user confirmed it.
pub fn should_set_default(first: bool, confirmed: bool) -> (r: bool)
    ensures
        r == (first || confirmed),
{
    first || confirmed
}

/// A fresh profile before its credentials are chosen: the chosen auth method, file
/// storage, the host, no workspace yet, no credentials or overrides, text output.
pub fn new_profile(use_oauth: bool, host_override: Option<&str>) -> (p: Profile)
    ensures
        p.auth == (if use_oauth {
            AuthKind::OAuth
        } else {
            AuthKind::ApiKey
        }),
        p.credential_storage == CredentialStorage::File,
        p.host@ == new_host(host_override),
        p.workspace_id@.len() == 0,
        p.api_key is None,
        p.label is None,
        p.oauth_client_id is None,
        p.oauth_token_url is None,
        p.oauth_authorize_url is None,
        p.oauth_tokens is None,
        p.default_output_format == Some(OutputFormat::Text),
{
    let host = match host_override {
        Some(h) => trim_end_slashes_of(h),
        None => trim_end_slashes_of("https://app.nestr.io"),
    };
    Profile {
        auth: if use_oauth {
            AuthKind::OAuth
        } else {
            AuthKind::ApiKey
        },
        credential_storage: CredentialStorage::File,
        host,
        workspace_id: String::new(),
        api_key: None,
        label: None,
        oauth_client_id: None,
        oauth_token_url: None,
        oauth_authorize_url: None,
        oauth_tokens: None,
        default_output_format: Some(OutputFormat::Text),
    }
}

pub open spec fn auth_name(a: AuthKind) -> Seq<char> {
    match a {
        AuthKind::OAuth => "oauth"@,
        AuthKind::ApiKey => "api-key"@,
    }
}

pub open spec fn profile_row(entry: (String, Profile), default_profile: Seq<char>) -> Seq<Seq<char>> {
    seq![
        entry.0@,
        entry.1.host@,
        entry.1.workspace_id@,
        auth_name(entry.1.auth),
        if entry.0@ == default_profile {
            "yes"@
        } else {
            seq![]
        },
    ]
}

pub open spec fn profiles_table_spec(entries: Seq<(String, Profile)>, default_profile: Seq<char>) -> Seq<char> {
    format_table_spec(
        seq!["NAME"@, "HOST"@, "WORKSPACE"@, "AUTH"@, "DEFAULT"@],
        entries.map_values(|e: (String, Profile)| profile_row(e, default_profile)),
    )
}

/// The profiles table lays out, under NAME, HOST, WORKSPACE, AUTH and DEFAULT, one
/// record per entry in order: its name, host, workspace, `oauth` or `api-key`, and
/// `yes` exactly when its name is the default profile's (else nothing).
pub proof fn lemma_profiles_table_default(entries: Seq<(String, Profile)>, default_profile: Seq<char>)
    ensures
        profiles_table_spec(entries, default_profile) == format_table_spec(
            seq!["NAME"@, "HOST"@, "WORKSPACE"@, "AUTH"@, "DEFAULT"@],
            Seq::new(
                entries.len(),
                |i: int|
                    seq![
                        entries[i].0@,
                        entries[i].1.host@,
                        entries[i].1.workspace_id@,
                        match entries[i].1.auth {
                            AuthKind::OAuth => "oauth"@,
                            AuthKind::ApiKey => "api-key"@,
                        },
                        if entries[i].0@ == default_profile {
                            "yes"@
                        } else {
                            seq![]
                        },
                    ],
            ),
        ),
{
    let m = entries.map_values(|e: (String, Profile)| profile_row(e, default_profile));
    assert forall|i: int| 0 <= i < entries.len() implies #[trigger] m[i] =~= seq![
        entries[i].0@,
        entries[i].1.host@,
        entries[i].1.workspace_id@,
        match entries[i].1.auth {
            AuthKind::OAuth => "oauth"@,
            AuthKind::ApiKey => "api-key"@,
        },
        if entries[i].0@ == default_profile {
            "yes"@
        } else {
            seq![]
        },
    ] by {
        assert(m[i] == profile_row(entries[i], default_profile));
    }
    assert(entries.map_values(|e: (String, Profile)| profile_row(e, default_profile)) =~= Seq::new(
        entries.len(),
        |i: int|
            seq![
                entries[i].0@,
                entries[i].1.host@,
                entries[i].1.workspace_id@,
                match entries[i].1.auth {
                    AuthKind::OAuth => "oauth"@,
                    AuthKind::ApiKey => "api-key"@,
                },
                if entries[i].0@ == default_profile {
                    "yes"@
                } else {
                    seq![]
                },
            ],
    ));
}

/// The profiles list: name, host, workspace, auth method, and which is the default.
pub fn profiles_table(entries: &[(String, Profile)], default_profile: &str) -> (r: String)
    ensures
        r@ == profiles_table_spec(entries@, default_profile@),
{
    let mut rows: Vec<Vec<String>> = Vec::new();
    let mut i: usize = 0;
    while i < entries.len()
        invariant
            i <= entries.len(),
            rows_view(rows@) == entries@.take(i as int).map_values(
                |e: (String, Profile)| profile_row(e, default_profile@),
            ),
        decreases entries.len() - i,
    {
        let (name, p) = &entries[i];
        let mut row: Vec<String> = Vec::new();
        row.push(name.clone());
        row.push(p.host.clone());
        row.push(p.workspace_id.clone());
        row.push(
            match p.auth {
                AuthKind::OAuth => to_owned_string("oauth"),
                AuthKind::ApiKey => to_owned_string("api-key"),
            },
        );
        row.push(
            if crate::text::str_eq(name.as_str(), default_profile) {
                to_owned_string("yes")
            } else {
                String::new()
            },
        );
        assert(crate::validation::string_views(row@) =~= profile_row(entries@[i as int], default_profile@));
        let ghost before = rows_view(rows@);
        rows.push(row);
        assert(rows_view(rows@) =~= before.push(profile_row(entries@[i as int], default_profile@)));
        assert(entries@.take(i + 1).map_values(|e: (String, Profile)| profile_row(e, default_profile@))
            =~= entries@.take(i as int).map_values(
            |e: (String, Profile)| profile_row(e, default_profile@),
        ).push(profile_row(entries@[i as int], default_profile@)));
        i = i + 1;
    }
    assert(entries@.take(entries.len() as int) =~= entries@);
    let mut h: Vec<&str> = Vec::new();
    h.push("NAME");
    h.push("HOST");
    h.push("WORKSPACE");
    h.push("AUTH");
    h.push("DEFAULT");
    assert(str_views(h@) =~= seq!["NAME"@, "HOST"@, "WORKSPACE"@, "AUTH"@, "DEFAULT"@]);
    format_table(h.as_slice(), rows)
}

/// Drop the credentials a profile file holds (token set and API key). Returns whether
/// there were any, that is whether the profile must be saved.
pub fn clear_credentials(p: &mut Profile) -> (changed: bool)
    ensures
        changed == (old(p).oauth_tokens is Some || old(p).api_key is Some),
        final(p).oauth_tokens is None,
        final(p).api_key is None,
        final(p).host == old(p).host,
        final(p).workspace_id == old(p).workspace_id,
        final(p).auth == old(p).auth,
        final(p).credential_storage == old(p).credential_storage,
        final(p).label == old(p).label,
        final(p).oauth_client_id == old(p).oauth_client_id,
        final(p).oauth_token_url == old(p).oauth_token_url,
        final(p).oauth_authorize_url == old(p).oauth_authorize_url,
        final(p).default_output_format == old(p).default_output_format,
{
    if p.oauth_tokens.is_some() || p.api_key.is_some() {
        p.oauth_tokens = None;
        p.api_key = None;
        true
    } else {
        false
    }
}

pub open spec fn storage_debug_name(s: CredentialStorage) -> Seq<char> {
    match s {
        CredentialStorage::File => "File"@,
        CredentialStorage::OsStore => "OsStore"@,
    }
}

/// The last line of `auth status`: the auth method and, for OAuth, the state of the
/// token set at `now`.
pub open spec fn auth_state_line(p: Profile, tokens: Option<StoredOAuthTokens>, now: u64) -> Seq<char> {
    match p.auth {
        AuthKind::ApiKey => "auth:      api-key ("@ + storage_debug_name(p.credential_storage) + ")"@,
        AuthKind::OAuth => match tokens {
            Some(t) => if valid_at_spec(t.expiry, now) {
                "auth:      oauth (token valid)"@
            } else {
                "auth:      oauth (token expired — `nestr auth login` or it will refresh on next call)"@
            },
            None => "auth:      oauth (not logged in — run `nestr auth login`)"@,
        },
    }
}

pub open spec fn auth_status_spec(name: Seq<char>, p: Profile, tokens: Option<StoredOAuthTokens>, now: u64) -> Seq<Seq<char>> {
    seq![
        "profile:   "@ + name,
        "host:      "@ + p.host@,
        "api_base:  "@ + p.host_trimmed_spec() + "/api"@,
        "workspace: "@ + p.workspace_id@,
        auth_state_line(p, tokens, now),
    ]
}

/// The `auth status` report for the profile `name`, whose OAuth token set (from the
/// profile file or the keyring) is `tokens`, judged at `now`.
pub fn auth_status_lines(name: &str, p: &Profile, tokens: &Option<StoredOAuthTokens>, now: u64) -> (lines: Vec<String>)
    ensures
        crate::validation::string_views(lines@) == auth_status_spec(name@, *p, *tokens, now),
{
    let mut lines: Vec<String> = Vec::new();
    let mut a = to_owned_string("profile:   ");
    push_str(&mut a, name);
    lines.push(a);
    let mut b = to_owned_string("host:      ");
    push_str(&mut b, p.host.as_str());
    lines.push(b);
    let mut c = to_owned_string("api_base:  ");
    push_str(&mut c, p.api_base().as_str());
    lines.push(c);
    let mut d = to_owned_string("workspace: ");
    push_str(&mut d, p.workspace_id.as_str());
    lines.push(d);
    let last = match p.auth {
        AuthKind::ApiKey => {
            let mut x = to_owned_string("auth:      api-key (");
            let sn = match p.credential_storage {
                CredentialStorage::File => "File",
                CredentialStorage::OsStore => "OsStore",
            };
            assert(sn@ == storage_debug_name(p.credential_storage));
            push_str(&mut x, sn);
            push_str(&mut x, ")");
            x
        },
        AuthKind::OAuth => match tokens {
            Some(t) => if t.is_valid_at(now) {
                to_owned_string("auth:      oauth (token valid)")
            } else {
                to_owned_string(
                    "auth:      oauth (token expired — `nestr auth login` or it will refresh on next call)",
                )
            },
            None => to_owned_string("auth:      oauth (not logged in — run `nestr auth login`)"),
        },
    };
    assert(last@ == auth_state_line(*p, *tokens, now));
    lines.push(last);
    assert(lines@.len() == 5);
    assert(lines@[0]@ == "profile:   "@ + name@);
    assert(lines@[1]@ == "host:      "@ + p.host@);
    assert(lines@[2]@ == "api_base:  "@ + p.host_trimmed_spec() + "/api"@);
    assert(lines@[3]@ == "workspace: "@ + p.workspace_id@);
    assert(lines@[4]@ == auth_state_line(*p, *tokens, now));
    assert(crate::validation::string_views(lines@) =~= auth_status_spec(name@, *p, *tokens, now));
    lines
}

// ---- identity ----

/// A string member of `v` (or of its member `outer`), else `-`.
pub open spec fn text_or_dash(v: Option<Json>) -> Seq<char> {
    match as_str_spec(v) {
        Some(t) => t,
        None => "-"@,
    }
}

pub open spec fn me_spec(v: Json, profile_name: Seq<char>, workspace_id: Seq<char>) -> Seq<Seq<char>> {
    let name = text_or_dash(
        match get_spec(v, "profile"@) {
            Some(p) => get_spec(p, "fullName"@),
            None => None,
        },
    );
    seq![
        clean_text_spec(name) + "  <"@ + clean_text_spec(text_or_dash(get_spec(v, "username"@)))
            + ">  ["@ + text_or_dash(get_spec(v, "_id"@)) + "]"@,
        "profile: "@ + profile_name + "  workspace: "@ + workspace_id,
    ]
}

fn str_or_dash(v: Option<&Json>) -> (r: &str)
    ensures
        r@ == text_or_dash(
            match v {
                Some(x) => Some(*x),
                None => None,
            },
        ),
{
    match as_str(v) {
        Some(t) => t,
        None => "-",
    }
}

/// The text-mode summary of `nestr me`: name, username and id, then the profile and
/// workspace in use.
pub fn me_lines(v: &Json, profile_name: &str, workspace_id: &str) -> (lines: Vec<String>)
    ensures
        crate::validation::string_views(lines@) == me_spec(*v, profile_name@, workspace_id@),
{
    let full = match get(v, "profile") {
        Some(p) => get(p, "fullName"),
        None => None,
    };
    let mut a = clean_text(str_or_dash(full));
    push_str(&mut a, "  <");
    push_str(&mut a, clean_text(str_or_dash(get(v, "username"))).as_str());
    push_str(&mut a, ">  [");
    push_str(&mut a, str_or_dash(get(v, "_id")));
    push_str(&mut a, "]");
    let mut b = to_owned_string("profile: ");
    push_str(&mut b, profile_name);
    push_str(&mut b, "  workspace: ");
    push_str(&mut b, workspace_id);
    let mut lines: Vec<String> = Vec::new();
    lines.push(a);
    lines.push(b);
    assert(lines@[0]@ == me_spec(*v, profile_name@, workspace_id@)[0]);
    assert(lines@[1]@ == me_spec(*v, profile_name@, workspace_id@)[1]);
    assert(crate::validation::string_views(lines@) =~= me_spec(*v, profile_name@, workspace_id@));
    lines
}

// ---- simple bodies ----

/// The members for the given `(key, text)` fields, leaving out those not given.
pub open spec fn opt_text_members(fields: Seq<(&str, Option<String>)>) -> Seq<(Seq<char>, JsonView)>
    decreases fields.len(),
{
    if fields.len() == 0 {
        seq![]
    } else {
        opt_text_members(fields.drop_last()) + opt_text_member(fields.last().0@, fields.last().1)
    }
}

/// A body of string members, in the order given, leaving out the fields not given.
pub fn text_body(fields: Vec<(&str, Option<String>)>) -> (r: Json)
    ensures
        json_view(r) == JsonView::Object(opt_text_members(fields@)),
{
    let ghost all = fields@;
    let n: usize = fields.len();
    let mut e: Vec<(String, Json)> = Vec::new();
    let mut rest = fields;
    let mut done: usize = 0;
    while rest.len() > 0
        invariant
            done + rest@.len() == n,
            n == all.len(),
            rest@ == all.skip(done as int),
            entry_views(e@) == opt_text_members(all.take(done as int)),
        decreases rest.len(),
    {
        let (key, value) = rest.remove(0);
        proof {
            let t = all.take(done + 1);
            assert(t.drop_last() =~= all.take(done as int));
            assert(t.last() == all[done as int]);
            assert(rest@ =~= all.skip(done + 1));
        }
        push_opt_text(&mut e, key, value);
        done = done + 1;
    }
    assert(all.take(n as int) =~= all);
    Json::Object(e)
}

/// String members, then `key` holding an object of the `sub` members when any of them
/// is given (the user write bodies: `username` beside a `profile` object).
pub fn nested_text_body(fields: Vec<(&str, Option<String>)>, key: &str, sub: Vec<(&str, Option<String>)>) -> (r: Json)
    ensures
        json_view(r) == JsonView::Object(
            opt_text_members(fields@) + (if opt_text_members(sub@).len() > 0 {
                seq![(key@, JsonView::Object(opt_text_members(sub@)))]
            } else {
                seq![]
            }),
        ),
{
    let inner = text_body(sub);
    let outer = text_body(fields);
    match (outer, inner) {
        (Json::Object(mut e), Json::Object(i)) => {
            let ghost before = entry_views(e@);
            if i.len() > 0 {
                push_member(&mut e, key, Json::Object(i));
            } else {
                assert(entry_views(i@).len() == 0);
            }
            assert(entry_views(e@) =~= before + (if entry_views(i@).len() > 0 {
                seq![(key@, JsonView::Object(entry_views(i@)))]
            } else {
                seq![]
            }));
            Json::Object(e)
        },
        (o, _) => o,
    }
}

pub open spec fn comment_body_spec(text: Seq<char>, nest_id: Seq<char>, labels: Seq<String>) -> JsonView {
    JsonView::Object(
        seq![("body"@, JsonView::Str(text)), ("parentId"@, JsonView::Str(nest_id))] + texts_member(
            "labels"@,
            labels,
        ),
    )
}

/// The `POST /nests/{id}/posts` body of a new comment: its text under `body`, the
/// nest under `parentId`, and its labels when there are any.
pub fn comment_body(text: &str, nest_id: &str, labels: &[String]) -> (r: Json)
    ensures
        json_view(r) == comment_body_spec(text@, nest_id@, labels@),
{
    let mut e: Vec<(String, Json)> = Vec::new();
    push_member(&mut e, "body", Json::Str(to_owned_string(text)));
    push_member(&mut e, "parentId", Json::Str(to_owned_string(nest_id)));
    push_texts(&mut e, "labels", labels);
    assert(entry_views(e@) =~= seq![("body"@, JsonView::Str(text@)), ("parentId"@, JsonView::Str(nest_id@))] + texts_member(
        "labels"@,
        labels@,
    ));
    Json::Object(e)
}

} // verus!

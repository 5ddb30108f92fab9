//! The record shapes the text renderers read from Nestr's payloads. Missing fields
//! read as their defaults; label and title lists keep Nestr's polymorphic items.

use vstd::prelude::*;

use crate::json::{as_str, as_str_spec, member, member_of, Json};
use crate::oauth::opt_view;
use crate::text::{join, to_owned_string};
use crate::validation::string_views;

verus! {

/// `a.or(b).or(c)`.
pub open spec fn first_of(a: Option<Json>, b: Option<Json>, c: Option<Json>) -> Option<Json> {
    if a is Some {
        a
    } else if b is Some {
        b
    } else {
        c
    }
}

/// The identifier of one label: a bare string, or the `code`, else `title`, else
/// `_id` member of an object — whichever member is present first, when it is a string.
pub open spec fn label_code_spec(l: Json) -> Option<Seq<char>> {
    match l {
        Json::Str(s) => Some(s@),
        Json::Object(o) => as_str_spec(
            first_of(member(o@, "code"@), member(o@, "title"@), member(o@, "_id"@)),
        ),
        _ => None,
    }
}

/// The identifiers of a label list, skipping items that yield none.
pub open spec fn label_codes_spec(labels: Seq<Json>) -> Seq<Seq<char>>
    decreases labels.len(),
{
    if labels.len() == 0 {
        seq![]
    } else {
        let rest = label_codes_spec(labels.drop_last());
        match label_code_spec(labels.last()) {
            Some(c) => rest.push(c),
            None => rest,
        }
    }
}

/// The display title of an accountability/domain item: a bare string, or the `title`
/// member of an object when it is a string.
pub open spec fn title_spec(i: Json) -> Option<Seq<char>> {
    match i {
        Json::Str(s) => Some(s@),
        Json::Object(o) => as_str_spec(member(o@, "title"@)),
        _ => None,
    }
}

pub open spec fn titles_spec(items: Seq<Json>) -> Seq<Seq<char>>
    decreases items.len(),
{
    if items.len() == 0 {
        seq![]
    } else {
        let rest = titles_spec(items.drop_last());
        match title_spec(items.last()) {
            Some(t) => rest.push(t),
            None => rest,
        }
    }
}

fn label_code(l: &Json) -> (r: Option<String>)
    ensures
        opt_view(r) == label_code_spec(*l),
{
    match l {
        Json::Str(s) => Some(s.clone()),
        Json::Object(o) => {
            let code = member_of(o, "code");
            let picked = match code {
                Some(x) => Some(x),
                None => match member_of(o, "title") {
                    Some(x) => Some(x),
                    None => member_of(o, "_id"),
                },
            };
            match as_str(picked) {
                Some(s) => Some(to_owned_string(s)),
                None => None,
            }
        },
        _ => None,
    }
}

fn item_title(i: &Json) -> (r: Option<String>)
    ensures
        opt_view(r) == title_spec(*i),
{
    match i {
        Json::Str(s) => Some(s.clone()),
        Json::Object(o) => match as_str(member_of(o, "title")) {
            Some(s) => Some(to_owned_string(s)),
            None => None,
        },
        _ => None,
    }
}

/// Extract label identifiers (handles `["code"]` and `[{code|title|_id}]`), skipping
/// anything that yields no string. The single source of truth for a nest's labels.
pub fn label_codes(labels: &Vec<Json>) -> (r: Vec<String>)
    ensures
        string_views(r@) == label_codes_spec(labels@),
{
    let mut out: Vec<String> = Vec::new();
    let mut i: usize = 0;
    while i < labels.len()
        invariant
            i <= labels.len(),
            string_views(out@) == label_codes_spec(labels@.take(i as int)),
        decreases labels.len() - i,
    {
        proof {
            let t = labels@.take(i + 1);
            assert(t.drop_last() =~= labels@.take(i as int));
            assert(t.last() == labels@[i as int]);
        }
        match label_code(&labels[i]) {
            Some(c) => {
                let ghost before = string_views(out@);
                out.push(c);
                assert(string_views(out@) =~= before.push(out@[out@.len() - 1]@));
            },
            None => {},
        }
        i = i + 1;
    }
    assert(labels@.take(labels.len() as int) =~= labels@);
    out
}

/// Extract display titles from an `accountabilities`/`domains` array, whose items are
/// either `{_id, title}` objects or bare strings.
pub fn view_titles(items: &Vec<Json>) -> (r: Vec<String>)
    ensures
        string_views(r@) == titles_spec(items@),
{
    let mut out: Vec<String> = Vec::new();
    let mut i: usize = 0;
    while i < items.len()
        invariant
            i <= items.len(),
            string_views(out@) == titles_spec(items@.take(i as int)),
        decreases items.len() - i,
    {
        proof {
            let t = items@.take(i + 1);
            assert(t.drop_last() =~= items@.take(i as int));
            assert(t.last() == items@[i as int]);
        }
        match item_title(&items[i]) {
            Some(c) => {
                let ghost before = string_views(out@);
                out.push(c);
                assert(string_views(out@) =~= before.push(out@[out@.len() - 1]@));
            },
            None => {},
        }
        i = i + 1;
    }
    assert(items@.take(items.len() as int) =~= items@);
    out
}

/// The strings joined with `sep` between neighbours.
pub fn join_strings(parts: &Vec<String>, sep: &str) -> (r: String)
    ensures
        r@ == join(string_views(parts@), sep@),
{
    let mut s = String::new();
    let mut i: usize = 0;
    while i < parts.len()
        invariant
            i <= parts.len(),
            s@ == join(string_views(parts@).take(i as int), sep@),
        decreases parts.len() - i,
    {
        proof {
            let q = string_views(parts@).take(i as int);
            assert(string_views(parts@).take(i + 1) =~= q.push(parts@[i as int]@));
            crate::text::lemma_join_push(q, parts@[i as int]@, sep@);
        }
        if i > 0 {
            crate::text::push_str(&mut s, sep);
        }
        crate::text::push_str(&mut s, parts[i].as_str());
        proof {
            assert(s@ =~= join(string_views(parts@).take(i + 1), sep@));
        }
        i = i + 1;
    }
    assert(string_views(parts@).take(parts.len() as int) =~= string_views(parts@));
    s
}

pub open spec fn join_labels_spec(labels: Seq<Json>) -> Seq<char> {
    join(label_codes_spec(labels), ","@)
}

/// Join label identifiers for display (handles `["code"]` and `[{code|title|_id}]`).
pub fn join_labels(labels: &Vec<Json>) -> (r: String)
    ensures
        r@ == join_labels_spec(labels@),
{
    join_strings(&label_codes(labels), ",")
}

/// An optional string's text, or the empty string (`unwrap_or_default`).
pub open spec fn text_or_empty(o: Option<String>) -> Seq<char> {
    match o {
        Some(s) => s@,
        None => seq![],
    }
}

pub fn clone_or_empty(o: &Option<String>) -> (r: String)
    ensures
        r@ == text_or_empty(*o),
{
    match o {
        Some(s) => s.clone(),
        None => String::new(),
    }
}

/// The compact field set rendered for any Nest-shaped object (search hits, children,
/// projects, inbox items, daily-plan items).
#[derive(Debug)]
pub struct CompactNest {
    pub id: String,
    pub title: String,
    pub purpose: Option<String>,
    pub completed: Option<bool>,
    pub labels: Vec<Json>,
    pub due: Option<String>,
    pub parent_id: Option<String>,
}

impl CompactNest {
    /// Label identifiers joined with `,`.
    pub fn labels_str(&self) -> (r: String)
        ensures
            r@ == join_labels_spec(self.labels@),
    {
        join_labels(&self.labels)
    }
}

/// A comment (a Nest with `type:"comment"`). Its text lives under `body` or `title`.
#[derive(Debug)]
pub struct PostView {
    pub id: String,
    pub body: Option<String>,
    pub title: Option<String>,
    pub created_by: Option<String>,
    pub created_at: Option<String>,
}

/// A comment's text: `body`, else `title`, else empty.
pub open spec fn post_text_spec(p: PostView) -> Seq<char> {
    match p.body {
        Some(b) => b@,
        None => text_or_empty(p.title),
    }
}

impl PostView {
    /// The comment's text: `body`, else `title`, else empty.
    pub fn text(&self) -> (r: String)
        ensures
            r@ == post_text_spec(*self),
    {
        match &self.body {
            Some(b) => b.clone(),
            None => clone_or_empty(&self.title),
        }
    }
}

#[derive(Debug)]
pub struct NotificationView {
    pub id: String,
    pub group: Option<String>,
    pub title: Option<String>,
    pub actor_name: Option<String>,
    pub created_at: Option<String>,
    pub is_read: bool,
}

#[derive(Debug)]
pub struct LabelView {
    pub id: String,
    pub title: Option<String>,
    pub color: Option<String>,
    pub icon: Option<String>,
}

/// A role or a circle: a Nest plus `accountabilities[]` and `domains[]`.
#[derive(Debug)]
pub struct RoleView {
    pub id: String,
    pub title: String,
    pub purpose: Option<String>,
    pub labels: Vec<Json>,
    pub parent_id: Option<String>,
    pub accountabilities: Vec<Json>,
    pub domains: Vec<Json>,
}

impl RoleView {
    pub fn labels_str(&self) -> (r: String)
        ensures
            r@ == join_labels_spec(self.labels@),
    {
        join_labels(&self.labels)
    }

    pub fn acc_titles(&self) -> (r: Vec<String>)
        ensures
            string_views(r@) == titles_spec(self.accountabilities@),
    {
        view_titles(&self.accountabilities)
    }

    pub fn domain_titles(&self) -> (r: Vec<String>)
        ensures
            string_views(r@) == titles_spec(self.domains@),
    {
        view_titles(&self.domains)
    }
}

#[derive(Debug)]
pub struct UserProfile {
    pub full_name: Option<String>,
    pub email: Option<String>,
}

#[derive(Debug)]
pub struct UserView {
    pub id: String,
    pub username: Option<String>,
    pub profile: Option<UserProfile>,
    pub bot: Option<bool>,
}

/// The profile's full name, or empty.
pub open spec fn full_name_spec(u: UserView) -> Seq<char> {
    match u.profile {
        Some(p) => text_or_empty(p.full_name),
        None => seq![],
    }
}

impl UserView {
    /// The profile's full name, or empty.
    pub fn full_name(&self) -> (r: String)
        ensures
            r@ == full_name_spec(*self),
    {
        match &self.profile {
            Some(p) => clone_or_empty(&p.full_name),
            None => String::new(),
        }
    }
}

#[derive(Debug)]
pub struct GroupView {
    pub id: String,
    pub name: Option<String>,
}

#[derive(Debug)]
pub struct AppView {
    pub id: String,
    pub title: Option<String>,
    pub enabled: bool,
}

/// A tension: a Nest with a computed `status`.
#[derive(Debug)]
pub struct TensionView {
    pub id: String,
    pub title: String,
    pub description: Option<String>,
    pub labels: Vec<Json>,
    pub parent_id: Option<String>,
    pub status: Option<String>,
    pub completed: Option<bool>,
}

/// A proposal part: contains one or more proposal items.
#[derive(Debug)]
pub struct PartView {
    pub id: String,
    pub title: Option<String>,
    pub items: Vec<Json>,
}

/// A value of a computed diff, as the diff renderer reads it: JSON `null`, a string,
/// an array, or any other value held as its compact JSON text.
#[derive(Debug)]
pub enum ChangeValue {
    Null,
    Text(String),
    List(Vec<ChangeValue>),
    Other(String),
}

/// One line of a computed diff for a proposal part.
#[derive(Debug)]
pub struct ChangeView {
    pub nest_id: Option<String>,
    pub variable: String,
    pub new_value: ChangeValue,
    pub old_value: ChangeValue,
}

#[derive(Debug)]
pub struct StatusResponse {
    pub user_id: Option<String>,
    pub response: Option<String>,
    pub voted_at: Option<String>,
}

#[derive(Debug)]
pub struct StatusView {
    pub status: Option<String>,
    pub responses: Vec<StatusResponse>,
    pub autoapprove: Option<String>,
}

/// An accountability/domain child of a proposal part.
#[derive(Debug)]
pub struct ChildView {
    pub id: String,
    pub title: Option<String>,
    pub labels: Vec<Json>,
    pub link_id: Option<String>,
}

/// A graph-link edge: the linked nest, annotated with its relation and direction.
#[derive(Debug)]
pub struct LinkView {
    pub id: String,
    pub title: String,
    pub labels: Vec<Json>,
    pub relation: Option<String>,
    pub direction: Option<String>,
}

/// A workspace webhook subscription.
#[derive(Debug)]
pub struct WebhookView {
    pub id: String,
    pub url: Option<String>,
    pub type_: Option<String>,
    pub event: Option<String>,
    pub label: Option<String>,
    pub ancestor_id: Option<String>,
    pub created_at: Option<String>,
    pub trigger_count: Option<u64>,
    pub error_count: Option<u64>,
}

} // verus!

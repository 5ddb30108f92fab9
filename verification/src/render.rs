//! Text-mode rendering: cleaning API strings for the terminal, footers and tables.

use colored::Colorize;
use vstd::prelude::*;

use crate::text::{
    chars_of, collapse_whitespace, collapse_ws, is_control, is_control_spec, is_ws_spec, words, join, push_char,
    push_decimal, push_str, single_spaced, string_from_chars, to_owned_string, decimal, decimal_string,
};
use crate::json::{
    as_str, as_str_spec, get, get_spec, item_views, json_pretty, json_pretty_spec, json_view, member,
    member_of, Json, JsonView,
};
use crate::oauth::opt_view;
use crate::validation::string_views;
use crate::views::{
    clone_or_empty, full_name_spec, join_labels, join_labels_spec, text_or_empty, titles_spec, AppView, CompactNest, GroupView, LinkView,
    RoleView, TensionView, UserView, WebhookView, PartView, ChildView, StatusView, StatusResponse, ChangeValue, ChangeView, join_strings, PostView, LabelView, post_text_spec, NotificationView,
};
use crate::config::or_default;

verus! {

// ---- cleaning strings for the terminal ----

/// Characters kept by `sanitize`: everything but control characters, except `\n` and `\t`.
pub open spec fn keep_char(c: char) -> bool {
    !is_control_spec(c) || c == '\n' || c == '\t'
}

pub open spec fn sanitize_spec(s: Seq<char>) -> Seq<char>
    decreases s.len(),
{
    if s.len() == 0 {
        seq![]
    } else if keep_char(s.last()) {
        sanitize_spec(s.drop_last()).push(s.last())
    } else {
        sanitize_spec(s.drop_last())
    }
}

/// Drop terminal control characters (ESC, BEL, CSI/OSC bytes, bare CR, …) from an
/// API-derived string before it reaches a terminal; keep `\n` and `\t`. Guards against
/// clipboard writes, title spoofing and cursor tricks authored by other members.
pub fn sanitize(s: &str) -> (r: String)
    ensures
        r@ == sanitize_spec(s@),
{
    let v = chars_of(s);
    let mut out = String::new();
    let mut i: usize = 0;
    while i < v.len()
        invariant
            i <= v.len(),
            v@ == s@,
            out@ == sanitize_spec(v@.take(i as int)),
        decreases v.len() - i,
    {
        let c = v[i];
        proof {
            let t = v@.take(i + 1);
            assert(t.drop_last() =~= v@.take(i as int));
            assert(t.last() == c);
        }
        if !is_control(c) || c == '\n' || c == '\t' {
            push_char(&mut out, c);
        }
        i = i + 1;
    }
    assert(v@.take(v.len() as int) =~= v@);
    out
}

/// The text outside `<…>` tags: `<` opens a tag, `>` closes it, neither is kept.
/// The second component tells whether the text ends inside a tag.
pub open spec fn drop_tags(s: Seq<char>) -> (Seq<char>, bool)
    decreases s.len(),
{
    if s.len() == 0 {
        (seq![], false)
    } else {
        let (out, in_tag) = drop_tags(s.drop_last());
        let c = s.last();
        if c == '<' {
            (out, true)
        } else if c == '>' {
            (out, false)
        } else if !in_tag {
            (out.push(c), in_tag)
        } else {
            (out, in_tag)
        }
    }
}

pub open spec fn strip_html_spec(s: Seq<char>) -> Seq<char> {
    collapse_ws(drop_tags(s).0)
}

/// Strip HTML tags and collapse whitespace from rich-text titles for terminal display.
pub fn strip_html(s: &str) -> (r: String)
    ensures
        r@ == strip_html_spec(s@),
{
    let v = chars_of(s);
    let mut out: Vec<char> = Vec::new();
    let mut in_tag = false;
    let mut i: usize = 0;
    while i < v.len()
        invariant
            i <= v.len(),
            v@ == s@,
            (out@, in_tag) == drop_tags(v@.take(i as int)),
        decreases v.len() - i,
    {
        let c = v[i];
        proof {
            let t = v@.take(i + 1);
            assert(t.drop_last() =~= v@.take(i as int));
            assert(t.last() == c);
        }
        if c == '<' {
            in_tag = true;
        } else if c == '>' {
            in_tag = false;
        } else if !in_tag {
            out.push(c);
        }
        i = i + 1;
    }
    assert(v@.take(v.len() as int) =~= v@);
    let collapsed = collapse_whitespace(&out);
    string_from_chars(&collapsed)
}

/// Every character `sanitize` keeps is a kept character of its input.
pub proof fn lemma_sanitize_chars(s: Seq<char>)
    ensures
        forall|i: int|
            0 <= i < sanitize_spec(s).len() ==> keep_char(#[trigger] sanitize_spec(s)[i])
                && s.contains(sanitize_spec(s)[i]),
    decreases s.len(),
{
    if s.len() > 0 {
        let t = s.drop_last();
        lemma_sanitize_chars(t);
        assert forall|x: char| t.contains(x) implies s.contains(x) by {
            let i = choose|i: int| 0 <= i < t.len() && t[i] == x;
            assert(s[i] == x);
        }
        assert(s[s.len() - 1] == s.last());
        let p = sanitize_spec(t);
        let r = sanitize_spec(s);
        assert forall|i: int| 0 <= i < r.len() implies keep_char(#[trigger] r[i]) && s.contains(r[i]) by {
            if i < p.len() {
                assert(r[i] == p[i]);
            } else {
                assert(r[i] == s.last());
            }
        }
    }
}

/// Every character of `collapse_ws(s)` is a single space or a non-whitespace
/// character of `s`.
pub proof fn lemma_collapse_ws_chars(s: Seq<char>)
    ensures
        forall|i: int|
            0 <= i < collapse_ws(s).len() ==> #[trigger] collapse_ws(s)[i] == ' ' || (!is_ws_spec(
                collapse_ws(s)[i],
            ) && s.contains(collapse_ws(s)[i])),
{
    crate::text::lemma_words_shape(s);
    crate::text::lemma_join_chars(words(s), seq![' ']);
    let w = words(s);
    let r = collapse_ws(s);
    assert forall|i: int| 0 <= i < r.len() implies #[trigger] r[i] == ' ' || (!is_ws_spec(r[i])
        && s.contains(r[i])) by {
        if !seq![' '].contains(r[i]) {
            let (k, j) = choose|k: int, j: int| 0 <= k < w.len() && 0 <= j < w[k].len() && w[k][j] == r[i];
            assert(!is_ws_spec(w[k][j]) && s.contains(w[k][j]));
        }
    }
}

/// The text outside tags holds neither `<` nor `>`.
pub proof fn lemma_drop_tags_no_brackets(s: Seq<char>)
    ensures
        !drop_tags(s).0.contains('<'),
        !drop_tags(s).0.contains('>'),
    decreases s.len(),
{
    if s.len() > 0 {
        lemma_drop_tags_no_brackets(s.drop_last());
        let (out, in_tag) = drop_tags(s.drop_last());
        let c = s.last();
        if c != '<' && c != '>' && !in_tag {
            assert forall|i: int| 0 <= i < out.push(c).len() implies out.push(c)[i] != '<' && out.push(c)[i] != '>' by {
                if i < out.len() {
                    assert(out.push(c)[i] == out[i]);
                }
            }
        }
    }
}

/// `strip_html` is the text outside tags, split on whitespace and joined by single
/// spaces: it leaves no `<` and no `>` behind, no whitespace but single spaces, none
/// at either end and never two in a row.
pub proof fn lemma_strip_html_clean(s: Seq<char>)
    ensures
        strip_html_spec(s) == join(words(drop_tags(s).0), seq![' ']),
        !strip_html_spec(s).contains('<'),
        !strip_html_spec(s).contains('>'),
        forall|i: int|
            0 <= i < strip_html_spec(s).len() ==> #[trigger] strip_html_spec(s)[i] == ' '
                || !is_ws_spec(strip_html_spec(s)[i]),
        single_spaced(strip_html_spec(s)),
{
    lemma_drop_tags_no_brackets(s);
    lemma_collapse_ws_chars(drop_tags(s).0);
    crate::text::lemma_collapse_ws_single_spaced(drop_tags(s).0);
    let r = strip_html_spec(s);
    assert forall|i: int| 0 <= i < r.len() implies r[i] != '<' && r[i] != '>' by {
        assert(r[i] == ' ' || drop_tags(s).0.contains(r[i]));
    }
}

/// What `clean_text` gives back is a single printable line: no control character
/// (ESC, BEL, NUL, CR, newline, tab, …) and no whitespace other than single spaces,
/// whatever the input and whatever its HTML entities decode to (`&#27;`, `&#x7;`,
/// `&#0;`, …); no whitespace at either end and never two in a row.
pub proof fn lemma_clean_text_printable(s: Seq<char>)
    ensures
        forall|i: int|
            0 <= i < clean_text_spec(s).len() ==> !is_control_spec(#[trigger] clean_text_spec(s)[i])
                && (clean_text_spec(s)[i] == ' ' || !is_ws_spec(clean_text_spec(s)[i])),
        single_spaced(clean_text_spec(s)),
{
    let t = sanitize_spec(unescape_spec(strip_html_spec(sanitize_spec(s))));
    crate::text::lemma_collapse_ws_single_spaced(t);
    lemma_sanitize_chars(unescape_spec(strip_html_spec(sanitize_spec(s))));
    lemma_collapse_ws_chars(t);
    let r = clean_text_spec(s);
    assert forall|i: int| 0 <= i < r.len() implies !is_control_spec(#[trigger] r[i]) && (r[i] == ' '
        || !is_ws_spec(r[i])) by {
        if r[i] != ' ' {
            assert(t.contains(r[i]));
            let k = choose|k: int| 0 <= k < t.len() && t[k] == r[i];
            assert(keep_char(t[k]));
        }
    }
}

/// HTML5 character-reference decoding, as `htmlize::unescape` performs it.
pub uninterp spec fn html_unescape_spec(s: Seq<char>) -> Seq<char>;

/// `htmlize::unescape`: decodes the full HTML5 entity set (`&nbsp;`, `&amp;`,
/// `&#8217;`, …). Text without `&` comes back unchanged.
#[verifier::external_body]
fn html_unescape(s: &str) -> (r: String)
    ensures
        r@ == html_unescape_spec(s@),
        !s@.contains('&') ==> r@ == s@,
{
    htmlize::unescape(s).into_owned()
}

/// Entity decoding: text without `&` is left as it is; other text is decoded as
/// `htmlize::unescape` does it.
pub open spec fn unescape_spec(t: Seq<char>) -> Seq<char> {
    if t.contains('&') {
        html_unescape_spec(t)
    } else {
        t
    }
}

/// What follows the entity decoding: re-sanitize, then one line of single spaces.
pub open spec fn clean_decoded_spec(d: Seq<char>) -> Seq<char> {
    collapse_ws(sanitize_spec(d))
}

pub open spec fn clean_text_spec(s: Seq<char>) -> Seq<char> {
    clean_decoded_spec(unescape_spec(strip_html_spec(sanitize_spec(s))))
}

/// The text without tags, before any entity is decoded.
pub open spec fn clean_plain_spec(s: Seq<char>) -> Seq<char> {
    collapse_ws(sanitize_spec(strip_html_spec(sanitize_spec(s))))
}

/// The last step of the cleaner, on entity-decoded text: re-sanitize (so an
/// entity-encoded control character cannot smuggle an escape back in) and keep it to
/// a single line.
pub fn clean_decoded(decoded: &str) -> (r: String)
    ensures
        r@ == clean_decoded_spec(decoded@),
{
    let v = chars_of(sanitize(decoded).as_str());
    string_from_chars(&collapse_whitespace(&v))
}

/// The characters outside tags are characters of the text.
pub proof fn lemma_drop_tags_chars(s: Seq<char>)
    ensures
        forall|i: int| 0 <= i < drop_tags(s).0.len() ==> s.contains(#[trigger] drop_tags(s).0[i]),
    decreases s.len(),
{
    if s.len() > 0 {
        let t = s.drop_last();
        lemma_drop_tags_chars(t);
        let (out, in_tag) = drop_tags(t);
        let o = drop_tags(s).0;
        assert forall|i: int| 0 <= i < o.len() implies s.contains(#[trigger] o[i]) by {
            if i < out.len() {
                assert(o[i] == out[i]);
                assert(t.contains(out[i]));
                let k = choose|k: int| 0 <= k < t.len() && t[k] == out[i];
                assert(s[k] == t[k]);
            } else {
                assert(o[i] == s[s.len() - 1]);
            }
        }
    }
}

/// Text without `&` has none after sanitizing and stripping tags, so no entity is
/// decoded in it: its cleaned form is the tag-free text, sanitized, on one line.
pub proof fn lemma_clean_text_plain(s: Seq<char>)
    requires
        !s.contains('&'),
    ensures
        !strip_html_spec(sanitize_spec(s)).contains('&'),
        clean_text_spec(s) == clean_plain_spec(s),
{
    let x = sanitize_spec(s);
    lemma_sanitize_chars(s);
    lemma_drop_tags_chars(x);
    lemma_collapse_ws_chars(drop_tags(x).0);
    let r = strip_html_spec(x);
    if r.contains('&') {
        let i = choose|i: int| 0 <= i < r.len() && r[i] == '&';
        assert(r[i] == ' ' || drop_tags(x).0.contains(r[i]));
        let j = choose|j: int| 0 <= j < drop_tags(x).0.len() && drop_tags(x).0[j] == '&';
        assert(x.contains(drop_tags(x).0[j]));
        let k = choose|k: int| 0 <= k < x.len() && x[k] == '&';
        assert(s.contains(x[k]));
    }
}

/// Text whose characters are all kept is left as it is by `sanitize`.
proof fn lemma_sanitize_identity(s: Seq<char>)
    requires
        forall|i: int| 0 <= i < s.len() ==> keep_char(#[trigger] s[i]),
    ensures
        sanitize_spec(s) == s,
    decreases s.len(),
{
    if s.len() > 0 {
        let t = s.drop_last();
        assert forall|i: int| 0 <= i < t.len() implies keep_char(#[trigger] t[i]) by {
            assert(t[i] == s[i]);
        }
        lemma_sanitize_identity(t);
        assert(keep_char(s[s.len() - 1]));
        assert(t.push(s.last()) =~= s);
    }
}

/// Text without `<` and `>` has no tags: all of it is outside them.
proof fn lemma_drop_tags_identity(s: Seq<char>)
    requires
        !s.contains('<'),
        !s.contains('>'),
    ensures
        drop_tags(s) == (s, false),
    decreases s.len(),
{
    if s.len() > 0 {
        let t = s.drop_last();
        assert(!t.contains('<')) by {
            if t.contains('<') {
                let i = choose|i: int| 0 <= i < t.len() && t[i] == '<';
                assert(s[i] == t[i]);
            }
        }
        assert(!t.contains('>')) by {
            if t.contains('>') {
                let i = choose|i: int| 0 <= i < t.len() && t[i] == '>';
                assert(s[i] == t[i]);
            }
        }
        lemma_drop_tags_identity(t);
        assert(s[s.len() - 1] != '<' && s[s.len() - 1] != '>');
        assert(t.push(s.last()) =~= s);
    }
}

/// Text that is already clean comes back unchanged from `clean_text`: no control
/// character, no `<`, `>` or `&`, no whitespace but single spaces, none at either end
/// and never two in a row (a plain title, id or URL).
pub proof fn lemma_clean_text_identity(s: Seq<char>)
    requires
        forall|i: int|
            0 <= i < s.len() ==> !is_control_spec(#[trigger] s[i]) && s[i] != '<' && s[i] != '>'
                && s[i] != '&' && (is_ws_spec(s[i]) ==> s[i] == ' '),
        single_spaced(s),
    ensures
        clean_text_spec(s) == s,
{
    assert(!s.contains('&'));
    assert(!s.contains('<'));
    assert(!s.contains('>'));
    lemma_clean_text_plain(s);
    lemma_sanitize_identity(s);
    lemma_drop_tags_identity(s);
    crate::text::lemma_collapse_ws_identity(s);
    lemma_sanitize_identity(s);
}

/// The uniform cleaner for every API string shown in text mode: strip the HTML tags,
/// decode the HTML5 entities, re-sanitize (so an entity-encoded control character
/// cannot smuggle an escape back in), and keep it to a single line. Text without `&`
/// has no entity to decode.
pub fn clean_text(s: &str) -> (r: String)
    ensures
        r@ == clean_text_spec(s@),
        !s@.contains('&') ==> r@ == clean_plain_spec(s@),
{
    let stripped = strip_html(sanitize(s).as_str());
    let decoded = html_unescape(stripped.as_str());
    assert(decoded@ == unescape_spec(stripped@));
    proof {
        if !s@.contains('&') {
            lemma_clean_text_plain(s@);
        }
    }
    clean_decoded(decoded.as_str())
}

// ---- footers ----

pub open spec fn dim_forms(plain: Seq<char>, r: Seq<char>) -> bool {
    r == plain || r == "\x1b[2m"@ + plain + "\x1b[0m"@
}

/// `colored`'s `dimmed()` rendered to text: the text unchanged when colouring is off
/// (by its `NO_COLOR`/`CLICOLOR` settings and whether output is a terminal), else
/// wrapped in the dim escape sequence. Which of the two is not stated: it depends on
/// the environment. For text that holds no ESC character one of the two comes back.
#[verifier::external_body]
fn dimmed(s: &str) -> (r: String)
    ensures
        !s@.contains('\x1b') ==> dim_forms(s@, r@),
{
    s.dimmed().to_string()
}

pub proof fn lemma_decimal_no_esc(n: nat)
    ensures
        !decimal(n).contains('\x1b'),
    decreases n,
{
    if n >= 10 {
        lemma_decimal_no_esc(n / 10);
        let d = decimal(n / 10);
        assert forall|i: int| 0 <= i < decimal(n).len() implies decimal(n)[i] != '\x1b' by {
            if i < d.len() {
                assert(decimal(n)[i] == d[i]);
            }
        }
    }
}

pub open spec fn skip_footer_text(skip: u32, limit: u32) -> Seq<char> {
    "showing "@ + decimal((skip + 1) as nat) + "-"@ + decimal((skip + limit) as nat)
        + " · --skip "@ + decimal((skip + limit) as nat) + " for more"@
}

/// Footer for skip/limit-paginated lists that return no `meta` (notifications):
/// present when the page is full (`rows == limit`, `limit > 0`), pointing at the next
/// `--skip`. `limit` is the server's 50 when not given.
pub fn skip_limit_footer(skip: u32, limit: Option<u32>, rows: usize) -> (r: Option<String>)
    requires
        ({
            let lim = match limit {
                Some(l) => l,
                None => 50u32,
            };
            (rows as u32) == lim && lim > 0 ==> skip + lim <= u32::MAX
        }),
    ensures
        ({
            let lim = match limit {
                Some(l) => l,
                None => 50u32,
            };
            &&& r is Some <==> ((rows as u32) == lim && lim > 0)
            &&& r matches Some(t) ==> dim_forms(skip_footer_text(skip, lim), t@)
        }),
{
    let limit = match limit {
        Some(l) => l,
        None => 50,
    };
    let r32 = rows as u32;
    if r32 == limit && limit > 0 {
        let next = skip + limit;
        let mut s = to_owned_string("showing ");
        push_decimal(&mut s, (skip + 1) as u64);
        push_str(&mut s, "-");
        push_decimal(&mut s, (skip + r32) as u64);
        push_str(&mut s, " · --skip ");
        push_decimal(&mut s, next as u64);
        push_str(&mut s, " for more");
        proof {
            lemma_decimal_no_esc((skip + 1) as nat);
            lemma_decimal_no_esc((skip + limit) as nat);
            reveal_strlit("showing ");
            reveal_strlit("-");
            reveal_strlit(" · --skip ");
            reveal_strlit(" for more");
            assert(s@ =~= skip_footer_text(skip, limit));
            assert(!s@.contains('\x1b'));
        }
        Some(dimmed(s.as_str()))
    } else {
        None
    }
}

/// The paging members of a list response's `meta` object (each when it is an
/// unsigned integer).
#[derive(Debug, Clone, Copy)]
pub struct PageMeta {
    pub page: Option<u64>,
    pub total_pages: Option<u64>,
    pub total: Option<u64>,
}

pub open spec fn page_footer_text(page: u64, total_pages: u64, total: Option<u64>, supports_page: bool) -> Seq<char> {
    "page "@ + decimal(page as nat) + "/"@ + decimal(total_pages as nat) + (match total {
        Some(t) => " · "@ + decimal(t as nat) + " total"@,
        None => seq![],
    }) + (if supports_page && page < total_pages {
        " · --page "@ + decimal((page + 1) as nat) + " for more"@
    } else {
        seq![]
    })
}

/// A `page x/y · N total · --page n for more` footer from a `meta` object, when it has
/// a page. `supports_page` gates the `--page n for more` hint for commands without a
/// `--page` flag; the page and total counts print regardless.
pub fn pagination_footer(meta: Option<&PageMeta>, supports_page: bool) -> (r: Option<String>)
    ensures
        ({
            match meta {
                None => r is None,
                Some(m) => match m.page {
                    None => r is None,
                    Some(page) => {
                        let total_pages = match m.total_pages {
                            Some(t) => t,
                            None => page,
                        };
                        r matches Some(t) && dim_forms(
                            page_footer_text(page, total_pages, m.total, supports_page),
                            t@,
                        )
                    },
                },
            }
        }),
{
    let m = match meta {
        Some(m) => m,
        None => return None,
    };
    let page = match m.page {
        Some(p) => p,
        None => return None,
    };
    let total_pages = match m.total_pages {
        Some(t) => t,
        None => page,
    };
    let mut s = to_owned_string("page ");
    push_decimal(&mut s, page);
    push_str(&mut s, "/");
    push_decimal(&mut s, total_pages);
    let ghost head = s@;
    match m.total {
        Some(t) => {
            push_str(&mut s, " · ");
            push_decimal(&mut s, t);
            push_str(&mut s, " total");
        },
        None => {},
    }
    let ghost mid = s@;
    if supports_page && page < total_pages {
        push_str(&mut s, " · --page ");
        push_decimal(&mut s, page + 1);
        push_str(&mut s, " for more");
    }
    proof {
        lemma_decimal_no_esc(page as nat);
        lemma_decimal_no_esc(total_pages as nat);
        if m.total is Some {
            lemma_decimal_no_esc(m.total.unwrap() as nat);
        }
        if supports_page && page < total_pages {
            lemma_decimal_no_esc((page + 1) as nat);
        }
        reveal_strlit("page ");
        reveal_strlit("/");
        reveal_strlit(" · ");
        reveal_strlit(" total");
        reveal_strlit(" · --page ");
        reveal_strlit(" for more");
        assert(s@ =~= page_footer_text(page, total_pages, m.total, supports_page));
        assert(!s@.contains('\x1b'));
    }
    Some(dimmed(s.as_str()))
}

// ---- JSON output ----

pub open spec fn opt_text(o: Option<String>) -> Option<Seq<char>> {
    match o {
        Some(s) => Some(s@),
        None => None,
    }
}

/// The rows as a pretty-printed JSON array (the `-o json` form of a list).
pub fn format_json(rows: Vec<Json>) -> (r: Option<String>)
    ensures
        opt_text(r) == json_pretty_spec(JsonView::Array(item_views(rows@))),
{
    let a = Json::Array(rows);
    json_pretty(&a)
}

/// Pretty JSON; a single element renders as the bare element (nicer for `get`),
/// any other number of rows as an array.
pub fn format_json_auto(rows: Vec<Json>) -> (r: Option<String>)
    ensures
        rows.len() == 1 ==> opt_text(r) == json_pretty_spec(json_view(rows@[0])),
        rows.len() != 1 ==> opt_text(r) == json_pretty_spec(JsonView::Array(item_views(rows@))),
{
    if rows.len() == 1 {
        let mut rows = rows;
        let x = rows.pop().unwrap();
        json_pretty(&x)
    } else {
        format_json(rows)
    }
}

// ---- tables ----

/// The text `tabled` renders for a table whose first record is the header row.
pub uninterp spec fn table_spec(records: Seq<Seq<Seq<char>>>) -> Seq<char>;

pub open spec fn rows_view(rows: Seq<Vec<String>>) -> Seq<Seq<Seq<char>>> {
    rows.map_values(|r: Vec<String>| string_views(r@))
}

/// `tabled::builder::Builder::from(records).build().to_string()`: the records laid
/// out as a table in tabled's default style.
#[verifier::external_body]
fn render_table(records: Vec<Vec<String>>) -> (r: String)
    ensures
        r@ == table_spec(rows_view(records@)),
{
    tabled::builder::Builder::from(records).build().to_string()
}

pub open spec fn clean_row(row: Seq<Seq<char>>) -> Seq<Seq<char>> {
    row.map_values(|c: Seq<char>| clean_text_spec(c))
}

pub open spec fn format_table_spec(headers: Seq<Seq<char>>, rows: Seq<Seq<Seq<char>>>) -> Seq<char> {
    table_spec(seq![headers] + rows.map_values(|r: Seq<Seq<char>>| clean_row(r)))
}

pub open spec fn str_views(v: Seq<&str>) -> Seq<Seq<char>> {
    v.map_values(|s: &str| s@)
}

/// A table with the given header row; every cell is passed through `clean_text`.
pub fn format_table(headers: &[&str], rows: Vec<Vec<String>>) -> (r: String)
    ensures
        r@ == format_table_spec(str_views(headers@), rows_view(rows@)),
{
    let mut records: Vec<Vec<String>> = Vec::new();
    let mut head: Vec<String> = Vec::new();
    let mut k: usize = 0;
    while k < headers.len()
        invariant
            k <= headers.len(),
            string_views(head@) == str_views(headers@).take(k as int),
        decreases headers.len() - k,
    {
        let ghost before = string_views(head@);
        head.push(to_owned_string(headers[k]));
        assert(string_views(head@) =~= before.push(headers@[k as int]@));
        assert(str_views(headers@).take(k + 1) =~= str_views(headers@).take(k as int).push(
            headers@[k as int]@,
        ));
        k = k + 1;
    }
    assert(str_views(headers@).take(headers.len() as int) =~= str_views(headers@));
    records.push(head);
    let mut i: usize = 0;
    while i < rows.len()
        invariant
            i <= rows.len(),
            rows_view(records@) == seq![str_views(headers@)] + rows_view(rows@).take(
                i as int,
            ).map_values(|r: Seq<Seq<char>>| clean_row(r)),
        decreases rows.len() - i,
    {
        let row = &rows[i];
        let mut cleaned: Vec<String> = Vec::new();
        let mut j: usize = 0;
        while j < row.len()
            invariant
                j <= row.len(),
                string_views(cleaned@) == clean_row(string_views(row@).take(j as int)),
            decreases row.len() - j,
        {
            let ghost before = string_views(cleaned@);
            cleaned.push(clean_text(row[j].as_str()));
            assert(string_views(cleaned@) =~= before.push(clean_text_spec(row@[j as int]@)));
            assert(clean_row(string_views(row@).take(j + 1)) =~= clean_row(
                string_views(row@).take(j as int),
            ).push(clean_text_spec(row@[j as int]@)));
            j = j + 1;
        }
        assert(string_views(row@).take(row.len() as int) =~= string_views(row@));
        let ghost before = rows_view(records@);
        records.push(cleaned);
        proof {
            assert(rows_view(records@) =~= before.push(clean_row(string_views(rows@[i as int]@))));
            assert(rows_view(rows@).take(i + 1) =~= rows_view(rows@).take(i as int).push(
                string_views(rows@[i as int]@),
            ));
            assert(rows_view(rows@).take(i + 1).map_values(|r: Seq<Seq<char>>| clean_row(r))
                =~= rows_view(rows@).take(i as int).map_values(
                |r: Seq<Seq<char>>| clean_row(r),
            ).push(clean_row(string_views(rows@[i as int]@))));
        }
        i = i + 1;
    }
    assert(rows_view(rows@).take(rows.len() as int) =~= rows_view(rows@));
    render_table(records)
}

/// `✓` for a set flag, empty otherwise.
pub open spec fn check_mark(b: bool) -> Seq<char> {
    if b {
        "✓"@
    } else {
        seq![]
    }
}

fn check_cell(b: bool) -> (r: String)
    ensures
        r@ == check_mark(b),
{
    if b {
        to_owned_string("✓")
    } else {
        String::new()
    }
}

pub open spec fn nest_row(n: CompactNest) -> Seq<Seq<char>> {
    seq![
        n.id@,
        n.title@,
        text_or_empty(n.due),
        check_mark(n.completed == Some(true)),
        join_labels_spec(n.labels@),
    ]
}

pub open spec fn nest_table_spec(nests: Seq<CompactNest>) -> Seq<char> {
    format_table_spec(
        seq!["ID"@, "TITLE"@, "DUE"@, "DONE"@, "LABELS"@],
        nests.map_values(|n: CompactNest| nest_row(n)),
    )
}

/// The standard compact table for any list of Nest-shaped objects.
pub fn nest_table(nests: &[CompactNest]) -> (r: String)
    ensures
        r@ == nest_table_spec(nests@),
{
    let mut rows: Vec<Vec<String>> = Vec::new();
    let mut i: usize = 0;
    while i < nests.len()
        invariant
            i <= nests.len(),
            rows_view(rows@) == nests@.take(i as int).map_values(|n: CompactNest| nest_row(n)),
        decreases nests.len() - i,
    {
        let n = &nests[i];
        let mut row: Vec<String> = Vec::new();
        row.push(n.id.clone());
        row.push(n.title.clone());
        row.push(clone_or_empty(&n.due));
        row.push(check_cell(n.completed == Some(true)));
        row.push(n.labels_str());
        assert(string_views(row@) =~= nest_row(*n));
        let ghost before = rows_view(rows@);
        rows.push(row);
        assert(rows_view(rows@) =~= before.push(nest_row(*n)));
        assert(nests@.take(i + 1).map_values(|n: CompactNest| nest_row(n)) =~= nests@.take(
            i as int,
        ).map_values(|n: CompactNest| nest_row(n)).push(nest_row(nests@[i as int])));
        i = i + 1;
    }
    assert(nests@.take(nests.len() as int) =~= nests@);
    let mut h: Vec<&str> = Vec::new();
    h.push("ID");
    h.push("TITLE");
    h.push("DUE");
    h.push("DONE");
    h.push("LABELS");
    assert(str_views(h@) =~= seq!["ID"@, "TITLE"@, "DUE"@, "DONE"@, "LABELS"@]);
    format_table(h.as_slice(), rows)
}


pub open spec fn role_row(r: RoleView) -> Seq<Seq<char>> {
    seq![
        r.id@,
        r.title@,
        decimal(titles_spec(r.accountabilities@).len()),
        decimal(titles_spec(r.domains@).len()),
        join_labels_spec(r.labels@),
    ]
}

pub open spec fn role_table_spec(items: Seq<RoleView>) -> Seq<char> {
    format_table_spec(seq!["ID"@, "TITLE"@, "ACC"@, "DOM"@, "LABELS"@], items.map_values(|x: RoleView| role_row(x)))
}

/// The compact table for roles and circles: accountabilities and domains as counts (their full titles live in the detail view).
pub fn role_table(items: &[RoleView]) -> (r: String)
    ensures
        r@ == role_table_spec(items@),
{
    let mut rows: Vec<Vec<String>> = Vec::new();
    let mut i: usize = 0;
    while i < items.len()
        invariant
            i <= items.len(),
            rows_view(rows@) == items@.take(i as int).map_values(|x: RoleView| role_row(x)),
        decreases items.len() - i,
    {
        let r = &items[i];
        let mut row: Vec<String> = Vec::new();
        row.push(r.id.clone());
        row.push(r.title.clone());
        row.push(decimal_string(r.acc_titles().len() as u64));
        row.push(decimal_string(r.domain_titles().len() as u64));
        row.push(r.labels_str());
        assert(string_views(row@) =~= role_row(*r));
        let ghost before = rows_view(rows@);
        rows.push(row);
        assert(rows_view(rows@) =~= before.push(role_row(*r)));
        assert(items@.take(i + 1).map_values(|x: RoleView| role_row(x)) =~= items@.take(
            i as int,
        ).map_values(|x: RoleView| role_row(x)).push(role_row(items@[i as int])));
        i = i + 1;
    }
    assert(items@.take(items.len() as int) =~= items@);
    let mut h: Vec<&str> = Vec::new();
    h.push("ID");
    h.push("TITLE");
    h.push("ACC");
    h.push("DOM");
    h.push("LABELS");
    assert(str_views(h@) =~= seq!["ID"@, "TITLE"@, "ACC"@, "DOM"@, "LABELS"@]);
    format_table(h.as_slice(), rows)
}

pub open spec fn user_row(u: UserView) -> Seq<Seq<char>> {
    seq![
        u.id@,
        text_or_empty(u.username),
        full_name_spec(u),
        (if u.bot == Some(true) { "bot"@ } else { seq![] }),
    ]
}

pub open spec fn user_table_spec(items: Seq<UserView>) -> Seq<char> {
    format_table_spec(seq!["ID"@, "USERNAME"@, "NAME"@, "BOT"@], items.map_values(|x: UserView| user_row(x)))
}

/// The users table: id, username, full name and a bot marker.
pub fn user_table(items: &[UserView]) -> (r: String)
    ensures
        r@ == user_table_spec(items@),
{
    let mut rows: Vec<Vec<String>> = Vec::new();
    let mut i: usize = 0;
    while i < items.len()
        invariant
            i <= items.len(),
            rows_view(rows@) == items@.take(i as int).map_values(|x: UserView| user_row(x)),
        decreases items.len() - i,
    {
        let u = &items[i];
        let mut row: Vec<String> = Vec::new();
        row.push(u.id.clone());
        row.push(clone_or_empty(&u.username));
        row.push(u.full_name());
        row.push(if u.bot == Some(true) { to_owned_string("bot") } else { String::new() });
        assert(string_views(row@) =~= user_row(*u));
        let ghost before = rows_view(rows@);
        rows.push(row);
        assert(rows_view(rows@) =~= before.push(user_row(*u)));
        assert(items@.take(i + 1).map_values(|x: UserView| user_row(x)) =~= items@.take(
            i as int,
        ).map_values(|x: UserView| user_row(x)).push(user_row(items@[i as int])));
        i = i + 1;
    }
    assert(items@.take(items.len() as int) =~= items@);
    let mut h: Vec<&str> = Vec::new();
    h.push("ID");
    h.push("USERNAME");
    h.push("NAME");
    h.push("BOT");
    assert(str_views(h@) =~= seq!["ID"@, "USERNAME"@, "NAME"@, "BOT"@]);
    format_table(h.as_slice(), rows)
}

pub open spec fn group_row(g: GroupView) -> Seq<Seq<char>> {
    seq![
        g.id@,
        text_or_empty(g.name),
    ]
}

pub open spec fn group_table_spec(items: Seq<GroupView>) -> Seq<char> {
    format_table_spec(seq!["ID"@, "NAME"@], items.map_values(|x: GroupView| group_row(x)))
}

/// The groups table.
pub fn group_table(items: &[GroupView]) -> (r: String)
    ensures
        r@ == group_table_spec(items@),
{
    let mut rows: Vec<Vec<String>> = Vec::new();
    let mut i: usize = 0;
    while i < items.len()
        invariant
            i <= items.len(),
            rows_view(rows@) == items@.take(i as int).map_values(|x: GroupView| group_row(x)),
        decreases items.len() - i,
    {
        let g = &items[i];
        let mut row: Vec<String> = Vec::new();
        row.push(g.id.clone());
        row.push(clone_or_empty(&g.name));
        assert(string_views(row@) =~= group_row(*g));
        let ghost before = rows_view(rows@);
        rows.push(row);
        assert(rows_view(rows@) =~= before.push(group_row(*g)));
        assert(items@.take(i + 1).map_values(|x: GroupView| group_row(x)) =~= items@.take(
            i as int,
        ).map_values(|x: GroupView| group_row(x)).push(group_row(items@[i as int])));
        i = i + 1;
    }
    assert(items@.take(items.len() as int) =~= items@);
    let mut h: Vec<&str> = Vec::new();
    h.push("ID");
    h.push("NAME");
    assert(str_views(h@) =~= seq!["ID"@, "NAME"@]);
    format_table(h.as_slice(), rows)
}

pub open spec fn app_row(a: AppView) -> Seq<Seq<char>> {
    seq![
        a.id@,
        text_or_empty(a.title),
        check_mark(a.enabled),
    ]
}

pub open spec fn app_table_spec(items: Seq<AppView>) -> Seq<char> {
    format_table_spec(seq!["ID"@, "TITLE"@, "ENABLED"@], items.map_values(|x: AppView| app_row(x)))
}

/// The apps table, with a mark for the enabled ones.
pub fn app_table(items: &[AppView]) -> (r: String)
    ensures
        r@ == app_table_spec(items@),
{
    let mut rows: Vec<Vec<String>> = Vec::new();
    let mut i: usize = 0;
    while i < items.len()
        invariant
            i <= items.len(),
            rows_view(rows@) == items@.take(i as int).map_values(|x: AppView| app_row(x)),
        decreases items.len() - i,
    {
        let a = &items[i];
        let mut row: Vec<String> = Vec::new();
        row.push(a.id.clone());
        row.push(clone_or_empty(&a.title));
        row.push(check_cell(a.enabled));
        assert(string_views(row@) =~= app_row(*a));
        let ghost before = rows_view(rows@);
        rows.push(row);
        assert(rows_view(rows@) =~= before.push(app_row(*a)));
        assert(items@.take(i + 1).map_values(|x: AppView| app_row(x)) =~= items@.take(
            i as int,
        ).map_values(|x: AppView| app_row(x)).push(app_row(items@[i as int])));
        i = i + 1;
    }
    assert(items@.take(items.len() as int) =~= items@);
    let mut h: Vec<&str> = Vec::new();
    h.push("ID");
    h.push("TITLE");
    h.push("ENABLED");
    assert(str_views(h@) =~= seq!["ID"@, "TITLE"@, "ENABLED"@]);
    format_table(h.as_slice(), rows)
}

pub open spec fn tension_row(t: TensionView) -> Seq<Seq<char>> {
    seq![
        t.id@,
        t.title@,
        text_or_empty(t.status),
        join_labels_spec(t.labels@),
    ]
}

pub open spec fn tension_table_spec(items: Seq<TensionView>) -> Seq<char> {
    format_table_spec(seq!["ID"@, "TITLE"@, "STATUS"@, "LABELS"@], items.map_values(|x: TensionView| tension_row(x)))
}

/// The compact table for tensions.
pub fn tension_table(items: &[TensionView]) -> (r: String)
    ensures
        r@ == tension_table_spec(items@),
{
    let mut rows: Vec<Vec<String>> = Vec::new();
    let mut i: usize = 0;
    while i < items.len()
        invariant
            i <= items.len(),
            rows_view(rows@) == items@.take(i as int).map_values(|x: TensionView| tension_row(x)),
        decreases items.len() - i,
    {
        let t = &items[i];
        let mut row: Vec<String> = Vec::new();
        row.push(t.id.clone());
        row.push(t.title.clone());
        row.push(clone_or_empty(&t.status));
        row.push(join_labels(&t.labels));
        assert(string_views(row@) =~= tension_row(*t));
        let ghost before = rows_view(rows@);
        rows.push(row);
        assert(rows_view(rows@) =~= before.push(tension_row(*t)));
        assert(items@.take(i + 1).map_values(|x: TensionView| tension_row(x)) =~= items@.take(
            i as int,
        ).map_values(|x: TensionView| tension_row(x)).push(tension_row(items@[i as int])));
        i = i + 1;
    }
    assert(items@.take(items.len() as int) =~= items@);
    let mut h: Vec<&str> = Vec::new();
    h.push("ID");
    h.push("TITLE");
    h.push("STATUS");
    h.push("LABELS");
    assert(str_views(h@) =~= seq!["ID"@, "TITLE"@, "STATUS"@, "LABELS"@]);
    format_table(h.as_slice(), rows)
}

pub open spec fn link_row(l: LinkView) -> Seq<Seq<char>> {
    seq![
        l.id@,
        l.title@,
        text_or_empty(l.relation),
        text_or_empty(l.direction),
        join_labels_spec(l.labels@),
    ]
}

pub open spec fn link_table_spec(items: Seq<LinkView>) -> Seq<char> {
    format_table_spec(seq!["ID"@, "TITLE"@, "RELATION"@, "DIRECTION"@, "LABELS"@], items.map_values(|x: LinkView| link_row(x)))
}

/// The graph-links table: the linked nest with its relation and direction.
pub fn link_table(items: &[LinkView]) -> (r: String)
    ensures
        r@ == link_table_spec(items@),
{
    let mut rows: Vec<Vec<String>> = Vec::new();
    let mut i: usize = 0;
    while i < items.len()
        invariant
            i <= items.len(),
            rows_view(rows@) == items@.take(i as int).map_values(|x: LinkView| link_row(x)),
        decreases items.len() - i,
    {
        let l = &items[i];
        let mut row: Vec<String> = Vec::new();
        row.push(l.id.clone());
        row.push(l.title.clone());
        row.push(clone_or_empty(&l.relation));
        row.push(clone_or_empty(&l.direction));
        row.push(join_labels(&l.labels));
        assert(string_views(row@) =~= link_row(*l));
        let ghost before = rows_view(rows@);
        rows.push(row);
        assert(rows_view(rows@) =~= before.push(link_row(*l)));
        assert(items@.take(i + 1).map_values(|x: LinkView| link_row(x)) =~= items@.take(
            i as int,
        ).map_values(|x: LinkView| link_row(x)).push(link_row(items@[i as int])));
        i = i + 1;
    }
    assert(items@.take(items.len() as int) =~= items@);
    let mut h: Vec<&str> = Vec::new();
    h.push("ID");
    h.push("TITLE");
    h.push("RELATION");
    h.push("DIRECTION");
    h.push("LABELS");
    assert(str_views(h@) =~= seq!["ID"@, "TITLE"@, "RELATION"@, "DIRECTION"@, "LABELS"@]);
    format_table(h.as_slice(), rows)
}

pub open spec fn webhook_row(w: WebhookView) -> Seq<Seq<char>> {
    seq![
        w.id@,
        text_or_empty(w.url),
        text_or_empty(w.type_),
        text_or_empty(w.event),
        text_or_empty(w.label),
    ]
}

pub open spec fn webhook_table_spec(items: Seq<WebhookView>) -> Seq<char> {
    format_table_spec(seq!["ID"@, "URL"@, "TYPE"@, "EVENT"@, "LABEL"@], items.map_values(|x: WebhookView| webhook_row(x)))
}

/// The webhooks table.
pub fn webhook_table(items: &[WebhookView]) -> (r: String)
    ensures
        r@ == webhook_table_spec(items@),
{
    let mut rows: Vec<Vec<String>> = Vec::new();
    let mut i: usize = 0;
    while i < items.len()
        invariant
            i <= items.len(),
            rows_view(rows@) == items@.take(i as int).map_values(|x: WebhookView| webhook_row(x)),
        decreases items.len() - i,
    {
        let w = &items[i];
        let mut row: Vec<String> = Vec::new();
        row.push(w.id.clone());
        row.push(clone_or_empty(&w.url));
        row.push(clone_or_empty(&w.type_));
        row.push(clone_or_empty(&w.event));
        row.push(clone_or_empty(&w.label));
        assert(string_views(row@) =~= webhook_row(*w));
        let ghost before = rows_view(rows@);
        rows.push(row);
        assert(rows_view(rows@) =~= before.push(webhook_row(*w)));
        assert(items@.take(i + 1).map_values(|x: WebhookView| webhook_row(x)) =~= items@.take(
            i as int,
        ).map_values(|x: WebhookView| webhook_row(x)).push(webhook_row(items@[i as int])));
        i = i + 1;
    }
    assert(items@.take(items.len() as int) =~= items@);
    let mut h: Vec<&str> = Vec::new();
    h.push("ID");
    h.push("URL");
    h.push("TYPE");
    h.push("EVENT");
    h.push("LABEL");
    assert(str_views(h@) =~= seq!["ID"@, "URL"@, "TYPE"@, "EVENT"@, "LABEL"@]);
    format_table(h.as_slice(), rows)
}

// ---- hints ----

/// The first `url` string among a `hints` array's items.
pub open spec fn first_url(hints: Seq<Json>) -> Option<Seq<char>>
    decreases hints.len(),
{
    if hints.len() == 0 {
        None
    } else {
        match as_str_spec(get_spec(hints[0], "url"@)) {
            Some(u) => Some(u),
            None => first_url(hints.drop_first()),
        }
    }
}

/// The first `hints[].url` of a payload: an object's own `hints`, or, in an array,
/// the first item that has one (arrays nested in arrays are searched too).
pub open spec fn hint_url(v: Json) -> Option<Seq<char>>
    decreases v, 0int,
{
    match v {
        Json::Array(a) => hint_url_in(a@, 0),
        Json::Object(o) => match member(o@, "hints"@) {
            Some(Json::Array(hs)) => first_url(hs@),
            _ => None,
        },
        _ => None,
    }
}

pub open spec fn hint_url_in(items: Seq<Json>, i: int) -> Option<Seq<char>>
    decreases items, items.len() - i,
    when 0 <= i
{
    if i >= items.len() {
        None
    } else {
        match hint_url(items[i]) {
            Some(u) => Some(u),
            None => hint_url_in(items, i + 1),
        }
    }
}

fn first_url_of(hints: &Vec<Json>) -> (r: Option<String>)
    ensures
        opt_view(r) == first_url(hints@),
{
    let mut i: usize = 0;
    assert(hints@.subrange(0, hints@.len() as int) =~= hints@);
    while i < hints.len()
        invariant
            i <= hints.len(),
            first_url(hints@) == first_url(hints@.subrange(i as int, hints@.len() as int)),
        decreases hints.len() - i,
    {
        let ghost rest = hints@.subrange(i as int, hints@.len() as int);
        assert(rest.drop_first() =~= hints@.subrange(i + 1, hints@.len() as int));
        assert(rest[0] == hints@[i as int]);
        match as_str(get(&hints[i], "url")) {
            Some(u) => {
                return Some(to_owned_string(u));
            },
            None => {},
        }
        i = i + 1;
    }
    assert(hints@.subrange(i as int, hints@.len() as int).len() == 0);
    None
}

fn find_hint_url(v: &Json) -> (r: Option<String>)
    ensures
        opt_view(r) == hint_url(*v),
    decreases v,
{
    match v {
        Json::Array(a) => {
            let mut i: usize = 0;
            while i < a.len()
                invariant
                    i <= a.len(),
                    *v == Json::Array(*a),
                    hint_url(*v) == hint_url_in(a@, i as int),
                decreases a.len() - i,
            {
                assert(decreases_to!(*v => a@[i as int]));
                match find_hint_url(&a[i]) {
                    Some(u) => {
                        return Some(u);
                    },
                    None => {},
                }
                i = i + 1;
            }
            None
        },
        Json::Object(o) => match member_of(o, "hints") {
            Some(Json::Array(hs)) => first_url_of(hs),
            _ => None,
        },
        _ => None,
    }
}

pub open spec fn hint_text(url: Seq<char>) -> Seq<char> {
    "next: "@ + clean_text_spec(url)
}

/// Best effort: the first `hints[].url` found in the payload, as a dimmed
/// `next: <url>` line.
pub fn hint_line(data: &Json) -> (r: Option<String>)
    ensures
        match hint_url(*data) {
            None => r is None,
            Some(u) => r matches Some(t) && dim_forms(hint_text(u), t@),
        },
{
    match find_hint_url(data) {
        None => None,
        Some(u) => {
            let mut s = to_owned_string("next: ");
            let c = clean_text(u.as_str());
            push_str(&mut s, c.as_str());
            proof {
                lemma_clean_text_printable(u@);
                reveal_strlit("next: ");
                assert(s@ =~= hint_text(u@));
                assert forall|i: int| 0 <= i < s@.len() implies s@[i] != '\x1b' by {
                    if i >= 6 {
                        assert(s@[i] == c@[i - 6]);
                        assert(!is_control_spec(c@[i - 6]));
                    }
                }
            }
            Some(dimmed(s.as_str()))
        },
    }
}

// ---- detail blocks ----

/// `<clean title>  [<id>]`, the first line of every detail block.
pub open spec fn title_line(title: Seq<char>, id: Seq<char>) -> Seq<char> {
    clean_text_spec(title) + "  ["@ + id + "]"@
}

fn make_title_line(title: &str, id: &str) -> (r: String)
    ensures
        r@ == title_line(title@, id@),
{
    let mut s = clean_text(title);
    push_str(&mut s, "  [");
    push_str(&mut s, id);
    push_str(&mut s, "]");
    s
}

/// `<label><clean value>`.
pub open spec fn clean_line(label: Seq<char>, value: Seq<char>) -> Seq<char> {
    label + clean_text_spec(value)
}

fn make_clean_line(label: &str, value: &str) -> (r: String)
    ensures
        r@ == clean_line(label@, value@),
{
    let mut s = to_owned_string(label);
    let c = clean_text(value);
    push_str(&mut s, c.as_str());
    s
}

fn make_raw_line(label: &str, value: &str) -> (r: String)
    ensures
        r@ == label@ + value@,
{
    let mut s = to_owned_string(label);
    push_str(&mut s, value);
    s
}

/// A line for a present, non-empty optional value; nothing otherwise.
pub open spec fn nonempty_clean_line(label: Seq<char>, value: Option<String>) -> Seq<Seq<char>> {
    match value {
        Some(v) => if v@.len() > 0 {
            seq![clean_line(label, v@)]
        } else {
            seq![]
        },
        None => seq![],
    }
}

/// A heading followed by one `  - <clean item>` line per item; nothing for no items.
pub open spec fn item_block(head: Seq<char>, items: Seq<Seq<char>>) -> Seq<Seq<char>> {
    if items.len() == 0 {
        seq![]
    } else {
        seq![head] + items.map_values(|a: Seq<char>| clean_line("  - "@, a))
    }
}

fn push_line(lines: &mut Vec<String>, line: String)
    ensures
        string_views(final(lines)@) == string_views(old(lines)@).push(line@),
{
    let ghost before = string_views(lines@);
    lines.push(line);
    assert(string_views(lines@) =~= before.push(line@));
}

fn push_nonempty_clean_line(lines: &mut Vec<String>, label: &str, value: &Option<String>)
    ensures
        string_views(final(lines)@) == string_views(old(lines)@) + nonempty_clean_line(
            label@,
            *value,
        ),
{
    match value {
        Some(v) => {
            if v.as_str().is_empty() {
                assert(string_views(lines@) =~= string_views(lines@) + seq![]);
            } else {
                let ghost before = string_views(lines@);
                push_line(lines, make_clean_line(label, v.as_str()));
                assert(string_views(lines@) =~= before + nonempty_clean_line(label@, *value));
            }
        },
        None => {
            assert(string_views(lines@) =~= string_views(lines@) + seq![]);
        },
    }
}

fn push_item_block(lines: &mut Vec<String>, head: &str, items: &Vec<String>)
    ensures
        string_views(final(lines)@) == string_views(old(lines)@) + item_block(
            head@,
            string_views(items@),
        ),
{
    let ghost before = string_views(lines@);
    if items.len() == 0 {
        assert(string_views(lines@) =~= before + seq![]);
        return;
    }
    push_line(lines, to_owned_string(head));
    let mut i: usize = 0;
    while i < items.len()
        invariant
            i <= items.len(),
            string_views(lines@) == before + seq![head@] + string_views(items@).take(
                i as int,
            ).map_values(|a: Seq<char>| clean_line("  - "@, a)),
        decreases items.len() - i,
    {
        let ghost mid = string_views(lines@);
        push_line(lines, make_clean_line("  - ", items[i].as_str()));
        assert(string_views(items@).take(i + 1).map_values(|a: Seq<char>| clean_line("  - "@, a))
            =~= string_views(items@).take(i as int).map_values(
            |a: Seq<char>| clean_line("  - "@, a),
        ).push(clean_line("  - "@, items@[i as int]@)));
        i = i + 1;
    }
    assert(string_views(items@).take(items.len() as int) =~= string_views(items@));
}

pub open spec fn role_detail_spec(r: RoleView) -> Seq<Seq<char>> {
    seq![title_line(r.title@, r.id@)] + nonempty_clean_line("purpose: "@, r.purpose) + (
    match r.parent_id {
        Some(p) => seq!["parent: "@ + p@],
        None => seq![],
    }) + item_block("accountabilities:"@, titles_spec(r.accountabilities@)) + item_block(
        "domains:"@,
        titles_spec(r.domains@),
    ) + (if r.labels@.len() > 0 {
        seq![clean_line("labels: "@, join_labels_spec(r.labels@))]
    } else {
        seq![]
    })
}

/// The role table lays out, under ID, TITLE, ACC, DOM and LABELS, one record per
/// role in order: its id, its title, the number of its accountability titles, the
/// number of its domain titles, and its joined labels.
pub proof fn lemma_role_table_counts(items: Seq<RoleView>)
    ensures
        role_table_spec(items) == format_table_spec(
            seq!["ID"@, "TITLE"@, "ACC"@, "DOM"@, "LABELS"@],
            Seq::new(
                items.len(),
                |i: int|
                    seq![
                        items[i].id@,
                        items[i].title@,
                        decimal(titles_spec(items[i].accountabilities@).len()),
                        decimal(titles_spec(items[i].domains@).len()),
                        join_labels_spec(items[i].labels@),
                    ],
            ),
        ),
{
    assert(items.map_values(|x: RoleView| role_row(x)) =~= Seq::new(
        items.len(),
        |i: int|
            seq![
                items[i].id@,
                items[i].title@,
                decimal(titles_spec(items[i].accountabilities@).len()),
                decimal(titles_spec(items[i].domains@).len()),
                join_labels_spec(items[i].labels@),
            ],
    ));
}

/// A role's detail lines start with its title line. A role with accountability
/// titles shows the line `accountabilities:` followed by one `  - <title>` line per
/// title, in order; a role with domain titles shows, after that, the line `domains:`
/// followed by one `  - <title>` line per domain title, in order.
pub proof fn lemma_role_detail_blocks(r: RoleView)
    ensures
        role_detail_spec(r)[0] == clean_text_spec(r.title@) + "  ["@ + r.id@ + "]"@,
        ({
            let lines = role_detail_spec(r);
            let acc = titles_spec(r.accountabilities@);
            let dom = titles_spec(r.domains@);
            exists|ka: int, kd: int|
                #![trigger lines[ka], lines[kd]]
                0 < ka <= kd <= lines.len() && (acc.len() > 0 ==> ka + acc.len() < kd && lines[ka]
                    == "accountabilities:"@ && forall|j: int|
                    0 <= j < acc.len() ==> #[trigger] lines[ka + 1 + j] == "  - "@
                        + clean_text_spec(acc[j])) && (dom.len() > 0 ==> kd + dom.len() < lines.len()
                    && lines[kd] == "domains:"@ && forall|j: int|
                    0 <= j < dom.len() ==> #[trigger] lines[kd + 1 + j] == "  - "@
                        + clean_text_spec(dom[j]))
        }),
{
    let lines = role_detail_spec(r);
    let acc = titles_spec(r.accountabilities@);
    let dom = titles_spec(r.domains@);
    let pre = seq![title_line(r.title@, r.id@)] + nonempty_clean_line("purpose: "@, r.purpose) + (
    match r.parent_id {
        Some(p) => seq!["parent: "@ + p@],
        None => seq![],
    });
    let a = item_block("accountabilities:"@, acc);
    let d = item_block("domains:"@, dom);
    let rest = if r.labels@.len() > 0 {
        seq![clean_line("labels: "@, join_labels_spec(r.labels@))]
    } else {
        seq![]
    };
    assert(lines == pre + a + d + rest);
    let ka = pre.len() as int;
    let kd = (pre.len() + a.len()) as int;
    assert(a.len() >= acc.len());
    assert(d.len() >= dom.len());
    assert(lines[0] == pre[0]);
    if acc.len() > 0 {
        assert(lines[ka] == a[0]);
        assert forall|j: int| 0 <= j < acc.len() implies #[trigger] lines[ka + 1 + j] == "  - "@
            + clean_text_spec(acc[j]) by {
            assert(lines[ka + 1 + j] == a[1 + j]);
        }
    }
    if dom.len() > 0 {
        assert(lines[kd] == d[0]);
        assert forall|j: int| 0 <= j < dom.len() implies #[trigger] lines[kd + 1 + j] == "  - "@
            + clean_text_spec(dom[j]) by {
            assert(lines[kd + 1 + j] == d[1 + j]);
        }
    }
    assert(lines[ka] == lines[ka] && lines[kd] == lines[kd]);
}

/// The text-mode detail block of a role or circle, line by line: title and id, the
/// purpose, the parent, the full accountability and domain titles, and the labels.
pub fn role_detail_lines(r: &RoleView) -> (lines: Vec<String>)
    ensures
        string_views(lines@) == role_detail_spec(*r),
{
    let mut lines: Vec<String> = Vec::new();
    push_line(&mut lines, make_title_line(r.title.as_str(), r.id.as_str()));
    push_nonempty_clean_line(&mut lines, "purpose: ", &r.purpose);
    let ghost a = string_views(lines@);
    match &r.parent_id {
        Some(p) => push_line(&mut lines, make_raw_line("parent: ", p.as_str())),
        None => {},
    }
    let ghost b = string_views(lines@);
    assert(b =~= a + (match r.parent_id {
        Some(p) => seq!["parent: "@ + p@],
        None => seq![],
    }));
    push_item_block(&mut lines, "accountabilities:", &r.acc_titles());
    push_item_block(&mut lines, "domains:", &r.domain_titles());
    let ghost c = string_views(lines@);
    if r.labels.len() > 0 {
        push_line(&mut lines, make_clean_line("labels: ", r.labels_str().as_str()));
    }
    assert(string_views(lines@) =~= role_detail_spec(*r));
    lines
}

/// The string at `fields.<key>` of a payload.
pub open spec fn field_text(data: Json, key: Seq<char>) -> Option<Seq<char>> {
    match get_spec(data, "fields"@) {
        Some(f) => as_str_spec(get_spec(f, key)),
        None => None,
    }
}

/// A `<label>: <clean value>` line for a custom field holding a non-empty string.
pub open spec fn field_line(label: Seq<char>, data: Json, key: Seq<char>) -> Seq<Seq<char>> {
    match field_text(data, key) {
        Some(v) => if v.len() > 0 {
            seq![clean_line(label, v)]
        } else {
            seq![]
        },
        None => seq![],
    }
}

fn push_field_line(lines: &mut Vec<String>, label: &str, data: &Json, key: &str)
    ensures
        string_views(final(lines)@) == string_views(old(lines)@) + field_line(label@, *data, key@),
{
    let ghost before = string_views(lines@);
    let v = match get(data, "fields") {
        Some(f) => as_str(get(f, key)),
        None => None,
    };
    match v {
        Some(t) => {
            if !t.is_empty() {
                push_line(lines, make_clean_line(label, t));
            }
        },
        None => {},
    }
    assert(string_views(lines@) =~= before + field_line(label@, *data, key@));
}

pub open spec fn tension_detail_spec(t: TensionView, data: Json) -> Seq<Seq<char>> {
    seq![title_line(t.title@, t.id@)] + (match t.status {
        Some(st) => seq![clean_line("status: "@, st@)],
        None => seq![],
    }) + nonempty_clean_line("description: "@, t.description) + field_line(
        "feeling: "@,
        data,
        "tension.feeling"@,
    ) + field_line("needs: "@, data, "tension.needs"@) + (if t.labels@.len() > 0 {
        seq![clean_line("labels: "@, join_labels_spec(t.labels@))]
    } else {
        seq![]
    })
}

/// The text-mode detail block of a tension read from the payload `data`: title and
/// id, status, description, the `feeling` and `needs` custom fields, and the labels.
pub fn tension_detail_lines(t: &TensionView, data: &Json) -> (lines: Vec<String>)
    ensures
        string_views(lines@) == tension_detail_spec(*t, *data),
{
    let mut lines: Vec<String> = Vec::new();
    push_line(&mut lines, make_title_line(t.title.as_str(), t.id.as_str()));
    let ghost a = string_views(lines@);
    match &t.status {
        Some(st) => push_line(&mut lines, make_clean_line("status: ", st.as_str())),
        None => {},
    }
    assert(string_views(lines@) =~= a + (match t.status {
        Some(st) => seq![clean_line("status: "@, st@)],
        None => seq![],
    }));
    push_nonempty_clean_line(&mut lines, "description: ", &t.description);
    push_field_line(&mut lines, "feeling: ", data, "tension.feeling");
    push_field_line(&mut lines, "needs: ", data, "tension.needs");
    let ghost b = string_views(lines@);
    if t.labels.len() > 0 {
        push_line(&mut lines, make_clean_line("labels: ", join_labels(&t.labels).as_str()));
    }
    assert(string_views(lines@) =~= tension_detail_spec(*t, *data));
    lines
}

pub open spec fn count_or_zero(c: Option<u64>) -> nat {
    match c {
        Some(n) => n as nat,
        None => 0,
    }
}

pub open spec fn webhook_detail_spec(w: WebhookView) -> Seq<Seq<char>> {
    seq![
        title_line(text_or_empty(w.url), w.id@),
        clean_text_spec(text_or_empty(w.type_)) + " "@ + clean_text_spec(text_or_empty(w.event)),
    ] + (match w.label {
        Some(l) => seq![clean_line("label: "@, l@)],
        None => seq![],
    }) + (match w.ancestor_id {
        Some(a) => seq!["ancestor: "@ + a@],
        None => seq![],
    }) + (match w.created_at {
        Some(c) => seq!["created: "@ + c@],
        None => seq![],
    }) + (if w.trigger_count is Some || w.error_count is Some {
        seq![
            "triggers: "@ + decimal(count_or_zero(w.trigger_count)) + "  errors: "@ + decimal(
                count_or_zero(w.error_count),
            ),
        ]
    } else {
        seq![]
    })
}

/// The text-mode detail block of a webhook: url and id, type and event, label,
/// ancestor, creation time, and the trigger/error counters when either is known.
pub fn webhook_detail_lines(w: &WebhookView) -> (lines: Vec<String>)
    ensures
        string_views(lines@) == webhook_detail_spec(*w),
{
    let mut lines: Vec<String> = Vec::new();
    push_line(&mut lines, make_title_line(clone_or_empty(&w.url).as_str(), w.id.as_str()));
    let mut second = clean_text(clone_or_empty(&w.type_).as_str());
    push_str(&mut second, " ");
    push_str(&mut second, clean_text(clone_or_empty(&w.event).as_str()).as_str());
    push_line(&mut lines, second);
    let ghost a = string_views(lines@);
    match &w.label {
        Some(l) => push_line(&mut lines, make_clean_line("label: ", l.as_str())),
        None => {},
    }
    let ghost b = string_views(lines@);
    match &w.ancestor_id {
        Some(x) => push_line(&mut lines, make_raw_line("ancestor: ", x.as_str())),
        None => {},
    }
    let ghost c = string_views(lines@);
    match &w.created_at {
        Some(x) => push_line(&mut lines, make_raw_line("created: ", x.as_str())),
        None => {},
    }
    let ghost d = string_views(lines@);
    if w.trigger_count.is_some() || w.error_count.is_some() {
        let t = match w.trigger_count {
            Some(n) => n,
            None => 0,
        };
        let e = match w.error_count {
            Some(n) => n,
            None => 0,
        };
        let mut s = to_owned_string("triggers: ");
        push_decimal(&mut s, t);
        push_str(&mut s, "  errors: ");
        push_decimal(&mut s, e);
        push_line(&mut lines, s);
    }
    assert(string_views(lines@) =~= webhook_detail_spec(*w));
    lines
}

pub open spec fn nest_detail_spec(n: CompactNest) -> Seq<Seq<char>> {
    seq![title_line(n.title@, n.id@)] + nonempty_clean_line("purpose: "@, n.purpose) + (if n.labels@.len()
        > 0 {
        seq![clean_line("labels: "@, join_labels_spec(n.labels@))]
    } else {
        seq![]
    }) + (match n.due {
        Some(d) => seq!["due: "@ + d@],
        None => seq![],
    }) + (match n.completed {
        Some(c) => seq!["completed: "@ + (if c {
            "true"@
        } else {
            "false"@
        })],
        None => seq![],
    })
}

/// The text-mode detail block of a Nest-shaped object: title and id, purpose, labels,
/// due date and completion.
pub fn nest_detail_lines(n: &CompactNest) -> (lines: Vec<String>)
    ensures
        string_views(lines@) == nest_detail_spec(*n),
{
    let mut lines: Vec<String> = Vec::new();
    push_line(&mut lines, make_title_line(n.title.as_str(), n.id.as_str()));
    push_nonempty_clean_line(&mut lines, "purpose: ", &n.purpose);
    let ghost a = string_views(lines@);
    if n.labels.len() > 0 {
        push_line(&mut lines, make_clean_line("labels: ", n.labels_str().as_str()));
    }
    let ghost b = string_views(lines@);
    match &n.due {
        Some(d) => push_line(&mut lines, make_raw_line("due: ", d.as_str())),
        None => {},
    }
    let ghost c = string_views(lines@);
    match n.completed {
        Some(done) => push_line(
            &mut lines,
            make_raw_line(
                "completed: ",
                if done {
                    "true"
                } else {
                    "false"
                },
            ),
        ),
        None => {},
    }
    assert(string_views(lines@) =~= nest_detail_spec(*n));
    lines
}

pub open spec fn status_response_line(r: StatusResponse) -> Seq<char> {
    "  "@ + or_default(r.user_id, "-"@) + ": "@ + clean_text_spec(or_default(r.response, "none"@))
        + " "@ + text_or_empty(r.voted_at)
}

pub open spec fn status_spec(s: StatusView) -> Seq<Seq<char>> {
    seq![clean_line("status: "@, or_default(s.status, "-"@))] + s.responses@.map_values(
        |r: StatusResponse| status_response_line(r),
    ) + (match s.autoapprove {
        Some(a) => seq![clean_line("autoapprove: "@, a@)],
        None => seq![],
    })
}

fn text_or<'a>(o: &'a Option<String>, d: &'a str) -> (r: &'a str)
    ensures
        r@ == or_default(*o, d@),
{
    match o {
        Some(s) => s.as_str(),
        None => d,
    }
}

/// The text-mode view of a tension's status: the status, one line per vote (voter,
/// response, time) and the auto-approval setting.
pub fn status_lines(s: &StatusView) -> (lines: Vec<String>)
    ensures
        string_views(lines@) == status_spec(*s),
{
    let mut lines: Vec<String> = Vec::new();
    push_line(&mut lines, make_clean_line("status: ", text_or(&s.status, "-")));
    let mut i: usize = 0;
    while i < s.responses.len()
        invariant
            i <= s.responses.len(),
            string_views(lines@) == seq![clean_line("status: "@, or_default(s.status, "-"@))]
                + s.responses@.take(i as int).map_values(|r: StatusResponse| status_response_line(r)),
        decreases s.responses.len() - i,
    {
        let r = &s.responses[i];
        let mut line = to_owned_string("  ");
        push_str(&mut line, text_or(&r.user_id, "-"));
        push_str(&mut line, ": ");
        push_str(&mut line, clean_text(text_or(&r.response, "none")).as_str());
        push_str(&mut line, " ");
        push_str(&mut line, text_or(&r.voted_at, ""));
        proof {
            reveal_strlit("");
        }
        assert(line@ =~= status_response_line(*r));
        push_line(&mut lines, line);
        assert(s.responses@.take(i + 1).map_values(|r: StatusResponse| status_response_line(r))
            =~= s.responses@.take(i as int).map_values(
            |r: StatusResponse| status_response_line(r),
        ).push(status_response_line(s.responses@[i as int])));
        i = i + 1;
    }
    assert(s.responses@.take(s.responses.len() as int) =~= s.responses@);
    let ghost a = string_views(lines@);
    match &s.autoapprove {
        Some(x) => push_line(&mut lines, make_clean_line("autoapprove: ", x.as_str())),
        None => {},
    }
    assert(string_views(lines@) =~= status_spec(*s));
    lines
}

/// The primary proposal item of a part (`items[0]`).
pub open spec fn first_item(p: PartView) -> Option<Json> {
    if p.items@.len() > 0 {
        Some(p.items@[0])
    } else {
        None
    }
}

pub open spec fn item_member(p: PartView, key: Seq<char>) -> Option<Json> {
    match first_item(p) {
        Some(i) => get_spec(i, key),
        None => None,
    }
}

/// The action of a part's primary item, or `-`.
pub open spec fn part_action(p: PartView) -> Seq<char> {
    match as_str_spec(item_member(p, "action"@)) {
        Some(a) => a,
        None => "-"@,
    }
}

/// The cleaned title of a part's primary item, else the part's own title, else empty.
pub open spec fn part_title(p: PartView) -> Seq<char> {
    match as_str_spec(item_member(p, "title"@)) {
        Some(t) => clean_text_spec(t),
        None => text_or_empty(p.title),
    }
}

/// The joined labels of a part's primary item, when they are an array.
pub open spec fn part_labels(p: PartView) -> Seq<char> {
    match item_member(p, "labels"@) {
        Some(Json::Array(a)) => join_labels_spec(a@),
        _ => seq![],
    }
}

fn part_member<'a>(p: &'a PartView, key: &str) -> (r: Option<&'a Json>)
    ensures
        (match r {
            Some(x) => Some(*x),
            None => None,
        }) == item_member(*p, key@),
{
    if p.items.len() > 0 {
        get(&p.items[0], key)
    } else {
        None
    }
}

fn part_action_of(p: &PartView) -> (r: String)
    ensures
        r@ == part_action(*p),
{
    match as_str(part_member(p, "action")) {
        Some(a) => to_owned_string(a),
        None => to_owned_string("-"),
    }
}

fn part_title_of(p: &PartView) -> (r: String)
    ensures
        r@ == part_title(*p),
{
    match as_str(part_member(p, "title")) {
        Some(t) => clean_text(t),
        None => clone_or_empty(&p.title),
    }
}

fn part_labels_of(p: &PartView) -> (r: String)
    ensures
        r@ == part_labels(*p),
{
    match part_member(p, "labels") {
        Some(Json::Array(a)) => join_labels(a),
        _ => String::new(),
    }
}

pub open spec fn part_row(p: PartView) -> Seq<Seq<char>> {
    seq![
        p.id@,
        part_action(p),
        part_title(p),
        part_labels(p),
    ]
}

pub open spec fn part_table_spec(items: Seq<PartView>) -> Seq<char> {
    format_table_spec(seq!["PART"@, "ACTION"@, "TITLE"@, "LABELS"@], items.map_values(|x: PartView| part_row(x)))
}

/// One row per proposal part, summarising its primary item (`items[0]`): its action, its title (else the part's own) and its labels.
pub fn part_table(items: &[PartView]) -> (r: String)
    ensures
        r@ == part_table_spec(items@),
{
    let mut rows: Vec<Vec<String>> = Vec::new();
    let mut i: usize = 0;
    while i < items.len()
        invariant
            i <= items.len(),
            rows_view(rows@) == items@.take(i as int).map_values(|x: PartView| part_row(x)),
        decreases items.len() - i,
    {
        let p = &items[i];
        let mut row: Vec<String> = Vec::new();
        row.push(p.id.clone());
        row.push(part_action_of(p));
        row.push(part_title_of(p));
        row.push(part_labels_of(p));
        assert(string_views(row@) =~= part_row(*p));
        let ghost before = rows_view(rows@);
        rows.push(row);
        assert(rows_view(rows@) =~= before.push(part_row(*p)));
        assert(items@.take(i + 1).map_values(|x: PartView| part_row(x)) =~= items@.take(
            i as int,
        ).map_values(|x: PartView| part_row(x)).push(part_row(items@[i as int])));
        i = i + 1;
    }
    assert(items@.take(items.len() as int) =~= items@);
    let mut h: Vec<&str> = Vec::new();
    h.push("PART");
    h.push("ACTION");
    h.push("TITLE");
    h.push("LABELS");
    assert(str_views(h@) =~= seq!["PART"@, "ACTION"@, "TITLE"@, "LABELS"@]);
    format_table(h.as_slice(), rows)
}

pub open spec fn child_row(c: ChildView) -> Seq<Seq<char>> {
    seq![
        c.id@,
        (match c.title { Some(t) => clean_text_spec(t@), None => seq![] }),
        join_labels_spec(c.labels@),
        text_or_empty(c.link_id),
    ]
}

pub open spec fn child_table_spec(items: Seq<ChildView>) -> Seq<char> {
    format_table_spec(seq!["ID"@, "TITLE"@, "LABEL"@, "LINK"@], items.map_values(|x: ChildView| child_row(x)))
}

/// The accountabilities and domains of a proposal part.
pub fn child_table(items: &[ChildView]) -> (r: String)
    ensures
        r@ == child_table_spec(items@),
{
    let mut rows: Vec<Vec<String>> = Vec::new();
    let mut i: usize = 0;
    while i < items.len()
        invariant
            i <= items.len(),
            rows_view(rows@) == items@.take(i as int).map_values(|x: ChildView| child_row(x)),
        decreases items.len() - i,
    {
        let c = &items[i];
        let mut row: Vec<String> = Vec::new();
        row.push(c.id.clone());
        row.push(match &c.title { Some(t) => clean_text(t.as_str()), None => String::new() });
        row.push(join_labels(&c.labels));
        row.push(clone_or_empty(&c.link_id));
        assert(string_views(row@) =~= child_row(*c));
        let ghost before = rows_view(rows@);
        rows.push(row);
        assert(rows_view(rows@) =~= before.push(child_row(*c)));
        assert(items@.take(i + 1).map_values(|x: ChildView| child_row(x)) =~= items@.take(
            i as int,
        ).map_values(|x: ChildView| child_row(x)).push(child_row(items@[i as int])));
        i = i + 1;
    }
    assert(items@.take(items.len() as int) =~= items@);
    let mut h: Vec<&str> = Vec::new();
    h.push("ID");
    h.push("TITLE");
    h.push("LABEL");
    h.push("LINK");
    assert(str_views(h@) =~= seq!["ID"@, "TITLE"@, "LABEL"@, "LINK"@]);
    format_table(h.as_slice(), rows)
}

// ---- diffs ----

/// How a diff value reads in a table: `—` for null, cleaned text for a string, the
/// items' renderings joined with `, ` for an array (no brackets), else the JSON text.
pub open spec fn value_display(v: ChangeValue) -> Seq<char>
    decreases v, 0int,
{
    match v {
        ChangeValue::Null => "—"@,
        ChangeValue::Text(s) => clean_text_spec(s@),
        ChangeValue::List(a) => join(displays(a@, a@.len() as int), ", "@),
        ChangeValue::Other(s) => s@,
    }
}

/// The renderings of the first `n` items.
pub open spec fn displays(items: Seq<ChangeValue>, n: int) -> Seq<Seq<char>>
    decreases items, n,
    when 0 <= n <= items.len()
{
    if n == 0 {
        seq![]
    } else {
        displays(items, n - 1).push(value_display(items[n - 1]))
    }
}

fn display_value(v: &ChangeValue) -> (r: String)
    ensures
        r@ == value_display(*v),
    decreases v,
{
    match v {
        ChangeValue::Null => to_owned_string("—"),
        ChangeValue::Text(s) => clean_text(s.as_str()),
        ChangeValue::List(a) => {
            let mut parts: Vec<String> = Vec::new();
            let mut i: usize = 0;
            while i < a.len()
                invariant
                    i <= a.len(),
                    *v == ChangeValue::List(*a),
                    string_views(parts@) == displays(a@, i as int),
                decreases a.len() - i,
            {
                assert(decreases_to!(*v => a@[i as int])) by {
                    assert(decreases_to!(*v => (*v)->List_0));
                    assert(decreases_to!(*a => a@));
                    assert(decreases_to!(a@ => a@[i as int]));
                }
                let d = display_value(&a[i]);
                let ghost before = string_views(parts@);
                parts.push(d);
                assert(string_views(parts@) =~= before.push(d@));
                i = i + 1;
            }
            join_strings(&parts, ", ")
        },
        ChangeValue::Other(s) => s.clone(),
    }
}

pub open spec fn change_row(c: ChangeView) -> Seq<Seq<char>> {
    seq![c.variable@, value_display(c.old_value), value_display(c.new_value)]
}

pub open spec fn changes_table_spec(items: Seq<ChangeView>) -> Seq<char> {
    format_table_spec(seq!["VARIABLE"@, "OLD"@, "NEW"@], items.map_values(|x: ChangeView| change_row(x)))
}

/// The computed diff of a proposal part: variable, old value, new value.
pub fn changes_table(items: &[ChangeView]) -> (r: String)
    ensures
        r@ == changes_table_spec(items@),
{
    let mut rows: Vec<Vec<String>> = Vec::new();
    let mut i: usize = 0;
    while i < items.len()
        invariant
            i <= items.len(),
            rows_view(rows@) == items@.take(i as int).map_values(|x: ChangeView| change_row(x)),
        decreases items.len() - i,
    {
        let c = &items[i];
        let mut row: Vec<String> = Vec::new();
        row.push(c.variable.clone());
        row.push(display_value(&c.old_value));
        row.push(display_value(&c.new_value));
        assert(string_views(row@) =~= change_row(*c));
        let ghost before = rows_view(rows@);
        rows.push(row);
        assert(rows_view(rows@) =~= before.push(change_row(*c)));
        assert(items@.take(i + 1).map_values(|x: ChangeView| change_row(x)) =~= items@.take(
            i as int,
        ).map_values(|x: ChangeView| change_row(x)).push(change_row(items@[i as int])));
        i = i + 1;
    }
    assert(items@.take(items.len() as int) =~= items@);
    let mut h: Vec<&str> = Vec::new();
    h.push("VARIABLE");
    h.push("OLD");
    h.push("NEW");
    assert(str_views(h@) =~= seq!["VARIABLE"@, "OLD"@, "NEW"@]);
    format_table(h.as_slice(), rows)
}


pub open spec fn post_row(p: PostView) -> Seq<Seq<char>> {
    seq![
        p.id@,
        text_or_empty(p.created_by),
        post_text_spec(p),
    ]
}

pub open spec fn post_table_spec(items: Seq<PostView>) -> Seq<char> {
    format_table_spec(seq!["ID"@, "BY"@, "BODY"@], items.map_values(|x: PostView| post_row(x)))
}

/// A circle's posts: id, author and text.
pub fn post_table(items: &[PostView]) -> (r: String)
    ensures
        r@ == post_table_spec(items@),
{
    let mut rows: Vec<Vec<String>> = Vec::new();
    let mut i: usize = 0;
    while i < items.len()
        invariant
            i <= items.len(),
            rows_view(rows@) == items@.take(i as int).map_values(|x: PostView| post_row(x)),
        decreases items.len() - i,
    {
        let p = &items[i];
        let mut row: Vec<String> = Vec::new();
        row.push(p.id.clone());
        row.push(clone_or_empty(&p.created_by));
        row.push(p.text());
        assert(string_views(row@) =~= post_row(*p));
        let ghost before = rows_view(rows@);
        rows.push(row);
        assert(rows_view(rows@) =~= before.push(post_row(*p)));
        assert(items@.take(i + 1).map_values(|x: PostView| post_row(x)) =~= items@.take(
            i as int,
        ).map_values(|x: PostView| post_row(x)).push(post_row(items@[i as int])));
        i = i + 1;
    }
    assert(items@.take(items.len() as int) =~= items@);
    let mut h: Vec<&str> = Vec::new();
    h.push("ID");
    h.push("BY");
    h.push("BODY");
    assert(str_views(h@) =~= seq!["ID"@, "BY"@, "BODY"@]);
    format_table(h.as_slice(), rows)
}

pub open spec fn comment_row(p: PostView) -> Seq<Seq<char>> {
    seq![
        p.id@,
        text_or_empty(p.created_by),
        post_text_spec(p),
        text_or_empty(p.created_at),
    ]
}

pub open spec fn comment_table_spec(items: Seq<PostView>) -> Seq<char> {
    format_table_spec(seq!["ID"@, "BY"@, "BODY"@, "AT"@], items.map_values(|x: PostView| comment_row(x)))
}

/// A nest's comments: id, author, text and time.
pub fn comment_table(items: &[PostView]) -> (r: String)
    ensures
        r@ == comment_table_spec(items@),
{
    let mut rows: Vec<Vec<String>> = Vec::new();
    let mut i: usize = 0;
    while i < items.len()
        invariant
            i <= items.len(),
            rows_view(rows@) == items@.take(i as int).map_values(|x: PostView| comment_row(x)),
        decreases items.len() - i,
    {
        let p = &items[i];
        let mut row: Vec<String> = Vec::new();
        row.push(p.id.clone());
        row.push(clone_or_empty(&p.created_by));
        row.push(p.text());
        row.push(clone_or_empty(&p.created_at));
        assert(string_views(row@) =~= comment_row(*p));
        let ghost before = rows_view(rows@);
        rows.push(row);
        assert(rows_view(rows@) =~= before.push(comment_row(*p)));
        assert(items@.take(i + 1).map_values(|x: PostView| comment_row(x)) =~= items@.take(
            i as int,
        ).map_values(|x: PostView| comment_row(x)).push(comment_row(items@[i as int])));
        i = i + 1;
    }
    assert(items@.take(items.len() as int) =~= items@);
    let mut h: Vec<&str> = Vec::new();
    h.push("ID");
    h.push("BY");
    h.push("BODY");
    h.push("AT");
    assert(str_views(h@) =~= seq!["ID"@, "BY"@, "BODY"@, "AT"@]);
    format_table(h.as_slice(), rows)
}

pub open spec fn label_row(l: LabelView) -> Seq<Seq<char>> {
    seq![
        l.id@,
        text_or_empty(l.title),
        text_or_empty(l.color),
        text_or_empty(l.icon),
    ]
}

pub open spec fn label_table_spec(items: Seq<LabelView>) -> Seq<char> {
    format_table_spec(seq!["ID"@, "TITLE"@, "COLOR"@, "ICON"@], items.map_values(|x: LabelView| label_row(x)))
}

/// The labels table.
pub fn label_table(items: &[LabelView]) -> (r: String)
    ensures
        r@ == label_table_spec(items@),
{
    let mut rows: Vec<Vec<String>> = Vec::new();
    let mut i: usize = 0;
    while i < items.len()
        invariant
            i <= items.len(),
            rows_view(rows@) == items@.take(i as int).map_values(|x: LabelView| label_row(x)),
        decreases items.len() - i,
    {
        let l = &items[i];
        let mut row: Vec<String> = Vec::new();
        row.push(l.id.clone());
        row.push(clone_or_empty(&l.title));
        row.push(clone_or_empty(&l.color));
        row.push(clone_or_empty(&l.icon));
        assert(string_views(row@) =~= label_row(*l));
        let ghost before = rows_view(rows@);
        rows.push(row);
        assert(rows_view(rows@) =~= before.push(label_row(*l)));
        assert(items@.take(i + 1).map_values(|x: LabelView| label_row(x)) =~= items@.take(
            i as int,
        ).map_values(|x: LabelView| label_row(x)).push(label_row(items@[i as int])));
        i = i + 1;
    }
    assert(items@.take(items.len() as int) =~= items@);
    let mut h: Vec<&str> = Vec::new();
    h.push("ID");
    h.push("TITLE");
    h.push("COLOR");
    h.push("ICON");
    assert(str_views(h@) =~= seq!["ID"@, "TITLE"@, "COLOR"@, "ICON"@]);
    format_table(h.as_slice(), rows)
}

/// The single-line view of one comment: its cleaned text and id.
pub fn post_line(p: &PostView) -> (r: String)
    ensures
        r@ == title_line(post_text_spec(*p), p.id@),
{
    make_title_line(p.text().as_str(), p.id.as_str())
}


pub open spec fn notification_row(n: NotificationView) -> Seq<Seq<char>> {
    seq![
        if n.is_read {
            seq![]
        } else {
            "●"@
        },
        text_or_empty(n.group),
        text_or_empty(n.title),
        text_or_empty(n.actor_name),
        text_or_empty(n.created_at),
    ]
}

pub open spec fn notification_table_spec(items: Seq<NotificationView>) -> Seq<char> {
    format_table_spec(
        seq![""@, "GROUP"@, "TITLE"@, "BY"@, "AT"@],
        items.map_values(|x: NotificationView| notification_row(x)),
    )
}

/// The notifications table: a dot for unread ones, group, title, actor and time.
pub fn notification_table(items: &[NotificationView]) -> (r: String)
    ensures
        r@ == notification_table_spec(items@),
{
    let mut rows: Vec<Vec<String>> = Vec::new();
    let mut i: usize = 0;
    while i < items.len()
        invariant
            i <= items.len(),
            rows_view(rows@) == items@.take(i as int).map_values(
                |x: NotificationView| notification_row(x),
            ),
        decreases items.len() - i,
    {
        let n = &items[i];
        let mut row: Vec<String> = Vec::new();
        row.push(
            if n.is_read {
                String::new()
            } else {
                to_owned_string("●")
            },
        );
        row.push(clone_or_empty(&n.group));
        row.push(clone_or_empty(&n.title));
        row.push(clone_or_empty(&n.actor_name));
        row.push(clone_or_empty(&n.created_at));
        assert(string_views(row@) =~= notification_row(*n));
        let ghost before = rows_view(rows@);
        rows.push(row);
        assert(rows_view(rows@) =~= before.push(notification_row(*n)));
        assert(items@.take(i + 1).map_values(|x: NotificationView| notification_row(x))
            =~= items@.take(i as int).map_values(
            |x: NotificationView| notification_row(x),
        ).push(notification_row(items@[i as int])));
        i = i + 1;
    }
    assert(items@.take(items.len() as int) =~= items@);
    let mut h: Vec<&str> = Vec::new();
    h.push("");
    h.push("GROUP");
    h.push("TITLE");
    h.push("BY");
    h.push("AT");
    assert(str_views(h@) =~= seq![""@, "GROUP"@, "TITLE"@, "BY"@, "AT"@]);
    format_table(h.as_slice(), rows)
}

} // verus!

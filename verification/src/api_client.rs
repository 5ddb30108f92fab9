//! Request-path checks and the mapping of Nestr's error responses.

use vstd::prelude::*;

use crate::json::{
    as_str, as_str_spec, get, get_spec, json_parse_spec, json_view, lemma_view_get, parse_json,
    view_as_str, view_get, Json, JsonView,
};
use crate::oauth::opt_view;
use crate::text::{
    chars_of, is_ascii_alnum, is_ascii_alnum_spec, is_ws, is_ws_spec, push_str, split_chars, split_on,
    string_from_chars, to_owned_string, views, decimal,
};

verus! {

/// Typed errors surfaced by the API client.
#[derive(Debug)]
pub enum NestrError {
    Auth(String),
    Permission(String),
    NotFound(String),
    Validation(String),
    PlanRequired(String),
    Api { status: u16, message: String },
}

impl NestrError {
    pub open spec fn message(&self) -> Seq<char> {
        match self {
            NestrError::Auth(m) => "authentication failed: "@ + m@,
            NestrError::Permission(m) => "permission denied: "@ + m@,
            NestrError::NotFound(m) => "not found: "@ + m@,
            NestrError::Validation(m) => "validation error: "@ + m@,
            NestrError::PlanRequired(m) => "plan required: "@ + m@,
            NestrError::Api { status, message } => "API error ("@ + decimal(*status as nat) + "): "@
                + message@,
        }
    }

    /// The message shown to the user.
    pub fn to_string(&self) -> (r: String)
        ensures
            r@ == self.message(),
    {
        let (head, m) = match self {
            NestrError::Auth(m) => ("authentication failed: ", m),
            NestrError::Permission(m) => ("permission denied: ", m),
            NestrError::NotFound(m) => ("not found: ", m),
            NestrError::Validation(m) => ("validation error: ", m),
            NestrError::PlanRequired(m) => ("plan required: ", m),
            NestrError::Api { status, message } => {
                let mut s = to_owned_string("API error (");
                crate::text::push_decimal(&mut s, *status as u64);
                push_str(&mut s, "): ");
                push_str(&mut s, message.as_str());
                return s;
            },
        };
        let mut s = to_owned_string(head);
        push_str(&mut s, m.as_str());
        s
    }
}

/// Characters allowed in a request-path segment: ASCII letters and digits, `_`, `-`,
/// and `,` (for the multi-id `/nests/{ids}` route).
pub open spec fn path_char(c: char) -> bool {
    is_ascii_alnum_spec(c) || c == '_' || c == '-' || c == ','
}

/// How one segment of a request path fails, if it does.
pub enum SegmentFault {
    /// `.` or `..`.
    Dots,
    /// A character outside the allowed set.
    Characters,
}

pub open spec fn segment_fault(seg: Seq<char>) -> Option<SegmentFault> {
    if seg.len() == 0 {
        None
    } else if seg == seq!['.'] || seg == seq!['.', '.'] {
        Some(SegmentFault::Dots)
    } else if forall|i: int| 0 <= i < seg.len() ==> path_char(#[trigger] seg[i]) {
        None
    } else {
        Some(SegmentFault::Characters)
    }
}

/// The first faulty segment, in order, with its fault.
pub open spec fn first_fault(segs: Seq<Seq<char>>) -> Option<(Seq<char>, SegmentFault)>
    decreases segs.len(),
{
    if segs.len() == 0 {
        None
    } else {
        let earlier = first_fault(segs.drop_last());
        if earlier is Some {
            earlier
        } else {
            match segment_fault(segs.last()) {
                Some(f) => Some((segs.last(), f)),
                None => None,
            }
        }
    }
}

pub open spec fn path_fault_message(path: Seq<char>, seg: Seq<char>, f: SegmentFault) -> Seq<char> {
    match f {
        SegmentFault::Dots => "illegal path segment '"@ + seg + "' in request path '"@ + path
            + "'"@,
        SegmentFault::Characters => "illegal characters in id/path segment '"@ + seg
            + "' (request path '"@ + path + "')"@,
    }
}

fn check_segment(seg: &Vec<char>) -> (r: Option<SegmentFault>)
    ensures
        r == segment_fault(seg@),
{
    if seg.len() == 0 {
        return None;
    }
    if (seg.len() == 1 && seg[0] == '.') || (seg.len() == 2 && seg[0] == '.' && seg[1] == '.') {
        proof {
            if seg.len() == 1 {
                assert(seg@ =~= seq!['.']);
            } else {
                assert(seg@ =~= seq!['.', '.']);
            }
        }
        return Some(SegmentFault::Dots);
    }
    proof {
        if seg@ == seq!['.'] {
            assert(seg@.len() == 1);
        }
        if seg@ == seq!['.', '.'] {
            assert(seg@.len() == 2 && seg@[1] == '.');
        }
    }
    let mut i: usize = 0;
    while i < seg.len()
        invariant
            i <= seg.len(),
            forall|j: int| 0 <= j < i ==> path_char(#[trigger] seg@[j]),
            seg@.len() > 0,
            seg@ != seq!['.'],
            seg@ != seq!['.', '.'],
        decreases seg.len() - i,
    {
        let c = seg[i];
        if !(is_ascii_alnum(c) || c == '_' || c == '-' || c == ',') {
            assert(!path_char(seg@[i as int]));
            return Some(SegmentFault::Characters);
        }
        i = i + 1;
    }
    None
}

/// Reject path traversal, query/fragment injection and out-of-alphabet segments in
/// an API request path. Every request goes through this check, so a crafted id cannot
/// retarget a request, inject a query, or escape via `..`. Per `/`-separated segment:
/// empty segments are skipped; `.` and `..` are refused; otherwise only ASCII
/// alphanumerics, `_`, `-` and `,` are allowed. The first faulty segment is reported.
pub fn validate_path(path: &str) -> (r: Result<(), NestrError>)
    ensures
        r is Ok <==> first_fault(split_on(path@, '/')) is None,
        r matches Err(e) ==> (match first_fault(split_on(path@, '/')) {
            Some((seg, f)) => e matches NestrError::Validation(m) && m@ == path_fault_message(
                path@,
                seg,
                f,
            ),
            None => false,
        }),
{
    let chars = chars_of(path);
    let segs = split_chars(&chars, '/');
    let mut i: usize = 0;
    while i < segs.len()
        invariant
            i <= segs.len(),
            chars@ == path@,
            views(segs@) == split_on(path@, '/'),
            first_fault(views(segs@).take(i as int)) is None,
        decreases segs.len() - i,
    {
        proof {
            let t = views(segs@).take(i + 1);
            assert(t.drop_last() =~= views(segs@).take(i as int));
            assert(t.last() == segs@[i as int]@);
        }
        match check_segment(&segs[i]) {
            Some(f) => {
                proof {
                    lemma_first_fault_prefix(views(segs@), i + 1);
                }
                let seg = string_from_chars(&segs[i]);
                let mut m = match f {
                    SegmentFault::Dots => to_owned_string("illegal path segment '"),
                    SegmentFault::Characters => to_owned_string(
                        "illegal characters in id/path segment '",
                    ),
                };
                push_str(&mut m, seg.as_str());
                match f {
                    SegmentFault::Dots => {
                        push_str(&mut m, "' in request path '");
                        push_str(&mut m, path);
                        push_str(&mut m, "'");
                    },
                    SegmentFault::Characters => {
                        push_str(&mut m, "' (request path '");
                        push_str(&mut m, path);
                        push_str(&mut m, "')");
                    },
                }
                return Err(NestrError::Validation(m));
            },
            None => {},
        }
        i = i + 1;
    }
    assert(views(segs@).take(segs.len() as int) =~= views(segs@));
    Ok(())
}

proof fn lemma_first_fault_prefix(segs: Seq<Seq<char>>, n: int)
    requires
        0 <= n <= segs.len(),
        first_fault(segs.take(n)) is Some,
    ensures
        first_fault(segs) == first_fault(segs.take(n)),
    decreases segs.len() - n,
{
    if n < segs.len() {
        let t = segs.take(n + 1);
        assert(t.drop_last() =~= segs.take(n));
        assert(first_fault(t) == first_fault(segs.take(n)));
        lemma_first_fault_prefix(segs, n + 1);
    } else {
        assert(segs.take(n) =~= segs);
    }
}

/// With no faulty segment, no segment has a fault.
proof fn lemma_no_fault_each(segs: Seq<Seq<char>>)
    requires
        first_fault(segs) is None,
    ensures
        forall|k: int| 0 <= k < segs.len() ==> segment_fault(#[trigger] segs[k]) is None,
    decreases segs.len(),
{
    if segs.len() > 0 {
        lemma_no_fault_each(segs.drop_last());
        assert forall|k: int| 0 <= k < segs.len() implies segment_fault(#[trigger] segs[k]) is None by {
            if k < segs.len() - 1 {
                assert(segs[k] == segs.drop_last()[k]);
            }
        }
    }
}

/// Every character of `path` other than the separator lies in one of its pieces.
proof fn lemma_split_covers(path: Seq<char>, d: char)
    ensures
        forall|i: int|
            0 <= i < path.len() && path[i] != d ==> exists|k: int, j: int|
                0 <= k < split_on(path, d).len() && 0 <= j < split_on(path, d)[k].len()
                    && #[trigger] path[i] == split_on(path, d)[k][j],
    decreases path.len(),
{
    if path.len() > 0 {
        let p = path.drop_last();
        let c = path.last();
        lemma_split_covers(p, d);
        crate::text::lemma_split_on_nonempty(p, d);
        let sp = split_on(p, d);
        let s = split_on(path, d);
        assert forall|i: int| 0 <= i < path.len() && path[i] != d implies exists|k: int, j: int|
            0 <= k < s.len() && 0 <= j < s[k].len() && #[trigger] path[i] == s[k][j] by {
            if i == path.len() - 1 {
                assert(c != d);
                let last = sp.last().push(c);
                assert(s[s.len() - 1] == last);
                assert(last[last.len() - 1] == c);
            } else {
                assert(path[i] == p[i]);
                let (k, j) = choose|k: int, j: int|
                    0 <= k < sp.len() && 0 <= j < sp[k].len() && p[i] == sp[k][j];
                if c == d {
                    assert(s[k] == sp[k]);
                } else if k < sp.len() - 1 {
                    assert(s[k] == sp[k]);
                } else {
                    assert(s[k] == sp.last().push(c));
                    assert(s[k][j] == sp[k][j]);
                }
            }
        }
    }
}

/// What `validate_path` accepts is safe to put after the API base: no `.` or `..`
/// segment, and no character but `/`, ASCII letters and digits, `_`, `-` and `,` —
/// so no query, fragment, space or escape can ride along in an interpolated id.
pub proof fn lemma_accepted_path_is_safe(path: Seq<char>)
    requires
        first_fault(split_on(path, '/')) is None,
    ensures
        forall|i: int| 0 <= i < path.len() ==> #[trigger] path[i] == '/' || path_char(path[i]),
        forall|k: int|
            0 <= k < split_on(path, '/').len() ==> #[trigger] split_on(path, '/')[k] != seq!['.']
                && split_on(path, '/')[k] != seq!['.', '.'],
{
    let segs = split_on(path, '/');
    lemma_no_fault_each(segs);
    lemma_split_covers(path, '/');
    assert forall|i: int| 0 <= i < path.len() implies #[trigger] path[i] == '/' || path_char(path[i]) by {
        if path[i] != '/' {
            let (k, j) = choose|k: int, j: int|
                0 <= k < segs.len() && 0 <= j < segs[k].len() && path[i] == segs[k][j];
            assert(segment_fault(segs[k]) is None);
            if segs[k] == seq!['.'] || segs[k] == seq!['.', '.'] {
                assert(segment_fault(segs[k]) is Some);
            }
        }
    }
    assert forall|k: int| 0 <= k < segs.len() implies #[trigger] segs[k] != seq!['.'] && segs[k] != seq!['.', '.'] by {
        assert(segment_fault(segs[k]) is None);
    }
}

/// The pieces of a split hold only characters of the text other than the separator.
proof fn lemma_split_pieces_from(s: Seq<char>, d: char)
    ensures
        forall|k: int, j: int|
            0 <= k < split_on(s, d).len() && 0 <= j < split_on(s, d)[k].len() ==> #[trigger] split_on(
                s,
                d,
            )[k][j] != d && s.contains(split_on(s, d)[k][j]),
    decreases s.len(),
{
    if s.len() > 0 {
        let t = s.drop_last();
        lemma_split_pieces_from(t, d);
        crate::text::lemma_split_on_nonempty(t, d);
        let p = split_on(t, d);
        let q = split_on(s, d);
        assert forall|k: int, j: int| 0 <= k < q.len() && 0 <= j < q[k].len() implies #[trigger] q[k][j]
            != d && s.contains(q[k][j]) by {
            if s.last() == d {
                assert(q[k] == p[k]);
                assert(t.contains(p[k][j]));
                let i = choose|i: int| 0 <= i < t.len() && t[i] == p[k][j];
                assert(s[i] == t[i]);
            } else if k < p.len() - 1 {
                assert(q[k] == p[k]);
                assert(t.contains(p[k][j]));
                let i = choose|i: int| 0 <= i < t.len() && t[i] == p[k][j];
                assert(s[i] == t[i]);
            } else {
                assert(q[k] == p.last().push(s.last()));
                if j < p.last().len() {
                    assert(q[k][j] == p[k][j]);
                    assert(t.contains(p[k][j]));
                    let i = choose|i: int| 0 <= i < t.len() && t[i] == p[k][j];
                    assert(s[i] == t[i]);
                } else {
                    assert(q[k][j] == s[s.len() - 1]);
                }
            }
        }
    }
}

/// With no segment at fault, there is no first faulty segment.
proof fn lemma_each_no_fault(segs: Seq<Seq<char>>)
    requires
        forall|k: int| 0 <= k < segs.len() ==> segment_fault(#[trigger] segs[k]) is None,
    ensures
        first_fault(segs) is None,
    decreases segs.len(),
{
    if segs.len() > 0 {
        let t = segs.drop_last();
        assert forall|k: int| 0 <= k < t.len() implies segment_fault(#[trigger] t[k]) is None by {
            assert(t[k] == segs[k]);
        }
        lemma_each_no_fault(t);
        assert(segment_fault(segs[segs.len() - 1]) is None);
    }
}

/// `validate_path` accepts exactly the paths made of `/`, ASCII letters and digits,
/// `_`, `-` and `,`: every other character — `.`, `?`, `#`, `%`, a space, anything
/// beyond ASCII — is refused somewhere in the path.
pub proof fn lemma_path_accepted_iff_allowed_chars(path: Seq<char>)
    ensures
        first_fault(split_on(path, '/')) is None <==> forall|i: int|
            0 <= i < path.len() ==> #[trigger] path[i] == '/' || path_char(path[i]),
{
    if first_fault(split_on(path, '/')) is None {
        lemma_accepted_path_is_safe(path);
    }
    if forall|i: int| 0 <= i < path.len() ==> #[trigger] path[i] == '/' || path_char(path[i]) {
        let segs = split_on(path, '/');
        lemma_split_pieces_from(path, '/');
        assert forall|k: int| 0 <= k < segs.len() implies segment_fault(#[trigger] segs[k]) is None by {
            let seg = segs[k];
            assert forall|j: int| 0 <= j < seg.len() implies path_char(#[trigger] seg[j]) by {
                assert(seg[j] == segs[k][j]);
                assert(path.contains(seg[j]));
                let i = choose|i: int| 0 <= i < path.len() && path[i] == seg[j];
                assert(path[i] == '/' || path_char(path[i]));
            }
            if seg.len() > 0 {
                assert(path_char(seg[0]));
                assert(!path_char('.'));
                if seg == seq!['.'] || seg == seq!['.', '.'] {
                    assert(seg[0] == '.');
                }
            }
        }
        lemma_each_no_fault(segs);
    }
}

/// Whether an HTTP status is a success (2xx).
pub fn is_success(status: u16) -> (r: bool)
    ensures
        r == (200 <= status && status <= 299),
{
    200 <= status && status <= 299
}

pub open spec fn permission_message(msg: Seq<char>) -> Seq<char> {
    msg + ". Check your token/scopes (run `nestr auth status`)."@
}

/// The error for a non-success response with status `status` and body `body`, whose
/// human-readable detail (if the body carries one) is `detail`. Nestr answers 403 for
/// authentication failures too.
pub fn error_for_status(status: u16, detail: Option<String>, body: String) -> (r: NestrError)
    ensures
        ({
            let msg = match detail {
                Some(d) => d@,
                None => body@,
            };
            if status == 401 || status == 403 {
                r matches NestrError::Permission(m) && m@ == permission_message(msg)
            } else if status == 404 {
                r matches NestrError::NotFound(m) && m@ == msg
            } else if status == 402 {
                r matches NestrError::PlanRequired(m) && m@ == msg
            } else if status == 422 || status == 400 {
                r matches NestrError::Validation(m) && m@ == msg
            } else {
                r matches NestrError::Api { status: s, message: m } && s == status && m@ == msg
            }
        }),
{
    let msg = match detail {
        Some(d) => d,
        None => body,
    };
    if status == 401 || status == 403 {
        let mut m = msg;
        push_str(&mut m, ". Check your token/scopes (run `nestr auth status`).");
        NestrError::Permission(m)
    } else if status == 404 {
        NestrError::NotFound(msg)
    } else if status == 402 {
        NestrError::PlanRequired(msg)
    } else if status == 422 || status == 400 {
        NestrError::Validation(msg)
    } else {
        NestrError::Api { status, message: msg }
    }
}

pub open spec fn non_empty(s: Option<String>) -> Option<Seq<char>> {
    match s {
        Some(x) => if x@.len() > 0 {
            Some(x@)
        } else {
            None
        },
        None => None,
    }
}

/// The human-readable detail of a Nestr error body, given its `message`,
/// `description` and `error` members (each when it is a string): the first of them
/// that is non-empty. Most 4xx carry `description`, insights carry `message`.
pub fn pick_error_detail(
    message: Option<String>,
    description: Option<String>,
    error: Option<String>,
) -> (r: Option<String>)
    ensures
        (match r {
            Some(x) => Some(x@),
            None => None,
        }) == (if non_empty(message) is Some {
            non_empty(message)
        } else if non_empty(description) is Some {
            non_empty(description)
        } else {
            non_empty(error)
        }),
{
    match message {
        Some(m) if !m.as_str().is_empty() => return Some(m),
        _ => {},
    }
    match description {
        Some(d) if !d.as_str().is_empty() => return Some(d),
        _ => {},
    }
    match error {
        Some(e) if !e.as_str().is_empty() => Some(e),
        _ => None,
    }
}

pub open spec fn nonempty_text(o: Option<Seq<char>>) -> Option<Seq<char>> {
    match o {
        Some(x) => if x.len() > 0 {
            Some(x)
        } else {
            None
        },
        None => None,
    }
}

/// The detail of a parsed error body: its `message`, else `description`, else `error`
/// member, the first that is a non-empty string.
pub open spec fn error_detail_spec(v: Json) -> Option<Seq<char>> {
    let m = nonempty_text(as_str_spec(get_spec(v, "message"@)));
    let d = nonempty_text(as_str_spec(get_spec(v, "description"@)));
    let e = nonempty_text(as_str_spec(get_spec(v, "error"@)));
    if m is Some {
        m
    } else if d is Some {
        d
    } else {
        e
    }
}

/// The text of the member `key` of `v`, when it is a string.
pub fn str_member(v: &Json, key: &str) -> (r: Option<String>)
    ensures
        opt_view(r) == as_str_spec(get_spec(*v, key@)),
{
    match as_str(get(v, key)) {
        Some(s) => Some(to_owned_string(s)),
        None => None,
    }
}

/// Pull a human-readable detail out of a parsed Nestr error body. Nestr is
/// inconsistent: most 4xx carry `{description}`, insights carry `{status, message}`.
pub fn error_detail(v: &Json) -> (r: Option<String>)
    ensures
        opt_view(r) == error_detail_spec(*v),
{
    pick_error_detail(str_member(v, "message"), str_member(v, "description"), str_member(v, "error"))
}

/// The detail of an error body's value: its `message`, else `description`, else
/// `error` member, the first that is a non-empty string.
pub open spec fn error_detail_of_view(v: JsonView) -> Option<Seq<char>> {
    let m = nonempty_text(view_as_str(view_get(v, "message"@)));
    let d = nonempty_text(view_as_str(view_get(v, "description"@)));
    let e = nonempty_text(view_as_str(view_get(v, "error"@)));
    if m is Some {
        m
    } else if d is Some {
        d
    } else {
        e
    }
}

/// The detail of a value and of its view agree.
pub proof fn lemma_error_detail_view(v: Json)
    ensures
        error_detail_of_view(json_view(v)) == error_detail_spec(v),
{
    lemma_view_get(v, "message"@);
    lemma_view_get(v, "description"@);
    lemma_view_get(v, "error"@);
}

/// Pull a human-readable detail out of a Nestr error body: none where the body is not
/// JSON, else the detail of its value.
pub fn extract_error_detail(body: &str) -> (r: Option<String>)
    ensures
        opt_view(r) == match json_parse_spec(body@) {
            Some(j) => error_detail_of_view(j),
            None => None,
        },
{
    match parse_json(body) {
        Some(v) => {
            proof {
                lemma_error_detail_view(v);
            }
            error_detail(&v)
        },
        None => None,
    }
}

/// Whether a response calls for one refresh-and-retry: a 403 when the client holds a
/// refresh context (Nestr answers 403 to an expired token).
pub fn retry_after_refresh(status: u16, has_refresh: bool) -> (r: bool)
    ensures
        r == (status == 403 && has_refresh),
{
    status == 403 && has_refresh
}

/// Whether a text holds only whitespace (`trim().is_empty()`).
pub open spec fn blank(s: Seq<char>) -> bool {
    forall|i: int| 0 <= i < s.len() ==> is_ws_spec(#[trigger] s[i])
}

/// The JSON text to parse for a checked response body: `{}` for an empty or blank
/// body, else the body.
pub fn json_text(body: &str) -> (r: &str)
    ensures
        blank(body@) ==> r@ == "{}"@,
        !blank(body@) ==> r@ == body@,
{
    let v = chars_of(body);
    let mut i: usize = 0;
    while i < v.len()
        invariant
            i <= v.len(),
            v@ == body@,
            forall|j: int| 0 <= j < i ==> is_ws_spec(#[trigger] v@[j]),
        decreases v.len() - i,
    {
        if !is_ws(v[i]) {
            return body;
        }
        i = i + 1;
    }
    "{}"
}

} // verus!

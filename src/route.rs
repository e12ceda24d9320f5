//! Routing of incoming HTTP requests to the proxy's endpoints.
use vstd::prelude::*;
use crate::message::is_text;
use crate::scope::{
    contains_text,
    get_instance_from_path,
    get_partition_from_path,
    instance_of,
    is_chat_request,
    is_search_request,
    is_view_request,
    partition_of,
};

verus! {

/// Result count of the search and view routes when the path names none.
pub const DEFAULT_COUNT: u32 = 5;

pub open spec fn is_digit(c: char) -> bool {
    '0' <= c <= '9'
}

/// Value of a run of decimal digits.
pub open spec fn digits_value(s: Seq<char>) -> int
    decreases s.len(),
{
    if s.len() == 0 {
        0
    } else {
        digits_value(s.drop_last()) * 10 + (s.last() as int - '0' as int)
    }
}

/// The digits of a number's text, past an optional `+`.
pub open spec fn unsigned_digits(s: Seq<char>) -> Seq<char> {
    if s.len() > 0 && s[0] == '+' {
        s.skip(1)
    } else {
        s
    }
}

/// A `u32` written in decimal: an optional `+`, then at least one digit.
pub open spec fn parsed_u32(s: Seq<char>) -> Option<u32> {
    let d = unsigned_digits(s);
    if d.len() > 0 && (forall|i: int| 0 <= i < d.len() ==> is_digit(#[trigger] d[i]))
        && digits_value(d) <= u32::MAX {
        Some(digits_value(d) as u32)
    } else {
        None
    }
}

proof fn lemma_digits_value_nonneg(s: Seq<char>)
    requires
        forall|i: int| 0 <= i < s.len() ==> is_digit(#[trigger] s[i]),
    ensures
        digits_value(s) >= 0,
    decreases s.len(),
{
    if s.len() > 0 {
        lemma_digits_value_nonneg(s.drop_last());
    }
}

/// Reads a `u32` in decimal, as `str::parse::<u32>` accepts it.
pub fn parse_u32(s: &str) -> (r: Option<u32>)
    ensures
        r == parsed_u32(s@),
{
    let n = s.unicode_len();
    let start: usize = if n > 0 && s.get_char(0) == '+' {
        1
    } else {
        0
    };
    let ghost d = unsigned_digits(s@);
    assert(d =~= s@.skip(start as int));
    if start >= n {
        return None;
    }
    let cap: u64 = 4_294_967_296;
    let mut value: u64 = 0;
    let mut i = start;
    while i < n
        invariant
            n == s@.len(),
            start <= i <= n,
            d == s@.skip(start as int),
            d == unsigned_digits(s@),
            cap == u32::MAX + 1,
            forall|j: int| 0 <= j < i - start ==> is_digit(#[trigger] d[j]),
            value as int == if digits_value(d.take(i - start)) < cap {
                digits_value(d.take(i - start))
            } else {
                cap as int
            },
        decreases n - i,
    {
        let c = s.get_char(i);
        if !('0' <= c && c <= '9') {
            assert(d.len() == n - start);
            assert(!is_digit(d[i - start]));
            assert(!(forall|j: int| 0 <= j < d.len() ==> is_digit(#[trigger] d[j])));
            return None;
        }
        let digit = (c as u32 - '0' as u32) as u64;
        let ghost pre = d.take(i - start);
        let ghost next = d.take(i - start + 1);
        proof {
            assert(next.drop_last() =~= pre);
            assert(next.last() == c);
            assert forall|j: int| 0 <= j < pre.len() implies is_digit(#[trigger] pre[j]) by {
                assert(pre[j] == d[j]);
            }
            lemma_digits_value_nonneg(pre);
            let x = digits_value(pre);
            assert(digits_value(next) == x * 10 + digit);
            if x >= cap {
                assert(x * 10 + digit >= cap) by (nonlinear_arith)
                    requires
                        x >= cap,
                        digit >= 0,
                ;
            }
        }
        value = if value >= cap {
            cap
        } else {
            let v = value * 10 + digit;
            if v >= cap {
                cap
            } else {
                v
            }
        };
        i += 1;
    }
    assert(d.take(n - start) =~= d);
    if value >= cap {
        None
    } else {
        Some(value as u32)
    }
}

/// Position of the last `/`, or -1.
pub open spec fn last_slash(s: Seq<char>) -> int
    decreases s.len(),
{
    if s.len() == 0 {
        -1
    } else if s.last() == '/' {
        s.len() - 1
    } else {
        last_slash(s.drop_last())
    }
}

proof fn lemma_last_slash(s: Seq<char>)
    ensures
        -1 <= last_slash(s) < s.len(),
    decreases s.len(),
{
    if s.len() > 0 && s.last() != '/' {
        lemma_last_slash(s.drop_last());
    }
}

/// The last `/`-separated segment of a path.
pub open spec fn last_segment(s: Seq<char>) -> Seq<char> {
    s.skip(last_slash(s) + 1)
}

/// The count a path ends with, or the default count.
pub open spec fn count_of(path: Seq<char>) -> u32 {
    match parsed_u32(last_segment(path)) {
        Some(c) => c,
        None => DEFAULT_COUNT,
    }
}

/// The count at the end of a path (`.../view/<N>`), else the default.
pub fn get_count_from_path(path: &str) -> (r: u32)
    ensures
        r == count_of(path@),
{
    let n = path.unicode_len();
    let mut i = n;
    assert(path@.take(n as int) =~= path@);
    while i > 0 && path.get_char(i - 1) != '/'
        invariant
            n == path@.len(),
            i <= n,
            last_slash(path@.take(i as int)) == last_slash(path@),
        decreases i,
    {
        proof {
            assert(path@.take(i as int).drop_last() =~= path@.take(i as int - 1));
        }
        i -= 1;
    }
    proof {
        lemma_last_slash(path@);
        if i > 0 {
            assert(path@.take(i as int).last() == path@[i - 1]);
        }
    }
    let segment = path.substring_char(i, n);
    assert(segment@ =~= last_segment(path@));
    match parse_u32(segment) {
        Some(c) => c,
        None => DEFAULT_COUNT,
    }
}

/// The endpoint a request goes to.
pub enum Route {
    /// `GET /api/tags`: the static model list.
    Tags,
    /// `POST .../chat/completions` in a scope.
    Chat { partition: String, instance: String },
    /// `POST /echo`.
    Echo,
    /// `GET .../command/search/<N>` in a scope.
    Search { partition: String, instance: String, count: u32 },
    /// `GET .../command/view/<N>` in a scope.
    View { partition: String, instance: String, count: u32 },
    /// `POST /api/show`: the static model description.
    Show,
    NotFound,
}

/// The scope a path names: its partition, and its instance or else the partition.
pub open spec fn path_scope(path: Seq<char>) -> (Seq<char>, Seq<char>) {
    let p = partition_of(path);
    match instance_of(path) {
        Some(i) => (p, i),
        None => (p, p),
    }
}

fn scope_from_path(path: &str) -> (r: (String, String))
    ensures
        (r.0@, r.1@) == path_scope(path@),
{
    let partition = get_partition_from_path(path);
    let instance = match get_instance_from_path(path) {
        Some(i) => i,
        None => partition.clone(),
    };
    (partition, instance)
}

/// Routes a request by method and path; the first rule that matches wins.
pub open spec fn route_of(method: Seq<char>, path: Seq<char>) -> RouteKind {
    if method == "GET"@ && path == "/api/tags"@ {
        RouteKind::Tags
    } else if method == "POST"@ && contains_text(path, "/chat/completions"@) {
        RouteKind::Chat
    } else if method == "POST"@ && path == "/echo"@ {
        RouteKind::Echo
    } else if method == "GET"@ && contains_text(path, "/command/search"@) {
        RouteKind::Search
    } else if method == "GET"@ && contains_text(path, "/command/view"@) {
        RouteKind::View
    } else if method == "POST"@ && path == "/api/show"@ {
        RouteKind::Show
    } else {
        RouteKind::NotFound
    }
}

/// The endpoints, without their parameters.
#[derive(Debug, PartialEq, Eq, Structural)]
pub enum RouteKind {
    Tags,
    Chat,
    Echo,
    Search,
    View,
    Show,
    NotFound,
}

impl Route {
    pub open spec fn kind(&self) -> RouteKind {
        match self {
            Route::Tags => RouteKind::Tags,
            Route::Chat { .. } => RouteKind::Chat,
            Route::Echo => RouteKind::Echo,
            Route::Search { .. } => RouteKind::Search,
            Route::View { .. } => RouteKind::View,
            Route::Show => RouteKind::Show,
            Route::NotFound => RouteKind::NotFound,
        }
    }
}

/// Routes a request: chat completions in the path's scope (partition and
/// instance default to `default`, the instance to the partition), search
/// and view with the count the path ends with, and the static endpoints.
pub fn route_request(method: &str, path: &str) -> (r: Route)
    ensures
        r.kind() == route_of(method@, path@),
        r matches Route::Chat { partition, instance } ==> (partition@, instance@) == path_scope(
            path@,
        ),
        r matches Route::Search { partition, instance, count } ==> (partition@, instance@)
            == path_scope(path@) && count == count_of(path@),
        r matches Route::View { partition, instance, count } ==> (partition@, instance@)
            == path_scope(path@) && count == count_of(path@),
{
    let m = method.to_string();
    let p = path.to_string();
    let get = is_text(&m, "GET");
    let post = is_text(&m, "POST");
    if get && is_text(&p, "/api/tags") {
        Route::Tags
    } else if post && is_chat_request(path) {
        let (partition, instance) = scope_from_path(path);
        Route::Chat { partition, instance }
    } else if post && is_text(&p, "/echo") {
        Route::Echo
    } else if get && is_search_request(path) {
        let (partition, instance) = scope_from_path(path);
        Route::Search { partition, instance, count: get_count_from_path(path) }
    } else if get && is_view_request(path) {
        let (partition, instance) = scope_from_path(path);
        Route::View { partition, instance, count: get_count_from_path(path) }
    } else if post && is_text(&p, "/api/show") {
        Route::Show
    } else {
        Route::NotFound
    }
}

/// The decoded name/value pairs of a query string, in order.
pub uninterp spec fn form_pairs(q: Seq<char>) -> Seq<(Seq<char>, Seq<char>)>;

/// Relies on url::form_urlencoded::parse: the percent- and plus-decoded
/// name/value pairs of an `application/x-www-form-urlencoded` string, in
/// order, which depend on the string alone.
#[verifier::external_body]
fn decode_query(query: &str) -> (r: Vec<(String, String)>)
    ensures
        r@.map_values(|p: (String, String)| (p.0@, p.1@)) == form_pairs(query@),
{
    url::form_urlencoded::parse(query.as_bytes()).map(|(k, v)| (k.into_owned(), v.into_owned())).collect()
}

/// The search term of a query: the value of its last `term` pair, else empty.
pub open spec fn term_of(ps: Seq<(Seq<char>, Seq<char>)>) -> Seq<char>
    decreases ps.len(),
{
    if ps.len() == 0 {
        Seq::empty()
    } else if ps.last().0 == "term"@ {
        ps.last().1
    } else {
        term_of(ps.drop_last())
    }
}

/// Whether a query asks for semantic search: its last `semantic` pair has
/// the value `true` or `1`.
pub open spec fn semantic_of(ps: Seq<(Seq<char>, Seq<char>)>) -> bool
    decreases ps.len(),
{
    if ps.len() == 0 {
        false
    } else if ps.last().0 == "semantic"@ {
        ps.last().1 == "true"@ || ps.last().1 == "1"@
    } else {
        semantic_of(ps.drop_last())
    }
}

/// The search term and the semantic flag of decoded query pairs.
pub fn search_params(pairs: &Vec<(String, String)>) -> (r: (String, bool))
    ensures
        r.0@ == term_of(pairs@.map_values(|p: (String, String)| (p.0@, p.1@))),
        r.1 == semantic_of(pairs@.map_values(|p: (String, String)| (p.0@, p.1@))),
{
    let ghost ps = pairs@.map_values(|p: (String, String)| (p.0@, p.1@));
    let mut term = String::new();
    let mut semantic = false;
    let mut i: usize = 0;
    proof {
        reveal_strlit("");
    }
    while i < pairs.len()
        invariant
            i <= pairs@.len(),
            ps == pairs@.map_values(|p: (String, String)| (p.0@, p.1@)),
            term@ == term_of(ps.take(i as int)),
            semantic == semantic_of(ps.take(i as int)),
        decreases pairs@.len() - i,
    {
        proof {
            reveal_strlit("term");
            reveal_strlit("semantic");
            assert("term"@.len() != "semantic"@.len());
            assert(ps.take(i as int + 1).drop_last() =~= ps.take(i as int));
            assert(ps.take(i as int + 1).last() == (pairs@[i as int].0@, pairs@[i as int].1@));
        }
        let key = &pairs[i].0;
        let value = &pairs[i].1;
        let is_term = is_text(key, "term");
        let is_semantic = is_text(key, "semantic");
        if is_term {
            term = value.clone();
        } else if is_semantic {
            semantic = is_text(value, "true") || is_text(value, "1");
        }
        i += 1;
    }
    assert(ps.take(pairs@.len() as int) =~= ps);
    (term, semantic)
}

/// The search term and semantic flag of a raw query string.
pub fn search_query(query: &str) -> (r: (String, bool))
    ensures
        r.0@ == term_of(form_pairs(query@)),
        r.1 == semantic_of(form_pairs(query@)),
{
    let pairs = decode_query(query);
    search_params(&pairs)
}

} // verus!

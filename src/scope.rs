//! Tenancy scopes: reading partition and instance from a request path, the
//! defaults for unspecified scopes, and recognising routes.
use vstd::prelude::*;
use crate::message::is_text;

verus! {

pub const PARTITION_PREFIX: &'static str = "/partition/";

pub const DEFAULT_SCOPE: &'static str = "default";

/// First position at or after `from` holding `c`, or the length.
pub open spec fn find_from(s: Seq<char>, c: char, from: int) -> int
    decreases s.len() - from,
{
    if from < 0 || from >= s.len() {
        s.len() as int
    } else if s[from] == c {
        from
    } else {
        find_from(s, c, from + 1)
    }
}

proof fn lemma_find_from(s: Seq<char>, c: char, from: int)
    requires
        0 <= from <= s.len(),
    ensures
        from <= find_from(s, c, from) <= s.len(),
        find_from(s, c, from) < s.len() ==> s[find_from(s, c, from)] == c,
    decreases s.len() - from,
{
    if from < s.len() && s[from] != c {
        lemma_find_from(s, c, from + 1);
    }
}

fn find_char_from(s: &str, c: char, from: usize) -> (r: usize)
    requires
        from <= s@.len(),
    ensures
        r == find_from(s@, c, from as int),
{
    let n = s.unicode_len();
    let mut i = from;
    while i < n
        invariant
            n == s@.len(),
            from <= i <= n,
            find_from(s@, c, i as int) == find_from(s@, c, from as int),
        decreases n - i,
    {
        if s.get_char(i) == c {
            return i;
        }
        i += 1;
    }
    i
}

pub open spec fn starts_with(s: Seq<char>, p: Seq<char>) -> bool {
    p.len() <= s.len() && s.subrange(0, p.len() as int) == p
}

fn has_prefix(s: &str, p: &str) -> (r: bool)
    ensures
        r == starts_with(s@, p@),
{
    let n = p.unicode_len();
    if n > s.unicode_len() {
        return false;
    }
    let head = s.substring_char(0, n);
    let a = head.to_string();
    let b = p.to_string();
    a == b
}

/// Whether `needle` occurs in `hay`.
pub open spec fn contains_text(hay: Seq<char>, needle: Seq<char>) -> bool {
    exists|i: int| 0 <= i <= hay.len() - needle.len() && #[trigger] hay.subrange(i, i + needle.len()) == needle
}

/// Whether `needle` occurs in `hay`.
pub fn contains(hay: &str, needle: &str) -> (r: bool)
    ensures
        r == contains_text(hay@, needle@),
{
    let n = hay.unicode_len();
    let m = needle.unicode_len();
    if m > n {
        return false;
    }
    let target = needle.to_string();
    let mut i: usize = 0;
    while i <= n - m
        invariant
            n == hay@.len(),
            m == needle@.len(),
            m <= n,
            target@ == needle@,
            forall|j: int| 0 <= j < i ==> #[trigger] hay@.subrange(j, j + m) != needle@,
        decreases n - m + 1 - i,
    {
        let window = hay.substring_char(i, i + m).to_string();
        if window == target {
            return true;
        }
        if i == n - m {
            return false;
        }
        i += 1;
    }
    false
}

/// The partition a path names: its first segment after `/partition/`, or
/// `default`.
pub open spec fn partition_of(path: Seq<char>) -> Seq<char> {
    let k = PARTITION_PREFIX@.len() as int;
    if starts_with(path, PARTITION_PREFIX@) {
        path.subrange(k, find_from(path, '/', k))
    } else {
        DEFAULT_SCOPE@
    }
}

/// The instance a path names: the segment after `/partition/<P>/instance/`.
pub open spec fn instance_of(path: Seq<char>) -> Option<Seq<char>> {
    let k = PARTITION_PREFIX@.len() as int;
    let a = find_from(path, '/', k);
    let b = find_from(path, '/', a + 1);
    let c = find_from(path, '/', b + 1);
    if starts_with(path, PARTITION_PREFIX@) && b < path.len() && path.subrange(a + 1, b)
        == "instance"@ {
        Some(path.subrange(b + 1, c))
    } else {
        None
    }
}

fn partition_prefix_len() -> (r: usize)
    ensures
        r == PARTITION_PREFIX@.len(),
{
    PARTITION_PREFIX.unicode_len()
}

/// The partition of a request path (`/partition/<P>/...`), else `default`.
pub fn get_partition_from_path(path: &str) -> (r: String)
    ensures
        r@ == partition_of(path@),
{
    if !has_prefix(path, PARTITION_PREFIX) {
        return DEFAULT_SCOPE.to_string();
    }
    let k = partition_prefix_len();
    let end = find_char_from(path, '/', k);
    proof {
        lemma_find_from(path@, '/', k as int);
    }
    path.substring_char(k, end).to_string()
}

/// The instance of a request path (`/partition/<P>/instance/<I>/...`).
pub fn get_instance_from_path(path: &str) -> (r: Option<String>)
    ensures
        r matches Some(s) ==> instance_of(path@) == Some(s@),
        r is None ==> instance_of(path@) is None,
{
    if !has_prefix(path, PARTITION_PREFIX) {
        return None;
    }
    let n = path.unicode_len();
    let k = partition_prefix_len();
    let a = find_char_from(path, '/', k);
    proof {
        lemma_find_from(path@, '/', k as int);
    }
    if a >= n {
        proof {
            assert(find_from(path@, '/', a as int + 1) == n);
        }
        return None;
    }
    let b = find_char_from(path, '/', a + 1);
    proof {
        lemma_find_from(path@, '/', a as int + 1);
    }
    if b >= n {
        return None;
    }
    let c = find_char_from(path, '/', b + 1);
    proof {
        lemma_find_from(path@, '/', b as int + 1);
    }
    let middle = path.substring_char(a + 1, b).to_string();
    if !is_text(&middle, "instance") {
        return None;
    }
    Some(path.substring_char(b + 1, c).to_string())
}

/// The scope of a command: the partition defaults to `default`, the
/// instance to the partition.
pub open spec fn scope_of(partition: Option<String>, instance: Option<String>) -> (Seq<char>, Seq<
    char,
>) {
    let p = match partition {
        Some(p) => p@,
        None => DEFAULT_SCOPE@,
    };
    let i = match instance {
        Some(i) => i@,
        None => p,
    };
    (p, i)
}

/// Resolves an optional partition and instance to a scope.
pub fn resolve_scope(partition: Option<String>, instance: Option<String>) -> (r: (String, String))
    ensures
        (r.0@, r.1@) == scope_of(partition, instance),
{
    let p = match partition {
        Some(p) => p,
        None => DEFAULT_SCOPE.to_string(),
    };
    let i = match instance {
        Some(i) => i,
        None => p.clone(),
    };
    (p, i)
}

/// Whether a path addresses the chat-completions endpoint.
pub fn is_chat_request(path: &str) -> (r: bool)
    ensures
        r == contains_text(path@, "/chat/completions"@),
{
    contains(path, "/chat/completions")
}

/// Whether a path addresses the search command.
pub fn is_search_request(path: &str) -> (r: bool)
    ensures
        r == contains_text(path@, "/command/search"@),
{
    contains(path, "/command/search")
}

/// Whether a path addresses the view command.
pub fn is_view_request(path: &str) -> (r: bool)
    ensures
        r == contains_text(path@, "/command/view"@),
{
    contains(path, "/command/view")
}

} // verus!

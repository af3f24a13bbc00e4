//! Path handling for the dispatcher: prefix consumption, segment
//! splitting, and the normalization every inbound request path goes
//! through before routing.

use vstd::prelude::*;

verus! {

/// `p` is a prefix of `s`.
pub open spec fn starts_with_spec(s: Seq<char>, p: Seq<char>) -> bool {
    p.len() <= s.len() && s.subrange(0, p.len() as int) == p
}

/// Compares two string slices by their character sequences.
pub fn str_eq(a: &str, b: &str) -> (r: bool)
    ensures
        r == (a@ == b@),
{
    let alen = a.unicode_len();
    let blen = b.unicode_len();
    if alen != blen {
        return false;
    }
    let mut i: usize = 0;
    while i < alen
        invariant
            i <= alen,
            alen == a@.len(),
            alen == b@.len(),
            forall|j: int| 0 <= j < i ==> a@[j] == b@[j],
        decreases alen - i,
    {
        if a.get_char(i) != b.get_char(i) {
            return false;
        }
        i += 1;
    }
    assert(a@ =~= b@);
    true
}

/// Two prefixes that disagree at some position cannot both stand at
/// the front of one path.
pub proof fn lemma_distinct_prefixes(s: Seq<char>, a: Seq<char>, b: Seq<char>, i: int)
    requires
        0 <= i < a.len(),
        i < b.len(),
        a[i] != b[i],
    ensures
        !(starts_with_spec(s, a) && starts_with_spec(s, b)),
{
    if starts_with_spec(s, a) && starts_with_spec(s, b) {
        assert(s.subrange(0, a.len() as int)[i] == s[i]);
        assert(s.subrange(0, b.len() as int)[i] == s[i]);
    }
}

/// Strips `prefix` off the front of `path`, if it stands there.
pub fn consume_path<'a>(path: &'a str, prefix: &str) -> (r: Option<&'a str>)
    ensures
        match r {
            Some(rest) => starts_with_spec(path@, prefix@) && rest@ == path@.subrange(
                prefix@.len() as int,
                path@.len() as int,
            ),
            None => !starts_with_spec(path@, prefix@),
        },
{
    let n = path.unicode_len();
    let m = prefix.unicode_len();
    if m > n {
        return None;
    }
    let mut i: usize = 0;
    while i < m
        invariant
            i <= m,
            m <= n,
            m == prefix@.len(),
            n == path@.len(),
            forall|j: int| 0 <= j < i ==> path@[j] == prefix@[j],
        decreases m - i,
    {
        if path.get_char(i) != prefix.get_char(i) {
            assert(!starts_with_spec(path@, prefix@)) by {
                if starts_with_spec(path@, prefix@) {
                    assert(path@.subrange(0, prefix@.len() as int)[i as int] == path@[i as int]);
                }
            };
            return None;
        }
        i += 1;
    }
    assert(path@.subrange(0, prefix@.len() as int) =~= prefix@);
    Some(path.substring_char(m, n))
}

/// Splits `path` at its first `/` into the leading segment and the
/// remainder after the separator.
pub fn consume_path_segment<'a>(path: &'a str) -> (r: Option<(&'a str, &'a str)>)
    ensures
        match r {
            Some(pair) => ({
                let k = pair.0@.len() as int;
                &&& 0 <= k < path@.len()
                &&& path@[k] == '/'
                &&& forall|j: int| 0 <= j < k ==> path@[j] != '/'
                &&& pair.0@ == path@.subrange(0, k)
                &&& pair.1@ == path@.subrange(k + 1, path@.len() as int)
            }),
            None => forall|j: int| 0 <= j < path@.len() ==> path@[j] != '/',
        },
{
    let n = path.unicode_len();
    let mut i: usize = 0;
    while i < n
        invariant
            i <= n,
            n == path@.len(),
            forall|j: int| 0 <= j < i ==> path@[j] != '/',
        decreases n - i,
    {
        if path.get_char(i) == '/' {
            let seg = path.substring_char(0, i);
            let rest = path.substring_char(i + 1, n);
            assert(seg@.len() == i);
            return Some((seg, rest));
        }
        i += 1;
    }
    None
}

/// The canonical form a raw request path is brought into before
/// dispatch: one `/` is appended unless the path already ends with one,
/// and a single leading `/` is dropped.  Every registered route is then
/// matched against a path whose segments all carry a trailing `/`.
pub open spec fn normalize_spec(raw: Seq<char>) -> Seq<char> {
    let appended = if raw.len() > 0 && raw[raw.len() - 1] == '/' {
        raw
    } else {
        raw.push('/')
    };
    if appended.len() > 0 && appended[0] == '/' {
        appended.subrange(1, appended.len() as int)
    } else {
        appended
    }
}

/// Brings a raw request path into the dispatcher's canonical form.
pub fn normalize_path(raw: &str) -> (r: String)
    ensures
        r@ == normalize_spec(raw@),
{
    proof {
        reveal_strlit("/");
    }
    let n = raw.unicode_len();
    let appended: String = if n > 0 && raw.get_char(n - 1) == '/' {
        String::from_str(raw)
    } else {
        String::from_str(raw).concat("/")
    };
    proof {
        assert(appended@ =~= (if raw@.len() > 0 && raw@[raw@.len() - 1] == '/' {
            raw@
        } else {
            raw@.push('/')
        }));
    }
    let alen = appended.as_str().unicode_len();
    if appended.as_str().get_char(0) == '/' {
        String::from_str(appended.as_str().substring_char(1, alen))
    } else {
        appended
    }
}

} // verus!

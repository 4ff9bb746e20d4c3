//! Concurrency / capacity load ramp: the endpoint it drives over HTTP.
use vstd::prelude::*;
use vstd::string::*;

use crate::text::{chars_of, is_white_space, trim, trim_bounds, trim_end, trim_start};

verus! {

/// `str::trim_end_matches('/')`: the text without its trailing slashes.
pub open spec fn trim_end_slashes(s: Seq<char>) -> Seq<char>
    decreases s.len(),
{
    if s.len() > 0 && s.last() == '/' {
        trim_end_slashes(s.drop_last())
    } else {
        s
    }
}

/// The URL the HTTP load posts to: the base without trailing slashes, then
/// the trimmed path, given a leading slash when it has none.
pub open spec fn http_load_url_text(base: Seq<char>, path: Seq<char>) -> Seq<char> {
    let p = trim(path);
    let rooted = if p.len() > 0 && p[0] == '/' { p } else { "/"@ + p };
    trim_end_slashes(base) + rooted
}

pub fn http_load_url(base_url: &str, path: &str) -> (url: String)
    ensures
        url@ == http_load_url_text(base_url@, path@),
{
    let path_chars = chars_of(path);
    let (lo, hi) = trim_bounds(&path_chars);
    let trimmed = path.substring_char(lo, hi);
    let rooted = lo < hi && path_chars[lo] == '/';
    let base_chars = chars_of(base_url);
    let mut end = base_chars.len();
    assert(base_url@.subrange(0, end as int) == base_url@);
    while end > 0 && base_chars[end - 1] == '/'
        invariant
            base_chars@ == base_url@,
            end <= base_chars@.len(),
            trim_end_slashes(base_url@) == trim_end_slashes(base_url@.subrange(0, end as int)),
        decreases end,
    {
        assert(base_url@.subrange(0, end as int).drop_last() == base_url@.subrange(0, end - 1));
        end = end - 1;
    }
    let base_part = base_url.substring_char(0, end);
    let mut url = String::from_str(base_part);
    if !rooted {
        url.append("/");
    }
    url.append(trimmed);
    proof {
        reveal_strlit("/");
        if !rooted {
            assert(url@ == base_part@ + ("/"@ + trimmed@));
        }
    }
    url
}


/// `trim_end_slashes` keeps a prefix, drops only slashes, and leaves no
/// trailing slash.
proof fn lemma_trim_end_slashes_facts(s: Seq<char>)
    ensures
        ({
            let k = trim_end_slashes(s).len() as int;
            &&& k <= s.len()
            &&& trim_end_slashes(s) == s.take(k)
            &&& forall|i: int| k <= i < s.len() ==> #[trigger] s[i] == '/'
            &&& k > 0 ==> s[k - 1] != '/'
        }),
    decreases s.len(),
{
    if s.len() > 0 && s.last() == '/' {
        let p = s.drop_last();
        lemma_trim_end_slashes_facts(p);
        let k = trim_end_slashes(s).len() as int;
        assert(p.take(k) == s.take(k));
        assert forall|i: int| k <= i < s.len() implies #[trigger] s[i] == '/' by {
            if i < p.len() {
                assert(s[i] == p[i]);
            }
        }
    } else {
        assert(s.take(s.len() as int) == s);
    }
}

/// Law: the URL is the base with its trailing slashes removed, one slash,
/// and the trimmed path without its leading slash, if it had one. The join
/// never doubles a slash: the character before the joining slash is not one.
pub proof fn lemma_http_load_url_join(base: Seq<char>, path: Seq<char>)
    ensures
        ({
            let u = http_load_url_text(base, path);
            let k = trim_end_slashes(base).len() as int;
            let p = trim(path);
            &&& k <= base.len() && k < u.len()
            &&& u.take(k) == base.take(k)
            &&& forall|i: int| k <= i < base.len() ==> #[trigger] base[i] == '/'
            &&& k > 0 ==> u[k - 1] != '/'
            &&& u[k] == '/'
            &&& u.skip(k + 1) == (if p.len() > 0 && p[0] == '/' { p.drop_first() } else { p })
        }),
{
    reveal_strlit("/");
    lemma_trim_end_slashes_facts(base);
    let u = http_load_url_text(base, path);
    let k = trim_end_slashes(base).len() as int;
    let p = trim(path);
    let rooted = if p.len() > 0 && p[0] == '/' { p } else { "/"@ + p };
    assert(u == trim_end_slashes(base) + rooted);
    assert(u.take(k) == trim_end_slashes(base));
    assert(u[k] == rooted[0]);
    if p.len() > 0 && p[0] == '/' {
        assert(u.skip(k + 1) == p.drop_first());
    } else {
        assert(u.skip(k + 1) == p);
    }
}

/// Law: slashes at the end of the base do not change the URL, and neither
/// does a leading slash on a path that has no surrounding white space.
pub proof fn lemma_http_load_url_slashes(base: Seq<char>, path: Seq<char>)
    requires
        path.len() > 0 ==> !is_white_space(path[0]) && !is_white_space(path.last()) && path[0]
            != '/',
    ensures
        http_load_url_text(base.push('/'), path) == http_load_url_text(base, path),
        http_load_url_text(base, "/"@ + path) == http_load_url_text(base, path),
{
    reveal_strlit("/");
    assert(base.push('/').drop_last() == base);
    let q = "/"@ + path;
    assert(q.len() > 0 && q[0] == '/');
    assert(!is_white_space(q[0]));
    assert(trim_start(q) == q);
    assert(trim_start(path) == path);
    if path.len() > 0 {
        assert(q.last() == path.last());
    }
    assert(trim_end(q) == q);
    assert(trim_end(path) == path);
    assert(trim(q) == q);
    assert(trim(path) == path);
}

} // verus!

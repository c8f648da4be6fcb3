//! URI localizer: mapping a custom-scheme deep link onto the configured
//! base origin.
//!
//! A deep link arrives with an authority segment, a path and an optional
//! query. Localizing rebuilds it under the base origin: the base with its
//! trailing slashes stripped, then `/` and the authority (its own edge
//! slashes stripped) where the authority has content, then `/` and the path
//! (leading slashes stripped) where the path has content, then `?` and the
//! query verbatim where one is present.

use vstd::prelude::*;
use vstd::string::StrSliceExecFns;
use vstd::string::StringExecFns;

verus! {

/// A deep-link URI, reduced to the components the localizer reads.
#[derive(Debug)]
pub struct DeepLinkUri {
    /// The authority (host) segment; empty where the URI has none.
    pub authority: String,
    /// The path, as delivered (leading slashes are stripped on use).
    pub path: String,
    /// The query string, without its `?`, where the URI carries one.
    pub query: Option<String>,
}

/// Ghost image of a deep-link URI.
pub struct DeepLinkUriView {
    pub authority: Seq<char>,
    pub path: Seq<char>,
    pub query: Option<Seq<char>>,
}

impl View for DeepLinkUri {
    type V = DeepLinkUriView;

    open spec fn view(&self) -> DeepLinkUriView {
        DeepLinkUriView {
            authority: self.authority@,
            path: self.path@,
            query: match self.query {
                Some(q) => Some(q@),
                None => None,
            },
        }
    }
}

/// `s` with every trailing `/` removed.
pub open spec fn strip_trailing_slashes(s: Seq<char>) -> Seq<char>
    decreases s.len(),
{
    if s.len() > 0 && s.last() == '/' {
        strip_trailing_slashes(s.drop_last())
    } else {
        s
    }
}

/// `s` with every leading `/` removed.
pub open spec fn strip_leading_slashes(s: Seq<char>) -> Seq<char>
    decreases s.len(),
{
    if s.len() > 0 && s.first() == '/' {
        strip_leading_slashes(s.drop_first())
    } else {
        s
    }
}

/// `s` with leading and trailing slashes removed.
pub open spec fn strip_edge_slashes(s: Seq<char>) -> Seq<char> {
    strip_trailing_slashes(strip_leading_slashes(s))
}

/// Append `segment` behind a single separating slash, inserting the
/// separator only when there is content to append.
pub open spec fn join_segment(acc: Seq<char>, segment: Seq<char>) -> Seq<char> {
    if segment.len() > 0 {
        acc + seq!['/'] + segment
    } else {
        acc
    }
}

/// The localized target for a deep link against a base origin.
pub open spec fn spec_localize(link: DeepLinkUriView, base: Seq<char>) -> Seq<char> {
    let with_authority = join_segment(
        strip_trailing_slashes(base),
        strip_edge_slashes(link.authority),
    );
    let with_path = join_segment(with_authority, strip_leading_slashes(link.path));
    match link.query {
        Some(q) => with_path + seq!['?'] + q,
        None => with_path,
    }
}

/// `s` without its trailing slashes.
fn trim_end_slashes(s: &str) -> (r: &str)
    ensures
        r@ == strip_trailing_slashes(s@),
{
    let mut end: usize = s.unicode_len();
    proof {
        assert(s@.subrange(0, end as int) =~= s@);
    }
    while end > 0 && s.get_char(end - 1) == '/'
        invariant
            end <= s@.len(),
            strip_trailing_slashes(s@.subrange(0, end as int)) == strip_trailing_slashes(s@),
        decreases end,
    {
        proof {
            let pre = s@.subrange(0, end as int);
            assert(pre.last() == s@[end - 1]);
            assert(pre.drop_last() =~= s@.subrange(0, end - 1));
        }
        end = end - 1;
    }
    proof {
        let pre = s@.subrange(0, end as int);
        if end > 0 {
            assert(pre.last() == s@[end - 1]);
        }
        assert(strip_trailing_slashes(pre) == pre);
    }
    s.substring_char(0, end)
}

/// `s` without its leading slashes.
fn trim_start_slashes(s: &str) -> (r: &str)
    ensures
        r@ == strip_leading_slashes(s@),
{
    let len: usize = s.unicode_len();
    let mut start: usize = 0;
    proof {
        assert(s@.subrange(0, len as int) =~= s@);
    }
    while start < len && s.get_char(start) == '/'
        invariant
            start <= len,
            len == s@.len(),
            strip_leading_slashes(s@.subrange(start as int, len as int))
                == strip_leading_slashes(s@),
        decreases len - start,
    {
        proof {
            let suf = s@.subrange(start as int, len as int);
            assert(suf.first() == s@[start as int]);
            assert(suf.drop_first() =~= s@.subrange(start as int + 1, len as int));
        }
        start = start + 1;
    }
    proof {
        let suf = s@.subrange(start as int, len as int);
        if start < len {
            assert(suf.first() == s@[start as int]);
        }
        assert(strip_leading_slashes(suf) == suf);
    }
    s.substring_char(start, len)
}

/// `s` without its leading and trailing slashes.
fn trim_edge_slashes(s: &str) -> (r: &str)
    ensures
        r@ == strip_edge_slashes(s@),
{
    trim_end_slashes(trim_start_slashes(s))
}

/// Localize a deep link against a base origin.
///
/// Total over every syntactically valid URI: no host or scheme validation,
/// no failure path. The query, where present, is appended verbatim.
pub fn localize(link: &DeepLinkUri, base: &str) -> (target: String)
    ensures
        target@ == spec_localize(link@, base@),
{
    proof {
        reveal_strlit("/");
        reveal_strlit("?");
    }
    let mut target: String = trim_end_slashes(base).to_owned();
    let authority: &str = trim_edge_slashes(link.authority.as_str());
    if authority.unicode_len() > 0 {
        target.append("/");
        target.append(authority);
    }
    let path: &str = trim_start_slashes(link.path.as_str());
    if path.unicode_len() > 0 {
        target.append("/");
        target.append(path);
    }
    match &link.query {
        Some(q) => {
            target.append("?");
            target.append(q.as_str());
        },
        None => {},
    }
    proof {
        assert(target@ =~= spec_localize(link@, base@));
    }
    target
}

/// Stripping trailing slashes leaves no trailing slash.
pub proof fn lemma_strip_trailing_no_trailing_slash(s: Seq<char>)
    ensures
        strip_trailing_slashes(s).len() == 0 || strip_trailing_slashes(s).last() != '/',
    decreases s.len(),
{
    if s.len() > 0 && s.last() == '/' {
        lemma_strip_trailing_no_trailing_slash(s.drop_last());
    }
}

/// Stripping leading slashes leaves no leading slash.
pub proof fn lemma_strip_leading_no_leading_slash(s: Seq<char>)
    ensures
        strip_leading_slashes(s).len() == 0 || strip_leading_slashes(s).first() != '/',
    decreases s.len(),
{
    if s.len() > 0 && s.first() == '/' {
        lemma_strip_leading_no_leading_slash(s.drop_first());
    }
}

/// Stripping trailing slashes does not touch the first character.
pub proof fn lemma_strip_trailing_keeps_first(s: Seq<char>)
    ensures
        strip_trailing_slashes(s).len() > 0 ==> s.len() > 0 && strip_trailing_slashes(
            s,
        ).first() == s.first(),
    decreases s.len(),
{
    if s.len() > 0 && s.last() == '/' {
        lemma_strip_trailing_keeps_first(s.drop_last());
    }
}

/// Stripping both edges leaves neither a leading nor a trailing slash.
pub proof fn lemma_strip_edge_slashes_bare(s: Seq<char>)
    ensures
        strip_edge_slashes(s).len() == 0 || strip_edge_slashes(s).first() != '/',
        strip_edge_slashes(s).len() == 0 || strip_edge_slashes(s).last() != '/',
{
    lemma_strip_leading_no_leading_slash(s);
    lemma_strip_trailing_no_trailing_slash(strip_leading_slashes(s));
    lemma_strip_trailing_keeps_first(strip_leading_slashes(s));
}

/// A join never puts two slashes side by side: where a segment is appended,
/// the inserted separator is preceded by a non-slash (where anything
/// precedes it) and followed by a non-slash.
pub proof fn lemma_join_segment_separator(acc: Seq<char>, segment: Seq<char>)
    requires
        acc.len() == 0 || acc.last() != '/',
        segment.len() == 0 || segment.first() != '/',
    ensures
        segment.len() == 0 ==> join_segment(acc, segment) == acc,
        segment.len() > 0 ==> ({
            let r = join_segment(acc, segment);
            &&& r.len() == acc.len() + 1 + segment.len()
            &&& r[acc.len() as int] == '/'
            &&& (acc.len() > 0 ==> r[acc.len() - 1] != '/')
            &&& r[acc.len() as int + 1] != '/'
            &&& r.last() == segment.last()
        }),
{
    if segment.len() > 0 {
        let r = join_segment(acc, segment);
        assert(r[acc.len() as int] == '/');
        assert(r[acc.len() as int + 1] == segment.first());
        assert(r.last() == segment.last());
        if acc.len() > 0 {
            assert(r[acc.len() - 1] == acc.last());
        }
    }
}

/// The localized target is built in fixed order — stripped base, then `/`
/// plus the authority where it has content, then `/` plus the path where it
/// has content, then `?` plus the query where one is present — and neither
/// inserted separator sits next to another slash.
pub proof fn lemma_localize_shape(link: DeepLinkUriView, base: Seq<char>)
    ensures
        ({
            let b = strip_trailing_slashes(base);
            let h = strip_edge_slashes(link.authority);
            let p = strip_leading_slashes(link.path);
            let after_authority = join_segment(b, h);
            let after_path = join_segment(after_authority, p);
            &&& spec_localize(link, base) == (match link.query {
                Some(q) => after_path + seq!['?'] + q,
                None => after_path,
            })
            &&& (h.len() > 0 ==> after_authority[b.len() as int] == '/' && (b.len() > 0
                ==> after_authority[b.len() - 1] != '/') && after_authority[b.len() as int + 1] != '/')
            &&& (p.len() > 0 ==> after_path[after_authority.len() as int] == '/' && (
            after_authority.len() > 0 ==> after_path[after_authority.len() - 1] != '/')
                && after_path[after_authority.len() as int + 1] != '/')
        }),
{
    let b = strip_trailing_slashes(base);
    let h = strip_edge_slashes(link.authority);
    let p = strip_leading_slashes(link.path);
    lemma_strip_trailing_no_trailing_slash(base);
    lemma_strip_edge_slashes_bare(link.authority);
    lemma_strip_leading_no_leading_slash(link.path);
    lemma_join_segment_separator(b, h);
    lemma_join_segment_separator(join_segment(b, h), p);
}

/// Localizing with a base that already ends in a slash yields the same
/// target as localizing with the bare base: trailing-slash normalization of
/// the base does not change the result.
pub proof fn lemma_localize_trailing_slash_invariant(link: DeepLinkUriView, base: Seq<char>)
    ensures
        spec_localize(link, base.push('/')) == spec_localize(link, base),
{
    assert(base.push('/').last() == '/');
    assert(base.push('/').drop_last() =~= base);
}

/// A deep link with empty authority, empty path and no query localizes to
/// exactly the base, for a base without a trailing slash.
pub proof fn lemma_localize_empty_link_is_base(link: DeepLinkUriView, base: Seq<char>)
    requires
        link.authority.len() == 0,
        link.path.len() == 0,
        link.query is None,
        base.len() == 0 || base.last() != '/',
    ensures
        spec_localize(link, base) == base,
{
    assert(strip_trailing_slashes(base) == base);
    assert(strip_leading_slashes(link.authority) == link.authority);
    assert(strip_trailing_slashes(link.authority) == link.authority);
    assert(strip_leading_slashes(link.path) == link.path);
}

/// Whether `url::Url::parse` accepts the string as an absolute URL; the
/// outcome is a function of the string alone.
pub uninterp spec fn url_accepts(s: Seq<char>) -> bool;

/// Relies on url::Url::parse: it parses an absolute URL from the string or
/// reports a parse error, and which of the two happens depends on the
/// string alone.
#[verifier::external_body]
fn parses_as_url(s: &str) -> (r: bool)
    ensures
        r == url_accepts(s@),
{
    url::Url::parse(s).is_ok()
}

/// The string the webview is asked to show: the localized deep link where
/// one was delivered, otherwise the configured base itself.
pub open spec fn spec_navigation_candidate(
    link: Option<DeepLinkUriView>,
    base: Seq<char>,
) -> Seq<char> {
    match link {
        Some(l) => spec_localize(l, base),
        None => base,
    }
}

/// Compute the navigation target and confirm that the URL parser accepts
/// it. Returns `None` exactly where the parser rejects the candidate; the
/// host must not open a window on such a target.
pub fn navigation_target(link: Option<&DeepLinkUri>, base: &str) -> (target: Option<String>)
    ensures
        ({
            let candidate = spec_navigation_candidate(
                match link {
                    Some(l) => Some(l@),
                    None => None,
                },
                base@,
            );
            match target {
                Some(t) => t@ == candidate && url_accepts(candidate),
                None => !url_accepts(candidate),
            }
        }),
{
    let candidate: String = match link {
        Some(l) => localize(l, base),
        None => base.to_owned(),
    };
    if parses_as_url(candidate.as_str()) {
        Some(candidate)
    } else {
        None
    }
}

} // verus!

//! Validation of YouTube video links.

use vstd::prelude::*;

verus! {

/// The parts of a parsed absolute URL that link validation reads.
pub struct UrlParts {
    /// The host, when it is a domain name (not an IP address).
    pub domain: Option<String>,
    /// The path, percent-encoded as the URL parser serialises it.
    pub path: String,
    /// The decoded `key=value` pairs of the query, in order.
    pub query: Vec<(String, String)>,
}

/// The mathematical content of [`UrlParts`].
pub struct UrlPartsView {
    pub domain: Option<Seq<char>>,
    pub path: Seq<char>,
    pub query: Seq<(Seq<char>, Seq<char>)>,
}

impl View for UrlParts {
    type V = UrlPartsView;

    open spec fn view(&self) -> UrlPartsView {
        UrlPartsView {
            domain: match self.domain {
                Some(d) => Some(d@),
                None => None,
            },
            path: self.path@,
            query: self.query@.map_values(|p: (String, String)| (p.0@, p.1@)),
        }
    }
}

/// The view of an optional string.
pub open spec fn opt_view(o: Option<String>) -> Option<Seq<char>> {
    match o {
        Some(s) => Some(s@),
        None => None,
    }
}

/// What the URL parser makes of `s`: `None` when `s` is no absolute URL.
pub uninterp spec fn url_parts_of(s: Seq<char>) -> Option<UrlPartsView>;

/// Relies on `url::Url::parse` and the accessors `host`, `path` and
/// `query_pairs` of the parsed URL: the result depends on `s` alone.
#[verifier::external_body]
fn parse_url_parts(s: &str) -> (r: Option<UrlParts>)
    ensures
        match r {
            Some(p) => url_parts_of(s@) == Some(p@),
            None => url_parts_of(s@) is None,
        },
{
    let u = url::Url::parse(s).ok()?;
    let domain = match u.host() {
        Some(url::Host::Domain(d)) => Some(d.to_owned()),
        _ => None,
    };
    let query = u.query_pairs().map(|(k, v)| (k.into_owned(), v.into_owned())).collect();
    Some(UrlParts { domain, path: u.path().to_owned(), query })
}

/// Whether `c` may appear in a video identifier.
pub open spec fn is_id_char(c: char) -> bool {
    ('a' <= c && c <= 'z') || ('A' <= c && c <= 'Z') || ('0' <= c && c <= '9') || c == '-'
        || c == '_'
}

/// A well-formed video identifier: eleven characters from `[A-Za-z0-9_-]`.
pub open spec fn is_valid_video_id(id: Seq<char>) -> bool {
    id.len() == 11 && forall|i: int| 0 <= i < id.len() ==> is_id_char(#[trigger] id[i])
}

/// Checks that a video identifier is well formed.
pub fn valid_video_id(id: &str) -> (r: bool)
    ensures
        r == is_valid_video_id(id@),
{
    let n = id.unicode_len();
    if n != 11 {
        return false;
    }
    let mut i: usize = 0;
    while i < n
        invariant
            n == id@.len(),
            i <= n,
            forall|j: int| 0 <= j < i ==> is_id_char(#[trigger] id@[j]),
        decreases n - i,
    {
        let c = id.get_char(i);
        if !(('a' <= c && c <= 'z') || ('A' <= c && c <= 'Z') || ('0' <= c && c <= '9') || c
            == '-' || c == '_') {
            return false;
        }
        i += 1;
    }
    true
}

/// The value of the first query pair whose key is `key`.
pub open spec fn first_value(query: Seq<(Seq<char>, Seq<char>)>, key: Seq<char>) -> Option<
    Seq<char>,
>
    decreases query.len(),
{
    if query.len() == 0 {
        None
    } else if query[0].0 == key {
        Some(query[0].1)
    } else {
        first_value(query.drop_first(), key)
    }
}

/// A host of the watch form.
pub open spec fn is_watch_host(d: Seq<char>) -> bool {
    d == "youtube.com"@ || d == "www.youtube.com"@
}

/// A host of the short form.
pub open spec fn is_short_host(d: Seq<char>) -> bool {
    d == "youtu.be"@ || d == "www.youtu.be"@
}

/// The path of a short-form link without its leading `/`.
pub open spec fn short_path_id(path: Seq<char>) -> Seq<char> {
    if path.len() > 0 && path[0] == '/' {
        path.drop_first()
    } else {
        path
    }
}

/// The identifier that a parsed link names before it is validated: the first
/// `v` query value of a watch link, the path of a short link.
pub open spec fn candidate_id(p: UrlPartsView) -> Option<Seq<char>> {
    match p.domain {
        Some(d) => if is_watch_host(d) {
            if p.path == "/watch"@ {
                first_value(p.query, "v"@)
            } else {
                None
            }
        } else if is_short_host(d) {
            Some(short_path_id(p.path))
        } else {
            None
        },
        None => None,
    }
}

/// The video identifier of a parsed link, if it is a watch or short link whose
/// identifier is well formed.
pub open spec fn id_in_parts(p: UrlPartsView) -> Option<Seq<char>> {
    match candidate_id(p) {
        Some(id) => if is_valid_video_id(id) {
            Some(id)
        } else {
            None
        },
        None => None,
    }
}

/// The video identifier of the link `s`, if it is one.
pub open spec fn video_link_id(s: Seq<char>) -> Option<Seq<char>> {
    match url_parts_of(s) {
        Some(p) => id_in_parts(p),
        None => None,
    }
}

/// `s` is a watch-form link (`youtube.com` or `www.youtube.com`, path
/// `/watch`) whose first `v` query value is `id`.
pub open spec fn is_watch_link(s: Seq<char>, id: Seq<char>) -> bool {
    match url_parts_of(s) {
        Some(p) => p.domain matches Some(d) && is_watch_host(d) && p.path == "/watch"@
            && first_value(p.query, "v"@) == Some(id),
        None => false,
    }
}

/// `s` is a short-form link (`youtu.be` or `www.youtu.be`) whose path is `/`
/// followed by `id`.
pub open spec fn is_short_link(s: Seq<char>, id: Seq<char>) -> bool {
    match url_parts_of(s) {
        Some(p) => p.domain matches Some(d) && is_short_host(d) && short_path_id(p.path) == id,
        None => false,
    }
}

/// Link parsing accepts exactly the watch-form and short-form links that carry
/// a well-formed identifier, and yields that identifier; every other string
/// yields nothing.
pub proof fn lemma_video_link_id_exact(s: Seq<char>)
    ensures
        forall|id: Seq<char>|
            video_link_id(s) == Some(id) <==> is_valid_video_id(id) && (is_watch_link(s, id)
                || is_short_link(s, id)),
        video_link_id(s) is None <==> forall|id: Seq<char>|
            !(is_valid_video_id(id) && (is_watch_link(s, id) || is_short_link(s, id))),
{
    reveal_strlit("youtube.com");
    reveal_strlit("www.youtube.com");
    reveal_strlit("youtu.be");
    reveal_strlit("www.youtu.be");
    if let Some(p) = url_parts_of(s) {
        if let Some(d) = p.domain {
            assert("youtube.com"@.len() == 11 && "www.youtube.com"@.len() == 15);
            assert("youtu.be"@.len() == 8 && "www.youtu.be"@.len() == 12);
            if is_watch_host(d) {
                assert(!is_short_host(d));
            }
        }
    }
    if video_link_id(s) is None {
        assert forall|id: Seq<char>|
            !(is_valid_video_id(id) && (is_watch_link(s, id) || is_short_link(s, id))) by {}
    } else {
        let id = video_link_id(s)->0;
        assert(is_valid_video_id(id) && (is_watch_link(s, id) || is_short_link(s, id)));
    }
}

/// Whether `s` holds exactly the characters of `lit`.
pub(crate) fn same_text(s: &String, lit: &str) -> (r: bool)
    ensures
        r == (s@ == lit@),
{
    *s == String::from_str(lit)
}

fn first_value_exec(query: &Vec<(String, String)>, key: &str) -> (r: Option<String>)
    ensures
        opt_view(r) == first_value(query@.map_values(|p: (String, String)| (p.0@, p.1@)), key@),
{
    let ghost q = query@.map_values(|p: (String, String)| (p.0@, p.1@));
    let mut i: usize = 0;
    assert(q.subrange(0, q.len() as int) =~= q);
    while i < query.len()
        invariant
            i <= query@.len(),
            q == query@.map_values(|p: (String, String)| (p.0@, p.1@)),
            first_value(q, key@) == first_value(q.subrange(i as int, q.len() as int), key@),
        decreases query@.len() - i,
    {
        let ghost rest = q.subrange(i as int, q.len() as int);
        assert(rest.drop_first() =~= q.subrange(i + 1, q.len() as int));
        if same_text(&query[i].0, key) {
            return Some(query[i].1.clone());
        }
        i += 1;
    }
    None
}

/// The video identifier named by a parsed link: the first `v` query value of
/// a `youtube.com/watch` link, or the path of a `youtu.be` link, when it is a
/// well-formed identifier.
pub fn video_id_from_parts(parts: &UrlParts) -> (r: Option<String>)
    ensures
        opt_view(r) == id_in_parts(parts@),
{
    let candidate = match &parts.domain {
        Some(d) => {
            if same_text(d, "youtube.com") || same_text(d, "www.youtube.com") {
                if same_text(&parts.path, "/watch") {
                    first_value_exec(&parts.query, "v")
                } else {
                    None
                }
            } else if same_text(d, "youtu.be") || same_text(d, "www.youtu.be") {
                let n = parts.path.as_str().unicode_len();
                if n > 0 && parts.path.as_str().get_char(0) == '/' {
                    Some(parts.path.as_str().substring_char(1, n).to_string())
                } else {
                    Some(parts.path.clone())
                }
            } else {
                None
            }
        },
        None => None,
    };
    proof {
        assert(opt_view(candidate) == candidate_id(parts@)) by {
            if parts@.domain is Some && is_short_host(parts@.domain->0) && parts@.path.len() > 0
                && parts@.path[0] == '/' {
                assert(parts@.path.subrange(1, parts@.path.len() as int)
                    =~= parts@.path.drop_first());
            }
        }
    }
    match candidate {
        Some(id) => {
            if valid_video_id(id.as_str()) {
                Some(id)
            } else {
                None
            }
        },
        None => None,
    }
}

/// Parses a YouTube video link and returns its identifier; `None` when the
/// text is no URL, names another host, lacks the identifier, or the identifier
/// is not eleven characters from `[A-Za-z0-9_-]`.
pub fn parse_video_url(video_url: &str) -> (r: Option<String>)
    ensures
        opt_view(r) == video_link_id(video_url@),
        r matches Some(id) ==> is_valid_video_id(id@),
{
    match parse_url_parts(video_url) {
        Some(parts) => video_id_from_parts(&parts),
        None => None,
    }
}

} // verus!

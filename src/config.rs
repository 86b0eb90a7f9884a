//! User preferences: their defaults, and the debounced save that persists
//! only the last of a burst of edits.

use crate::types::ContentType;
use vstd::prelude::*;

verus! {

/// The application preferences.
pub struct Config {
    /// The video URL.
    pub video_url: String,
    /// The selected content type.
    pub content_type: ContentType,
    /// The selected output directory.
    pub output_directory: Option<String>,
}

/// The preferences as stored, with every field optional.
pub struct ConfigOpt {
    pub video_url: Option<String>,
    pub content_type: Option<ContentType>,
    pub output_directory: Option<String>,
}

/// The link shown when none was stored.
pub open spec fn default_video_url() -> Seq<char> {
    "https://www.youtube.com/watch?v=dQw4w9WgXcQ"@
}

/// The output directory used when none was stored: the `Downloads` folder of
/// the home directory when it exists, else the home directory itself.
pub open spec fn spec_default_output_directory(
    home: Option<Seq<char>>,
    downloads: Option<Seq<char>>,
) -> Option<Seq<char>> {
    match home {
        None => None,
        Some(h) => match downloads {
            Some(d) => Some(d),
            None => Some(h),
        },
    }
}

/// The view of an optional string.
pub open spec fn opt_chars(o: Option<String>) -> Option<Seq<char>> {
    match o {
        Some(s) => Some(s@),
        None => None,
    }
}

/// Picks the default output directory from the home directory, if known, and
/// its `Downloads` folder, passed only when that folder exists.
pub fn default_output_directory(home: Option<String>, downloads: Option<String>) -> (r: Option<
    String,
>)
    ensures
        opt_chars(r) == spec_default_output_directory(opt_chars(home), opt_chars(downloads)),
{
    match home {
        None => None,
        Some(h) => match downloads {
            Some(d) => Some(d),
            None => Some(h),
        },
    }
}

impl Config {
    /// The preferences from what was stored, each missing field taking its
    /// default: the sample link, `Video`, and `default_directory`.
    pub fn from_opt(opt: ConfigOpt, default_directory: Option<String>) -> (r: Config)
        ensures
            r.video_url@ == match opt.video_url {
                Some(u) => u@,
                None => default_video_url(),
            },
            r.content_type == match opt.content_type {
                Some(c) => c,
                None => ContentType::Video,
            },
            opt_chars(r.output_directory) == match opt.output_directory {
                Some(d) => Some(d@),
                None => opt_chars(default_directory),
            },
    {
        let video_url = match opt.video_url {
            Some(u) => u,
            None => String::from_str("https://www.youtube.com/watch?v=dQw4w9WgXcQ"),
        };
        let content_type = match opt.content_type {
            Some(c) => c,
            None => ContentType::Video,
        };
        let output_directory = match opt.output_directory {
            Some(d) => Some(d),
            None => default_directory,
        };
        Config { video_url, content_type, output_directory }
    }

    /// The preferences as they are stored: every field present but the
    /// output directory, which is stored only when known.
    pub fn to_opt(self) -> (r: ConfigOpt)
        ensures
            r.video_url == Some(self.video_url),
            r.content_type == Some(self.content_type),
            r.output_directory == self.output_directory,
    {
        ConfigOpt {
            video_url: Some(self.video_url),
            content_type: Some(self.content_type),
            output_directory: self.output_directory,
        }
    }
}

/// The message shown under the link field: none for a valid link.
pub fn video_url_error(video_url: &str) -> (r: Option<String>)
    ensures
        video_url@.len() == 0 ==> (r matches Some(m) && m@ == "No URL provided"@),
        video_url@.len() != 0 ==> match crate::parse_url::video_link_id(video_url@) {
            Some(_) => r is None,
            None => r matches Some(m) && m@ == "Invalid YouTube URL"@,
        },
{
    if video_url.unicode_len() == 0 {
        Some(String::from_str("No URL provided"))
    } else {
        match crate::parse_url::parse_video_url(video_url) {
            Some(_) => None,
            None => Some(String::from_str("Invalid YouTube URL")),
        }
    }
}

/// Debounces preference saves: each edit schedules a save under a new token
/// and supersedes the ones before; a scheduled save that fires carries the
/// preferences only if no later edit came, and only once.
pub struct SaveDebouncer {
    /// The token of the latest scheduled save.
    pub generation: u64,
    /// The preferences waiting to be saved.
    pub pending: Option<Config>,
}

/// The debouncer after an edit with `c`.
pub open spec fn edited(d: SaveDebouncer, c: Config) -> SaveDebouncer {
    SaveDebouncer { generation: (d.generation + 1) as u64, pending: Some(c) }
}

/// The debouncer after the save scheduled under `token` fires, and what is
/// saved then.
pub open spec fn fired(d: SaveDebouncer, token: u64) -> (SaveDebouncer, Option<Config>) {
    if token == d.generation && d.pending is Some {
        (SaveDebouncer { generation: d.generation, pending: None }, d.pending)
    } else {
        (d, None)
    }
}

/// The debouncer after the edits `cs`, in order.
pub open spec fn after_edits(d: SaveDebouncer, cs: Seq<Config>) -> SaveDebouncer
    decreases cs.len(),
{
    if cs.len() == 0 {
        d
    } else {
        after_edits(edited(d, cs[0]), cs.drop_first())
    }
}

/// What is saved when the saves scheduled under `tokens` fire, in order.
pub open spec fn saves(d: SaveDebouncer, tokens: Seq<u64>) -> Seq<Option<Config>>
    decreases tokens.len(),
{
    if tokens.len() == 0 {
        seq![]
    } else {
        seq![fired(d, tokens[0]).1] + saves(fired(d, tokens[0]).0, tokens.drop_first())
    }
}

/// The tokens handed out by `n` edits made after `generation`.
pub open spec fn tokens_after(generation: u64, n: nat) -> Seq<u64> {
    Seq::new(n, |i: int| (generation + i + 1) as u64)
}

proof fn lemma_after_edits(d: SaveDebouncer, cs: Seq<Config>)
    requires
        cs.len() >= 1,
        d.generation + cs.len() <= u64::MAX,
    ensures
        after_edits(d, cs).generation == d.generation + cs.len(),
        after_edits(d, cs).pending == Some(cs.last()),
    decreases cs.len(),
{
    let rest = cs.drop_first();
    if cs.len() > 1 {
        lemma_after_edits(edited(d, cs[0]), rest);
        assert(rest.last() == cs.last());
    } else {
        assert(rest.len() == 0);
        assert(after_edits(edited(d, cs[0]), rest) == edited(d, cs[0]));
    }
}

proof fn lemma_stale_saves(d: SaveDebouncer, tokens: Seq<u64>)
    requires
        forall|i: int| 0 <= i < tokens.len() ==> tokens[i] != d.generation,
    ensures
        saves(d, tokens) =~= Seq::new(tokens.len(), |i: int| None::<Config>),
    decreases tokens.len(),
{
    if tokens.len() > 0 {
        lemma_stale_saves(d, tokens.drop_first());
    }
}

/// After a burst of `n` edits, firing the `n` scheduled saves in order saves
/// exactly once, with the last edit's preferences.
pub proof fn lemma_debounce_saves_last(d: SaveDebouncer, cs: Seq<Config>)
    requires
        cs.len() >= 1,
        d.generation + cs.len() <= u64::MAX,
    ensures
        ({
            let n = cs.len();
            let out = saves(after_edits(d, cs), tokens_after(d.generation, n));
            &&& out.len() == n
            &&& forall|i: int| 0 <= i < n - 1 ==> out[i] is None
            &&& out[n - 1] == Some(cs.last())
        }),
{
    let n = cs.len();
    lemma_after_edits(d, cs);
    let e = after_edits(d, cs);
    let ts = tokens_after(d.generation, n);
    // The first n - 1 tokens are stale; the last one is current.
    let stale = ts.subrange(0, n - 1);
    assert(ts =~= stale + seq![ts[n - 1]]);
    assert forall|i: int| 0 <= i < stale.len() implies stale[i] != e.generation by {}
    lemma_stale_saves(e, stale);
    lemma_saves_append(e, stale, ts[n - 1]);
}

proof fn lemma_saves_append(d: SaveDebouncer, tokens: Seq<u64>, last: u64)
    requires
        forall|i: int| 0 <= i < tokens.len() ==> tokens[i] != d.generation,
    ensures
        saves(d, tokens + seq![last]) =~= saves(d, tokens) + seq![fired(d, last).1],
    decreases tokens.len(),
{
    if tokens.len() == 0 {
        let one = seq![last];
        assert(tokens + one =~= one);
        assert(one.drop_first() =~= Seq::<u64>::empty());
        assert(saves(fired(d, last).0, one.drop_first()) =~= Seq::<Option<Config>>::empty());
        assert(saves(d, one) =~= seq![fired(d, last).1]);
    } else {
        assert((tokens + seq![last]).drop_first() =~= tokens.drop_first() + seq![last]);
        lemma_saves_append(d, tokens.drop_first(), last);
    }
}

impl SaveDebouncer {
    /// A debouncer with nothing scheduled.
    pub fn new() -> (r: SaveDebouncer)
        ensures
            r.generation == 0,
            r.pending is None,
    {
        SaveDebouncer { generation: 0, pending: None }
    }

    /// Records an edit: the returned token names the save to schedule, and
    /// every save scheduled before it is superseded.
    pub fn edit(&mut self, config: Config) -> (token: u64)
        requires
            old(self).generation < u64::MAX,
        ensures
            *final(self) == edited(*old(self), config),
            token == final(self).generation,
    {
        self.generation = self.generation + 1;
        self.pending = Some(config);
        self.generation
    }

    /// The save scheduled under `token` fires: the preferences to save, if
    /// no later edit superseded it and it has not been saved yet.
    pub fn fire(&mut self, token: u64) -> (r: Option<Config>)
        ensures
            (*final(self), r) == fired(*old(self), token),
    {
        if token == self.generation {
            match self.pending.take() {
                Some(c) => Some(c),
                None => None,
            }
        } else {
            None
        }
    }
}

} // verus!

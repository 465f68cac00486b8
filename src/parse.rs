use vstd::prelude::*;
use vstd::string::StrSliceExecFns;
use vstd::string::StringExecFns;

use crate::error::DownOnSpotError;

verus! {

/// What a reference points at in the catalog.
#[derive(Clone, Copy, Debug, PartialEq, Eq, Structural)]
pub enum EntityKind {
    Track,
    Album,
    Playlist,
    Show,
    Episode,
}

/// A web address taken apart: its domain and its path segments, where it has them.
pub struct WebUrl {
    pub domain: Option<String>,
    pub segments: Option<Vec<String>>,
}

pub open spec fn opt_str_view(o: Option<String>) -> Option<Seq<char>> {
    match o {
        Some(s) => Some(s@),
        None => None,
    }
}

pub open spec fn segments_view(o: Option<Vec<String>>) -> Option<Seq<Seq<char>>> {
    match o {
        Some(v) => Some(v@.map_values(|s: String| s@)),
        None => None,
    }
}

impl View for WebUrl {
    type V = (Option<Seq<char>>, Option<Seq<Seq<char>>>);

    open spec fn view(&self) -> Self::V {
        (opt_str_view(self.domain), segments_view(self.segments))
    }
}

/// What parsing `s` as a URL gives, taken apart as a `WebUrl`; `None` where it
/// is no URL.
pub uninterp spec fn parsed_url(s: Seq<char>) -> Option<(Option<Seq<char>>, Option<Seq<Seq<char>>>)>;

/// The lower-case form of `s`.
pub uninterp spec fn lower_of(s: Seq<char>) -> Seq<char>;

/// Relies on `url::Url::parse`, `Url::domain` and `Url::path_segments`: the
/// outcome depends on the text alone.
#[verifier::external_body]
fn parse_web_url(input: &str) -> (r: Option<WebUrl>)
    ensures
        match r {
            Some(w) => parsed_url(input@) == Some(w@),
            None => parsed_url(input@).is_none(),
        },
{
    let url = url::Url::parse(input).ok()?;
    Some(WebUrl {
        domain: url.domain().map(|d| d.to_string()),
        segments: url.path_segments().map(|s| s.map(|p| p.to_string()).collect()),
    })
}

/// Relies on `str::to_lowercase`: the result depends on the characters alone.
#[verifier::external_body]
fn lowercase(s: &str) -> (r: String)
    ensures
        r@ == lower_of(s@),
{
    s.to_lowercase()
}

/// The domain suffix of the catalog's web links.
pub open spec fn catalog_domain() -> Seq<char> {
    "spotify.com"@
}

/// The scheme that starts a canonical reference, colon included.
pub open spec fn uri_scheme() -> Seq<char> {
    "spotify:"@
}

pub open spec fn has_suffix(s: Seq<char>, suffix: Seq<char>) -> bool {
    suffix.len() <= s.len() && s.subrange(s.len() - suffix.len(), s.len() as int) == suffix
}

pub open spec fn has_prefix(s: Seq<char>, prefix: Seq<char>) -> bool {
    prefix.len() <= s.len() && s.subrange(0, prefix.len() as int) == prefix
}

/// The index of the first `':'` in `s` at or after `from`, or the length of `s`.
pub open spec fn next_colon(s: Seq<char>, from: int) -> int
    decreases s.len() - from,
{
    if from >= s.len() {
        s.len() as int
    } else if s[from] == ':' {
        from
    } else {
        next_colon(s, from + 1)
    }
}

pub open spec fn spec_entity_kind(k: Seq<char>) -> Option<EntityKind> {
    if k == "track"@ {
        Some(EntityKind::Track)
    } else if k == "album"@ {
        Some(EntityKind::Album)
    } else if k == "playlist"@ {
        Some(EntityKind::Playlist)
    } else if k == "show"@ {
        Some(EntityKind::Show)
    } else if k == "episode"@ {
        Some(EntityKind::Episode)
    } else {
        None
    }
}

/// The kind and raw id that a canonical reference `spotify:<kind>:<id>[:...]`
/// names: the first two colon-separated tokens after the scheme.
pub open spec fn spec_uri_reference(s: Seq<char>) -> Option<(Seq<char>, Seq<char>)> {
    if !has_prefix(s, uri_scheme()) {
        None
    } else {
        let rest = s.subrange(uri_scheme().len() as int, s.len() as int);
        let p = next_colon(rest, 0);
        if p >= rest.len() {
            None
        } else {
            Some((rest.subrange(0, p), rest.subrange(p + 1, next_colon(rest, p + 1))))
        }
    }
}

/// The kind and raw id that a web link names, given its lower-cased domain and
/// its path segments: the first segment and the last one, on the catalog's domain.
pub open spec fn spec_web_reference(lowered_domain: Seq<char>, segments: Option<Seq<Seq<char>>>) -> Option<
    (Seq<char>, Seq<char>),
> {
    match segments {
        Some(segs) => if has_suffix(lowered_domain, catalog_domain()) && segs.len() >= 2 {
            Some((segs[0], segs.last()))
        } else {
            None
        },
        None => None,
    }
}

/// A kind and an id, where the kind is one that the catalog serves.
pub open spec fn spec_typed(r: Option<(Seq<char>, Seq<char>)>) -> Option<(EntityKind, Seq<char>)> {
    match r {
        Some((k, id)) => match spec_entity_kind(k) {
            Some(kind) => Some((kind, id)),
            None => None,
        },
        None => None,
    }
}

/// The kind and raw id that `input` names as a web link to the catalog.
pub open spec fn spec_link_reference(input: Seq<char>) -> Option<(Seq<char>, Seq<char>)> {
    match parsed_url(input) {
        Some((Some(domain), segments)) => spec_web_reference(lower_of(domain), segments),
        _ => None,
    }
}

/// What `input` resolves to as a web link, if it is a link to the catalog.
pub open spec fn spec_resolve_web_input(input: Seq<char>) -> Option<(EntityKind, Seq<char>)> {
    spec_typed(spec_link_reference(input))
}

/// The result of resolving a canonical reference, over the views.
pub open spec fn uri_outcome(input: Seq<char>, r: Result<(EntityKind, String), DownOnSpotError>) -> bool {
    match spec_uri_reference(input) {
        None => match r {
            Err(DownOnSpotError::Invalid(m)) => m@ == invalid_reference_message(),
            _ => false,
        },
        Some((k, id)) => match spec_entity_kind(k) {
            None => r matches Err(DownOnSpotError::InvalidOrUnsupportedId),
            Some(kind) => match r {
                Ok((rk, rid)) => rk == kind && rid@ == id,
                _ => false,
            },
        },
    }
}

pub open spec fn invalid_reference_message() -> Seq<char> {
    "Invalid Spotify URL or ID"@
}

/// Whether `s` and `t` hold the same characters.
fn same_text(s: &str, t: &str) -> (r: bool)
    ensures
        r == (s@ == t@),
{
    let n = s.unicode_len();
    if n != t.unicode_len() {
        return false;
    }
    let mut i: usize = 0;
    while i < n
        invariant
            n == s@.len(),
            n == t@.len(),
            i <= n,
            s@.subrange(0, i as int) == t@.subrange(0, i as int),
        decreases n - i,
    {
        if s.get_char(i) != t.get_char(i) {
            assert(s@[i as int] != t@[i as int]);
            return false;
        }
        assert(s@.subrange(0, i + 1) == s@.subrange(0, i as int).push(s@[i as int]));
        assert(t@.subrange(0, i + 1) == t@.subrange(0, i as int).push(t@[i as int]));
        i = i + 1;
    }
    assert(s@ == s@.subrange(0, n as int));
    assert(t@ == t@.subrange(0, n as int));
    true
}

/// The catalog kind that `kind` names, if any.
pub fn entity_kind(kind: &str) -> (r: Option<EntityKind>)
    ensures
        r == spec_entity_kind(kind@),
{
    if same_text(kind, "track") {
        Some(EntityKind::Track)
    } else if same_text(kind, "album") {
        Some(EntityKind::Album)
    } else if same_text(kind, "playlist") {
        Some(EntityKind::Playlist)
    } else if same_text(kind, "show") {
        Some(EntityKind::Show)
    } else if same_text(kind, "episode") {
        Some(EntityKind::Episode)
    } else {
        None
    }
}

pub open spec fn pair_view(r: Option<(String, String)>) -> Option<(Seq<char>, Seq<char>)> {
    match r {
        Some((k, id)) => Some((k@, id@)),
        None => None,
    }
}

/// Whether `s` ends with `suffix`.
fn ends_with_text(s: &str, suffix: &str) -> (r: bool)
    ensures
        r == has_suffix(s@, suffix@),
{
    let n = s.unicode_len();
    let m = suffix.unicode_len();
    if m > n {
        return false;
    }
    let start: usize = n - m;
    let mut j: usize = 0;
    while j < m
        invariant
            n == s@.len(),
            m == suffix@.len(),
            m <= n,
            start == n - m,
            j <= m,
            s@.subrange(start as int, start + j) == suffix@.subrange(0, j as int),
        decreases m - j,
    {
        if s.get_char(start + j) != suffix.get_char(j) {
            assert(s@.subrange(start as int, n as int)[j as int] != suffix@[j as int]);
            return false;
        }
        assert(s@.subrange(start as int, start + j + 1) == s@.subrange(start as int, start + j).push(
            s@[start + j],
        ));
        assert(suffix@.subrange(0, j + 1) == suffix@.subrange(0, j as int).push(suffix@[j as int]));
        j = j + 1;
    }
    assert(suffix@ == suffix@.subrange(0, m as int));
    true
}

/// Whether `s` starts with `prefix`.
fn starts_with_text(s: &str, prefix: &str) -> (r: bool)
    ensures
        r == has_prefix(s@, prefix@),
{
    let n = s.unicode_len();
    let m = prefix.unicode_len();
    if m > n {
        return false;
    }
    let mut j: usize = 0;
    while j < m
        invariant
            n == s@.len(),
            m == prefix@.len(),
            m <= n,
            j <= m,
            s@.subrange(0, j as int) == prefix@.subrange(0, j as int),
        decreases m - j,
    {
        if s.get_char(j) != prefix.get_char(j) {
            assert(s@.subrange(0, m as int)[j as int] != prefix@[j as int]);
            return false;
        }
        assert(s@.subrange(0, j + 1) == s@.subrange(0, j as int).push(s@[j as int]));
        assert(prefix@.subrange(0, j + 1) == prefix@.subrange(0, j as int).push(prefix@[j as int]));
        j = j + 1;
    }
    assert(prefix@ == prefix@.subrange(0, m as int));
    true
}

/// The index of the first `':'` in `s` at or after `from`, or the length of `s`.
fn find_colon(s: &str, from: usize) -> (r: usize)
    requires
        from <= s@.len(),
    ensures
        r == next_colon(s@, from as int),
        from <= r <= s@.len(),
{
    let n = s.unicode_len();
    let mut i = from;
    while i < n
        invariant
            n == s@.len(),
            from <= i <= n,
            next_colon(s@, i as int) == next_colon(s@, from as int),
        decreases n - i,
    {
        if s.get_char(i) == ':' {
            return i;
        }
        i = i + 1;
    }
    i
}

/// The kind and raw id that a canonical reference `spotify:<kind>:<id>` names.
pub fn uri_reference(input: &str) -> (r: Option<(String, String)>)
    ensures
        pair_view(r) == spec_uri_reference(input@),
{
    let scheme = "spotify:";
    if !starts_with_text(input, scheme) {
        return None;
    }
    let n = input.unicode_len();
    let rest = input.substring_char(scheme.unicode_len(), n);
    let m = rest.unicode_len();
    let p = find_colon(rest, 0);
    if p >= m {
        return None;
    }
    let q = find_colon(rest, p + 1);
    let kind = String::from_str(rest.substring_char(0, p));
    let id = String::from_str(rest.substring_char(p + 1, q));
    Some((kind, id))
}

/// The kind and raw id that a web link names, given its lower-cased domain and
/// its path segments.
pub fn web_reference(lowered_domain: &str, segments: &Option<Vec<String>>) -> (r: Option<(String, String)>)
    ensures
        pair_view(r) == spec_web_reference(lowered_domain@, segments_view(*segments)),
{
    match segments {
        None => None,
        Some(segs) => {
            if ends_with_text(lowered_domain, "spotify.com") && segs.len() >= 2 {
                let last = segs.len() - 1;
                Some((segs[0].clone(), segs[last].clone()))
            } else {
                None
            }
        },
    }
}

/// Resolves a canonical reference `spotify:<kind>:<id>`.
pub fn from_uri(input: &str) -> (r: Result<(EntityKind, String), DownOnSpotError>)
    ensures
        uri_outcome(input@, r),
{
    match uri_reference(input) {
        None => Err(DownOnSpotError::Invalid(String::from_str("Invalid Spotify URL or ID"))),
        Some((kind, id)) => match entity_kind(kind.as_str()) {
            None => Err(DownOnSpotError::InvalidOrUnsupportedId),
            Some(k) => Ok((k, id)),
        },
    }
}

/// The kind and raw id that `input` names as a web link to the catalog: the
/// first and the last path segment of a link whose domain ends with the
/// catalog's.
pub fn link_reference(input: &str) -> (r: Option<(String, String)>)
    ensures
        pair_view(r) == spec_link_reference(input@),
{
    let url = parse_web_url(input)?;
    match &url.domain {
        Some(domain) => {
            let lowered = lowercase(domain.as_str());
            web_reference(lowered.as_str(), &url.segments)
        },
        None => None,
    }
}

/// Resolves free-form input into the kind and raw id of a catalog entity.
///
/// The input is read as a web link to the catalog first; where that fails, as
/// a canonical reference `spotify:<kind>:<id>`.
pub fn resolve(input: &str) -> (r: Result<(EntityKind, String), DownOnSpotError>)
    ensures
        match spec_resolve_web_input(input@) {
            Some((kind, id)) => match r {
                Ok((rk, rid)) => rk == kind && rid@ == id,
                _ => false,
            },
            None => uri_outcome(input@, r),
        },
{
    if let Some((kind, id)) = link_reference(input) {
        if let Some(k) = entity_kind(kind.as_str()) {
            return Ok((k, id));
        }
    }
    from_uri(input)
}

/// The canonical reference `spotify:<kind>:<id>`.
pub open spec fn canonical_uri(kind: Seq<char>, id: Seq<char>) -> Seq<char> {
    uri_scheme() + kind + seq![':'] + id
}

proof fn lemma_next_colon_skips(s: Seq<char>, from: int, to: int)
    requires
        0 <= from <= to <= s.len(),
        forall|i: int| from <= i < to ==> s[i] != ':',
    ensures
        next_colon(s, from) == next_colon(s, to),
    decreases to - from,
{
    if from < to {
        lemma_next_colon_skips(s, from + 1, to);
    }
}

proof fn lemma_kind_has_no_colon(k: Seq<char>)
    requires
        spec_entity_kind(k).is_some(),
    ensures
        forall|i: int| 0 <= i < k.len() ==> k[i] != ':',
{
    reveal_strlit("track");
    reveal_strlit("album");
    reveal_strlit("playlist");
    reveal_strlit("show");
    reveal_strlit("episode");
}

/// A web link to the catalog resolves to the same kind and id as the canonical
/// reference built from its first and last path segments, wherever that
/// reference exists (the last segment holds no colon).
pub proof fn lemma_web_link_matches_uri(input: Seq<char>)
    requires
        spec_resolve_web_input(input).is_some(),
    ensures
        match parsed_url(input) {
            Some((_, Some(segs))) => (forall|i: int| 0 <= i < segs.last().len() ==> segs.last()[i] != ':')
                ==> spec_typed(spec_uri_reference(canonical_uri(segs[0], segs.last())))
                == spec_resolve_web_input(input),
            _ => false,
        },
{
    let (domain, segments) = parsed_url(input).unwrap();
    let segs = segments.unwrap();
    let kind = segs[0];
    let id = segs.last();
    if forall|i: int| 0 <= i < id.len() ==> id[i] != ':' {
        let uri = canonical_uri(kind, id);
        let rest = uri.subrange(uri_scheme().len() as int, uri.len() as int);
        lemma_kind_has_no_colon(kind);
        assert(rest =~= kind + seq![':'] + id);
        assert(uri.subrange(0, uri_scheme().len() as int) =~= uri_scheme());
        lemma_next_colon_skips(rest, 0, kind.len() as int);
        assert(rest[kind.len() as int] == ':');
        assert(next_colon(rest, 0) == kind.len());
        assert forall|i: int| kind.len() + 1 <= i < rest.len() implies rest[i] != ':' by {
            assert(rest[i] == id[i - kind.len() - 1]);
        }
        lemma_next_colon_skips(rest, kind.len() + 1int, rest.len() as int);
        assert(rest.subrange(0, kind.len() as int) =~= kind);
        assert(rest.subrange(kind.len() + 1int, rest.len() as int) =~= id);
    }
}

} // verus!

use itertools::Itertools;
use m3u8_rs::{MediaPlaylistType, Playlist};
use vstd::prelude::*;

verus! {

/// One rendition of the media in a multi-variant manifest.
#[derive(Debug)]
pub struct Variant {
    pub uri: String,
    /// Bits per second.
    pub bandwidth: u64,
}

/// The live or on-demand marker of a media manifest.
#[derive(Clone, Copy, Debug, PartialEq, Eq, Structural)]
pub enum PlaylistKind {
    /// Segments are only ever appended.
    Event,
    /// The segment list is complete.
    Vod,
    /// Any other marker.
    Other,
}

/// A single-variant manifest: its segment URIs in playing order.
#[derive(Debug)]
pub struct MediaManifest {
    pub segments: Vec<String>,
    pub kind: Option<PlaylistKind>,
}

/// An adaptive-streaming manifest, as far as the segment reader reads it.
#[derive(Debug)]
pub enum Manifest {
    /// A multi-variant manifest and its variants, in manifest order.
    Master(Vec<Variant>),
    Media(MediaManifest),
}

/// Why a manifest could not be used.
#[derive(Clone, Copy, Debug, PartialEq, Eq, Structural)]
pub enum HlsError {
    /// The manifest text does not parse.
    Malformed,
    /// A multi-variant manifest came where a single-variant one was expected.
    UnexpectedMaster,
    /// A URI could not be resolved against the manifest's URL.
    BadUrl,
}

/// What the m3u8 parser makes of a manifest's bytes.
pub uninterp spec fn m3u8_parse(bytes: Seq<u8>) -> Option<Manifest>;

/// Relies on `m3u8_rs::parse_playlist`: parses manifest text into a
/// multi-variant or a single-variant manifest, or fails.
#[verifier::external_body]
fn parse_manifest(bytes: &[u8]) -> (r: Option<Manifest>)
    ensures
        r == m3u8_parse(bytes@),
{
    match m3u8_rs::parse_playlist(bytes) {
        Ok((_, Playlist::MasterPlaylist(p))) => Some(Manifest::Master(
            p.variants.into_iter().map(|v| Variant { uri: v.uri, bandwidth: v.bandwidth }).collect(),
        )),
        Ok((_, Playlist::MediaPlaylist(p))) => Some(Manifest::Media(MediaManifest {
            segments: p.segments.into_iter().map(|s| s.uri).collect(),
            kind: p.playlist_type.map(|t| match t {
                MediaPlaylistType::Event => PlaylistKind::Event,
                MediaPlaylistType::Vod => PlaylistKind::Vod,
                MediaPlaylistType::Other(_) => PlaylistKind::Other,
            }),
        })),
        Err(_) => None,
    }
}

/// What the URL library makes of `reference` resolved against `base`.
pub uninterp spec fn url_join(base: Seq<char>, reference: Seq<char>) -> Option<Seq<char>>;

/// Relies on `url::Url::parse` and `url::Url::join`: parses `base` as a
/// URL and resolves `reference` against it; `None` when either fails.
#[verifier::external_body]
fn join_url(base: &str, reference: &str) -> (r: Option<String>)
    ensures
        match r {
            Some(s) => url_join(base@, reference@) == Some(s@),
            None => url_join(base@, reference@) is None,
        },
{
    match url::Url::parse(base) {
        Ok(b) => b.join(reference).ok().map(|u| u.to_string()),
        Err(_) => None,
    }
}

/// `order` lists every position of `bw` once, by descending value, equal
/// values in their original order.
pub open spec fn is_descending_order(bw: Seq<u64>, order: Seq<usize>) -> bool {
    &&& order.len() == bw.len()
    &&& forall|k: int| 0 <= k < order.len() ==> order[k] < bw.len()
    &&& forall|j: usize| j < bw.len() ==> #[trigger] order.contains(j)
    &&& forall|k: int, l: int|
        0 <= k < l < order.len() ==> bw[order[k] as int] > bw[order[l] as int] || (bw[order[k] as int]
            == bw[order[l] as int] && order[k] < order[l])
}

/// Relies on itertools' `sorted_by_key`, a stable sort: orders the
/// positions of `bw` by descending value.
#[verifier::external_body]
fn descending_order(bw: &Vec<u64>) -> (r: Vec<usize>)
    ensures
        is_descending_order(bw@, r@),
{
    bw.iter().enumerate().sorted_by_key(|p| std::cmp::Reverse(*p.1)).map(|p| p.0).collect()
}

pub open spec fn is_scheme_char(c: char) -> bool {
    ('a' <= c <= 'z') || ('A' <= c <= 'Z') || ('0' <= c <= '9') || c == '+' || c == '-' || c == '.'
}

/// `s` starts with a URL scheme: a letter, then letters, digits, `+`, `-`
/// or `.`, then `:`.
pub open spec fn has_scheme(s: Seq<char>) -> bool {
    exists|k: int|
        0 < k < s.len() && s[k] == ':' && (('a' <= s[0] <= 'z') || ('A' <= s[0] <= 'Z')) && forall|j: int|
            1 <= j < k ==> #[trigger] is_scheme_char(s[j])
}

/// Whether `s` starts with a URL scheme, which makes it absolute.
pub fn is_absolute_uri(s: &str) -> (r: bool)
    ensures
        r == has_scheme(s@),
{
    let n = s.unicode_len();
    if n == 0 {
        return false;
    }
    let c0 = s.get_char(0);
    if !(('a' <= c0 && c0 <= 'z') || ('A' <= c0 && c0 <= 'Z')) {
        return false;
    }
    let mut i: usize = 1;
    while i < n
        invariant
            1 <= i <= n,
            n == s@.len(),
            ('a' <= s@[0] <= 'z') || ('A' <= s@[0] <= 'Z'),
            forall|j: int| 1 <= j < i ==> #[trigger] is_scheme_char(s@[j]),
            forall|j: int| 1 <= j < i ==> s@[j] != ':',
        decreases n - i,
    {
        let c = s.get_char(i);
        if c == ':' {
            return true;
        }
        if !(('a' <= c && c <= 'z') || ('A' <= c && c <= 'Z') || ('0' <= c && c <= '9') || c == '+'
            || c == '-' || c == '.') {
            assert forall|k: int|
                0 < k < s@.len() && s@[k] == ':' implies !(forall|j: int|
                1 <= j < k ==> #[trigger] is_scheme_char(s@[j])) by {
                assert(k > i);
                assert(!is_scheme_char(s@[i as int]));
            }
            return false;
        }
        i = i + 1;
    }
    false
}

pub open spec fn has_prefix(s: Seq<char>, p: Seq<char>) -> bool {
    p.len() <= s.len() && s.subrange(0, p.len() as int) == p
}

pub open spec fn has_suffix(s: Seq<char>, p: Seq<char>) -> bool {
    p.len() <= s.len() && s.subrange(s.len() - p.len(), s.len() as int) == p
}

/// The input names a remote adaptive-streaming manifest, to be read
/// through the segment reader: an `http://` or `https://` URL ending in
/// `.m3u8`.
pub open spec fn is_manifest_input(s: Seq<char>) -> bool {
    (has_prefix(s, seq!['h', 't', 't', 'p', ':', '/', '/']) || has_prefix(
        s,
        seq!['h', 't', 't', 'p', 's', ':', '/', '/'],
    )) && has_suffix(s, seq!['.', 'm', '3', 'u', '8'])
}

fn chars_at(s: &str, n: usize, at: usize, word: &Vec<char>) -> (r: bool)
    requires
        n == s@.len(),
    ensures
        r == (at + word@.len() <= n && s@.subrange(at as int, at + word@.len()) == word@),
{
    if word.len() > n || at > n - word.len() {
        return false;
    }
    let mut i: usize = 0;
    while i < word.len()
        invariant
            i <= word@.len(),
            at + word@.len() <= n,
            n == s@.len(),
            forall|j: int| 0 <= j < i ==> s@[at + j] == word@[j],
        decreases word@.len() - i,
    {
        if s.get_char(at + i) != word[i] {
            assert(s@.subrange(at as int, at + word@.len())[i as int] != word@[i as int]);
            return false;
        }
        i = i + 1;
    }
    assert(s@.subrange(at as int, at + word@.len()) =~= word@);
    true
}

/// Whether the input is read through the segment reader rather than
/// opened directly by the decoding backend.
pub fn is_manifest_url(input: &str) -> (r: bool)
    ensures
        r == is_manifest_input(input@),
{
    let n = input.unicode_len();
    let http = vec!['h', 't', 't', 'p', ':', '/', '/'];
    let https = vec!['h', 't', 't', 'p', 's', ':', '/', '/'];
    let ext = vec!['.', 'm', '3', 'u', '8'];
    assert(http@ == seq!['h', 't', 't', 'p', ':', '/', '/']);
    assert(https@ == seq!['h', 't', 't', 'p', 's', ':', '/', '/']);
    assert(ext@ == seq!['.', 'm', '3', 'u', '8']);
    let scheme = chars_at(input, n, 0, &http) || chars_at(input, n, 0, &https);
    let tail = n >= 5 && chars_at(input, n, n - 5, &ext);
    scheme && tail
}

/// A URI of a manifest resolved against the manifest's own URL: absolute
/// URIs pass through unchanged, relative ones are joined to the base.
pub open spec fn resolved_uri(base: Seq<char>, uri: Seq<char>) -> Option<Seq<char>> {
    if has_scheme(uri) {
        Some(uri)
    } else {
        url_join(base, uri)
    }
}

/// Resolves a variant or segment URI against the URL of the manifest that
/// lists it.
pub fn resolve_uri(base: &str, uri: &str) -> (r: Result<String, HlsError>)
    ensures
        match resolved_uri(base@, uri@) {
            Some(t) => r matches Ok(s) && s@ == t,
            None => r == Err::<String, HlsError>(HlsError::BadUrl),
        },
{
    if is_absolute_uri(uri) {
        Ok(uri.to_owned())
    } else {
        match join_url(base, uri) {
            Some(s) => Ok(s),
            None => Err(HlsError::BadUrl),
        }
    }
}


impl Variant {
    /// A copy of this variant.
    pub fn duplicate(&self) -> (r: Variant)
        ensures
            r.uri@ == self.uri@,
            r.bandwidth == self.bandwidth,
    {
        Variant { uri: self.uri.clone(), bandwidth: self.bandwidth }
    }
}

pub open spec fn variant_bandwidths(vs: Seq<Variant>) -> Seq<u64> {
    vs.map_values(|v: Variant| v.bandwidth)
}

/// Every variant URI of `vs` resolves against `base`.
pub open spec fn all_resolve(base: Seq<char>, vs: Seq<Variant>) -> bool {
    forall|j: int| 0 <= j < vs.len() ==> #[trigger] resolved_uri(base, vs[j].uri@) is Some
}

/// `out` is `vs` in the order `order`, with URIs resolved against `base`.
pub open spec fn is_reordered(base: Seq<char>, vs: Seq<Variant>, order: Seq<usize>, out: Seq<Variant>) -> bool {
    &&& out.len() == order.len()
    &&& forall|k: int|
        0 <= k < out.len() ==> {
            &&& #[trigger] out[k].bandwidth == vs[order[k] as int].bandwidth
            &&& resolved_uri(base, vs[order[k] as int].uri@) == Some(out[k].uri@)
        }
}

/// `out` is `vs` with URIs resolved against `base`, by descending
/// bandwidth, equal bandwidths in manifest order.
pub open spec fn is_variant_list(base: Seq<char>, vs: Seq<Variant>, out: Seq<Variant>) -> bool {
    exists|order: Seq<usize>|
        is_descending_order(variant_bandwidths(vs), order) && is_reordered(base, vs, order, out)
}

/// `o` is the variant `v` with its URI resolved against `base`.
pub open spec fn resolves_to(base: Seq<char>, v: Variant, o: Variant) -> bool {
    o.bandwidth == v.bandwidth && resolved_uri(base, v.uri@) == Some(o.uri@)
}

/// Some variant of `vs` resolves to `o`.
pub open spec fn has_source(base: Seq<char>, vs: Seq<Variant>, o: Variant) -> bool {
    exists|j: int| 0 <= j < vs.len() && #[trigger] resolves_to(base, vs[j], o)
}

/// `v` resolves to some variant of `out`.
pub open spec fn has_image(base: Seq<char>, v: Variant, out: Seq<Variant>) -> bool {
    exists|k: int| 0 <= k < out.len() && #[trigger] resolves_to(base, v, out[k])
}

/// Every variant of a variant list is a variant of the manifest with its
/// URI resolved against the manifest URL (absolute URIs unchanged, relative
/// ones joined), and every variant of the manifest is in the list.
pub proof fn lemma_variant_list_resolves(base: Seq<char>, vs: Seq<Variant>, out: Seq<Variant>)
    requires
        is_variant_list(base, vs, out),
        vs.len() <= usize::MAX,
    ensures
        out.len() == vs.len(),
        forall|k: int| 0 <= k < out.len() ==> #[trigger] has_source(base, vs, out[k]),
        forall|j: int| 0 <= j < vs.len() ==> #[trigger] has_image(base, vs[j], out),
{
    let order = choose|order: Seq<usize>|
        is_descending_order(variant_bandwidths(vs), order) && is_reordered(base, vs, order, out);
    assert forall|k: int| 0 <= k < out.len() implies #[trigger] has_source(base, vs, out[k]) by {
        let j = order[k] as int;
        assert(out[k].bandwidth == vs[j].bandwidth);
        assert(resolves_to(base, vs[j], out[k]));
    }
    assert forall|j: int| 0 <= j < vs.len() implies #[trigger] has_image(base, vs[j], out) by {
        let ju = j as usize;
        assert(order.contains(ju));
        let k = choose|k: int| 0 <= k < order.len() && order[k] == ju;
        assert(out[k].bandwidth == vs[order[k] as int].bandwidth);
        assert(resolves_to(base, vs[j], out[k]));
    }
}

/// `p` is the position of the variant picked automatically: the highest
/// bandwidth, the first such in the manifest.
pub open spec fn is_best_variant(vs: Seq<Variant>, p: int) -> bool {
    &&& 0 <= p < vs.len()
    &&& forall|j: int| 0 <= j < vs.len() ==> vs[j].bandwidth <= vs[p].bandwidth
    &&& forall|j: int| 0 <= j < p ==> vs[j].bandwidth < vs[p].bandwidth
}

/// `r` is what the automatic choice gives for a stream at `base` with
/// `playlist` loaded: nothing before a manifest is loaded, the manifest
/// itself for a single-variant one, else the variant of highest bandwidth
/// (the first such), or an error if some variant URI does not resolve.
pub open spec fn is_auto_choice(base: Seq<char>, playlist: Option<Manifest>, r: Result<Option<Variant>, HlsError>) -> bool {
    match playlist {
        None => r matches Ok(o) && o is None,
        Some(Manifest::Media(_)) => r matches Ok(Some(v)) && v.uri@ == base
            && v.bandwidth == 0,
        Some(Manifest::Master(vs)) => {
            &&& r is Ok <==> all_resolve(base, vs@)
            &&& r is Err ==> r == Err::<Option<Variant>, HlsError>(HlsError::BadUrl)
            &&& r matches Ok(o) ==> (o is None <==> vs@.len() == 0)
            &&& r matches Ok(Some(v)) ==> exists|p: int|
                is_best_variant(vs@, p) && v.bandwidth == vs@[p].bandwidth && resolved_uri(
                    base,
                    vs@[p].uri@,
                ) == Some(v.uri@)
        },
    }
}

/// A manifest URL and what was loaded from it: the variants on offer and
/// the one chosen by the host, if any.
pub struct HlsStream {
    url: String,
    playlist: Option<Manifest>,
    current_variant: Option<Variant>,
}

impl HlsStream {
    pub closed spec fn url_spec(&self) -> Seq<char> {
        self.url@
    }

    pub closed spec fn playlist_spec(&self) -> Option<Manifest> {
        self.playlist
    }

    pub closed spec fn chosen_spec(&self) -> Option<Variant> {
        self.current_variant
    }

    /// A stream for the manifest at `url`, nothing loaded yet.
    pub fn new(url: &str) -> (r: HlsStream)
        ensures
            r.url_spec() == url@,
            r.playlist_spec() is None,
            r.chosen_spec() is None,
    {
        HlsStream { url: url.to_owned(), playlist: None, current_variant: None }
    }

    /// The manifest URL.
    pub fn url(&self) -> (r: &str)
        ensures
            r@ == self.url_spec(),
    {
        self.url.as_str()
    }

    /// Takes the fetched manifest text; a manifest that does not parse is
    /// an error and leaves what was loaded before.
    pub fn load(&mut self, body: &[u8]) -> (r: Result<(), HlsError>)
        ensures
            final(self).url_spec() == old(self).url_spec(),
            final(self).chosen_spec() == old(self).chosen_spec(),
            match m3u8_parse(body@) {
                Some(m) => r is Ok && final(self).playlist_spec() == Some(m),
                None => r == Err::<(), HlsError>(HlsError::Malformed) && final(self).playlist_spec()
                    == old(self).playlist_spec(),
            },
    {
        match parse_manifest(body) {
            Some(m) => {
                self.playlist = Some(m);
                Ok(())
            },
            None => Err(HlsError::Malformed),
        }
    }

    /// The variants on offer, URIs resolved against the manifest URL, by
    /// descending bandwidth. A single-variant manifest offers itself, at
    /// the manifest URL; before a manifest is loaded there are none.
    pub fn variants(&self) -> (r: Result<Vec<Variant>, HlsError>)
        ensures
            match self.playlist_spec() {
                None => r matches Ok(v) && v@.len() == 0,
                Some(Manifest::Media(_)) => r matches Ok(v) && v@.len() == 1 && v@[0].uri@
                    == self.url_spec() && v@[0].bandwidth == 0,
                Some(Manifest::Master(vs)) => {
                    &&& r is Ok <==> all_resolve(self.url_spec(), vs@)
                    &&& r is Err ==> r == Err::<Vec<Variant>, HlsError>(HlsError::BadUrl)
                    &&& r matches Ok(v) ==> is_variant_list(self.url_spec(), vs@, v@)
                    &&& r matches Ok(v) ==> v@.len() == vs@.len() && (forall|k: int|
                        0 <= k < v@.len() ==> #[trigger] has_source(self.url_spec(), vs@, v@[k]))
                        && (forall|j: int|
                        0 <= j < vs@.len() ==> #[trigger] has_image(self.url_spec(), vs@[j], v@))
                },
            },
    {
        match &self.playlist {
            None => Ok(Vec::new()),
            Some(Manifest::Media(_)) => {
                let mut v: Vec<Variant> = Vec::new();
                v.push(Variant { uri: self.url.clone(), bandwidth: 0 });
                Ok(v)
            },
            Some(Manifest::Master(vs)) => {
                let mut bw: Vec<u64> = Vec::new();
                let mut i: usize = 0;
                while i < vs.len()
                    invariant
                        i <= vs@.len(),
                        bw@ == variant_bandwidths(vs@).take(i as int),
                    decreases vs@.len() - i,
                {
                    bw.push(vs[i].bandwidth);
                    assert(bw@ =~= variant_bandwidths(vs@).take(i + 1));
                    i = i + 1;
                }
                assert(bw@ =~= variant_bandwidths(vs@));
                let order = descending_order(&bw);
                let mut out: Vec<Variant> = Vec::new();
                let mut k: usize = 0;
                while k < order.len()
                    invariant
                        k <= order@.len(),
                        self.playlist_spec() == Some(Manifest::Master(*vs)),
                        is_descending_order(variant_bandwidths(vs@), order@),
                        is_reordered(self.url_spec(), vs@, order@.take(k as int), out@),
                    decreases order@.len() - k,
                {
                    let v = &vs[order[k]];
                    match resolve_uri(self.url.as_str(), v.uri.as_str()) {
                        Ok(uri) => {
                            out.push(Variant { uri, bandwidth: v.bandwidth });
                            assert(order@.take(k + 1) =~= order@.take(k as int).push(order@[k as int]));
                        },
                        Err(e) => {
                            let ghost j = order@[k as int] as int;
                            assert(resolved_uri(self.url_spec(), vs@[j].uri@) is None);
                            return Err(e);
                        },
                    }
                    k = k + 1;
                }
                assert(order@.take(order@.len() as int) =~= order@);
                assert(all_resolve(self.url_spec(), vs@)) by {
                    assert forall|j: int| 0 <= j < vs@.len() implies #[trigger] resolved_uri(
                        self.url_spec(),
                        vs@[j].uri@,
                    ) is Some by {
                        assert(order@.contains(j as usize));
                        let kk = choose|kk: int| 0 <= kk < order@.len() && order@[kk] == j as usize;
                        assert(out@[kk].bandwidth == vs@[order@[kk] as int].bandwidth);
                    }
                }
                proof {
                    assert(vs@.len() == bw@.len());
                    lemma_variant_list_resolves(self.url_spec(), vs@, out@);
                }
                Ok(out)
            },
        }
    }

    /// Chooses the variant to play, overriding the automatic choice.
    pub fn set_variant(&mut self, var: Variant)
        ensures
            final(self).url_spec() == old(self).url_spec(),
            final(self).playlist_spec() == old(self).playlist_spec(),
            final(self).chosen_spec() == Some(var),
    {
        self.current_variant = Some(var);
    }

    /// The variant picked automatically: the first of [`HlsStream::variants`],
    /// which has the highest bandwidth.
    pub fn auto_variant(&self) -> (r: Result<Option<Variant>, HlsError>)
        ensures
            is_auto_choice(self.url_spec(), self.playlist_spec(), r),
    {
        match self.variants() {
            Ok(list) => {
                if list.len() == 0 {
                    Ok(None)
                } else {
                    let v = list[0].duplicate();
                    proof {
                        if let Some(Manifest::Master(vs)) = self.playlist_spec() {
                            let order = choose|order: Seq<usize>|
                                is_descending_order(variant_bandwidths(vs@), order) && is_reordered(
                                    self.url_spec(),
                                    vs@,
                                    order,
                                    list@,
                                );
                            let p = order[0] as int;
                            let bw = variant_bandwidths(vs@);
                            assert(list@[0].bandwidth == vs@[p].bandwidth);
                            assert forall|j: int| 0 <= j < vs@.len() implies vs@[j].bandwidth
                                <= vs@[p].bandwidth && (j < p ==> vs@[j].bandwidth
                                < vs@[p].bandwidth) by {
                                assert(order.contains(j as usize));
                                let kk = choose|kk: int| 0 <= kk < order.len() && order[kk] == j as usize;
                                if kk > 0 {
                                    assert(bw[order[0] as int] > bw[order[kk] as int] || (bw[order[0] as int]
                                        == bw[order[kk] as int] && order[0] < order[kk]));
                                }
                            }
                            assert(is_best_variant(vs@, p));
                        }
                    }
                    Ok(Some(v))
                }
            },
            Err(e) => Err(e),
        }
    }

    /// The variant chosen by the host, or else the one picked automatically.
    pub fn current_variant(&self) -> (r: Result<Option<Variant>, HlsError>)
        ensures
            match self.chosen_spec() {
                Some(c) => r matches Ok(Some(v)) && v.uri@ == c.uri@ && v.bandwidth == c.bandwidth,
                None => is_auto_choice(self.url_spec(), self.playlist_spec(), r),
            },
    {
        match &self.current_variant {
            Some(v) => Ok(Some(v.duplicate())),
            None => self.auto_variant(),
        }
    }
}


/// A segment whose URI is among those fetched is never the one picked
/// next, whatever the segment list of the manifest and its order; and a
/// URI marked fetched stays marked when more are.
pub proof fn lemma_fetched_segment_never_picked(
    segments: Seq<Seq<char>>,
    seen: Seq<Seq<char>>,
    uri: Seq<char>,
    more: Seq<char>,
    p: int,
)
    requires
        seen.contains(uri),
    ensures
        is_first_unseen(segments, seen, p) ==> segments[p] != uri,
        seen.push(more).contains(uri),
{
    let j = choose|j: int| 0 <= j < seen.len() && seen[j] == uri;
    assert(seen.push(more)[j] == uri);
}

/// Views of a list of URIs.
pub open spec fn uri_views(v: Seq<String>) -> Seq<Seq<char>> {
    v.map_values(|s: String| s@)
}

/// `p` is the position of the first segment of `segments` whose URI has
/// not been fetched yet.
pub open spec fn is_first_unseen(segments: Seq<Seq<char>>, seen: Seq<Seq<char>>, p: int) -> bool {
    &&& 0 <= p < segments.len()
    &&& !seen.contains(segments[p])
    &&& forall|j: int| 0 <= j < p ==> seen.contains(#[trigger] segments[j])
}

/// What the segment reader wants done next.
#[derive(Debug)]
pub enum ReaderStep {
    /// Fetch the segment at `url` and hand its bytes back under `uri`, its
    /// name in the manifest.
    Fetch { url: String, uri: String },
    /// Every listed segment has been fetched: wait a little and poll the
    /// manifest again.
    Wait,
}

/// How long to wait before polling a manifest again that listed no new
/// segment, in milliseconds.
pub const POLL_INTERVAL_MS: u64 = 100;

/// Turns the repeatedly fetched media manifest of one variant into a
/// sequential byte stream: fetches each listed segment once, in manifest
/// order, keeps their bytes, and hands out exactly as many bytes as asked
/// once enough have arrived. The fetching is done by its caller.
pub struct VariantReader {
    kind: Option<PlaylistKind>,
    variant: Variant,
    seen: Vec<String>,
    buffer: Vec<u8>,
}

impl VariantReader {
    /// URIs of the segments already fetched.
    pub closed spec fn seen_spec(&self) -> Seq<Seq<char>> {
        uri_views(self.seen@)
    }

    /// Bytes fetched and not yet handed out.
    pub closed spec fn buffer_spec(&self) -> Seq<u8> {
        self.buffer@
    }

    /// URL of the variant's media manifest.
    pub closed spec fn manifest_url_spec(&self) -> Seq<char> {
        self.variant.uri@
    }

    pub closed spec fn kind_spec(&self) -> Option<PlaylistKind> {
        self.kind
    }

    /// Each fetched URI is recorded once.
    pub open spec fn wf(&self) -> bool {
        self.seen_spec().no_duplicates()
    }

    /// A reader of `variant`, nothing fetched yet.
    pub fn new(variant: Variant) -> (r: VariantReader)
        ensures
            r.wf(),
            r.seen_spec() == Seq::<Seq<char>>::empty(),
            r.buffer_spec() == Seq::<u8>::empty(),
            r.manifest_url_spec() == variant.uri@,
            r.kind_spec() is None,
    {
        let r = VariantReader { kind: None, variant, seen: Vec::new(), buffer: Vec::new() };
        assert(r.seen_spec() =~= Seq::<Seq<char>>::empty());
        r
    }

    /// URL of the variant's media manifest, to be polled.
    pub fn manifest_url(&self) -> (r: &str)
        ensures
            r@ == self.manifest_url_spec(),
    {
        self.variant.uri.as_str()
    }

    /// The live or on-demand marker of the last manifest that had one.
    pub fn kind(&self) -> (r: Option<PlaylistKind>)
        ensures
            r == self.kind_spec(),
    {
        self.kind
    }

    /// Bytes ready to be read.
    pub fn buffered(&self) -> (r: usize)
        ensures
            r == self.buffer_spec().len(),
    {
        self.buffer.len()
    }

    /// Whether a segment named `uri` has been fetched.
    pub fn is_seen(&self, uri: &String) -> (r: bool)
        ensures
            r == self.seen_spec().contains(uri@),
    {
        let mut i: usize = 0;
        while i < self.seen.len()
            invariant
                i <= self.seen@.len(),
                forall|j: int| 0 <= j < i ==> self.seen@[j]@ != uri@,
            decreases self.seen@.len() - i,
        {
            if self.seen[i] == *uri {
                assert(self.seen_spec()[i as int] == uri@);
                return true;
            }
            i = i + 1;
        }
        proof {
            if self.seen_spec().contains(uri@) {
                let j = choose|j: int| 0 <= j < self.seen_spec().len() && self.seen_spec()[j] == uri@;
                assert(self.seen@[j]@ == uri@);
            }
        }
        false
    }

    /// Position of the first segment not fetched yet, `None` when all are.
    pub fn next_unseen(&self, segments: &Vec<String>) -> (r: Option<usize>)
        ensures
            r is None <==> forall|j: int|
                0 <= j < segments@.len() ==> self.seen_spec().contains(#[trigger] uri_views(segments@)[j]),
            r matches Some(p) ==> is_first_unseen(uri_views(segments@), self.seen_spec(), p as int),
    {
        let ghost segs = uri_views(segments@);
        let mut p: usize = 0;
        while p < segments.len()
            invariant
                p <= segments@.len(),
                segs == uri_views(segments@),
                forall|j: int| 0 <= j < p ==> self.seen_spec().contains(#[trigger] segs[j]),
            decreases segments@.len() - p,
        {
            if !self.is_seen(&segments[p]) {
                assert(segs[p as int] == segments@[p as int]@);
                return Some(p);
            }
            p = p + 1;
        }
        None
    }

    /// Decides on a freshly fetched copy of the media manifest: the first
    /// listed segment not fetched yet is to be fetched, its URI resolved
    /// against the manifest URL; with none left, wait. A manifest that does
    /// not parse, or is a multi-variant one, is an error. A segment already
    /// fetched is never asked for again.
    pub fn next_step(&mut self, body: &[u8]) -> (r: Result<ReaderStep, HlsError>)
        ensures
            final(self).seen_spec() == old(self).seen_spec(),
            final(self).buffer_spec() == old(self).buffer_spec(),
            final(self).manifest_url_spec() == old(self).manifest_url_spec(),
            r matches Ok(ReaderStep::Fetch { url, uri }) ==> !old(self).seen_spec().contains(uri@),
            match m3u8_parse(body@) {
                None => r == Err::<ReaderStep, HlsError>(HlsError::Malformed)
                    && final(self).kind_spec() == old(self).kind_spec(),
                Some(Manifest::Master(_)) => r == Err::<ReaderStep, HlsError>(
                    HlsError::UnexpectedMaster,
                ) && final(self).kind_spec() == old(self).kind_spec(),
                Some(Manifest::Media(mp)) => {
                    let segs = uri_views(mp.segments@);
                    &&& final(self).kind_spec() == (if mp.kind is Some {
                        mp.kind
                    } else {
                        old(self).kind_spec()
                    })
                    &&& (r matches Ok(ReaderStep::Wait)) <==> forall|j: int|
                        0 <= j < segs.len() ==> old(self).seen_spec().contains(#[trigger] segs[j])
                    &&& r matches Ok(ReaderStep::Fetch { url, uri }) ==> exists|p: int|
                        is_first_unseen(segs, old(self).seen_spec(), p) && uri@ == segs[p]
                            && resolved_uri(old(self).manifest_url_spec(), segs[p]) == Some(url@)
                    &&& r is Err ==> r == Err::<ReaderStep, HlsError>(HlsError::BadUrl) && exists|p: int|
                        is_first_unseen(segs, old(self).seen_spec(), p) && resolved_uri(
                            old(self).manifest_url_spec(),
                            segs[p],
                        ) is None
                },
            },
    {
        match parse_manifest(body) {
            None => Err(HlsError::Malformed),
            Some(Manifest::Master(_)) => Err(HlsError::UnexpectedMaster),
            Some(Manifest::Media(mp)) => {
                if let Some(k) = mp.kind {
                    self.kind = Some(k);
                }
                match self.next_unseen(&mp.segments) {
                    None => Ok(ReaderStep::Wait),
                    Some(p) => {
                        let uri = &mp.segments[p];
                        assert(uri_views(mp.segments@)[p as int] == uri@);
                        let ghost segs = uri_views(mp.segments@);
                        assert(is_first_unseen(segs, old(self).seen_spec(), p as int));
                        match resolve_uri(self.variant.uri.as_str(), uri.as_str()) {
                            Ok(url) => {
                                let uri = uri.clone();
                                assert(resolved_uri(old(self).manifest_url_spec(), segs[p as int])
                                    == Some(url@));
                                Ok(ReaderStep::Fetch { url, uri })
                            },
                            Err(e) => {
                                assert(resolved_uri(old(self).manifest_url_spec(), segs[p as int])
                                    is None);
                                Err(e)
                            },
                        }
                    },
                }
            },
        }
    }

    /// Takes the bytes of the segment named `uri`: marks it fetched and
    /// appends its bytes to what is ready to be read.
    pub fn segment_fetched(&mut self, uri: &String, data: &[u8])
        requires
            old(self).wf(),
        ensures
            final(self).wf(),
            final(self).seen_spec().contains(uri@),
            old(self).seen_spec().contains(uri@) ==> final(self).seen_spec() == old(self).seen_spec(),
            !old(self).seen_spec().contains(uri@) ==> final(self).seen_spec() == old(
                self,
            ).seen_spec().push(uri@),
            final(self).buffer_spec() == old(self).buffer_spec() + data@,
            final(self).manifest_url_spec() == old(self).manifest_url_spec(),
            final(self).kind_spec() == old(self).kind_spec(),
    {
        if !self.is_seen(uri) {
            self.seen.push(uri.clone());
            assert(self.seen_spec() =~= old(self).seen_spec().push(uri@));
            assert(self.seen_spec()[self.seen_spec().len() - 1] == uri@);
        }
        let ghost start = self.buffer@;
        let ghost seen = self.seen@;
        let ghost url = self.variant.uri@;
        let ghost kind = self.kind;
        let mut i: usize = 0;
        while i < data.len()
            invariant
                i <= data@.len(),
                self.buffer@ == start + data@.take(i as int),
                self.seen@ == seen,
                self.variant.uri@ == url,
                self.kind == kind,
            decreases data@.len() - i,
        {
            self.buffer.push(data[i]);
            assert(data@.take(i + 1) =~= data@.take(i as int).push(data@[i as int]));
            i = i + 1;
        }
        assert(data@.take(data@.len() as int) =~= data@);
    }

    /// Hands out exactly `k` bytes once that many are ready, keeping the
    /// rest; `None`, with nothing taken, while fewer are ready.
    pub fn read(&mut self, k: usize) -> (r: Option<Vec<u8>>)
        ensures
            final(self).seen_spec() == old(self).seen_spec(),
            final(self).manifest_url_spec() == old(self).manifest_url_spec(),
            final(self).kind_spec() == old(self).kind_spec(),
            k <= old(self).buffer_spec().len() ==> (r matches Some(out) && out@ == old(
                self,
            ).buffer_spec().take(k as int) && final(self).buffer_spec() == old(self).buffer_spec().skip(
                k as int,
            )),
            k > old(self).buffer_spec().len() ==> r is None && final(self).buffer_spec() == old(
                self,
            ).buffer_spec(),
    {
        if k > self.buffer.len() {
            return None;
        }
        let mut rest = self.buffer.split_off(k);
        std::mem::swap(&mut rest, &mut self.buffer);
        assert(rest@ =~= old(self).buffer_spec().take(k as int));
        assert(self.buffer@ =~= old(self).buffer_spec().skip(k as int));
        Some(rest)
    }
}

} // verus!

use vstd::prelude::*;
use vstd::string::*;
use crate::text::chars_of;

verus! {

/// How sure a provider is of its suggestion.
#[derive(PartialEq, Eq, Structural, Clone, Copy, Debug)]
pub enum Confidence {
    High,
    Medium,
    Low,
}

/// A provider's suggestion for a track.
#[derive(Clone, Debug, PartialEq, Eq)]
pub struct MetadataResult {
    pub genre: Option<String>,
    pub artist: Option<String>,
    pub confidence: Confidence,
    pub source: String,
}

/// An access token and the time (seconds since the epoch) until which it may be used.
#[derive(Clone, Debug, PartialEq, Eq)]
pub struct TokenCache {
    pub access_token: String,
    pub expires_at: u64,
}

/// The token that a cache still holds at time `now`, if any.
pub open spec fn fresh_token(cache: Option<TokenCache>, now: u64) -> Option<String> {
    match cache {
        Some(c) => if c.expires_at > now { Some(c.access_token) } else { None },
        None => None,
    }
}

/// The cached token, when it has not expired at `now`; otherwise the caller
/// must authenticate again.
pub fn cached_token(cache: &Option<TokenCache>, now: u64) -> (r: Option<String>)
    ensures
        r == fresh_token(*cache, now),
{
    match cache {
        Some(c) => if c.expires_at > now { Some(c.access_token.clone()) } else { None },
        None => None,
    }
}

/// Until when a Spotify token is used: fifty minutes after it was issued.
pub fn spotify_expiry(now: u64) -> (r: u64)
    ensures
        r == if now as int + 3000 > u64::MAX { u64::MAX as int } else { now as int + 3000 },
{
    now.saturating_add(3000)
}

/// Until when a Beatport token is used: five minutes before the lifetime the
/// service gave (an hour when it gave none) runs out, counted from `now`.
pub fn beatport_expiry(now: u64, expires_in: Option<u64>) -> (r: u64)
    ensures
        ({
            let life: int = match expires_in {
                Some(e) => e as int,
                None => 3600,
            };
            let end: int = if now as int + life > u64::MAX { u64::MAX as int } else { now as int + life };
            r == if end < 300 { 0 } else { end - 300 }
        }),
{
    let life = match expires_in {
        Some(e) => e,
        None => 3600,
    };
    now.saturating_add(life).saturating_sub(300)
}

/// Text quoted for a Spotify field query when it holds a space.
pub open spec fn quoted(s: Seq<char>) -> Seq<char> {
    if s.contains(' ') {
        seq!['"'] + s + seq!['"']
    } else {
        s
    }
}

fn has_space(s: &str) -> (r: bool)
    ensures
        r == s@.contains(' '),
{
    let v = chars_of(s);
    let mut i: usize = 0;
    while i < v.len()
        invariant
            v@ == s@,
            i <= v@.len(),
            forall|k: int| 0 <= k < i ==> v@[k] != ' ',
        decreases v@.len() - i,
    {
        if v[i] == ' ' {
            assert(s@[i as int] == ' ');
            return true;
        }
        i = i + 1;
    }
    false
}

fn quote_if_multiword(s: &str) -> (r: String)
    ensures
        r@ == quoted(s@),
{
    if has_space(s) {
        let mut q = String::from_str("\"");
        q.append(s);
        q.append("\"");
        proof {
            reveal_strlit("\"");
            assert(q@ =~= seq!['"'] + s@ + seq!['"']);
        }
        q
    } else {
        String::from_str(s)
    }
}

/// The Spotify search query for a track.
pub open spec fn spotify_query_text(artist: Seq<char>, title: Seq<char>) -> Seq<char> {
    "artist:"@ + quoted(artist) + " track:"@ + quoted(title)
}

/// Builds the Spotify search query: `artist:{artist} track:{title}`, each
/// part quoted when it holds a space.
pub fn spotify_query(artist: &str, title: &str) -> (r: String)
    ensures
        r@ == spotify_query_text(artist@, title@),
{
    let mut q = String::from_str("artist:");
    q.append(quote_if_multiword(artist).as_str());
    q.append(" track:");
    q.append(quote_if_multiword(title).as_str());
    q
}

/// Builds the MusicBrainz search query: `artist:{artist} AND recording:{title}`.
pub fn musicbrainz_query(artist: &str, title: &str) -> (r: String)
    ensures
        r@ == "artist:"@ + artist@ + " AND recording:"@ + title@,
{
    let mut q = String::from_str("artist:");
    q.append(artist);
    q.append(" AND recording:");
    q.append(title);
    q
}

/// Builds the Beatport search query: `{artist} {title}`.
pub fn beatport_query(artist: &str, title: &str) -> (r: String)
    ensures
        r@ == artist@ + " "@ + title@,
{
    let mut q = String::from_str(artist);
    q.append(" ");
    q.append(title);
    q
}

/// The suggestion when a provider found no track: no genre, the artist as
/// asked, low confidence, and the source marked as without a match.
pub fn no_match_result(artist: &str, provider: &str) -> (r: MetadataResult)
    ensures
        r.genre is None,
        r.artist matches Some(a) && a@ == artist@,
        r.confidence == Confidence::Low,
        r.source@ == provider@ + " (No match)"@,
{
    let mut source = String::from_str(provider);
    source.append(" (No match)");
    MetadataResult {
        genre: None,
        artist: Some(String::from_str(artist)),
        confidence: Confidence::Low,
        source,
    }
}

/// Spotify's suggestion for a found track: the first genre of its first
/// artist (high confidence), or no genre (medium confidence) when the artist
/// has none or could not be looked up.
pub fn spotify_result(artist_name: String, first_genre: Option<String>) -> (r: MetadataResult)
    ensures
        r.genre == first_genre,
        r.artist == Some(artist_name),
        r.confidence == if first_genre is Some { Confidence::High } else { Confidence::Medium },
        r.source@ == "Spotify"@,
{
    let confidence = if first_genre.is_some() { Confidence::High } else { Confidence::Medium };
    MetadataResult { genre: first_genre, artist: Some(artist_name), confidence, source: String::from_str("Spotify") }
}

/// MusicBrainz's suggestion for a found recording: its first credited artist
/// (or the artist as asked), its first genre or else its first tag, and
/// medium confidence when a genre was found, low otherwise.
pub fn musicbrainz_result(
    artist: &str,
    first_credit: Option<String>,
    first_genre: Option<String>,
    first_tag: Option<String>,
) -> (r: MetadataResult)
    ensures
        first_credit is Some ==> r.artist == first_credit,
        first_credit is None ==> (r.artist matches Some(a) && a@ == artist@),
        r.genre == if first_genre is Some { first_genre } else { first_tag },
        r.confidence == if r.genre is Some { Confidence::Medium } else { Confidence::Low },
        r.source@ == "MusicBrainz"@,
{
    let name = match first_credit {
        Some(n) => n,
        None => String::from_str(artist),
    };
    let genre = match first_genre {
        Some(g) => Some(g),
        None => first_tag,
    };
    let confidence = if genre.is_some() { Confidence::Medium } else { Confidence::Low };
    MetadataResult { genre, artist: Some(name), confidence, source: String::from_str("MusicBrainz") }
}

/// Beatport's suggestion for a found track: its first artist (or the artist
/// as asked), its sub-genre or else its genre, and high confidence when
/// either was given, low otherwise.
pub fn beatport_result(
    artist: &str,
    first_artist: Option<String>,
    sub_genre: Option<String>,
    genre: Option<String>,
) -> (r: MetadataResult)
    ensures
        first_artist is Some ==> r.artist == first_artist,
        first_artist is None ==> (r.artist matches Some(a) && a@ == artist@),
        r.genre == if sub_genre is Some { sub_genre } else { genre },
        r.confidence == if r.genre is Some { Confidence::High } else { Confidence::Low },
        r.source@ == "Beatport"@,
{
    let name = match first_artist {
        Some(n) => n,
        None => String::from_str(artist),
    };
    let chosen = match sub_genre {
        Some(g) => Some(g),
        None => genre,
    };
    let confidence = if chosen.is_some() { Confidence::High } else { Confidence::Low };
    MetadataResult { genre: chosen, artist: Some(name), confidence, source: String::from_str("Beatport") }
}

/// The suggestions among providers' outcomes, in order; failures are dropped.
pub open spec fn successes(rs: Seq<Result<MetadataResult, String>>) -> Seq<MetadataResult>
    decreases rs.len(),
{
    if rs.len() == 0 {
        Seq::empty()
    } else {
        let rest = successes(rs.subrange(1, rs.len() as int));
        match rs[0] {
            Ok(m) => seq![m] + rest,
            Err(_) => rest,
        }
    }
}

/// Collects the suggestions of several providers: a provider that failed
/// contributes nothing, and the others are kept in order.
pub fn collect_results(outcomes: Vec<Result<MetadataResult, String>>) -> (r: Vec<MetadataResult>)
    ensures
        r@ == successes(outcomes@),
{
    let mut rest = outcomes;
    let mut out: Vec<MetadataResult> = Vec::new();
    while rest.len() > 0
        invariant
            out@ + successes(rest@) == successes(outcomes@),
        decreases rest@.len(),
    {
        let ghost before = rest@;
        let first = rest.remove(0);
        assert(rest@ =~= before.subrange(1, before.len() as int));
        let ghost prev = out@;
        match first {
            Ok(m) => {
                out.push(m);
                assert(out@ + successes(rest@) =~= prev + successes(before));
            },
            Err(_) => {},
        }
    }
    assert(out@ + Seq::<MetadataResult>::empty() =~= out@);
    out
}

/// A credential from the environment when it is set, else the configured
/// one when it is not empty.
pub fn pick_credential(from_env: Option<String>, configured: Option<String>) -> (r: Option<String>)
    ensures
        from_env is Some ==> r == from_env,
        from_env is None ==> r == match configured {
            Some(c) => if c@.len() == 0 { None } else { Some(c) },
            None => None,
        },
{
    match from_env {
        Some(e) => Some(e),
        None => match configured {
            Some(c) => if c.as_str().is_empty() { None } else { Some(c) },
            None => None,
        },
    }
}

/// A Spotify client, configured with an optional client id and secret.
pub struct SpotifyClient {
    client_id: Option<String>,
    client_secret: Option<String>,
}

impl SpotifyClient {
    pub closed spec fn id(&self) -> Option<String> {
        self.client_id
    }

    pub closed spec fn secret(&self) -> Option<String> {
        self.client_secret
    }

    pub fn new(client_id: Option<String>, client_secret: Option<String>) -> (r: SpotifyClient)
        ensures
            r.id() == client_id,
            r.secret() == client_secret,
    {
        SpotifyClient { client_id, client_secret }
    }

    /// The client id and secret, when both are configured; a search is
    /// refused otherwise.
    pub fn credentials(&self) -> (r: Option<(String, String)>)
        ensures
            r matches Some((i, s)) ==> self.id() == Some(i) && self.secret() == Some(s),
            r is None ==> self.id() is None || self.secret() is None,
    {
        match (&self.client_id, &self.client_secret) {
            (Some(i), Some(s)) => Some((i.clone(), s.clone())),
            _ => None,
        }
    }
}

/// A MusicBrainz client; it needs no credentials.
pub struct MusicBrainzClient {
    base_url: String,
}

impl MusicBrainzClient {
    pub closed spec fn base(&self) -> Seq<char> {
        self.base_url@
    }

    pub fn new() -> (r: MusicBrainzClient)
        ensures
            r.base() == "https://musicbrainz.org/ws/2"@,
    {
        MusicBrainzClient { base_url: String::from_str("https://musicbrainz.org/ws/2") }
    }

    /// The address of the recording search.
    pub fn recording_url(&self) -> (r: String)
        ensures
            r@ == self.base() + "/recording"@,
    {
        let mut u = self.base_url.clone();
        u.append("/recording");
        u
    }
}

/// A Beatport client, configured with an optional user name and password.
pub struct BeatportClient {
    username: Option<String>,
    password: Option<String>,
}

impl BeatportClient {
    pub closed spec fn user(&self) -> Option<String> {
        self.username
    }

    pub closed spec fn pass(&self) -> Option<String> {
        self.password
    }

    pub fn new(username: Option<String>, password: Option<String>) -> (r: BeatportClient)
        ensures
            r.user() == username,
            r.pass() == password,
    {
        BeatportClient { username, password }
    }

    /// The user name and password, when both are configured; a search is
    /// refused otherwise.
    pub fn credentials(&self) -> (r: Option<(String, String)>)
        ensures
            r matches Some((u, p)) ==> self.user() == Some(u) && self.pass() == Some(p),
            r is None ==> self.user() is None || self.pass() is None,
    {
        match (&self.username, &self.password) {
            (Some(u), Some(p)) => Some((u.clone(), p.clone())),
            _ => None,
        }
    }
}

} // verus!

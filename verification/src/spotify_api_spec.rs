//! The operations of the music API: what each call asks for, and what its
//! reply holds.

use vstd::prelude::*;
use vstd::string::StringExecFns;
use crate::api_spec::{ApiRequest, ApiRequestSpec, Method, NoBody, NoResponse, OptionalResponse};
use crate::describe::Describe;
use crate::spotify_model::{CurrentTrack, PlaybackState, SpotifySearchResults, TopTracksResponse};
use crate::params::{pair_texts, pairs_to_map, PairSeq, Params};
use crate::text::{bool_text, bool_to_string, clone_strings, join, join_text, texts};

verus! {

/// Whether `request` is the plain call `method` of `endpoint`: no headers,
/// no parameters, no body.
pub open spec fn is_basic<T>(request: ApiRequest<T>, method: Method, endpoint: Seq<char>) -> bool {
    &&& request.method == method
    &&& request.endpoint@ == endpoint
    &&& request.headers is None
    &&& request.params is None
    &&& request.body is None
}

/// Whether `request` is the call `method` of `endpoint` with the query
/// parameters `pairs`, in that order, and nothing else.
pub open spec fn is_with_params<T>(
    request: ApiRequest<T>,
    method: Method,
    endpoint: Seq<char>,
    pairs: PairSeq,
) -> bool {
    &&& request.method == method
    &&& request.endpoint@ == endpoint
    &&& request.headers is None
    &&& request.params matches Some(params)
    &&& params.pair_seq() == pairs
    &&& params@ == pairs_to_map(pairs)
    &&& request.body is None
}

/// Pauses the playback.
#[derive(Clone, Copy, Debug)]
pub struct Pause;

impl ApiRequestSpec for Pause {
    type Resposne = NoResponse;

    type Body = NoBody;

    fn request(&self) -> (r: ApiRequest<NoBody>)
        ensures
            is_basic(r, Method::Put, "me/player/pause"@),
    {
        ApiRequest::basic(Method::Put, "me/player/pause")
    }
}

/// Resumes the playback.
#[derive(Clone, Copy, Debug)]
pub struct Resume;

impl ApiRequestSpec for Resume {
    type Resposne = NoResponse;

    type Body = NoBody;

    fn request(&self) -> (r: ApiRequest<NoBody>)
        ensures
            is_basic(r, Method::Put, "me/player/play"@),
    {
        ApiRequest::basic(Method::Put, "me/player/play")
    }
}

/// Starts the playback of a track, or of a context such as an album or a
/// playlist, there at a track where one is given.
#[derive(Debug)]
pub enum Play {
    Track { id: String },
    Context { uri: String, track: Option<String> },
}

/// The body of the call that starts a playback. A field that is `None` is
/// left out of what is sent.
#[derive(Debug)]
pub struct PlayBody {
    pub uris: Option<Vec<String>>,
    pub context_uri: Option<String>,
    pub offset: Option<PlayBodyOffset>,
}

/// Where in a context the playback starts.
#[derive(Debug)]
pub struct PlayBodyOffset {
    pub uri: String,
}

/// The provider's name for the track `id`.
pub open spec fn track_uri(id: Seq<char>) -> Seq<char> {
    "spotify:track:"@ + id
}

/// The provider's name for the context `uri`, given as a kind, a colon and
/// an id.
pub open spec fn context_uri(uri: Seq<char>) -> Seq<char> {
    "spotify:"@ + uri
}

/// Whether `body` is the body that starts what `args` asks for. For a
/// track: that track alone, by its name. For a context: the context by its
/// name, and the track to start at where one is given.
pub open spec fn is_play_body(body: PlayBody, args: Play) -> bool {
    match args {
        Play::Track { id } => {
            &&& body.uris matches Some(uris)
            &&& texts(uris@) == seq![track_uri(id@)]
            &&& body.context_uri is None
            &&& body.offset is None
        },
        Play::Context { uri, track } => {
            &&& body.uris is None
            &&& body.context_uri matches Some(name)
            &&& name@ == context_uri(uri@)
            &&& match track {
                Some(id) => body.offset matches Some(offset) && offset.uri@ == track_uri(id@),
                None => body.offset is None,
            }
        },
    }
}

fn track_name(id: &str) -> (r: String)
    ensures
        r@ == track_uri(id@),
{
    let mut r = String::from_str("spotify:track:");
    r.append(id);
    r
}

/// The body that starts what `args` asks for.
pub fn playtrack_body(args: &Play) -> (r: PlayBody)
    ensures
        is_play_body(r, *args),
{
    match args {
        Play::Track { id } => {
            let mut uris: Vec<String> = Vec::new();
            uris.push(track_name(id.as_str()));
            assert(texts(uris@) =~= seq![track_uri(id@)]);
            PlayBody { uris: Some(uris), context_uri: None, offset: None }
        },
        Play::Context { uri, track } => {
            let mut name = String::from_str("spotify:");
            name.append(uri.as_str());
            let offset = match track {
                Some(id) => Some(PlayBodyOffset { uri: track_name(id.as_str()) }),
                None => None,
            };
            PlayBody { uris: None, context_uri: Some(name), offset }
        },
    }
}

impl ApiRequestSpec for Play {
    type Resposne = NoResponse;

    type Body = PlayBody;

    fn request(&self) -> (r: ApiRequest<PlayBody>)
        ensures
            r.method == Method::Put,
            r.endpoint@ == "me/player/play"@,
            r.headers is None,
            r.params is None,
            r.body matches Some(body) && is_play_body(body, *self),
    {
        ApiRequest::basic_with_body(Method::Put, "me/player/play", playtrack_body(self))
    }
}

/// Skips to the next track.
#[derive(Clone, Copy, Debug)]
pub struct GotoNextTrack;

impl ApiRequestSpec for GotoNextTrack {
    type Resposne = NoResponse;

    type Body = NoBody;

    fn request(&self) -> (r: ApiRequest<NoBody>)
        ensures
            is_basic(r, Method::Post, "me/player/next"@),
    {
        ApiRequest::basic(Method::Post, "me/player/next")
    }
}

/// Skips to the previous track.
#[derive(Clone, Copy, Debug)]
pub struct GotoPrevTrack;

impl ApiRequestSpec for GotoPrevTrack {
    type Resposne = NoResponse;

    type Body = NoBody;

    fn request(&self) -> (r: ApiRequest<NoBody>)
        ensures
            is_basic(r, Method::Post, "me/player/previous"@),
    {
        ApiRequest::basic(Method::Post, "me/player/previous")
    }
}

/// Turns shuffling on or off.
#[derive(Clone, Copy, Debug)]
pub struct SetShuffle {
    pub state: bool,
}

fn one_param(name: &str, value: String) -> (r: Params)
    ensures
        r.pair_seq() == seq![(name@, value@)],
        r@ == pairs_to_map(seq![(name@, value@)]),
{
    let mut r = Params::new();
    r.insert(String::from_str(name), value);
    proof {
        let pairs = seq![(name@, value@)];
        assert(pairs.drop_last() =~= Seq::<(Seq<char>, Seq<char>)>::empty());
        assert(pairs =~= Seq::<(Seq<char>, Seq<char>)>::empty().push((name@, value@)));
        assert(pairs_to_map(pairs.drop_last()) == Map::<Seq<char>, Seq<char>>::empty());
        assert(pairs_to_map(pairs) == pairs_to_map(pairs.drop_last()).insert(name@, value@));
    }
    r
}

/// The query parameters of the call that sets shuffling.
pub fn setshuffle_params(args: &SetShuffle) -> (r: Params)
    ensures
        r.pair_seq() == seq![("state"@, bool_text(args.state))],
        r@ == pairs_to_map(seq![("state"@, bool_text(args.state))]),
{
    one_param("state", bool_to_string(args.state))
}

impl ApiRequestSpec for SetShuffle {
    type Resposne = NoResponse;

    type Body = NoBody;

    fn request(&self) -> (r: ApiRequest<NoBody>)
        ensures
            is_with_params(
                r,
                Method::Put,
                "me/player/shuffle"@,
                seq![("state"@, bool_text(self.state))],
            ),
    {
        ApiRequest::basic_with_params(
            Method::Put,
            "me/player/shuffle",
            Some(setshuffle_params(self)),
        )
    }
}

/// Shuffling, as the user names it.
#[derive(Clone, Copy, Debug, PartialEq, Eq, Structural)]
pub enum ShuffleState {
    On,
    Off,
}

impl ShuffleState {
    /// Whether shuffling is on.
    pub fn into_bool(&self) -> (r: bool)
        ensures
            r == (*self is On),
    {
        match self {
            ShuffleState::On => true,
            ShuffleState::Off => false,
        }
    }
}

/// Asks what is being played, and where.
#[derive(Clone, Copy, Debug)]
pub struct GetPlaybackState;

impl ApiRequestSpec for GetPlaybackState {
    type Resposne = OptionalResponse<PlaybackState>;

    type Body = NoBody;

    fn request(&self) -> (r: ApiRequest<NoBody>)
        ensures
            is_basic(r, Method::Get, "me/player"@),
    {
        ApiRequest::basic(Method::Get, "me/player")
    }
}

/// What kind of thing a search looks for.
#[derive(Clone, Copy, Debug, PartialEq, Eq, Structural)]
pub enum SpotifySearchType {
    Track,
    Album,
    Artist,
    Playlist,
}

impl Default for SpotifySearchType {
    fn default() -> (r: Self)
        ensures
            r == SpotifySearchType::Track,
    {
        SpotifySearchType::Track
    }
}

impl Describe for SpotifySearchType {
    /// The kind as the API names it.
    open spec fn text(&self) -> Seq<char> {
        match *self {
            SpotifySearchType::Track => "track"@,
            SpotifySearchType::Album => "album"@,
            SpotifySearchType::Artist => "artist"@,
            SpotifySearchType::Playlist => "playlist"@,
        }
    }

    /// The kind as the API names it.
    fn to_string(&self) -> (r: String) {
        match self {
            SpotifySearchType::Track => String::from_str("track"),
            SpotifySearchType::Album => String::from_str("album"),
            SpotifySearchType::Artist => String::from_str("artist"),
            SpotifySearchType::Playlist => String::from_str("playlist"),
        }
    }
}

/// Searches the catalogue for `query`, among things of the given kinds.
#[derive(Debug)]
pub struct Search {
    pub query: String,
    pub search_type: Vec<SpotifySearchType>,
}

/// The names of the kinds `kinds`, in order.
pub open spec fn kind_texts(kinds: Seq<SpotifySearchType>) -> Seq<Seq<char>> {
    Seq::new(kinds.len(), |i: int| kinds[i].text())
}

/// The query parameters of a search: the query, and the kinds separated by
/// commas.
pub open spec fn search_pairs(args: Search) -> PairSeq {
    seq![("q"@, args.query@), ("type"@, join_text(kind_texts(args.search_type@), ","@))]
}

/// The query parameters of a search.
pub fn search_params(args: &Search) -> (r: Params)
    ensures
        r.pair_seq() == search_pairs(*args),
        r@ == pairs_to_map(search_pairs(*args)),
{
    let mut names: Vec<String> = Vec::new();
    let mut i: usize = 0;
    while i < args.search_type.len()
        invariant
            i <= args.search_type.len(),
            names.len() == i,
            texts(names@) == kind_texts(args.search_type@).take(i as int),
        decreases args.search_type.len() - i,
    {
        let ghost before = texts(names@);
        let name = args.search_type[i].to_string();
        names.push(name);
        i = i + 1;
        proof {
            let after = texts(names@);
            let goal = kind_texts(args.search_type@).take(i as int);
            assert forall|j: int| 0 <= j < after.len() implies after[j] == goal[j] by {
                if j < i - 1 {
                    assert(after[j] == before[j]);
                }
            }
            assert(after =~= goal);
        }
    }
    assert(kind_texts(args.search_type@).take(i as int) =~= kind_texts(args.search_type@));
    let mut pairs: Vec<(String, String)> = Vec::new();
    pairs.push((String::from_str("q"), args.query.clone()));
    pairs.push((String::from_str("type"), join(&names, ",")));
    proof {
        reveal_strlit("q");
        reveal_strlit("type");
        assert(pair_texts(pairs@) =~= search_pairs(*args));
        assert("q"@.len() == 1);
        assert("type"@.len() == 4);
    }
    Params::from_pairs(pairs)
}

impl ApiRequestSpec for Search {
    type Resposne = SpotifySearchResults;

    type Body = NoBody;

    fn request(&self) -> (r: ApiRequest<NoBody>)
        ensures
            is_with_params(r, Method::Get, "search"@, search_pairs(*self)),
    {
        ApiRequest::basic_with_params(Method::Get, "search", Some(search_params(self)))
    }
}

/// Adds tracks to the user's saved tracks.
#[derive(Debug)]
pub struct SaveTracks {
    pub ids: Vec<String>,
}

/// The body of the call that saves tracks.
#[derive(Debug)]
pub struct SaveTrackBody {
    pub ids: Vec<String>,
}

/// The body that saves the tracks of `args`: their ids, in order.
pub fn savetrack_body(args: &SaveTracks) -> (r: SaveTrackBody)
    ensures
        r.ids@ == args.ids@,
{
    SaveTrackBody { ids: clone_strings(&args.ids) }
}

impl ApiRequestSpec for SaveTracks {
    type Resposne = NoResponse;

    type Body = SaveTrackBody;

    fn request(&self) -> (r: ApiRequest<SaveTrackBody>)
        ensures
            r.method == Method::Put,
            r.endpoint@ == "me/tracks"@,
            r.headers is None,
            r.params is None,
            r.body matches Some(body) && body.ids@ == self.ids@,
    {
        ApiRequest::basic_with_body(Method::Put, "me/tracks", savetrack_body(self))
    }
}

/// Over which stretch of time the user's favourites are taken.
#[derive(Clone, Copy, Debug, PartialEq, Eq, Structural)]
pub enum SpotifyTimeRange {
    /// About four weeks.
    Short,
    /// About six months.
    Medium,
    /// About a year.
    Long,
}

impl Default for SpotifyTimeRange {
    fn default() -> (r: Self)
        ensures
            r == SpotifyTimeRange::Medium,
    {
        SpotifyTimeRange::Medium
    }
}

impl Describe for SpotifyTimeRange {
    /// The stretch as the API names it.
    open spec fn text(&self) -> Seq<char> {
        match *self {
            SpotifyTimeRange::Short => "short_term"@,
            SpotifyTimeRange::Medium => "medium_term"@,
            SpotifyTimeRange::Long => "long_term"@,
        }
    }

    /// The stretch as the API names it.
    fn to_string(&self) -> (r: String) {
        match self {
            SpotifyTimeRange::Short => String::from_str("short_term"),
            SpotifyTimeRange::Medium => String::from_str("medium_term"),
            SpotifyTimeRange::Long => String::from_str("long_term"),
        }
    }
}

/// Asks for the tracks that the user played most.
#[derive(Clone, Copy, Debug)]
pub struct GetTopTracks {
    pub time_range: SpotifyTimeRange,
}

/// The query parameters of the call for the user's top tracks.
pub fn get_top_tracks_params(args: &GetTopTracks) -> (r: Params)
    ensures
        r.pair_seq() == seq![("time_range"@, args.time_range.text())],
        r@ == pairs_to_map(seq![("time_range"@, args.time_range.text())]),
{
    one_param("time_range", args.time_range.to_string())
}

impl ApiRequestSpec for GetTopTracks {
    type Resposne = TopTracksResponse;

    type Body = NoBody;

    fn request(&self) -> (r: ApiRequest<NoBody>)
        ensures
            is_with_params(
                r,
                Method::Get,
                "me/top/tracks"@,
                seq![("time_range"@, self.time_range.text())],
            ),
    {
        ApiRequest::basic_with_params(
            Method::Get,
            "me/top/tracks",
            Some(get_top_tracks_params(self)),
        )
    }
}

/// Asks for the track that is being played.
#[derive(Clone, Copy, Debug)]
pub struct GetCurrentTrack;

impl ApiRequestSpec for GetCurrentTrack {
    type Resposne = CurrentTrack;

    type Body = NoBody;

    fn request(&self) -> (r: ApiRequest<NoBody>)
        ensures
            is_basic(r, Method::Get, "me/player/currently-playing"@),
    {
        ApiRequest::basic(Method::Get, "me/player/currently-playing")
    }
}

/// Whether music is playing.
#[derive(Clone, Copy, Debug, PartialEq, Eq, Structural)]
pub enum PlayingState {
    Playing,
    Paused,
}

impl Describe for PlayingState {
    /// The state as a word.
    open spec fn text(&self) -> Seq<char> {
        match *self {
            PlayingState::Playing => "playing"@,
            PlayingState::Paused => "paused"@,
        }
    }

    /// The state as a word.
    fn to_string(&self) -> (r: String) {
        match self {
            PlayingState::Playing => String::from_str("playing"),
            PlayingState::Paused => String::from_str("paused"),
        }
    }
}

impl From<bool> for PlayingState {
    fn from(value: bool) -> (r: Self) {
        if value {
            PlayingState::Playing
        } else {
            PlayingState::Paused
        }
    }
}

impl vstd::std_specs::convert::FromSpecImpl<bool> for PlayingState {
    open spec fn obeys_from_spec() -> bool {
        true
    }

    open spec fn from_spec(value: bool) -> Self {
        if value {
            PlayingState::Playing
        } else {
            PlayingState::Paused
        }
    }
}

} // verus!

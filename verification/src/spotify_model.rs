//! What the replies of the music API hold, and how each is shown.

use vstd::prelude::*;
use vstd::string::StringExecFns;
use crate::describe::{describe_joined, described, Describe};
use crate::params::Params;
use crate::text::{decimal, decimal_text, join, join_text, labelled, texts};

verus! {

/// What is being played, and where.
#[derive(Debug)]
pub struct PlaybackState {
    pub device: SpotifyDevice,
    pub is_playing: bool,
}

/// A device that plays.
#[derive(Debug)]
pub struct SpotifyDevice {
    pub id: Option<String>,
    pub is_active: bool,
    pub name: String,
    pub device_type: String,
}

/// What a search found, by kind. A kind that was not asked for is absent.
#[derive(Debug)]
pub struct SpotifySearchResults {
    pub tracks: Option<SpotifySearchTracksResults>,
    pub albums: Option<SpotifySearchAlbumsResults>,
    pub artists: Option<SpotifySearchArtistsResults>,
    pub playlists: Option<SpotifySearchPlaylistsResults>,
}

/// The tracks that a search found.
#[derive(Debug)]
pub struct SpotifySearchTracksResults {
    pub tracks_num: u32,
    pub items: Vec<SpotifyTrack>,
}

/// The albums that a search found.
#[derive(Debug)]
pub struct SpotifySearchAlbumsResults {
    pub tracks_num: u32,
    pub items: Vec<SpotifySimplifiedAlbum>,
}

/// The artists that a search found.
#[derive(Debug)]
pub struct SpotifySearchArtistsResults {
    pub tracks_num: u32,
    pub items: Vec<SpotifyArtist>,
}

/// The playlists that a search found.
#[derive(Debug)]
pub struct SpotifySearchPlaylistsResults {
    pub tracks_num: u32,
    pub items: Vec<SpotifySimplifiedPlaylist>,
}

/// One page of the tracks that the user played most.
#[derive(Debug)]
pub struct TopTracksResponse {
    pub items: Vec<SpotifyTrack>,
    pub total: u32,
    pub limit: u32,
    pub offset: u32,
    pub href: String,
    pub previous: Option<String>,
    pub next: Option<String>,
}

/// The track that is being played, and what it is played from.
#[derive(Debug)]
pub struct CurrentTrack {
    pub item: Option<SpotifyTrack>,
    pub context: Option<SpotifyContext>,
}

/// An artist, by name only.
#[derive(Debug)]
pub struct SpotifySimplifiedArtist {
    pub name: String,
}

/// A playlist, in short.
#[derive(Debug)]
pub struct SpotifySimplifiedPlaylist {
    pub name: String,
    pub description: String,
    pub id: String,
    pub is_public: bool,
}

/// An artist.
#[derive(Debug)]
pub struct SpotifyArtist {
    pub name: String,
    pub genres: Vec<String>,
    pub id: String,
}

/// A track.
#[derive(Debug)]
pub struct SpotifyTrack {
    pub name: String,
    pub album: SpotifySimplifiedAlbum,
    pub artists: Vec<SpotifySimplifiedArtist>,
    pub id: String,
}

/// What a track is played from: an album, a playlist, an artist.
#[derive(Debug)]
pub struct SpotifyContext {
    pub uri: String,
    pub href: String,
    pub external_urls: Params,
    pub context_type: String,
}

/// An album, in short.
#[derive(Debug)]
pub struct SpotifySimplifiedAlbum {
    pub name: String,
    pub album_type: String,
    pub total_tracks: u8,
    pub artists: Vec<SpotifySimplifiedArtist>,
    pub release_date: String,
    pub release_date_precision: String,
    pub id: String,
}

/// The names of `artists`, in order.
pub open spec fn artist_names(artists: Seq<SpotifySimplifiedArtist>) -> Seq<Seq<char>> {
    Seq::new(artists.len(), |i: int| artists[i].name@)
}

/// The lines `lines`, each on its own line.
pub open spec fn lines_text(lines: Seq<Seq<char>>) -> Seq<char> {
    join_text(lines, "\n"@)
}

fn names_joined(artists: &Vec<SpotifySimplifiedArtist>) -> (r: String)
    ensures
        r@ == join_text(artist_names(artists@), ", "@),
{
    let mut names: Vec<String> = Vec::new();
    let mut i: usize = 0;
    while i < artists.len()
        invariant
            i <= artists.len(),
            names.len() == i,
            texts(names@) == artist_names(artists@).take(i as int),
        decreases artists.len() - i,
    {
        let ghost before = texts(names@);
        let name = artists[i].name.clone();
        names.push(name);
        i = i + 1;
        proof {
            let after = texts(names@);
            let goal = artist_names(artists@).take(i as int);
            assert forall|j: int| 0 <= j < after.len() implies after[j] == goal[j] by {
                if j < i - 1 {
                    assert(after[j] == before[j]);
                }
            }
            assert(after =~= goal);
        }
    }
    assert(artist_names(artists@).take(i as int) =~= artist_names(artists@));
    join(&names, ", ")
}

fn four_lines(a: String, b: String, c: String, d: String) -> (r: String)
    ensures
        r@ == lines_text(seq![a@, b@, c@, d@]),
{
    let mut lines: Vec<String> = Vec::new();
    lines.push(a);
    lines.push(b);
    lines.push(c);
    lines.push(d);
    assert(texts(lines@) =~= seq![a@, b@, c@, d@]);
    join(&lines, "\n")
}

impl Describe for SpotifySimplifiedPlaylist {
    open spec fn text(&self) -> Seq<char> {
        lines_text(
            seq![
                "Name: "@ + self.name@,
                "Description: "@ + self.description@,
                "ID: "@ + self.id@,
                "Public: "@ + if self.is_public {
                    "Yes"@
                } else {
                    "No"@
                },
            ],
        )
    }

    fn to_string(&self) -> (r: String) {
        four_lines(
            labelled("Name: ", self.name.as_str()),
            labelled("Description: ", self.description.as_str()),
            labelled("ID: ", self.id.as_str()),
            labelled(
                "Public: ",
                if self.is_public {
                    "Yes"
                } else {
                    "No"
                },
            ),
        )
    }
}

impl Describe for SpotifyArtist {
    open spec fn text(&self) -> Seq<char> {
        lines_text(
            seq![
                "Name: "@ + self.name@,
                "Genres: "@ + join_text(texts(self.genres@), ", "@),
                "ID: "@ + self.id@,
            ],
        )
    }

    fn to_string(&self) -> (r: String) {
        let mut lines: Vec<String> = Vec::new();
        lines.push(labelled("Name: ", self.name.as_str()));
        lines.push(labelled("Genres: ", join(&self.genres, ", ").as_str()));
        lines.push(labelled("ID: ", self.id.as_str()));
        assert(texts(lines@) =~= seq![
            "Name: "@ + self.name@,
            "Genres: "@ + join_text(texts(self.genres@), ", "@),
            "ID: "@ + self.id@,
        ]);
        join(&lines, "\n")
    }
}

impl Describe for SpotifyTrack {
    open spec fn text(&self) -> Seq<char> {
        lines_text(
            seq![
                "Name: "@ + self.name@,
                "Album: "@ + self.album.name@ + " (ID = "@ + self.album.id@ + ")"@,
                "Artist(s): "@ + join_text(artist_names(self.artists@), ", "@),
                "ID: "@ + self.id@,
            ],
        )
    }

    fn to_string(&self) -> (r: String) {
        let mut album = labelled("Album: ", self.album.name.as_str());
        album.append(" (ID = ");
        album.append(self.album.id.as_str());
        album.append(")");
        four_lines(
            labelled("Name: ", self.name.as_str()),
            album,
            labelled("Artist(s): ", names_joined(&self.artists).as_str()),
            labelled("ID: ", self.id.as_str()),
        )
    }
}

impl Describe for SpotifyContext {
    open spec fn text(&self) -> Seq<char> {
        lines_text(
            seq![
                "URI: "@ + self.uri@,
                "Href: "@ + self.href@,
                "External URLs: "@ + self.external_urls.text(),
                "Context Type: "@ + self.context_type@,
            ],
        )
    }

    fn to_string(&self) -> (r: String) {
        four_lines(
            labelled("URI: ", self.uri.as_str()),
            labelled("Href: ", self.href.as_str()),
            labelled("External URLs: ", self.external_urls.to_string().as_str()),
            labelled("Context Type: ", self.context_type.as_str()),
        )
    }
}

impl Describe for SpotifySimplifiedAlbum {
    open spec fn text(&self) -> Seq<char> {
        lines_text(
            seq![
                "Name: "@ + self.name@,
                "Album: "@ + self.album_type@,
                "Length: "@ + decimal_text(self.total_tracks as nat) + " Tracks"@,
                "Artist(s): "@ + join_text(artist_names(self.artists@), ", "@),
                "Release Date: "@ + self.release_date@,
                "ID: "@ + self.id@,
            ],
        )
    }

    fn to_string(&self) -> (r: String) {
        let mut length = labelled("Length: ", decimal(self.total_tracks as u64).as_str());
        length.append(" Tracks");
        let mut lines: Vec<String> = Vec::new();
        lines.push(labelled("Name: ", self.name.as_str()));
        lines.push(labelled("Album: ", self.album_type.as_str()));
        lines.push(length);
        lines.push(labelled("Artist(s): ", names_joined(&self.artists).as_str()));
        lines.push(labelled("Release Date: ", self.release_date.as_str()));
        lines.push(labelled("ID: ", self.id.as_str()));
        assert(texts(lines@) =~= seq![
            "Name: "@ + self.name@,
            "Album: "@ + self.album_type@,
            "Length: "@ + decimal_text(self.total_tracks as nat) + " Tracks"@,
            "Artist(s): "@ + join_text(artist_names(self.artists@), ", "@),
            "Release Date: "@ + self.release_date@,
            "ID: "@ + self.id@,
        ]);
        join(&lines, "\n")
    }
}

impl Describe for CurrentTrack {
    open spec fn text(&self) -> Seq<char> {
        (match self.item {
            Some(track) => track.text(),
            None => "No track information available"@,
        }) + "\n\n"@ + (match self.context {
            Some(context) => "CONTEXT:\n"@ + context.text(),
            None => "No context information available"@,
        })
    }

    fn to_string(&self) -> (r: String) {
        let mut r = match &self.item {
            Some(track) => track.to_string(),
            None => String::from_str("No track information available"),
        };
        r.append("\n\n");
        match &self.context {
            Some(context) => {
                r.append("CONTEXT:\n");
                r.append(context.to_string().as_str());
            },
            None => {
                r.append("No context information available");
            },
        }
        assert(r@ =~= self.text());
        r
    }
}

/// The text that shows what a search found of one kind: the items, with a
/// blank line between each two; or that nothing came back.
pub open spec fn search_results_text<T: Describe>(results: Option<Vec<T>>) -> Seq<char> {
    match results {
        Some(items) => join_text(described(items@), "\n\n"@),
        None => "No search results returned"@,
    }
}

/// The text that shows what a search found of one kind.
pub fn spotify_search_results_to_string<T: Describe>(results: Option<Vec<T>>) -> (r: String)
    ensures
        r@ == search_results_text(results),
{
    match results {
        Some(items) => describe_joined(&items, "\n\n"),
        None => String::from_str("No search results returned"),
    }
}

/// The items of `items` that are there, in order.
pub open spec fn present<T>(items: Seq<Option<T>>) -> Seq<T>
    decreases items.len(),
{
    if items.len() == 0 {
        Seq::empty()
    } else {
        match items.last() {
            Some(item) => present(items.drop_last()).push(item),
            None => present(items.drop_last()),
        }
    }
}

/// The list behind a field that may be missing and whose items may be
/// null: the items that are there, in order; none where the field is
/// missing.
pub fn skip_null<T>(items: Option<Vec<Option<T>>>) -> (r: Vec<T>)
    ensures
        r@ == match items {
            Some(list) => present(list@),
            None => Seq::empty(),
        },
{
    match items {
        Some(list) => {
            let ghost all = list@;
            let mut list = list;
            let mut r: Vec<T> = Vec::new();
            let mut rest: Vec<T> = Vec::new();
            while list.len() > 0
                invariant
                    present(all) == present(list@) + rest@.reverse(),
                decreases list.len(),
            {
                let ghost before = list@;
                let last = list.pop();
                proof {
                    assert(list@ =~= before.drop_last());
                }
                match last {
                    Some(Some(item)) => {
                        rest.push(item);
                        proof {
                            assert(present(before) == present(list@).push(item));
                            assert(rest@.reverse() =~= seq![item] + rest@.drop_last().reverse());
                            assert(present(list@).push(item) + rest@.drop_last().reverse()
                                =~= present(list@) + rest@.reverse());
                        }
                    },
                    _ => {},
                }
            }
            assert(present(list@) =~= Seq::<T>::empty());
            while rest.len() > 0
                invariant
                    present(all) == r@ + rest@.reverse(),
                decreases rest.len(),
            {
                let ghost before = rest@;
                let item = rest.pop();
                match item {
                    Some(item) => {
                        r.push(item);
                        proof {
                            assert(rest@ =~= before.drop_last());
                            assert(before.reverse() =~= seq![item] + rest@.reverse());
                            assert(r@ + rest@.reverse() =~= r@.drop_last() + before.reverse());
                        }
                    },
                    None => {},
                }
            }
            assert(r@ + rest@.reverse() =~= r@);
            r
        },
        None => Vec::new(),
    }
}

} // verus!

//! Plain data shapes exchanged with the music catalog: one row of a
//! search result, the search domain selector, and the decoded shape of
//! the play-url (vkey) response.

use vstd::prelude::*;

verus! {

/// One track of a search result: catalog id, title, and the performers
/// joined into one display string. Order of a `Vec<MusicPlayList>` is
/// the relevance order returned by the catalog.
#[derive(Debug, Clone, PartialEq)]
pub struct MusicPlayList {
    pub id: String,
    pub name: String,
    pub player: String,
}

/// The catalog's search domains. The numeric tag the search endpoint
/// expects is given by [`SearchType::code`].
#[derive(Debug, Clone, Copy, PartialEq, Eq, Structural)]
pub enum SearchType {
    Song,
    SongList,
    Album,
    Singer,
    Lyric,
    Mv,
}

impl SearchType {
    /// The wire code of each search domain.
    pub open spec fn spec_code(self) -> int {
        match self {
            SearchType::Song => 0,
            SearchType::SongList => 1,
            SearchType::Album => 2,
            SearchType::Singer => 3,
            SearchType::Lyric => 7,
            SearchType::Mv => 8,
        }
    }

    /// The numeric tag sent in the search request body.
    pub fn code(&self) -> (c: i32)
        ensures
            c == self.spec_code(),
    {
        match self {
            SearchType::Song => 0,
            SearchType::SongList => 1,
            SearchType::Album => 2,
            SearchType::Singer => 3,
            SearchType::Lyric => 7,
            SearchType::Mv => 8,
        }
    }
}

/// Decoded shape of the play-url (vkey) response body.
#[derive(Debug, Clone)]
pub struct ApiResponse {
    pub req_1: Req1,
}

/// The single request slot of the vkey response envelope.
#[derive(Debug, Clone)]
pub struct Req1 {
    pub data: Data,
}

/// Stream descriptor of the vkey response: edge-server URL prefixes and
/// one URL-path record per requested track id.
#[derive(Debug, Clone)]
pub struct Data {
    pub sip: Vec<String>,
    pub midurlinfo: Vec<MidUrlInfo>,
}

/// One per-track record of the vkey response; `purl` is the signed URL
/// path, empty when the catalog declined to resolve the track.
#[derive(Debug, Clone)]
pub struct MidUrlInfo {
    pub purl: String,
}

} // verus!

//! Catalog Client core: building the two request envelopes the music
//! service understands and mapping its decoded responses. The HTTP
//! round trip itself is an outside collaborator; these functions state
//! exactly which response shapes succeed and which fail.

use vstd::prelude::*;
use crate::error::QQMusicError;
use crate::structs::{ApiResponse, MusicPlayList, SearchType};

verus! {

/// The fields of the vkey (play-url) request envelope.
#[derive(Debug, Clone)]
pub struct ResolveRequest {
    pub module: String,
    pub method: String,
    pub guid: String,
    pub songmid: Vec<String>,
    pub uin: String,
    pub platform: String,
}

/// The vkey request for one track id: fixed module, method and client
/// fields, and the single requested id.
pub fn build_resolve_request(songmid: &str) -> (r: ResolveRequest)
    ensures
        r.module@ == "vkey.GetVkeyServer"@,
        r.method@ == "CgiGetVkey"@,
        r.guid@ == "10000"@,
        r.songmid@.len() == 1,
        r.songmid@[0]@ == songmid@,
        r.uin@ == "0"@,
        r.platform@ == "20"@,
{
    let mut songmids: Vec<String> = Vec::new();
    songmids.push(songmid.to_owned());
    ResolveRequest {
        module: "vkey.GetVkeyServer".to_owned(),
        method: "CgiGetVkey".to_owned(),
        guid: "10000".to_owned(),
        songmid: songmids,
        uin: "0".to_owned(),
        platform: "20".to_owned(),
    }
}

/// The fields of the search request envelope.
#[derive(Debug, Clone)]
pub struct SearchRequest {
    pub module: String,
    pub method: String,
    pub query: String,
    pub num_per_page: u32,
    pub page_num: u32,
    pub search_type: i32,
    pub remoteplace: String,
}

/// The search request for one keyword: first page of ten song results.
pub fn build_search_request(keyword: &str) -> (r: SearchRequest)
    ensures
        r.module@ == "music.search.SearchCgiService"@,
        r.method@ == "DoSearchForQQMusicDesktop"@,
        r.query@ == keyword@,
        r.num_per_page == 10,
        r.page_num == 1,
        r.search_type == SearchType::Song.spec_code(),
        r.remoteplace@ == "txt.yqq.top"@,
{
    SearchRequest {
        module: "music.search.SearchCgiService".to_owned(),
        method: "DoSearchForQQMusicDesktop".to_owned(),
        query: keyword.to_owned(),
        num_per_page: 10,
        page_num: 1,
        search_type: SearchType::Song.code(),
        remoteplace: "txt.yqq.top".to_owned(),
    }
}

/// Whether a vkey response carries a usable stream descriptor: an
/// edge-server prefix and a non-empty signed path for the track.
pub open spec fn resolvable(resp: ApiResponse) -> bool {
    &&& resp.req_1.data.sip@.len() > 0
    &&& resp.req_1.data.midurlinfo@.len() > 0
    &&& resp.req_1.data.midurlinfo@[0].purl@.len() > 0
}

/// The play URL a usable response resolves to: first edge-server
/// prefix followed by the first signed path.
pub open spec fn resolved_url(resp: ApiResponse) -> Seq<char> {
    resp.req_1.data.sip@[0]@ + resp.req_1.data.midurlinfo@[0].purl@
}

/// Map a decoded vkey response to the track's play URL. Succeeds
/// exactly on a usable stream descriptor and never returns a
/// partially-built or empty URL; a response with no prefix, no
/// per-track record, or an empty signed path is the resolve failure.
pub fn get_play_url(resp: &ApiResponse) -> (r: Result<String, QQMusicError>)
    ensures
        resolvable(*resp) ==> (r matches Ok(u) && u@ == resolved_url(*resp)),
        !resolvable(*resp) ==> r == Err::<String, QQMusicError>(QQMusicError::QQMusicPlayError),
{
    if resp.req_1.data.sip.len() > 0 && resp.req_1.data.midurlinfo.len() > 0 {
        let purl = &resp.req_1.data.midurlinfo[0].purl;
        if !purl.as_str().is_empty() {
            let sip0 = &resp.req_1.data.sip[0];
            let url = sip0.clone().concat(purl.as_str());
            return Ok(url);
        }
    }
    Err(QQMusicError::QQMusicPlayError)
}

/// One song record of the search response: track id, title, and the
/// names of its performers.
#[derive(Debug, Clone)]
pub struct SongItem {
    pub mid: String,
    pub name: String,
    pub singers: Vec<String>,
}

/// The decoded body of a search response: the song list, or nothing
/// when the response carried no song field at all. A present-but-empty
/// list is a successful search with zero results.
#[derive(Debug, Clone)]
pub struct SearchBody {
    pub song_list: Option<Vec<SongItem>>,
}

/// The performers of one track joined with `" / "`.
pub open spec fn joined_singers(l: Seq<String>) -> Seq<char>
    decreases l.len(),
{
    if l.len() == 0 {
        Seq::<char>::empty()
    } else if l.len() == 1 {
        l[0]@
    } else {
        joined_singers(l.drop_last()) + " / "@ + l.last()@
    }
}

/// Join performer names with `" / "`, in order.
pub fn join_singers(l: &Vec<String>) -> (r: String)
    ensures
        r@ == joined_singers(l@),
{
    let mut out = String::new();
    let mut i: usize = 0;
    proof {
        assert(l@.take(0) =~= Seq::<String>::empty());
    }
    while i < l.len()
        invariant
            i <= l@.len(),
            out@ == joined_singers(l@.take(i as int)),
        decreases l@.len() - i,
    {
        if i > 0 {
            out.append(" / ");
        }
        out.append(l[i].as_str());
        proof {
            let t = l@.take(i + 1);
            assert(t.drop_last() =~= l@.take(i as int));
            assert(t.last() == l@[i as int]);
        }
        i += 1;
    }
    proof {
        assert(l@.take(l@.len() as int) =~= l@);
    }
    out
}

/// Whether `row` is the display row of `item`.
pub open spec fn row_matches(row: MusicPlayList, item: SongItem) -> bool {
    &&& row.id@ == item.mid@
    &&& row.name@ == item.name@
    &&& row.player@ == joined_singers(item.singers@)
}

/// Map a decoded search response to the ordered result list. A
/// response with no song field at all is the search failure; a present
/// list — empty included — succeeds, each record keeping its position,
/// id and title, with performers joined for display.
pub fn map_search_response(body: &SearchBody) -> (r: Result<Vec<MusicPlayList>, QQMusicError>)
    ensures
        body.song_list is None ==> r == Err::<Vec<MusicPlayList>, QQMusicError>(
            QQMusicError::QQMusicPlaylistError,
        ),
        body.song_list matches Some(items) ==> (r matches Ok(list) && list@.len() == items@.len()
            && (forall|i: int|
            0 <= i < items@.len() ==> row_matches(#[trigger] list@[i], items@[i]))),
{
    let items = match &body.song_list {
        Some(items) => items,
        None => {
            return Err(QQMusicError::QQMusicPlaylistError);
        },
    };
    let mut list: Vec<MusicPlayList> = Vec::new();
    let mut i: usize = 0;
    while i < items.len()
        invariant
            i <= items@.len(),
            list@.len() == i,
            forall|k: int| 0 <= k < i ==> row_matches(#[trigger] list@[k], items@[k]),
        decreases items@.len() - i,
    {
        let item = &items[i];
        let player = join_singers(&item.singers);
        list.push(MusicPlayList { id: item.mid.clone(), name: item.name.clone(), player });
        i += 1;
    }
    Ok(list)
}

} // verus!

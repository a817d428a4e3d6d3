//! The video-platform client: keyword search, the videos of a channel, and
//! the details of videos by their identifiers, with the shaping of what
//! comes back into video records.

use crate::error::{outcome_of, Fault, ServiceError};
use crate::http::{HttpRequest, Method, Pairs, RequestModel};
use crate::http::{is_success, succeeded};
use crate::json::{docs_of, outcome_view, Doc, Json};
use crate::response::{VideoModel, VideoRecord};
use crate::text::{count_of, parse_count};
use vstd::prelude::*;
use vstd::string::StringExecFns;

verus! {

/// How many videos a keyword search asks for and keeps.
pub const SEARCH_CAP: usize = 20;

/// How many recent videos of a channel are asked for and kept.
pub const RECENT_CAP: usize = 5;

/// The address of the platform's search.
pub open spec fn search_url() -> Seq<char> {
    "https://www.googleapis.com/youtube/v3/search"@
}

/// The address of the platform's video details.
pub open spec fn videos_url() -> Seq<char> {
    "https://www.googleapis.com/youtube/v3/videos"@
}

/// What stands before the identifier in the address of a watch page.
pub open spec fn watch_prefix() -> Seq<char> {
    "https://www.youtube.com/watch?v="@
}

/// The call that searches videos by keyword, at most twenty of them.
pub open spec fn keyword_request(query: Seq<char>, key: Seq<char>) -> RequestModel {
    RequestModel {
        method: Method::Get,
        url: search_url(),
        query: seq![
            ("part"@, "snippet"@),
            ("q"@, query),
            ("type"@, "video"@),
            ("maxResults"@, "20"@),
            ("key"@, key),
        ],
        headers: Seq::empty(),
        body: None,
    }
}

/// The call that lists the videos of a channel, the newest first, at most
/// five of them.
pub open spec fn channel_request(channel_id: Seq<char>, key: Seq<char>) -> RequestModel {
    RequestModel {
        method: Method::Get,
        url: search_url(),
        query: seq![
            ("part"@, "snippet"@),
            ("channelId"@, channel_id),
            ("order"@, "date"@),
            ("type"@, "video"@),
            ("maxResults"@, "5"@),
            ("key"@, key),
        ],
        headers: Seq::empty(),
        body: None,
    }
}

/// The identifiers with a comma between each two.
pub open spec fn joined(ids: Seq<Seq<char>>) -> Seq<char>
    decreases ids.len(),
{
    if ids.len() == 0 {
        Seq::empty()
    } else if ids.len() == 1 {
        ids[0]
    } else {
        joined(ids.drop_last()) + ","@ + ids.last()
    }
}

/// The one call that fetches snippet and statistics of all of `ids`.
pub open spec fn details_request(ids: Seq<Seq<char>>, key: Seq<char>) -> RequestModel {
    RequestModel {
        method: Method::Get,
        url: videos_url(),
        query: seq![("part"@, "snippet,statistics"@), ("id"@, joined(ids)), ("key"@, key)],
        headers: Seq::empty(),
        body: None,
    }
}

fn get_request(url: &str, query: Pairs) -> (r: HttpRequest)
    ensures
        r.deep_view() == (RequestModel {
            method: Method::Get,
            url: url@,
            query: query.items.deep_view(),
            headers: Seq::empty(),
            body: None,
        }),
{
    let headers = Pairs::new();
    HttpRequest {
        method: Method::Get,
        url: url.to_owned(),
        query: query.items,
        headers: headers.items,
        body: None,
    }
}

/// Builds the call that searches videos by keyword.
pub fn search_by_keyword(query: &str, key: &str) -> (r: HttpRequest)
    ensures
        r.deep_view() == keyword_request(query@, key@),
{
    let pairs = Pairs::new().with("part", "snippet").with("q", query).with("type", "video").with(
        "maxResults",
        "20",
    ).with("key", key);
    assert(pairs.items.deep_view() =~= keyword_request(query@, key@).query);
    get_request("https://www.googleapis.com/youtube/v3/search", pairs)
}

/// Builds the call that lists the newest videos of a channel.
pub fn search_by_channel(channel_id: &str, key: &str) -> (r: HttpRequest)
    ensures
        r.deep_view() == channel_request(channel_id@, key@),
{
    let pairs = Pairs::new().with("part", "snippet").with("channelId", channel_id).with(
        "order",
        "date",
    ).with("type", "video").with("maxResults", "5").with("key", key);
    assert(pairs.items.deep_view() =~= channel_request(channel_id@, key@).query);
    get_request("https://www.googleapis.com/youtube/v3/search", pairs)
}

/// Writes the identifiers with a comma between each two.
pub fn join_ids(ids: &Vec<String>) -> (r: String)
    ensures
        r@ == joined(ids.deep_view()),
{
    let ghost all = ids.deep_view();
    let mut out = String::new();
    let mut i: usize = 0;
    while i < ids.len()
        invariant
            i <= ids.len(),
            all == ids.deep_view(),
            out@ == joined(all.take(i as int)),
        decreases ids.len() - i,
    {
        assert(all.take(i + 1).drop_last() =~= all.take(i as int));
        if i > 0 {
            out.append(",");
        }
        out.append(ids[i].as_str());
        i += 1;
    }
    assert(all.take(i as int) =~= all);
    out
}

/// Builds the one call that fetches the details of all of `ids`.
pub fn details_of(ids: &Vec<String>, key: &str) -> (r: HttpRequest)
    ensures
        r.deep_view() == details_request(ids.deep_view(), key@),
{
    let list = join_ids(ids);
    let pairs = Pairs::new().with("part", "snippet,statistics").with("id", list.as_str()).with(
        "key",
        key,
    );
    assert(pairs.items.deep_view() =~= details_request(ids.deep_view(), key@).query);
    get_request("https://www.googleapis.com/youtube/v3/videos", pairs)
}

/// The document in an answer of the platform. A status other than success
/// is an error that keeps the status; a body that is no JSON is malformed.
pub open spec fn answer_doc(status: u16, parsed: Result<Doc, Seq<char>>) -> Result<Doc, Fault> {
    if !is_success(status) {
        Err(Fault::PlatformStatus(status))
    } else {
        match parsed {
            Ok(doc) => Ok(doc),
            Err(_) => Err(Fault::PlatformMalformed),
        }
    }
}

/// Checks the status of an answer of the platform and hands on its document.
pub fn answer_from(status: u16, parsed: Result<Json, String>) -> (r: Result<Json, ServiceError>)
    ensures
        outcome_of(r) == answer_doc(status, outcome_view(parsed)),
{
    if !succeeded(status) {
        return Err(ServiceError::PlatformStatus(status));
    }
    match parsed {
        Ok(doc) => Ok(doc),
        Err(_) => Err(ServiceError::PlatformMalformed),
    }
}

/// The identifier of the video that a search hit names.
pub open spec fn hit_id(item: Doc) -> Option<Seq<char>> {
    match item.get("id"@) {
        Some(id) => id.text_at("videoId"@),
        None => None,
    }
}

/// The identifiers that a list of search hits names, in order; a hit that
/// names none is passed over.
pub open spec fn hit_ids(items: Seq<Doc>) -> Seq<Seq<char>>
    decreases items.len(),
{
    if items.len() == 0 {
        Seq::empty()
    } else {
        match hit_id(items.last()) {
            Some(id) => hit_ids(items.drop_last()).push(id),
            None => hit_ids(items.drop_last()),
        }
    }
}

/// The first `cap` items of a list, or all of it where it is shorter.
pub open spec fn capped<T>(s: Seq<T>, cap: int) -> Seq<T> {
    if s.len() <= cap {
        s
    } else {
        s.take(cap)
    }
}

/// The identifiers that an answer to a search names, at most `cap` of them.
/// An answer without a list of items is malformed.
pub open spec fn search_ids(doc: Doc, cap: int) -> Result<Seq<Seq<char>>, Fault> {
    match doc.items_at("items"@) {
        Some(items) => Ok(capped(hit_ids(items), cap)),
        None => Err(Fault::PlatformMalformed),
    }
}

fn id_of_hit(item: &Json) -> (r: Option<String>)
    ensures
        r.deep_view() == hit_id(item@),
{
    match item.get("id") {
        Some(id) => match id.text_at("videoId") {
            Some(s) => Some(s.clone()),
            None => None,
        },
        None => None,
    }
}

/// Collects the identifiers that an answer to a search names.
pub fn ids_from(doc: &Json, cap: usize) -> (r: Result<Vec<String>, ServiceError>)
    ensures
        outcome_of(r) == search_ids(doc@, cap as int),
        r matches Ok(v) ==> v.len() <= cap,
{
    let items = match doc.array_at("items") {
        Some(items) => items,
        None => { return Err(ServiceError::PlatformMalformed); },
    };
    let ghost docs = docs_of(items@);
    let mut out: Vec<String> = Vec::new();
    let mut i: usize = 0;
    while i < items.len()
        invariant
            i <= items.len(),
            docs == docs_of(items@),
            out.deep_view() == capped(hit_ids(docs.take(i as int)), cap as int),
            out.len() <= cap,
        decreases items.len() - i,
    {
        assert(docs.take(i + 1).drop_last() =~= docs.take(i as int));
        let ghost before = out.deep_view();
        match id_of_hit(&items[i]) {
            Some(id) => {
                if out.len() < cap {
                    out.push(id);
                    assert(out.deep_view() =~= before.push(id@));
                }
            },
            None => {},
        }
        i += 1;
    }
    assert(docs.take(i as int) =~= docs);
    Ok(out)
}

/// The text under `key`, or the empty text where there is none.
pub open spec fn text_or_empty(doc: Option<Doc>, key: Seq<char>) -> Seq<char> {
    match doc {
        Some(d) => match d.text_at(key) {
            Some(s) => s,
            None => Seq::empty(),
        },
        None => Seq::empty(),
    }
}

/// The address of the large thumbnail of an item, or the empty text.
pub open spec fn thumbnail_of(item: Doc) -> Seq<char> {
    match item.get("snippet"@) {
        Some(snippet) => match snippet.get("thumbnails"@) {
            Some(all) => text_or_empty(all.get("high"@), "url"@),
            None => Seq::empty(),
        },
        None => Seq::empty(),
    }
}

/// A count among the statistics of an item. The platform exposes counts as
/// text; a count that is missing, or that does not read as a count, is absent.
pub open spec fn statistic_of(item: Doc, key: Seq<char>) -> Option<u64> {
    match item.get("statistics"@) {
        Some(stats) => match stats.text_at(key) {
            Some(s) => count_of(s),
            None => None,
        },
        None => None,
    }
}

/// The record of an item of the details call. An item without an
/// identifier stands for no video; every other gap leaves a field empty or
/// absent.
pub open spec fn video_of(item: Doc) -> Option<VideoModel> {
    match item.text_at("id"@) {
        Some(id) => Some(
            VideoModel {
                title: text_or_empty(item.get("snippet"@), "title"@),
                published_date: text_or_empty(item.get("snippet"@), "publishedAt"@),
                channel_name: text_or_empty(item.get("snippet"@), "channelTitle"@),
                channel_id: text_or_empty(item.get("snippet"@), "channelId"@),
                thumbnail_url: thumbnail_of(item),
                view_count: statistic_of(item, "viewCount"@),
                like_count: statistic_of(item, "likeCount"@),
                url: watch_prefix() + id,
            },
        ),
        None => None,
    }
}

/// The records of a list of items, in order.
pub open spec fn videos_in(items: Seq<Doc>) -> Seq<VideoModel>
    decreases items.len(),
{
    if items.len() == 0 {
        Seq::empty()
    } else {
        match video_of(items.last()) {
            Some(v) => videos_in(items.drop_last()).push(v),
            None => videos_in(items.drop_last()),
        }
    }
}

/// The records that an answer to the details call holds, at most `cap` of
/// them. An answer without a list of items is malformed.
pub open spec fn details_videos(doc: Doc, cap: int) -> Result<Seq<VideoModel>, Fault> {
    match doc.items_at("items"@) {
        Some(items) => Ok(capped(videos_in(items), cap)),
        None => Err(Fault::PlatformMalformed),
    }
}

fn text_under(doc: Option<&Json>, key: &str) -> (r: String)
    ensures
        r@ == text_or_empty(doc.deep_view(), key@),
{
    match doc {
        Some(d) => match d.text_at(key) {
            Some(s) => s.clone(),
            None => String::new(),
        },
        None => String::new(),
    }
}

fn thumbnail_from(item: &Json) -> (r: String)
    ensures
        r@ == thumbnail_of(item@),
{
    match item.get("snippet") {
        Some(snippet) => match snippet.get("thumbnails") {
            Some(all) => text_under(all.get("high"), "url"),
            None => String::new(),
        },
        None => String::new(),
    }
}

fn statistic_from(item: &Json, key: &str) -> (r: Option<u64>)
    ensures
        r == statistic_of(item@, key@),
{
    match item.get("statistics") {
        Some(stats) => match stats.text_at(key) {
            Some(s) => parse_count(s.as_str()),
            None => None,
        },
        None => None,
    }
}

/// Shapes an item of the details call into a record.
pub fn video_from(item: &Json) -> (r: Option<VideoRecord>)
    ensures
        r.deep_view() == video_of(item@),
{
    match item.text_at("id") {
        Some(id) => {
            let snippet = item.get("snippet");
            Some(
                VideoRecord {
                    title: text_under(snippet, "title"),
                    published_date: text_under(snippet, "publishedAt"),
                    channel_name: text_under(snippet, "channelTitle"),
                    channel_id: text_under(snippet, "channelId"),
                    thumbnail_url: thumbnail_from(item),
                    view_count: statistic_from(item, "viewCount"),
                    like_count: statistic_from(item, "likeCount"),
                    url: "https://www.youtube.com/watch?v=".to_owned().concat(id.as_str()),
                },
            )
        },
        None => None,
    }
}

/// Shapes an answer to the details call into records.
pub fn videos_from(doc: &Json, cap: usize) -> (r: Result<Vec<VideoRecord>, ServiceError>)
    ensures
        outcome_of(r) == details_videos(doc@, cap as int),
        r matches Ok(v) ==> v.len() <= cap,
{
    let items = match doc.array_at("items") {
        Some(items) => items,
        None => { return Err(ServiceError::PlatformMalformed); },
    };
    let ghost docs = docs_of(items@);
    let mut out: Vec<VideoRecord> = Vec::new();
    let mut i: usize = 0;
    while i < items.len()
        invariant
            i <= items.len(),
            docs == docs_of(items@),
            out.deep_view() == capped(videos_in(docs.take(i as int)), cap as int),
            out.len() <= cap,
        decreases items.len() - i,
    {
        assert(docs.take(i + 1).drop_last() =~= docs.take(i as int));
        let ghost before = out.deep_view();
        match video_from(&items[i]) {
            Some(video) => {
                if out.len() < cap {
                    out.push(video);
                    assert(out.deep_view() =~= before.push(video.deep_view()));
                }
            },
            None => {},
        }
        i += 1;
    }
    assert(docs.take(i as int) =~= docs);
    Ok(out)
}

/// The channel that the metadata of a video names: its identifier and its
/// name. Metadata without a channel identifier is an error of its own; a
/// missing name is the empty text.
pub open spec fn channel_of(doc: Doc) -> Result<(Seq<char>, Seq<char>), Fault> {
    match doc.items_at("items"@) {
        Some(items) => if items.len() == 0 {
            Err(Fault::ChannelIdNotFound)
        } else {
            match items[0].get("snippet"@) {
                Some(snippet) => match snippet.text_at("channelId"@) {
                    Some(id) => Ok((id, text_or_empty(Some(snippet), "channelTitle"@))),
                    None => Err(Fault::ChannelIdNotFound),
                },
                None => Err(Fault::ChannelIdNotFound),
            }
        },
        None => Err(Fault::PlatformMalformed),
    }
}

/// Reads the channel out of the metadata of a video.
pub fn channel_from(doc: &Json) -> (r: Result<(String, String), ServiceError>)
    ensures
        outcome_of(r) == channel_of(doc@),
{
    let items = match doc.array_at("items") {
        Some(items) => items,
        None => { return Err(ServiceError::PlatformMalformed); },
    };
    if items.len() == 0 {
        return Err(ServiceError::ChannelIdNotFound);
    }
    match items[0].get("snippet") {
        Some(snippet) => match snippet.text_at("channelId") {
            Some(id) => Ok((id.clone(), text_under(Some(snippet), "channelTitle"))),
            None => Err(ServiceError::ChannelIdNotFound),
        },
        None => Err(ServiceError::ChannelIdNotFound),
    }
}

} // verus!

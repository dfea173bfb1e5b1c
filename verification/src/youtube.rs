use vstd::prelude::*;

verus! {

/// A JSON document as the video search service answers it. Numbers are
/// kept as their text, since nothing here computes with them.
#[derive(Debug)]
pub enum JsonValue {
    Null,
    Bool(bool),
    Number(String),
    Str(String),
    Array(Vec<JsonValue>),
    Object(Vec<(String, JsonValue)>),
}

/// The value stored under `key` among `entries`; the first entry with
/// that key counts, and a missing key gives `Null`.
pub open spec fn lookup(entries: Seq<(String, JsonValue)>, key: Seq<char>) -> JsonValue
    decreases entries.len(),
{
    if entries.len() == 0 {
        JsonValue::Null
    } else if entries[0].0@ == key {
        entries[0].1
    } else {
        lookup(entries.skip(1), key)
    }
}

/// `v[key]`: the member `key` of an object, `Null` for anything else.
pub open spec fn member(v: JsonValue, key: Seq<char>) -> JsonValue {
    match v {
        JsonValue::Object(entries) => lookup(entries@, key),
        _ => JsonValue::Null,
    }
}

/// The text of a JSON string.
pub open spec fn as_str(v: JsonValue) -> Option<Seq<char>> {
    match v {
        JsonValue::Str(s) => Some(s@),
        _ => None,
    }
}

/// The elements of a JSON array.
pub open spec fn as_array(v: JsonValue) -> Option<Seq<JsonValue>> {
    match v {
        JsonValue::Array(items) => Some(items@),
        _ => None,
    }
}

/// A value that may be absent, absence standing for `Null`.
pub open spec fn or_null(o: Option<&JsonValue>) -> JsonValue {
    match o {
        Some(v) => *v,
        None => JsonValue::Null,
    }
}

/// One video found by a search.
#[derive(Debug, Clone, PartialEq, Eq)]
pub struct SearchResult {
    pub id: String,
    pub title: String,
    pub thumbnail_url: String,
}

/// The mathematical value of a [`SearchResult`].
pub struct SearchHit {
    pub id: Seq<char>,
    pub title: Seq<char>,
    pub thumbnail_url: Seq<char>,
}

impl View for SearchResult {
    type V = SearchHit;

    open spec fn view(&self) -> SearchHit {
        SearchHit { id: self.id@, title: self.title@, thumbnail_url: self.thumbnail_url@ }
    }
}

/// The search hit that an element of the `items` of a search response
/// describes: its `id.videoId`, `snippet.title` and
/// `snippet.thumbnails.medium.url`, each of which must be a string.
pub open spec fn hit_of(item: JsonValue) -> Option<SearchHit> {
    let id = as_str(member(member(item, "id"@), "videoId"@));
    let snippet = member(item, "snippet"@);
    let title = as_str(member(snippet, "title"@));
    let thumb = as_str(member(member(member(snippet, "thumbnails"@), "medium"@), "url"@));
    if id is Some && title is Some && thumb is Some {
        Some(SearchHit { id: id.unwrap(), title: title.unwrap(), thumbnail_url: thumb.unwrap() })
    } else {
        None
    }
}

/// The hits of a search response, in the order of its `items`; `None`
/// where `items` is not an array or an element lacks one of the strings.
pub open spec fn search_hits(resp: JsonValue) -> Option<Seq<SearchHit>> {
    match as_array(member(resp, "items"@)) {
        Some(items) => if forall|i: int| 0 <= i < items.len() ==> (#[trigger] hit_of(items[i])) is Some {
            Some(items.map_values(|it: JsonValue| hit_of(it).unwrap()))
        } else {
            None
        },
        None => None,
    }
}

/// A search keeps the videos its response lists: as many, in the same
/// order, each read from its own item.
pub proof fn law_search_keeps_items(resp: JsonValue)
    ensures
        search_hits(resp) matches Some(h) ==> {
            &&& as_array(member(resp, "items"@)) matches Some(items)
            &&& h.len() == items.len()
            &&& forall|i: int| 0 <= i < h.len() ==> hit_of(items[i]) == Some(#[trigger] h[i])
        },
{
}

/// The address at which a video can be watched.
pub open spec fn watch_url_of(video_id: Seq<char>) -> Seq<char> {
    "https://www.youtube.com/watch?v="@ + video_id
}

/// The watch address of the first element of the `items` of a video
/// lookup response, whose `id` must be a string.
pub open spec fn watch_url_in(resp: JsonValue) -> Option<Seq<char>> {
    match as_array(member(resp, "items"@)) {
        Some(items) => if items.len() > 0 {
            match as_str(member(items[0], "id"@)) {
                Some(id) => Some(watch_url_of(id)),
                None => None,
            }
        } else {
            None
        },
        None => None,
    }
}

/// The address of a search for videos matching `query`, ten at most.
pub open spec fn search_url(query: Seq<char>, api_key: Seq<char>) -> Seq<char> {
    "https://www.googleapis.com/youtube/v3/search?part=snippet&q="@ + query + "&key="@ + api_key
        + "&maxResults=10&type=video"@
}

/// The address of a lookup of the video `video_id`.
pub open spec fn video_url(video_id: Seq<char>, api_key: Seq<char>) -> Seq<char> {
    "https://www.googleapis.com/youtube/v3/videos?id="@ + video_id + "&key="@ + api_key
        + "&part=snippet"@
}

/// `v[key]`, where an absent value stands for `Null`.
fn member_of<'a>(v: Option<&'a JsonValue>, key: &String) -> (r: Option<&'a JsonValue>)
    ensures
        or_null(r) == member(or_null(v), key@),
{
    match v {
        Some(JsonValue::Object(entries)) => {
            let mut i: usize = 0;
            assert(entries@.skip(0) =~= entries@);
            while i < entries.len()
                invariant
                    i <= entries.len(),
                    member(or_null(v), key@) == lookup(entries@, key@),
                    lookup(entries@, key@) == lookup(entries@.skip(i as int), key@),
                decreases entries.len() - i,
            {
                assert(entries@.skip(i as int).skip(1) =~= entries@.skip(i + 1));
                assert(entries@.skip(i as int)[0] == entries@[i as int]);
                if entries[i].0 == *key {
                    return Some(&entries[i].1);
                }
                i = i + 1;
            }
            None
        },
        _ => None,
    }
}

/// The text of a JSON string.
fn str_of(v: Option<&JsonValue>) -> (r: Option<String>)
    ensures
        match r {
            Some(s) => as_str(or_null(v)) == Some(s@),
            None => as_str(or_null(v)) is None,
        },
{
    match v {
        Some(JsonValue::Str(s)) => Some(s.clone()),
        _ => None,
    }
}

/// The search hit an element of a search response describes.
fn hit_from(item: &JsonValue) -> (r: Option<SearchResult>)
    ensures
        match r {
            Some(h) => hit_of(*item) == Some(h@),
            None => hit_of(*item) is None,
        },
{
    let k_id = String::from_str("id");
    let k_video_id = String::from_str("videoId");
    let k_snippet = String::from_str("snippet");
    let k_title = String::from_str("title");
    let k_thumbnails = String::from_str("thumbnails");
    let k_medium = String::from_str("medium");
    let k_url = String::from_str("url");
    let id = str_of(member_of(member_of(Some(item), &k_id), &k_video_id));
    let snippet = member_of(Some(item), &k_snippet);
    let title = str_of(member_of(snippet, &k_title));
    let thumb = str_of(
        member_of(member_of(member_of(snippet, &k_thumbnails), &k_medium), &k_url),
    );
    match (id, title, thumb) {
        (Some(id), Some(title), Some(thumbnail_url)) => Some(
            SearchResult { id, title, thumbnail_url },
        ),
        _ => None,
    }
}

/// The videos a search response lists, in order. `None` where the
/// response has no `items` array or an item lacks its video id, title or
/// thumbnail address; a search then fails.
pub fn search_results(resp: &JsonValue) -> (r: Option<Vec<SearchResult>>)
    ensures
        match r {
            Some(v) => search_hits(*resp) == Some(v@.map_values(|x: SearchResult| x@)),
            None => search_hits(*resp) is None,
        },
{
    let k_items = String::from_str("items");
    let items = member_of(Some(resp), &k_items);
    match items {
        Some(JsonValue::Array(items)) => {
            let mut out: Vec<SearchResult> = Vec::new();
            let mut i: usize = 0;
            while i < items.len()
                invariant
                    i <= items.len(),
                    as_array(member(*resp, "items"@)) == Some(items@),
                    out@.len() == i,
                    forall|j: int| 0 <= j < i ==> hit_of(items@[j]) == Some(#[trigger] out@[j]@),
                decreases items.len() - i,
            {
                match hit_from(&items[i]) {
                    Some(h) => {
                        out.push(h);
                    },
                    None => {
                        assert(hit_of(items@[i as int]) is None);
                        return None;
                    },
                }
                i = i + 1;
            }
            assert forall|j: int| 0 <= j < items@.len() implies (#[trigger] hit_of(
                items@[j],
            )) is Some by {
                assert(hit_of(items@[j]) == Some(out@[j]@));
            }
            assert(out@.map_values(|x: SearchResult| x@) =~= items@.map_values(
                |it: JsonValue| hit_of(it).unwrap(),
            ));
            Some(out)
        },
        _ => None,
    }
}

/// The address at which the video `video_id` can be watched.
pub fn watch_url(video_id: &str) -> (r: String)
    ensures
        r@ == watch_url_of(video_id@),
{
    let mut u = String::from_str("https://www.youtube.com/watch?v=");
    u.append(video_id);
    u
}

/// The watch address of the video a lookup response describes; `None`
/// where the response has no first item with a string `id`, where the
/// lookup fails.
pub fn watch_url_from_response(resp: &JsonValue) -> (r: Option<String>)
    ensures
        match r {
            Some(u) => watch_url_in(*resp) == Some(u@),
            None => watch_url_in(*resp) is None,
        },
{
    let k_items = String::from_str("items");
    let k_id = String::from_str("id");
    match member_of(Some(resp), &k_items) {
        Some(JsonValue::Array(items)) => {
            if items.len() == 0 {
                return None;
            }
            match str_of(member_of(Some(&items[0]), &k_id)) {
                Some(id) => Some(watch_url(id.as_str())),
                None => None,
            }
        },
        _ => None,
    }
}

/// A client of the video search service.
pub struct Youtube {
    api_key: String,
}

impl Youtube {
    /// The key the service is asked with.
    pub closed spec fn key(&self) -> Seq<char> {
        self.api_key@
    }

    pub fn new(api_key: &str) -> (r: Youtube)
        ensures
            r.key() == api_key@,
    {
        Youtube { api_key: String::from_str(api_key) }
    }

    /// The address to ask for the videos matching `query`.
    pub fn search_request_url(&self, query: &str) -> (r: String)
        ensures
            r@ == search_url(query@, self.key()),
    {
        let mut u = String::from_str("https://www.googleapis.com/youtube/v3/search?part=snippet&q=");
        u.append(query);
        u.append("&key=");
        u.append(self.api_key.as_str());
        u.append("&maxResults=10&type=video");
        u
    }

    /// The address to ask for the video `video_id`.
    pub fn video_request_url(&self, video_id: &str) -> (r: String)
        ensures
            r@ == video_url(video_id@, self.key()),
    {
        let mut u = String::from_str("https://www.googleapis.com/youtube/v3/videos?id=");
        u.append(video_id);
        u.append("&key=");
        u.append(self.api_key.as_str());
        u.append("&part=snippet");
        u
    }
}

/// `v[key]` is the value of the first member named `key`, and `Null`
/// where there is none.
pub proof fn law_lookup_first_entry(entries: Seq<(String, JsonValue)>, key: Seq<char>, j: int)
    ensures
        0 <= j < entries.len() && entries[j].0@ == key && (forall|i: int|
            0 <= i < j ==> (#[trigger] entries[i]).0@ != key) ==> lookup(entries, key)
            == entries[j].1,
        (forall|i: int| 0 <= i < entries.len() ==> (#[trigger] entries[i]).0@ != key) ==> lookup(
            entries,
            key,
        ) == JsonValue::Null,
    decreases entries.len(),
{
    if entries.len() > 0 {
        let r = entries.skip(1);
        law_lookup_first_entry(r, key, j - 1);
        if 0 <= j < entries.len() && entries[j].0@ == key && (forall|i: int|
            0 <= i < j ==> (#[trigger] entries[i]).0@ != key) && j > 0 {
            assert(entries[0].0@ != key);
            assert forall|i: int| 0 <= i < j - 1 implies (#[trigger] r[i]).0@ != key by {
                assert(r[i] == entries[i + 1]);
            }
            assert(r[j - 1] == entries[j]);
        }
        if forall|i: int| 0 <= i < entries.len() ==> (#[trigger] entries[i]).0@ != key {
            assert(entries[0].0@ != key);
            assert forall|i: int| 0 <= i < r.len() implies (#[trigger] r[i]).0@ != key by {
                assert(r[i] == entries[i + 1]);
            }
        }
    }
}

/// A search hit is read from its item's `id.videoId`,
/// `snippet.title` and `snippet.thumbnails.medium.url`, each a string;
/// an item lacking any of them is no hit.
pub proof fn law_hit_fields(item: JsonValue)
    ensures
        hit_of(item) matches Some(h) ==> {
            &&& as_str(member(member(item, "id"@), "videoId"@)) == Some(h.id)
            &&& as_str(member(member(item, "snippet"@), "title"@)) == Some(h.title)
            &&& as_str(
                member(
                    member(member(member(item, "snippet"@), "thumbnails"@), "medium"@),
                    "url"@,
                ),
            ) == Some(h.thumbnail_url)
        },
        (as_str(member(member(item, "id"@), "videoId"@)) is None || as_str(
            member(member(item, "snippet"@), "title"@),
        ) is None || as_str(
            member(member(member(member(item, "snippet"@), "thumbnails"@), "medium"@), "url"@),
        ) is None) ==> hit_of(item) is None,
{
}

/// A search fails where its response has no `items` array or one of
/// its items is no hit.
pub proof fn law_search_fails_on_bad_item(resp: JsonValue, i: int)
    ensures
        as_array(member(resp, "items"@)) is None ==> search_hits(resp) is None,
        (as_array(member(resp, "items"@)) matches Some(items) && 0 <= i < items.len() && hit_of(
            items[i],
        ) is None) ==> search_hits(resp) is None,
{
}

/// A lookup gives the watch address of its first item's `id`, which is
/// the id after "https://www.youtube.com/watch?v=".
pub proof fn law_watch_address_of_first_item(resp: JsonValue)
    ensures
        (as_array(member(resp, "items"@)) matches Some(items) && items.len() > 0 && as_str(
            member(items[0], "id"@),
        ) is Some) ==> watch_url_in(resp) == Some(
            "https://www.youtube.com/watch?v="@ + as_str(
                member(as_array(member(resp, "items"@)).unwrap()[0], "id"@),
            ).unwrap(),
        ),
        (as_array(member(resp, "items"@)) matches Some(items) && items.len() == 0)
            ==> watch_url_in(resp) is None,
        as_array(member(resp, "items"@)) is None ==> watch_url_in(resp) is None,
{
}

/// A search asks for at most ten videos matching the query, with the
/// key; a lookup asks for the snippet of the one video, with the key.
pub proof fn law_request_addresses(q: Seq<char>, id: Seq<char>, k: Seq<char>)
    ensures
        search_url(q, k) == "https://www.googleapis.com/youtube/v3/search?part=snippet&q="@ + q
            + "&key="@ + k + "&maxResults=10&type=video"@,
        video_url(id, k) == "https://www.googleapis.com/youtube/v3/videos?id="@ + id + "&key="@
            + k + "&part=snippet"@,
        watch_url_of(id) == "https://www.youtube.com/watch?v="@ + id,
{
}

} // verus!

use cringe_radio::youtube::{
    search_results, watch_url, watch_url_from_response, JsonValue, SearchResult, Youtube,
};

fn s(x: &str) -> JsonValue {
    JsonValue::Str(x.to_string())
}

fn obj(entries: Vec<(&str, JsonValue)>) -> JsonValue {
    JsonValue::Object(entries.into_iter().map(|(k, v)| (k.to_string(), v)).collect())
}

fn item(id: &str, title: &str, thumb: &str) -> JsonValue {
    obj(vec![
        ("kind", s("youtube#searchResult")),
        ("id", obj(vec![("kind", s("youtube#video")), ("videoId", s(id))])),
        (
            "snippet",
            obj(vec![
                ("title", s(title)),
                ("thumbnails", obj(vec![("medium", obj(vec![("url", s(thumb)), ("width", JsonValue::Number("320".to_string()))]))])),
            ]),
        ),
    ])
}

#[test]
fn request_addresses() {
    let yt = Youtube::new("KEY");
    assert_eq!(
        yt.search_request_url("rick astley"),
        "https://www.googleapis.com/youtube/v3/search?part=snippet&q=rick astley&key=KEY&maxResults=10&type=video"
    );
    assert_eq!(
        yt.video_request_url("dQw4w9WgXcQ"),
        "https://www.googleapis.com/youtube/v3/videos?id=dQw4w9WgXcQ&key=KEY&part=snippet"
    );
    assert_eq!(watch_url("dQw4w9WgXcQ"), "https://www.youtube.com/watch?v=dQw4w9WgXcQ");
}

#[test]
fn search_hits_in_order() {
    let resp = obj(vec![
        ("kind", s("youtube#searchListResponse")),
        ("items", JsonValue::Array(vec![item("a1", "First", "u1"), item("b2", "Second", "u2")])),
    ]);
    let hits = search_results(&resp).unwrap();
    assert_eq!(
        hits,
        vec![
            SearchResult { id: "a1".to_string(), title: "First".to_string(), thumbnail_url: "u1".to_string() },
            SearchResult { id: "b2".to_string(), title: "Second".to_string(), thumbnail_url: "u2".to_string() },
        ]
    );
}

#[test]
fn no_items_means_no_hits() {
    let resp = obj(vec![("items", JsonValue::Array(vec![]))]);
    assert_eq!(search_results(&resp).unwrap(), vec![]);
}

#[test]
fn malformed_search_responses() {
    assert!(search_results(&obj(vec![("error", s("quota"))])).is_none());
    assert!(search_results(&JsonValue::Null).is_none());
    let no_title = obj(vec![(
        "items",
        JsonValue::Array(vec![obj(vec![("id", obj(vec![("videoId", s("x"))])), ("snippet", obj(vec![]))])]),
    )]);
    assert!(search_results(&no_title).is_none());
    let numeric_id = obj(vec![(
        "items",
        JsonValue::Array(vec![item("x", "t", "u"), obj(vec![("id", obj(vec![("videoId", JsonValue::Number("1".to_string()))]))])]),
    )]);
    assert!(search_results(&numeric_id).is_none());
}

#[test]
fn first_entry_of_a_key_counts() {
    let resp = obj(vec![
        ("items", JsonValue::Array(vec![item("a1", "First", "u1")])),
        ("items", JsonValue::Null),
    ]);
    assert_eq!(search_results(&resp).unwrap().len(), 1);
}

#[test]
fn watch_address_from_lookup() {
    let resp = obj(vec![(
        "items",
        JsonValue::Array(vec![obj(vec![("id", s("dQw4w9WgXcQ"))]), obj(vec![("id", s("other"))])]),
    )]);
    assert_eq!(
        watch_url_from_response(&resp),
        Some("https://www.youtube.com/watch?v=dQw4w9WgXcQ".to_string())
    );
    assert_eq!(watch_url_from_response(&obj(vec![("items", JsonValue::Array(vec![]))])), None);
    assert_eq!(watch_url_from_response(&obj(vec![])), None);
    assert_eq!(
        watch_url_from_response(&obj(vec![("items", JsonValue::Array(vec![obj(vec![("id", JsonValue::Bool(true))])]))])),
        None
    );
}

use booru::gelbooru::{Gelbooru, GelbooruPost, GelbooruRating};
use booru::query::{decimal_string, join_tags};
use booru::BooruError;

fn pairs(v: &[(&str, &str)]) -> Vec<(String, String)> {
    v.iter().map(|(k, x)| (k.to_string(), x.to_string())).collect()
}

#[test]
fn search_url_joins_id_range() {
    let gelbooru = Gelbooru::builder().build();
    assert_eq!(
        gelbooru.search_url(&["id:>=0", "id:<=10"]),
        "https://gelbooru.com/index.php?tags=id:>=0+id:<=10"
    );
}

#[test]
fn search_url_keeps_plus_and_space() {
    let gelbooru = Gelbooru::builder().build();
    assert_eq!(
        gelbooru.search_url(&["a+b", "c d", "e"]),
        "https://gelbooru.com/index.php?tags=a+b+c d+e"
    );
}

#[test]
fn search_url_without_tags() {
    let gelbooru = Gelbooru::builder().build();
    assert_eq!(gelbooru.search_url(&[]), "https://gelbooru.com/index.php?tags=");
}

#[test]
fn join_tags_edge_cases() {
    assert_eq!(join_tags(&[]), "");
    assert_eq!(join_tags(&["solo"]), "solo");
    assert_eq!(join_tags(&["", ""]), "+");
}

#[test]
fn decimal_string_values() {
    assert_eq!(decimal_string(0), "0");
    assert_eq!(decimal_string(7), "7");
    assert_eq!(decimal_string(10), "10");
    assert_eq!(decimal_string(120), "120");
    assert_eq!(decimal_string(usize::MAX), usize::MAX.to_string());
}

#[test]
fn anonymous_query_params() {
    let gelbooru = Gelbooru::builder().build();
    let q = gelbooru.query_params(0, 10);
    assert_eq!(
        q,
        pairs(&[
            ("page", "dapi"),
            ("s", "post"),
            ("q", "index"),
            ("json", "1"),
            ("pid", "0"),
            ("limit", "10"),
        ])
    );
    assert!(q.iter().all(|(k, _)| k != "api_key" && k != "user_id"));
}

#[test]
fn authenticated_query_params() {
    let gelbooru = Gelbooru::builder().auth("SECRET-REDACTED", 1234).build();
    assert_eq!(
        gelbooru.query_params(3, 100),
        pairs(&[
            ("page", "dapi"),
            ("s", "post"),
            ("q", "index"),
            ("json", "1"),
            ("api_key", "SECRET-REDACTED"),
            ("user_id", "1234"),
            ("pid", "3"),
            ("limit", "100"),
        ])
    );
}

#[test]
fn custom_http_client_keeps_query() {
    let gelbooru = Gelbooru::builder()
        .http_client(reqwest::Client::new())
        .build();
    assert_eq!(gelbooru.query_params(1, 2).len(), 6);
}

#[test]
fn get_posts_request() {
    let gelbooru = Gelbooru::builder().build();
    let (url, params) = gelbooru.search_request(&["id:>=0", "id:<=10"], 0, 10);
    assert_eq!(url, "https://gelbooru.com/index.php?tags=id:>=0+id:<=10");
    assert_eq!(params, gelbooru.query_params(0, 10));
    let request = gelbooru.http_client().get(url).query(&params).build().unwrap();
    assert_eq!(request.method().as_str(), "GET");
    let url = request.url().as_str().to_string();
    assert!(url.starts_with("https://gelbooru.com/index.php?tags=id:"));
    assert!(url.ends_with("&page=dapi&s=post&q=index&json=1&pid=0&limit=10"));
    assert!(!url.contains("api_key"));
    assert!(!url.contains("user_id"));
}

#[test]
fn authenticated_request_carries_credentials() {
    let gelbooru = Gelbooru::builder().auth("abc", 42).build();
    let (url, params) = gelbooru.search_request(&["cat"], 2, 5);
    let request = gelbooru.http_client().get(url).query(&params).build().unwrap();
    assert_eq!(
        request.url().as_str(),
        "https://gelbooru.com/index.php?tags=cat&page=dapi&s=post&q=index&json=1&api_key=abc&user_id=42&pid=2&limit=5"
    );
}

#[test]
fn rating_codes() {
    assert_eq!(GelbooruRating::from_code("e"), Some(GelbooruRating::Explicit));
    assert_eq!(GelbooruRating::from_code("q"), Some(GelbooruRating::Questionable));
    assert_eq!(GelbooruRating::from_code("s"), Some(GelbooruRating::Safe));
    for r in [GelbooruRating::Explicit, GelbooruRating::Questionable, GelbooruRating::Safe] {
        assert_eq!(GelbooruRating::from_code(r.code()), Some(r));
    }
}

#[test]
fn unknown_rating_codes_are_refused() {
    assert_eq!(GelbooruRating::from_code("x"), None);
    assert_eq!(GelbooruRating::from_code(""), None);
    assert_eq!(GelbooruRating::from_code("E"), None);
    assert_eq!(GelbooruRating::from_code("es"), None);
    assert_eq!(GelbooruRating::from_code("safe"), None);
}

#[test]
fn errors_keep_their_cause() {
    let json_error = serde_json::from_str::<serde_json::Value>("[{").unwrap_err();
    let text = json_error.to_string();
    match BooruError::from(json_error) {
        BooruError::Deserialization(e) => assert_eq!(e.to_string(), text),
        BooruError::HTTP(_) => panic!("a JSON failure became an HTTP failure"),
    }
    let http_error = reqwest::Client::new().get("not a url").build().unwrap_err();
    assert!(matches!(BooruError::from(http_error), BooruError::HTTP(_)));
}

#[test]
fn post_holds_its_fields() {
    let post = GelbooruPost {
        source: String::new(),
        directory: "ab/cd".to_string(),
        hash: "abcd".to_string(),
        height: 600,
        id: Some(10),
        image: "abcd.png".to_string(),
        change: 1,
        owner: "someone".to_string(),
        parent_id: Some(serde_json::Value::Null),
        rating: GelbooruRating::Safe,
        sample: 0,
        sample_height: 0,
        sample_width: 0,
        score: 5,
        tags: "a b".to_string(),
        width: 800,
        file_url: "https://example.com/abcd.png".to_string(),
        created_at: "today".to_string(),
    };
    let copy = post.clone();
    assert_eq!(copy.id, Some(10));
    assert_eq!(copy.rating, GelbooruRating::Safe);
    assert_eq!(copy.parent_id, Some(serde_json::Value::Null));
}

#[test]
fn error_descriptions() {
    let json_error = serde_json::from_str::<serde_json::Value>("[{").unwrap_err();
    let text = json_error.to_string();
    assert_eq!(
        BooruError::from(json_error).description(),
        format!("error deserializing post json {}", text)
    );
    let http_error = reqwest::Client::new().get("not a url").build().unwrap_err();
    let text = http_error.to_string();
    assert_eq!(
        BooruError::from(http_error).description(),
        format!("error sending HTTP request {}", text)
    );
}

//! Tests of the serving side: pagination merge, ordering, index encoding,
//! routing and response assembly.

use desertyard_worker::index::{encode_index, IndexEntry};
use desertyard_worker::lister::{keys_of, merge_pages, sort_by_uploaded, Listing, ObjMeta};
use desertyard_worker::registry::sources;
use desertyard_worker::respond::{cors_headers, index_answer, not_found_body, route, HttpMethod};

fn obj(key: &str, uploaded_millis: u64) -> ObjMeta {
    ObjMeta { key: key.to_string(), uploaded_millis }
}

#[test]
fn pagination_merge_is_complete_and_in_order() {
    // Pages [a, b] then [c], as cursor chaining returns them.
    let pages = vec![vec![obj("a", 3), obj("b", 1)], vec![obj("c", 2)]];
    let merged = merge_pages(pages);
    let keys: Vec<&str> = merged.iter().map(|o| o.key.as_str()).collect();
    assert_eq!(keys, vec!["a", "b", "c"]);
}

#[test]
fn pagination_merge_of_no_pages_is_empty() {
    assert!(merge_pages(Vec::new()).is_empty());
    assert!(merge_pages(vec![Vec::new(), Vec::new()]).is_empty());
}

#[test]
fn listing_absorbs_pages_one_at_a_time() {
    let mut listing = Listing::new();
    listing.extend_page(vec![obj("a", 1), obj("b", 2)]);
    listing.extend_page(Vec::new());
    listing.extend_page(vec![obj("c", 3)]);
    let keys: Vec<&str> = listing.objects.iter().map(|o| o.key.as_str()).collect();
    assert_eq!(keys, vec!["a", "b", "c"]);
}

#[test]
fn sort_orders_oldest_first_and_keeps_everything() {
    let merged = vec![obj("newest", 30), obj("oldest", 10), obj("middle", 20)];
    let sorted = sort_by_uploaded(merged);
    let keys: Vec<&str> = sorted.iter().map(|o| o.key.as_str()).collect();
    assert_eq!(keys, vec!["oldest", "middle", "newest"]);
}

#[test]
fn sort_keeps_objects_with_equal_upload_times() {
    let sorted = sort_by_uploaded(vec![obj("x", 5), obj("y", 5), obj("z", 1)]);
    assert_eq!(sorted.len(), 3);
    assert_eq!(sorted[0].key, "z");
    let mut tail: Vec<&str> = sorted[1..].iter().map(|o| o.key.as_str()).collect();
    tail.sort_unstable();
    assert_eq!(tail, vec!["x", "y"]);
}

#[test]
fn keys_follow_the_listing_order() {
    let keys = keys_of(vec![obj("one", 1), obj("two", 2)]);
    assert_eq!(keys, vec!["one".to_string(), "two".to_string()]);
    assert!(keys_of(Vec::new()).is_empty());
}

#[test]
fn empty_index_encodes_to_an_empty_object() {
    assert_eq!(encode_index(&Vec::new()), "{}");
}

#[test]
fn index_encoding_exact_text() {
    let entries = vec![
        IndexEntry {
            source_id: "tv721".to_string(),
            keys: vec![
                "tv721/900150983cd24fb0d6963f7d28e17f72.jpg".to_string(),
                "tv721/d41d8cd98f00b204e9800998ecf8427e.jpg".to_string(),
            ],
        },
        IndexEntry { source_id: "tv722".to_string(), keys: Vec::new() },
    ];
    let encoded = encode_index(&entries);
    let expected = "{\"tv721\":[\"tv721/900150983cd24fb0d6963f7d28e17f72.jpg\",\"tv721/d41d8cd98f00b204e9800998ecf8427e.jpg\"],\"tv722\":[]}";
    assert_eq!(encoded, expected);
}

#[test]
fn index_encoding_is_valid_json_and_escapes() {
    let entries = vec![IndexEntry {
        source_id: "odd \"name\" with \\ and \n".to_string(),
        keys: vec!["key with \"quote\"".to_string()],
    }];
    let encoded = encode_index(&entries);
    let parsed: serde_json::Value = serde_json::from_str(&encoded).expect("valid JSON");
    let arr = parsed
        .get("odd \"name\" with \\ and \n")
        .expect("escaped member name round-trips")
        .as_array()
        .expect("member is an array");
    assert_eq!(arr.len(), 1);
    assert_eq!(arr[0].as_str(), Some("key with \"quote\""));
}

#[test]
fn non_get_methods_are_rejected_with_405() {
    for method in [
        HttpMethod::Post,
        HttpMethod::Put,
        HttpMethod::Delete,
        HttpMethod::Head,
        HttpMethod::Options,
        HttpMethod::Patch,
        HttpMethod::Other,
    ] {
        match route(method, "/") {
            Err(rej) => {
                assert_eq!(rej.status, 405);
                assert_eq!(rej.body, "Method not allowed");
            }
            Ok(()) => panic!("non-GET must be rejected"),
        }
    }
}

#[test]
fn unknown_path_is_rejected_with_404_naming_it() {
    match route(HttpMethod::Get, "/bogus") {
        Err(rej) => {
            assert_eq!(rej.status, 404);
            assert_eq!(rej.body, "Path not found: \"/bogus\"");
        }
        Ok(()) => panic!("unknown path must be rejected"),
    }
    assert_eq!(not_found_body("/bogus"), "Path not found: \"/bogus\"");
}

#[test]
fn the_index_path_is_served() {
    assert!(route(HttpMethod::Get, "/imgs").is_ok());
}

#[test]
fn empty_store_answers_204_not_an_error() {
    let answer = index_answer(None);
    assert_eq!(answer.status, 204);
    assert!(answer.body.is_empty());
    assert!(answer.content_type.is_none());
}

#[test]
fn stored_artifact_is_served_verbatim() {
    let artifact = b"{\"tv721\":[]}".to_vec();
    let answer = index_answer(Some(artifact.clone()));
    assert_eq!(answer.status, 200);
    assert_eq!(answer.body, artifact);
    assert_eq!(answer.content_type, Some("application/json"));
}

#[test]
fn every_read_answer_carries_the_cors_headers() {
    let headers = cors_headers();
    assert_eq!(
        headers,
        vec![
            ("Access-Control-Allow-Methods", "GET"),
            ("Access-Control-Allow-Origin", "*"),
            ("Access-Control-Max-Age", "86400"),
            ("Cache-Control", "no-cache"),
        ]
    );
}

#[test]
fn registry_is_fixed_and_deterministic() {
    let first = sources();
    let second = sources();
    assert_eq!(first.len(), 4);
    let ids: Vec<&str> = first.iter().map(|s| s.id).collect();
    assert_eq!(ids, vec!["tv721", "tv722", "tv726", "tv727"]);
    for (a, b) in first.iter().zip(second.iter()) {
        assert_eq!(a.id, b.id);
        assert_eq!(a.url, b.url);
    }
    for s in &first {
        assert!(s.url.starts_with("https://cwwp2.dot.ca.gov/"));
        assert!(s.url.ends_with(".jpg"));
    }
}

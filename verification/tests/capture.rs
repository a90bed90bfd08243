//! Tests of the capture side: digests, storage keys, retry, and the
//! per-attempt pipeline.

use desertyard_worker::digest::digest;
use desertyard_worker::fetch::{cache_busted_url, classify_exchange, u64_to_dec, Exchange, FetchError};
use desertyard_worker::keys::{
    imgs_json_key, index_cache_control, listing_prefix, object_key, store_request_for,
};
use desertyard_worker::pipeline::capture_attempt;
use desertyard_worker::retry::{initial_state, run, run_all, step, RetryState, MAX_ATTEMPTS};

#[test]
fn digest_known_values() {
    // Classic MD5 test vectors, hex-encoded lowercase.
    assert_eq!(digest(&Vec::new()), "d41d8cd98f00b204e9800998ecf8427e");
    assert_eq!(digest(&b"abc".to_vec()), "900150983cd24fb0d6963f7d28e17f72");
}

#[test]
fn digest_is_deterministic_across_calls() {
    let payload = b"snapshot bytes".to_vec();
    let first = digest(&payload);
    let second = digest(&payload);
    assert_eq!(first, second);
    assert_eq!(first.len(), 32);
}

#[test]
fn identical_bytes_yield_one_key_per_source() {
    let payload = b"same frame".to_vec();
    let first = store_request_for("tv721", payload.clone());
    let second = store_request_for("tv721", payload.clone());
    assert_eq!(first.key, second.key);
    assert_eq!(first.body, payload);
    assert!(first.key.starts_with("tv721/"));
    assert!(first.key.ends_with(".jpg"));
}

#[test]
fn object_key_layout() {
    assert_eq!(object_key("tv721", "00ff"), "tv721/00ff.jpg");
    let req = store_request_for("tv721", b"abc".to_vec());
    assert_eq!(req.key, "tv721/900150983cd24fb0d6963f7d28e17f72.jpg");
    assert_eq!(req.cache_control, "max-age=604800, public");
    assert_eq!(req.body, b"abc".to_vec());
}

#[test]
fn well_known_keys_and_metadata() {
    assert_eq!(imgs_json_key(), "imgs.json");
    assert_eq!(index_cache_control(), "no-cache");
    assert_eq!(listing_prefix("tv721"), "tv721/");
}

#[test]
fn decimal_formatting() {
    assert_eq!(u64_to_dec(0), "0");
    assert_eq!(u64_to_dec(7), "7");
    assert_eq!(u64_to_dec(1700000000), "1700000000");
    assert_eq!(u64_to_dec(u64::MAX), "18446744073709551615");
}

#[test]
fn cache_busting_appends_epoch_seconds() {
    assert_eq!(
        cache_busted_url("https://example.test/cam.jpg", 1700000000),
        "https://example.test/cam.jpg?1700000000"
    );
}

#[test]
fn exchange_classification() {
    let ok = classify_exchange(Exchange::Response(200, b"img".to_vec()));
    assert_eq!(ok, Ok(b"img".to_vec()));
    let created = classify_exchange(Exchange::Response(204, Vec::new()));
    assert_eq!(created, Ok(Vec::new()));
    let bad = classify_exchange(Exchange::Response(404, Vec::new()));
    assert_eq!(bad, Err(FetchError::BadStatus(404)));
    let server_err = classify_exchange(Exchange::Response(500, Vec::new()));
    assert_eq!(server_err, Err(FetchError::BadStatus(500)));
    let transport = classify_exchange(Exchange::Failed);
    assert_eq!(transport, Err(FetchError::Transport));
}

#[test]
fn retry_exhausts_after_exactly_five_failures() {
    assert_eq!(MAX_ATTEMPTS, 5);
    // Four failures leave the machine still attempting; the fifth exhausts it.
    assert_eq!(run(&vec![false; 4]), RetryState::Attempting(4));
    assert_eq!(run(&vec![false; 5]), RetryState::Exhausted);
    // A terminal state absorbs further outcomes: no sixth attempt, no store.
    assert_eq!(step(RetryState::Exhausted, true), RetryState::Exhausted);
    assert_eq!(step(RetryState::Exhausted, false), RetryState::Exhausted);
}

#[test]
fn retry_settles_on_third_success() {
    // Two failures then a success: exactly three outcomes consumed, then
    // the machine is settled and consumes nothing more.
    let outcomes = vec![false, false, true];
    assert_eq!(run(&outcomes), RetryState::Succeeded);
    assert_eq!(step(RetryState::Succeeded, false), RetryState::Succeeded);
}

#[test]
fn retry_starts_fresh() {
    assert_eq!(initial_state(), RetryState::Attempting(0));
    assert_eq!(run(&Vec::new()), RetryState::Attempting(0));
}

#[test]
fn independent_sources_do_not_disturb_each_other() {
    // One source's fetch always fails, the other's always succeeds: the
    // successful one stores an object, the failing one is abandoned, and
    // the run as a whole settles without error.
    let failing = vec![false; 5];
    let succeeding = vec![true];
    let states = run_all(&vec![failing, succeeding]);
    assert_eq!(states, vec![RetryState::Exhausted, RetryState::Succeeded]);

    let stored = capture_attempt("tv721", Exchange::Response(200, b"frame".to_vec()));
    let req = stored.expect("2xx response must become a store request");
    assert!(req.key.starts_with("tv721/"));
    assert!(req.key.ends_with(".jpg"));
    assert_eq!(req.key.len(), "tv721/".len() + 32 + ".jpg".len());
    assert_eq!(req.body, b"frame".to_vec());
    let abandoned = capture_attempt("tv722", Exchange::Failed);
    assert_eq!(abandoned.err(), Some(FetchError::Transport));
}

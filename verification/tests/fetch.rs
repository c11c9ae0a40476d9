use e2_image_server::fetch::{BoundedFetch, FetchEvent, FetchHead, FetchStep, MAX_IMAGE_SIZE};
use e2_image_server::Error;

fn head(status: u16, content_length: Option<u64>) -> FetchHead {
    FetchHead::Response { status, content_length }
}

fn started(cap: u64) -> BoundedFetch {
    match BoundedFetch::begin(head(200, None), cap) {
        FetchStep::Continue(fetch) => fetch,
        _ => panic!("the download did not start"),
    }
}

fn after_chunk(fetch: BoundedFetch, chunk: &[u8]) -> BoundedFetch {
    match fetch.step(FetchEvent::Chunk(chunk)) {
        FetchStep::Continue(next) => next,
        _ => panic!("the download did not go on"),
    }
}

fn body_of(fetch: BoundedFetch) -> Vec<u8> {
    match fetch.step(FetchEvent::End) {
        FetchStep::Complete(body) => body,
        _ => panic!("the download did not complete"),
    }
}

#[test]
fn cap_is_16_mib() {
    assert_eq!(MAX_IMAGE_SIZE, 1024 * 1024 * 16);
    assert_eq!(MAX_IMAGE_SIZE, 16_777_216);
}

#[test]
fn announced_length_over_the_cap_is_too_large() {
    match BoundedFetch::begin(head(200, Some(20_000_000)), 16_777_216) {
        FetchStep::Failed(error) => assert_eq!(error, Error::RequestedImageToLarge),
        _ => panic!("the download was not rejected"),
    }
}

#[test]
fn announced_length_one_over_the_cap_is_too_large() {
    match BoundedFetch::begin(head(200, Some(MAX_IMAGE_SIZE + 1)), MAX_IMAGE_SIZE) {
        FetchStep::Failed(error) => assert_eq!(error, Error::RequestedImageToLarge),
        _ => panic!("the download was not rejected"),
    }
}

#[test]
fn announced_length_at_the_cap_starts() {
    match BoundedFetch::begin(head(200, Some(MAX_IMAGE_SIZE)), MAX_IMAGE_SIZE) {
        FetchStep::Continue(fetch) => assert!(fetch.kept().is_empty()),
        _ => panic!("the download did not start"),
    }
}

#[test]
fn unknown_length_starts() {
    match BoundedFetch::begin(head(200, None), MAX_IMAGE_SIZE) {
        FetchStep::Continue(fetch) => assert!(fetch.kept().is_empty()),
        _ => panic!("the download did not start"),
    }
}

#[test]
fn status_that_is_no_success_is_a_transport_failure() {
    for status in [100u16, 199, 300, 301, 404, 500, 503] {
        match BoundedFetch::begin(head(status, Some(10)), MAX_IMAGE_SIZE) {
            FetchStep::Failed(Error::InternalError(cause)) => {
                assert_eq!(
                    cause,
                    "the remote server answered with a status that is not a success"
                )
            }
            _ => panic!("status {} was not rejected", status),
        }
    }
}

#[test]
fn status_that_is_no_success_comes_before_the_length() {
    match BoundedFetch::begin(head(404, Some(20_000_000)), MAX_IMAGE_SIZE) {
        FetchStep::Failed(Error::InternalError(_)) => {}
        _ => panic!("the status was not looked at first"),
    }
}

#[test]
fn transport_failure_before_the_response_fails_the_download() {
    match BoundedFetch::begin(FetchHead::Failed("dns error".to_string()), MAX_IMAGE_SIZE) {
        FetchStep::Failed(error) => assert_eq!(error, Error::InternalError("dns error".to_string())),
        _ => panic!("the failure was not reported"),
    }
}

#[test]
fn every_success_status_starts() {
    for status in [200u16, 201, 204, 206, 299] {
        match BoundedFetch::begin(head(status, None), MAX_IMAGE_SIZE) {
            FetchStep::Continue(_) => {}
            _ => panic!("status {} did not start", status),
        }
    }
}

#[test]
fn chunks_under_the_cap_are_kept_in_order() {
    let fetch = started(10);
    let fetch = after_chunk(fetch, &[1, 2, 3]);
    assert_eq!(fetch.kept(), &[1, 2, 3]);
    let fetch = after_chunk(fetch, &[]);
    let fetch = after_chunk(fetch, &[4, 5]);
    assert_eq!(fetch.kept(), &[1, 2, 3, 4, 5]);
    assert_eq!(body_of(fetch), vec![1, 2, 3, 4, 5]);
}

#[test]
fn body_of_exactly_the_cap_is_kept_whole() {
    let fetch = started(4);
    let fetch = after_chunk(fetch, &[1, 2]);
    let fetch = after_chunk(fetch, &[3, 4]);
    assert_eq!(body_of(fetch), vec![1, 2, 3, 4]);
}

#[test]
fn chunk_that_crosses_the_cap_is_cut() {
    let fetch = started(4);
    let fetch = after_chunk(fetch, &[1, 2, 3]);
    let fetch = after_chunk(fetch, &[4, 5, 6]);
    assert_eq!(fetch.kept(), &[1, 2, 3, 4]);
    assert_eq!(body_of(fetch), vec![1, 2, 3, 4]);
}

#[test]
fn chunks_after_the_cap_are_dropped_and_the_download_goes_on() {
    let fetch = started(2);
    let fetch = after_chunk(fetch, &[1, 2, 3]);
    let fetch = after_chunk(fetch, &[4]);
    let fetch = after_chunk(fetch, &[5, 6, 7]);
    assert_eq!(fetch.kept(), &[1, 2]);
    assert_eq!(body_of(fetch), vec![1, 2]);
}

#[test]
fn body_longer_than_the_cap_is_cut_to_exactly_the_cap() {
    let cap = 1000u64;
    let stream: Vec<u8> = (0..2500u32).map(|i| (i % 251) as u8).collect();
    let mut fetch = started(cap);
    for chunk in stream.chunks(300) {
        fetch = after_chunk(fetch, chunk);
    }
    let body = body_of(fetch);
    assert_eq!(body.len(), 1000);
    assert_eq!(body.as_slice(), &stream[..1000]);
}

#[test]
fn cap_of_zero_keeps_nothing() {
    let fetch = started(0);
    let fetch = after_chunk(fetch, &[1, 2, 3]);
    assert!(body_of(fetch).is_empty());
}

#[test]
fn empty_body_completes_empty() {
    assert!(body_of(started(MAX_IMAGE_SIZE)).is_empty());
}

#[test]
fn transport_failure_ends_the_download_with_its_cause() {
    let fetch = after_chunk(started(10), &[1, 2, 3]);
    match fetch.step(FetchEvent::Failed("connection reset".to_string())) {
        FetchStep::Failed(error) => {
            assert_eq!(error, Error::InternalError("connection reset".to_string()))
        }
        _ => panic!("the failure was not reported"),
    }
}

#[test]
fn transport_failure_after_the_cap_is_still_a_failure() {
    let fetch = after_chunk(started(2), &[1, 2, 3]);
    match fetch.step(FetchEvent::Failed("connection reset".to_string())) {
        FetchStep::Failed(Error::InternalError(cause)) => assert_eq!(cause, "connection reset"),
        _ => panic!("the failure was not reported"),
    }
}

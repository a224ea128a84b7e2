use fizz::http::BodySource;
use fizz::http::HttpMethod;
use fizz::http::RequestError;
use fizz::http::STREAM_THRESHOLD;
use fizz::http::buffered_result;
use fizz::http::check_upload_method;
use fizz::http::classify_post_data;
use fizz::http::decode_file_body;
use fizz::http::derive_filename;
use fizz::http::download_streams;
use fizz::http::method_allows_body;
use fizz::http::streamed_result;
use fizz::http::upload_streams;
use fizz::http::written_marker;

#[test]
fn classify_absent_or_empty_post_data() {
    assert!(matches!(classify_post_data(&None), BodySource::NoBody));
    assert!(matches!(classify_post_data(&Some(String::new())), BodySource::NoBody));
}

#[test]
fn classify_inline_post_data() {
    match classify_post_data(&Some(String::from("a=1&b=2"))) {
        BodySource::Inline(s) => assert_eq!(s, "a=1&b=2"),
        _ => panic!("expected inline body"),
    }
}

#[test]
fn classify_file_reference_post_data() {
    match classify_post_data(&Some(String::from("@bigfile"))) {
        BodySource::FileRef(p) => assert_eq!(p, "bigfile"),
        _ => panic!("expected file reference"),
    }
    // A bare `@` names the empty path.
    match classify_post_data(&Some(String::from("@"))) {
        BodySource::FileRef(p) => assert_eq!(p, ""),
        _ => panic!("expected file reference"),
    }
}

#[test]
fn upload_streams_only_above_threshold() {
    assert_eq!(STREAM_THRESHOLD, 1_000_000);
    assert!(!upload_streams(0));
    assert!(!upload_streams(1_000_000));
    assert!(upload_streams(1_000_001));
}

#[test]
fn download_streams_on_length_or_progress_flag() {
    assert!(!download_streams(Some(5), false));
    assert!(!download_streams(Some(1_000_000), false));
    assert!(download_streams(Some(1_000_001), false));
    assert!(!download_streams(None, false));
    // The progress flag forces the streaming path whatever the length.
    assert!(download_streams(None, true));
    assert!(download_streams(Some(5), true));
}

#[test]
fn upload_allowed_for_post_and_put_only() {
    assert!(method_allows_body(HttpMethod::Post));
    assert!(method_allows_body(HttpMethod::Put));
    assert!(!method_allows_body(HttpMethod::Get));
    assert!(check_upload_method(HttpMethod::Post).is_ok());
    assert!(check_upload_method(HttpMethod::Put).is_ok());
    for m in [
        HttpMethod::Get,
        HttpMethod::Head,
        HttpMethod::Delete,
        HttpMethod::Options,
        HttpMethod::Patch,
    ] {
        assert_eq!(check_upload_method(m), Err(RequestError::UploadMethodUnsupported));
    }
    assert_eq!(RequestError::UploadMethodUnsupported.message(), "upload needs POST or PUT");
}

#[test]
fn decode_valid_utf8_body() {
    let bytes: Vec<u8> = vec![104, 105, 32, 0xc3, 0xa9];
    assert_eq!(decode_file_body(bytes), Ok(String::from("hi \u{e9}")));
}

#[test]
fn decode_invalid_utf8_body_is_an_error() {
    let bytes: Vec<u8> = vec![0xff, 0xfe, 0x00];
    assert_eq!(decode_file_body(bytes), Err(RequestError::BodyNotUtf8));
    assert_eq!(RequestError::BodyNotUtf8.message(), "body is not valid UTF-8");
}

#[test]
fn filename_from_last_url_segment() {
    assert_eq!(derive_filename("http://example.com/files/data.bin"), "data.bin");
    assert_eq!(derive_filename("http://example.com/files/archive.tar.gz"), "archive.tar.gz");
    assert_eq!(derive_filename("no-slash-at-all"), "no-slash-at-all");
}

#[test]
fn filename_default_for_empty_or_single_char_segment() {
    assert_eq!(derive_filename("http://example.com/"), "fizz_download");
    assert_eq!(derive_filename("http://example.com/a"), "fizz_download");
    assert_eq!(derive_filename("http://example.com/ab"), "ab");
    assert_eq!(derive_filename(""), "fizz_download");
}

#[test]
fn buffered_result_keeps_literal_body() {
    // A small response is buffered whole: the body is the literal
    // response text, and no file name enters the result.
    let r = buffered_result(
        String::from("200 OK"),
        String::from("Headers:\n"),
        String::from("hello world"),
    );
    assert_eq!(r.status_code, "200 OK");
    assert_eq!(r.body, "hello world");
}

#[test]
fn big_file_upload_takes_streaming_path_and_keeps_remote_body() {
    // A post-data file reference whose file exceeds the threshold:
    // the upload path streams, and the result body is the remote
    // endpoint's response, not a written-to marker.
    let post_data = Some(String::from("@bigfile"));
    let path = match classify_post_data(&post_data) {
        BodySource::FileRef(p) => p,
        _ => panic!("expected file reference"),
    };
    assert_eq!(path, "bigfile");
    let file_size: u64 = 1_000_001;
    assert!(upload_streams(file_size));
    assert!(check_upload_method(HttpMethod::Post).is_ok());
    let r = buffered_result(
        String::from("200 OK"),
        String::from("Headers:\n"),
        String::from("upload received"),
    );
    assert_eq!(r.body, "upload received");
    assert!(!r.body.starts_with("written to"));
}

#[test]
fn big_download_streams_to_derived_file() {
    // A response whose declared content length exceeds the threshold:
    // the body streams to the file named by the URL's last segment,
    // and the result body is the written-to marker.
    let content_length: u64 = 1_000_001;
    assert!(download_streams(Some(content_length), false));
    let name = derive_filename("http://example.com/pub/big.bin");
    assert_eq!(name, "big.bin");
    let r = streamed_result(String::from("200 OK"), String::from("Headers:\n"), &name);
    assert_eq!(r.body, "written to ./big.bin");
}

#[test]
fn streamed_result_reports_written_marker() {
    assert_eq!(written_marker("big.bin"), "written to ./big.bin");
    let r = streamed_result(String::from("200 OK"), String::from("Headers:\n"), "big.bin");
    assert_eq!(r.status_code, "200 OK");
    assert_eq!(r.body, "written to ./big.bin");
}

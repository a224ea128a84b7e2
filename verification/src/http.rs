//! Planning rules of the HTTP request path.
//!
//! One request executes per invocation. The library decides everything
//! the transport does not: where the request body comes from (inline
//! text, a small file read whole, or a streamed upload), when a
//! response is streamed to disk instead of buffered, which file a
//! download lands in, and which methods may carry an upload. The
//! surrounding binary builds the client, sends the request, and moves
//! the bytes.

use vstd::prelude::*;
use vstd::string::*;

verus! {

/// Payloads above this many bytes are streamed instead of held in
/// memory, on the upload and the download path alike.
pub const STREAM_THRESHOLD: u64 = 1000000;

/// The HTTP method of a request.
#[derive(Clone, Copy, Debug, PartialEq, Eq, Structural)]
pub enum HttpMethod {
    Get,
    Head,
    Post,
    Put,
    Delete,
    Options,
    Patch,
}

/// The configuration of one HTTP request, immutable per call.
pub struct ExecRequest {
    /// The request URL.
    pub url: String,
    /// The user-agent string the client presents.
    pub user_agent: String,
    /// Verbose connection logging.
    pub verbose: bool,
    /// Bypass TLS certificate validation.
    pub disable_cert_validation: bool,
    /// Bypass TLS hostname validation.
    pub disable_hostname_validation: bool,
    /// The request body: inline text, or `@path` naming a file.
    pub post_data: Option<String>,
    /// The request method.
    pub method: HttpMethod,
    /// Show a live progress indicator, forcing the streaming path.
    pub show_progress: bool,
}

/// The terminal result of one request: the status code as text, the
/// formatted header block, and the body — either the literal response
/// text or a marker naming the file a streamed download was written
/// to.
pub struct FizzResult {
    pub status_code: String,
    pub headers: String,
    pub body: String,
}

/// A failure the library itself detects while building a request or
/// materializing its result.
#[derive(Clone, Copy, Debug, PartialEq, Eq, Structural)]
pub enum RequestError {
    /// An upload was asked of a method that carries no body.
    UploadMethodUnsupported,
    /// A small in-memory body was not valid UTF-8 text.
    BodyNotUtf8,
}

impl RequestError {
    /// A short description of the failure.
    pub fn message(&self) -> (r: &'static str)
        ensures
            *self is UploadMethodUnsupported ==> r@ == "upload needs POST or PUT"@,
            *self is BodyNotUtf8 ==> r@ == "body is not valid UTF-8"@,
    {
        match self {
            RequestError::UploadMethodUnsupported => "upload needs POST or PUT",
            RequestError::BodyNotUtf8 => "body is not valid UTF-8",
        }
    }
}

/// Where the request body comes from.
pub enum BodySource {
    /// No body: the post data was absent or empty.
    NoBody,
    /// The post data itself is the body.
    Inline(String),
    /// The post data named a file with `@path`; the body is read from
    /// that file.
    FileRef(String),
}

/// The classification a given post-data string must resolve to: empty
/// input carries no body, a leading `@` names a file, anything else is
/// the body verbatim.
pub open spec fn body_source_of(s: Seq<char>, r: BodySource) -> bool {
    if s.len() == 0 {
        r is NoBody
    } else if s[0] == '@' {
        r matches BodySource::FileRef(p) && p@ == s.subrange(1, s.len() as int)
    } else {
        r matches BodySource::Inline(b) && b@ == s
    }
}

/// Classifies the post data of a request: absent or empty means no
/// body, a leading `@` names the file to read the body from, anything
/// else is used verbatim.
pub fn classify_post_data(post_data: &Option<String>) -> (r: BodySource)
    ensures
        post_data is None ==> r is NoBody,
        post_data matches Some(s) ==> body_source_of(s@, r),
{
    match post_data {
        Option::None => BodySource::NoBody,
        Option::Some(s) => {
            let n = s.as_str().unicode_len();
            if n == 0 {
                BodySource::NoBody
            } else if s.as_str().get_char(0) == '@' {
                let path = s.as_str().substring_char(1, n);
                BodySource::FileRef(String::from_str(path))
            } else {
                BodySource::Inline(s.clone())
            }
        },
    }
}

/// True when an upload of `file_size` bytes takes the streaming path
/// rather than being read whole into memory.
pub fn upload_streams(file_size: u64) -> (r: bool)
    ensures
        r <==> file_size > STREAM_THRESHOLD,
{
    file_size > STREAM_THRESHOLD
}

/// Whether a response is streamed to disk: when its declared content
/// length exceeds the threshold, or when the progress display was
/// asked for.
pub open spec fn download_streams_spec(content_length: Option<u64>, show_progress: bool) -> bool {
    show_progress || (content_length matches Some(n) && n > STREAM_THRESHOLD)
}

/// Decides whether the response body is streamed to a file on disk or
/// buffered whole as text.
pub fn download_streams(content_length: Option<u64>, show_progress: bool) -> (r: bool)
    ensures
        r == download_streams_spec(content_length, show_progress),
{
    if show_progress {
        true
    } else {
        match content_length {
            Option::Some(n) => n > STREAM_THRESHOLD,
            Option::None => false,
        }
    }
}

/// True for the two methods that may carry an upload body.
pub fn method_allows_body(method: HttpMethod) -> (r: bool)
    ensures
        r <==> (method is Post || method is Put),
{
    match method {
        HttpMethod::Post => true,
        HttpMethod::Put => true,
        _ => false,
    }
}

/// Checks that a method may carry an upload: only POST and PUT do; any
/// other method is a fatal configuration error, reported immediately.
pub fn check_upload_method(method: HttpMethod) -> (r: Result<(), RequestError>)
    ensures
        r is Ok <==> (method is Post || method is Put),
        r matches Err(e) ==> e is UploadMethodUnsupported,
{
    if method_allows_body(method) {
        Result::Ok(())
    } else {
        Result::Err(RequestError::UploadMethodUnsupported)
    }
}

/// What decoding a byte sequence as UTF-8 text yields: the character
/// sequence when the bytes are valid UTF-8, nothing otherwise. The
/// result depends on the bytes alone.
pub uninterp spec fn utf8_decoded(bytes: Seq<u8>) -> Option<Seq<char>>;

/// Relies on String::from_utf8: returns the decoded text exactly when
/// the bytes are valid UTF-8, and an error otherwise; the outcome is a
/// function of the bytes alone.
#[verifier::external_body]
fn decode_utf8(bytes: Vec<u8>) -> (r: Option<String>)
    ensures
        r is Some <==> utf8_decoded(bytes@) is Some,
        r matches Some(s) ==> utf8_decoded(bytes@) == Some(s@),
{
    match String::from_utf8(bytes) {
        Ok(s) => Some(s),
        Err(_) => None,
    }
}

/// Decodes the bytes of a small body file as text. The raw bytes are
/// never reinterpreted blindly: invalid UTF-8 is reported as a decode
/// error rather than silently corrupted.
pub fn decode_file_body(bytes: Vec<u8>) -> (r: Result<String, RequestError>)
    ensures
        r is Ok <==> utf8_decoded(bytes@) is Some,
        r matches Ok(s) ==> utf8_decoded(bytes@) == Some(s@),
        r matches Err(e) ==> e is BodyNotUtf8,
{
    match decode_utf8(bytes) {
        Option::Some(s) => Result::Ok(s),
        Option::None => Result::Err(RequestError::BodyNotUtf8),
    }
}

/// The final path segment of a URL: the characters after the last `/`.
pub open spec fn last_segment(s: Seq<char>) -> Seq<char>
    decreases s.len(),
{
    if s.len() == 0 {
        Seq::<char>::empty()
    } else if s.last() == '/' {
        Seq::<char>::empty()
    } else {
        last_segment(s.drop_last()).push(s.last())
    }
}

/// The file a streamed download lands in: the URL's final path
/// segment, or a fixed default name when that segment is empty or a
/// single character.
pub open spec fn derived_filename_spec(url: Seq<char>) -> Seq<char> {
    if last_segment(url).len() <= 1 {
        "fizz_download"@
    } else {
        last_segment(url)
    }
}

proof fn lemma_last_segment_after_cut(s: Seq<char>, cut: int)
    requires
        0 <= cut <= s.len(),
        forall|j: int| cut <= j < s.len() ==> s[j] != '/',
        cut > 0 ==> s[cut - 1] == '/',
    ensures
        last_segment(s) == s.subrange(cut, s.len() as int),
    decreases s.len(),
{
    if cut == s.len() {
        if s.len() == 0 {
            assert(last_segment(s) =~= s.subrange(cut, s.len() as int));
        } else {
            assert(s.last() == '/');
            assert(last_segment(s) =~= s.subrange(cut, s.len() as int));
        }
    } else {
        assert(s.last() != '/');
        lemma_last_segment_after_cut(s.drop_last(), cut);
        assert(s.drop_last().subrange(cut, s.drop_last().len() as int) =~= s.subrange(
            cut,
            s.len() - 1,
        ));
        assert(last_segment(s) =~= s.subrange(cut, s.len() - 1).push(s.last()));
        assert(s.subrange(cut, s.len() - 1).push(s.last()) =~= s.subrange(cut, s.len() as int));
    }
}

/// Derives the destination file name of a streamed download from the
/// URL: its final path segment, or the fixed default when that segment
/// is empty or a single character.
pub fn derive_filename(url: &str) -> (r: String)
    ensures
        r@ == derived_filename_spec(url@),
{
    let n = url.unicode_len();
    let mut cut: usize = 0;
    let mut i: usize = 0;
    while i < n
        invariant
            0 <= cut <= i <= n,
            n == url@.len(),
            cut > 0 ==> url@[cut - 1] == '/',
            forall|j: int| cut <= j < i ==> url@[j] != '/',
        decreases n - i,
    {
        if url.get_char(i) == '/' {
            cut = i + 1;
        }
        i = i + 1;
    }
    proof {
        lemma_last_segment_after_cut(url@, cut as int);
    }
    let seg = url.substring_char(cut, n);
    if seg.unicode_len() <= 1 {
        String::from_str("fizz_download")
    } else {
        String::from_str(seg)
    }
}

/// The marker a streamed download returns in place of the body text.
pub open spec fn written_marker_spec(name: Seq<char>) -> Seq<char> {
    "written to ./"@ + name
}

/// The body text a streamed download reports: a marker naming the file
/// the bytes were written to.
pub fn written_marker(name: &str) -> (r: String)
    ensures
        r@ == written_marker_spec(name@),
{
    let mut r = String::from_str("written to ./");
    r.append(name);
    r
}

/// Assembles the result of a buffered response: the body is the
/// literal response text.
pub fn buffered_result(status_code: String, headers: String, body: String) -> (r: FizzResult)
    ensures
        r.status_code == status_code,
        r.headers == headers,
        r.body == body,
{
    FizzResult { status_code, headers, body }
}

/// Assembles the result of a streamed download: the body is the
/// written-to marker naming the destination file.
pub fn streamed_result(status_code: String, headers: String, filename: &str) -> (r: FizzResult)
    ensures
        r.status_code == status_code,
        r.headers == headers,
        r.body@ == written_marker_spec(filename@),
{
    let body = written_marker(filename);
    FizzResult { status_code, headers, body }
}

} // verus!

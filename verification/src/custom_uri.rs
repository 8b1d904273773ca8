//! Serving the files of a space over HTTP: which file a request means, which
//! part of it is asked for, and what the answer looks like.

use vstd::prelude::*;
use crate::text::{
    after_first, before_first, lowercase, same_text, split_first, strip_leading,
    text_strip_leading, to_lowercase,
};
use crate::utils::{decimal_text, parse_id, spec_parse_id, u64_text};

verus! {

/// A contiguous part of a file.
#[derive(Clone, Copy, Debug, PartialEq, Eq, Structural)]
pub struct ByteRange {
    pub start: u64,
    pub length: u64,
}

/// The parts of a file of `size` bytes that the `Range` header `header` asks
/// for, as `http_range` reads it; `None` where it cannot be read or asks
/// for nothing that the file has.
pub uninterp spec fn spec_parse_ranges(header: Seq<char>, size: u64) -> Option<Seq<ByteRange>>;

/// `http_range::HttpRange::parse`: the result depends on the header and the
/// size alone, and every part lies within the file.
#[verifier::external_body]
fn parse_ranges(header: &str, size: u64) -> (ranges: Option<Vec<ByteRange>>)
    ensures
        match ranges {
            Some(v) => spec_parse_ranges(header@, size) == Some(v@),
            None => spec_parse_ranges(header@, size) is None,
        },
        ranges matches Some(v) ==> forall|i: int|
            0 <= i < v@.len() ==> (#[trigger] v@[i]).start + v@[i].length <= size,
{
    http_range::HttpRange::parse(header, size).ok().map(
        |v| v.into_iter().map(|r| ByteRange { start: r.start, length: r.length }).collect(),
    )
}

/// The method of a request.
#[derive(Clone, Copy, Debug, PartialEq, Eq, Structural)]
pub enum Method {
    Head,
    Options,
    Get,
    Post,
    Other,
}

/// A path of the file system that could not be used.
#[derive(Debug)]
pub struct FileIOError {
    pub path: String,
    /// What the operating system said.
    pub source: String,
}

impl FileIOError {
    pub fn from(path: &str, source: String) -> (error: FileIOError)
        ensures
            error.path@ == path@,
            error.source@ == source@,
    {
        FileIOError { path: path.to_owned(), source }
    }

    pub fn message(&self) -> (text: String)
        ensures
            text@ == "error accessing path: '"@ + self.path@ + "'"@,
    {
        let mut text = String::from_str("error accessing path: '");
        text.append(self.path.as_str());
        text.append("'");
        text
    }
}

/// A path that is not UTF-8, in a lossy rendering.
#[derive(Debug)]
pub struct NonUtf8PathError(pub String);

impl NonUtf8PathError {
    pub fn message(&self) -> (text: String)
        ensures
            text@ == "received a non UTF-8 path: <lossy_path='"@ + self.0@ + "'>"@,
    {
        let mut text = String::from_str("received a non UTF-8 path: <lossy_path='");
        text.append(self.0.as_str());
        text.append("'>");
        text
    }
}

/// Why a request for a file was not served.
#[derive(Debug)]
pub enum HandleCustomUriError {
    /// The answer could not be built.
    Http(String),
    FileIO(FileIOError),
    /// The store failed a query.
    QueryError(String),
    BadRequest(&'static str),
    RangeNotSatisfiable(&'static str),
    /// What was not found: `space`, `object` or `file`.
    NotFound(&'static str),
}

/// What stands for an error in contracts.
pub enum ErrorView {
    Http,
    FileIO,
    QueryError,
    BadRequest(Seq<char>),
    RangeNotSatisfiable(Seq<char>),
    NotFound(Seq<char>),
}

impl View for HandleCustomUriError {
    type V = ErrorView;

    open spec fn view(&self) -> ErrorView {
        match self {
            HandleCustomUriError::Http(_) => ErrorView::Http,
            HandleCustomUriError::FileIO(_) => ErrorView::FileIO,
            HandleCustomUriError::QueryError(_) => ErrorView::QueryError,
            HandleCustomUriError::BadRequest(m) => ErrorView::BadRequest(m@),
            HandleCustomUriError::RangeNotSatisfiable(m) => ErrorView::RangeNotSatisfiable(m@),
            HandleCustomUriError::NotFound(m) => ErrorView::NotFound(m@),
        }
    }
}

/// An answer to a request.
#[derive(Debug)]
pub struct HttpResponse {
    pub status: u16,
    pub headers: Vec<(String, String)>,
    pub body: Vec<u8>,
}

pub struct HttpResponseView {
    pub status: u16,
    pub headers: Seq<(Seq<char>, Seq<char>)>,
    pub body: Seq<u8>,
}

/// The headers of an answer, as texts.
pub open spec fn headers_view(headers: Seq<(String, String)>) -> Seq<(Seq<char>, Seq<char>)> {
    headers.map_values(|h: (String, String)| (h.0@, h.1@))
}

impl View for HttpResponse {
    type V = HttpResponseView;

    open spec fn view(&self) -> HttpResponseView {
        HttpResponseView {
            status: self.status,
            headers: headers_view(self.headers@),
            body: self.body@,
        }
    }
}

fn push_header(headers: &mut Vec<(String, String)>, name: &str, value: String)
    ensures
        headers_view(final(headers)@) == headers_view(old(headers)@).push((name@, value@)),
{
    headers.push((name.to_owned(), value));
    assert(headers_view(headers@) =~= headers_view(old(headers)@).push((name@, value@)));
}

fn no_headers() -> (headers: Vec<(String, String)>)
    ensures
        headers_view(headers@) == Seq::<(Seq<char>, Seq<char>)>::empty(),
{
    let headers: Vec<(String, String)> = Vec::new();
    assert(headers_view(headers@) =~= Seq::empty());
    headers
}

/// What a request asks for.
#[derive(Clone, Copy, Debug, PartialEq, Eq, Structural)]
pub enum Route {
    /// Leave to use the endpoint from another origin.
    Preflight,
    /// The file `file_id` of the space `space_id`.
    File { space_id: u128, file_id: u128 },
}

/// The segment at the place `n` of a path whose segments are separated by
/// slashes; `None` where the path has fewer segments.
pub open spec fn segment(path: Seq<char>, n: nat) -> Option<Seq<char>>
    decreases n,
{
    if n == 0 {
        Some(before_first(path, '/'))
    } else {
        match after_first(path, '/') {
            Some(rest) => segment(rest, (n - 1) as nat),
            None => None,
        }
    }
}

/// The identifier in the segment at the place `n`, if the path has such a
/// segment and it stands for one.
pub open spec fn segment_id(path: Seq<char>, n: nat) -> Option<u128> {
    match segment(path, n) {
        Some(s) => spec_parse_id(s),
        None => None,
    }
}

/// What the request for `uri_path` with the method `method` asks for.
///
/// The path is `file`, the identifier of a space and the identifier of a
/// file, separated by slashes, after an optional leading slash. A request
/// with the method `OPTIONS` asks for leave, whatever follows `file`.
pub open spec fn spec_route(uri_path: Seq<char>, method: Method) -> Result<Route, ErrorView> {
    let path = strip_leading(uri_path, '/');
    if segment(path, 0) != Some("file"@) {
        Err(ErrorView::BadRequest("Invalid operation!"@))
    } else if method == Method::Options {
        Ok(Route::Preflight)
    } else {
        match segment_id(path, 1) {
            None => Err(
                ErrorView::BadRequest("Invalid number of parameters. Missing space_id!"@),
            ),
            Some(space_id) => match segment_id(path, 2) {
                None => Err(
                    ErrorView::BadRequest("Invalid number of parameters. Missing file_id!"@),
                ),
                Some(file_id) => Ok(Route::File { space_id, file_id }),
            },
        }
    }
}

/// The view of a routing result.
pub open spec fn route_view(r: Result<Route, HandleCustomUriError>) -> Result<Route, ErrorView> {
    match r {
        Ok(route) => Ok(route),
        Err(e) => Err(e@),
    }
}

/// The identifier at the head of what is left of a path, and what is left
/// after it.
fn next_id(rest: Option<String>) -> (r: (Option<u128>, Option<String>))
    ensures
        match rest {
            None => r.0 is None && r.1 is None,
            Some(text) => {
                &&& r.0 == spec_parse_id(before_first(text@, '/'))
                &&& match r.1 {
                    Some(tail) => after_first(text@, '/') == Some(tail@),
                    None => after_first(text@, '/') is None,
                }
            },
        },
{
    match rest {
        None => (None, None),
        Some(text) => {
            let (head, tail) = split_first(text.as_str(), '/');
            (parse_id(head.as_str()), tail)
        },
    }
}

/// What the request for `uri_path` with the method `method` asks for.
pub fn route(uri_path: &str, method: Method) -> (r: Result<Route, HandleCustomUriError>)
    ensures
        route_view(r) == spec_route(uri_path@, method),
{
    let path = text_strip_leading(uri_path, '/');
    let (first, rest) = split_first(path.as_str(), '/');
    if !same_text(first.as_str(), "file") {
        return Err(HandleCustomUriError::BadRequest("Invalid operation!"));
    }
    if let Method::Options = method {
        return Ok(Route::Preflight);
    }
    let ghost path_text = path@;
    let (space, rest) = next_id(rest);
    assert(space == segment_id(path_text, 1)) by {
        reveal_with_fuel(segment, 3);
    }
    let space_id = match space {
        Some(id) => id,
        None => {
            return Err(
                HandleCustomUriError::BadRequest(
                    "Invalid number of parameters. Missing space_id!",
                ),
            );
        },
    };
    let (file, _rest) = next_id(rest);
    assert(file == segment_id(path_text, 2)) by {
        reveal_with_fuel(segment, 4);
    }
    match file {
        Some(file_id) => Ok(Route::File { space_id, file_id }),
        None => Err(
            HandleCustomUriError::BadRequest("Invalid number of parameters. Missing file_id!"),
        ),
    }
}

/// The answer that gives leave to use the endpoint from any origin.
pub open spec fn spec_preflight() -> HttpResponseView {
    HttpResponseView {
        status: 200,
        headers: seq![
            ("Access-Control-Allow-Origin"@, "*"@),
            ("Access-Control-Allow-Methods"@, "GET, HEAD, POST, OPTIONS"@),
            ("Access-Control-Allow-Headers"@, "*"@),
            ("Access-Control-Max-Age"@, "86400"@),
        ],
        body: Seq::empty(),
    }
}

/// The answer to a request for leave; `None` for any other request.
pub fn cors(method: Method) -> (answer: Option<HttpResponse>)
    ensures
        match answer {
            Some(response) => method == Method::Options && response@ == spec_preflight(),
            None => method != Method::Options,
        },
{
    match method {
        Method::Options => {
            let mut headers = no_headers();
            push_header(&mut headers, "Access-Control-Allow-Origin", "*".to_owned());
            push_header(
                &mut headers,
                "Access-Control-Allow-Methods",
                "GET, HEAD, POST, OPTIONS".to_owned(),
            );
            push_header(&mut headers, "Access-Control-Allow-Headers", "*".to_owned());
            push_header(&mut headers, "Access-Control-Max-Age", "86400".to_owned());
            assert(headers_view(headers@) =~= spec_preflight().headers);
            let body: Vec<u8> = Vec::new();
            assert(body@ =~= spec_preflight().body);
            Some(HttpResponse { status: 200, headers, body })
        },
        _ => None,
    }
}

/// The error for a file that could not be opened: the file is reported as
/// not found where the operating system says so.
pub fn open_error(path: &str, not_found: bool, source: String) -> (error: HandleCustomUriError)
    ensures
        error@ == if not_found {
            ErrorView::NotFound("file"@)
        } else {
            ErrorView::FileIO
        },
        error matches HandleCustomUriError::FileIO(e) ==> e.path@ == path@ && e.source@
            == source@,
{
    if not_found {
        HandleCustomUriError::NotFound("file")
    } else {
        HandleCustomUriError::FileIO(FileIOError::from(path, source))
    }
}

/// The media type of a file with this extension in lower case; `None` for
/// an extension that is not served.
pub open spec fn spec_mime_type(ext: Seq<char>) -> Option<Seq<char>> {
    if ext == "mp4"@ || ext == "m4v"@ {
        Some("video/mp4"@)
    } else if ext == "mov"@ {
        Some("video/quicktime"@)
    } else if ext == "gif"@ {
        Some("image/gif"@)
    } else if ext == "jpeg"@ || ext == "jpg"@ {
        Some("image/jpeg"@)
    } else if ext == "png"@ {
        Some("image/png"@)
    } else if ext == "svg"@ {
        Some("image/svg+xml"@)
    } else if ext == "tif"@ || ext == "tiff"@ {
        Some("image/tiff"@)
    } else if ext == "webp"@ {
        Some("image/webp"@)
    } else if ext == "pdf"@ {
        Some("application/pdf"@)
    } else if ext == "heif"@ || ext == "heifs"@ {
        Some("image/heif,image/heif-sequence"@)
    } else if ext == "heic"@ || ext == "heics"@ {
        Some("image/heic,image/heic-sequence"@)
    } else if ext == "avif"@ || ext == "avci"@ || ext == "avcs"@ {
        Some("image/avif"@)
    } else {
        None
    }
}

/// The media type of a file with this extension, given in lower case;
/// `None` for an extension that is not served.
pub fn mime_of_lower(ext: &str) -> (mime: Option<&'static str>)
    ensures
        match mime {
            Some(m) => spec_mime_type(ext@) == Some(m@),
            None => spec_mime_type(ext@) is None,
        },
{
    if same_text(ext, "mp4") || same_text(ext, "m4v") {
        Some("video/mp4")
    } else if same_text(ext, "mov") {
        Some("video/quicktime")
    } else if same_text(ext, "gif") {
        Some("image/gif")
    } else if same_text(ext, "jpeg") || same_text(ext, "jpg") {
        Some("image/jpeg")
    } else if same_text(ext, "png") {
        Some("image/png")
    } else if same_text(ext, "svg") {
        Some("image/svg+xml")
    } else if same_text(ext, "tif") || same_text(ext, "tiff") {
        Some("image/tiff")
    } else if same_text(ext, "webp") {
        Some("image/webp")
    } else if same_text(ext, "pdf") {
        Some("application/pdf")
    } else if same_text(ext, "heif") || same_text(ext, "heifs") {
        Some("image/heif,image/heif-sequence")
    } else if same_text(ext, "heic") || same_text(ext, "heics") {
        Some("image/heic,image/heic-sequence")
    } else if same_text(ext, "avif") || same_text(ext, "avci") || same_text(ext, "avcs") {
        Some("image/avif")
    } else {
        None
    }
}

/// The media type of a file with this extension, whatever its case; a bad
/// request for an extension that is not served.
pub fn mime_type(extension: &str) -> (mime: Result<&'static str, HandleCustomUriError>)
    ensures
        match mime {
            Ok(m) => spec_mime_type(lowercase(extension@)) == Some(m@),
            Err(e) => spec_mime_type(lowercase(extension@)) is None && e@
                == ErrorView::BadRequest(
                "TODO: This filetype is not supported because of the missing mime type!"@,
            ),
        },
{
    let lower = to_lowercase(extension);
    match mime_of_lower(lower.as_str()) {
        Some(m) => Ok(m),
        None => Err(
            HandleCustomUriError::BadRequest(
                "TODO: This filetype is not supported because of the missing mime type!",
            ),
        ),
    }
}

/// The `Range` header of a request.
#[derive(Debug)]
pub enum RangeHeader {
    Absent,
    /// There is one, and it is no text.
    Unreadable,
    Text(String),
}

/// The part of a file of `size` bytes that a request asks for; `None` where
/// it asks for all of it.
///
/// Only `GET` requests can ask for a part, and for one part only. A header
/// that cannot be read, that asks for several parts or for an empty one is
/// refused.
pub open spec fn spec_select_range(method: Method, range: RangeHeader, size: u64) -> Result<
    Option<ByteRange>,
    ErrorView,
> {
    if method != Method::Get {
        Ok(None)
    } else {
        match range {
            RangeHeader::Absent => Ok(None),
            RangeHeader::Unreadable => Err(
                ErrorView::RangeNotSatisfiable("Error decoding range header!"@),
            ),
            RangeHeader::Text(header) => spec_select_parts(spec_parse_ranges(header@, size)),
        }
    }
}

/// The part that is served, where `parsed` is what the `Range` header was
/// read as: the one part that it names. A header that could not be read,
/// that names several parts or an empty one is refused; one that names no
/// part asks for the whole file.
pub open spec fn spec_select_parts(parsed: Option<Seq<ByteRange>>) -> Result<
    Option<ByteRange>,
    ErrorView,
> {
    match parsed {
        None => Err(ErrorView::RangeNotSatisfiable("Error decoding range header!"@)),
        Some(ranges) => if ranges.len() > 1 {
            Err(ErrorView::RangeNotSatisfiable("Multiple ranges are not supported!"@))
        } else if ranges.len() == 0 {
            Ok(None)
        } else if ranges[0].length == 0 {
            Err(ErrorView::RangeNotSatisfiable("Error decoding range header!"@))
        } else {
            Ok(Some(ranges[0]))
        },
    }
}

/// The view of what a `Range` header was read as.
pub open spec fn parts_view(parsed: Option<Vec<ByteRange>>) -> Option<Seq<ByteRange>> {
    match parsed {
        Some(v) => Some(v@),
        None => None,
    }
}

/// The view of a selection.
pub open spec fn selection_view(r: Result<Option<ByteRange>, HandleCustomUriError>) -> Result<
    Option<ByteRange>,
    ErrorView,
> {
    match r {
        Ok(range) => Ok(range),
        Err(e) => Err(e@),
    }
}

/// The part that is served, where `parsed` is what the `Range` header was
/// read as; `None` where the whole file is.
pub fn select_parts(parsed: Option<Vec<ByteRange>>) -> (r: Result<
    Option<ByteRange>,
    HandleCustomUriError,
>)
    ensures
        selection_view(r) == spec_select_parts(parts_view(parsed)),
{
    match parsed {
        None => Err(HandleCustomUriError::RangeNotSatisfiable("Error decoding range header!")),
        Some(ranges) => {
            if ranges.len() > 1 {
                Err(HandleCustomUriError::RangeNotSatisfiable("Multiple ranges are not supported!"))
            } else if ranges.len() == 0 {
                Ok(None)
            } else {
                let part = ranges[0];
                if part.length == 0 {
                    Err(HandleCustomUriError::RangeNotSatisfiable("Error decoding range header!"))
                } else {
                    Ok(Some(part))
                }
            }
        },
    }
}

/// The part of a file of `size` bytes that a request asks for; `None` where
/// it asks for all of it.
pub fn select_range(method: Method, range: &RangeHeader, size: u64) -> (r: Result<
    Option<ByteRange>,
    HandleCustomUriError,
>)
    ensures
        selection_view(r) == spec_select_range(method, *range, size),
        r matches Ok(Some(part)) ==> part.length >= 1 && part.start + part.length <= size,
{
    match method {
        Method::Get => {},
        _ => {
            return Ok(None);
        },
    }
    match range {
        RangeHeader::Absent => Ok(None),
        RangeHeader::Unreadable => Err(
            HandleCustomUriError::RangeNotSatisfiable("Error decoding range header!"),
        ),
        RangeHeader::Text(header) => select_parts(parse_ranges(header.as_str(), size)),
    }
}

/// What of a file goes into the body of the answer.
#[derive(Clone, Copy, Debug, PartialEq, Eq, Structural)]
pub enum BodyPlan {
    /// The part that was asked for.
    Partial(ByteRange),
    /// Nothing: the request only asks for the headers.
    Empty,
    /// All of it.
    Full,
}

/// What of a file goes into the body of the answer.
pub fn plan_body(method: Method, part: Option<ByteRange>) -> (plan: BodyPlan)
    ensures
        plan == match part {
            Some(p) => BodyPlan::Partial(p),
            None => if method == Method::Head {
                BodyPlan::Empty
            } else {
                BodyPlan::Full
            },
        },
{
    match part {
        Some(p) => BodyPlan::Partial(p),
        None => match method {
            Method::Head => BodyPlan::Empty,
            _ => BodyPlan::Full,
        },
    }
}

/// The value of the `Content-Range` header for a part of a file of `size`
/// bytes.
pub open spec fn spec_content_range(part: ByteRange, size: u64) -> Seq<char> {
    "bytes "@ + decimal_text(part.start as nat) + "-"@ + decimal_text(
        (part.start + part.length - 1) as nat,
    ) + "/"@ + decimal_text(size as nat)
}

/// The value of the `Content-Range` header for a part of a file of `size`
/// bytes.
pub fn content_range(part: ByteRange, size: u64) -> (text: String)
    requires
        part.length >= 1,
        part.start + part.length <= u64::MAX,
    ensures
        text@ == spec_content_range(part, size),
{
    let last: u64 = part.start + part.length - 1;
    let mut text = String::from_str("bytes ");
    text.append(u64_text(part.start).as_str());
    text.append("-");
    text.append(u64_text(last).as_str());
    text.append("/");
    text.append(u64_text(size).as_str());
    text
}

/// The answer that serves a file of `size` bytes and of the media type
/// `mime`.
///
/// A part is served with the status 206 and says which part it is; every
/// answer allows any origin, and says how long what was asked for is and of
/// what type.
pub open spec fn spec_file_response(
    plan: BodyPlan,
    mime: Seq<char>,
    size: u64,
    body: Seq<u8>,
) -> HttpResponseView {
    let origin = seq![("Access-Control-Allow-Origin"@, "*"@)];
    let about_range = match plan {
        BodyPlan::Partial(part) => seq![
            ("Connection"@, "Keep-Alive"@),
            ("Accept-Ranges"@, "bytes"@),
            ("Content-Range"@, spec_content_range(part, size)),
        ],
        BodyPlan::Empty => seq![("Accept-Ranges"@, "bytes"@)],
        BodyPlan::Full => Seq::empty(),
    };
    let length = match plan {
        BodyPlan::Partial(part) => part.length,
        _ => size,
    };
    HttpResponseView {
        status: if plan is Partial {
            206
        } else {
            200
        },
        headers: origin + about_range + seq![
            ("Content-type"@, mime),
            ("Content-Length"@, decimal_text(length as nat)),
        ],
        body,
    }
}

/// The answer that serves a file of `size` bytes and of the media type
/// `mime`, with `body` as read from the file.
pub fn file_response(plan: BodyPlan, mime: &str, size: u64, body: Vec<u8>) -> (response:
    HttpResponse)
    requires
        plan matches BodyPlan::Partial(part) ==> part.length >= 1 && part.start + part.length
            <= u64::MAX,
    ensures
        response@ == spec_file_response(plan, mime@, size, body@),
{
    let mut headers = no_headers();
    push_header(&mut headers, "Access-Control-Allow-Origin", "*".to_owned());
    let mut status: u16 = 200;
    let mut length: u64 = size;
    match plan {
        BodyPlan::Partial(part) => {
            status = 206;
            length = part.length;
            push_header(&mut headers, "Connection", "Keep-Alive".to_owned());
            push_header(&mut headers, "Accept-Ranges", "bytes".to_owned());
            push_header(&mut headers, "Content-Range", content_range(part, size));
        },
        BodyPlan::Empty => {
            push_header(&mut headers, "Accept-Ranges", "bytes".to_owned());
        },
        BodyPlan::Full => {},
    }
    push_header(&mut headers, "Content-type", mime.to_owned());
    push_header(&mut headers, "Content-Length", u64_text(length));
    assert(headers_view(headers@) =~= spec_file_response(plan, mime@, size, body@).headers);
    HttpResponse { status, headers, body }
}

/// The answer that reports an error: what went wrong inside is not told.
pub open spec fn spec_error_response(error: ErrorView) -> HttpResponseView {
    let (status, text) = match error {
        ErrorView::Http => (500u16, "Internal Server Error"@),
        ErrorView::FileIO => (500u16, "Internal Server Error"@),
        ErrorView::QueryError => (500u16, "Internal Server Error"@),
        ErrorView::BadRequest(m) => (400u16, m),
        ErrorView::RangeNotSatisfiable(m) => (416u16, m),
        ErrorView::NotFound(what) => (404u16, "Resource '"@ + what + "' not found"@),
    };
    HttpResponseView {
        status,
        headers: seq![("Content-Type"@, "text/plain"@)],
        body: vstd::utf8::encode_utf8(text),
    }
}

/// The answer that reports an error.
pub fn error_response(error: &HandleCustomUriError) -> (response: HttpResponse)
    ensures
        response@ == spec_error_response(error@),
{
    let mut headers = no_headers();
    push_header(&mut headers, "Content-Type", "text/plain".to_owned());
    let (status, body): (u16, Vec<u8>) = match error {
        HandleCustomUriError::Http(_) => (500, "Internal Server Error".as_bytes_vec()),
        HandleCustomUriError::FileIO(_) => (500, "Internal Server Error".as_bytes_vec()),
        HandleCustomUriError::QueryError(_) => (500, "Internal Server Error".as_bytes_vec()),
        HandleCustomUriError::BadRequest(m) => (400, m.as_bytes_vec()),
        HandleCustomUriError::RangeNotSatisfiable(m) => (416, m.as_bytes_vec()),
        HandleCustomUriError::NotFound(what) => {
            let mut text = String::from_str("Resource '");
            text.append(what);
            text.append("' not found");
            (404, text.as_str().as_bytes_vec())
        },
    };
    HttpResponse { status, headers, body }
}

/// What serving a file asks of its driver.
#[derive(Debug)]
pub enum ServeRequest {
    /// Find out where the file lies and what its extension is.
    Locate { space_id: u128, file_id: u128 },
    /// Open the file at `path`, and read its size.
    Open { path: String },
    /// Read `length` bytes of the open file from `start` on; all of it
    /// where `start` is `None`.
    Read { start: Option<u64>, length: u64 },
    /// Send the answer. The request is served.
    Respond(HttpResponse),
}

pub enum ServeRequestView {
    Locate { space_id: u128, file_id: u128 },
    Open { path: Seq<char> },
    Read { start: Option<u64>, length: u64 },
    Respond(HttpResponseView),
}

impl View for ServeRequest {
    type V = ServeRequestView;

    open spec fn view(&self) -> ServeRequestView {
        match self {
            ServeRequest::Locate { space_id, file_id } => ServeRequestView::Locate {
                space_id: *space_id,
                file_id: *file_id,
            },
            ServeRequest::Open { path } => ServeRequestView::Open { path: path@ },
            ServeRequest::Read { start, length } => ServeRequestView::Read {
                start: *start,
                length: *length,
            },
            ServeRequest::Respond(r) => ServeRequestView::Respond(r@),
        }
    }
}

/// What the driver hands back.
#[derive(Debug)]
pub enum ServeReply {
    Located { path: String, extension: String },
    /// The node holds no such space.
    SpaceMissing,
    /// The store holds no such file.
    ObjectMissing,
    /// The store failed the query.
    QueryFailed(String),
    /// The file is open; `size` is `None` where its size could not be
    /// read, and `source` says why.
    Opened { size: Option<u64>, source: String },
    /// The file could not be opened.
    OpenFailed { not_found: bool, source: String },
    Data(Vec<u8>),
    ReadFailed(String),
}

/// How far the serving of a file has come.
#[derive(Debug)]
pub enum Stage {
    Locating,
    Opening { path: String, extension: String },
    Reading { path: String, mime: &'static str, plan: BodyPlan, size: u64 },
    Done,
}

/// The serving of one request for a file.
#[derive(Debug)]
pub struct Serve {
    pub method: Method,
    pub range: RangeHeader,
    pub stage: Stage,
}

/// The request that answers with the error `error`.
pub open spec fn refuse(error: ErrorView) -> ServeRequestView {
    ServeRequestView::Respond(spec_error_response(error))
}

/// What the routing of a request asks first: the place of the file that is
/// meant, or an answer at once.
pub open spec fn spec_begin(uri_path: Seq<char>, method: Method) -> ServeRequestView {
    match spec_route(uri_path, method) {
        Err(e) => refuse(e),
        Ok(Route::Preflight) => ServeRequestView::Respond(spec_preflight()),
        Ok(Route::File { space_id, file_id }) => ServeRequestView::Locate { space_id, file_id },
    }
}

/// What is asked once the file of the extension `extension` is open and
/// has `size` bytes: the type of the file is settled first, then the part
/// that is asked for.
pub open spec fn spec_after_open(
    method: Method,
    range: RangeHeader,
    extension: Seq<char>,
    size: Option<u64>,
) -> ServeRequestView {
    match spec_mime_type(lowercase(extension)) {
        None => refuse(
            ErrorView::BadRequest(
                "TODO: This filetype is not supported because of the missing mime type!"@,
            ),
        ),
        Some(mime) => match size {
            None => refuse(ErrorView::FileIO),
            Some(size) => match spec_select_range(method, range, size) {
                Err(e) => refuse(e),
                Ok(Some(part)) => ServeRequestView::Read {
                    start: Some(part.start),
                    length: part.length,
                },
                Ok(None) => if method == Method::Head {
                    ServeRequestView::Respond(
                        spec_file_response(BodyPlan::Empty, mime, size, Seq::empty()),
                    )
                } else {
                    ServeRequestView::Read { start: None, length: size }
                },
            },
        },
    }
}

/// How one turn of the serving relates the serving before it and the reply
/// to the serving after it and to what is asked next.
pub open spec fn serve_turn(pre: Serve, reply: ServeReply, post: Serve, request: ServeRequest) -> bool {
    &&& post.method == pre.method
    &&& post.range == pre.range
    &&& (request is Respond <==> post.stage is Done)
    &&& match pre.stage {
        Stage::Locating => match reply {
            ServeReply::Located { path, extension } => {
                &&& request@ == ServeRequestView::Open { path: path@ }
                &&& post.stage matches Stage::Opening { path: p, extension: e }
                &&& p@ == path@
                &&& e@ == extension@
            },
            ServeReply::SpaceMissing => request@ == refuse(ErrorView::NotFound("space"@)),
            ServeReply::ObjectMissing => request@ == refuse(ErrorView::NotFound("object"@)),
            ServeReply::QueryFailed(_) => request@ == refuse(ErrorView::QueryError),
            _ => request@ == refuse(ErrorView::Http),
        },
        Stage::Opening { path, extension } => match reply {
            ServeReply::OpenFailed { not_found, source } => request@ == refuse(
                if not_found {
                    ErrorView::NotFound("file"@)
                } else {
                    ErrorView::FileIO
                },
            ),
            ServeReply::Opened { size, source } => {
                &&& request@ == spec_after_open(pre.method, pre.range, extension@, size)
                &&& request is Read ==> {
                    &&& post.stage matches Stage::Reading { path: p, mime, plan, size: s }
                    &&& p@ == path@
                    &&& spec_mime_type(lowercase(extension@)) == Some(mime@)
                    &&& size == Some(s)
                    &&& spec_select_range(pre.method, pre.range, s) == Ok::<
                        Option<ByteRange>,
                        ErrorView,
                    >(
                        match plan {
                            BodyPlan::Partial(part) => Some(part),
                            _ => None,
                        },
                    )
                    &&& !(plan is Empty)
                    &&& can_be_named(plan)
                }
            },
            _ => request@ == refuse(ErrorView::Http),
        },
        Stage::Reading { path, mime, plan, size } => match reply {
            ServeReply::Data(body) => request@ == if can_be_named(plan) {
                ServeRequestView::Respond(spec_file_response(plan, mime@, size, body@))
            } else {
                refuse(ErrorView::Http)
            },
            ServeReply::ReadFailed(_) => request@ == refuse(ErrorView::FileIO),
            _ => request@ == refuse(ErrorView::Http),
        },
        Stage::Done => request@ == refuse(ErrorView::Http),
    }
}

/// Whether the last byte of what goes into the body can be named in the
/// answer.
pub open spec fn can_be_named(plan: BodyPlan) -> bool {
    plan matches BodyPlan::Partial(part) ==> part.length >= 1 && part.start + part.length
        <= u64::MAX
}

impl Serve {
    fn refused(self, error: HandleCustomUriError) -> (r: (Serve, ServeRequest))
        ensures
            r.0.method == self.method,
            r.0.range == self.range,
            r.0.stage is Done,
            r.1@ == refuse(error@),
    {
        (
            Serve { method: self.method, range: self.range, stage: Stage::Done },
            ServeRequest::Respond(error_response(&error)),
        )
    }

    /// Takes up a request for `uri_path`.
    pub fn begin(method: Method, uri_path: &str, range: RangeHeader) -> (r: (Serve, ServeRequest))
        ensures
            r.0.method == method,
            r.0.range == range,
            r.1@ == spec_begin(uri_path@, method),
            r.1 is Respond <==> r.0.stage is Done,
            r.1 is Locate <==> r.0.stage is Locating,
    {
        let serve = Serve { method, range, stage: Stage::Locating };
        match route(uri_path, method) {
            Err(e) => serve.refused(e),
            Ok(Route::Preflight) => {
                let answer = match cors(method) {
                    Some(answer) => answer,
                    None => error_response(&HandleCustomUriError::BadRequest("Invalid operation!")),
                };
                (
                    Serve { method: serve.method, range: serve.range, stage: Stage::Done },
                    ServeRequest::Respond(answer),
                )
            },
            Ok(Route::File { space_id, file_id }) => (
                serve,
                ServeRequest::Locate { space_id, file_id },
            ),
        }
    }

    fn after_open(self, path: String, extension: String, size: Option<u64>, source: String) -> (r: (
        Serve,
        ServeRequest,
    ))
        ensures
            serve_turn(
                Serve { stage: Stage::Opening { path, extension }, ..self },
                ServeReply::Opened { size, source },
                r.0,
                r.1,
            ),
    {
        let mime = match mime_type(extension.as_str()) {
            Ok(mime) => mime,
            Err(e) => {
                return self.refused(e);
            },
        };
        let size = match size {
            Some(size) => size,
            None => {
                let error = HandleCustomUriError::FileIO(FileIOError::from(path.as_str(), source));
                return self.refused(error);
            },
        };
        let part = match select_range(self.method, &self.range, size) {
            Ok(part) => part,
            Err(e) => {
                return self.refused(e);
            },
        };
        let plan = plan_body(self.method, part);
        match plan {
            BodyPlan::Empty => (
                Serve { method: self.method, range: self.range, stage: Stage::Done },
                ServeRequest::Respond(file_response(plan, mime, size, Vec::new())),
            ),
            BodyPlan::Partial(part) => (
                Serve {
                    method: self.method,
                    range: self.range,
                    stage: Stage::Reading { path, mime, plan, size },
                },
                ServeRequest::Read { start: Some(part.start), length: part.length },
            ),
            BodyPlan::Full => (
                Serve {
                    method: self.method,
                    range: self.range,
                    stage: Stage::Reading { path, mime, plan, size },
                },
                ServeRequest::Read { start: None, length: size },
            ),
        }
    }

    /// Goes on with the serving, on the reply to what it asked.
    pub fn resume(self, reply: ServeReply) -> (r: (Serve, ServeRequest))
        ensures
            serve_turn(self, reply, r.0, r.1),
    {
        let Serve { method, range, stage } = self;
        let base = Serve { method, range, stage: Stage::Done };
        match stage {
            Stage::Locating => match reply {
                ServeReply::Located { path, extension } => (
                    Serve {
                        method: base.method,
                        range: base.range,
                        stage: Stage::Opening { path: path.clone(), extension },
                    },
                    ServeRequest::Open { path },
                ),
                ServeReply::SpaceMissing => base.refused(HandleCustomUriError::NotFound("space")),
                ServeReply::ObjectMissing => base.refused(HandleCustomUriError::NotFound("object")),
                ServeReply::QueryFailed(why) => base.refused(HandleCustomUriError::QueryError(why)),
                _ => base.refused(HandleCustomUriError::Http(String::new())),
            },
            Stage::Opening { path, extension } => match reply {
                ServeReply::OpenFailed { not_found, source } => {
                    let error = open_error(path.as_str(), not_found, source);
                    base.refused(error)
                },
                ServeReply::Opened { size, source } => base.after_open(
                    path,
                    extension,
                    size,
                    source,
                ),
                _ => base.refused(HandleCustomUriError::Http(String::new())),
            },
            Stage::Reading { path, mime, plan, size } => match reply {
                ServeReply::Data(body) => {
                    let sound = match plan {
                        BodyPlan::Partial(part) => part.length >= 1 && part.start <= u64::MAX
                            - part.length,
                        _ => true,
                    };
                    if sound {
                        (base, ServeRequest::Respond(file_response(plan, mime, size, body)))
                    } else {
                        base.refused(HandleCustomUriError::Http(String::new()))
                    }
                },
                ServeReply::ReadFailed(why) => {
                    let error = HandleCustomUriError::FileIO(FileIOError::from(path.as_str(), why));
                    base.refused(error)
                },
                _ => base.refused(HandleCustomUriError::Http(String::new())),
            },
            Stage::Done => base.refused(HandleCustomUriError::Http(String::new())),
        }
    }
}

} // verus!

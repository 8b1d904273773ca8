//! The node: the spaces, the users and the dispatcher of one server, and
//! what the server decides when a file is uploaded to it.

use vstd::prelude::*;
use crate::custom_uri::{HttpResponse, HttpResponseView};
use crate::space::{first_of, SpaceManager};
use crate::tasks::dispatcher::Dispatcher;
use crate::text::same_text;
use crate::user::{user_of, UserManager};
use crate::utils::{join_path, parse_id, path_join, spec_parse_id};

verus! {

/// The port that the server listens on unless it is told another one.
pub const DEFAULT_PORT: u16 = 8080;

/// The number that the text `s` stands for, as `str::parse` reads it;
/// `None` where it stands for none.
pub uninterp spec fn spec_parse_u16(s: Seq<char>) -> Option<u16>;

/// `str::parse::<u16>`: the result depends on the text alone.
#[verifier::external_body]
fn parse_u16(s: &str) -> (n: Option<u16>)
    ensures
        n == spec_parse_u16(s@),
{
    s.parse::<u16>().ok()
}

/// The port to listen on, where `named` is the port that the setting
/// names, if it names one.
pub open spec fn spec_port_or_default(named: Option<u16>) -> u16 {
    match named {
        Some(n) => n,
        None => DEFAULT_PORT,
    }
}

/// The port to listen on, where `named` is the port that the setting
/// names, if it names one: that port, or the default port.
pub fn port_or_default(named: Option<u16>) -> (port: u16)
    ensures
        port == spec_port_or_default(named),
{
    match named {
        Some(n) => n,
        None => DEFAULT_PORT,
    }
}

/// The port to listen on, where `var` is what the variable `PORT` holds:
/// the default port where it is not set, or holds nothing that is a port.
pub fn port(var: Option<&str>) -> (port: u16)
    ensures
        port == spec_port_or_default(
            match var {
                Some(text) => spec_parse_u16(text@),
                None => None,
            },
        ),
{
    let named = match var {
        Some(text) => parse_u16(text),
        None => None,
    };
    port_or_default(named)
}

/// The media type that `mime_guess` takes a file of this path to have,
/// plain text where it has no guess.
pub uninterp spec fn guessed_mime(path: Seq<char>) -> Seq<char>;

/// `mime_guess::from_path` with `first_or_text_plain`: the guess depends on
/// the path alone.
#[verifier::external_body]
fn guess_mime(path: &str) -> (mime: String)
    ensures
        mime@ == guessed_mime(path@),
{
    mime_guess::from_path(path).first_or_text_plain().as_ref().to_owned()
}

/// The text without the slashes at its start.
pub open spec fn trim_slashes(s: Seq<char>) -> Seq<char>
    decreases s.len(),
{
    if s.len() > 0 && s[0] == '/' {
        trim_slashes(s.skip(1))
    } else {
        s
    }
}

/// The text without the slashes at its start.
pub fn asset_path(uri_path: &str) -> (path: String)
    ensures
        path@ == trim_slashes(uri_path@),
{
    let n = uri_path.unicode_len();
    let mut start: usize = 0;
    let mut counting = true;
    let mut i: usize = 0;
    assert(uri_path@.skip(0) =~= uri_path@);
    for c in it: uri_path.chars()
        invariant
            n == uri_path@.len(),
            i == it.index(),
            it.seq() == uri_path@,
            0 <= start <= i,
            counting ==> start == i,
            !counting ==> start < n && uri_path@[start as int] != '/',
            trim_slashes(uri_path@) == trim_slashes(uri_path@.skip(start as int)),
    {
        if counting {
            if c == '/' {
                assert(uri_path@.skip(start as int).skip(1) =~= uri_path@.skip(start + 1));
                start = i + 1;
            } else {
                counting = false;
            }
        }
        i = i + 1;
    }
    let rest = uri_path.substring_char(start, n).to_owned();
    assert(rest@ =~= uri_path@.skip(start as int));
    rest
}

/// The answer to a request for a file of the web application, where
/// `mime` is the media type of the file.
///
/// The file is served with its media type. A path that names no file is
/// answered with the start page, so that the application can take the path
/// for one of its own; and with nothing where there is no start page.
pub open spec fn spec_asset_response_as(
    mime: Seq<char>,
    asset: Option<Seq<u8>>,
    index: Option<Seq<u8>>,
) -> HttpResponseView {
    match asset {
        Some(body) => HttpResponseView {
            status: 200,
            headers: seq![("content-type"@, mime)],
            body,
        },
        None => match index {
            Some(body) => HttpResponseView {
                status: 200,
                headers: seq![("content-type"@, "text/html"@)],
                body,
            },
            None => HttpResponseView { status: 404, headers: Seq::empty(), body: Seq::empty() },
        },
    }
}

/// The answer to a request for the file `path` of the web application: the
/// file is served with the media type that its path lets guess.
pub open spec fn spec_asset_response(
    path: Seq<char>,
    asset: Option<Seq<u8>>,
    index: Option<Seq<u8>>,
) -> HttpResponseView {
    spec_asset_response_as(guessed_mime(path), asset, index)
}

/// The bytes of an optional file.
pub open spec fn bytes_view(file: Option<Vec<u8>>) -> Option<Seq<u8>> {
    match file {
        Some(b) => Some(b@),
        None => None,
    }
}

/// The answer to a request for a file of the web application, where
/// `mime` is the media type of the file, `asset` is that file and `index`
/// is the start page, as far as they exist.
pub fn asset_response_as(mime: String, asset: Option<Vec<u8>>, index: Option<Vec<u8>>) -> (response:
    HttpResponse)
    ensures
        response@ == spec_asset_response_as(mime@, bytes_view(asset), bytes_view(index)),
{
    let mut headers: Vec<(String, String)> = Vec::new();
    match asset {
        Some(body) => {
            headers.push(("content-type".to_owned(), mime));
            assert(crate::custom_uri::headers_view(headers@) =~= seq![("content-type"@, mime@)]);
            HttpResponse { status: 200, headers, body }
        },
        None => match index {
            Some(body) => {
                headers.push(("content-type".to_owned(), "text/html".to_owned()));
                assert(crate::custom_uri::headers_view(headers@) =~= seq![
                    ("content-type"@, "text/html"@),
                ]);
                HttpResponse { status: 200, headers, body }
            },
            None => {
                assert(crate::custom_uri::headers_view(headers@) =~= Seq::empty());
                let body: Vec<u8> = Vec::new();
                assert(body@ =~= Seq::<u8>::empty());
                HttpResponse { status: 404, headers, body }
            },
        },
    }
}

/// The answer to a request for the file `path` of the web application,
/// where `asset` is that file and `index` is the start page, as far as
/// they exist.
pub fn asset_response(path: &str, asset: Option<Vec<u8>>, index: Option<Vec<u8>>) -> (response:
    HttpResponse)
    ensures
        response@ == spec_asset_response(path@, bytes_view(asset), bytes_view(index)),
{
    asset_response_as(guess_mime(path), asset, index)
}

/// Why an upload was refused.
#[derive(Clone, Copy, Debug, PartialEq, Eq, Structural)]
pub enum UploadError {
    /// The space is not named by an identifier.
    InvalidSpaceId,
    /// The token stands for no user.
    InvalidToken,
    UnknownSpace,
    /// The space belongs to another user.
    NotOwner,
}

impl UploadError {
    pub fn message(&self) -> (text: &'static str)
        ensures
            text@ == match *self {
                UploadError::InvalidSpaceId => "invalid space id"@,
                UploadError::InvalidToken => "failed to parse jwt token"@,
                UploadError::UnknownSpace => "failed to get space"@,
                UploadError::NotOwner => "user is not owner of space"@,
            },
    {
        match self {
            UploadError::InvalidSpaceId => "invalid space id",
            UploadError::InvalidToken => "failed to parse jwt token",
            UploadError::UnknownSpace => "failed to get space",
            UploadError::NotOwner => "user is not owner of space",
        }
    }
}

/// One server: its spaces, its users and its dispatcher.
pub struct Node {
    pub spaces_dir: String,
    pub space_manager: SpaceManager,
    pub user_manager: UserManager,
    pub dispatcher: Dispatcher,
}

/// Where an upload to `path` in the space that the caller names `space_id`
/// is written.
pub open spec fn spec_upload_target(
    spaces_dir: Seq<char>,
    space_id: Seq<char>,
    path: Seq<char>,
) -> Seq<char> {
    path_join(path_join(spaces_dir, space_id), path)
}

/// Whether the user that the token stands for may upload to the space that
/// the caller names `space_id`, where `subject` is the subject of the
/// token, or `None` for a token that is not valid.
///
/// The space has to be named by an identifier, the token has to stand for
/// a user of the node, the node has to hold the space, and the space has to
/// belong to that user; the first of these that fails is the error.
pub open spec fn spec_upload_check(
    spaces: Seq<crate::space::SpaceView>,
    users: Seq<crate::user::UserView>,
    subject: Option<u128>,
    space_id: Seq<char>,
) -> Result<(), UploadError> {
    spec_upload_check_of(spaces, users, subject, spec_parse_id(space_id))
}

/// Whether the user that the token stands for may upload to the space
/// `space`, where `space` is the identifier by which the caller names the
/// space, or `None` where the caller gives none.
pub open spec fn spec_upload_check_of(
    spaces: Seq<crate::space::SpaceView>,
    users: Seq<crate::user::UserView>,
    subject: Option<u128>,
    space: Option<u128>,
) -> Result<(), UploadError> {
    match space {
        None => Err(UploadError::InvalidSpaceId),
        Some(id) => if subject is None || user_of(users, subject->0) is None {
            Err(UploadError::InvalidToken)
        } else {
            match first_of(spaces, id) {
                None => Err(UploadError::UnknownSpace),
                Some(space) => if space.owner_id != subject->0 {
                    Err(UploadError::NotOwner)
                } else {
                    Ok(())
                },
            }
        },
    }
}

impl Node {
    /// A node that keeps its spaces below `spaces_dir`.
    pub fn new(
        spaces_dir: String,
        space_manager: SpaceManager,
        user_manager: UserManager,
        dispatcher: Dispatcher,
    ) -> (node: Node)
        ensures
            node.spaces_dir == spaces_dir,
            node.space_manager == space_manager,
            node.user_manager == user_manager,
            node.dispatcher == dispatcher,
    {
        Node { spaces_dir, space_manager, user_manager, dispatcher }
    }

    /// Whether the user that the token stands for may upload to the space
    /// `space`, where `subject` is the subject of the token and `space` the
    /// identifier by which the caller names the space, as far as there is
    /// one.
    pub fn check_upload(&self, subject: Option<u128>, space: Option<u128>) -> (r: Result<
        (),
        UploadError,
    >)
        ensures
            r == spec_upload_check_of(self.space_manager@, self.user_manager@, subject, space),
    {
        let id = match space {
            Some(id) => id,
            None => {
                return Err(UploadError::InvalidSpaceId);
            },
        };
        let user = match self.user_manager.user_from_jwt(subject) {
            Some(user) => user,
            None => {
                return Err(UploadError::InvalidToken);
            },
        };
        let space = match self.space_manager.get_space(id) {
            Some(space) => space,
            None => {
                return Err(UploadError::UnknownSpace);
            },
        };
        proof {
            crate::user::lemma_place_of(self.user_manager@, subject->0);
        }
        if space.owner_id != user.id {
            return Err(UploadError::NotOwner);
        }
        Ok(())
    }

    /// Where to write an upload to `path` in the space that the caller
    /// names `space_id`, or why it is refused.
    pub fn handle_file_upload(&self, subject: Option<u128>, space_id: &str, path: &str) -> (r:
        Result<String, UploadError>)
        ensures
            match r {
                Ok(target) => spec_upload_check(
                    self.space_manager@,
                    self.user_manager@,
                    subject,
                    space_id@,
                ) is Ok && target@ == spec_upload_target(self.spaces_dir@, space_id@, path@),
                Err(e) => spec_upload_check(
                    self.space_manager@,
                    self.user_manager@,
                    subject,
                    space_id@,
                ) == Err::<(), UploadError>(e),
            },
    {
        match self.check_upload(subject, parse_id(space_id)) {
            Ok(()) => {},
            Err(e) => {
                return Err(e);
            },
        }
        let space_path = join_path(self.spaces_dir.as_str(), space_id);
        Ok(join_path(space_path.as_str(), path))
    }
}

/// What the upload form expects next.
#[derive(Debug)]
pub enum UploadForm {
    /// The token of the user.
    Token,
    /// The identifier of the space.
    SpaceId { jwt: String },
    /// The path of the next file, or the end of the form.
    Path { jwt: String, space_id: String },
    /// The content of the file that goes to `path`.
    Content { jwt: String, space_id: String, path: String },
    /// Nothing: the form has been answered.
    Closed,
}

/// What the server does with a field of the upload form.
#[derive(Debug)]
pub enum FormStep {
    /// Read the next field.
    Next,
    /// Store the content of this field as the file `path` of the space
    /// `space_id`, for the user of the token `jwt`; then report how that
    /// went.
    Store { jwt: String, space_id: String, path: String },
    /// Answer the form with this text.
    Answer(&'static str),
}

/// Whether the step answers the form with `text`.
pub open spec fn answers(step: FormStep, text: Seq<char>) -> bool {
    step matches FormStep::Answer(t) && t@ == text
}

impl UploadForm {
    /// The form before its first field.
    pub fn new() -> (form: UploadForm)
        ensures
            form is Token,
    {
        UploadForm::Token
    }

    /// Takes the field `name` with the text `value`. The fields come in a
    /// fixed order: `jwt`, `space_uuid`, then a `path` and a `file` for
    /// every file. A field out of order ends the form.
    pub fn field(self, name: &str, value: String) -> (r: (UploadForm, FormStep))
        ensures
            match self {
                UploadForm::Token => if name@ == "jwt"@ {
                    r.0 matches UploadForm::SpaceId { jwt } && jwt@ == value@ && r.1 is Next
                } else {
                    r.0 is Closed && answers(r.1, "jwt not found"@)
                },
                UploadForm::SpaceId { jwt } => if name@ == "space_uuid"@ {
                    r.0 matches UploadForm::Path { jwt: j, space_id } && j@ == jwt@ && space_id@
                        == value@ && r.1 is Next
                } else {
                    r.0 is Closed && answers(r.1, "space_uuid not found"@)
                },
                UploadForm::Path { jwt, space_id } => if name@ == "path"@ {
                    r.0 matches UploadForm::Content { jwt: j, space_id: s, path } && j@ == jwt@
                        && s@ == space_id@ && path@ == value@ && r.1 is Next
                } else {
                    r.0 is Closed && answers(r.1, "file not found"@)
                },
                UploadForm::Content { jwt, space_id, path } => if name@ == "file"@ {
                    &&& r.0 matches UploadForm::Path { jwt: j, space_id: s }
                    &&& j@ == jwt@
                    &&& s@ == space_id@
                    &&& r.1 matches FormStep::Store { jwt: j2, space_id: s2, path: p2 }
                    &&& j2@ == jwt@
                    &&& s2@ == space_id@
                    &&& p2@ == path@
                } else {
                    r.0 is Closed && answers(r.1, "file not found"@)
                },
                UploadForm::Closed => r.0 is Closed && answers(r.1, "done"@),
            },
    {
        match self {
            UploadForm::Token => {
                if same_text(name, "jwt") {
                    (UploadForm::SpaceId { jwt: value }, FormStep::Next)
                } else {
                    (UploadForm::Closed, FormStep::Answer("jwt not found"))
                }
            },
            UploadForm::SpaceId { jwt } => {
                if same_text(name, "space_uuid") {
                    (UploadForm::Path { jwt, space_id: value }, FormStep::Next)
                } else {
                    (UploadForm::Closed, FormStep::Answer("space_uuid not found"))
                }
            },
            UploadForm::Path { jwt, space_id } => {
                if same_text(name, "path") {
                    (UploadForm::Content { jwt, space_id, path: value }, FormStep::Next)
                } else {
                    (UploadForm::Closed, FormStep::Answer("file not found"))
                }
            },
            UploadForm::Content { jwt, space_id, path } => {
                if same_text(name, "file") {
                    let step = FormStep::Store {
                        jwt: jwt.clone(),
                        space_id: space_id.clone(),
                        path,
                    };
                    (UploadForm::Path { jwt, space_id }, step)
                } else {
                    (UploadForm::Closed, FormStep::Answer("file not found"))
                }
            },
            UploadForm::Closed => (UploadForm::Closed, FormStep::Answer("done")),
        }
    }

    /// Takes the report on a file that was to be stored: the form goes on
    /// where the file was stored, and ends where it was not.
    pub fn stored(self, ok: bool) -> (r: (UploadForm, FormStep))
        ensures
            ok ==> r.0 == self && r.1 is Next,
            !ok ==> r.0 is Closed && answers(r.1, "Error uploading file"@),
    {
        if ok {
            (self, FormStep::Next)
        } else {
            (UploadForm::Closed, FormStep::Answer("Error uploading file"))
        }
    }

    /// The answer at the end of the fields: `done` where no file is half
    /// way through, `None` where the form breaks off in the middle.
    pub fn end(&self) -> (answer: Option<&'static str>)
        ensures
            match answer {
                Some(text) => (*self is Path || *self is Closed) && text@ == "done"@,
                None => !(*self is Path || *self is Closed),
            },
    {
        match self {
            UploadForm::Path { .. } => Some("done"),
            UploadForm::Closed => Some("done"),
            _ => None,
        }
    }
}

} // verus!

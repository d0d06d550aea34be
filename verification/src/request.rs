//! Talking to the Conduit server: the address and headers of each request,
//! and what becomes of the server's answer.

use vstd::prelude::*;
use crate::problem::{Problem, string_errors_to_problems};
use crate::slug::Slug;
use crate::article::CommentId;
use crate::text::{join, seq_join, views};
use crate::username::Username;
use crate::viewer::Viewer;

verus! {

/// How long a request may take, in milliseconds.
pub const TIMEOUT: u32 = 5000;

/// The address of the server's interface.
pub fn base_api_url() -> (r: &'static str)
    ensures
        r@ == "https://conduit.productionready.io/api"@,
{
    "https://conduit.productionready.io/api"
}

/// The full address of a path of the server's interface: the base address,
/// a slash, and the path.
pub fn api_url(path: &str) -> (r: String)
    ensures
        r@ == "https://conduit.productionready.io/api"@ + "/"@ + path@,
{
    let mut r = String::from_str(base_api_url());
    r.append("/");
    r.append(path);
    r
}

/// The name of the header that carries the viewer's token.
pub fn authorization_header_name() -> (r: &'static str)
    ensures
        r@ == "authorization"@,
{
    "authorization"
}

/// The value of the authorization header for the viewer: `Token ` and the
/// viewer's token; none for a guest.
pub fn authorization(viewer: Option<&Viewer>) -> (r: Option<String>)
    ensures
        match viewer {
            Some(v) => (r matches Some(h) && h@ == "Token "@ + v.spec_credentials().auth_token@),
            None => r is None,
        },
{
    match viewer {
        Some(v) => {
            let mut h = String::from_str("Token ");
            h.append(v.credentials().auth_token.as_str());
            Some(h)
        },
        None => None,
    }
}

/// The method of a request.
pub enum Method {
    Get,
    Post,
    Put,
    Delete,
}

/// A request to the server's interface: its full address, its method, how
/// long it may take, the value of its authorization header, if any, and the
/// data it sends as JSON, if any.
pub struct Request<B> {
    pub url: String,
    pub method: Method,
    pub timeout: u32,
    pub authorization: Option<String>,
    pub body: Option<B>,
}

/// The viewer behind an optional reference.
pub open spec fn owned(viewer: Option<&Viewer>) -> Option<Viewer> {
    match viewer {
        Some(v) => Some(*v),
        None => None,
    }
}

/// Whether a request goes to `path` of the server's interface with `method`,
/// the usual timeout, and the token of `viewer`, where there is one.
pub open spec fn sent_as<B>(r: Request<B>, path: Seq<char>, method: Method, viewer: Option<Viewer>) -> bool {
    &&& r.url@ == "https://conduit.productionready.io/api"@ + "/"@ + path
    &&& r.method == method
    &&& r.timeout == TIMEOUT
    &&& match viewer {
        Some(v) => (r.authorization matches Some(h) && h@ == "Token "@
            + v.spec_credentials().auth_token@),
        None => r.authorization is None,
    }
}

/// The request to a path of the server's interface: the full address of
/// the path, `GET`, the usual timeout, the viewer's token where there is a
/// viewer, and no data.
pub fn new<B>(path: &str, viewer: Option<&Viewer>) -> (r: Request<B>)
    ensures
        sent_as(r, path@, Method::Get, owned(viewer)),
        r.body is None,
{
    Request {
        url: api_url(path),
        method: Method::Get,
        timeout: TIMEOUT,
        authorization: authorization(viewer),
        body: None,
    }
}

/// The request to a path with a method and data.
pub fn with_method<B>(path: &str, method: Method, viewer: Option<&Viewer>, body: Option<B>) -> (r:
    Request<B>)
    ensures
        sent_as(r, path@, method, owned(viewer)),
        r.body == body,
{
    Request { url: api_url(path), method, timeout: TIMEOUT, authorization: authorization(viewer), body }
}

/// The path of an article: `articles/<slug>`.
pub fn article_path(slug: &Slug) -> (r: String)
    ensures
        r@ == "articles/"@ + slug@,
{
    let mut r = String::from_str("articles/");
    r.append(slug.as_str());
    r
}

/// The path of an article's comments: `articles/<slug>/comments`.
pub fn comments_path(slug: &Slug) -> (r: String)
    ensures
        r@ == "articles/"@ + slug@ + "/comments"@,
{
    let mut r = article_path(slug);
    r.append("/comments");
    r
}

/// The path of one comment: `articles/<slug>/comments/<id>`.
pub fn comment_path(slug: &Slug, comment_id: &CommentId) -> (r: String)
    ensures
        r@ == "articles/"@ + slug@ + "/comments"@ + "/"@ + comment_id@,
{
    let mut r = comments_path(slug);
    r.append("/");
    r.append(comment_id.as_str());
    r
}

/// The path that marks an article as a favorite: `articles/<slug>/favorite`.
pub fn favorite_path(slug: &Slug) -> (r: String)
    ensures
        r@ == "articles/"@ + slug@ + "/favorite"@,
{
    let mut r = article_path(slug);
    r.append("/favorite");
    r
}

/// The path of a user's profile: `profiles/<username>`.
pub fn profile_path(username: &Username) -> (r: String)
    ensures
        r@ == "profiles/"@ + username@,
{
    let mut r = String::from_str("profiles/");
    r.append(username.as_str());
    r
}

/// The path that follows a user: `profiles/<username>/follow`.
pub fn follow_path(username: &Username) -> (r: String)
    ensures
        r@ == "profiles/"@ + username@ + "/follow"@,
{
    let mut r = profile_path(username);
    r.append("/follow");
    r
}

// ------ the server's answer ------

/// The errors that the server reports for one field.
pub struct FieldErrors {
    pub field: String,
    pub messages: Vec<String>,
}

/// The text that stands for a field's errors: the field's name, a space,
/// and the messages joined by a comma and a space.
pub open spec fn field_error_message(field: Seq<char>, messages: Seq<Seq<char>>) -> Seq<char> {
    field + " "@ + seq_join(messages, ", "@)
}

/// The messages that stand for the server's errors, one per field, in order.
pub open spec fn server_messages_spec(errors: Seq<FieldErrors>) -> Seq<Seq<char>> {
    errors.map_values(|e: FieldErrors| field_error_message(e.field@, views(e.messages@)))
}

/// There is one message per field that the server listed, none dropped or
/// added: the i-th is the i-th field's name, a space, and its messages
/// joined by a comma and a space.
pub proof fn lemma_server_messages(errors: Seq<FieldErrors>)
    ensures
        server_messages_spec(errors).len() == errors.len(),
        forall|i: int|
            0 <= i < errors.len() ==> #[trigger] server_messages_spec(errors)[i] == errors[i].field@
                + " "@ + seq_join(views(errors[i].messages@), ", "@),
{
}

/// One message per field that the server complained of, in the order in
/// which the server listed them.
pub fn server_error_messages(errors: &Vec<FieldErrors>) -> (r: Vec<String>)
    ensures
        views(r@) == server_messages_spec(errors@),
        r@.len() == errors@.len(),
        forall|i: int|
            0 <= i < r@.len() ==> (#[trigger] r@[i])@ == errors@[i].field@ + " "@ + seq_join(
                views(errors@[i].messages@),
                ", "@,
            ),
{
    let mut r: Vec<String> = Vec::new();
    let mut i: usize = 0;
    while i < errors.len()
        invariant
            i <= errors.len(),
            views(r@) == server_messages_spec(errors@).take(i as int),
        decreases errors.len() - i,
    {
        let e = &errors[i];
        let mut m = e.field.clone();
        m.append(" ");
        let joined = join(&e.messages, ", ");
        m.append(joined.as_str());
        let ghost before = r@;
        assert(m@ == field_error_message(errors@[i as int].field@, views(errors@[i as int].messages@)));
        r.push(m);
        assert(views(r@) =~= views(before).push(m@));
        assert(server_messages_spec(errors@).take(i + 1) =~= server_messages_spec(errors@).take(
            i as int,
        ).push(m@));
        i = i + 1;
    }
    assert(server_messages_spec(errors@).take(errors@.len() as int) =~= server_messages_spec(
        errors@,
    ));
    proof {
        lemma_server_messages(errors@);
        assert forall|i: int| 0 <= i < r@.len() implies (#[trigger] r@[i])@ == errors@[i].field@
            + " "@ + seq_join(views(errors@[i].messages@), ", "@) by {
            assert(views(r@)[i] == r@[i]@);
        }
    }
    r
}

/// What the body of an answer with a failing status held.
pub enum StatusData {
    /// The body listed errors by field.
    Decoded(Vec<FieldErrors>),
    /// The body could not be read as a list of errors.
    Undecodable,
}

/// Why a request did not give the data it asked for.
pub enum FailReason {
    /// The request could not be made or got no answer.
    RequestError,
    /// The answer's body could not be read.
    DataError,
    /// The server answered with a failing status.
    Status(StatusData),
}

/// The text of the error of a request that got no answer.
pub open spec fn request_error_text() -> Seq<char> {
    "Request error"@
}

/// The text of the error of an answer that could not be read.
pub open spec fn data_error_text() -> Seq<char> {
    "Data error"@
}

/// The error messages that stand for a failed request.
pub open spec fn fail_reason_messages(reason: FailReason) -> Seq<Seq<char>> {
    match reason {
        FailReason::RequestError => seq![request_error_text()],
        FailReason::DataError => seq![data_error_text()],
        FailReason::Status(StatusData::Decoded(errors)) => server_messages_spec(errors@),
        FailReason::Status(StatusData::Undecodable) => seq![data_error_text()],
    }
}

fn one_message(text: &str) -> (r: Vec<String>)
    ensures
        views(r@) == seq![text@],
{
    let mut r: Vec<String> = Vec::new();
    r.push(String::from_str(text));
    assert(views(r@) =~= seq![text@]);
    r
}

/// The error messages that stand for a failed request: one for a request
/// without answer or an unreadable answer, else the server's own errors.
pub fn fail_reason_into_errors(fail_reason: FailReason) -> (r: Vec<String>)
    ensures
        views(r@) == fail_reason_messages(fail_reason),
{
    match fail_reason {
        FailReason::RequestError => one_message("Request error"),
        FailReason::DataError => one_message("Data error"),
        FailReason::Status(StatusData::Decoded(errors)) => server_error_messages(&errors),
        FailReason::Status(StatusData::Undecodable) => one_message("Data error"),
    }
}

/// The data of a request, or the error messages that stand for its
/// failure.
pub fn data_result_into_errors<T>(data_result: Result<T, FailReason>) -> (r: Result<T, Vec<String>>)
    ensures
        match data_result {
            Ok(t) => r == Ok::<T, Vec<String>>(t),
            Err(f) => (r matches Err(m) && views(m@) == fail_reason_messages(f)),
        },
{
    match data_result {
        Ok(t) => Ok(t),
        Err(f) => Err(fail_reason_into_errors(f)),
    }
}

/// The problems of a form that stand for a failed request, one per error
/// message.
pub fn fail_reason_into_problems(fail_reason: FailReason) -> (r: Vec<Problem>)
    ensures
        r@.len() == fail_reason_messages(fail_reason).len(),
        forall|i: int|
            0 <= i < r@.len() ==> (#[trigger] r@[i] matches Problem::ServerError(m) && m@
                == fail_reason_messages(fail_reason)[i]),
{
    let errors = fail_reason_into_errors(fail_reason);
    let r = string_errors_to_problems(errors);
    proof {
        assert forall|i: int| 0 <= i < r@.len() implies (#[trigger] r@[i] matches Problem::ServerError(m) && m@
            == fail_reason_messages(fail_reason)[i]) by {
            assert(views(errors@)[i] == errors@[i]@);
        }
    }
    r
}

/// The answer to a request whose body is read by hand.
pub enum Response<T> {
    /// The request could not be made or got no answer.
    RequestError,
    /// The status was a success; the body's data, where it could be read.
    Success(Option<T>),
    /// The status was a failure; the errors that the body listed, where it
    /// could be read as such.
    Failure(Option<Vec<FieldErrors>>),
}

/// The error messages that stand for an answer that gave no data.
pub open spec fn response_messages<T>(response: Response<T>) -> Seq<Seq<char>> {
    match response {
        Response::RequestError => seq![request_error_text()],
        Response::Success(_) => seq![data_error_text()],
        Response::Failure(Some(errors)) => server_messages_spec(errors@),
        Response::Failure(None) => seq![data_error_text()],
    }
}

/// The data of an answer, or the error messages that stand for its lack:
/// the request's own failure, an unreadable body, or the server's errors.
pub fn process_response<T>(response: Response<T>) -> (r: Result<T, Vec<String>>)
    ensures
        match response {
            Response::Success(Some(data)) => r == Ok::<T, Vec<String>>(data),
            _ => (r matches Err(messages) && views(messages@) == response_messages(response)),
        },
{
    match response {
        Response::RequestError => Err(one_message("Request error")),
        Response::Success(Some(data)) => Ok(data),
        Response::Success(None) => Err(one_message("Data error")),
        Response::Failure(Some(errors)) => Err(server_error_messages(&errors)),
        Response::Failure(None) => Err(one_message("Data error")),
    }
}

/// The data of an answer, or the problems of a form that stand for its
/// lack, one per error message.
pub fn process_response_into_problems<T>(response: Response<T>) -> (r: Result<T, Vec<Problem>>)
    ensures
        match response {
            Response::Success(Some(data)) => r == Ok::<T, Vec<Problem>>(data),
            _ => (r matches Err(problems) && problems@.len() == response_messages(response).len()
                && forall|i: int|
                0 <= i < problems@.len() ==> (#[trigger] problems@[i] matches Problem::ServerError(m)
                    && m@ == response_messages(response)[i])),
        },
{
    let ghost messages = response_messages(response);
    match process_response(response) {
        Ok(data) => Ok(data),
        Err(errors) => {
            let problems = string_errors_to_problems(errors);
            proof {
                assert forall|i: int| 0 <= i < problems@.len() implies (#[trigger] problems@[i] matches Problem::ServerError(m)
                    && m@ == messages[i]) by {
                    assert(views(errors@)[i] == errors@[i]@);
                }
            }
            Err(problems)
        },
    }
}

/// The data of an answer about a user, or the user's name with the error
/// messages that stand for its lack.
pub fn process_response_for_user<T>(username: Username, response: Response<T>) -> (r: Result<
    T,
    (Username, Vec<String>),
>)
    ensures
        match response {
            Response::Success(Some(data)) => r == Ok::<T, (Username, Vec<String>)>(data),
            _ => (r matches Err((u, messages)) && u == username && views(messages@)
                == response_messages(response)),
        },
{
    match process_response(response) {
        Ok(data) => Ok(data),
        Err(errors) => Err((username, errors)),
    }
}

/// The answer to the deletion of a comment: the comment's identifier where
/// the status was a success, whatever the body held; else the error
/// messages.
pub fn process_delete_comment_response<T>(comment_id: CommentId, response: Response<T>) -> (r:
    Result<CommentId, Vec<String>>)
    ensures
        match response {
            Response::Success(_) => r == Ok::<CommentId, Vec<String>>(comment_id),
            _ => (r matches Err(messages) && views(messages@) == response_messages(response)),
        },
{
    match response {
        Response::Success(_) => Ok(comment_id),
        Response::RequestError => Err(one_message("Request error")),
        Response::Failure(Some(errors)) => Err(server_error_messages(&errors)),
        Response::Failure(None) => Err(one_message("Data error")),
    }
}

} // verus!

pub mod article;
pub mod author;
pub mod comment;
pub mod favorite;
pub mod feed;
pub mod follow;
pub mod login;
pub mod register;
pub mod settings;
pub mod tag;
pub mod user;

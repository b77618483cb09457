use vstd::prelude::*;
use vstd::string::*;

use crate::database::{first_with_id, Database};
use crate::json::{encode_post, encode_posts, post_json, posts_json};
use crate::models::Post;

verus! {

pub const STATUS_OK: u16 = 200;
pub const STATUS_CREATED: u16 = 201;
pub const STATUS_BAD_REQUEST: u16 = 400;
pub const STATUS_NOT_FOUND: u16 = 404;
pub const STATUS_INTERNAL_SERVER_ERROR: u16 = 500;

/// An HTTP response: its status, its body, and its content type once one is set.
#[derive(Debug)]
pub struct Response {
    pub status: u16,
    pub body: String,
    pub content_type: Option<String>,
}

#[verifier::external_type_specification]
#[verifier::external_body]
pub struct ExUuidError(uuid::Error);

/// The UUID value that uuid reads from the text, `None` where it refuses it.
pub uninterp spec fn uuid_of(s: Seq<char>) -> Option<u128>;

/// Relies on uuid::Uuid::parse_str (and `as_u128` of its result): whether the
/// text is a UUID, and which, depends on the text alone.
#[verifier::external_body]
fn parse_uuid(s: &str) -> (r: Result<u128, uuid::Error>)
    ensures
        r is Ok <==> uuid_of(s@) is Some,
        r matches Ok(id) ==> uuid_of(s@) == Some(id),
{
    match uuid::Uuid::parse_str(s) {
        Ok(u) => Ok(u.as_u128()),
        Err(e) => Err(e),
    }
}

/// Relies on uuid::Error's `Display`: the error's description.
#[verifier::external_body]
fn uuid_error_text(e: &uuid::Error) -> (r: String) {
    e.to_string()
}

/// A response with the status and the error's description as its body.
pub fn error_response(status: u16, err: String) -> (r: Response)
    ensures
        r.status == status,
        r.body == err,
        r.content_type is None,
{
    Response { status, body: err, content_type: None }
}

/// A response with the status and an empty body.
pub fn status_response(status: u16) -> (r: Response)
    ensures
        r.status == status,
        r.body@ == Seq::<char>::empty(),
        r.content_type is None,
{
    Response { status, body: String::new(), content_type: None }
}

/// Lists every post as a JSON array, in the order of insertion.
pub fn list(db: &Database) -> (r: Response)
    ensures
        r.status == STATUS_OK,
        posts_json(db@) == Some(r.body@),
        r.content_type is None,
{
    Response { status: STATUS_OK, body: encode_posts(db.get_posts()), content_type: None }
}

/// Adds the post read from the request body and echoes the body back; a body
/// that did not parse leaves the collection as it was.
pub fn create(db: &mut Database, body: String, parsed: Result<Post, String>) -> (r: Response)
    ensures
        parsed matches Ok(p) ==> final(db)@ == old(db)@.push(p) && r.status == STATUS_CREATED
            && r.body == body,
        parsed matches Err(e) ==> final(db)@ == old(db)@ && r.status == STATUS_BAD_REQUEST
            && r.body == e,
        r.content_type is None,
{
    match parsed {
        Ok(p) => {
            db.add_post(p);
            Response { status: STATUS_CREATED, body, content_type: None }
        },
        Err(e) => error_response(STATUS_BAD_REQUEST, e),
    }
}

/// The response to a lookup, once the found post, if any, has been serialized.
pub fn found_response(found: Option<String>) -> (r: Response)
    ensures
        found is None ==> r.status == STATUS_NOT_FOUND && r.body@ == "{}"@,
        found matches Some(s) ==> r.status == STATUS_OK && r.body == s,
        r.content_type is None,
{
    match found {
        None => Response { status: STATUS_NOT_FOUND, body: String::from_str("{}"), content_type: None },
        Some(s) => Response { status: STATUS_OK, body: s, content_type: None },
    }
}

/// Looks a post up by an identifier already read from the path (`Err` holds
/// why it could not be read).
pub fn respond_to_id(db: &Database, post_id: Result<u128, String>) -> (r: Response)
    ensures
        post_id matches Err(e) ==> r.status == STATUS_BAD_REQUEST && r.body == e,
        post_id matches Ok(id) ==> match first_with_id(db@, id) {
            None => r.status == STATUS_NOT_FOUND && r.body@ == "{}"@,
            Some(p) => r.status == STATUS_OK && post_json(p@) == Some(r.body@),
        },
        r.content_type is None,
{
    match post_id {
        Err(e) => error_response(STATUS_BAD_REQUEST, e),
        Ok(id) => match db.find_post(id) {
            None => found_response(None),
            Some(p) => found_response(Some(encode_post(&p))),
        },
    }
}

/// Looks a post up by the text of its identifier.
pub fn find_by_id(db: &Database, post_id: &str) -> (r: Response)
    ensures
        uuid_of(post_id@) is None ==> r.status == STATUS_BAD_REQUEST,
        uuid_of(post_id@) matches Some(id) ==> match first_with_id(db@, id) {
            None => r.status == STATUS_NOT_FOUND && r.body@ == "{}"@,
            Some(p) => r.status == STATUS_OK && post_json(p@) == Some(r.body@),
        },
        r.content_type is None,
{
    let id = match parse_uuid(post_id) {
        Ok(id) => Ok(id),
        Err(e) => Err(uuid_error_text(&e)),
    };
    respond_to_id(db, id)
}

/// Marks every response as JSON, whatever its status.
#[derive(Clone, Copy, Debug)]
pub struct JsonAfterMiddleware;

impl JsonAfterMiddleware {
    /// The content type that every response carries.
    pub fn content_type(&self) -> (r: String)
        ensures
            r@ == "application/json"@,
    {
        String::from_str("application/json")
    }

    /// Sets the response's content type to JSON and changes nothing else.
    pub fn after(&self, res: Response) -> (r: Response)
        ensures
            r.status == res.status,
            r.body == res.body,
            r.content_type matches Some(c) && c@ == "application/json"@,
    {
        Response { status: res.status, body: res.body, content_type: Some(self.content_type()) }
    }
}

} // verus!

use vstd::prelude::*;

use crate::mime::{mime_spec, mime_type};

verus! {

/// The body of a response: UTF-8 text for error pages and the index page,
/// raw bytes for file contents.
pub enum ResponseBody {
    Text(String),
    Bytes(Vec<u8>),
}

/// The mathematical model of a response body.
pub enum BodyModel {
    Text(Seq<char>),
    Bytes(Seq<u8>),
}

impl View for ResponseBody {
    type V = BodyModel;

    open spec fn view(&self) -> BodyModel {
        match self {
            ResponseBody::Text(s) => BodyModel::Text(s@),
            ResponseBody::Bytes(v) => BodyModel::Bytes(v@),
        }
    }
}

/// An outgoing response: a status code, an optional `Content-type` header
/// value, and a body.
pub struct HttpResponse {
    pub status: u16,
    pub content_type: Option<String>,
    pub body: ResponseBody,
}

/// The mathematical model of a response.
pub struct ResponseModel {
    pub status: int,
    pub content_type: Option<Seq<char>>,
    pub body: BodyModel,
}

impl View for HttpResponse {
    type V = ResponseModel;

    open spec fn view(&self) -> ResponseModel {
        ResponseModel {
            status: self.status as int,
            content_type: match self.content_type {
                Some(s) => Some(s@),
                None => None,
            },
            body: self.body@,
        }
    }
}

/// The fixed response for a missing, unopenable or directory path.
pub open spec fn not_found_model() -> ResponseModel {
    ResponseModel { status: 404, content_type: None, body: BodyModel::Text("not found\r\n"@) }
}

/// The fixed response for a path that fails the traversal check.
pub open spec fn forbidden_model() -> ResponseModel {
    ResponseModel { status: 403, content_type: None, body: BodyModel::Text("forbidden\r\n"@) }
}

/// The fixed response for a file that opened but could not be read.
pub open spec fn trouble_model() -> ResponseModel {
    ResponseModel {
        status: 500,
        content_type: None,
        body: BodyModel::Text("sad bear is sad\r\n"@),
    }
}

/// The success response for a file: status 200, content type inferred from
/// the path, body equal to the file's bytes.
pub open spec fn ok_file_model(path: Seq<char>, bytes: Seq<u8>) -> ResponseModel {
    ResponseModel { status: 200, content_type: Some(mime_spec(path)), body: BodyModel::Bytes(bytes) }
}

/// Builds the 404 response.
pub fn not_found() -> (r: HttpResponse)
    ensures
        r@ == not_found_model(),
{
    HttpResponse {
        status: 404,
        content_type: None,
        body: ResponseBody::Text(String::from_str("not found\r\n")),
    }
}

/// Builds the 403 response.
pub fn forbidden() -> (r: HttpResponse)
    ensures
        r@ == forbidden_model(),
{
    HttpResponse {
        status: 403,
        content_type: None,
        body: ResponseBody::Text(String::from_str("forbidden\r\n")),
    }
}

/// Builds the 500 response.
pub fn trouble() -> (r: HttpResponse)
    ensures
        r@ == trouble_model(),
{
    HttpResponse {
        status: 500,
        content_type: None,
        body: ResponseBody::Text(String::from_str("sad bear is sad\r\n")),
    }
}

/// Builds the 200 response for a file at `path` whose full contents are
/// `contents`.
pub fn file_response(path: &str, contents: Vec<u8>) -> (r: HttpResponse)
    ensures
        r@ == ok_file_model(path@, contents@),
{
    HttpResponse {
        status: 200,
        content_type: Some(String::from_str(mime_type(path))),
        body: ResponseBody::Bytes(contents),
    }
}

} // verus!

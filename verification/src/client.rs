//! The client handle and the dispatcher: how one action becomes one request,
//! and how the bytes of a response become a JSON value.

use crate::body::{Body, Fields};
use crate::json::{json_model, json_null, json_parse, parse_json, IntoJson, Json};
use crate::request::{CkanError, Method, Payload, PayloadModel, Request, RequestModel};
use vstd::prelude::*;
use vstd::string::StringExecFns;

verus! {

/// The handle of one CKAN site: where it is, and the token to present.
#[derive(Debug)]
pub struct CKAN {
    url: String,
    token: Option<String>,
}

/// A client handle as contracts see it.
pub struct ClientModel {
    pub url: Seq<char>,
    pub token: Option<Seq<char>>,
}

impl View for CKAN {
    type V = ClientModel;

    closed spec fn view(&self) -> ClientModel {
        ClientModel { url: self.url@, token: crate::request::opt_text(self.token) }
    }
}

/// The address of an action below the base address of a site.
pub open spec fn action_url(base: Seq<char>, action: Seq<char>) -> Seq<char> {
    base + "/api/3/action/"@ + action
}

/// The fields of an optional body.
pub open spec fn opt_fields(body: Option<Body>) -> Option<Fields> {
    match body {
        Some(b) => Some(b@),
        None => None,
    }
}

/// A copy of an optional string.
fn copy_of(s: &Option<String>) -> (r: Option<String>)
    ensures
        crate::request::opt_text(r) == crate::request::opt_text(*s),
{
    match s {
        Some(t) => Some(t.clone()),
        None => None,
    }
}

impl CKAN {
    /// The handle of the site at `url`, with the token to present, if any.
    pub fn new(url: &str, token: Option<String>) -> (r: CKAN)
        ensures
            r@ == (ClientModel { url: url@, token: crate::request::opt_text(token) }),
    {
        CKAN { url: url.to_owned(), token }
    }

    /// The base address of the site.
    pub fn url(&self) -> (r: &str)
        ensures
            r@ == self@.url,
    {
        self.url.as_str()
    }

    /// The token that every request presents, if there is one.
    pub fn token(&self) -> (r: Option<&str>)
        ensures
            match r {
                Some(t) => self@.token == Some(t@),
                None => self@.token is None,
            },
    {
        match &self.token {
            Some(t) => Some(t.as_str()),
            None => None,
        }
    }

    /// The address of the action `action` on this site.
    pub fn endpoint(&self, action: &str) -> (r: String)
        ensures
            r@ == action_url(self@.url, action@),
    {
        self.url.clone().concat("/api/3/action/").concat(action)
    }

    /// The request that reads from `url` without sending anything.
    pub open spec fn get_plan(&self, url: Seq<char>) -> RequestModel {
        RequestModel {
            method: Method::Get,
            url,
            authorization: self@.token,
            payload: PayloadModel::Empty,
        }
    }

    /// The request that posts `content` to `url` as JSON.
    pub open spec fn json_plan(&self, url: Seq<char>, content: Json) -> RequestModel {
        RequestModel {
            method: Method::Post,
            url,
            authorization: self@.token,
            payload: PayloadModel::Json(content),
        }
    }

    /// The request that posts the file at `upload` to `url` in a form,
    /// beside the text parts `fields`.
    pub open spec fn form_plan(
        &self,
        url: Seq<char>,
        fields: Map<Seq<char>, Seq<char>>,
        upload: std::path::PathBuf,
    ) -> RequestModel {
        RequestModel {
            method: Method::Post,
            url,
            authorization: self@.token,
            payload: PayloadModel::Multipart { fields, upload },
        }
    }

    /// What `post` answers. Without a file the body travels as JSON, and the
    /// request is always made. With a file the fields travel as the text
    /// parts of a form; that takes a body whose fields all hold strings, and
    /// any other body is refused.
    pub open spec fn post_outcome(
        &self,
        url: Seq<char>,
        body: Option<Fields>,
        upload: Option<std::path::PathBuf>,
        r: Result<Request, CkanError>,
    ) -> bool {
        match upload {
            None => r matches Ok(req) && req@ == self.json_plan(
                url,
                match body {
                    Some(f) => Json::Object(f.map),
                    None => Json::Null,
                },
            ),
            Some(path) => {
                let fields = match body {
                    Some(f) => f,
                    None => Fields::empty(),
                };
                match r {
                    Ok(req) => fields.is_flat() && req.payload.well_formed() && req@
                        == self.form_plan(url, fields.texts(), path),
                    Err(e) => e is NotText && !fields.is_flat(),
                }
            },
        }
    }

    /// Plans a request that reads from `endpoint`: a GET without payload,
    /// with the token, if there is one, as its `Authorization` header.
    pub fn get(&self, endpoint: String) -> (r: Request)
        ensures
            r@ == self.get_plan(endpoint@),
    {
        Request {
            method: Method::Get,
            url: endpoint,
            authorization: copy_of(&self.token),
            payload: Payload::Empty,
        }
    }

    /// Plans a request that posts to `endpoint`, with the token, if there is
    /// one, as its `Authorization` header. Without `upload` the body is the
    /// JSON content of the request (`null` where there is no body). With
    /// `upload` the request is a form: each field of the body a text part,
    /// and the file the part named `upload`.
    pub fn post(
        &self,
        endpoint: String,
        body: Option<Body>,
        upload: Option<std::path::PathBuf>,
    ) -> (r: Result<Request, CkanError>)
        ensures
            self.post_outcome(endpoint@, opt_fields(body), upload, r),
    {
        let authorization = copy_of(&self.token);
        match upload {
            Some(path) => {
                let parts = match body {
                    Some(b) => b.text_parts(),
                    None => {
                        let none: Vec<(String, String)> = Vec::new();
                        assert(crate::request::parts_map(none@) =~= Fields::empty().texts());
                        Some(none)
                    },
                };
                match parts {
                    Some(fields) => Ok(
                        Request {
                            method: Method::Post,
                            url: endpoint,
                            authorization,
                            payload: Payload::Multipart { fields, upload: path },
                        },
                    ),
                    None => Err(CkanError::NotText),
                }
            },
            None => {
                let content = match body {
                    Some(b) => b.into_json(),
                    None => json_null(),
                };
                Ok(
                    Request {
                        method: Method::Post,
                        url: endpoint,
                        authorization,
                        payload: Payload::Json(content),
                    },
                )
            },
        }
    }

    /// The request of an action that takes no argument: a GET.
    pub open spec fn read_plan(&self, action: Seq<char>) -> RequestModel {
        self.get_plan(action_url(self@.url, action))
    }

    /// The request of an action with the given fields: a POST with the
    /// fields as one JSON object.
    pub open spec fn post_plan(&self, action: Seq<char>, fields: Fields) -> RequestModel {
        self.json_plan(action_url(self@.url, action), Json::Object(fields.map))
    }

    /// What an action that may carry a file answers, with the given fields.
    pub open spec fn upload_outcome(
        &self,
        action: Seq<char>,
        fields: Fields,
        upload: Option<std::path::PathBuf>,
        r: Result<Request, CkanError>,
    ) -> bool {
        self.post_outcome(action_url(self@.url, action), Some(fields), upload, r)
    }

    /// Plans the request of an action that takes no argument.
    pub(crate) fn read(&self, action: &str) -> (r: Request)
        ensures
            r@ == self.read_plan(action@),
    {
        self.get(self.endpoint(action))
    }

    /// Plans the request of an action with the given body.
    pub(crate) fn send(&self, action: &str, body: Body) -> (r: Request)
        ensures
            r@ == self.post_plan(action@, body@),
    {
        match self.post(self.endpoint(action), Some(body), None) {
            Ok(req) => req,
            Err(_) => vstd::pervasive::unreached(),
        }
    }

    /// Plans the request of an action that may carry a file.
    pub(crate) fn send_with(
        &self,
        action: &str,
        body: Body,
        upload: Option<std::path::PathBuf>,
    ) -> (r: Result<Request, CkanError>)
        ensures
            self.upload_outcome(action@, body@, upload, r),
    {
        self.post(self.endpoint(action), Some(body), upload)
    }
}

/// Reads the bytes of a response as one JSON text. The value comes back as
/// it was sent: whether the remote action succeeded is for the caller to read
/// from it. Bytes that are no JSON text give `CkanError::Decode`.
pub fn decode_response(bytes: &[u8]) -> (r: Result<serde_json::Value, CkanError>)
    ensures
        match r {
            Ok(v) => json_parse(bytes@) == Some(json_model(v)),
            Err(e) => e is Decode && json_parse(bytes@) is None,
        },
{
    match parse_json(bytes) {
        Ok(v) => Ok(v),
        Err(e) => Err(CkanError::Decode(e)),
    }
}

} // verus!

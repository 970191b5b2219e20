//! What one call of an action sends: the plan of a single HTTP request.

use crate::json::Json;
use vstd::prelude::*;

verus! {

#[verifier::external_type_specification]
#[verifier::external_body]
pub struct ExPathBuf(std::path::PathBuf);

/// The verb of a request.
#[derive(Debug, Clone, Copy, PartialEq, Eq, Structural)]
pub enum Method {
    Get,
    Post,
}

/// What a request carries besides its headers.
#[derive(Debug)]
pub enum Payload {
    /// Nothing.
    Empty,
    /// One JSON value, sent as `application/json`.
    Json(serde_json::Value),
    /// A form, sent as `multipart/form-data`: a text part for each field,
    /// and the file at `upload` as the part named `upload`.
    Multipart { fields: Vec<(String, String)>, upload: std::path::PathBuf },
}

/// One HTTP request, ready to be sent.
#[derive(Debug)]
pub struct Request {
    pub method: Method,
    pub url: String,
    /// The value of the `Authorization` header. Without one the header is
    /// not sent.
    pub authorization: Option<String>,
    pub payload: Payload,
}

/// Why no request or no response could be made.
#[derive(Debug)]
pub enum CkanError {
    /// The body cannot travel in a form: one of its fields holds a value
    /// that is no string.
    NotText,
    /// The response is no JSON text.
    Decode(serde_json::Error),
}

/// Whether no two parts of a form have the same name.
pub open spec fn names_distinct(parts: Seq<(String, String)>) -> bool {
    forall|i: int, j: int|
        0 <= i < j < parts.len() ==> (#[trigger] parts[i]).0@ != (#[trigger] parts[j]).0@
}

/// Whether some part of a form has the name `k`.
pub open spec fn has_part(parts: Seq<(String, String)>, k: Seq<char>) -> bool {
    exists|i: int| 0 <= i < parts.len() && (#[trigger] parts[i]).0@ == k
}

/// The place of a part with the name `k`.
pub open spec fn part_index(parts: Seq<(String, String)>, k: Seq<char>) -> int {
    choose|i: int| 0 <= i < parts.len() && (#[trigger] parts[i]).0@ == k
}

/// The mapping that the text parts of a form stand for: each name with its
/// text.
pub open spec fn parts_map(parts: Seq<(String, String)>) -> Map<Seq<char>, Seq<char>> {
    Map::new(|k: Seq<char>| has_part(parts, k), |k: Seq<char>| parts[part_index(parts, k)].1@)
}

/// In a form with distinct names every part is found under its own name.
pub(crate) proof fn lemma_part_found(parts: Seq<(String, String)>, i: int)
    requires
        names_distinct(parts),
        0 <= i < parts.len(),
    ensures
        has_part(parts, parts[i].0@),
        part_index(parts, parts[i].0@) == i,
        parts_map(parts)[parts[i].0@] == parts[i].1@,
{
    let k = parts[i].0@;
    assert(has_part(parts, k));
    let j = part_index(parts, k);
    if j < i {
        assert(parts[j].0@ != parts[i].0@);
    } else if i < j {
        assert(parts[i].0@ != parts[j].0@);
    }
}

/// A payload as contracts see it.
pub enum PayloadModel {
    Empty,
    Json(Json),
    Multipart { fields: Map<Seq<char>, Seq<char>>, upload: std::path::PathBuf },
}

/// A request as contracts see it.
pub struct RequestModel {
    pub method: Method,
    pub url: Seq<char>,
    pub authorization: Option<Seq<char>>,
    pub payload: PayloadModel,
}

impl View for Payload {
    type V = PayloadModel;

    open spec fn view(&self) -> PayloadModel {
        match *self {
            Payload::Empty => PayloadModel::Empty,
            Payload::Json(v) => PayloadModel::Json(crate::json::json_model(v)),
            Payload::Multipart { fields, upload } => PayloadModel::Multipart {
                fields: parts_map(fields@),
                upload,
            },
        }
    }
}

impl Payload {
    /// Whether the payload can be sent as it is: a form names each of its
    /// parts once.
    pub open spec fn well_formed(&self) -> bool {
        match *self {
            Payload::Multipart { fields, upload } => names_distinct(fields@),
            _ => true,
        }
    }
}

/// The characters of an optional string.
pub open spec fn opt_text(s: Option<String>) -> Option<Seq<char>> {
    match s {
        Some(t) => Some(t@),
        None => None,
    }
}

impl View for Request {
    type V = RequestModel;

    open spec fn view(&self) -> RequestModel {
        RequestModel {
            method: self.method,
            url: self.url@,
            authorization: opt_text(self.authorization),
            payload: self.payload@,
        }
    }
}

} // verus!

use crate::reply::{
    STATUS_INTERNAL_SERVER_ERROR, STATUS_OK, STATUS_SERVICE_UNAVAILABLE,
    STATUS_UNPROCESSABLE_ENTITY,
};
use vstd::prelude::*;

verus! {

/// One documented operation: the statuses it is documented to answer with.
pub struct DocumentedOperation {
    pub responses: Vec<u16>,
}

/// One documented path and the operations documented on it.
pub struct DocumentedPath {
    pub path: &'static str,
    pub get: Option<DocumentedOperation>,
    pub post: Option<DocumentedOperation>,
}

/// A description of the service's OpenAPI document: its paths and the names
/// of its schemas. It is kept by hand beside the document that the server
/// derives from its handlers' annotations; nothing here ties the two.
pub struct ApiDocument {
    pub paths: Vec<DocumentedPath>,
    pub schemas: Vec<&'static str>,
}

/// The statuses the description lists for `GET /`.
pub open spec fn documented_get_responses() -> Seq<u16> {
    seq![STATUS_OK]
}

/// The statuses the description lists for `POST /`.
pub open spec fn documented_post_responses() -> Seq<u16> {
    seq![
        STATUS_OK,
        STATUS_UNPROCESSABLE_ENTITY,
        STATUS_INTERNAL_SERVER_ERROR,
        STATUS_SERVICE_UNAVAILABLE,
    ]
}

/// The library's description of the service's OpenAPI document.
pub struct ApiDoc;

impl ApiDoc {
    /// What the OpenAPI document is described to hold: the path `/` with its
    /// `GET` (service identity) and `POST` (evaluation) operations, and the
    /// schemas `Info`, `EvalRequest` and `PercentileResponse`. This is a
    /// description kept by hand, not the derived document itself.
    pub fn openapi() -> (doc: ApiDocument)
        ensures
            doc.paths@.len() == 1,
            doc.paths@[0].path@ == "/"@,
            doc.paths@[0].get matches Some(op) && op.responses@ == documented_get_responses(),
            doc.paths@[0].post matches Some(op) && op.responses@ == documented_post_responses(),
            doc.schemas@.len() == 3,
            doc.schemas@[0]@ == "Info"@,
            doc.schemas@[1]@ == "EvalRequest"@,
            doc.schemas@[2]@ == "PercentileResponse"@,
    {
        let mut get_responses: Vec<u16> = Vec::new();
        get_responses.push(STATUS_OK);
        let mut post_responses: Vec<u16> = Vec::new();
        post_responses.push(STATUS_OK);
        post_responses.push(STATUS_UNPROCESSABLE_ENTITY);
        post_responses.push(STATUS_INTERNAL_SERVER_ERROR);
        post_responses.push(STATUS_SERVICE_UNAVAILABLE);
        let root = DocumentedPath {
            path: "/",
            get: Some(DocumentedOperation { responses: get_responses }),
            post: Some(DocumentedOperation { responses: post_responses }),
        };
        let mut paths: Vec<DocumentedPath> = Vec::new();
        paths.push(root);
        let mut schemas: Vec<&'static str> = Vec::new();
        schemas.push("Info");
        schemas.push("EvalRequest");
        schemas.push("PercentileResponse");
        ApiDocument { paths, schemas }
    }
}

} // verus!

//! The batch request: the agent names objects, and the server answers for
//! each with the actions that transfer it, or with an error.

use crate::git_lfs::{Error, Operation};
use crate::misc::{from_utf8_lossy, lossy_text, path_segments_mut, segment_pushed, Failure};
use crate::web::{is_success, status_is_success, url_clone, url_text, Field};
use vstd::prelude::*;

pub mod request;
pub mod response;

verus! {

/// The media type of the batch request and of its answer.
pub const MEDIA_TYPE: &'static str = "application/vnd.git-lfs+json";

/// What the agent asks: an operation, the transfers it can make, and the
/// objects.
#[derive(Debug)]
pub struct Request {
    pub operation: Operation,
    pub transfers: Vec<request::Transfer>,
    pub objects: Vec<request::Object>,
}

/// What the server answers: one entry for each object.
#[derive(Debug)]
pub struct Response {
    pub objects: Vec<response::Object>,
}

impl Request {
    /// The request to download the one object `oid` by a basic transfer.
    pub fn download(oid: &str, size: u64) -> (r: Request)
        ensures
            r.operation == Operation::Download,
            r.transfers@ == seq![request::Transfer::Basic],
            r.objects@.len() == 1,
            r.objects@[0].oid@ == oid@,
            r.objects@[0].size == size,
    {
        let mut transfers: Vec<request::Transfer> = Vec::new();
        transfers.push(request::Transfer::Basic);
        let mut objects: Vec<request::Object> = Vec::new();
        objects.push(request::Object { oid: oid.to_owned(), size });
        Request { operation: Operation::Download, transfers, objects }
    }
}

/// What appending the two segments of the batch endpoint to the address
/// `text` gives.
pub open spec fn target_of(text: Seq<char>) -> Result<Seq<char>, Seq<char>> {
    match segment_pushed(text, "objects"@) {
        Ok(t) => segment_pushed(t, "batch"@),
        Err(m) => Err(m),
    }
}

/// The address that the batch request is sent to: `href` with the segments
/// `objects` and `batch`.
pub fn target(href: &::url::Url) -> (r: Result<::url::Url, Failure>)
    ensures
        match target_of(url_text(*href)) {
            Ok(t) => r matches Ok(u) && url_text(u) == t,
            Err(m) => r matches Err(Failure::Other(x)) && x@ == m,
        },
{
    let mut url = url_clone(href);
    match path_segments_mut(&mut url, "objects") {
        Ok(()) => {},
        Err(f) => {
            return Err(f);
        },
    }
    match path_segments_mut(&mut url, "batch") {
        Ok(()) => Ok(url),
        Err(f) => Err(f),
    }
}

/// The two fields that announce the media type of the request and of the
/// answer that is accepted.
pub open spec fn media_fields(accept: Field, content_type: Field) -> bool {
    &&& accept.name@ == "accept"@
    &&& accept.value@ == MEDIA_TYPE@
    &&& content_type.name@ == "content-type"@
    &&& content_type.value@ == MEDIA_TYPE@
}

/// The header of the batch request: the fields of `fields`, then the two
/// fields of the media type.
pub fn header(fields: &Vec<Field>) -> (r: Vec<Field>)
    ensures
        r@.len() == fields@.len() + 2,
        forall|i: int|
            0 <= i < fields@.len() ==> (#[trigger] r@[i]).name@ == fields@[i].name@ && r@[i].value@
                == fields@[i].value@,
        media_fields(r@[fields@.len() as int], r@[fields@.len() as int + 1]),
{
    let mut r: Vec<Field> = Vec::new();
    let mut i: usize = 0;
    while i < fields.len()
        invariant
            i <= fields.len(),
            r@.len() == i,
            forall|j: int|
                0 <= j < i ==> (#[trigger] r@[j]).name@ == fields@[j].name@ && r@[j].value@
                    == fields@[j].value@,
        decreases fields.len() - i,
    {
        r.push(fields[i].clone());
        i += 1;
    }
    r.push(Field { name: "accept".to_owned(), value: MEDIA_TYPE.to_owned() });
    r.push(Field { name: "content-type".to_owned(), value: MEDIA_TYPE.to_owned() });
    r
}

/// What an answer to the batch request amounts to. `objects` is the body
/// read as a list of objects and `message` the message that the body holds,
/// if it holds one. With a status of success the answer is the list, or the
/// failure to read it. Any other status is the error of the server, with
/// the message, or with the body itself where it holds none.
pub fn batch(
    status: u16,
    body: &[u8],
    objects: Result<Response, Failure>,
    message: Option<String>,
) -> (r: Result<Response, Failure>)
    ensures
        status_is_success(status) ==> r == objects,
        !status_is_success(status) ==> (r matches Err(Failure::Server(e)) && e.code == status
            && e.message@ == (match message {
            Some(m) => m@,
            None => lossy_text(body@),
        })),
{
    if is_success(status) {
        objects
    } else {
        let message = match message {
            Some(m) => m,
            None => from_utf8_lossy(body),
        };
        Err(Failure::Server(Error { code: status, message }))
    }
}

} // verus!

//! The decisions of the gateway for one request: which single storage call it makes,
//! if any, and what it answers. Performing the call is left to the caller, which
//! hands back its outcome.

use vstd::prelude::*;
use crate::key::{
    chars_of, get_valid_file_name, get_valid_path, object_key_result, prefix_result,
    IdentifierSet, KeyError,
};
use crate::listing::{describes, ObjectEntry, PresignedObject, ResourceResponse};

verus! {

/// The HTTP method that a URL is signed for.
#[derive(Clone, Copy, Debug, PartialEq, Eq, Structural)]
pub enum SignMethod {
    Get,
    Put,
}

/// One inbound request.
#[derive(Clone, Debug)]
pub enum GatewayRequest {
    /// Redirect to a signed download URL of the object at `file_name`.
    Resource { file_name: Option<String>, seconds: Option<u32> },
    /// A signed download URL of the object at `file_name`.
    DownloadUrl { file_name: Option<String>, seconds: Option<u32> },
    /// A signed upload URL of the key that the identifiers name.
    PresignedUpload { ids: IdentifierSet, seconds: Option<u32> },
    /// The objects under the prefix that the identifiers name.
    ListResources { ids: IdentifierSet },
    /// Removal of the object at `file_name`.
    DeleteResource { file_name: Option<String> },
}

/// How a signed URL is answered.
#[derive(Clone, Debug)]
pub enum SignedAnswer {
    /// A permanent redirect to the URL.
    Redirect,
    /// The URL itself.
    Url,
    /// The URL together with the key that it writes.
    Presigned { key: String },
}

/// The one call into the object store that a request needs.
#[derive(Clone, Debug)]
pub enum StorageCall {
    Sign { key: String, method: SignMethod, expiry_seconds: Option<u32>, answer: SignedAnswer },
    List { prefix: String },
    Remove { key: String },
}

/// What the gateway answers.
#[derive(Clone, Debug)]
pub enum Reply {
    /// A permanent redirect to this URL.
    Redirect(String),
    /// This URL.
    Url(String),
    /// A signed upload URL and its key.
    Presigned(PresignedObject),
    /// A listing.
    Listing(ResourceResponse),
    /// Success without a body.
    Empty,
    /// A failure, with its message.
    Failure(String),
    /// No file name was given.
    MissingFileName,
}

/// Either the reply, with no storage call made, or the call to make first.
#[derive(Clone, Debug)]
pub enum Step {
    Done(Reply),
    Call(StorageCall),
}

/// `step` is a failure that carries the message of `e`.
pub open spec fn fails_with(step: Step, e: KeyError) -> bool {
    step matches Step::Done(Reply::Failure(m)) && m@ == e.text()
}

/// `step` signs `key` with `method` and the given expiry.
pub open spec fn signs(
    step: Step,
    key: Seq<char>,
    method: SignMethod,
    seconds: Option<u32>,
) -> bool {
    &&& step matches Step::Call(StorageCall::Sign { key: k, method: m, expiry_seconds, .. })
    &&& k@ == key
    &&& m == method
    &&& expiry_seconds == seconds
}

/// The step that `request` calls for.
pub open spec fn planned(request: GatewayRequest, step: Step) -> bool {
    match request {
        GatewayRequest::Resource { file_name, seconds } => match file_name {
            None => step matches Step::Done(Reply::MissingFileName),
            Some(f) => signs(step, f@, SignMethod::Get, seconds) && step->Call_0->answer is Redirect,
        },
        GatewayRequest::DownloadUrl { file_name, seconds } => match file_name {
            None => step matches Step::Done(Reply::MissingFileName),
            Some(f) => signs(step, f@, SignMethod::Get, seconds) && step->Call_0->answer is Url,
        },
        GatewayRequest::PresignedUpload { ids, seconds } => match object_key_result(
            ids.ids(),
            chars_of(ids.file_name),
        ) {
            Err(e) => fails_with(step, e),
            Ok(k) => {
                &&& signs(step, k, SignMethod::Put, seconds)
                &&& step->Call_0->answer matches SignedAnswer::Presigned { key }
                &&& key@ == k
            },
        },
        GatewayRequest::ListResources { ids } => match prefix_result(ids.ids(), true) {
            Err(e) => fails_with(step, e),
            Ok(p) => step matches Step::Call(StorageCall::List { prefix }) && prefix@ == p,
        },
        GatewayRequest::DeleteResource { file_name } => match file_name {
            None => step matches Step::Done(Reply::MissingFileName),
            Some(f) => step matches Step::Call(StorageCall::Remove { key }) && key@ == f@,
        },
    }
}

/// Decides what a request needs: a reply at once where the file name is missing or
/// the identifiers are invalid, else the one storage call to make.
pub fn begin(request: GatewayRequest) -> (step: Step)
    ensures
        planned(request, step),
{
    match request {
        GatewayRequest::Resource { file_name, seconds } => match file_name {
            None => Step::Done(Reply::MissingFileName),
            Some(key) => Step::Call(
                StorageCall::Sign {
                    key,
                    method: SignMethod::Get,
                    expiry_seconds: seconds,
                    answer: SignedAnswer::Redirect,
                },
            ),
        },
        GatewayRequest::DownloadUrl { file_name, seconds } => match file_name {
            None => Step::Done(Reply::MissingFileName),
            Some(key) => Step::Call(
                StorageCall::Sign {
                    key,
                    method: SignMethod::Get,
                    expiry_seconds: seconds,
                    answer: SignedAnswer::Url,
                },
            ),
        },
        GatewayRequest::PresignedUpload { ids, seconds } => {
            let derived = get_valid_file_name(
                ids.client_id,
                ids.container_id,
                ids.file_name,
                ids.container_type,
                ids.table_name,
                ids.column_name,
                ids.record_id,
                ids.user_id,
                ids.role_id,
            );
            match derived {
                Err(e) => Step::Done(Reply::Failure(e.message())),
                Ok(key) => {
                    let answer = SignedAnswer::Presigned { key: key.clone() };
                    Step::Call(
                        StorageCall::Sign {
                            key,
                            method: SignMethod::Put,
                            expiry_seconds: seconds,
                            answer,
                        },
                    )
                },
            }
        },
        GatewayRequest::ListResources { ids } => {
            let derived = get_valid_path(
                ids.client_id,
                ids.container_id,
                ids.container_type,
                ids.table_name,
                ids.column_name,
                ids.record_id,
                ids.user_id,
                ids.role_id,
                true,
            );
            match derived {
                Err(e) => Step::Done(Reply::Failure(e.message())),
                Ok(prefix) => Step::Call(StorageCall::List { prefix }),
            }
        },
        GatewayRequest::DeleteResource { file_name } => match file_name {
            None => Step::Done(Reply::MissingFileName),
            Some(key) => Step::Call(StorageCall::Remove { key }),
        },
    }
}

/// The reply to a signing call: the URL answered as asked, or the store's failure.
pub fn finish_signing(answer: SignedAnswer, outcome: Result<String, String>) -> (reply: Reply)
    ensures
        match outcome {
            Err(m) => reply == Reply::Failure(m),
            Ok(url) => match answer {
                SignedAnswer::Redirect => reply == Reply::Redirect(url),
                SignedAnswer::Url => reply == Reply::Url(url),
                SignedAnswer::Presigned { key } => reply == Reply::Presigned(
                    PresignedObject { url: Some(url), file_name: Some(key) },
                ),
            },
        },
{
    match outcome {
        Err(m) => Reply::Failure(m),
        Ok(url) => match answer {
            SignedAnswer::Redirect => Reply::Redirect(url),
            SignedAnswer::Url => Reply::Url(url),
            SignedAnswer::Presigned { key } => Reply::Presigned(
                PresignedObject { url: Some(url), file_name: Some(key) },
            ),
        },
    }
}

/// The reply to a listing call: one record per listed object, or the store's failure.
pub fn finish_listing(outcome: Result<(Option<String>, Vec<ObjectEntry>), String>) -> (reply:
    Reply)
    ensures
        match outcome {
            Err(m) => reply == Reply::Failure(m),
            Ok((prefix, entries)) => {
                &&& reply matches Reply::Listing(listing)
                &&& listing.parent_folder == prefix
                &&& listing.resources matches Some(resources)
                &&& resources@.len() == entries@.len()
                &&& forall|i: int|
                    0 <= i < entries@.len() ==> describes(
                        #[trigger] resources@[i],
                        entries@[i],
                    )
            },
        },
{
    match outcome {
        Err(m) => Reply::Failure(m),
        Ok((prefix, entries)) => Reply::Listing(ResourceResponse::new(prefix, entries)),
    }
}

/// The reply to a removal call: empty on success, else the store's failure.
pub fn finish_removal(outcome: Result<(), String>) -> (reply: Reply)
    ensures
        match outcome {
            Err(m) => reply == Reply::Failure(m),
            Ok(()) => reply is Empty,
        },
{
    match outcome {
        Err(m) => Reply::Failure(m),
        Ok(()) => Reply::Empty,
    }
}

} // verus!

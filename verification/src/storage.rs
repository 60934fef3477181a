//! Uploads, between the capability that lets them in and the store that
//! keeps them.

use vstd::prelude::*;
use vstd::string::StringExecFns;
use crate::error::ApiError;
use crate::guards::{refusal, sniffed_kind, Guards};
use crate::s3::{content_type_or_default, FileObject};
use crate::signed_url::extractor::Claims;
use crate::signed_url::service::str_text;

verus! {

/// The key under which the object `file_name` of the destination `prefix`
/// is stored.
pub open spec fn object_key(prefix: Seq<char>, file_name: Seq<char>) -> Seq<char> {
    prefix + seq!['/'] + file_name
}

/// The key under which the object `file_name` of the destination `prefix`
/// is stored.
pub fn key_of(prefix: &str, file_name: &str) -> (r: String)
    ensures
        r@ == object_key(prefix@, file_name@),
{
    let mut key = prefix.to_owned();
    key.push('/');
    key.append(file_name);
    key
}

/// An upload that may go to the store: the key to store it under, and
/// what to store.
#[derive(Debug)]
pub struct Upload {
    pub key: String,
    pub file: FileObject,
}

/// Decides whether the body of a request goes to the store. The request
/// has presented a capability for what `claims` says; its body is judged
/// by the guard of the destination, as sent with the content type
/// `content_type`, or with the default one where the request names none.
/// Nothing reaches the store but through here.
pub fn admit_upload(guards: &Guards, claims: &Claims, body: Vec<u8>, content_type: Option<&str>) -> (r:
    Result<Upload, ApiError>)
    ensures
        match refusal(
            guards@,
            claims@.path.0,
            sniffed_kind(body@),
            content_type_or_default(str_text(content_type)),
            object_key(claims@.path.0, claims@.path.1),
        ) {
            None => {
                &&& r matches Ok(upload)
                &&& upload.key@ == object_key(claims@.path.0, claims@.path.1)
                &&& upload.file.data@ == body@
                &&& upload.file.content_type@ == content_type_or_default(str_text(content_type))
            },
            Some(e) => r matches Err(answer) && answer.status() == e.status() && answer.text()
                == e.text(),
        },
{
    let declared = match content_type {
        Some(t) => t,
        None => "application/octet-stream",
    };
    let key = key_of(claims.path.0.as_str(), claims.path.1.as_str());
    match guards.check(claims.path.0.as_str(), key.as_str(), body, declared) {
        Ok(file) => Ok(Upload { key, file }),
        Err(e) => Err(e.into_api_error()),
    }
}

} // verus!

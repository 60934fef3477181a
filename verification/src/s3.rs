//! What is handed to the object store, and what the store can answer.

use vstd::prelude::*;
use vstd::string::StringExecFns;

verus! {

/// An upload that has passed its destination's guard.
#[derive(Debug)]
pub struct FileObject {
    pub data: Vec<u8>,
    pub content_type: String,
}

/// Why the object store did not do what was asked.
#[derive(Debug)]
pub enum S3Error {
    UploadFailure(String),
    NoBucketFound,
    BucketNameError(String),
}

impl S3Error {
    /// The words that go with the error.
    pub open spec fn text(self) -> Seq<char> {
        match self {
            S3Error::UploadFailure(m) => m@,
            S3Error::NoBucketFound => "No bucket found"@,
            S3Error::BucketNameError(m) => m@,
        }
    }

    /// The words that go with the error.
    pub fn to_string(&self) -> (r: String)
        ensures
            r@ == self.text(),
    {
        match self {
            S3Error::UploadFailure(m) => m.clone(),
            S3Error::NoBucketFound => "No bucket found".to_owned(),
            S3Error::BucketNameError(m) => m.clone(),
        }
    }
}

/// The content type of an object that was stored without one.
pub open spec fn default_content_type() -> Seq<char> {
    "application/octet-stream"@
}

/// The content type to go by: the one given, or the default where none
/// is.
pub open spec fn content_type_or_default(given: Option<Seq<char>>) -> Seq<char> {
    match given {
        Some(t) => t,
        None => default_content_type(),
    }
}

/// The content type to answer a download with: the one that the object
/// was stored with, or the default where it has none.
pub fn stored_content_type(stored: Option<String>) -> (r: String)
    ensures
        r@ == content_type_or_default(
            match stored {
                Some(t) => Some(t@),
                None => None,
            },
        ),
{
    match stored {
        Some(t) => t,
        None => "application/octet-stream".to_owned(),
    }
}

/// The address of the object `key` of the bucket `bucket` in the store at
/// `endpoint`.
pub open spec fn object_address(endpoint: Seq<char>, bucket: Seq<char>, key: Seq<char>) -> Seq<
    char,
> {
    endpoint + seq!['/'] + bucket + seq!['/'] + key
}

/// The address of the object `key` of the bucket `bucket` in the store at
/// `endpoint`.
pub fn object_url(endpoint: &str, bucket: &str, key: &str) -> (r: String)
    ensures
        r@ == object_address(endpoint@, bucket@, key@),
{
    let mut url = endpoint.to_owned();
    url.push('/');
    url.append(bucket);
    url.push('/');
    url.append(key);
    url
}

/// The names of the buckets on one page of a listing, in order: an error
/// where the page lists nothing at all, or holds a bucket without a name.
pub fn bucket_names(page: Option<Vec<Option<String>>>) -> (r: Result<Vec<String>, S3Error>)
    ensures
        match page {
            None => r matches Err(S3Error::NoBucketFound),
            Some(buckets) => if forall|i: int| 0 <= i < buckets.len() ==> buckets[i] is Some {
                &&& r matches Ok(names)
                &&& names.len() == buckets.len()
                &&& forall|i: int| 0 <= i < names.len() ==> names[i]@ == buckets[i]->0@
            } else {
                r matches Err(S3Error::BucketNameError(m)) && m@ == "No bucket name"@
            },
        },
{
    let buckets = match page {
        Some(b) => b,
        None => {
            return Err(S3Error::NoBucketFound);
        },
    };
    let mut names: Vec<String> = Vec::new();
    let mut i: usize = 0;
    while i < buckets.len()
        invariant
            page == Some(buckets),
            i <= buckets.len(),
            names.len() == i,
            forall|j: int| 0 <= j < i ==> buckets[j] is Some && names[j]@ == buckets[j]->0@,
        decreases buckets.len() - i,
    {
        match &buckets[i] {
            Some(name) => {
                names.push(name.clone());
            },
            None => {
                return Err(S3Error::BucketNameError("No bucket name".to_owned()));
            },
        }
        i = i + 1;
    }
    Ok(names)
}

} // verus!

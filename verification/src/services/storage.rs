//! The decisions of object storage access: which keys may be fetched, how a
//! failed fetch is classified, and which bodies are accepted.

use vstd::prelude::*;
use crate::services::errors::{StorageError, StorageFault};
use crate::text::{concat2, contains_str, seq_contains, str_eq, string_of};

verus! {

broadcast use vstd::string::group_string_axioms;

/// A key that climbs out of its directory (it holds `..`).
pub open spec fn is_traversal(key: Seq<char>) -> bool {
    seq_contains(key, ".."@)
}

/// The storage error code says the object does not exist.
pub open spec fn code_says_missing(code: Option<Seq<char>>) -> bool {
    code == Some("NoSuchKey"@) || code == Some("404"@)
}

/// The storage error message says the object does not exist.
pub open spec fn message_says_missing(message: Seq<char>) -> bool {
    ||| seq_contains(message, "NoSuchKey"@)
    ||| seq_contains(message, "404"@)
    ||| seq_contains(message, "NotFound"@)
    ||| seq_contains(message, "The specified key does not exist"@)
    ||| seq_contains(message, "not found"@)
}

/// How a failed fetch of `key` is reported, given the service error code (if
/// the service answered) and the error's message.
pub open spec fn fetch_failure(code: Option<Seq<char>>, message: Seq<char>, key: Seq<char>) -> StorageFault {
    if code_says_missing(code) || message_says_missing(message) {
        StorageFault::NotFound("File not found: "@ + key)
    } else {
        StorageFault::Io("S3 error: "@ + message)
    }
}

/// Views an optional `&str` as optional characters.
pub open spec fn opt_chars(o: Option<&str>) -> Option<Seq<char>> {
    match o {
        Some(s) => Some(s@),
        None => None,
    }
}

/// The connection settings of the object store, each taken from the
/// environment when it is set there.
#[derive(Debug)]
pub struct S3Settings {
    pub access_key: String,
    pub secret_key: String,
    pub region: String,
    /// A custom endpoint (MinIO or another S3-compatible store), reached with
    /// path-style addressing.
    pub endpoint: Option<String>,
    pub bucket: String,
}

/// `value` when it is set, `default` otherwise.
pub open spec fn or_default(value: Option<String>, default: Seq<char>) -> Seq<char> {
    match value {
        Some(v) => v@,
        None => default,
    }
}

fn value_or(value: Option<String>, default: &str) -> (r: String)
    ensures
        r@ == or_default(value, default@),
{
    match value {
        Some(v) => v,
        None => string_of(default),
    }
}

impl S3Settings {
    /// The settings from the values found in the environment: credentials
    /// default to `minioadmin`, the region to `us-east-1`, the bucket to
    /// `images`; without an endpoint the store's default one is used.
    pub fn resolve(
        access_key: Option<String>,
        secret_key: Option<String>,
        region: Option<String>,
        endpoint: Option<String>,
        bucket: Option<String>,
    ) -> (s: S3Settings)
        ensures
            s.access_key@ == or_default(access_key, "minioadmin"@),
            s.secret_key@ == or_default(secret_key, "minioadmin"@),
            s.region@ == or_default(region, "us-east-1"@),
            s.endpoint == endpoint,
            s.bucket@ == or_default(bucket, "images"@),
    {
        S3Settings {
            access_key: value_or(access_key, "minioadmin"),
            secret_key: value_or(secret_key, "minioadmin"),
            region: value_or(region, "us-east-1"),
            endpoint,
            bucket: value_or(bucket, "images"),
        }
    }
}

/// Object storage access.
pub struct StorageService;

impl StorageService {
    /// Rejects keys that would climb out of their directory.
    pub fn validate_key(key: &str) -> (r: Result<(), StorageError>)
        ensures
            r is Ok <==> !is_traversal(key@),
            r matches Err(e) ==> e@ == StorageFault::NotFound("Invalid key"@),
    {
        if contains_str(key, "..") {
            return Err(StorageError::NotFound(string_of("Invalid key")));
        }
        Ok(())
    }

    /// Classifies a failed fetch of `key` from the service error code (if any)
    /// and the error message: a missing object is `NotFound`, anything else
    /// an I/O error quoting the message.
    pub fn classify_failure(code: Option<&str>, message: &str, key: &str) -> (e: StorageError)
        ensures
            e@ == fetch_failure(opt_chars(code), message@, key@),
    {
        proof {
            reveal_strlit("NoSuchKey");
            reveal_strlit("404");
        }
        let by_code = match code {
            Some(c) => str_eq(c, "NoSuchKey") || str_eq(c, "404"),
            None => false,
        };
        let by_message = contains_str(message, "NoSuchKey")
            || contains_str(message, "404")
            || contains_str(message, "NotFound")
            || contains_str(message, "The specified key does not exist")
            || contains_str(message, "not found");
        if by_code || by_message {
            StorageError::NotFound(concat2("File not found: ", key))
        } else {
            StorageError::IoError(concat2("S3 error: ", message))
        }
    }

    /// Accepts a fetched body: a failed read is an I/O error quoting the
    /// failure, an empty body is an I/O error too, anything else is returned.
    pub fn accept_body(read: Result<Vec<u8>, String>) -> (r: Result<Vec<u8>, StorageError>)
        ensures
            match read {
                Err(d) => r matches Err(e) && e@ == StorageFault::Io("Failed to read response body: "@ + d@),
                Ok(b) => if b@.len() == 0 {
                    r matches Err(e) && e@ == StorageFault::Io("Retrieved file is empty"@)
                } else {
                    r == Ok::<Vec<u8>, StorageError>(b)
                },
            },
    {
        match read {
            Err(d) => Err(StorageError::IoError(concat2("Failed to read response body: ", d.as_str()))),
            Ok(b) => {
                if b.len() == 0 {
                    Err(StorageError::IoError(string_of("Retrieved file is empty")))
                } else {
                    Ok(b)
                }
            },
        }
    }
}


/// A key is refused by the traversal guard exactly when two dots stand
/// next to each other somewhere in it.
pub proof fn law_traversal_is_two_adjacent_dots(key: Seq<char>)
    ensures
        is_traversal(key) <==> exists|i: int| 0 <= i && i + 1 < key.len() && #[trigger] key[i] == '.' && key[i + 1] == '.',
{
    reveal_strlit("..");
    if is_traversal(key) {
        let i = choose|i: int| crate::text::occurs_at(key, ".."@, i);
        assert(key.subrange(i, i + 2)[0] == '.');
        assert(key.subrange(i, i + 2)[1] == '.');
        assert(key[i] == '.' && key[i + 1] == '.');
    }
    if exists|i: int| 0 <= i && i + 1 < key.len() && #[trigger] key[i] == '.' && key[i + 1] == '.' {
        let i = choose|i: int| 0 <= i && i + 1 < key.len() && #[trigger] key[i] == '.' && key[i + 1] == '.';
        assert(key.subrange(i, i + 2) =~= ".."@);
        assert(crate::text::occurs_at(key, ".."@, i));
    }
}

/// A failed fetch is reported as a missing file (naming the key) when the
/// service code is `NoSuchKey` or `404`, or the message mentions a missing
/// object; any other failure is an I/O error that quotes the message.
pub proof fn law_failed_fetch_classification(code: Option<Seq<char>>, message: Seq<char>, key: Seq<char>)
    ensures
        (code == Some("NoSuchKey"@) || code == Some("404"@))
            ==> fetch_failure(code, message, key) == StorageFault::NotFound("File not found: "@ + key),
        (seq_contains(message, "NoSuchKey"@) || seq_contains(message, "404"@) || seq_contains(message, "NotFound"@)
            || seq_contains(message, "The specified key does not exist"@) || seq_contains(message, "not found"@))
            ==> fetch_failure(code, message, key) == StorageFault::NotFound("File not found: "@ + key),
        (code != Some("NoSuchKey"@) && code != Some("404"@)
            && !seq_contains(message, "NoSuchKey"@) && !seq_contains(message, "404"@) && !seq_contains(message, "NotFound"@)
            && !seq_contains(message, "The specified key does not exist"@) && !seq_contains(message, "not found"@))
            ==> fetch_failure(code, message, key) == StorageFault::Io("S3 error: "@ + message),
{
}

} // verus!

//! Digest computation and the report line a worker emits for each file.

use vstd::prelude::*;
use vstd::string::StringExecFns;

verus! {

/// The lowercase hexadecimal SHA-256 digest of a byte sequence. The digest
/// is a function of the bytes alone, so two files with equal contents get
/// the same digest string, whichever worker hashes them.
pub uninterp spec fn sha256_hex_of(bytes: Seq<u8>) -> Seq<char>;

/// Relies on `sha256::digest` (crate `sha256`): the SHA-256 of the bytes,
/// rendered through `hex::encode` as 64 lowercase hexadecimal characters; a
/// function of the bytes alone.
#[verifier::external_body]
fn sha256_hex(bytes: &[u8]) -> (r: String)
    ensures
        r@ == sha256_hex_of(bytes@),
        r@.len() == 64,
{
    sha256::digest(bytes)
}

/// The report line for a successfully hashed file: the digest of its
/// contents, one space, and its canonical path.
pub open spec fn spec_digest_line(bytes: Seq<u8>, path: Seq<char>) -> Seq<char> {
    sha256_hex_of(bytes) + " "@ + path
}

/// Builds the report line for a file whose full contents are `bytes` and
/// whose canonical path is `path`.
pub fn digest_line(bytes: &[u8], path: &str) -> (r: String)
    ensures
        r@ == spec_digest_line(bytes@, path@),
{
    let mut r = sha256_hex(bytes);
    r.append(" ");
    r.append(path);
    r
}

/// The diagnostic for a file whose contents could not be read when its
/// turn came: the worker reports it and goes on to the next task.
pub fn digest_failure_line(path: &str, err: &str) -> (r: String)
    ensures
        r@ == "Failed to create digest "@ + path@ + ": "@ + err@,
{
    let mut r = String::from_str("Failed to create digest ");
    r.append(path);
    r.append(": ");
    r.append(err);
    r
}

/// What a worker emits for one dequeued task.
pub enum TaskOutcome {
    /// The report line for the standard output: digest, space, path.
    Hashed(String),
    /// The diagnostic line for the error sink; the file stays unreported.
    Failed(String),
}

/// Turns one dequeued task into the line a worker emits: the contents of
/// the file at `path` arrive as `contents`, read by the caller, or as the
/// error that reading them produced. A read failure costs only this one
/// file; the outcome for a task is a function of its path and contents
/// alone, whichever worker handles it.
pub fn process_task(path: &str, contents: Result<Vec<u8>, String>) -> (o: TaskOutcome)
    ensures
        (contents matches Ok(b) ==> (o matches TaskOutcome::Hashed(line) && line@
            == spec_digest_line(b@, path@))),
        (contents matches Err(e) ==> (o matches TaskOutcome::Failed(d) && d@
            == "Failed to create digest "@ + path@ + ": "@ + e@)),
{
    match contents {
        Ok(bytes) => TaskOutcome::Hashed(digest_line(bytes.as_slice(), path)),
        Err(err) => TaskOutcome::Failed(digest_failure_line(path, err.as_str())),
    }
}

/// The digest is deterministic and reproducible: hashing the same byte
/// content twice yields the identical digest string.
pub proof fn lemma_digest_deterministic(a: Seq<u8>, b: Seq<u8>)
    requires
        a == b,
    ensures
        sha256_hex_of(a) == sha256_hex_of(b),
{
}

} // verus!

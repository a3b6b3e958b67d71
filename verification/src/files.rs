//! What the upload endpoint decides: under which key a file is stored,
//! where it can be fetched from afterwards, and what is replied.

use vstd::prelude::*;
use vstd::string::*;

use crate::api_response::{ApiResponse, BAD_REQUEST, INTERNAL_ERROR, OK};
use crate::text::joined;

verus! {

/// The payload of the reply to an upload.
#[derive(Debug)]
pub struct FileUploadResponse {
    pub message: String,
    pub file_url: String,
    pub file_key: String,
}

/// Calls `uuid::Uuid::new_v4` and writes the identifier down.
///
/// Trusted: nothing. The identifier is random.
#[verifier::external_body]
fn random_id() -> (id: String) {
    uuid::Uuid::new_v4().to_string()
}

/// `part` can be the extension of a file called `text`: it stands in `text`
/// right behind a dot, and holds no dot itself.
pub open spec fn is_extension_in(text: Seq<char>, part: Seq<char>) -> bool {
    &&& !part.contains('.')
    &&& exists|i: int|
        0 <= i && i + 1 + part.len() <= text.len() && #[trigger] text[i] == '.' && text.subrange(
            i + 1,
            i + 1 + part.len(),
        ) == part
}

/// Calls `std::path::Path::extension` on `file_name`.
///
/// Trusted: an extension is the part of the name behind its last dot, so it
/// stands in `file_name` right behind a dot and holds no dot itself. Which
/// part of a path is the name depends on the platform, so no more is said.
#[verifier::external_body]
fn extension_in(file_name: &str) -> (extension: Option<String>)
    ensures
        extension matches Some(e) ==> is_extension_in(file_name@, e@),
{
    std::path::Path::new(file_name).extension().and_then(|e| e.to_str()).map(String::from)
}

/// The name of the file that was sent, or the refusal (400) where it has none.
pub fn file_name_or_refusal(file_name: Option<String>) -> (r: Result<String, ApiResponse<String>>)
    ensures
        match file_name {
            Some(name) => r == Ok::<String, ApiResponse<String>>(name),
            None => r matches Err(reply) && reply.says(
                BAD_REQUEST,
                "File name is required"@,
                Seq::<char>::empty(),
            ),
        },
{
    proof {
        reveal_strlit("");
        assert(""@ =~= Seq::<char>::empty());
    }
    match file_name {
        Some(name) => Ok(name),
        None => Err(ApiResponse::text(BAD_REQUEST, "File name is required", "")),
    }
}

/// The content type to store a file with: the one it came with, or that of
/// plain bytes.
pub fn content_type_or_default(content_type: Option<String>) -> (chosen: String)
    ensures
        chosen@ == match content_type {
            Some(t) => t@,
            None => "application/octet-stream"@,
        },
{
    match content_type {
        Some(t) => t,
        None => "application/octet-stream".to_owned(),
    }
}

/// The extension to store a file with: its own, or `bin`.
pub fn extension_or_default(extension: Option<String>) -> (chosen: String)
    ensures
        chosen@ == match extension {
            Some(e) => e@,
            None => "bin"@,
        },
{
    match extension {
        Some(e) => e,
        None => "bin".to_owned(),
    }
}

/// The extension to store the file called `file_name` with: the one that
/// the platform finds in the name, or `bin` where it finds none.
///
/// An extension that is found stands in the name right behind a dot. So a
/// name without a dot is stored as `bin`, and whatever is chosen holds no
/// dot.
pub fn storage_extension(file_name: &str) -> (chosen: String)
    ensures
        chosen@ == "bin"@ || is_extension_in(file_name@, chosen@),
        !file_name@.contains('.') ==> chosen@ == "bin"@,
        !chosen@.contains('.'),
{
    proof {
        reveal_strlit("bin");
        assert(!"bin"@.contains('.')) by {
            assert forall|i: int| 0 <= i < "bin"@.len() implies "bin"@[i] != '.' by {}
        }
    }
    let found: Option<String> = extension_in(file_name);
    proof {
        if let Some(e) = &found {
            let i = choose|i: int|
                0 <= i && i + 1 + e@.len() <= file_name@.len() && #[trigger] file_name@[i] == '.'
                    && file_name@.subrange(i + 1, i + 1 + e@.len()) == e@;
            assert(file_name@.contains('.'));
        }
    }
    extension_or_default(found)
}

/// The key of an upload: `uploads/`, an identifier, a dot, the extension.
pub open spec fn object_key_of(id: Seq<char>, extension: Seq<char>) -> Seq<char> {
    "uploads/"@ + id + "."@ + extension
}

/// The address of a stored object: the bucket's host in the region, then
/// the key.
pub open spec fn object_url_of(bucket: Seq<char>, region: Seq<char>, key: Seq<char>) -> Seq<
    char,
> {
    "https://"@ + bucket + ".s3."@ + region + ".amazonaws.com/"@ + key
}

/// Writes the key of an upload.
pub fn object_key(id: &str, extension: &str) -> (key: String)
    ensures
        key@ == object_key_of(id@, extension@),
{
    let mut key: String = joined("uploads/", id);
    key.append(".");
    key.append(extension);
    key
}

/// Writes the key of a new upload, under a random identifier.
pub fn fresh_object_key(extension: &str) -> (key: String)
    ensures
        exists|id: Seq<char>| key@ == #[trigger] object_key_of(id, extension@),
{
    let id: String = random_id();
    object_key(id.as_str(), extension)
}

/// Writes the address of a stored object.
pub fn object_url(bucket: &str, region: &str, key: &str) -> (url: String)
    ensures
        url@ == object_url_of(bucket@, region@, key@),
{
    let mut url: String = joined("https://", bucket);
    url.append(".s3.");
    url.append(region);
    url.append(".amazonaws.com/");
    url.append(key);
    url
}

/// The refusal (500) for a file that could not be opened.
pub fn open_failure_reply(said: &str) -> (reply: ApiResponse<String>)
    ensures
        reply.says(INTERNAL_ERROR, "Failed to read file: "@ + said@, Seq::<char>::empty()),
{
    ApiResponse::new(INTERNAL_ERROR, joined("Failed to read file: ", said), String::new())
}

/// The refusal (500) for a file that could not be read to its end.
pub fn read_failure_reply(said: &str) -> (reply: ApiResponse<String>)
    ensures
        reply.says(
            INTERNAL_ERROR,
            "Failed to read file content: "@ + said@,
            Seq::<char>::empty(),
        ),
{
    ApiResponse::new(INTERNAL_ERROR, joined("Failed to read file content: ", said), String::new())
}

/// The reply to an upload, from what the object store answered: its
/// address and key where it took the file, a refusal (500) that repeats its
/// words where it did not.
pub fn upload_reply(uploaded: Result<(), String>, bucket: &str, region: &str, key: String) -> (r:
    Result<ApiResponse<FileUploadResponse>, ApiResponse<String>>)
    ensures
        match uploaded {
            Ok(_) => r matches Ok(reply) && reply.status == OK && reply.message@
                == "File uploaded successfully"@ && reply.data.message@
                == "File uploaded successfully"@ && reply.data.file_url@ == object_url_of(
                bucket@,
                region@,
                key@,
            ) && reply.data.file_key == key,
            Err(said) => r matches Err(reply) && reply.says(
                INTERNAL_ERROR,
                "S3 upload failed: "@ + said@,
                Seq::<char>::empty(),
            ),
        },
{
    match uploaded {
        Ok(_) => {
            let file_url: String = object_url(bucket, region, key.as_str());
            let payload = FileUploadResponse {
                message: "File uploaded successfully".to_owned(),
                file_url,
                file_key: key,
            };
            Ok(ApiResponse::success("File uploaded successfully", payload))
        },
        Err(said) => Err(
            ApiResponse::new(
                INTERNAL_ERROR,
                joined("S3 upload failed: ", said.as_str()),
                String::new(),
            ),
        ),
    }
}

} // verus!

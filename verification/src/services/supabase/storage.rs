//! Supabase Storage: the object keys and URLs of uploads, deletions and
//! listings, the bucket-creation protocol, and what each reply means.

use vstd::prelude::*;
use vstd::utf8::encode_utf8;

use crate::identifiers::{new_uuid, uuid_v4_text};
use crate::json::{json_string, json_string_of};
use crate::string_map::pairs_of;
use crate::http_status::{status_text, status_text_spec};
use crate::models::error::{AppError, AppErrorKind};
use crate::text::{
    concat2, concat3, concat4, contains, contains_spec, owned, split_on, split_spec, starts_with,
};
use crate::upstream::{body_or_empty, body_text_or_empty, UpstreamReply};

verus! {

/// A byte that percent-encoding leaves as it is: an ASCII letter or digit,
/// `-`, `.`, `_` or `~`.
pub open spec fn url_safe_byte(b: u8) -> bool {
    ||| 0x30 <= b <= 0x39
    ||| 0x41 <= b <= 0x5a
    ||| 0x61 <= b <= 0x7a
    ||| b == 0x2d
    ||| b == 0x2e
    ||| b == 0x5f
    ||| b == 0x7e
}

/// The uppercase hexadecimal digit of a value below 16.
pub open spec fn upper_hex_digit(d: int) -> char {
    if d < 10 {
        (('0' as u32) + d) as char
    } else {
        (('A' as u32) + d - 10) as char
    }
}

/// Percent-encoded bytes: each safe byte as its character, every other
/// byte as `%` and two uppercase hexadecimal digits.
pub open spec fn percent_encoded(bytes: Seq<u8>) -> Seq<char>
    decreases bytes.len(),
{
    if bytes.len() == 0 {
        Seq::empty()
    } else {
        let b = bytes.last();
        percent_encoded(bytes.drop_last()) + if url_safe_byte(b) {
            seq![b as char]
        } else {
            seq!['%', upper_hex_digit((b / 16) as int), upper_hex_digit((b % 16) as int)]
        }
    }
}

/// Percent-encoded bytes never hold a `/`.
pub proof fn lemma_percent_encoded_has_no_slash(bytes: Seq<u8>)
    ensures
        !percent_encoded(bytes).contains('/'),
    decreases bytes.len(),
{
    if bytes.len() > 0 {
        lemma_percent_encoded_has_no_slash(bytes.drop_last());
        let b = bytes.last();
        let head = percent_encoded(bytes.drop_last());
        let tail = if url_safe_byte(b) {
            seq![b as char]
        } else {
            seq!['%', upper_hex_digit((b / 16) as int), upper_hex_digit((b % 16) as int)]
        };
        assert(!tail.contains('/'));
        assert forall|i: int| 0 <= i < percent_encoded(bytes).len() implies percent_encoded(bytes)[i]
            != '/' by {
            if i < head.len() {
                assert(percent_encoded(bytes)[i] == head[i]);
            } else {
                assert(percent_encoded(bytes)[i] == tail[i - head.len()]);
            }
        }
    }
}

/// The percent-encoding of a string's UTF-8 bytes.
pub open spec fn url_encoded_of(s: Seq<char>) -> Seq<char> {
    percent_encoded(encode_utf8(s))
}

/// `urlencoding::encode`: percent-encodes every UTF-8 byte of `s` except
/// ASCII letters and digits and `-`, `_`, `.`, `~`, with uppercase hex
/// digits.
#[verifier::external_body]
fn url_encode(s: &str) -> (r: String)
    ensures
        r@ == url_encoded_of(s@),
{
    urlencoding::encode(s).into_owned()
}

/// The last component of a path as `std::path::Path::file_name` finds it.
pub uninterp spec fn file_name_of(s: Seq<char>) -> Option<Seq<char>>;

/// `Path::new(s).file_name()`: the final component of a path, if it is a
/// normal file name (not `..`, not a root, not empty). The result is named
/// by `file_name_of`; the facts stated are that a file name is never empty
/// and never holds a `/`.
#[verifier::external_body]
fn path_file_name(s: &str) -> (r: Option<String>)
    ensures
        match r {
            Some(n) => file_name_of(s@) == Some(n@) && n@.len() > 0 && !n@.contains('/'),
            None => file_name_of(s@) is None,
        },
{
    std::path::Path::new(s).file_name().and_then(|n| n.to_str()).map(|n| n.to_string())
}

/// The segments of a path, each percent-encoded, joined by `/`.
pub open spec fn encoded_segments(segs: Seq<Seq<char>>) -> Seq<char>
    decreases segs.len(),
{
    if segs.len() == 0 {
        Seq::<char>::empty()
    } else if segs.len() == 1 {
        url_encoded_of(segs[0])
    } else {
        encoded_segments(segs.drop_last()) + "/"@ + url_encoded_of(segs.last())
    }
}

/// `p` with each `/`-separated segment percent-encoded.
pub open spec fn encoded_path(p: Seq<char>) -> Seq<char> {
    encoded_segments(split_spec(p, '/'))
}

fn encode_path(p: &str) -> (r: String)
    ensures
        r@ == encoded_path(p@),
{
    let segs = split_on(p, '/');
    let ghost sv = crate::text::views(segs@);
    let n = segs.len();
    let mut out = String::new();
    assert(sv.subrange(0, 0) =~= Seq::<Seq<char>>::empty());
    for i in 0..n
        invariant
            n == segs@.len(),
            sv == crate::text::views(segs@),
            out@ == encoded_segments(sv.subrange(0, i as int)),
    {
        assert(sv.subrange(0, i + 1).drop_last() =~= sv.subrange(0, i as int));
        assert(sv[i as int] == segs@[i as int]@);
        let e = url_encode(segs[i].as_str());
        if i == 0 {
            out = e;
            assert(sv.subrange(0, 1) =~= seq![sv[0]]);
        } else {
            out.append("/");
            out.append(e.as_str());
        }
        assert(out@ =~= encoded_segments(sv.subrange(0, i + 1)));
    }
    assert(sv.subrange(0, n as int) =~= sv);
    out
}

/// A storage path is acceptable when it is relative and has no `..`.
pub open spec fn safe_storage_path(p: Seq<char>) -> bool {
    !contains_spec(p, ".."@) && !"/"@.is_prefix_of(p)
}

/// Where and under which key an upload goes.
pub struct UploadPlan {
    pub url: String,
    pub full_path: String,
}

/// The step of the bucket-creation protocol a reply answers.
pub enum BucketPhase {
    /// The reply to `GET` of the bucket.
    Lookup,
    /// The reply to `POST` creating the bucket (its body read on rejection).
    Create,
}

/// What to do after a reply of the bucket-creation protocol.
pub enum BucketAction {
    /// Send the creation request.
    CreateBucket,
    /// Stop with this result.
    Finish(Result<(), AppError>),
}

/// Service for interacting with Supabase Storage.
pub struct SupabaseStorageService {
    pub base_url: String,
    pub service_key: String,
    pub bucket_name: String,
}

impl SupabaseStorageService {
    /// A storage service for `bucket_name` in the given project.
    pub fn new(supabase_url: &str, service_key: &str, bucket_name: &str) -> (r: SupabaseStorageService)
        ensures
            r.base_url@ == supabase_url@ + "/storage/v1"@,
            r.service_key@ == service_key@,
            r.bucket_name@ == bucket_name@,
    {
        SupabaseStorageService {
            base_url: concat2(supabase_url, "/storage/v1"),
            service_key: owned(service_key),
            bucket_name: owned(bucket_name),
        }
    }

    /// The URL of the bucket.
    pub fn bucket_url(&self) -> (r: String)
        ensures
            r@ == self.base_url@ + "/bucket/"@ + self.bucket_name@,
    {
        concat3(self.base_url.as_str(), "/bucket/", self.bucket_name.as_str())
    }

    /// The URL buckets are created at.
    pub fn create_bucket_url(&self) -> (r: String)
        ensures
            r@ == self.base_url@ + "/bucket"@,
    {
        concat2(self.base_url.as_str(), "/bucket")
    }

    /// The JSON body that creates the bucket: its name, and not public.
    pub fn create_bucket_body(&self) -> (r: String)
        ensures
            r@ == "{\"name\":"@ + json_string_of(self.bucket_name@) + ",\"public\":false}"@,
    {
        let name = json_string(self.bucket_name.as_str());
        concat3("{\"name\":", name.as_str(), ",\"public\":false}")
    }

    /// The headers of every storage request: the service key as the API key
    /// and as the bearer credential.
    pub fn auth_headers(&self) -> (r: Vec<(String, String)>)
        ensures
            pairs_of(r@) == seq![
                ("apikey"@, self.service_key@),
                ("Authorization"@, "Bearer "@ + self.service_key@),
            ],
    {
        let mut headers: Vec<(String, String)> = Vec::new();
        headers.push((owned("apikey"), owned(self.service_key.as_str())));
        headers.push((owned("Authorization"), concat2("Bearer ", self.service_key.as_str())));
        assert(pairs_of(headers@) =~= seq![
            ("apikey"@, self.service_key@),
            ("Authorization"@, "Bearer "@ + self.service_key@),
        ]);
        headers
    }

    /// The next step of ensuring the bucket exists, given the reply to the
    /// current one: an existing bucket ends the protocol; a missing one is
    /// created; creation succeeds also when the bucket "already exists".
    pub fn ensure_bucket_step(phase: BucketPhase, reply: UpstreamReply<()>) -> (r: BucketAction)
        requires
            reply.wf(),
            phase is Create ==> (reply matches UpstreamReply::Rejected(_, b) ==> b is Some),
        ensures
            match (phase, reply) {
                (BucketPhase::Lookup, UpstreamReply::SendFailed(e)) => r matches BucketAction::Finish(
                    Err(err),
                ) && err.is(AppErrorKind::ExternalService, "Storage request failed: "@ + e@),
                (BucketPhase::Lookup, UpstreamReply::Rejected(_, _)) => r is CreateBucket,
                (BucketPhase::Lookup, _) => r matches BucketAction::Finish(Ok(())),
                (BucketPhase::Create, UpstreamReply::SendFailed(e)) => r matches BucketAction::Finish(
                    Err(err),
                ) && err.is(AppErrorKind::ExternalService, "Failed to create bucket: "@ + e@),
                (BucketPhase::Create, UpstreamReply::Rejected(status, Some(Err(e)))) => r matches BucketAction::Finish(
                    Err(err),
                ) && err.is(
                    AppErrorKind::ExternalService,
                    "HTTP error response (status "@ + status_text_spec(status)
                        + "): failed to read body: "@ + e@,
                ),
                (BucketPhase::Create, UpstreamReply::Rejected(_, Some(Ok(b)))) => if contains_spec(
                    b@,
                    "already exists"@,
                ) {
                    r matches BucketAction::Finish(Ok(()))
                } else {
                    r matches BucketAction::Finish(Err(err)) && err.is(
                        AppErrorKind::ExternalService,
                        "Failed to create bucket: "@ + b@,
                    )
                },
                (BucketPhase::Create, UpstreamReply::Rejected(_, None)) => false,
                (BucketPhase::Create, _) => r matches BucketAction::Finish(Ok(())),
            },
    {
        match phase {
            BucketPhase::Lookup => match reply {
                UpstreamReply::SendFailed(e) => BucketAction::Finish(
                    Err(AppError::ExternalService(concat2("Storage request failed: ", e.as_str()))),
                ),
                UpstreamReply::Rejected(_, _) => BucketAction::CreateBucket,
                _ => BucketAction::Finish(Ok(())),
            },
            BucketPhase::Create => match reply {
                UpstreamReply::SendFailed(e) => BucketAction::Finish(
                    Err(AppError::ExternalService(concat2("Failed to create bucket: ", e.as_str()))),
                ),
                UpstreamReply::Rejected(status, Some(Err(e))) => {
                    let text = status_text(status);
                    BucketAction::Finish(
                        Err(
                            AppError::ExternalService(
                                concat4(
                                    "HTTP error response (status ",
                                    text.as_str(),
                                    "): failed to read body: ",
                                    e.as_str(),
                                ),
                            ),
                        ),
                    )
                },
                UpstreamReply::Rejected(_, Some(Ok(b))) => {
                    if contains(b.as_str(), "already exists") {
                        BucketAction::Finish(Ok(()))
                    } else {
                        BucketAction::Finish(
                            Err(AppError::ExternalService(concat2("Failed to create bucket: ", b.as_str()))),
                        )
                    }
                },
                UpstreamReply::Rejected(_, None) => BucketAction::Finish(Ok(())),
                _ => BucketAction::Finish(Ok(())),
            },
        }
    }

    /// Where an upload of `filename` goes: only the file name of `filename`
    /// is kept, prefixed by a fresh UUID; an optional relative `path` (no
    /// `..`) comes before it; every segment is percent-encoded.
    pub fn plan_upload(&self, filename: &str, path: Option<&str>) -> (r: Result<UploadPlan, AppError>)
        ensures
            file_name_of(filename@) is None ==> (r matches Err(err) && err.is(
                AppErrorKind::BadRequest,
                "Invalid or empty filename (path segments not allowed)"@,
            )),
            file_name_of(filename@) is Some && (path matches Some(p) && !safe_storage_path(p@))
                ==> (r matches Err(err) && err.is(
                AppErrorKind::BadRequest,
                "Storage path must be relative and cannot contain '..'"@,
            )),
            r matches Ok(plan) ==> (file_name_of(filename@) is Some && exists|id: Seq<char>|
                uuid_v4_text(id) && {
                    let key = url_encoded_of(id + "-"@ + file_name_of(filename@)->0);
                    &&& !key.contains('/')
                    &&& plan.full_path@ == match path {
                        Some(p) => encoded_path(p@) + "/"@ + key,
                        None => key,
                    }
                    &&& plan.url@ == self.base_url@ + "/object/"@ + url_encoded_of(
                        self.bucket_name@,
                    ) + "/"@ + plan.full_path@
                }),
            (file_name_of(filename@) is Some && (path matches Some(p) ==> safe_storage_path(p@)))
                ==> r is Ok,
    {
        let safe_name = match path_file_name(filename) {
            Some(n) => n,
            None => {
                return Err(
                    AppError::BadRequest(
                        owned("Invalid or empty filename (path segments not allowed)"),
                    ),
                );
            },
        };
        let id = new_uuid();
        let unique = concat3(id.as_str(), "-", safe_name.as_str());
        let key = url_encode(unique.as_str());
        proof {
            lemma_percent_encoded_has_no_slash(encode_utf8(unique@));
        }
        let full_path = match path {
            Some(p) => {
                if contains(p, "..") || starts_with(p, "/") {
                    return Err(
                        AppError::BadRequest(
                            owned("Storage path must be relative and cannot contain '..'"),
                        ),
                    );
                }
                let encoded = encode_path(p);
                concat3(encoded.as_str(), "/", key.as_str())
            },
            None => key,
        };
        let bucket = url_encode(self.bucket_name.as_str());
        let url = concat4(self.base_url.as_str(), "/object/", bucket.as_str(), "/");
        let url = concat2(url.as_str(), full_path.as_str());
        Ok(UploadPlan { url, full_path })
    }

    /// The public URL of an object key.
    pub fn get_public_url(&self, path: &str) -> (r: String)
        ensures
            r@ == self.base_url@ + "/object/public/"@ + self.bucket_name@ + "/"@ + path@,
    {
        let head = concat4(self.base_url.as_str(), "/object/public/", self.bucket_name.as_str(), "/");
        concat2(head.as_str(), path)
    }

    /// The answer to an upload: the public URL of its key, or an upstream
    /// error with the status and body.
    pub fn upload_outcome(&self, reply: UpstreamReply<()>, full_path: &str) -> (r: Result<
        String,
        AppError,
    >)
        requires
            reply.wf(),
            reply matches UpstreamReply::Rejected(_, b) ==> b is Some,
        ensures
            match reply {
                UpstreamReply::SendFailed(e) => r matches Err(err) && err.is(
                    AppErrorKind::ExternalService,
                    "File upload failed: "@ + e@,
                ),
                UpstreamReply::Rejected(status, Some(Err(e))) => r matches Err(err) && err.is(
                    AppErrorKind::ExternalService,
                    "HTTP error response (status "@ + status_text_spec(status)
                        + "): failed to read body: "@ + e@,
                ),
                UpstreamReply::Rejected(status, Some(Ok(b))) => r matches Err(err) && err.is(
                    AppErrorKind::ExternalService,
                    "File upload failed (status "@ + status_text_spec(status) + "): "@ + b@,
                ),
                UpstreamReply::Rejected(_, None) => false,
                _ => r matches Ok(u) && u@ == self.base_url@ + "/object/public/"@
                    + self.bucket_name@ + "/"@ + full_path@,
            },
    {
        match reply {
            UpstreamReply::SendFailed(e) => Err(
                AppError::ExternalService(concat2("File upload failed: ", e.as_str())),
            ),
            UpstreamReply::Rejected(status, Some(Err(e))) => {
                let text = status_text(status);
                Err(
                    AppError::ExternalService(
                        concat4(
                            "HTTP error response (status ",
                            text.as_str(),
                            "): failed to read body: ",
                            e.as_str(),
                        ),
                    ),
                )
            },
            UpstreamReply::Rejected(status, Some(Ok(b))) => {
                let text = status_text(status);
                let head = concat3("File upload failed (status ", text.as_str(), "): ");
                Err(AppError::ExternalService(concat2(head.as_str(), b.as_str())))
            },
            UpstreamReply::Rejected(_, None) => Ok(self.get_public_url(full_path)),
            _ => Ok(self.get_public_url(full_path)),
        }
    }

    /// The URL that deletes the object at `path`; the path must be non-empty,
    /// relative and free of `..`.
    pub fn delete_url(&self, path: &str) -> (r: Result<String, AppError>)
        ensures
            path@.len() == 0 ==> (r matches Err(err) && err.is(
                AppErrorKind::BadRequest,
                "File path cannot be empty"@,
            )),
            path@.len() > 0 && !safe_storage_path(path@) ==> (r matches Err(err) && err.is(
                AppErrorKind::BadRequest,
                "File path must be relative and cannot contain '..'"@,
            )),
            path@.len() > 0 && safe_storage_path(path@) ==> (r matches Ok(u) && u@ == self.base_url@
                + "/object/"@ + url_encoded_of(self.bucket_name@) + "/"@ + encoded_path(path@)),
    {
        if path.is_empty() {
            return Err(AppError::BadRequest(owned("File path cannot be empty")));
        }
        if contains(path, "..") || starts_with(path, "/") {
            return Err(
                AppError::BadRequest(owned("File path must be relative and cannot contain '..'")),
            );
        }
        let encoded = encode_path(path);
        let bucket = url_encode(self.bucket_name.as_str());
        let head = concat4(self.base_url.as_str(), "/object/", bucket.as_str(), "/");
        Ok(concat2(head.as_str(), encoded.as_str()))
    }

    /// The answer to a deletion: `true` when storage accepted it, and an
    /// error when the request could not be sent or storage refused it (with
    /// the status and the body, empty if it could not be read).
    pub fn delete_outcome(reply: UpstreamReply<()>) -> (r: Result<bool, AppError>)
        requires
            reply.wf(),
        ensures
            match reply {
                UpstreamReply::SendFailed(e) => r matches Err(err) && err.is(
                    AppErrorKind::ExternalService,
                    "File deletion failed: "@ + e@,
                ),
                UpstreamReply::Rejected(status, body) => r matches Err(err) && err.is(
                    AppErrorKind::ExternalService,
                    "File deletion failed (status "@ + status_text_spec(status) + "): "@
                        + body_or_empty(body),
                ),
                _ => r == Ok::<bool, AppError>(true),
            },
    {
        match reply {
            UpstreamReply::SendFailed(e) => Err(
                AppError::ExternalService(concat2("File deletion failed: ", e.as_str())),
            ),
            UpstreamReply::Rejected(status, body) => {
                let text = status_text(status);
                let b = body_text_or_empty(&body);
                Err(
                    AppError::ExternalService(
                        concat4("File deletion failed (status ", text.as_str(), "): ", b.as_str()),
                    ),
                )
            },
            _ => Ok(true),
        }
    }

    /// The URL that lists the bucket's objects.
    pub fn list_url(&self) -> (r: String)
        ensures
            r@ == self.base_url@ + "/object/list/"@ + self.bucket_name@,
    {
        concat3(self.base_url.as_str(), "/object/list/", self.bucket_name.as_str())
    }

    /// The listing prefix: the given path, or the whole bucket.
    pub fn list_prefix(path: Option<&str>) -> (r: String)
        ensures
            r@ == match path {
                Some(p) => p@,
                None => Seq::<char>::empty(),
            },
    {
        match path {
            Some(p) => owned(p),
            None => String::new(),
        }
    }

    /// The JSON body of a listing: the prefix, empty for the whole bucket.
    pub fn list_body(path: Option<&str>) -> (r: String)
        ensures
            r@ == "{\"prefix\":"@ + json_string_of(
                match path {
                    Some(p) => p@,
                    None => Seq::<char>::empty(),
                },
            ) + "}"@,
    {
        let prefix = Self::list_prefix(path);
        let quoted = json_string(prefix.as_str());
        concat3("{\"prefix\":", quoted.as_str(), "}")
    }

    /// The answer to a listing: the files, or an upstream error.
    pub fn list_outcome(reply: UpstreamReply<Vec<FileInfo>>) -> (r: Result<Vec<FileInfo>, AppError>)
        requires
            reply.wf(),
            reply matches UpstreamReply::Rejected(_, b) ==> b is Some,
        ensures
            match reply {
                UpstreamReply::SendFailed(e) => r matches Err(err) && err.is(
                    AppErrorKind::ExternalService,
                    "Failed to list files: "@ + e@,
                ),
                UpstreamReply::Rejected(status, Some(Err(e))) => r matches Err(err) && err.is(
                    AppErrorKind::ExternalService,
                    "HTTP error response (status "@ + status_text_spec(status)
                        + "): failed to read body: "@ + e@,
                ),
                UpstreamReply::Rejected(status, Some(Ok(b))) => r matches Err(err) && err.is(
                    AppErrorKind::ExternalService,
                    "Failed to list files (status "@ + status_text_spec(status) + "): "@ + b@,
                ),
                UpstreamReply::Rejected(_, None) => false,
                UpstreamReply::Unparsable(e) => r matches Err(err) && err.is(
                    AppErrorKind::ExternalService,
                    "Failed to parse file list: "@ + e@,
                ),
                UpstreamReply::Parsed(files) => r == Ok::<Vec<FileInfo>, AppError>(files),
            },
    {
        match reply {
            UpstreamReply::SendFailed(e) => Err(
                AppError::ExternalService(concat2("Failed to list files: ", e.as_str())),
            ),
            UpstreamReply::Rejected(status, Some(Err(e))) => {
                let text = status_text(status);
                Err(
                    AppError::ExternalService(
                        concat4(
                            "HTTP error response (status ",
                            text.as_str(),
                            "): failed to read body: ",
                            e.as_str(),
                        ),
                    ),
                )
            },
            UpstreamReply::Rejected(status, Some(Ok(b))) => {
                let text = status_text(status);
                let head = concat3("Failed to list files (status ", text.as_str(), "): ");
                Err(AppError::ExternalService(concat2(head.as_str(), b.as_str())))
            },
            UpstreamReply::Rejected(_, None) => Ok(Vec::new()),
            UpstreamReply::Unparsable(e) => Err(
                AppError::ExternalService(concat2("Failed to parse file list: ", e.as_str())),
            ),
            UpstreamReply::Parsed(files) => Ok(files),
        }
    }
}

/// File metadata.
#[derive(Debug, Clone)]
pub struct FileMetadata {
    pub size: Option<u64>,
    pub mimetype: Option<String>,
}

impl Default for FileMetadata {
    fn default() -> (r: FileMetadata)
        ensures
            r.size is None,
            r.mimetype is None,
    {
        FileMetadata { size: None, mimetype: None }
    }
}

/// File information from storage listing.
#[derive(Debug, Clone)]
pub struct FileInfo {
    pub name: String,
    pub id: Option<String>,
    pub updated_at: Option<String>,
    pub created_at: Option<String>,
    pub metadata: FileMetadata,
}

} // verus!

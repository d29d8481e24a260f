use backend::models::error::AppError;
use backend::services::supabase::auth::SupabaseAuthService;
use backend::services::supabase::database::SupabaseDatabaseService;
use backend::services::supabase::storage::{BucketAction, BucketPhase, SupabaseStorageService};
use backend::models::auth::{SupabaseUser, UserMetadata};
use backend::string_map::StringMap;
use backend::upstream::UpstreamReply;

fn storage() -> SupabaseStorageService {
    SupabaseStorageService::new("https://x.supabase.co", "key", "docs")
}

fn external(r: Result<impl Sized, AppError>) -> String {
    match r {
        Err(AppError::ExternalService(m)) => m,
        Err(_) => panic!("another kind of error"),
        Ok(_) => panic!("expected an error"),
    }
}

fn bad_request(r: Result<impl Sized, AppError>) -> String {
    match r {
        Err(AppError::BadRequest(m)) => m,
        Err(_) => panic!("another kind of error"),
        Ok(_) => panic!("expected an error"),
    }
}

#[test]
fn storage_urls() {
    let s = storage();
    assert_eq!(s.base_url, "https://x.supabase.co/storage/v1");
    assert_eq!(s.bucket_url(), "https://x.supabase.co/storage/v1/bucket/docs");
    assert_eq!(s.create_bucket_url(), "https://x.supabase.co/storage/v1/bucket");
    assert_eq!(s.list_url(), "https://x.supabase.co/storage/v1/object/list/docs");
    assert_eq!(
        s.get_public_url("a/b.txt"),
        "https://x.supabase.co/storage/v1/object/public/docs/a/b.txt"
    );
    assert_eq!(SupabaseStorageService::list_prefix(None), "");
    assert_eq!(SupabaseStorageService::list_prefix(Some("a")), "a");
}

#[test]
fn upload_key_is_uuid_and_encoded_file_name() {
    let s = storage();
    let plan = s.plan_upload("my file.txt", Some("a b/c")).ok().expect("plan");
    assert!(plan.full_path.starts_with("a%20b/c/"));
    assert!(plan.full_path.ends_with("-my%20file.txt"));
    assert_eq!(plan.full_path.len(), "a%20b/c/".len() + 36 + "-my%20file.txt".len());
    assert_eq!(
        plan.url,
        format!("https://x.supabase.co/storage/v1/object/docs/{}", plan.full_path)
    );
    let plain = s.plan_upload("dir/report.pdf", None).ok().expect("plan");
    assert!(plain.full_path.ends_with("-report.pdf"));
    assert!(!plain.full_path.contains('/'));
}

#[test]
fn upload_rejects_bad_names_and_paths() {
    let s = storage();
    assert_eq!(
        bad_request(s.plan_upload("", None)),
        "Invalid or empty filename (path segments not allowed)"
    );
    assert_eq!(
        bad_request(s.plan_upload("..", None)),
        "Invalid or empty filename (path segments not allowed)"
    );
    assert_eq!(
        bad_request(s.plan_upload("f.txt", Some("../x"))),
        "Storage path must be relative and cannot contain '..'"
    );
    assert_eq!(
        bad_request(s.plan_upload("f.txt", Some("/abs"))),
        "Storage path must be relative and cannot contain '..'"
    );
}

#[test]
fn upload_replies() {
    let s = storage();
    assert_eq!(
        s.upload_outcome(UpstreamReply::Parsed(()), "k").ok().expect("url"),
        "https://x.supabase.co/storage/v1/object/public/docs/k"
    );
    assert_eq!(
        external(s.upload_outcome(UpstreamReply::Rejected(500, Some(Ok("boom".into()))), "k")),
        "File upload failed (status 500 Internal Server Error): boom"
    );
    assert_eq!(
        external(s.upload_outcome(UpstreamReply::Rejected(500, Some(Err("eof".into()))), "k")),
        "HTTP error response (status 500 Internal Server Error): failed to read body: eof"
    );
    assert_eq!(
        external(s.upload_outcome(UpstreamReply::SendFailed("down".into()), "k")),
        "File upload failed: down"
    );
}

#[test]
fn delete_paths_and_replies() {
    let s = storage();
    assert_eq!(bad_request(s.delete_url("")), "File path cannot be empty");
    assert_eq!(
        bad_request(s.delete_url("a/../b")),
        "File path must be relative and cannot contain '..'"
    );
    assert_eq!(
        s.delete_url("a b/c.txt").ok().expect("url"),
        "https://x.supabase.co/storage/v1/object/docs/a%20b/c.txt"
    );
    assert!(matches!(SupabaseStorageService::delete_outcome(UpstreamReply::Parsed(())), Ok(true)));
    assert_eq!(
        external(SupabaseStorageService::delete_outcome(UpstreamReply::Rejected(
            404,
            Some(Ok("missing".into()))
        ))),
        "File deletion failed (status 404 Not Found): missing"
    );
    assert_eq!(
        external(SupabaseStorageService::delete_outcome(UpstreamReply::SendFailed("x".into()))),
        "File deletion failed: x"
    );
}

#[test]
fn list_replies() {
    assert_eq!(
        external(SupabaseStorageService::list_outcome(UpstreamReply::Rejected(
            400,
            Some(Ok("bad".into()))
        ))),
        "Failed to list files (status 400 Bad Request): bad"
    );
    assert_eq!(
        external(SupabaseStorageService::list_outcome(UpstreamReply::Unparsable("e".into()))),
        "Failed to parse file list: e"
    );
    assert!(SupabaseStorageService::list_outcome(UpstreamReply::Parsed(vec![]))
        .ok()
        .expect("files")
        .is_empty());
}

fn finish(a: BucketAction) -> Result<(), AppError> {
    match a {
        BucketAction::Finish(r) => r,
        BucketAction::CreateBucket => panic!("expected the protocol to end"),
    }
}

#[test]
fn bucket_protocol() {
    assert!(finish(SupabaseStorageService::ensure_bucket_step(
        BucketPhase::Lookup,
        UpstreamReply::Parsed(())
    ))
    .is_ok());
    assert!(matches!(
        SupabaseStorageService::ensure_bucket_step(BucketPhase::Lookup, UpstreamReply::Rejected(404, None)),
        BucketAction::CreateBucket
    ));
    assert_eq!(
        external(finish(SupabaseStorageService::ensure_bucket_step(
            BucketPhase::Lookup,
            UpstreamReply::SendFailed("x".into())
        ))),
        "Storage request failed: x"
    );
    assert!(finish(SupabaseStorageService::ensure_bucket_step(
        BucketPhase::Create,
        UpstreamReply::Rejected(409, Some(Ok("Bucket already exists".into())))
    ))
    .is_ok());
    assert_eq!(
        external(finish(SupabaseStorageService::ensure_bucket_step(
            BucketPhase::Create,
            UpstreamReply::Rejected(400, Some(Ok("bad".into())))
        ))),
        "Failed to create bucket: bad"
    );
    assert_eq!(
        external(finish(SupabaseStorageService::ensure_bucket_step(
            BucketPhase::Create,
            UpstreamReply::SendFailed("x".into())
        ))),
        "Failed to create bucket: x"
    );
}

#[test]
fn database_urls() {
    let base = SupabaseDatabaseService::base_url("https://x.supabase.co");
    assert_eq!(base, "https://x.supabase.co/rest/v1");
    let mut filters = StringMap::new();
    filters.insert("a".into(), "1".into());
    filters.insert("b".into(), "2".into());
    assert_eq!(
        SupabaseDatabaseService::list_url(&base, "t", Some(&filters)),
        "https://x.supabase.co/rest/v1/t?select=*&a=eq.1&b=eq.2"
    );
    assert_eq!(
        SupabaseDatabaseService::list_url(&base, "t", None),
        "https://x.supabase.co/rest/v1/t?select=*"
    );
    assert_eq!(
        SupabaseDatabaseService::get_url(&base, "t", "7"),
        "https://x.supabase.co/rest/v1/t?id=eq.7&select=*"
    );
    assert_eq!(SupabaseDatabaseService::create_url(&base, "t"), "https://x.supabase.co/rest/v1/t");
    assert_eq!(
        SupabaseDatabaseService::row_url(&base, "t", "7"),
        "https://x.supabase.co/rest/v1/t?id=eq.7"
    );
}

#[test]
fn database_replies() {
    assert_eq!(
        external(SupabaseDatabaseService::list_outcome::<u8>(UpstreamReply::SendFailed("x".into()))),
        "DB query failed: x"
    );
    assert_eq!(
        external(SupabaseDatabaseService::list_outcome::<u8>(UpstreamReply::Rejected(
            400,
            Some(Err("unreadable".into()))
        ))),
        "DB query failed: "
    );
    assert!(matches!(
        SupabaseDatabaseService::get_outcome::<u8>(UpstreamReply::Rejected(406, None)),
        Ok(None)
    ));
    assert!(matches!(
        SupabaseDatabaseService::get_outcome(UpstreamReply::Parsed(5u8)),
        Ok(Some(5))
    ));
    assert_eq!(
        external(SupabaseDatabaseService::create_outcome::<u8>(UpstreamReply::Parsed(vec![]))),
        "Insert returned no data"
    );
    assert!(matches!(
        SupabaseDatabaseService::create_outcome(UpstreamReply::Parsed(vec![1u8, 2])),
        Ok(2)
    ));
    match SupabaseDatabaseService::update_outcome::<u8>(UpstreamReply::Parsed(vec![]), "7") {
        Err(AppError::NotFound(m)) => assert_eq!(m, "Record 7 not found"),
        _ => panic!("expected not found"),
    }
    assert!(matches!(SupabaseDatabaseService::delete_outcome(UpstreamReply::Parsed(())), Ok(true)));
    assert_eq!(
        external(SupabaseDatabaseService::delete_outcome(UpstreamReply::Rejected(
            500,
            Some(Ok("x".into()))
        ))),
        "DB delete failed: x"
    );
}

#[test]
fn supabase_auth_replies() {
    assert!(SupabaseAuthService::check_provider("google").is_ok());
    assert_eq!(
        bad_request(SupabaseAuthService::check_provider("github")),
        "Unsupported provider: github"
    );
    match SupabaseAuthService::user_outcome(UpstreamReply::Rejected(401, Some(Ok("no".into())))) {
        Err(AppError::Unauthorized(m)) => assert_eq!(m, "Invalid token (401 Unauthorized): no"),
        _ => panic!("expected unauthorized"),
    }
    let user = SupabaseUser {
        id: "u".into(),
        email: Some("e@x".into()),
        user_metadata: UserMetadata::default(),
    };
    let p = SupabaseAuthService::user_outcome(UpstreamReply::Parsed(user)).ok().expect("profile");
    assert_eq!(p.email, "e@x");
    assert_eq!(
        bad_request(SupabaseAuthService::sign_in_outcome(
            UpstreamReply::Rejected(400, Some(Ok("nope".into()))),
            "google"
        )),
        "Auth with google failed: nope"
    );
    assert_eq!(
        SupabaseAuthService::sign_in_outcome(UpstreamReply::Parsed("tok".into()), "google")
            .ok()
            .expect("token"),
        "tok"
    );
}

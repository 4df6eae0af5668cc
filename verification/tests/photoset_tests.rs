use photo_archive::effects::{create_dir_error, remove_dir_error, remove_file_error, FsErrorKind};
use photo_archive::fspath::FsPath;
use photo_archive::listing::DirectoryEntry;
use photo_archive::photoset::{
    create_photoset, delete_photoset, is_media_extension, list_photoset, put_photoset,
    rename_entry, resolve_photoset_path, save_data, upload_limit_bytes, CreateStep, DeleteStep,
    FileEntry, FileServerResponse, FileType, FsOp, ListStep, PutStep, RenameStep, SaveStep,
    StreamProbe, StreamedFile, UpdateStep, update_photoset, content_type_for, content_type_or_mp4,
};
use photo_archive::range::{RangeHeader, RequestHeaders};
use photo_archive::status::ApiStatus;

fn p(s: &str) -> FsPath {
    FsPath::parse(s)
}

fn text(q: &FsPath) -> String {
    let parts: Vec<String> = q.parts().iter().map(|x| x.text()).collect();
    if parts.first().map(|s| s == "/").unwrap_or(false) {
        format!("/{}", parts[1..].join("/"))
    } else {
        parts.join("/")
    }
}

fn root() -> Option<FsPath> {
    Some(p("/srv/archive"))
}

#[test]
fn resolve_joins_relative_paths() {
    let r = resolve_photoset_path(&root(), &p("2024/summer")).unwrap();
    assert_eq!(text(&r), "/srv/archive/2024/summer");
}

#[test]
fn resolve_refuses_traversal_and_absolute_paths() {
    assert_eq!(resolve_photoset_path(&root(), &p("../etc")).unwrap_err(), ApiStatus::Forbidden);
    assert_eq!(resolve_photoset_path(&root(), &p("a/../../b")).unwrap_err(), ApiStatus::Forbidden);
    assert_eq!(resolve_photoset_path(&root(), &p("/etc/passwd")).unwrap_err(), ApiStatus::Forbidden);
}

#[test]
fn resolve_needs_a_root() {
    assert_eq!(resolve_photoset_path(&None, &p("a")).unwrap_err(), ApiStatus::InternalServerError);
    assert_eq!(resolve_photoset_path(&None, &p("../a")).unwrap_err(), ApiStatus::InternalServerError);
}

#[test]
fn media_extensions() {
    for e in ["mp4", "m4v", "mov", "mpeg", "mpg", "webm", "avi"] {
        assert!(is_media_extension(e));
    }
    for e in ["MP4", "jpg", "", "mp"] {
        assert!(!is_media_extension(e));
    }
}

#[test]
fn path_types() {
    assert_eq!(FileEntry::resolve_path_type(p("/a/b.mp4"), true, false).kind, FileType::Directory);
    assert_eq!(FileEntry::resolve_path_type(p("/a/b.mp4"), false, true).kind, FileType::Media);
    assert_eq!(FileEntry::resolve_path_type(p("/a/b.mp4"), false, false).kind, FileType::File);
    assert_eq!(FileEntry::resolve_path_type(p("/a/b.jpg"), false, true).kind, FileType::File);
    assert!(FileEntry::resolve_path_type(p("/a/b.jpg"), false, true).range.is_none());
}

#[test]
fn listing_a_directory() {
    let headers = RequestHeaders::new(None);
    let step = list_photoset(&root(), &p("sets"), &headers);
    let k = match step {
        ListStep::Canonicalize(q, k) => {
            assert_eq!(text(&q), "/srv/archive/sets");
            k
        }
        _ => panic!("expected canonicalize"),
    };
    let k = match k.resume(Some(p("/data/archive/sets"))) {
        ListStep::Inspect(q, k) => {
            assert_eq!(text(&q), "/data/archive/sets");
            k
        }
        _ => panic!("expected inspect"),
    };
    let k = match k.resume(true, false) {
        ListStep::ReadDir(_, k) => k,
        _ => panic!("expected read dir"),
    };
    let entries = vec![
        DirectoryEntry { name: "b.jpg".into(), is_dir: false },
        DirectoryEntry { name: "album".into(), is_dir: true },
    ];
    match k.resume(Some(entries)) {
        ListStep::Done(Ok(FileServerResponse::DirectoryListing(l))) => {
            assert_eq!(l.entries[0].name, "album");
            assert_eq!(l.entries[1].name, "b.jpg");
        }
        _ => panic!("expected listing"),
    }
}

#[test]
fn listing_unreadable_directory_is_a_server_error() {
    let headers = RequestHeaders::new(None);
    let k = match list_photoset(&root(), &p("x"), &headers) {
        ListStep::Canonicalize(_, k) => k,
        _ => panic!(),
    };
    let k = match k.resume(Some(p("/srv/archive/x"))) {
        ListStep::Inspect(_, k) => k,
        _ => panic!(),
    };
    let k = match k.resume(true, false) {
        ListStep::ReadDir(_, k) => k,
        _ => panic!(),
    };
    assert!(matches!(k.resume(None), ListStep::Done(Err(ApiStatus::InternalServerError))));
}

#[test]
fn listing_missing_path_is_not_found() {
    let headers = RequestHeaders::new(None);
    let k = match list_photoset(&root(), &p("x"), &headers) {
        ListStep::Canonicalize(_, k) => k,
        _ => panic!(),
    };
    assert!(matches!(k.resume(None), ListStep::Done(Err(ApiStatus::NotFound))));
    assert!(matches!(
        list_photoset(&root(), &p("../x"), &headers),
        ListStep::Done(Err(ApiStatus::Forbidden))
    ));
}

fn stream_for(range: Option<&str>) -> photo_archive::photoset::ListStream {
    let headers = RequestHeaders::new(range.map(String::from));
    let k = match list_photoset(&root(), &p("v.mp4"), &headers) {
        ListStep::Canonicalize(_, k) => k,
        _ => panic!(),
    };
    let k = match k.resume(Some(p("/srv/archive/v.mp4"))) {
        ListStep::Inspect(_, k) => k,
        _ => panic!(),
    };
    match k.resume(false, true) {
        ListStep::OpenStream(q, k) => {
            assert_eq!(text(&q), "/srv/archive/v.mp4");
            k
        }
        _ => panic!("expected stream"),
    }
}

#[test]
fn streaming_a_media_file_with_a_range() {
    let k = stream_for(Some("bytes=100-199"));
    match k.resume(StreamProbe::Sized(1000)) {
        ListStep::Done(Ok(FileServerResponse::RangedContent(sf))) => {
            assert_eq!(sf, StreamedFile { size: 1000, range: (100, 199), content_type: String::from("video/mp4") });
            assert_eq!(sf.content_range_header(), "bytes 100-199/1000");
        }
        _ => panic!("expected ranged content"),
    }
}

#[test]
fn streaming_without_a_range_sends_everything() {
    let k = stream_for(None);
    match k.resume(StreamProbe::Sized(50)) {
        ListStep::Done(Ok(FileServerResponse::RangedContent(sf))) => {
            assert_eq!(sf.range, (0, 49));
        }
        _ => panic!(),
    }
}

#[test]
fn streaming_errors() {
    assert!(matches!(stream_for(None).resume(StreamProbe::OpenFailed), ListStep::Done(Err(ApiStatus::NotFound))));
    assert!(matches!(
        stream_for(None).resume(StreamProbe::SizeUnknown),
        ListStep::Done(Err(ApiStatus::InternalServerError))
    ));
    assert!(matches!(
        stream_for(Some("bytes=5000-")).resume(StreamProbe::Sized(10)),
        ListStep::Done(Err(ApiStatus::RangeNotSatisfiable))
    ));
    // an unreadable range header is ignored: the whole file is sent
    match stream_for(Some("bytes=x-")).resume(StreamProbe::Sized(10)) {
        ListStep::Done(Ok(FileServerResponse::RangedContent(sf))) => {
            assert_eq!((sf.size, sf.range), (10, (0, 9)));
        }
        _ => panic!(),
    }
}

#[test]
fn content_types_follow_rocket() {
    assert_eq!(content_type_for("mp4"), "video/mp4");
    assert_eq!(content_type_for("webm"), "video/mp4");
    assert_eq!(content_type_for("PDF"), "application/pdf");
    assert_eq!(content_type_for("json"), "application/json");
    assert_eq!(content_type_for("avi"), "video/mp4");
    assert_eq!(content_type_for(""), "video/mp4");
    assert_eq!(content_type_for("nosuchext"), "video/mp4");
    for ext in ["mov", "mpeg", "mpg", "m4v", "avi", "", "txt", "video/mp4", "html", "md", "WEBM"] {
        let expected = rocket::http::ContentType::parse_flexible(ext)
            .unwrap_or(rocket::http::ContentType::MP4)
            .to_string();
        assert_eq!(content_type_for(ext), expected, "ext {:?}", ext);
    }
    assert_eq!(content_type_or_mp4(None), "video/mp4");
    assert_eq!(content_type_or_mp4(Some(String::from("text/plain"))), "text/plain");
}

#[test]
fn streamed_file_takes_its_extension_content_type() {
    let headers = RequestHeaders::new(None);
    let k = match list_photoset(&root(), &p("clip.webm"), &headers) {
        ListStep::Canonicalize(_, k) => k,
        _ => panic!(),
    };
    let k = match k.resume(Some(p("/srv/archive/clip.webm"))) {
        ListStep::Inspect(_, k) => k,
        _ => panic!(),
    };
    let k = match k.resume(false, true) {
        ListStep::OpenStream(_, k) => {
            assert_eq!(k.ext, "webm");
            k
        }
        _ => panic!(),
    };
    // rocket has no shorthand named `webm`, so the video/mp4 default is sent
    match k.resume(StreamProbe::Sized(4)) {
        ListStep::Done(Ok(FileServerResponse::RangedContent(sf))) => assert_eq!(sf.content_type, "video/mp4"),
        _ => panic!(),
    }
    // an extension that rocket knows gives its own type
    let k = photo_archive::photoset::ListStream { range: None, ext: String::from("json") };
    match k.resume(StreamProbe::Sized(4)) {
        ListStep::Done(Ok(FileServerResponse::RangedContent(sf))) => {
            assert_eq!((sf.size, sf.range), (4, (0, 3)));
            assert_eq!(sf.content_type, "application/json");
        }
        _ => panic!(),
    }
}

#[test]
fn serving_a_plain_file() {
    let headers = RequestHeaders::new(None);
    let k = match list_photoset(&root(), &p("a.jpg"), &headers) {
        ListStep::Canonicalize(_, k) => k,
        _ => panic!(),
    };
    let k = match k.resume(Some(p("/srv/archive/a.jpg"))) {
        ListStep::Inspect(_, k) => k,
        _ => panic!(),
    };
    let k = match k.resume(false, true) {
        ListStep::OpenFile(_, k) => k,
        _ => panic!("expected open file"),
    };
    assert!(matches!(k.resume(true), ListStep::Done(Ok(FileServerResponse::FullContent))));
}

#[test]
fn serving_a_file_that_will_not_open() {
    let headers = RequestHeaders::new(None);
    let k = match list_photoset(&root(), &p("a.jpg"), &headers) {
        ListStep::Canonicalize(_, k) => k,
        _ => panic!(),
    };
    let k = match k.resume(Some(p("/srv/archive/a.jpg"))) {
        ListStep::Inspect(_, k) => k,
        _ => panic!(),
    };
    let k = match k.resume(false, false) {
        ListStep::OpenFile(_, k) => k,
        _ => panic!(),
    };
    assert!(matches!(k.resume(false), ListStep::Done(Err(ApiStatus::NotFound))));
}

#[test]
fn creating_a_photoset() {
    let k = match create_photoset(&root(), &p("new/set")) {
        CreateStep::Run(FsOp::CreateDirAll(q), k) => {
            assert_eq!(text(&q), "/srv/archive/new/set");
            k
        }
        _ => panic!(),
    };
    assert!(matches!(k.resume(Ok(())), CreateStep::Done(Ok(ApiStatus::Created))));
}

#[test]
fn creation_failures() {
    let run = |kind| match create_photoset(&root(), &p("s")) {
        CreateStep::Run(_, k) => k.resume(Err(kind)),
        _ => panic!(),
    };
    assert!(matches!(run(FsErrorKind::PermissionDenied), CreateStep::Done(Err(ApiStatus::Forbidden))));
    assert!(matches!(run(FsErrorKind::NotADirectory), CreateStep::Done(Err(ApiStatus::BadRequest))));
    assert!(matches!(run(FsErrorKind::Other), CreateStep::Done(Err(ApiStatus::InternalServerError))));
    assert!(matches!(create_photoset(&root(), &p("..")), CreateStep::Done(Err(ApiStatus::Forbidden))));
}

#[test]
fn renaming_a_photoset() {
    let k = match update_photoset(&root(), &p("2024/old"), "  new name ") {
        UpdateStep::CanonicalizeTarget(q, k) => {
            assert_eq!(text(&q), "/srv/archive/2024/old");
            k
        }
        _ => panic!(),
    };
    let k = match k.resume(Some(p("/srv/archive/2024/old"))) {
        UpdateStep::CanonicalizeNewParent(q, k) => {
            assert_eq!(text(&q), "/srv/archive/2024");
            k
        }
        _ => panic!("expected new parent"),
    };
    let k = match k.resume(Some(p("/srv/archive/2024"))) {
        UpdateStep::Rename(a, b, k) => {
            assert_eq!(text(&a), "/srv/archive/2024/old");
            assert_eq!(text(&b), "/srv/archive/2024/new name");
            k
        }
        _ => panic!("expected rename"),
    };
    assert!(matches!(k.resume(Ok(())), UpdateStep::Done(Ok(ApiStatus::Accepted))));
}

#[test]
fn renaming_refusals() {
    let target = |name: &str| match update_photoset(&root(), &p("s"), name) {
        UpdateStep::CanonicalizeTarget(_, k) => k,
        _ => panic!(),
    };
    // a photoset that resolves outside the root through a link
    assert!(matches!(target("x").resume(Some(p("/etc"))), UpdateStep::Done(Err(ApiStatus::Forbidden))));
    assert!(matches!(target("x").resume(None), UpdateStep::Done(Err(ApiStatus::NotFound))));
    assert!(matches!(target(" \t ").resume(Some(p("/srv/archive/s"))), UpdateStep::Done(Err(ApiStatus::BadRequest))));
    // a new name that climbs out of the root
    let k = match target("../../../etc/x").resume(Some(p("/srv/archive/s"))) {
        UpdateStep::CanonicalizeNewParent(q, k) => {
            assert_eq!(text(&q), "/srv/archive/../../../etc");
            k
        }
        _ => panic!(),
    };
    assert!(matches!(k.resume(Some(p("/etc"))), UpdateStep::Done(Err(ApiStatus::Forbidden))));
    // an absolute new name replaces the directory
    let k = match target("/tmp/x").resume(Some(p("/srv/archive/s"))) {
        UpdateStep::CanonicalizeNewParent(q, k) => {
            assert_eq!(text(&q), "/tmp");
            k
        }
        _ => panic!(),
    };
    assert!(matches!(k.resume(None), UpdateStep::Done(Err(ApiStatus::Forbidden))));
    assert!(matches!(update_photoset(&None, &p("s"), "x"), UpdateStep::Done(Err(ApiStatus::InternalServerError))));
}

#[test]
fn rename_entry_checks_the_target() {
    let k = match rename_entry(p("/a/old"), p("/a/new")) {
        RenameStep::CheckTaken(q, k) => {
            assert_eq!(text(&q), "/a/new");
            k
        }
        _ => panic!(),
    };
    let k2 = match rename_entry(p("/a/old"), p("/a/new")) {
        RenameStep::CheckTaken(_, k) => k,
        _ => panic!(),
    };
    assert!(matches!(k.resume(true), RenameStep::Done(Err(ApiStatus::Conflict))));
    let k = match k2.resume(false) {
        RenameStep::Run(FsOp::Rename(a, b), k) => {
            assert_eq!(text(&a), "/a/old");
            assert_eq!(text(&b), "/a/new");
            k
        }
        _ => panic!(),
    };
    assert!(matches!(k.resume(Err(FsErrorKind::Other)), RenameStep::Done(Err(ApiStatus::InternalServerError))));
}

#[test]
fn deleting() {
    let inspect = |forced: bool| {
        let k = match delete_photoset(&root(), &p("s"), forced) {
            DeleteStep::Canonicalize(_, k) => k,
            _ => panic!(),
        };
        match k.resume(Some(p("/srv/archive/s"))) {
            DeleteStep::Inspect(_, k) => k,
            _ => panic!(),
        }
    };
    assert!(matches!(inspect(true).resume(true, false), DeleteStep::Run(FsOp::RemoveDirAll(_), _)));
    assert!(matches!(inspect(false).resume(true, false), DeleteStep::Run(FsOp::RemoveDir(_), _)));
    assert!(matches!(inspect(false).resume(false, true), DeleteStep::Run(FsOp::RemoveFile(_), _)));
    assert!(matches!(inspect(false).resume(false, false), DeleteStep::Done(Err(ApiStatus::BadRequest))));
    let dir = match inspect(false).resume(true, false) {
        DeleteStep::Run(_, k) => k,
        _ => panic!(),
    };
    assert!(matches!(dir.resume(Err(FsErrorKind::DirectoryNotEmpty)), DeleteStep::Done(Err(ApiStatus::Conflict))));
    let file = match inspect(false).resume(false, true) {
        DeleteStep::Run(_, k) => k,
        _ => panic!(),
    };
    assert!(matches!(file.resume(Err(FsErrorKind::IsADirectory)), DeleteStep::Done(Err(ApiStatus::BadRequest))));
    let file = match inspect(false).resume(false, true) {
        DeleteStep::Run(_, k) => k,
        _ => panic!(),
    };
    assert!(matches!(file.resume(Ok(())), DeleteStep::Done(Ok(ApiStatus::NoContent))));
    let k = match delete_photoset(&root(), &p("gone"), false) {
        DeleteStep::Canonicalize(_, k) => k,
        _ => panic!(),
    };
    assert!(matches!(k.resume(None), DeleteStep::Done(Err(ApiStatus::NotFound))));
}

#[test]
fn removal_error_statuses() {
    assert_eq!(remove_dir_error(FsErrorKind::DirectoryNotEmpty), ApiStatus::Conflict);
    assert_eq!(remove_dir_error(FsErrorKind::NotFound), ApiStatus::NotFound);
    assert_eq!(remove_dir_error(FsErrorKind::PermissionDenied), ApiStatus::Forbidden);
    assert_eq!(remove_dir_error(FsErrorKind::IsADirectory), ApiStatus::InternalServerError);
    assert_eq!(remove_file_error(FsErrorKind::NotFound), ApiStatus::NotFound);
    assert_eq!(remove_file_error(FsErrorKind::PermissionDenied), ApiStatus::Forbidden);
    assert_eq!(remove_file_error(FsErrorKind::InvalidInput), ApiStatus::BadRequest);
    assert_eq!(remove_file_error(FsErrorKind::DirectoryNotEmpty), ApiStatus::InternalServerError);
    assert_eq!(create_dir_error(FsErrorKind::NotFound), ApiStatus::InternalServerError);
}

fn staged() -> (photo_archive::photoset::SaveCreated, String) {
    let k = match save_data(p("/srv/archive/set/img.jpg"), Some(p("/var/staging"))) {
        SaveStep::CheckTaken(q, k) => {
            assert_eq!(text(&q), "/srv/archive/set/img.jpg");
            k
        }
        _ => panic!(),
    };
    let k = match k.resume(false) {
        SaveStep::CheckStaging(q, k) => {
            assert_eq!(text(&q), "/var/staging");
            k
        }
        _ => panic!(),
    };
    match k.resume(Some(p("/var/staging"))) {
        SaveStep::CreateStaging(q, k) => (k, text(&q)),
        _ => panic!(),
    }
}

#[test]
fn staging_file_name_has_the_target_name_and_a_random_id() {
    let (_, part) = staged();
    let name = part.strip_prefix("/var/staging/img.jpg-").expect("prefix");
    let id = name.strip_suffix(".part").expect("suffix");
    assert_eq!(id.chars().count(), 21);
    assert!(id.chars().all(|c| c.is_ascii_alphanumeric() || c == '_' || c == '-'));
    let (_, other) = staged();
    assert_ne!(part, other);
}

#[test]
fn saving_an_upload() {
    let (k, part) = staged();
    let k = match k.resume(true) {
        SaveStep::Upload(limit, k) => {
            assert_eq!(limit, 5000 * 1024 * 1024);
            k
        }
        _ => panic!(),
    };
    let k = match k.resume(Some(true)) {
        SaveStep::Flush(k) => k,
        _ => panic!(),
    };
    let k = match k.resume(true) {
        SaveStep::Run(FsOp::Copy(a, b), k) => {
            assert_eq!(text(&a), part);
            assert_eq!(text(&b), "/srv/archive/set/img.jpg");
            k
        }
        _ => panic!(),
    };
    match k.resume(Ok(())) {
        SaveStep::Cleanup(ops, Ok(())) => {
            assert_eq!(ops.len(), 1);
            assert!(matches!(&ops[0], FsOp::RemoveFile(q) if text(q) == part));
        }
        _ => panic!(),
    }
}

#[test]
fn failed_uploads_clean_up() {
    let (k, part) = staged();
    let up = match k.resume(true) {
        SaveStep::Upload(_, k) => k,
        _ => panic!(),
    };
    match up.resume(Some(false)) {
        SaveStep::Cleanup(ops, Err(ApiStatus::PayloadTooLarge)) => {
            assert!(matches!(&ops[0], FsOp::RemoveFile(q) if text(q) == part));
        }
        _ => panic!(),
    }
    let (k, _) = staged();
    let up = match k.resume(true) {
        SaveStep::Upload(_, k) => k,
        _ => panic!(),
    };
    assert!(matches!(up.resume(None), SaveStep::Done(Err(ApiStatus::InternalServerError))));
    let (k, part) = staged();
    let fl = match k.resume(true) {
        SaveStep::Upload(_, k) => match k.resume(Some(true)) {
            SaveStep::Flush(k) => k,
            _ => panic!(),
        },
        _ => panic!(),
    };
    match fl.resume(false) {
        SaveStep::Cleanup(ops, Err(ApiStatus::InternalServerError)) => {
            assert_eq!(ops.len(), 1);
            assert!(matches!(&ops[0], FsOp::RemoveFile(q) if text(q) == part));
        }
        _ => panic!(),
    }
    let (k, part) = staged();
    let cp = match k.resume(true) {
        SaveStep::Upload(_, k) => match k.resume(Some(true)) {
            SaveStep::Flush(k) => match k.resume(true) {
                SaveStep::Run(_, k) => k,
                _ => panic!(),
            },
            _ => panic!(),
        },
        _ => panic!(),
    };
    match cp.resume(Err(FsErrorKind::Other)) {
        SaveStep::Cleanup(ops, Err(ApiStatus::InternalServerError)) => {
            assert_eq!(ops.len(), 2);
            assert!(matches!(&ops[0], FsOp::RemoveFile(q) if text(q) == part));
            assert!(matches!(&ops[1], FsOp::RemoveFile(q) if text(q) == "/srv/archive/set/img.jpg"));
        }
        _ => panic!(),
    }
    let (k, _) = staged();
    assert!(matches!(k.resume(false), SaveStep::Done(Err(ApiStatus::InternalServerError))));
}

#[test]
fn saving_refusals() {
    let k = match save_data(p("/a/x"), Some(p("/s"))) {
        SaveStep::CheckTaken(_, k) => k,
        _ => panic!(),
    };
    assert!(matches!(k.resume(true), SaveStep::Done(Err(ApiStatus::Conflict))));
    let k = match save_data(p("/a/x"), None) {
        SaveStep::CheckTaken(_, k) => k,
        _ => panic!(),
    };
    assert!(matches!(k.resume(false), SaveStep::Done(Err(ApiStatus::InternalServerError))));
    let k = match save_data(p("/a/x"), Some(p("/s"))) {
        SaveStep::CheckTaken(_, k) => match k.resume(false) {
            SaveStep::CheckStaging(_, k) => k,
            _ => panic!(),
        },
        _ => panic!(),
    };
    assert!(matches!(k.resume(None), SaveStep::Done(Err(ApiStatus::InternalServerError))));
    assert_eq!(upload_limit_bytes(), 5_242_880_000);
}

#[test]
fn putting_a_file() {
    let k = match put_photoset(&root(), &p("set/img.jpg"), Some(p("/var/staging"))) {
        PutStep::CanonicalizeParent(q, k) => {
            assert_eq!(text(&q), "/srv/archive/set");
            k
        }
        _ => panic!(),
    };
    let k = match k.resume(Some(p("/srv/archive/set"))) {
        PutStep::InspectParent(_, k) => k,
        _ => panic!(),
    };
    let k = match k.resume(true) {
        PutStep::Save(t, st, k) => {
            assert_eq!(text(&t), "/srv/archive/set/img.jpg");
            assert_eq!(text(&st.unwrap()), "/var/staging");
            k
        }
        _ => panic!(),
    };
    assert!(matches!(k.resume(Ok(())), PutStep::Done(Ok(ApiStatus::Created))));
}

#[test]
fn putting_refusals() {
    let k = match put_photoset(&root(), &p("set/img.jpg"), None) {
        PutStep::CanonicalizeParent(_, k) => k,
        _ => panic!(),
    };
    assert!(matches!(k.resume(None), PutStep::Done(Err(ApiStatus::NotFound))));
    let k = match put_photoset(&root(), &p("set/img.jpg"), None) {
        PutStep::CanonicalizeParent(_, k) => match k.resume(Some(p("/srv/archive/set"))) {
            PutStep::InspectParent(_, k) => k,
            _ => panic!(),
        },
        _ => panic!(),
    };
    assert!(matches!(k.resume(false), PutStep::Done(Err(ApiStatus::BadRequest))));
    assert!(matches!(put_photoset(&root(), &p("../x"), None), PutStep::Done(Err(ApiStatus::Forbidden))));
    assert!(matches!(put_photoset(&Some(p("/")), &p(""), None), PutStep::Done(Err(ApiStatus::BadRequest))));
}

#[test]
fn range_header_kept_on_entry() {
    let mut e = FileEntry::resolve_path_type(p("/a/v.mov"), false, true);
    e.range = Some(RangeHeader { start: Some(1), end: None });
    match e.parse_entry() {
        ListStep::OpenStream(_, k) => assert_eq!(k.range, Some(RangeHeader { start: Some(1), end: None })),
        _ => panic!(),
    }
}

use photo_archive::consolidated::{
    create_photoset, list_photoset, put_photoset, resolve_photoset_path, update_photoset,
    CreateStep, FileServerResponse, ListStep, PutStep, UpdateStep,
};
use photo_archive::effects::FsErrorKind;
use photo_archive::fspath::FsPath;
use photo_archive::listing::DirectoryEntry;
use photo_archive::photoset::FsOp;
use photo_archive::status::ApiStatus;

fn p(s: &str) -> FsPath {
    FsPath::parse(s)
}

fn text(q: &FsPath) -> String {
    let parts: Vec<String> = q.parts().iter().map(|x| x.text()).collect();
    format!("/{}", parts[1..].join("/"))
}

fn root() -> Option<FsPath> {
    Some(p("/srv"))
}

#[test]
fn consolidated_resolution_is_a_lexical_prefix_check() {
    assert_eq!(text(&resolve_photoset_path(&root(), &p("a/b")).unwrap()), "/srv/a/b");
    // `..` passes the lexical check
    assert_eq!(text(&resolve_photoset_path(&root(), &p("../x")).unwrap()), "/srv/../x");
    assert_eq!(resolve_photoset_path(&root(), &p("/etc")).unwrap_err(), ApiStatus::Forbidden);
    assert_eq!(resolve_photoset_path(&None, &p("a")).unwrap_err(), ApiStatus::InternalServerError);
}

#[test]
fn consolidated_listing_a_directory() {
    let k = match list_photoset(&root(), &p("set"), String::from("set")) {
        ListStep::Canonicalize(_, k) => k,
        _ => panic!(),
    };
    let k = match k.resume(Some(p("/srv/set"))) {
        ListStep::Inspect(_, k) => k,
        _ => panic!(),
    };
    let k = match k.resume(true, false) {
        ListStep::ReadDir(_, k) => k,
        _ => panic!(),
    };
    let entries = vec![
        DirectoryEntry { name: String::from("z.jpg"), is_dir: false },
        DirectoryEntry { name: String::from("a.jpg"), is_dir: false },
    ];
    match k.resume(Some(entries)) {
        ListStep::Done(Ok(FileServerResponse::DirectoryListing(l))) => {
            assert_eq!(l.path, "set");
            assert_eq!(l.entries[0].name, "a.jpg");
        }
        _ => panic!(),
    }
}

#[test]
fn consolidated_media_is_streamed_by_path() {
    let k = match list_photoset(&root(), &p("v.webm"), String::from("v.webm")) {
        ListStep::Canonicalize(_, k) => k,
        _ => panic!(),
    };
    let k = match k.resume(Some(p("/srv/v.webm"))) {
        ListStep::Inspect(_, k) => k,
        _ => panic!(),
    };
    match k.resume(false, true) {
        ListStep::Done(Ok(FileServerResponse::RangedContent(sf))) => assert_eq!(text(&sf.file), "/srv/v.webm"),
        _ => panic!(),
    }
}

#[test]
fn consolidated_neither_file_nor_directory_is_not_found() {
    let k = match list_photoset(&root(), &p("x"), String::from("x")) {
        ListStep::Canonicalize(_, k) => k,
        _ => panic!(),
    };
    let k = match k.resume(Some(p("/srv/x"))) {
        ListStep::Inspect(_, k) => k,
        _ => panic!(),
    };
    assert!(matches!(k.resume(false, false), ListStep::Done(Err(ApiStatus::NotFound))));
}

#[test]
fn consolidated_creation_failure() {
    let k = match create_photoset(&root(), &p("s")) {
        CreateStep::Run(FsOp::CreateDirAll(_), k) => k,
        _ => panic!(),
    };
    assert!(matches!(k.resume(Err(FsErrorKind::NotADirectory)), CreateStep::Done(Err(ApiStatus::InternalServerError))));
}

#[test]
fn consolidated_rename_joins_the_new_name() {
    let k = match update_photoset(&root(), &p("s"), String::from("t")) {
        UpdateStep::Canonicalize(_, k) => k,
        _ => panic!(),
    };
    match k.resume(Some(p("/srv/s"))) {
        UpdateStep::Rename(a, b, k) => {
            assert_eq!(text(&a), "/srv/s");
            assert_eq!(text(&b), "/srv/t");
            assert!(matches!(k.resume(Err(ApiStatus::Conflict)), UpdateStep::Done(Err(ApiStatus::Conflict))));
        }
        _ => panic!(),
    }
}

#[test]
fn consolidated_put_checks_before_saving() {
    let k = match put_photoset(&root(), &p("s/a.jpg")) {
        PutStep::CheckTaken(_, k) => k,
        _ => panic!(),
    };
    assert!(matches!(k.resume(true), PutStep::Done(Err(ApiStatus::Conflict))));
    let k = match put_photoset(&root(), &p("s/a.jpg")) {
        PutStep::CheckTaken(_, k) => k,
        _ => panic!(),
    };
    let k = match k.resume(false) {
        PutStep::CanonicalizeParent(q, k) => {
            assert_eq!(text(&q), "/srv/s");
            k
        }
        _ => panic!(),
    };
    let k = match k.resume(Some(p("/srv/s"))) {
        PutStep::Save(t, k) => {
            assert_eq!(text(&t), "/srv/s/a.jpg");
            k
        }
        _ => panic!(),
    };
    assert!(matches!(k.resume(Ok(())), PutStep::Done(Ok(()))));
}

use photo_archive::fspath::FsPath;
use photo_archive::photo_api::{FileDeleteForm, FileUploadForm, UploadStep, DeleteStep};
use photo_archive::photoset::FsOp;
use photo_archive::photoset_api::CreateStep;
use photo_archive::server::album_api;
use photo_archive::server::config::setup;
use photo_archive::server::file_api::{delete_photo, get_photos, upload_photo, PhotosStep};
use photo_archive::server::file_server::{serve_files, BrowseResponse, BrowseStep};
use photo_archive::server::photoset_api;
use photo_archive::server::request_guards::{UserAuth, UserAuthError};
use photo_archive::status::ApiStatus;

fn p(s: &str) -> FsPath {
    FsPath::parse(s)
}

fn text(q: &FsPath) -> String {
    let parts: Vec<String> = q.parts().iter().map(|x| x.text()).collect();
    format!("/{}", parts[1..].join("/"))
}

fn auth() -> UserAuth {
    UserAuth::from_request(Some("key"), Some("key")).unwrap()
}

#[test]
fn bearer_header_is_required() {
    assert_eq!(UserAuth::from_request(None, Some("k")).unwrap_err(), (ApiStatus::BadRequest, UserAuthError::Missing));
    assert_eq!(UserAuth::from_request(Some("k"), Some("k")).unwrap().0, "k");
}

#[test]
fn bearer_header_with_another_key_is_refused() {
    assert_eq!(
        UserAuth::from_request(Some("anything"), Some("k")).unwrap_err(),
        (ApiStatus::Unauthorized, UserAuthError::Invalid)
    );
    assert_eq!(UserAuth::from_request(Some("k"), None).unwrap_err(), (ApiStatus::Unauthorized, UserAuthError::Invalid));
    assert!(UserAuth::from_request(Some(""), None).is_ok());
}

#[test]
fn server_setup_keeps_arguments() {
    let s = setup(String::from("k"), String::from("/data")).unwrap();
    assert_eq!(s.api_key, "k");
    assert_eq!(s.server_path, "/data");
}

#[test]
fn album_endpoints_do_nothing() {
    album_api::create_photoset(auth());
    album_api::update_photoset(auth());
    album_api::delete_photoset(auth());
    photoset_api::update_photoset(auth());
    photoset_api::assign_photoset(p("x"), auth());
}

#[test]
fn server_photoset_creation() {
    match photoset_api::create_photoset(&p("/data"), &p("../trip"), auth()) {
        CreateStep::CheckTaken(q, _) => assert_eq!(text(&q), "/data/photosets/trip"),
        _ => panic!(),
    }
    assert!(matches!(
        photoset_api::create_photoset(&p("/data"), &p(""), auth()),
        CreateStep::Done(Err(ApiStatus::BadRequest))
    ));
    assert!(matches!(
        photoset_api::create_photoset(&p("/data"), &p("/"), auth()),
        CreateStep::Done(Err(ApiStatus::Forbidden))
    ));
}

#[test]
fn server_photoset_removal() {
    match photoset_api::delete_photoset(&p("/data"), &p("trip"), auth()) {
        photo_archive::photoset_api::DeleteStep::Run(FsOp::RemoveDir(q), _) => assert_eq!(text(&q), "/data/photosets/trip"),
        _ => panic!(),
    }
}

#[test]
fn browsing_a_directory_lists_relative_paths() {
    let k = match serve_files(&p("/data"), &p("photos"), auth()) {
        BrowseStep::Canonicalize(q, k) => {
            assert_eq!(text(&q), "/data/photos");
            k
        }
        _ => panic!(),
    };
    let k = match k.resume(Some(p("/data/photos"))) {
        BrowseStep::Inspect(_, k) => k,
        _ => panic!(),
    };
    let k = match k.resume(true) {
        BrowseStep::ReadDir(_, k) => k,
        _ => panic!(),
    };
    let paths = vec![p("/data/photos/a.jpg"), p("/elsewhere/b.jpg"), p("/data/photos/sub")];
    match k.resume(Some(paths)) {
        BrowseStep::Done(Ok(BrowseResponse::Listing(names))) => {
            assert_eq!(names, vec![String::from("photos/a.jpg"), String::from("photos/sub")]);
        }
        _ => panic!(),
    }
}

#[test]
fn browsing_refusals() {
    let k = match serve_files(&p("/data"), &p("x"), auth()) {
        BrowseStep::Canonicalize(_, k) => k,
        _ => panic!(),
    };
    assert!(matches!(k.resume(Some(p("/etc/x"))), BrowseStep::Done(Err(ApiStatus::Forbidden))));
    let k = match serve_files(&p("/data"), &p("x"), auth()) {
        BrowseStep::Canonicalize(_, k) => k,
        _ => panic!(),
    };
    assert!(matches!(k.resume(None), BrowseStep::Done(Err(ApiStatus::NotFound))));
    let k = match serve_files(&p("/data"), &p("x"), auth()) {
        BrowseStep::Canonicalize(_, k) => match k.resume(Some(p("/data/x"))) {
            BrowseStep::Inspect(_, k) => k,
            _ => panic!(),
        },
        _ => panic!(),
    };
    let k = match k.resume(false) {
        BrowseStep::OpenFile(_, k) => k,
        _ => panic!(),
    };
    assert!(matches!(k.resume(true), BrowseStep::Done(Ok(BrowseResponse::File))));
}

#[test]
fn listing_uploaded_photos() {
    let k = match get_photos(&p("/data")) {
        PhotosStep::ReadDir(d, k) => {
            assert_eq!(text(&d), "/data/uploads");
            k
        }
        _ => panic!(),
    };
    match k.resume(Some(vec![p("/data/uploads/x.png")])) {
        PhotosStep::Done(Ok(v)) => assert_eq!(v, vec![String::from("uploads/x.png")]),
        _ => panic!(),
    }
    let k = match get_photos(&p("/data")) {
        PhotosStep::ReadDir(_, k) => k,
        _ => panic!(),
    };
    assert!(matches!(k.resume(None), PhotosStep::Done(Err(ApiStatus::InternalServerError))));
}

#[test]
fn server_upload_and_delete_use_the_upload_directory() {
    match upload_photo(&p("/data"), &FileUploadForm { filename: String::from("x.png") }) {
        UploadStep::Run(FsOp::CreateDirAll(d), k) => {
            assert_eq!(text(&d), "/data/uploads");
            assert_eq!(text(&k.photo_path), "/data/uploads/x.png");
        }
        _ => panic!(),
    }
    match delete_photo(&p("/data"), &FileDeleteForm { filename: String::from("x.png") }) {
        DeleteStep::CheckExists(q, _) => assert_eq!(text(&q), "/data/uploads/x.png"),
        _ => panic!(),
    }
}

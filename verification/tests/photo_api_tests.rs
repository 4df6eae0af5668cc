use photo_archive::effects::FsErrorKind;
use photo_archive::fspath::FsPath;
use photo_archive::photo_api::{delete_photo, upload_photo, DeleteStep, FileDeleteForm, FileUploadForm, UploadStep};
use photo_archive::photoset::FsOp;
use photo_archive::status::ApiStatus;

fn p(s: &str) -> FsPath {
    FsPath::parse(s)
}

fn text(q: &FsPath) -> String {
    let parts: Vec<String> = q.parts().iter().map(|x| x.text()).collect();
    format!("/{}", parts[1..].join("/"))
}

#[test]
fn uploading_a_photo() {
    let form = FileUploadForm { filename: String::from("../../evil/pic:1.jpg") };
    let k = match upload_photo(&Some(p("/srv")), &form) {
        UploadStep::Run(FsOp::CreateDirAll(d), k) => {
            assert_eq!(text(&d), "/srv/photos");
            k
        }
        _ => panic!(),
    };
    let k = match k.resume(Ok(())) {
        UploadStep::CheckTaken(q, k) => {
            assert_eq!(text(&q), "/srv/photos/....evilpic1.jpg");
            k
        }
        _ => panic!(),
    };
    let k = match k.resume(false) {
        UploadStep::MoveUpload(_, k) => k,
        _ => panic!(),
    };
    assert!(matches!(k.resume(true), UploadStep::Done(Ok(ApiStatus::Success))));
}

#[test]
fn upload_refusals() {
    let form = FileUploadForm { filename: String::from("a.jpg") };
    assert!(matches!(upload_photo(&None, &form), UploadStep::Done(Err(ApiStatus::InternalServerError))));
    let k = match upload_photo(&Some(p("/srv")), &form) {
        UploadStep::Run(_, k) => k,
        _ => panic!(),
    };
    assert!(matches!(k.resume(Err(FsErrorKind::Other)), UploadStep::Done(Err(ApiStatus::InternalServerError))));
    let k = match upload_photo(&Some(p("/srv")), &form) {
        UploadStep::Run(_, k) => match k.resume(Ok(())) {
            UploadStep::CheckTaken(_, k) => k,
            _ => panic!(),
        },
        _ => panic!(),
    };
    assert!(matches!(k.resume(true), UploadStep::Done(Err(ApiStatus::Conflict))));
}

#[test]
fn deleting_a_photo() {
    let form = FileDeleteForm { filename: String::from("a/b.jpg") };
    let k = match delete_photo(&Some(p("/srv")), &form) {
        DeleteStep::CheckExists(q, k) => {
            assert_eq!(text(&q), "/srv/photos/ab.jpg");
            k
        }
        _ => panic!(),
    };
    let k = match k.resume(true) {
        DeleteStep::Run(FsOp::RemoveFile(_), k) => k,
        _ => panic!(),
    };
    assert!(matches!(k.resume(Ok(())), DeleteStep::Done(Ok(ApiStatus::NoContent))));
    let k = match delete_photo(&Some(p("/srv")), &form) {
        DeleteStep::CheckExists(_, k) => k,
        _ => panic!(),
    };
    assert!(matches!(k.resume(false), DeleteStep::Done(Err(ApiStatus::NotFound))));
    assert!(matches!(delete_photo(&None, &form), DeleteStep::Done(Err(ApiStatus::InternalServerError))));
}

#[test]
fn a_name_that_cleans_to_nothing_targets_the_directory() {
    let form = FileDeleteForm { filename: String::from("..") };
    match delete_photo(&Some(p("/srv")), &form) {
        DeleteStep::CheckExists(q, _) => assert_eq!(text(&q), "/srv/photos"),
        _ => panic!(),
    }
}

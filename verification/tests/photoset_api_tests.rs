use photo_archive::effects::FsErrorKind;
use photo_archive::fspath::FsPath;
use photo_archive::photoset::FsOp;
use photo_archive::photoset_api::{
    assign_photoset, clean_path, create_photoset, delete_photoset, resolve_photoset_path,
    root_guard_check, update_photoset, AssignStep, CreateStep, DeleteStep, PhotoSetPutForm,
    PhotoSetUpdateForm, UpdateStep,
};
use photo_archive::status::ApiStatus;

fn p(s: &str) -> FsPath {
    FsPath::parse(s)
}

fn text(q: &FsPath) -> String {
    let parts: Vec<String> = q.parts().iter().map(|x| x.text()).collect();
    if parts.first().map(|s| s == "/").unwrap_or(false) {
        format!("/{}", parts[1..].join("/"))
    } else {
        parts.join("/")
    }
}

fn serve() -> Option<FsPath> {
    Some(p("/srv"))
}

#[test]
fn cleaning_removes_illegal_characters_and_dots() {
    assert_eq!(text(&clean_path(&p("a:b/c*d"))), "ab/cd");
    assert_eq!(text(&clean_path(&p("../x/./y"))), "x/y");
    assert_eq!(text(&clean_path(&p("/etc/passwd"))), "etc/passwd");
    assert_eq!(text(&clean_path(&p("a/.../b"))), "a/b");
    assert_eq!(text(&clean_path(&p("what?<>|\"\\name"))), "whatname");
    assert_eq!(text(&clean_path(&p("ctl\u{7}\u{85}x"))), "ctlx");
}

#[test]
fn cleaning_cuts_long_names_to_255_bytes() {
    let long: String = std::iter::repeat('é').take(200).collect();
    let cleaned = text(&clean_path(&p(&long)));
    assert_eq!(cleaned.len(), 254);
    assert_eq!(cleaned, sanitize_filename::sanitize(&long));
}

#[test]
fn cleaning_agrees_with_sanitize_filename() {
    for s in ["résumé", "hello\u{0}world", "semi;colon.js", " space at front", "period.", "LPT9.asdf", "foobar..."] {
        assert_eq!(text(&clean_path(&p(s))), sanitize_filename::sanitize(s), "input {:?}", s);
    }
}

#[test]
fn resolving_stays_in_the_photoset_directory() {
    let r = resolve_photoset_path(&p("../../etc/passwd"), &serve()).unwrap();
    assert_eq!(text(&r), "/srv/photosets/etc/passwd");
    assert_eq!(resolve_photoset_path(&p(".."), &serve()).unwrap_err(), ApiStatus::Forbidden);
    assert_eq!(resolve_photoset_path(&p(""), &serve()).unwrap_err(), ApiStatus::BadRequest);
    assert_eq!(resolve_photoset_path(&p("x"), &None).unwrap_err(), ApiStatus::InternalServerError);
    assert_eq!(resolve_photoset_path(&p(""), &None).unwrap_err(), ApiStatus::BadRequest);
}

#[test]
fn root_guard() {
    assert_eq!(root_guard_check(&p("/s"), &p("/s")), Err(ApiStatus::Forbidden));
    assert_eq!(root_guard_check(&p("/s"), &p("/t/x")), Err(ApiStatus::Forbidden));
    assert_eq!(root_guard_check(&p("/s"), &p("/s/x")), Ok(()));
}

#[test]
fn creating_a_cleaned_photoset() {
    let k = match create_photoset(&p("trip"), &serve()) {
        CreateStep::CheckTaken(q, k) => {
            assert_eq!(text(&q), "/srv/photosets/trip");
            k
        }
        _ => panic!(),
    };
    let k2 = match create_photoset(&p("trip"), &serve()) {
        CreateStep::CheckTaken(_, k) => k,
        _ => panic!(),
    };
    assert!(matches!(k.resume(true), CreateStep::Done(Err(ApiStatus::Conflict))));
    let made = match k2.resume(false) {
        CreateStep::Run(FsOp::CreateDirAll(_), k) => k,
        _ => panic!(),
    };
    assert!(matches!(made.resume(Err(FsErrorKind::PermissionDenied)), CreateStep::Done(Err(ApiStatus::Forbidden))));
}

#[test]
fn renaming_to_a_cleaned_name() {
    let form = PhotoSetUpdateForm { new_name: Some(String::from("../new:name")) };
    let k = match update_photoset(&p("trip"), &serve(), form) {
        UpdateStep::CheckExists(_, k) => k,
        _ => panic!(),
    };
    let k = match k.resume(true) {
        UpdateStep::Run(FsOp::Rename(a, b), k) => {
            assert_eq!(text(&a), "/srv/photosets/trip");
            assert_eq!(text(&b), "/srv/photosets/..newname");
            k
        }
        _ => panic!(),
    };
    assert!(matches!(k.resume(Ok(())), UpdateStep::Done(Ok(ApiStatus::Accepted))));
    let k = match update_photoset(&p("trip"), &serve(), PhotoSetUpdateForm { new_name: None }) {
        UpdateStep::CheckExists(_, k) => k,
        _ => panic!(),
    };
    assert!(matches!(k.resume(true), UpdateStep::Done(Ok(ApiStatus::Accepted))));
    let k = match update_photoset(&p("trip"), &serve(), PhotoSetUpdateForm { new_name: None }) {
        UpdateStep::CheckExists(_, k) => k,
        _ => panic!(),
    };
    assert!(matches!(k.resume(false), UpdateStep::Done(Err(ApiStatus::NotFound))));
}

#[test]
fn assigning_moves_in_order() {
    let form = PhotoSetPutForm {
        additions: vec![String::from("a.jpg"), String::from("b.jpg")],
        removals: vec![String::from("c.jpg")],
    };
    let k = match assign_photoset(&p("trip"), &serve(), form) {
        AssignStep::CheckPhotoset(q, k) => {
            assert_eq!(text(&q), "/srv/photosets/trip");
            k
        }
        _ => panic!(),
    };
    let mut step = k.resume(true);
    let mut checked = Vec::new();
    loop {
        match step {
            AssignStep::CheckSource(q, k) => {
                checked.push(text(&q));
                step = k.resume(true);
            }
            _ => break,
        }
    }
    assert_eq!(checked, vec!["/srv/photos/a.jpg", "/srv/photos/b.jpg", "/srv/photosets/trip/c.jpg"]);
    let mut moved = Vec::new();
    loop {
        match step {
            AssignStep::Move(FsOp::Rename(a, b), k) => {
                moved.push((text(&a), text(&b)));
                step = k.resume(Ok(()));
            }
            _ => break,
        }
    }
    assert_eq!(moved[2], (String::from("/srv/photosets/trip/c.jpg"), String::from("/srv/photos/c.jpg")));
    assert_eq!(moved.len(), 3);
    assert!(matches!(step, AssignStep::Done(Ok(ApiStatus::Success))));
}

#[test]
fn assigning_stops_at_a_missing_source() {
    let form = PhotoSetPutForm { additions: vec![String::from("a.jpg"), String::from("b.jpg")], removals: vec![] };
    let k = match assign_photoset(&p("trip"), &serve(), form) {
        AssignStep::CheckPhotoset(_, k) => k,
        _ => panic!(),
    };
    let k = match k.resume(true) {
        AssignStep::CheckSource(_, k) => k,
        _ => panic!(),
    };
    let k = match k.resume(true) {
        AssignStep::CheckSource(_, k) => k,
        _ => panic!(),
    };
    assert!(matches!(k.resume(false), AssignStep::Done(Err(ApiStatus::UnprocessableEntity))));
}

#[test]
fn assigning_nothing_or_to_a_missing_photoset() {
    let empty = || PhotoSetPutForm { additions: vec![], removals: vec![] };
    let k = match assign_photoset(&p("trip"), &serve(), empty()) {
        AssignStep::CheckPhotoset(_, k) => k,
        _ => panic!(),
    };
    assert!(matches!(k.resume(true), AssignStep::Done(Ok(ApiStatus::Success))));
    let k = match assign_photoset(&p("trip"), &serve(), empty()) {
        AssignStep::CheckPhotoset(_, k) => k,
        _ => panic!(),
    };
    assert!(matches!(k.resume(false), AssignStep::Done(Err(ApiStatus::NotFound))));
}

#[test]
fn assigning_fails_on_a_failed_move() {
    let form = PhotoSetPutForm { additions: vec![String::from("a.jpg")], removals: vec![] };
    let k = match assign_photoset(&p("trip"), &serve(), form) {
        AssignStep::CheckPhotoset(_, k) => k,
        _ => panic!(),
    };
    let k = match k.resume(true) {
        AssignStep::CheckSource(_, k) => k,
        _ => panic!(),
    };
    let k = match k.resume(true) {
        AssignStep::Move(_, k) => k,
        _ => panic!(),
    };
    assert!(matches!(k.resume(Err(FsErrorKind::Other)), AssignStep::Done(Err(ApiStatus::InternalServerError))));
}

#[test]
fn deleting_an_empty_photoset() {
    let k = match delete_photoset(&p("trip"), &serve()) {
        DeleteStep::Run(FsOp::RemoveDir(q), k) => {
            assert_eq!(text(&q), "/srv/photosets/trip");
            k
        }
        _ => panic!(),
    };
    assert!(matches!(k.resume(Err(FsErrorKind::NotFound)), DeleteStep::Done(Err(ApiStatus::NotFound))));
}

use photo_archive::auth::{is_valid, UserAuth};
use photo_archive::config::{all_options, setup};
use photo_archive::status::ApiStatus;

#[test]
fn the_configured_key_is_accepted() {
    assert!(UserAuth::from_request(Some("s3cret"), Some("s3cret")).is_ok());
    assert!(is_valid("s3cret", Some("s3cret")));
}

#[test]
fn wrong_or_missing_keys_are_unauthorized() {
    assert_eq!(UserAuth::from_request(Some("nope"), Some("s3cret")).unwrap_err(), ApiStatus::Unauthorized);
    assert_eq!(UserAuth::from_request(None, Some("s3cret")).unwrap_err(), ApiStatus::Unauthorized);
}

#[test]
fn without_a_configured_key_only_the_empty_key_passes() {
    assert!(UserAuth::from_request(Some(""), None).is_ok());
    assert!(UserAuth::from_request(Some("x"), None).is_err());
}

#[test]
fn setup_reports_bad_paths() {
    assert_eq!(setup(String::from("k"), None, Some(String::from("/s"))).unwrap_err(), "Invalid Serve Path");
    assert_eq!(setup(String::from("k"), Some(String::from("/a")), None).unwrap_err(), "Invalid Staging Path");
    let s = setup(String::from("k"), Some(String::from("/a")), Some(String::from("/s"))).unwrap();
    assert_eq!((s.api_key.as_str(), s.serve_path.as_str(), s.staging_path.as_str()), ("k", "/a", "/s"));
    all_options();
}

#[test]
fn status_codes() {
    let all = [
        (ApiStatus::Success, 200), (ApiStatus::Created, 201), (ApiStatus::Accepted, 202),
        (ApiStatus::NoContent, 204), (ApiStatus::PartialContent, 206), (ApiStatus::BadRequest, 400),
        (ApiStatus::Unauthorized, 401), (ApiStatus::Forbidden, 403), (ApiStatus::NotFound, 404),
        (ApiStatus::Conflict, 409), (ApiStatus::PayloadTooLarge, 413), (ApiStatus::RangeNotSatisfiable, 416),
        (ApiStatus::UnprocessableEntity, 422), (ApiStatus::InternalServerError, 500),
    ];
    for (s, c) in all {
        assert_eq!(s.code(), c);
    }
}

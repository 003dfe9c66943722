use postfeed::digits::u64_string;
use postfeed::errors::{FetchError, SubmitError, ValidationError};
use postfeed::feed::date_le;
use postfeed::media::{media_file_path, media_link, MediaKind};
use postfeed::pipeline::avatar_from_response;
use postfeed::store::PostStore;
use postfeed::submission::{avatar_requested, date_shape_ok, validate, Submission};

fn submission_with_date(date: &str) -> Submission {
    Submission {
        user: "someone".to_string(),
        avatar: String::new(),
        date: date.to_string(),
        image: Vec::new(),
        image_type: None,
        text: "body".to_string(),
    }
}

#[test]
fn date_shape_accepts_fixed_width_dates() {
    assert!(date_shape_ok("2024-03-01"));
    assert!(date_shape_ok("0000-00-00"));
    assert!(date_shape_ok("9999-99-99"));
}

#[test]
fn date_shape_rejects_everything_else() {
    assert!(!date_shape_ok(""));
    assert!(!date_shape_ok("2024-3-1"));
    assert!(!date_shape_ok("24-03-01"));
    assert!(!date_shape_ok("2024/03/01"));
    assert!(!date_shape_ok("2024-03-011"));
    assert!(!date_shape_ok("2024-03-0"));
    assert!(!date_shape_ok("abcd-ef-gh"));
    assert!(!date_shape_ok("2024-03-01 "));
    assert!(!date_shape_ok(" 2024-03-01"));
    assert!(!date_shape_ok("2024_03_01"));
}

#[test]
fn date_shape_agrees_with_the_regex() {
    let re = regex::Regex::new("^[0-9]{4}-[0-9]{2}-[0-9]{2}$").unwrap();
    let samples = [
        "2024-03-01",
        "9999-99-99",
        "2024-3-1",
        "",
        "x024-03-01",
        "2024-03-01x",
        "2024--3-01",
        "0001-10-10",
        "2024-03\u{662}01",
    ];
    for s in samples.iter() {
        assert_eq!(date_shape_ok(s), re.is_match(s), "disagreement on {:?}", s);
    }
}

#[test]
fn validation_reports_date_before_image() {
    let mut sub = submission_with_date("bad date!!");
    sub.image = vec![1];
    sub.image_type = Some("image/gif".to_string());
    assert_eq!(
        validate(&sub),
        Err(SubmitError::Validation(ValidationError::InvalidDateFormat))
    );

    sub.date = "2024-03-01".to_string();
    assert_eq!(
        validate(&sub),
        Err(SubmitError::Validation(ValidationError::InvalidImageType))
    );

    sub.image_type = Some("image/png".to_string());
    assert_eq!(validate(&sub), Ok(()));
}

#[test]
fn empty_image_bytes_need_no_content_type() {
    let mut sub = submission_with_date("2024-03-01");
    sub.image = Vec::new();
    sub.image_type = Some("text/plain".to_string());
    assert_eq!(validate(&sub), Ok(()));
    sub.image_type = None;
    assert_eq!(validate(&sub), Ok(()));
}

#[test]
fn image_with_no_declared_type_is_rejected() {
    let mut sub = submission_with_date("2024-03-01");
    sub.image = vec![1, 2];
    sub.image_type = None;
    assert_eq!(
        validate(&sub),
        Err(SubmitError::Validation(ValidationError::InvalidImageType))
    );
}

#[test]
fn avatar_is_requested_only_for_a_nonempty_url() {
    let mut sub = submission_with_date("2024-03-01");
    assert!(!avatar_requested(&sub));
    sub.avatar = "http://example.com/a.png".to_string();
    assert!(avatar_requested(&sub));
}

#[test]
fn avatar_response_must_declare_png_exactly() {
    assert_eq!(
        avatar_from_response(&Some("image/png".to_string()), vec![1, 2]),
        Ok(vec![1, 2])
    );
    assert_eq!(
        avatar_from_response(&None, vec![1]),
        Err(SubmitError::Fetch(FetchError::MissingContentType))
    );
    assert_eq!(
        avatar_from_response(&Some("text/html".to_string()), vec![1]),
        Err(SubmitError::Fetch(FetchError::NotPng))
    );
    assert_eq!(
        avatar_from_response(&Some("IMAGE/PNG".to_string()), vec![1]),
        Err(SubmitError::Fetch(FetchError::NotPng))
    );
    assert_eq!(
        avatar_from_response(&Some("image/png; charset=binary".to_string()), vec![1]),
        Err(SubmitError::Fetch(FetchError::NotPng))
    );
}

#[test]
fn decimal_rendering_of_ids() {
    assert_eq!(u64_string(0).as_str(), "0");
    assert_eq!(u64_string(7).as_str(), "7");
    assert_eq!(u64_string(10).as_str(), "10");
    assert_eq!(u64_string(105).as_str(), "105");
    assert_eq!(u64_string(u64::MAX).as_str(), "18446744073709551615");
}

#[test]
fn media_paths_are_derived_from_the_id() {
    assert_eq!(
        media_file_path(MediaKind::Avatar, 7).as_str(),
        "assets/avatars/7.png"
    );
    assert_eq!(
        media_file_path(MediaKind::Image, 123).as_str(),
        "assets/images/123.png"
    );
    assert_eq!(media_link(MediaKind::Avatar, 7).as_str(), "/assets/avatars/7.png");
    assert_eq!(media_link(MediaKind::Image, 123).as_str(), "/assets/images/123.png");
}

#[test]
fn error_messages_match_each_variant() {
    assert_eq!(
        SubmitError::Validation(ValidationError::InvalidDateFormat)
            .message()
            .as_str(),
        "The date must be in the YYYY-MM-DD format"
    );
    assert_eq!(
        SubmitError::Validation(ValidationError::InvalidImageType)
            .message()
            .as_str(),
        "Post image isn't a PNG"
    );
    assert_eq!(
        SubmitError::Fetch(FetchError::Unreachable).message().as_str(),
        "Could not fetch the avatar"
    );
    assert_eq!(
        SubmitError::Fetch(FetchError::MissingContentType)
            .message()
            .as_str(),
        "Could not detect the avatar file type"
    );
    assert_eq!(
        SubmitError::Fetch(FetchError::NotPng).message().as_str(),
        "Avatar isn't a PNG"
    );
    assert_eq!(
        SubmitError::Store.message().as_str(),
        "The post could not be stored"
    );
    assert_eq!(
        SubmitError::Io.message().as_str(),
        "The post media could not be written"
    );
}

#[test]
fn invisible_rows_stay_out_of_the_feed() {
    let mut store = PostStore::new();
    let id = store
        .create_invisible("ruth", "2024-03-01", "draft")
        .unwrap();
    assert_eq!(id, 0);
    assert_eq!(store.posts.len(), 1);
    assert_eq!(store.list_visible().len(), 0);

    store.finalize(id, false, false).unwrap();
    let feed = store.list_visible();
    assert_eq!(feed.len(), 1);
    assert_eq!(feed[0].user.as_str(), "ruth");
}

#[test]
fn finalize_of_an_unknown_id_is_a_store_error() {
    let mut store = PostStore::new();
    assert_eq!(store.finalize(42, false, false), Err(SubmitError::Store));
}

#[test]
fn finalize_sets_exactly_the_given_flags() {
    let mut store = PostStore::new();
    let id = store
        .create_invisible("sven", "2024-03-02", "text")
        .unwrap();
    store.finalize(id, true, false).unwrap();
    let feed = store.list_visible();
    assert_eq!(feed.len(), 1);
    assert_eq!(feed[0].post_image_path.as_str(), "/assets/images/0.png");
    assert_eq!(feed[0].user_avatar_path.as_str(), "");
}

#[test]
fn date_order_is_plain_string_comparison() {
    assert!(date_le("2024-01-05", "2024-02-10"));
    assert!(!date_le("2024-02-10", "2024-01-05"));
    assert!(date_le("2024-02-10", "2024-02-10"));
    assert!(date_le("1999-12-31", "2000-01-01"));
    assert!(date_le("", "2024-01-01"));
}

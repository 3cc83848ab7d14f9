use photosort::discovery::{photo_of, sort_entries, sort_unpacked};
use photosort::{
    dated_path, plan, update_new_path, update_photo_new_path, Candidate, CaptureDate, Entry, Photo,
    Unpacked,
};

fn date(year: i32, month: u32, day: u32) -> CaptureDate {
    CaptureDate::new(year, month, day).unwrap()
}

fn found(path: &str, taken: Option<CaptureDate>) -> Photo {
    Photo::new(path.to_string(), taken)
}

#[test]
fn capture_date_keeps_its_parts() {
    let d = date(2023, 5, 4);
    assert_eq!(d.year(), 2023);
    assert_eq!(d.month(), 5);
    assert_eq!(d.day(), 4);
}

#[test]
fn capture_date_rejects_what_is_out_of_range() {
    assert!(CaptureDate::new(2023, 0, 4).is_none());
    assert!(CaptureDate::new(2023, 13, 4).is_none());
    assert!(CaptureDate::new(2023, 5, 0).is_none());
    assert!(CaptureDate::new(2023, 5, 32).is_none());
    assert!(CaptureDate::new(2023, 1, 1).is_some());
    assert!(CaptureDate::new(2023, 12, 31).is_some());
}

#[test]
fn dated_path_pads_month_and_day() {
    assert_eq!(dated_path("/out", date(2023, 5, 4), "a.jpg"), "/out/2023/05/04/a.jpg");
    assert_eq!(dated_path("/out", date(2021, 1, 9), "IMG_001.jpg"), "/out/2021/01/09/IMG_001.jpg");
    assert_eq!(dated_path("/out", date(1999, 12, 31), "x.mov"), "/out/1999/12/31/x.mov");
    assert_eq!(dated_path("/out", date(2020, 10, 10), "x.mov"), "/out/2020/10/10/x.mov");
}

#[test]
fn dated_path_writes_the_year_as_it_is() {
    assert_eq!(dated_path("out", date(5, 1, 2), "a"), "out/5/01/02/a");
    assert_eq!(dated_path("out", date(0, 1, 2), "a"), "out/0/01/02/a");
    assert_eq!(dated_path("out", date(-44, 3, 15), "a"), "out/-44/03/15/a");
    assert_eq!(dated_path("out", date(12345, 3, 15), "a"), "out/12345/03/15/a");
    assert_eq!(dated_path("out", date(i32::MAX, 3, 15), "a"), "out/2147483647/03/15/a");
    assert_eq!(dated_path("out", date(i32::MIN, 3, 15), "a"), "out/-2147483648/03/15/a");
}

#[test]
fn dated_path_agrees_with_the_standard_formatter() {
    let years = [-100000, -1, 0, 7, 10, 99, 100, 1970, 2024, 99999];
    for year in years {
        for month in 1..=12u32 {
            for day in [1u32, 9, 10, 28, 31] {
                let expected = format!("{}/{}/{:02}/{:02}/{}", "/dest", year, month, day, "n.jpg");
                assert_eq!(dated_path("/dest", date(year, month, day), "n.jpg"), expected);
            }
        }
    }
}

#[test]
fn plan_files_a_photo_under_its_own_name() {
    let photo = found("/camera/roll/a.jpg", Some(date(2023, 5, 4)));
    assert_eq!(plan("/out", &photo, None), Some("/out/2023/05/04/a.jpg".to_string()));
}

#[test]
fn plan_does_not_depend_on_where_the_photo_was_found() {
    let here = found("/camera/roll/a.jpg", Some(date(2023, 5, 4)));
    let there = found("elsewhere/deep/down/a.jpg", Some(date(2023, 5, 4)));
    assert_eq!(plan("/out", &here, None), plan("/out", &there, None));
    assert_eq!(plan("/out", &here, None), Some("/out/2023/05/04/a.jpg".to_string()));
}

#[test]
fn plan_prefers_the_original_name() {
    let photo = found("/tmp/extract-81723.tmp", Some(date(2021, 1, 9)));
    assert_eq!(
        plan("/out", &photo, Some("IMG_001.jpg")),
        Some("/out/2021/01/09/IMG_001.jpg".to_string())
    );
}

#[test]
fn plan_gives_nothing_without_a_date() {
    let photo = found("/camera/b.jpg", None);
    assert_eq!(plan("/out", &photo, None), None);
    assert_eq!(plan("/out", &photo, Some("b.jpg")), None);
}

#[test]
fn plan_gives_nothing_without_a_file_name() {
    for path in ["", "/", "..", "/camera/..", ".", "//"] {
        let photo = found(path, Some(date(2023, 5, 4)));
        assert_eq!(plan("/out", &photo, None), None);
        assert_eq!(plan("/out", &photo, Some("b.jpg")), None);
    }
}

#[test]
fn update_photo_new_path_records_the_destination() {
    let mut photo = found("/camera/a.jpg", Some(date(2023, 5, 4)));
    assert_eq!(photo.new_path(), None);
    update_photo_new_path(&"/out".to_string(), &mut photo, None);
    assert_eq!(photo.new_path(), Some("/out/2023/05/04/a.jpg"));
    assert_eq!(photo.path(), "/camera/a.jpg");
    assert_eq!(photo.date(), Some(date(2023, 5, 4)));
}

#[test]
fn update_photo_new_path_leaves_an_undated_photo_alone() {
    let mut photo = found("/camera/b.jpg", None);
    update_photo_new_path(&"/out".to_string(), &mut photo, None);
    assert_eq!(photo.new_path(), None);
    assert_eq!(photo.path(), "/camera/b.jpg");
    assert_eq!(photo.date(), None);
}

#[test]
fn update_photo_new_path_twice_is_as_once() {
    let mut photo = found("/camera/a.jpg", Some(date(2023, 5, 4)));
    update_photo_new_path(&"/out".to_string(), &mut photo, None);
    let first = photo.new_path().map(|s| s.to_string());
    update_photo_new_path(&"/out".to_string(), &mut photo, None);
    assert_eq!(photo.new_path().map(|s| s.to_string()), first);
}

#[test]
fn update_new_path_plans_every_photo() {
    let mut photos = vec![
        found("/camera/a.jpg", Some(date(2023, 5, 4))),
        found("/camera/b.jpg", None),
        found("/camera/sub/c.mp4", Some(date(2019, 11, 30))),
        Photo::from_archive(
            "/tmp/unpacked-7".to_string(),
            "d.png".to_string(),
            Some(date(2000, 2, 29)),
        ),
    ];
    update_new_path(&"/out".to_string(), &mut photos);
    assert_eq!(photos.len(), 4);
    assert_eq!(photos[0].new_path(), Some("/out/2023/05/04/a.jpg"));
    assert_eq!(photos[1].new_path(), None);
    assert_eq!(photos[2].new_path(), Some("/out/2019/11/30/c.mp4"));
    assert_eq!(photos[3].new_path(), Some("/out/2000/02/29/d.png"));
    assert_eq!(photos[3].path(), "/tmp/unpacked-7");
}

#[test]
fn update_new_path_takes_an_empty_list() {
    let mut photos: Vec<Photo> = Vec::new();
    update_new_path(&"/out".to_string(), &mut photos);
    assert!(photos.is_empty());
}

#[test]
fn same_name_and_day_share_a_destination() {
    let mut photos = vec![
        found("/one/a.jpg", Some(date(2023, 5, 4))),
        found("/two/a.jpg", Some(date(2023, 5, 4))),
    ];
    update_new_path(&"/out".to_string(), &mut photos);
    assert_eq!(photos[0].new_path(), photos[1].new_path());
}

#[test]
fn set_new_path_needs_a_date() {
    let mut dated = found("/camera/a.jpg", Some(date(2023, 5, 4)));
    assert!(dated.set_new_path("/elsewhere/a.jpg".to_string()));
    assert_eq!(dated.new_path(), Some("/elsewhere/a.jpg"));
    let mut undated = found("/camera/b.jpg", None);
    assert!(!undated.set_new_path("/elsewhere/b.jpg".to_string()));
    assert_eq!(undated.new_path(), None);
}

fn unpacked(path: &str, entry: &str) -> Unpacked {
    Unpacked { path: path.to_string(), entry: entry.to_string() }
}

#[test]
fn archive_entry_keeps_its_name_and_drops_its_directories() {
    let mut candidates = Vec::new();
    let mut warnings = Vec::new();
    sort_unpacked(
        &vec![unpacked("/tmp/unpacked-42.bin", "sub/IMG_001.jpg")],
        &mut candidates,
        &mut warnings,
    );
    assert_eq!(
        candidates,
        vec![Candidate {
            path: "/tmp/unpacked-42.bin".to_string(),
            original_name: Some("IMG_001.jpg".to_string())
        }]
    );
    assert!(warnings.is_empty());
    let photo = photo_of(&candidates[0], Some(date(2021, 1, 9)));
    assert_eq!(photo.path(), "/tmp/unpacked-42.bin");
    assert_eq!(photo.original_name(), Some("IMG_001.jpg"));
    assert_eq!(photo.date(), Some(date(2021, 1, 9)));
    assert_eq!(photo.new_path(), None);
    let mut photos = vec![photo];
    update_new_path(&"/out".to_string(), &mut photos);
    assert_eq!(photos[0].new_path(), Some("/out/2021/01/09/IMG_001.jpg"));
}

#[test]
fn archive_entry_without_a_name_is_left_out_with_a_warning() {
    let mut candidates = vec![Candidate { path: "/first".to_string(), original_name: None }];
    let mut warnings = vec!["earlier".to_string()];
    sort_unpacked(
        &vec![
            unpacked("/tmp/0", "a.jpg"),
            unpacked("/tmp/1", ""),
            unpacked("/tmp/2", "sub/.."),
            unpacked("/tmp/3", "deep/er/b.jpg"),
            unpacked("/tmp/4", "/"),
            unpacked("/tmp/5", "sub/"),
        ],
        &mut candidates,
        &mut warnings,
    );
    let names: Vec<(String, Option<String>)> =
        candidates.into_iter().map(|c| (c.path, c.original_name)).collect();
    assert_eq!(
        names,
        vec![
            ("/first".to_string(), None),
            ("/tmp/0".to_string(), Some("a.jpg".to_string())),
            ("/tmp/3".to_string(), Some("b.jpg".to_string())),
            ("/tmp/5".to_string(), Some("sub".to_string())),
        ]
    );
    assert_eq!(
        warnings,
        vec![
            "earlier".to_string(),
            "No file name in archive entry ".to_string(),
            "No file name in archive entry sub/..".to_string(),
            "No file name in archive entry /".to_string(),
        ]
    );
}

#[test]
fn listing_is_sorted_into_files_directories_and_warnings() {
    let mut candidates = Vec::new();
    let mut pending = vec!["/waiting".to_string()];
    let mut warnings = Vec::new();
    sort_entries(
        &vec![
            Entry::File("/camera/a.jpg".to_string()),
            Entry::Directory("/camera/sub".to_string()),
            Entry::Other("/camera/link".to_string()),
            Entry::Unreadable("/camera: permission denied".to_string()),
            Entry::File("/camera/b.jpg".to_string()),
            Entry::Directory("/camera/more".to_string()),
        ],
        &mut candidates,
        &mut pending,
        &mut warnings,
    );
    assert_eq!(
        candidates,
        vec![
            Candidate { path: "/camera/a.jpg".to_string(), original_name: None },
            Candidate { path: "/camera/b.jpg".to_string(), original_name: None },
        ]
    );
    assert_eq!(
        pending,
        vec!["/waiting".to_string(), "/camera/sub".to_string(), "/camera/more".to_string()]
    );
    assert_eq!(warnings, vec!["/camera: permission denied".to_string()]);
}

#[test]
fn empty_listing_changes_nothing() {
    let mut candidates = Vec::new();
    let mut pending = Vec::new();
    let mut warnings = Vec::new();
    sort_entries(&Vec::new(), &mut candidates, &mut pending, &mut warnings);
    assert!(candidates.is_empty() && pending.is_empty() && warnings.is_empty());
}

#[test]
fn candidate_from_a_directory_becomes_a_photo_without_another_name() {
    let candidate = Candidate { path: "/camera/a.jpg".to_string(), original_name: None };
    let photo = photo_of(&candidate, None);
    assert_eq!(photo.path(), "/camera/a.jpg");
    assert_eq!(photo.original_name(), None);
    assert_eq!(photo.date(), None);
    assert_eq!(photo.new_path(), None);
}

#[test]
fn timestamp_names_its_calendar_day() {
    assert_eq!(CaptureDate::from_rfc3339("2023-05-04T10:20:30Z"), CaptureDate::new(2023, 5, 4));
    assert_eq!(
        CaptureDate::from_rfc3339("2021-01-09T00:00:00.000000Z"),
        CaptureDate::new(2021, 1, 9)
    );
    assert_eq!(
        CaptureDate::from_rfc3339("1996-12-19T16:39:57-08:00"),
        CaptureDate::new(1996, 12, 19)
    );
    assert_eq!(CaptureDate::from_rfc3339("2020-02-29 23:59:59+01:00"), CaptureDate::new(2020, 2, 29));
}

#[test]
fn timestamp_keeps_the_day_of_its_own_offset() {
    assert_eq!(
        CaptureDate::from_rfc3339("2023-05-04T23:30:00-08:00"),
        CaptureDate::new(2023, 5, 4)
    );
    assert_eq!(
        CaptureDate::from_rfc3339("2023-01-01T00:30:00+09:00"),
        CaptureDate::new(2023, 1, 1)
    );
}

#[test]
fn timestamp_that_is_none_gives_no_date() {
    for text in [
        "",
        "2023-05-04",
        "2023-05-04T10:20:30",
        "2023-02-30T10:20:30Z",
        "2023-13-01T10:20:30Z",
        "2023:05:04 10:20:30",
        "yesterday",
        "2023-05-04T10:20:30Z trailing",
    ] {
        assert_eq!(CaptureDate::from_rfc3339(text), None, "date of {:?}", text);
    }
}

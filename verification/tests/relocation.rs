use photosort::{
    move_photo, update_photo_new_path, CaptureDate, Config, MoveProgress, MoveStep, Photo, PsError,
    PsErrorKind, RelocationOutcome,
};

fn planned(path: &str) -> Photo {
    let mut photo = Photo::new(path.to_string(), CaptureDate::new(2023, 5, 4));
    update_photo_new_path(&"/out".to_string(), &mut photo, None);
    photo
}

fn sent_to(path: &str, dest: &str) -> Photo {
    let mut photo = Photo::new(path.to_string(), CaptureDate::new(2023, 5, 4));
    assert!(photo.set_new_path(dest.to_string()));
    photo
}

fn failure(kind: PsErrorKind, msg: &str) -> MoveStep {
    MoveStep::Done(RelocationOutcome::Failed(PsError::new(kind, msg.to_string())))
}

#[test]
fn relocation_starts_with_the_parent_directory() {
    let photo = planned("/camera/a.jpg");
    for (move_file, dry_run) in [(false, false), (false, true), (true, false), (true, true)] {
        assert_eq!(
            move_photo(&photo, move_file, dry_run, MoveProgress::NotStarted),
            MoveStep::CreateDirectories { dir: "/out/2023/05/04".to_string() }
        );
    }
}

#[test]
fn relocation_fails_at_once_without_a_parent() {
    for dest in ["/", "", "//"] {
        let photo = sent_to("/camera/a.jpg", dest);
        let mut msg = "No parent directory for ".to_string();
        msg.push_str(dest);
        assert_eq!(
            move_photo(&photo, true, false, MoveProgress::NotStarted),
            failure(PsErrorKind::PathError, &msg)
        );
    }
}

#[test]
fn relocation_of_a_bare_name_asks_for_the_empty_directory() {
    let photo = sent_to("/camera/a.jpg", "a.jpg");
    assert_eq!(
        move_photo(&photo, true, false, MoveProgress::NotStarted),
        MoveStep::CreateDirectories { dir: "".to_string() }
    );
}

#[test]
fn relocation_fails_when_the_directory_cannot_be_made() {
    let photo = planned("/camera/a.jpg");
    for (move_file, dry_run) in [(false, false), (false, true), (true, false), (true, true)] {
        assert_eq!(
            move_photo(
                &photo,
                move_file,
                dry_run,
                MoveProgress::DirectoryFailed("read-only file system".to_string())
            ),
            failure(PsErrorKind::DirectoryCreateError, "read-only file system")
        );
    }
}

#[test]
fn dry_run_stops_after_the_directory() {
    let photo = planned("/camera/a.jpg");
    for move_file in [false, true] {
        assert_eq!(
            move_photo(&photo, move_file, true, MoveProgress::DirectoryReady),
            MoveStep::Done(RelocationOutcome::Succeeded)
        );
    }
}

#[test]
fn move_mode_renames() {
    let photo = planned("/camera/a.jpg");
    assert_eq!(
        move_photo(&photo, true, false, MoveProgress::DirectoryReady),
        MoveStep::Rename {
            from: "/camera/a.jpg".to_string(),
            to: "/out/2023/05/04/a.jpg".to_string()
        }
    );
}

#[test]
fn copy_mode_copies() {
    let photo = planned("/camera/a.jpg");
    assert_eq!(
        move_photo(&photo, false, false, MoveProgress::DirectoryReady),
        MoveStep::Copy {
            from: "/camera/a.jpg".to_string(),
            to: "/out/2023/05/04/a.jpg".to_string()
        }
    );
}

#[test]
fn a_transfer_that_was_made_is_a_success() {
    let photo = planned("/camera/a.jpg");
    for move_file in [false, true] {
        assert_eq!(
            move_photo(&photo, move_file, false, MoveProgress::Transferred),
            MoveStep::Done(RelocationOutcome::Succeeded)
        );
    }
}

#[test]
fn a_transfer_that_failed_is_a_failure() {
    let photo = planned("/camera/a.jpg");
    for move_file in [false, true] {
        assert_eq!(
            move_photo(
                &photo,
                move_file,
                false,
                MoveProgress::TransferFailed("cross-device link".to_string())
            ),
            failure(PsErrorKind::RelocationError, "cross-device link")
        );
    }
}

#[test]
fn only_discovery_and_configuration_end_a_run() {
    let fatal = [PsErrorKind::ConfigError, PsErrorKind::DiscoveryError];
    let local =
        [PsErrorKind::PathError, PsErrorKind::DirectoryCreateError, PsErrorKind::RelocationError];
    for kind in fatal {
        assert!(PsError::new(kind, String::new()).is_fatal());
    }
    for kind in local {
        assert!(!PsError::new(kind, String::new()).is_fatal());
    }
}

#[test]
fn config_needs_source_and_destination() {
    let config = Config::new(
        Some("/camera".to_string()),
        Some("/out".to_string()),
        true,
        false,
        Some("run.log".to_string()),
    )
    .unwrap();
    assert_eq!(config.source, "/camera");
    assert_eq!(config.destination, "/out");
    assert!(config.copy);
    assert!(!config.dry_run);
    assert_eq!(config.logfile, Some("run.log".to_string()));
    assert!(!config.move_file());
}

#[test]
fn config_without_source_or_destination_is_refused() {
    let expected =
        PsError::new(PsErrorKind::ConfigError, "Both --src and --dest must be provided".to_string());
    assert_eq!(Config::new(None, Some("/out".to_string()), false, false, None), Err(PsError::new(
        PsErrorKind::ConfigError,
        "Both --src and --dest must be provided".to_string()
    )));
    assert_eq!(
        Config::new(Some("/camera".to_string()), None, false, false, None).unwrap_err(),
        expected
    );
    assert_eq!(Config::new(None, None, true, true, None).unwrap_err(), expected);
}

#[test]
fn config_moves_unless_it_copies() {
    let config =
        Config::new(Some("a".to_string()), Some("b".to_string()), false, true, None).unwrap();
    assert!(config.move_file());
    assert!(config.dry_run);
    assert_eq!(config.logfile, None);
}

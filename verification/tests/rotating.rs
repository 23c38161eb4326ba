use daily_picture::rotation::{
    is_not_hidden, plan_moves, Entry, IoError, Move, Rotation, RotationAction, RotationEvent,
    RotationStage,
};
use walkdir::WalkDir;

fn dir(path: &str, name: &str) -> Entry {
    Entry { path: path.to_string(), file_name: name.to_string(), is_dir: true }
}

fn file(path: &str, name: &str) -> Entry {
    Entry { path: path.to_string(), file_name: name.to_string(), is_dir: false }
}

fn moving(from: &str, to_dir: &str, name: &str) -> RotationAction {
    RotationAction::MoveFile {
        from: from.to_string(),
        to_dir: to_dir.to_string(),
        file_name: name.to_string(),
    }
}

fn listing(from: &str, to: &str) -> Rotation {
    let (mut rotation, first) = Rotation::begin(from.to_string(), to.to_string());
    assert_eq!(first, RotationAction::EnsureDirectory { path: from.to_string() });
    assert_eq!(
        rotation.step(RotationEvent::Succeeded),
        RotationAction::EnsureDirectory { path: to.to_string() }
    );
    assert_eq!(
        rotation.step(RotationEvent::Succeeded),
        RotationAction::ListEntries { root: from.to_string() }
    );
    assert_eq!(rotation.stage(), RotationStage::Listing);
    rotation
}

#[test]
fn _is_not_hidden() {
    let entry = WalkDir::new(".").into_iter().next().unwrap().unwrap();
    assert!(is_not_hidden(entry.file_name().to_str(), entry.depth()));
}

#[test]
fn root_is_visited_whatever_its_name() {
    assert!(is_not_hidden(Some("."), 0));
    assert!(is_not_hidden(Some(".pictures"), 0));
    assert!(is_not_hidden(Some("pictures"), 0));
    assert!(is_not_hidden(Some(""), 0));
}

#[test]
fn dot_files_below_the_root_are_hidden() {
    assert!(!is_not_hidden(Some(".hidden"), 1));
    assert!(!is_not_hidden(Some(".hidden"), 2));
    assert!(!is_not_hidden(Some("."), 1));
    assert!(!is_not_hidden(Some(".git"), usize::MAX));
}

#[test]
fn other_files_below_the_root_are_visited() {
    assert!(is_not_hidden(Some("file1.txt"), 1));
    assert!(is_not_hidden(Some("a.b"), 3));
    assert!(is_not_hidden(Some("_.x"), 1));
    assert!(is_not_hidden(Some(""), 1));
    assert!(is_not_hidden(Some("é."), 1));
}

#[test]
fn unreadable_names_are_hidden_below_the_root() {
    assert!(!is_not_hidden(None, 1));
    assert!(!is_not_hidden(None, 7));
}

#[test]
fn root_is_visited_even_with_an_unreadable_name() {
    assert!(is_not_hidden(None, 0));
}

#[test]
fn _loop_over_dir() {
    let mut count = 0;
    for entry in WalkDir::new(".")
        .into_iter()
        .filter_entry(|e| is_not_hidden(e.file_name().to_str(), e.depth()))
        .filter_map(|v| v.ok())
    {
        assert!(entry.depth() == 0 || !entry.file_name().to_str().unwrap().starts_with('.'));
        count += 1;
    }
    assert!(count > 0);
}

#[test]
fn plan_of_nothing_is_empty() {
    assert_eq!(plan_moves(&vec![]), vec![]);
    assert_eq!(plan_moves(&vec![dir("data/temp/", "temp")]), vec![]);
    assert_eq!(
        plan_moves(&vec![dir("data/temp/", "temp"), dir("data/temp/sub", "sub")]),
        vec![]
    );
}

#[test]
fn plan_moves_files_and_leaves_directories() {
    let entries = vec![
        dir("data/temp/", "temp"),
        file("data/temp/file1.txt", "file1.txt"),
        dir("data/temp/sub", "sub"),
        file("data/temp/sub/file2.txt", "file2.txt"),
        file("data/temp/file3", "file3"),
    ];
    assert_eq!(
        plan_moves(&entries),
        vec![
            Move { from: "data/temp/file1.txt".to_string(), file_name: "file1.txt".to_string() },
            Move {
                from: "data/temp/sub/file2.txt".to_string(),
                file_name: "file2.txt".to_string()
            },
            Move { from: "data/temp/file3".to_string(), file_name: "file3".to_string() },
        ]
    );
}

#[test]
fn plan_keeps_files_of_the_same_name() {
    let entries = vec![file("d/a/x.png", "x.png"), file("d/b/x.png", "x.png")];
    assert_eq!(
        plan_moves(&entries),
        vec![
            Move { from: "d/a/x.png".to_string(), file_name: "x.png".to_string() },
            Move { from: "d/b/x.png".to_string(), file_name: "x.png".to_string() },
        ]
    );
}

#[test]
fn rotation_creates_both_directories_first() {
    let rotation = listing("data/temp/", "data/temp_archive/");
    assert_eq!(rotation.stage(), RotationStage::Listing);
}

#[test]
fn rotation_of_an_empty_directory_moves_nothing() {
    let mut rotation = listing("data/temp/", "data/temp_archive/");
    let action = rotation.step(RotationEvent::Listed(vec![dir("data/temp/", "temp")]));
    assert_eq!(action, RotationAction::Finish);
    assert_eq!(rotation.stage(), RotationStage::Done);
    assert_eq!(rotation.step(RotationEvent::Succeeded), RotationAction::Finish);
    assert_eq!(rotation.stage(), RotationStage::Done);
}

#[test]
fn rotation_of_an_empty_listing_moves_nothing() {
    let mut rotation = listing("a", "b");
    assert_eq!(rotation.step(RotationEvent::Listed(vec![])), RotationAction::Finish);
    assert_eq!(rotation.stage(), RotationStage::Done);
}

#[test]
fn rotation_moves_every_file_in_order() {
    let mut rotation = listing("data/temp/", "data/temp_archive/");
    let entries = vec![
        dir("data/temp/", "temp"),
        file("data/temp/file1.txt", "file1.txt"),
        file("data/temp/file2.txt", "file2.txt"),
    ];
    assert_eq!(
        rotation.step(RotationEvent::Listed(entries)),
        moving("data/temp/file1.txt", "data/temp_archive/", "file1.txt")
    );
    assert_eq!(rotation.stage(), RotationStage::Moving);
    assert_eq!(
        rotation.step(RotationEvent::Succeeded),
        moving("data/temp/file2.txt", "data/temp_archive/", "file2.txt")
    );
    assert_eq!(rotation.step(RotationEvent::Succeeded), RotationAction::Finish);
    assert_eq!(rotation.stage(), RotationStage::Done);
}

#[test]
fn rotation_flattens_nested_files() {
    let mut rotation = listing("pictures", "archive");
    let entries = vec![
        dir("pictures", "pictures"),
        dir("pictures/2023", "2023"),
        file("pictures/2023/12/old.png", "old.png"),
    ];
    assert_eq!(
        rotation.step(RotationEvent::Listed(entries)),
        moving("pictures/2023/12/old.png", "archive", "old.png")
    );
}

#[test]
fn rotation_fails_when_the_download_directory_cannot_be_created() {
    let (mut rotation, _) = Rotation::begin("a".to_string(), "b".to_string());
    let abort = RotationAction::Abort { error: IoError::CreateDirectory };
    assert_eq!(rotation.step(RotationEvent::Failed), abort);
    assert_eq!(rotation.stage(), RotationStage::Failed(IoError::CreateDirectory));
    assert_eq!(rotation.step(RotationEvent::Succeeded), abort);
    assert_eq!(rotation.step(RotationEvent::Listed(vec![file("a/x", "x")])), abort);
}

#[test]
fn rotation_fails_when_the_archive_directory_cannot_be_created() {
    let (mut rotation, _) = Rotation::begin("a".to_string(), "b".to_string());
    rotation.step(RotationEvent::Succeeded);
    assert_eq!(
        rotation.step(RotationEvent::Failed),
        RotationAction::Abort { error: IoError::CreateDirectory }
    );
}

#[test]
fn rotation_fails_when_the_listing_does_not_arrive() {
    let mut rotation = listing("a", "b");
    assert_eq!(
        rotation.step(RotationEvent::Failed),
        RotationAction::Abort { error: IoError::List }
    );
    let mut other = listing("a", "b");
    assert_eq!(
        other.step(RotationEvent::Succeeded),
        RotationAction::Abort { error: IoError::List }
    );
}

#[test]
fn rotation_stops_at_the_first_move_that_fails() {
    let mut rotation = listing("a", "b");
    let entries = vec![file("a/1", "1"), file("a/2", "2"), file("a/3", "3")];
    assert_eq!(rotation.step(RotationEvent::Listed(entries)), moving("a/1", "b", "1"));
    assert_eq!(rotation.step(RotationEvent::Succeeded), moving("a/2", "b", "2"));
    let abort = RotationAction::Abort { error: IoError::Move };
    assert_eq!(rotation.step(RotationEvent::Failed), abort);
    assert_eq!(rotation.stage(), RotationStage::Failed(IoError::Move));
    assert_eq!(rotation.step(RotationEvent::Succeeded), abort);
}

#[test]
fn rotation_takes_a_listing_in_place_of_a_success_as_a_failure() {
    let (mut rotation, _) = Rotation::begin("a".to_string(), "b".to_string());
    assert_eq!(
        rotation.step(RotationEvent::Listed(vec![])),
        RotationAction::Abort { error: IoError::CreateDirectory }
    );
    let mut moving_one = listing("a", "b");
    moving_one.step(RotationEvent::Listed(vec![file("a/1", "1")]));
    assert_eq!(
        moving_one.step(RotationEvent::Listed(vec![])),
        RotationAction::Abort { error: IoError::Move }
    );
}

#[test]
fn io_error_messages() {
    assert_eq!(IoError::CreateDirectory.message(), "Could not create path");
    assert_eq!(IoError::List.message(), "Could not list directory");
    assert_eq!(IoError::Move.message(), "Could not move file to archive");
}

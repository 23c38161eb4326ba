use daily_picture::cycle::{Cycle, CycleAction, CycleError, CycleEvent};
use daily_picture::date::get_date;
use daily_picture::download::{DownloadAction, DownloadError, DownloadEvent};
use daily_picture::resolver::{Fields, MetadataResponse, ResolverError};
use daily_picture::rotation::{Entry, IoError, RotationAction, RotationEvent};

fn metadata(pairs: &[(&str, &str)]) -> CycleEvent {
    let mut fields = Fields::new();
    for (key, value) in pairs {
        fields.insert(key.to_string(), value.to_string());
    }
    CycleEvent::Resolved(MetadataResponse::Object(fields))
}

fn rotated() -> CycleEvent {
    CycleEvent::Rotation(RotationEvent::Succeeded)
}

fn downloaded() -> CycleEvent {
    CycleEvent::Download(DownloadEvent::Succeeded)
}

fn response(content_type: &[u8]) -> CycleEvent {
    CycleEvent::Download(DownloadEvent::Response { content_type: Some(content_type.to_vec()) })
}

fn listed(entries: Vec<Entry>) -> CycleEvent {
    CycleEvent::Rotation(RotationEvent::Listed(entries))
}

fn ensure(path: &str) -> CycleAction {
    CycleAction::Rotate(RotationAction::EnsureDirectory { path: path.to_string() })
}

fn ensure_destination() -> CycleAction {
    CycleAction::Download(DownloadAction::EnsureDirectory { path: "data/pictures".to_string() })
}

fn abort(error: CycleError, message: &str) -> CycleAction {
    CycleAction::Abort { error, message: message.to_string() }
}

fn begin() -> Cycle {
    let (cycle, first) = Cycle::begin("data/pictures".to_string(), "data/archive".to_string());
    assert_eq!(first, CycleAction::Resolve { endpoint: "https://bing.biturl.top".to_string() });
    assert!(!cycle.is_over());
    cycle
}

fn run(cycle: Cycle, today: &str, script: Vec<(CycleEvent, CycleAction)>) -> Cycle {
    let mut cycle = cycle;
    for (event, expected) in script {
        let (next, action) = cycle.step_on(event, today);
        assert_eq!(action, expected);
        cycle = next;
    }
    cycle
}

fn one_day(today: &str, found: Vec<Entry>, moves: Vec<(CycleEvent, CycleAction)>, name: &str) {
    let request =
        CycleAction::Download(DownloadAction::Request { url: "https://example.com/img.png".to_string() });
    let mut script = vec![
        (metadata(&[("url", "https://example.com/img.png")]), ensure("data/pictures")),
        (rotated(), ensure("data/archive")),
        (
            rotated(),
            CycleAction::Rotate(RotationAction::ListEntries { root: "data/pictures".to_string() }),
        ),
    ];
    let first_move = if moves.is_empty() { request.clone() } else { moves[0].1.clone() };
    script.push((listed(found), first_move));
    for i in 0..moves.len() {
        let next = if i + 1 < moves.len() { moves[i + 1].1.clone() } else { request.clone() };
        script.push((moves[i].0.clone(), next));
    }
    script.push((response(b"image/png"), ensure_destination()));
    script.push((
        downloaded(),
        CycleAction::Download(DownloadAction::CreateFile {
            directory: "data/pictures".to_string(),
            file_name: name.to_string(),
        }),
    ));
    script.push((downloaded(), CycleAction::Download(DownloadAction::ReadBody)));
    script.push((downloaded(), CycleAction::Download(DownloadAction::WriteBody)));
    script.push((downloaded(), CycleAction::Finish { file_name: name.to_string() }));
    let cycle = run(begin(), today, script);
    assert!(cycle.is_over());
}

#[test]
fn fresh_cycle_saves_one_file() {
    let root = Entry {
        path: "data/pictures".to_string(),
        file_name: "pictures".to_string(),
        is_dir: true,
    };
    one_day("2024-5-3", vec![root], vec![], "2024-5-3.png");
}

#[test]
fn next_day_archives_the_file_before_it_saves_the_new_one() {
    let root = Entry {
        path: "data/pictures".to_string(),
        file_name: "pictures".to_string(),
        is_dir: true,
    };
    let yesterday = Entry {
        path: "data/pictures/2024-5-3.png".to_string(),
        file_name: "2024-5-3.png".to_string(),
        is_dir: false,
    };
    let relocate = CycleAction::Rotate(RotationAction::MoveFile {
        from: "data/pictures/2024-5-3.png".to_string(),
        to_dir: "data/archive".to_string(),
        file_name: "2024-5-3.png".to_string(),
    });
    one_day("2024-5-4", vec![root, yesterday], vec![(rotated(), relocate)], "2024-5-4.png");
}

#[test]
fn missing_url_aborts_the_cycle_before_anything_is_touched() {
    let (cycle, action) = begin().step_on(metadata(&[]), "2024-5-3");
    let expected = abort(
        CycleError::Resolve(ResolverError::MissingField),
        "Could not get picture of the day url: No url found",
    );
    assert_eq!(action, expected);
    assert!(cycle.is_over());
    let cycle = run(
        cycle,
        "2024-5-3",
        vec![
            (rotated(), expected.clone()),
            (listed(vec![]), expected.clone()),
            (response(b"image/png"), expected.clone()),
            (downloaded(), expected.clone()),
            (metadata(&[("url", "https://example.com/img.png")]), expected.clone()),
        ],
    );
    assert!(cycle.is_over());
}

#[test]
fn unreachable_endpoint_aborts_the_cycle() {
    let (cycle, action) =
        begin().step_on(CycleEvent::Resolved(MetadataResponse::Unreachable), "2024-5-3");
    assert_eq!(
        action,
        abort(
            CycleError::Resolve(ResolverError::Request),
            "Could not get picture of the day url: Could not get response from https://bing.biturl.top",
        )
    );
    assert!(cycle.is_over());
}

#[test]
fn undecodable_answer_aborts_the_cycle() {
    let (_, action) =
        begin().step_on(CycleEvent::Resolved(MetadataResponse::Undecodable), "2024-5-3");
    assert_eq!(
        action,
        abort(
            CycleError::Resolve(ResolverError::Decode),
            "Could not get picture of the day url: Could not get json from https://bing.biturl.top",
        )
    );
}

#[test]
fn answer_of_another_kind_counts_as_a_failed_request() {
    let (_, action) = begin().step_on(rotated(), "2024-5-3");
    assert_eq!(
        action,
        abort(
            CycleError::Resolve(ResolverError::Request),
            "Could not get picture of the day url: Could not get response from https://bing.biturl.top",
        )
    );
}

#[test]
fn failed_rotation_skips_the_download() {
    let expected = abort(
        CycleError::Rotate(IoError::CreateDirectory),
        "Could not move older files to archive: Could not create path",
    );
    let cycle = run(
        begin(),
        "2024-5-3",
        vec![
            (metadata(&[("url", "https://example.com/img.png")]), ensure("data/pictures")),
            (CycleEvent::Rotation(RotationEvent::Failed), expected.clone()),
            (rotated(), expected.clone()),
            (response(b"image/png"), expected.clone()),
        ],
    );
    assert!(cycle.is_over());
}

#[test]
fn failed_move_skips_the_download() {
    let file = Entry { path: "data/pictures/a".to_string(), file_name: "a".to_string(), is_dir: false };
    let expected = abort(
        CycleError::Rotate(IoError::Move),
        "Could not move older files to archive: Could not move file to archive",
    );
    run(
        begin(),
        "2024-5-3",
        vec![
            (metadata(&[("url", "u")]), ensure("data/pictures")),
            (rotated(), ensure("data/archive")),
            (
                rotated(),
                CycleAction::Rotate(RotationAction::ListEntries {
                    root: "data/pictures".to_string(),
                }),
            ),
            (
                listed(vec![file]),
                CycleAction::Rotate(RotationAction::MoveFile {
                    from: "data/pictures/a".to_string(),
                    to_dir: "data/archive".to_string(),
                    file_name: "a".to_string(),
                }),
            ),
            (CycleEvent::Rotation(RotationEvent::Failed), expected.clone()),
            (downloaded(), expected.clone()),
        ],
    );
}

#[test]
fn news_of_the_download_during_the_rotation_counts_as_a_failure() {
    run(
        begin(),
        "2024-5-3",
        vec![
            (metadata(&[("url", "u")]), ensure("data/pictures")),
            (
                downloaded(),
                abort(
                    CycleError::Rotate(IoError::CreateDirectory),
                    "Could not move older files to archive: Could not create path",
                ),
            ),
        ],
    );
}

fn downloading() -> Cycle {
    run(
        begin(),
        "2024-5-3",
        vec![
            (metadata(&[("url", "https://example.com/img.png")]), ensure("data/pictures")),
            (rotated(), ensure("data/archive")),
            (
                rotated(),
                CycleAction::Rotate(RotationAction::ListEntries {
                    root: "data/pictures".to_string(),
                }),
            ),
            (
                listed(vec![]),
                CycleAction::Download(DownloadAction::Request {
                    url: "https://example.com/img.png".to_string(),
                }),
            ),
        ],
    )
}

#[test]
fn failed_download_aborts_the_cycle() {
    let expected = abort(
        CycleError::Download(DownloadError::Request),
        "Could not download file: Could not get response from https://example.com/img.png",
    );
    let cycle = run(
        downloading(),
        "2024-5-3",
        vec![
            (
                CycleEvent::Download(DownloadEvent::Failed { reason: "refused".to_string() }),
                expected.clone(),
            ),
            (downloaded(), expected.clone()),
        ],
    );
    assert!(cycle.is_over());
}

#[test]
fn failed_write_aborts_the_cycle_with_its_reason() {
    run(
        downloading(),
        "2024-5-3",
        vec![
            (response(b"image/png"), ensure_destination()),
            (
                downloaded(),
                CycleAction::Download(DownloadAction::CreateFile {
                    directory: "data/pictures".to_string(),
                    file_name: "2024-5-3.png".to_string(),
                }),
            ),
            (downloaded(), CycleAction::Download(DownloadAction::ReadBody)),
            (downloaded(), CycleAction::Download(DownloadAction::WriteBody)),
            (
                CycleEvent::Download(DownloadEvent::Failed { reason: "disk full".to_string() }),
                abort(
                    CycleError::Download(DownloadError::Write),
                    "Could not download file: Could not write to file disk full",
                ),
            ),
        ],
    );
}

#[test]
fn news_of_the_rotation_during_the_download_counts_as_a_failure() {
    run(
        downloading(),
        "2024-5-3",
        vec![(
            rotated(),
            abort(
                CycleError::Download(DownloadError::Request),
                "Could not download file: Could not get response from https://example.com/img.png",
            ),
        )],
    );
}

#[test]
fn finished_cycle_stays_finished() {
    let cycle = run(
        downloading(),
        "2024-5-3",
        vec![
            (
                CycleEvent::Download(DownloadEvent::Response { content_type: None }),
                ensure_destination(),
            ),
            (
                downloaded(),
                CycleAction::Download(DownloadAction::CreateFile {
                    directory: "data/pictures".to_string(),
                    file_name: "2024-5-3.txt".to_string(),
                }),
            ),
            (downloaded(), CycleAction::Download(DownloadAction::ReadBody)),
            (downloaded(), CycleAction::Download(DownloadAction::WriteBody)),
            (downloaded(), CycleAction::Finish { file_name: "2024-5-3.txt".to_string() }),
            (downloaded(), CycleAction::Finish { file_name: "2024-5-3.txt".to_string() }),
            (rotated(), CycleAction::Finish { file_name: "2024-5-3.txt".to_string() }),
        ],
    );
    assert!(cycle.is_over());
}

#[test]
fn cycle_reads_the_date_off_the_clock() {
    let cycle = downloading();
    let before = get_date();
    let (cycle, action) = cycle.step(response(b"image/jpeg"));
    let after = get_date();
    assert_eq!(action, ensure_destination());
    let named = |date: &str| {
        CycleAction::Download(DownloadAction::CreateFile {
            directory: "data/pictures".to_string(),
            file_name: format!("{}.jpeg", date),
        })
    };
    let (cycle, action) = cycle.step(downloaded());
    assert!(action == named(&before) || action == named(&after));
    let (_, action) = cycle.step(downloaded());
    assert_eq!(action, CycleAction::Download(DownloadAction::ReadBody));
}

#[test]
fn cycle_error_messages() {
    assert_eq!(
        CycleError::Resolve(ResolverError::Decode).message("x"),
        "Could not get picture of the day url: x"
    );
    assert_eq!(
        CycleError::Rotate(IoError::Move).message("y"),
        "Could not move older files to archive: y"
    );
    assert_eq!(
        CycleError::Download(DownloadError::Write).message("z"),
        "Could not download file: z"
    );
}

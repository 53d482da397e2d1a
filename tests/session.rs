use mhf_patcher::digest::content_hash_hex;
use mhf_patcher::failure::PatchFailure;
use mhf_patcher::request::PatcherResponse;
use mhf_patcher::session::{
    Action, ChunkOutcome, Event, PatchSession, PatcherEvent, ResponseOutcome, Stage, State,
};

fn session(etag: &str, content: &str) -> PatchSession {
    PatchSession::new(PatcherResponse { etag: etag.to_string(), content: content.to_string() })
}

fn emit(total: usize, current: usize, state: State) -> Action {
    Action::Emit(PatcherEvent { total, current, state })
}

fn path(p: &str) -> Vec<u8> {
    p.as_bytes().to_vec()
}

fn hex(content: &[u8]) -> String {
    String::from_utf8(content_hash_hex(content)).unwrap()
}

/// Feeds `events` in turn, starting the run first, and returns every action asked for.
fn run(s: &mut PatchSession, events: Vec<Event>) -> Vec<Action> {
    let mut actions = vec![s.step(Event::Start)];
    for ev in events {
        assert!(s.accepts(&ev), "event {:?} in stage {:?}", ev, s.stage());
        actions.push(s.step(ev));
    }
    actions
}

#[test]
fn end_to_end_patches_only_the_missing_file() {
    let hb = hex(b"bee");
    let manifest = format!("h1\ta.txt\n{}\tb.txt", hb);
    let mut s = session("\"abc123\"", &manifest);
    let actions = run(
        &mut s,
        vec![
            Event::Completed(true),
            Event::Completed(true),
            Event::Local(None),
            Event::Local(Some(b"bee".to_vec())),
            Event::Completed(true),
            Event::Response(ResponseOutcome::Status(200)),
            Event::Completed(true),
            Event::Chunk(ChunkOutcome::Data(b"new a".to_vec())),
            Event::Completed(true),
            Event::Chunk(ChunkOutcome::End),
            Event::Completed(true),
            Event::Completed(true),
            Event::Completed(true),
            Event::Completed(true),
            Event::Completed(true),
            Event::Completed(true),
        ],
    );
    assert_eq!(
        actions,
        vec![
            Action::CreateStaging,
            emit(0, 0, State::Checking),
            Action::ReadLocal(path("a.txt")),
            Action::ReadLocal(path("b.txt")),
            emit(1, 0, State::Downloading),
            Action::Fetch(path("a.txt")),
            Action::PrepareStaged(path("a.txt")),
            Action::ReadChunk,
            Action::WriteChunk(b"new a".to_vec()),
            Action::ReadChunk,
            emit(1, 1, State::Downloading),
            emit(0, 0, State::Patching),
            Action::Move(path("a.txt")),
            Action::WriteEtag("\"abc123\"".to_string()),
            emit(0, 0, State::Done),
            Action::RemoveStaging,
            Action::Finish,
        ]
    );
    assert_eq!(s.stage(), Stage::Finished);
}

#[test]
fn unchanged_folder_fetches_nothing() {
    let manifest = format!("{}\ta\n{}\tb", hex(b"1"), hex(b"2"));
    let mut s = session("e", &manifest);
    let actions = run(
        &mut s,
        vec![
            Event::Completed(true),
            Event::Completed(true),
            Event::Local(Some(b"1".to_vec())),
            Event::Local(Some(b"2".to_vec())),
            Event::Completed(true),
            Event::Completed(true),
            Event::Completed(true),
            Event::Completed(true),
            Event::Completed(true),
        ],
    );
    assert_eq!(
        actions,
        vec![
            Action::CreateStaging,
            emit(0, 0, State::Checking),
            Action::ReadLocal(path("a")),
            Action::ReadLocal(path("b")),
            emit(0, 0, State::Downloading),
            emit(0, 0, State::Patching),
            Action::WriteEtag("e".to_string()),
            emit(0, 0, State::Done),
            Action::RemoveStaging,
            Action::Finish,
        ]
    );
}

#[test]
fn malformed_manifest_reports_network_error() {
    let mut s = session("e", "h1\ta.txt\nno tab here\n");
    let actions = run(
        &mut s,
        vec![
            Event::Completed(true),
            Event::Completed(true),
            Event::Completed(true),
            Event::Completed(true),
        ],
    );
    assert_eq!(
        actions,
        vec![
            Action::CreateStaging,
            emit(0, 0, State::Checking),
            Action::ReportError(PatchFailure::Network),
            Action::RemoveStaging,
            Action::Finish,
        ]
    );
}

#[test]
fn cancel_mid_download_moves_nothing() {
    let manifest = "h1\ta\nh2\tb\nh3\tc";
    let mut s = session("e", manifest);
    let actions = run(
        &mut s,
        vec![
            Event::Completed(true),
            Event::Completed(true),
            Event::Local(None),
            Event::Local(None),
            Event::Local(None),
            Event::Completed(true),
            Event::Response(ResponseOutcome::Status(200)),
            Event::Completed(true),
            Event::Chunk(ChunkOutcome::End),
            Event::Completed(true),
            Event::Response(ResponseOutcome::Status(200)),
            Event::Completed(true),
            Event::Chunk(ChunkOutcome::Data(b"part".to_vec())),
            Event::Completed(true),
            Event::Chunk(ChunkOutcome::Cancelled),
            Event::Completed(true),
        ],
    );
    assert!(!actions.iter().any(|a| matches!(a, Action::Move(_) | Action::WriteEtag(_))));
    assert!(!actions.iter().any(|a| matches!(a, Action::ReportError(_))));
    let n = actions.len();
    assert_eq!(actions[n - 2], Action::RemoveStaging);
    assert_eq!(actions[n - 1], Action::Finish);
}

#[test]
fn cancel_before_response_moves_nothing() {
    let mut s = session("e", "h1\ta");
    let actions = run(
        &mut s,
        vec![
            Event::Completed(true),
            Event::Completed(true),
            Event::Local(None),
            Event::Completed(true),
            Event::Response(ResponseOutcome::Cancelled),
            Event::Completed(true),
        ],
    );
    assert_eq!(
        &actions[3..],
        &[
            emit(1, 0, State::Downloading),
            Action::Fetch(path("a")),
            Action::RemoveStaging,
            Action::Finish,
        ]
    );
}

#[test]
fn staging_creation_failure_skips_checking() {
    let mut s = session("e", "h1\ta");
    let actions = run(&mut s, vec![Event::Completed(false), Event::Completed(true)]);
    assert_eq!(
        actions,
        vec![Action::CreateStaging, Action::ReportError(PatchFailure::File), Action::Finish]
    );
}

#[test]
fn failing_status_is_network_error() {
    let mut s = session("e", "h1\ta");
    let actions = run(
        &mut s,
        vec![
            Event::Completed(true),
            Event::Completed(true),
            Event::Local(None),
            Event::Completed(true),
            Event::Response(ResponseOutcome::Status(404)),
            Event::Completed(true),
            Event::Completed(true),
        ],
    );
    assert_eq!(
        &actions[4..],
        &[
            Action::Fetch(path("a")),
            Action::ReportError(PatchFailure::Network),
            Action::RemoveStaging,
            Action::Finish,
        ]
    );
}

#[test]
fn transport_and_chunk_failures_are_network_errors() {
    let mut s = session("e", "h1\ta");
    let actions = run(
        &mut s,
        vec![
            Event::Completed(true),
            Event::Completed(true),
            Event::Local(None),
            Event::Completed(true),
            Event::Response(ResponseOutcome::Failed),
        ],
    );
    assert_eq!(actions.last(), Some(&Action::ReportError(PatchFailure::Network)));
    let mut s = session("e", "h1\ta");
    let actions = run(
        &mut s,
        vec![
            Event::Completed(true),
            Event::Completed(true),
            Event::Local(None),
            Event::Completed(true),
            Event::Response(ResponseOutcome::Status(200)),
            Event::Completed(true),
            Event::Chunk(ChunkOutcome::Failed),
        ],
    );
    assert_eq!(actions.last(), Some(&Action::ReportError(PatchFailure::Network)));
}

#[test]
fn disk_failures_are_file_errors() {
    let prefix = vec![
        Event::Completed(true),
        Event::Completed(true),
        Event::Local(None),
        Event::Completed(true),
        Event::Response(ResponseOutcome::Status(200)),
    ];
    let mut s = session("e", "h1\ta");
    let mut events: Vec<Event> = prefix.iter().map(clone_event).collect();
    events.push(Event::Completed(false));
    assert_eq!(run(&mut s, events).last(), Some(&Action::ReportError(PatchFailure::File)));

    let mut s = session("e", "h1\ta");
    let mut events: Vec<Event> = prefix.iter().map(clone_event).collect();
    events.push(Event::Completed(true));
    events.push(Event::Chunk(ChunkOutcome::Data(vec![1])));
    events.push(Event::Completed(false));
    assert_eq!(run(&mut s, events).last(), Some(&Action::ReportError(PatchFailure::File)));
}

#[test]
fn move_failure_is_file_error_without_etag() {
    let mut s = session("e", "h1\ta\nh2\tb");
    let actions = run(
        &mut s,
        vec![
            Event::Completed(true),
            Event::Completed(true),
            Event::Local(None),
            Event::Local(None),
            Event::Completed(true),
            Event::Response(ResponseOutcome::Status(200)),
            Event::Completed(true),
            Event::Chunk(ChunkOutcome::End),
            Event::Completed(true),
            Event::Response(ResponseOutcome::Status(204)),
            Event::Completed(true),
            Event::Chunk(ChunkOutcome::End),
            Event::Completed(true),
            Event::Completed(true),
            Event::Completed(true),
            Event::Completed(false),
            Event::Completed(true),
            Event::Completed(true),
        ],
    );
    assert_eq!(
        &actions[13..],
        &[
            emit(0, 0, State::Patching),
            Action::Move(path("a")),
            Action::Move(path("b")),
            Action::ReportError(PatchFailure::File),
            Action::RemoveStaging,
            Action::Finish,
        ]
    );
    assert!(!actions.iter().any(|a| matches!(a, Action::WriteEtag(_))));
}

#[test]
fn cleanup_failure_is_reported_after_done() {
    let mut s = session("tag", "");
    let actions = run(
        &mut s,
        vec![
            Event::Completed(true),
            Event::Completed(true),
            Event::Completed(true),
            Event::Completed(true),
            Event::Completed(true),
            Event::Completed(true),
            Event::Completed(false),
            Event::Completed(true),
        ],
    );
    assert_eq!(
        actions,
        vec![
            Action::CreateStaging,
            emit(0, 0, State::Checking),
            emit(0, 0, State::Downloading),
            emit(0, 0, State::Patching),
            Action::WriteEtag("tag".to_string()),
            emit(0, 0, State::Done),
            Action::RemoveStaging,
            Action::ReportError(PatchFailure::File),
            Action::Finish,
        ]
    );
}

#[test]
fn etag_failure_is_file_error() {
    let mut s = session("tag", "");
    let actions = run(
        &mut s,
        vec![
            Event::Completed(true),
            Event::Completed(true),
            Event::Completed(true),
            Event::Completed(true),
            Event::Completed(false),
        ],
    );
    assert_eq!(actions.last(), Some(&Action::ReportError(PatchFailure::File)));
}

#[test]
fn progress_counts_each_staged_file() {
    let mut s = session("e", "h1\ta\nh2\tb");
    let actions = run(
        &mut s,
        vec![
            Event::Completed(true),
            Event::Completed(true),
            Event::Local(None),
            Event::Local(None),
            Event::Completed(true),
            Event::Response(ResponseOutcome::Status(200)),
            Event::Completed(true),
            Event::Chunk(ChunkOutcome::End),
            Event::Completed(true),
            Event::Response(ResponseOutcome::Status(200)),
            Event::Completed(true),
            Event::Chunk(ChunkOutcome::End),
        ],
    );
    let reports: Vec<&Action> =
        actions.iter().filter(|a| matches!(a, Action::Emit(e) if e.state == State::Downloading)).collect();
    assert_eq!(
        reports,
        vec![&emit(2, 0, State::Downloading), &emit(2, 1, State::Downloading), &emit(2, 2, State::Downloading)]
    );
}

#[test]
fn accepts_only_the_awaited_event() {
    let mut s = session("e", "h1\ta");
    assert!(s.accepts(&Event::Start));
    assert!(!s.accepts(&Event::Completed(true)));
    s.step(Event::Start);
    assert!(s.accepts(&Event::Completed(false)));
    assert!(!s.accepts(&Event::Local(None)));
}

fn clone_event(ev: &Event) -> Event {
    match ev {
        Event::Start => Event::Start,
        Event::Completed(b) => Event::Completed(*b),
        Event::Local(l) => Event::Local(l.clone()),
        Event::Response(r) => Event::Response(*r),
        Event::Chunk(ChunkOutcome::Data(d)) => Event::Chunk(ChunkOutcome::Data(d.clone())),
        Event::Chunk(ChunkOutcome::End) => Event::Chunk(ChunkOutcome::End),
        Event::Chunk(ChunkOutcome::Cancelled) => Event::Chunk(ChunkOutcome::Cancelled),
        Event::Chunk(ChunkOutcome::Failed) => Event::Chunk(ChunkOutcome::Failed),
    }
}

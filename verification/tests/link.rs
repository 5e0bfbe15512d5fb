use tml::errors::{Error, ErrorKind};
use tml::identity::{FileIdentity, FileKind, FileStatus, PathExt, Removal};
use tml::link::{remove_dst_if_not_src, verification_path, Action, Event, LinkOperation, Stage};

fn status(device: u64, inode: u64, kind: FileKind) -> Option<FileStatus> {
    Some(FileStatus { identity: FileIdentity { device, inode }, kind })
}

fn inspected(source: Option<FileStatus>, destination: Option<FileStatus>) -> Event {
    Event::Inspected { source, destination }
}

/// Feeds `events` to `op` one by one and returns the actions that were due,
/// the first one before any event.
fn drive(mut op: LinkOperation, events: &[Event]) -> (Vec<Option<Action>>, LinkOperation) {
    let mut actions = vec![op.pending()];
    for event in events {
        op = op.step(*event);
        actions.push(op.pending());
    }
    (actions, op)
}

#[test]
fn verification_path_examples() {
    assert_eq!(verification_path(b"target", b"out/file"), b"out/target".to_vec());
    assert_eq!(verification_path(b"../target", b"a/b/link"), b"a/b/../target".to_vec());
    assert_eq!(verification_path(b"target", b"file"), b"target".to_vec());
    assert_eq!(verification_path(b"/abs/target", b"out/file"), b"/abs/target".to_vec());
    assert_eq!(verification_path(b"target", b"/file"), b"/target".to_vec());
    assert_eq!(verification_path(b"target", b"/"), b"target".to_vec());
    assert_eq!(verification_path(b"target", b"./file"), b"./target".to_vec());
    assert_eq!(verification_path(b"", b"out/file"), b"out/".to_vec());
}

#[test]
fn remove_dst_if_not_src_examples() {
    let src = |s| PathExt::new(b"src".to_vec(), s);
    let dst = |s| PathExt::new(b"dst".to_vec(), s);
    let same = Err(Error::SameFile { source: b"src".to_vec(), destination: b"dst".to_vec() });
    assert_eq!(
        remove_dst_if_not_src(&src(status(1, 5, FileKind::File)), &dst(status(1, 5, FileKind::File))),
        same
    );
    assert_eq!(
        remove_dst_if_not_src(
            &src(status(1, 5, FileKind::Directory)),
            &dst(status(1, 5, FileKind::Other))
        ),
        same
    );
    assert_eq!(remove_dst_if_not_src(&src(None), &dst(None)), Ok(Removal::Nothing));
    assert_eq!(
        remove_dst_if_not_src(&src(status(1, 5, FileKind::File)), &dst(None)),
        Ok(Removal::Nothing)
    );
    assert_eq!(
        remove_dst_if_not_src(&src(None), &dst(status(1, 5, FileKind::Symlink))),
        Ok(Removal::File)
    );
    assert_eq!(
        remove_dst_if_not_src(&src(status(1, 6, FileKind::File)), &dst(status(1, 5, FileKind::File))),
        Ok(Removal::File)
    );
    assert_eq!(
        remove_dst_if_not_src(
            &src(status(2, 5, FileKind::File)),
            &dst(status(1, 5, FileKind::Directory))
        ),
        Ok(Removal::Directory)
    );
    assert_eq!(
        remove_dst_if_not_src(&src(None), &dst(status(1, 5, FileKind::Other))),
        Err(Error::UnknownFileType(b"dst".to_vec()))
    );
}

#[test]
fn start_fails_without_basename() {
    let r = LinkOperation::start(b"..", b"", true, true);
    assert_eq!(r.unwrap_err(), Error::NoBasename(b"..".to_vec()));
    let r = LinkOperation::start(b"/", b"out/", false, false);
    assert_eq!(r.unwrap_err(), Error::NoBasename(b"/".to_vec()));
}

#[test]
fn start_expands_the_destination() {
    let op = LinkOperation::start(b"/test/file", b"", false, false).unwrap();
    assert_eq!(op.source(), b"/test/file");
    assert_eq!(op.destination(), b"file");
    let op = LinkOperation::start(b"/test/file", b"out/", false, false).unwrap();
    assert_eq!(op.destination(), b"out/file");
    let op = LinkOperation::start(b"/test/file", b"out", false, false).unwrap();
    assert_eq!(op.destination(), b"out");
}

#[test]
fn all_steps_in_order() {
    let op = LinkOperation::start(b"target", b"out/", true, true).unwrap();
    assert_eq!(op.stage(), Stage::CreateParents);
    assert_eq!(op.outcome(), None);
    let (actions, op) = drive(
        op,
        &[
            Event::Succeeded,
            Event::Succeeded,
            inspected(status(1, 1, FileKind::File), status(1, 2, FileKind::File)),
            Event::Succeeded,
            Event::Succeeded,
        ],
    );
    assert_eq!(
        actions,
        vec![
            Some(Action::CreateDirectories(b"out".to_vec())),
            Some(Action::CheckExists(b"out/target".to_vec())),
            Some(Action::Inspect { source: b"target".to_vec(), destination: b"out/target".to_vec() }),
            Some(Action::RemoveFile(b"out/target".to_vec())),
            Some(Action::CreateLink {
                source: b"target".to_vec(),
                destination: b"out/target".to_vec()
            }),
            None,
        ]
    );
    assert_eq!(op.stage(), Stage::Done);
    assert_eq!(op.outcome(), Some(Ok(())));
}

#[test]
fn link_into_directory_creates_the_directory_first() {
    let op = LinkOperation::start(b"/test/file", b"out/", false, false).unwrap();
    let (actions, op) = drive(op, &[Event::Succeeded, Event::Succeeded]);
    assert_eq!(
        actions,
        vec![
            Some(Action::CreateDirectories(b"out".to_vec())),
            Some(Action::CreateLink {
                source: b"/test/file".to_vec(),
                destination: b"out/file".to_vec()
            }),
            None,
        ]
    );
    assert_eq!(op.outcome(), Some(Ok(())));
}

#[test]
fn bare_destination_has_the_empty_directory_above_it() {
    let op = LinkOperation::start(b"/test/file", b"", true, false).unwrap();
    let (actions, op) = drive(op, &[Event::Succeeded, Event::Succeeded, Event::Succeeded]);
    assert_eq!(
        actions,
        vec![
            Some(Action::CreateDirectories(b"".to_vec())),
            Some(Action::CheckExists(b"/test/file".to_vec())),
            Some(Action::CreateLink { source: b"/test/file".to_vec(), destination: b"file".to_vec() }),
            None,
        ]
    );
    assert_eq!(op.outcome(), Some(Ok(())));
}

#[test]
fn destination_without_parent_starts_past_the_directories() {
    let op = LinkOperation::start(b"target", b"/.", true, false).unwrap();
    assert_eq!(op.stage(), Stage::VerifySource);
    assert_eq!(op.pending(), Some(Action::CheckExists(b"target".to_vec())));
    let op = LinkOperation::start(b"target", b"/.", false, true).unwrap();
    assert_eq!(op.stage(), Stage::Inspect);
    let op = LinkOperation::start(b"target", b"/.", false, false).unwrap();
    assert_eq!(op.stage(), Stage::CreateLink);
}

#[test]
fn directory_creation_failure_ends_the_operation() {
    let op = LinkOperation::start(b"target", b"a/b/c", true, true).unwrap();
    let (actions, op) = drive(op, &[Event::Failed, Event::Succeeded]);
    assert_eq!(actions, vec![Some(Action::CreateDirectories(b"a/b".to_vec())), None, None]);
    assert_eq!(op.stage(), Stage::Failed(ErrorKind::DirectoryCreationFailed));
    assert_eq!(op.outcome(), Some(Err(Error::DirectoryCreationFailed(b"a/b".to_vec()))));
}

#[test]
fn same_file_is_refused_and_nothing_is_removed() {
    let op = LinkOperation::start(b"file", b"", false, true).unwrap();
    let same = status(9, 77, FileKind::File);
    let (actions, op) = drive(op, &[Event::Succeeded, inspected(same, same), Event::Succeeded]);
    assert_eq!(
        actions,
        vec![
            Some(Action::CreateDirectories(b"".to_vec())),
            Some(Action::Inspect { source: b"file".to_vec(), destination: b"file".to_vec() }),
            None,
            None,
        ]
    );
    assert_eq!(op.stage(), Stage::Failed(ErrorKind::SameFile));
    assert_eq!(
        op.outcome(),
        Some(Err(Error::SameFile { source: b"file".to_vec(), destination: b"file".to_vec() }))
    );
}

#[test]
fn missing_source_is_found_after_the_directories_are_made() {
    let op = LinkOperation::start(b"target", b"new/dir/", true, true).unwrap();
    let (actions, op) = drive(op, &[Event::Succeeded, Event::Failed, Event::Succeeded]);
    assert_eq!(
        actions,
        vec![
            Some(Action::CreateDirectories(b"new/dir".to_vec())),
            Some(Action::CheckExists(b"new/dir/target".to_vec())),
            None,
            None,
        ]
    );
    assert_eq!(op.stage(), Stage::Failed(ErrorKind::SourceMissing));
    assert_eq!(op.outcome(), Some(Err(Error::SourceMissing(b"new/dir/target".to_vec()))));
}

#[test]
fn non_empty_directory_stays_and_no_link_is_made() {
    let op = LinkOperation::start(b"target", b"dst", false, true).unwrap();
    let (actions, op) = drive(
        op,
        &[
            Event::Succeeded,
            inspected(status(1, 1, FileKind::File), status(1, 2, FileKind::Directory)),
            Event::Failed,
            Event::Succeeded,
        ],
    );
    assert_eq!(
        actions,
        vec![
            Some(Action::CreateDirectories(b"".to_vec())),
            Some(Action::Inspect { source: b"target".to_vec(), destination: b"dst".to_vec() }),
            Some(Action::RemoveDirectory(b"dst".to_vec())),
            None,
            None,
        ]
    );
    assert_eq!(op.stage(), Stage::Failed(ErrorKind::RemovalFailed));
    assert_eq!(op.outcome(), Some(Err(Error::RemovalFailed(b"dst".to_vec()))));
}

#[test]
fn unknown_file_type_is_not_removed() {
    let op = LinkOperation::start(b"target", b"dst", false, true).unwrap();
    let (actions, op) =
        drive(op, &[Event::Succeeded, inspected(None, status(1, 2, FileKind::Other))]);
    assert_eq!(actions[2], None);
    assert_eq!(op.outcome(), Some(Err(Error::UnknownFileType(b"dst".to_vec()))));
}

#[test]
fn missing_destination_needs_no_removal() {
    let op = LinkOperation::start(b"target", b"dst", false, true).unwrap();
    let (actions, op) = drive(op, &[Event::Succeeded, inspected(None, None), Event::Succeeded]);
    assert_eq!(
        actions[2],
        Some(Action::CreateLink { source: b"target".to_vec(), destination: b"dst".to_vec() })
    );
    assert_eq!(op.outcome(), Some(Ok(())));
}

#[test]
fn symlink_at_destination_is_removed_as_a_file() {
    let op = LinkOperation::start(b"target", b"dst", false, true).unwrap();
    let (actions, _) = drive(
        op,
        &[Event::Succeeded, inspected(status(1, 1, FileKind::File), status(1, 2, FileKind::Symlink))],
    );
    assert_eq!(actions[2], Some(Action::RemoveFile(b"dst".to_vec())));
}

#[test]
fn link_creation_failure_is_reported() {
    let op = LinkOperation::start(b"target", b"dst", false, false).unwrap();
    let (actions, op) = drive(op, &[Event::Succeeded, Event::Failed]);
    assert_eq!(actions[2], None);
    assert_eq!(op.outcome(), Some(Err(Error::LinkCreationFailed(b"dst".to_vec()))));
}

#[test]
fn without_flags_nothing_is_verified_or_removed() {
    let op = LinkOperation::start(b"target", b"out/dst", false, false).unwrap();
    let (actions, _) = drive(op, &[Event::Succeeded]);
    assert_eq!(
        actions[1],
        Some(Action::CreateLink { source: b"target".to_vec(), destination: b"out/dst".to_vec() })
    );
}

#[test]
fn an_event_that_does_not_answer_changes_nothing() {
    let op = LinkOperation::start(b"target", b"out/dst", true, true).unwrap();
    let op = op.step(inspected(None, None));
    assert_eq!(op.stage(), Stage::CreateParents);
    let op = op.step(Event::Succeeded).step(Event::Succeeded);
    assert_eq!(op.stage(), Stage::Inspect);
    let op = op.step(Event::Succeeded);
    assert_eq!(op.stage(), Stage::Inspect);
    let op = op.step(Event::Failed);
    assert_eq!(op.stage(), Stage::Inspect);
    assert_eq!(
        op.pending(),
        Some(Action::Inspect { source: b"target".to_vec(), destination: b"out/dst".to_vec() })
    );
}

#[test]
fn a_finished_operation_stays_finished() {
    let op = LinkOperation::start(b"target", b"dst", false, false).unwrap();
    let op = op.step(Event::Succeeded).step(Event::Succeeded);
    assert_eq!(op.stage(), Stage::Done);
    for event in [Event::Succeeded, Event::Failed, inspected(None, None)] {
        let op = LinkOperation::start(b"target", b"dst", false, false).unwrap();
        let op = op.step(Event::Succeeded).step(Event::Succeeded).step(event);
        assert_eq!(op.stage(), Stage::Done);
        assert_eq!(op.pending(), None);
        assert_eq!(op.outcome(), Some(Ok(())));
    }
}

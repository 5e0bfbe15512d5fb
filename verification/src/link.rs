//! Making the link, step by step.
//!
//! The steps are: create the directories above the destination, check that
//! the link will point at something, remove what is in the way, create the
//! link. Each step works on the file system, which this crate does not touch.
//! So a [`LinkOperation`] says which [`Action`] is due, the caller carries it
//! out and reports an [`Event`], and the operation moves on or fails.

use crate::errors::{Error, ErrorKind, ErrorView};
use crate::identity::{identity_equal, spec_removal, FileStatus, PathExt, PathExtView, Removal};
use crate::path::{
    ends_with_separator, has_root, is_normal_component, is_relative, join,
    lemma_parent_after_directory, lemma_parent_of_component, parent, spec_join, spec_parent,
    trimmed_len,
};
use crate::resolve::{expand_destination, spec_expand_destination};
use vstd::prelude::*;
use vstd::slice::slice_to_vec;

verus! {

/// The path whose existence shows that a link at `dst` to `src` will point at
/// something: a relative `src` is seen from the directory of `dst`, since that
/// is where the link will be followed from; an absolute `src` stands for
/// itself. A `dst` without a parent leaves a relative `src` as it is.
pub open spec fn spec_verification_path(src: Seq<u8>, dst: Seq<u8>) -> Seq<u8> {
    if has_root(src) {
        src
    } else {
        match spec_parent(dst) {
            Some(dir) => spec_join(dir, src),
            None => src,
        }
    }
}

/// The path to look for before linking to `src` at `dst`.
pub fn verification_path(src: &[u8], dst: &[u8]) -> (r: Vec<u8>)
    ensures
        r@ == spec_verification_path(src@, dst@),
{
    if is_relative(src) {
        match parent(dst) {
            Some(dir) => join(dir, src),
            None => slice_to_vec(src),
        }
    } else {
        slice_to_vec(src)
    }
}

/// At a destination that is a bare file name, the source is looked for as
/// it is.
pub proof fn lemma_verification_path_of_bare_name(src: Seq<u8>, dst: Seq<u8>)
    requires
        is_normal_component(dst),
    ensures
        spec_verification_path(src, dst) == src,
{
    lemma_parent_of_component(dst);
    assert(Seq::<u8>::empty() + src =~= src);
}

/// What becomes of a destination that is to make way for a link to `src`:
/// if both are one file, nothing is removed and the answer is
/// [`ErrorView::SameFile`]; else the destination is removed in the way its
/// kind asks for.
pub open spec fn spec_remove_dst_if_not_src(src: PathExtView, dst: PathExtView) -> Result<
    Removal,
    ErrorView,
> {
    if identity_equal(src.status, dst.status) {
        Err(ErrorView::SameFile { source: src.path, destination: dst.path })
    } else {
        match spec_removal(dst.status) {
            Some(removal) => Ok(removal),
            None => Err(ErrorView::UnknownFileType(dst.path)),
        }
    }
}

/// Tells how to remove `dst` so that a link to `src` can take its place,
/// and refuses where that would remove `src` itself.
pub fn remove_dst_if_not_src(src: &PathExt, dst: &PathExt) -> (r: Result<Removal, Error>)
    ensures
        match r {
            Ok(removal) => spec_remove_dst_if_not_src(src@, dst@) == Ok::<Removal, ErrorView>(
                removal,
            ),
            Err(e) => spec_remove_dst_if_not_src(src@, dst@) == Err::<Removal, ErrorView>(e@),
        },
{
    if src != dst {
        dst.remove()
    } else {
        Err(
            Error::SameFile {
                source: slice_to_vec(src.path()),
                destination: slice_to_vec(dst.path()),
            },
        )
    }
}

/// How far a link operation has come: the step that is due, or how it ended.
#[derive(Debug, Clone, Copy, PartialEq, Eq, Structural)]
pub enum Stage {
    /// The directories above the destination are to be created.
    CreateParents,
    /// The target of the link is to be looked for.
    VerifySource,
    /// Source and destination are to be looked at.
    Inspect,
    /// The file or symbolic link at the destination is to be deleted.
    RemoveFile,
    /// The directory at the destination is to be deleted.
    RemoveDirectory,
    /// The link is to be created.
    CreateLink,
    /// The link has been created.
    Done,
    /// A step has failed; no further step is taken.
    Failed(ErrorKind),
}

impl Stage {
    /// Whether the operation has ended, well or not.
    pub open spec fn is_finished(self) -> bool {
        self is Done || self is Failed
    }

    /// The place of a stage in the order of the steps.
    pub open spec fn rank(self) -> nat {
        match self {
            Stage::CreateParents => 1,
            Stage::VerifySource => 2,
            Stage::Inspect => 3,
            Stage::RemoveFile => 4,
            Stage::RemoveDirectory => 4,
            Stage::CreateLink => 5,
            Stage::Done => 6,
            Stage::Failed(_) => 6,
        }
    }
}

/// What the caller is asked to do to the file system.
#[derive(Debug, Clone, PartialEq, Eq)]
pub enum Action {
    /// Create the directory and every missing directory above it.
    CreateDirectories(Vec<u8>),
    /// Find out whether the path exists, following symbolic links.
    CheckExists(Vec<u8>),
    /// Look at both paths without following symbolic links.
    Inspect { source: Vec<u8>, destination: Vec<u8> },
    /// Delete the one file or symbolic link.
    RemoveFile(Vec<u8>),
    /// Delete the directory if it is empty.
    RemoveDirectory(Vec<u8>),
    /// Create a symbolic link at `destination` that holds `source` as given.
    CreateLink { source: Vec<u8>, destination: Vec<u8> },
}

/// The mathematical value of an [`Action`].
pub ghost enum ActionView {
    CreateDirectories(Seq<u8>),
    CheckExists(Seq<u8>),
    Inspect { source: Seq<u8>, destination: Seq<u8> },
    RemoveFile(Seq<u8>),
    RemoveDirectory(Seq<u8>),
    CreateLink { source: Seq<u8>, destination: Seq<u8> },
}

impl View for Action {
    type V = ActionView;

    open spec fn view(&self) -> ActionView {
        match self {
            Action::CreateDirectories(p) => ActionView::CreateDirectories(p@),
            Action::CheckExists(p) => ActionView::CheckExists(p@),
            Action::Inspect { source, destination } => ActionView::Inspect {
                source: source@,
                destination: destination@,
            },
            Action::RemoveFile(p) => ActionView::RemoveFile(p@),
            Action::RemoveDirectory(p) => ActionView::RemoveDirectory(p@),
            Action::CreateLink { source, destination } => ActionView::CreateLink {
                source: source@,
                destination: destination@,
            },
        }
    }
}

/// What the caller reports of the action that was due.
#[derive(Debug, Clone, Copy, PartialEq, Eq)]
pub enum Event {
    /// The action was carried out; for [`Action::CheckExists`], the path exists.
    Succeeded,
    /// The action could not be carried out; for [`Action::CheckExists`], the
    /// path does not exist.
    Failed,
    /// What the looks of [`Action::Inspect`] have shown; `None` for a path at
    /// which nothing was found or the look failed.
    Inspected { source: Option<FileStatus>, destination: Option<FileStatus> },
}

/// The mathematical value of a [`LinkOperation`].
pub ghost struct LinkState {
    /// The target of the link, as given.
    pub source: Seq<u8>,
    /// Where the link goes, already expanded.
    pub destination: Seq<u8>,
    /// Whether the target is looked for before the link is made.
    pub verify: bool,
    /// Whether what is at the destination is removed.
    pub force: bool,
    pub stage: Stage,
}

impl LinkState {
    /// An operation never waits for directories that the destination does
    /// not have.
    pub open spec fn wf(self) -> bool {
        self.stage is CreateParents ==> spec_parent(self.destination) is Some
    }

    /// The stage that follows the looking for the target.
    pub open spec fn after_verification(self) -> Stage {
        if self.force {
            Stage::Inspect
        } else {
            Stage::CreateLink
        }
    }

    /// The stage that follows the creating of the directories.
    pub open spec fn after_parents(self) -> Stage {
        if self.verify {
            Stage::VerifySource
        } else {
            self.after_verification()
        }
    }

    /// The stage that an operation starts in.
    pub open spec fn first_stage(self) -> Stage {
        if spec_parent(self.destination) is Some {
            Stage::CreateParents
        } else {
            self.after_parents()
        }
    }

    /// The stage that follows the looks at source and destination.
    pub open spec fn after_inspection(
        self,
        source: Option<FileStatus>,
        destination: Option<FileStatus>,
    ) -> Stage {
        match spec_remove_dst_if_not_src(
            PathExtView { path: self.source, status: source },
            PathExtView { path: self.destination, status: destination },
        ) {
            Ok(Removal::Nothing) => Stage::CreateLink,
            Ok(Removal::File) => Stage::RemoveFile,
            Ok(Removal::Directory) => Stage::RemoveDirectory,
            Err(e) => Stage::Failed(e.kind()),
        }
    }

    /// The stage that `event` leads to. An event that does not answer the
    /// action that is due changes nothing.
    pub open spec fn next_stage(self, event: Event) -> Stage {
        match (self.stage, event) {
            (Stage::CreateParents, Event::Succeeded) => self.after_parents(),
            (Stage::CreateParents, Event::Failed) => Stage::Failed(
                ErrorKind::DirectoryCreationFailed,
            ),
            (Stage::VerifySource, Event::Succeeded) => self.after_verification(),
            (Stage::VerifySource, Event::Failed) => Stage::Failed(ErrorKind::SourceMissing),
            (Stage::Inspect, Event::Inspected { source, destination }) => self.after_inspection(
                source,
                destination,
            ),
            (Stage::RemoveFile, Event::Succeeded) => Stage::CreateLink,
            (Stage::RemoveFile, Event::Failed) => Stage::Failed(ErrorKind::RemovalFailed),
            (Stage::RemoveDirectory, Event::Succeeded) => Stage::CreateLink,
            (Stage::RemoveDirectory, Event::Failed) => Stage::Failed(ErrorKind::RemovalFailed),
            (Stage::CreateLink, Event::Succeeded) => Stage::Done,
            (Stage::CreateLink, Event::Failed) => Stage::Failed(ErrorKind::LinkCreationFailed),
            _ => self.stage,
        }
    }

    /// The operation after `event`.
    pub open spec fn step(self, event: Event) -> LinkState {
        LinkState { stage: self.next_stage(event), ..self }
    }

    /// The action that is due, if the operation has not ended.
    pub open spec fn pending(self) -> Option<ActionView> {
        match self.stage {
            Stage::CreateParents => Some(
                ActionView::CreateDirectories(spec_parent(self.destination)->0),
            ),
            Stage::VerifySource => Some(
                ActionView::CheckExists(spec_verification_path(self.source, self.destination)),
            ),
            Stage::Inspect => Some(
                ActionView::Inspect { source: self.source, destination: self.destination },
            ),
            Stage::RemoveFile => Some(ActionView::RemoveFile(self.destination)),
            Stage::RemoveDirectory => Some(ActionView::RemoveDirectory(self.destination)),
            Stage::CreateLink => Some(
                ActionView::CreateLink { source: self.source, destination: self.destination },
            ),
            Stage::Done => None,
            Stage::Failed(_) => None,
        }
    }

    /// The failure of the given kind, with the paths of this operation that
    /// it concerns.
    pub open spec fn error(self, kind: ErrorKind) -> ErrorView {
        match kind {
            ErrorKind::NoBasename => ErrorView::NoBasename(self.source),
            ErrorKind::DirectoryCreationFailed => ErrorView::DirectoryCreationFailed(
                match spec_parent(self.destination) {
                    Some(dir) => dir,
                    None => self.destination,
                },
            ),
            ErrorKind::SourceMissing => ErrorView::SourceMissing(
                spec_verification_path(self.source, self.destination),
            ),
            ErrorKind::SameFile => ErrorView::SameFile {
                source: self.source,
                destination: self.destination,
            },
            ErrorKind::UnknownFileType => ErrorView::UnknownFileType(self.destination),
            ErrorKind::RemovalFailed => ErrorView::RemovalFailed(self.destination),
            ErrorKind::LinkCreationFailed => ErrorView::LinkCreationFailed(self.destination),
        }
    }

    /// How the operation ended, if it has.
    pub open spec fn outcome(self) -> Option<Result<(), ErrorView>> {
        match self.stage {
            Stage::Done => Some(Ok(())),
            Stage::Failed(kind) => Some(Err(self.error(kind))),
            _ => None,
        }
    }
}

/// The operation after each of `events` in turn.
pub open spec fn run(state: LinkState, events: Seq<Event>) -> LinkState
    decreases events.len(),
{
    if events.len() == 0 {
        state
    } else {
        run(state, events.drop_last()).step(events.last())
    }
}

/// An action is due exactly while the operation has not ended, and it has
/// an outcome exactly once it has.
pub proof fn lemma_pending_until_finished(state: LinkState)
    ensures
        state.pending() is Some <==> !state.stage.is_finished(),
        state.outcome() is Some <==> state.stage.is_finished(),
{
}

/// Once an operation has ended, no event changes it.
pub proof fn lemma_finished_is_final(state: LinkState, event: Event)
    requires
        state.stage.is_finished(),
    ensures
        state.step(event) == state,
{
}

/// The steps come in one order: an event takes the operation to a later
/// stage or changes nothing. What was asked for stays what it was, and a
/// well-formed operation stays well-formed.
pub proof fn lemma_step_advances(state: LinkState, event: Event)
    ensures
        state.step(event) == state || state.step(event).stage.rank() > state.stage.rank(),
        state.step(event).source == state.source,
        state.step(event).destination == state.destination,
        state.step(event).verify == state.verify,
        state.step(event).force == state.force,
        state.wf() ==> state.step(event).wf(),
{
}

/// An action that fails ends the operation with an error: no later step is
/// taken. The looks at source and destination are no such action: a look
/// that fails is reported as a path at which nothing was found.
pub proof fn lemma_failure_aborts(state: LinkState)
    requires
        !state.stage.is_finished(),
        !(state.stage is Inspect),
    ensures
        state.step(Event::Failed).stage is Failed,
        state.step(Event::Failed).pending() is None,
        state.step(Event::Failed).outcome() is Some,
        state.step(Event::Failed).outcome()->0 is Err,
{
}

/// Where source and destination are one file, the operation ends with
/// [`ErrorView::SameFile`] and asks for nothing more: the destination is
/// neither removed nor linked.
pub proof fn lemma_same_file_is_refused(
    state: LinkState,
    source: Option<FileStatus>,
    destination: Option<FileStatus>,
)
    requires
        state.stage is Inspect,
        identity_equal(source, destination),
    ensures
        state.step(Event::Inspected { source, destination }).outcome() == Some(
            Err::<(), ErrorView>(
                ErrorView::SameFile { source: state.source, destination: state.destination },
            ),
        ),
        state.step(Event::Inspected { source, destination }).pending() is None,
{
}

/// Whatever is reported, an operation stays well-formed and keeps what was
/// asked for; one that started without `verify` never looks for the target,
/// and one that started without `force` never looks at the destination nor
/// removes it.
pub proof fn lemma_run_respects_flags(start: LinkState, events: Seq<Event>)
    requires
        start.stage == start.first_stage(),
    ensures
        run(start, events).wf(),
        run(start, events).source == start.source,
        run(start, events).destination == start.destination,
        run(start, events).verify == start.verify,
        run(start, events).force == start.force,
        !start.verify ==> !(run(start, events).stage is VerifySource),
        !start.force ==> !(run(start, events).stage is Inspect) && !(run(start, events).stage
            is RemoveFile) && !(run(start, events).stage is RemoveDirectory),
    decreases events.len(),
{
    if events.len() > 0 {
        lemma_run_respects_flags(start, events.drop_last());
        lemma_step_advances(run(start, events.drop_last()), events.last());
    }
}

/// Where the link goes into a directory, that directory is seen to first:
/// an operation whose destination is a file name behind a directory prefix
/// starts by asking for the prefix, without the separators and `.` segments
/// it ends in, to be created.
pub proof fn lemma_directory_is_created_first(state: LinkState, dir: Seq<u8>, name: Seq<u8>)
    requires
        ends_with_separator(dir),
        is_normal_component(name),
        state.destination == dir + name,
        state.stage == state.first_stage(),
    ensures
        state.pending() == Some(
            ActionView::CreateDirectories(dir.take(trimmed_len(dir, dir.len() as int))),
        ),
{
    lemma_parent_after_directory(dir, name);
}

/// The link is made last: the one event that ends an operation well is the
/// report that the link was created.
pub proof fn lemma_done_only_after_link(state: LinkState, event: Event)
    requires
        !(state.stage is Done),
        state.step(event).stage is Done,
    ensures
        state.stage is CreateLink,
        event is Succeeded,
{
}

/// The making of one link, from the expanded destination on.
#[derive(Debug)]
pub struct LinkOperation {
    source: Vec<u8>,
    destination: Vec<u8>,
    verify: bool,
    force: bool,
    stage: Stage,
}

impl View for LinkOperation {
    type V = LinkState;

    closed spec fn view(&self) -> LinkState {
        LinkState {
            source: self.source@,
            destination: self.destination@,
            verify: self.verify,
            force: self.force,
            stage: self.stage,
        }
    }
}

impl LinkOperation {
    #[verifier::type_invariant]
    spec fn well_formed(self) -> bool {
        self@.wf()
    }

    /// Starts the making of a link to `source` at what `raw_destination`
    /// expands to. With `verify`, the target is looked for before the link is
    /// made; with `force`, what is at the destination is removed. Fails with
    /// [`Error::NoBasename`] exactly when the destination cannot be expanded.
    pub fn start(source: &[u8], raw_destination: &[u8], verify: bool, force: bool) -> (r: Result<
        LinkOperation,
        Error,
    >)
        ensures
            match r {
                Ok(op) => {
                    &&& spec_expand_destination(source@, raw_destination@) == Some(
                        op@.destination,
                    )
                    &&& op@.source == source@
                    &&& op@.verify == verify
                    &&& op@.force == force
                    &&& op@.stage == op@.first_stage()
                    &&& op@.wf()
                },
                Err(e) => {
                    &&& spec_expand_destination(source@, raw_destination@) is None
                    &&& e@ == ErrorView::NoBasename(source@)
                },
            },
    {
        match expand_destination(source, raw_destination) {
            Err(e) => Err(e),
            Ok(destination) => {
                let stage = if parent(destination.as_slice()).is_some() {
                    Stage::CreateParents
                } else if verify {
                    Stage::VerifySource
                } else if force {
                    Stage::Inspect
                } else {
                    Stage::CreateLink
                };
                Ok(LinkOperation { source: slice_to_vec(source), destination, verify, force, stage })
            },
        }
    }

    /// The target of the link, as given.
    pub fn source(&self) -> (r: &[u8])
        ensures
            r@ == self@.source,
    {
        self.source.as_slice()
    }

    /// Where the link goes.
    pub fn destination(&self) -> (r: &[u8])
        ensures
            r@ == self@.destination,
    {
        self.destination.as_slice()
    }

    /// How far the operation has come.
    pub fn stage(&self) -> (r: Stage)
        ensures
            r == self@.stage,
            self@.wf(),
    {
        proof {
            use_type_invariant(self);
        }
        self.stage
    }

    /// The action that is due; none once the operation has ended.
    pub fn pending(&self) -> (r: Option<Action>)
        ensures
            match r {
                Some(action) => self@.pending() == Some(action@),
                None => self@.pending() is None,
            },
    {
        proof {
            use_type_invariant(self);
        }
        match self.stage {
            Stage::CreateParents => match parent(self.destination.as_slice()) {
                Some(dir) => Some(Action::CreateDirectories(slice_to_vec(dir))),
                None => None,
            },
            Stage::VerifySource => Some(
                Action::CheckExists(
                    verification_path(self.source.as_slice(), self.destination.as_slice()),
                ),
            ),
            Stage::Inspect => Some(
                Action::Inspect {
                    source: slice_to_vec(self.source.as_slice()),
                    destination: slice_to_vec(self.destination.as_slice()),
                },
            ),
            Stage::RemoveFile => Some(
                Action::RemoveFile(slice_to_vec(self.destination.as_slice())),
            ),
            Stage::RemoveDirectory => Some(
                Action::RemoveDirectory(slice_to_vec(self.destination.as_slice())),
            ),
            Stage::CreateLink => Some(
                Action::CreateLink {
                    source: slice_to_vec(self.source.as_slice()),
                    destination: slice_to_vec(self.destination.as_slice()),
                },
            ),
            Stage::Done => None,
            Stage::Failed(_) => None,
        }
    }

    /// Takes in what the caller reports of the action that was due, and
    /// moves on to the next step or fails. An event that does not answer that
    /// action changes nothing, and neither does any event once the operation
    /// has ended.
    pub fn step(self, event: Event) -> (r: LinkOperation)
        ensures
            r@ == self@.step(event),
            r@.wf(),
    {
        proof {
            use_type_invariant(&self);
        }
        let after_verification = if self.force {
            Stage::Inspect
        } else {
            Stage::CreateLink
        };
        let after_parents = if self.verify {
            Stage::VerifySource
        } else {
            after_verification
        };
        let stage = match (self.stage, event) {
            (Stage::CreateParents, Event::Succeeded) => after_parents,
            (Stage::CreateParents, Event::Failed) => Stage::Failed(
                ErrorKind::DirectoryCreationFailed,
            ),
            (Stage::VerifySource, Event::Succeeded) => after_verification,
            (Stage::VerifySource, Event::Failed) => Stage::Failed(ErrorKind::SourceMissing),
            (Stage::Inspect, Event::Inspected { source, destination }) => {
                let src = PathExt::new(slice_to_vec(self.source.as_slice()), source);
                let dst = PathExt::new(slice_to_vec(self.destination.as_slice()), destination);
                match remove_dst_if_not_src(&src, &dst) {
                    Ok(Removal::Nothing) => Stage::CreateLink,
                    Ok(Removal::File) => Stage::RemoveFile,
                    Ok(Removal::Directory) => Stage::RemoveDirectory,
                    Err(e) => Stage::Failed(e.kind()),
                }
            },
            (Stage::RemoveFile, Event::Succeeded) => Stage::CreateLink,
            (Stage::RemoveFile, Event::Failed) => Stage::Failed(ErrorKind::RemovalFailed),
            (Stage::RemoveDirectory, Event::Succeeded) => Stage::CreateLink,
            (Stage::RemoveDirectory, Event::Failed) => Stage::Failed(ErrorKind::RemovalFailed),
            (Stage::CreateLink, Event::Succeeded) => Stage::Done,
            (Stage::CreateLink, Event::Failed) => Stage::Failed(ErrorKind::LinkCreationFailed),
            (stage, _) => stage,
        };
        LinkOperation {
            source: self.source,
            destination: self.destination,
            verify: self.verify,
            force: self.force,
            stage,
        }
    }

    /// How the operation ended; none while an action is due.
    pub fn outcome(&self) -> (r: Option<Result<(), Error>>)
        ensures
            match r {
                Some(Ok(_)) => self@.outcome() == Some(Ok::<(), ErrorView>(())),
                Some(Err(e)) => self@.outcome() == Some(Err::<(), ErrorView>(e@)),
                None => self@.outcome() is None,
            },
    {
        match self.stage {
            Stage::Done => Some(Ok(())),
            Stage::Failed(kind) => Some(Err(self.failure(kind))),
            _ => None,
        }
    }

    fn failure(&self, kind: ErrorKind) -> (e: Error)
        ensures
            e@ == self@.error(kind),
    {
        let source = self.source.as_slice();
        let destination = self.destination.as_slice();
        match kind {
            ErrorKind::NoBasename => Error::NoBasename(slice_to_vec(source)),
            ErrorKind::DirectoryCreationFailed => match parent(destination) {
                Some(dir) => Error::DirectoryCreationFailed(slice_to_vec(dir)),
                None => Error::DirectoryCreationFailed(slice_to_vec(destination)),
            },
            ErrorKind::SourceMissing => Error::SourceMissing(
                verification_path(source, destination),
            ),
            ErrorKind::SameFile => Error::SameFile {
                source: slice_to_vec(source),
                destination: slice_to_vec(destination),
            },
            ErrorKind::UnknownFileType => Error::UnknownFileType(slice_to_vec(destination)),
            ErrorKind::RemovalFailed => Error::RemovalFailed(slice_to_vec(destination)),
            ErrorKind::LinkCreationFailed => Error::LinkCreationFailed(slice_to_vec(destination)),
        }
    }
}

} // verus!

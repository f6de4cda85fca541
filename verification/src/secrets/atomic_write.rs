//! Replacing a file as a whole: a temporary file is created beside it, filled,
//! and renamed over it.
//!
//! [`AtomicWrite`] decides what is to be done next; its caller does it and
//! reports how it went.

use crate::paths::{join, joined, lemma_joined_injective, SEPARATOR};
use crate::secrets::aead::{number_drawn, random_u64};
use crate::secrets::error::{IoErrorKind, IoFailure, SecretError, SecretErrorView};
use crate::text::{
    display_bytes, law_numeral_spells_number, lossy_text, numeral, numeral_text, numeral_value,
};
use vstd::prelude::*;
use vstd::string::*;
use vstd::utf8::*;

verus! {

/// How many temporary names are tried before giving up.
pub const MAX_ATTEMPTS: u32 = 100;

/// The permission bits of a temporary file: read and write for its owner.
pub const FILE_MODE: u32 = 0o600;

/// How an action went.
#[derive(Debug, PartialEq, Eq)]
pub enum WriteEvent {
    Done,
    Failed(IoFailure),
}

/// What a [`WriteEvent`] holds.
pub enum WriteEventView {
    Done,
    Failed(IoErrorKind, Seq<char>),
}

impl View for WriteEvent {
    type V = WriteEventView;

    open spec fn view(&self) -> WriteEventView {
        match self {
            WriteEvent::Done => WriteEventView::Done,
            WriteEvent::Failed(failure) => WriteEventView::Failed(failure.kind, failure.message@),
        }
    }
}

/// What is to be done next.
#[derive(Debug, PartialEq, Eq)]
pub enum WriteAction<'a> {
    /// Create `path`, which must not exist, with permission bits `mode`.
    Create { path: &'a [u8], mode: u32 },
    /// Write `data` to the file just created at `path` and flush it to disk.
    Write { path: &'a [u8], data: &'a [u8] },
    /// Rename `from` to `to`, replacing what is there.
    Rename { from: &'a [u8], to: &'a [u8] },
    /// Remove `path`, whether or not that succeeds.
    Remove { path: &'a [u8] },
    /// Nothing: the write succeeded.
    Succeed,
    /// Nothing: the write failed, for this reason.
    Fail(&'a str),
}

/// What a [`WriteAction`] holds.
pub enum WriteActionView {
    Create(Seq<u8>, u32),
    Write(Seq<u8>, Seq<u8>),
    Rename(Seq<u8>, Seq<u8>),
    Remove(Seq<u8>),
    Succeed,
    Fail(Seq<char>),
}

impl<'a> View for WriteAction<'a> {
    type V = WriteActionView;

    open spec fn view(&self) -> WriteActionView {
        match self {
            WriteAction::Create { path, mode } => WriteActionView::Create(path@, *mode),
            WriteAction::Write { path, data } => WriteActionView::Write(path@, data@),
            WriteAction::Rename { from, to } => WriteActionView::Rename(from@, to@),
            WriteAction::Remove { path } => WriteActionView::Remove(path@),
            WriteAction::Succeed => WriteActionView::Succeed,
            WriteAction::Fail(message) => WriteActionView::Fail(message@),
        }
    }
}

/// How far a write has come.
enum Stage {
    /// The temporary file is to be created; this many names were taken.
    Creating(u32),
    Writing,
    Renaming,
    /// The temporary file is to be removed, and the write to fail.
    Discarding(String),
    Failed(String),
    Succeeded,
}

/// How far a write has come.
pub enum StageView {
    Creating(u32),
    Writing,
    Renaming,
    Discarding(Seq<char>),
    Failed(Seq<char>),
    Succeeded,
}

/// A write in progress.
pub struct AtomicWrite {
    path: Vec<u8>,
    dir: Vec<u8>,
    data: Vec<u8>,
    tmp: Vec<u8>,
    stage: Stage,
}

/// What an [`AtomicWrite`] holds: the file to replace, the directory that it
/// is in, its new contents, the temporary file, and how far the write has
/// come.
pub struct AtomicWriteView {
    pub path: Seq<u8>,
    pub dir: Seq<u8>,
    pub data: Seq<u8>,
    pub tmp: Seq<u8>,
    pub stage: StageView,
}

impl View for AtomicWrite {
    type V = AtomicWriteView;

    closed spec fn view(&self) -> AtomicWriteView {
        AtomicWriteView {
            path: self.path@,
            dir: self.dir@,
            data: self.data@,
            tmp: self.tmp@,
            stage: match self.stage {
                Stage::Creating(attempt) => StageView::Creating(attempt),
                Stage::Writing => StageView::Writing,
                Stage::Renaming => StageView::Renaming,
                Stage::Discarding(message) => StageView::Discarding(message@),
                Stage::Failed(message) => StageView::Failed(message@),
                Stage::Succeeded => StageView::Succeeded,
            },
        }
    }
}

/// The temporary file in `dir` whose name ends in `suffix`.
pub open spec fn temp_path(dir: Seq<u8>, suffix: u64) -> Seq<u8> {
    joined(dir, encode_utf8(".secret-tmp-"@ + numeral(suffix as nat, 16)))
}

/// Why no temporary file could be created in `dir`.
pub open spec fn create_failure(dir: Seq<u8>, reason: Seq<char>) -> Seq<char> {
    "failed to create temp file in "@ + lossy_text(dir) + ": "@ + reason
}

/// Why the temporary file `tmp` could not be written.
pub open spec fn write_failure(tmp: Seq<u8>, reason: Seq<char>) -> Seq<char> {
    "failed to write temp file "@ + lossy_text(tmp) + ": "@ + reason
}

/// Why the temporary file `tmp` could not be renamed to `path`.
pub open spec fn rename_failure(tmp: Seq<u8>, path: Seq<u8>, reason: Seq<char>) -> Seq<char> {
    "failed to rename "@ + lossy_text(tmp) + " to "@ + lossy_text(path) + ": "@ + reason
}

/// Why a file without a directory cannot be replaced.
pub open spec fn no_parent_failure(path: Seq<u8>) -> Seq<char> {
    "secret path "@ + lossy_text(path) + " has no parent directory"@
}

impl AtomicWriteView {
    /// The write of `data` to `path` in `dir`, with a temporary name that ends
    /// in `suffix`.
    pub open spec fn start(path: Seq<u8>, dir: Seq<u8>, data: Seq<u8>, suffix: u64) -> Self {
        AtomicWriteView {
            path,
            dir,
            data,
            tmp: temp_path(dir, suffix),
            stage: StageView::Creating(0),
        }
    }

    /// What is to be done in this state.
    pub open spec fn action(self) -> WriteActionView {
        match self.stage {
            StageView::Creating(_) => WriteActionView::Create(self.tmp, FILE_MODE),
            StageView::Writing => WriteActionView::Write(self.tmp, self.data),
            StageView::Renaming => WriteActionView::Rename(self.tmp, self.path),
            StageView::Discarding(_) => WriteActionView::Remove(self.tmp),
            StageView::Failed(message) => WriteActionView::Fail(message),
            StageView::Succeeded => WriteActionView::Succeed,
        }
    }

    /// The state after the action went as `event` says. Where another
    /// temporary name is needed, it ends in `suffix`.
    pub open spec fn next(self, event: WriteEventView, suffix: u64) -> Self {
        match (self.stage, event) {
            (StageView::Creating(_), WriteEventView::Done) => self.at(StageView::Writing),
            (StageView::Creating(attempt), WriteEventView::Failed(kind, reason)) => {
                if kind != IoErrorKind::AlreadyExists {
                    self.at(StageView::Failed(create_failure(self.dir, reason)))
                } else if attempt + 1 < MAX_ATTEMPTS {
                    AtomicWriteView {
                        tmp: temp_path(self.dir, suffix),
                        stage: StageView::Creating((attempt + 1) as u32),
                        ..self
                    }
                } else {
                    self.at(StageView::Failed(create_failure(
                        self.dir,
                        "could not create a unique temp file after 100 attempts"@,
                    )))
                }
            },
            (StageView::Writing, WriteEventView::Done) => self.at(StageView::Renaming),
            (StageView::Writing, WriteEventView::Failed(_, reason)) => self.at(
                StageView::Discarding(write_failure(self.tmp, reason)),
            ),
            (StageView::Renaming, WriteEventView::Done) => self.at(StageView::Succeeded),
            (StageView::Renaming, WriteEventView::Failed(_, reason)) => self.at(
                StageView::Discarding(rename_failure(self.tmp, self.path, reason)),
            ),
            (StageView::Discarding(message), _) => self.at(StageView::Failed(message)),
            (StageView::Failed(_), _) => self,
            (StageView::Succeeded, _) => self,
        }
    }

    /// Whether another temporary name is needed, since this one is taken.
    pub open spec fn needs_name(self, event: WriteEventView) -> bool {
        self.stage is Creating && (event matches WriteEventView::Failed(kind, _) && kind
            == IoErrorKind::AlreadyExists)
    }

    /// This state at another stage.
    pub open spec fn at(self, stage: StageView) -> Self {
        AtomicWriteView { stage, ..self }
    }
}

/// The suffix of a temporary name for a random number: the number in
/// hexadecimal.
fn random_suffix(value: u64) -> (r: String)
    ensures
        r@ == numeral(value as nat, 16),
{
    numeral_text(value, 16)
}

/// The temporary file in `dir` whose name ends in `suffix`.
fn temp_file(dir: &[u8], suffix: u64) -> (r: Vec<u8>)
    ensures
        r@ == temp_path(dir@, suffix),
{
    let mut name = ".secret-tmp-".to_owned();
    name.append(random_suffix(suffix).as_str());
    join(dir, name.as_str().as_bytes())
}

impl AtomicWrite {
    /// Starts to replace `path` by `data`. `parent` is the directory of
    /// `path`, and the temporary name ends in `suffix`.
    pub fn begin_with(path: Vec<u8>, parent: Option<Vec<u8>>, data: Vec<u8>, suffix: u64) -> (r:
        Result<AtomicWrite, SecretError>)
        ensures
            match (r, parent) {
                (Ok(write), Some(dir)) => write@ == AtomicWriteView::start(
                    path@,
                    dir@,
                    data@,
                    suffix,
                ),
                (Err(error), None) => error@ == SecretErrorView::Other(no_parent_failure(path@)),
                _ => false,
            },
    {
        match parent {
            Some(dir) => {
                let tmp = temp_file(dir.as_slice(), suffix);
                Ok(AtomicWrite { path, dir, data, tmp, stage: Stage::Creating(0) })
            },
            None => {
                let mut message = "secret path ".to_owned();
                message.append(display_bytes(path.as_slice()).as_str());
                message.append(" has no parent directory");
                Err(SecretError::Other(message))
            },
        }
    }

    /// Starts to replace `path` by `data`, with a random temporary name.
    /// `parent` is the directory of `path`.
    pub fn begin(path: Vec<u8>, parent: Option<Vec<u8>>, data: Vec<u8>) -> (r: Result<
        AtomicWrite,
        SecretError,
    >)
        ensures
            match (r, parent) {
                (Ok(write), Some(dir)) => exists|suffix: u64|
                    number_drawn(suffix) && write@ == #[trigger] AtomicWriteView::start(
                        path@,
                        dir@,
                        data@,
                        suffix,
                    ),
                (Err(error), None) => error@ == SecretErrorView::Other(no_parent_failure(path@)),
                _ => false,
            },
    {
        AtomicWrite::begin_with(path, parent, data, random_u64())
    }

    /// What is to be done next.
    pub fn action(&self) -> (r: WriteAction<'_>)
        ensures
            r@ == self@.action(),
    {
        match &self.stage {
            Stage::Creating(_) => WriteAction::Create {
                path: self.tmp.as_slice(),
                mode: FILE_MODE,
            },
            Stage::Writing => WriteAction::Write {
                path: self.tmp.as_slice(),
                data: self.data.as_slice(),
            },
            Stage::Renaming => WriteAction::Rename {
                from: self.tmp.as_slice(),
                to: self.path.as_slice(),
            },
            Stage::Discarding(_) => WriteAction::Remove { path: self.tmp.as_slice() },
            Stage::Failed(message) => WriteAction::Fail(message.as_str()),
            Stage::Succeeded => WriteAction::Succeed,
        }
    }

    /// Why no temporary file could be created.
    fn create_failed(&self, reason: &str) -> (r: String)
        ensures
            r@ == create_failure(self@.dir, reason@),
    {
        let mut message = "failed to create temp file in ".to_owned();
        message.append(display_bytes(self.dir.as_slice()).as_str());
        message.append(": ");
        message.append(reason);
        message
    }

    /// Takes note of how the last action went. Where another temporary name is
    /// needed, it ends in `suffix`.
    pub fn next_with(self, event: WriteEvent, suffix: u64) -> (r: AtomicWrite)
        ensures
            r@ == self@.next(event@, suffix),
    {
        let mut write = self;
        let stage = match (&write.stage, event) {
            (Stage::Creating(_), WriteEvent::Done) => Stage::Writing,
            (Stage::Creating(attempt), WriteEvent::Failed(failure)) => {
                if failure.kind != IoErrorKind::AlreadyExists {
                    Stage::Failed(write.create_failed(failure.message.as_str()))
                } else if *attempt < MAX_ATTEMPTS - 1 {
                    let attempt: u32 = *attempt + 1;
                    write.tmp = temp_file(write.dir.as_slice(), suffix);
                    Stage::Creating(attempt)
                } else {
                    Stage::Failed(
                        write.create_failed(
                            "could not create a unique temp file after 100 attempts",
                        ),
                    )
                }
            },
            (Stage::Writing, WriteEvent::Done) => Stage::Renaming,
            (Stage::Writing, WriteEvent::Failed(failure)) => {
                let mut message = "failed to write temp file ".to_owned();
                message.append(display_bytes(write.tmp.as_slice()).as_str());
                message.append(": ");
                message.append(failure.message.as_str());
                Stage::Discarding(message)
            },
            (Stage::Renaming, WriteEvent::Done) => Stage::Succeeded,
            (Stage::Renaming, WriteEvent::Failed(failure)) => {
                let mut message = "failed to rename ".to_owned();
                message.append(display_bytes(write.tmp.as_slice()).as_str());
                message.append(" to ");
                message.append(display_bytes(write.path.as_slice()).as_str());
                message.append(": ");
                message.append(failure.message.as_str());
                Stage::Discarding(message)
            },
            (Stage::Discarding(message), _) => Stage::Failed(message.clone()),
            (Stage::Failed(message), _) => Stage::Failed(message.clone()),
            (Stage::Succeeded, _) => Stage::Succeeded,
        };
        write.stage = stage;
        write
    }

    /// Takes note of how the last action went. Another temporary name, where
    /// one is needed, is random.
    pub fn next(self, event: WriteEvent) -> (r: AtomicWrite)
        ensures
            exists|suffix: u64|
                (self@.needs_name(event@) ==> number_drawn(suffix)) && r@ == #[trigger] self@.next(
                    event@,
                    suffix,
                ),
    {
        let taken = match (&self.stage, &event) {
            (Stage::Creating(_), WriteEvent::Failed(failure)) => failure.kind
                == IoErrorKind::AlreadyExists,
            _ => false,
        };
        let suffix: u64 = if taken {
            random_u64()
        } else {
            0
        };
        self.next_with(event, suffix)
    }
}

/// A regular file: what it holds, and the permission bits that it was created
/// with.
pub struct FileView {
    pub contents: Seq<u8>,
    pub mode: u32,
}

/// The regular files of a file system by their paths.
pub type Files = Map<Seq<u8>, FileView>;

/// `files` with other contents in the file at `path`.
pub open spec fn with_contents(files: Files, path: Seq<u8>, contents: Seq<u8>) -> Files {
    files.insert(path, FileView { contents, mode: files[path].mode })
}

/// Whether carrying out `action` with the outcome `event` can turn the files
/// `before` into `after`. A failed write may leave anything in the file.
pub open spec fn performed(
    before: Files,
    action: WriteActionView,
    event: WriteEventView,
    after: Files,
) -> bool {
    match (action, event) {
        (WriteActionView::Create(path, mode), WriteEventView::Done) => !before.dom().contains(path)
            && after == before.insert(path, FileView { contents: Seq::empty(), mode }),
        (WriteActionView::Write(path, data), WriteEventView::Done) => after == with_contents(
            before,
            path,
            data,
        ),
        (WriteActionView::Write(path, _), WriteEventView::Failed(_, _)) => exists|rest: Seq<u8>|
            after == #[trigger] with_contents(before, path, rest),
        (WriteActionView::Rename(from, to), WriteEventView::Done) => before.dom().contains(from)
            && after == before.remove(from).insert(to, before[from]),
        (WriteActionView::Remove(path), WriteEventView::Done) => after == before.remove(path),
        _ => after == before,
    }
}

/// One action of a write as it happened: its outcome, the suffix that was at
/// hand for another name, and the files afterwards.
pub struct WriteStep {
    pub event: WriteEventView,
    pub suffix: u64,
    pub files: Files,
}

/// Whether `steps` is how a write in the state `write` can go on from `files`.
pub open spec fn is_run(write: AtomicWriteView, files: Files, steps: Seq<WriteStep>) -> bool
    decreases steps.len(),
{
    steps.len() > 0 ==> {
        &&& performed(files, write.action(), steps[0].event, steps[0].files)
        &&& is_run(
            write.next(steps[0].event, steps[0].suffix),
            steps[0].files,
            steps.drop_first(),
        )
    }
}

/// The state after `steps`.
pub open spec fn state_after(write: AtomicWriteView, steps: Seq<WriteStep>) -> AtomicWriteView
    decreases steps.len(),
{
    if steps.len() == 0 {
        write
    } else {
        state_after(write.next(steps[0].event, steps[0].suffix), steps.drop_first())
    }
}

/// The files after `steps`.
pub open spec fn files_after(files: Files, steps: Seq<WriteStep>) -> Files {
    if steps.len() == 0 {
        files
    } else {
        steps.last().files
    }
}

/// Whether the removal of the temporary file is among `steps` and failed.
pub open spec fn removal_failed(write: AtomicWriteView, steps: Seq<WriteStep>) -> bool
    decreases steps.len(),
{
    steps.len() > 0 && ({
        ||| write.stage is Discarding && steps[0].event is Failed
        ||| removal_failed(write.next(steps[0].event, steps[0].suffix), steps.drop_first())
    })
}

/// Whether `path` is no temporary name in `dir`.
pub open spec fn not_temporary(path: Seq<u8>, dir: Seq<u8>) -> bool {
    forall|suffix: u64| #[trigger] temp_path(dir, suffix) != path
}

/// `files` with a file that its owner alone may read and write.
pub open spec fn with_private_file(files: Files, path: Seq<u8>, contents: Seq<u8>) -> Files {
    files.insert(path, FileView { contents, mode: FILE_MODE })
}

/// How the files stand to those that the write started from, `start`.
spec fn in_step(write: AtomicWriteView, start: Files, files: Files, kept: bool) -> bool {
    &&& not_temporary(write.path, write.dir)
    &&& exists|suffix: u64| write.tmp == #[trigger] temp_path(write.dir, suffix)
    &&& match write.stage {
        StageView::Creating(_) => files == start && !kept,
        StageView::Writing => !start.dom().contains(write.tmp) && files == with_private_file(
            start,
            write.tmp,
            Seq::empty(),
        ) && !kept,
        StageView::Renaming => !start.dom().contains(write.tmp) && files == with_private_file(
            start,
            write.tmp,
            write.data,
        ) && !kept,
        StageView::Discarding(_) => !start.dom().contains(write.tmp) && (exists|rest: Seq<u8>|
            files == #[trigger] with_private_file(start, write.tmp, rest)) && !kept,
        StageView::Failed(_) => if kept {
            !start.dom().contains(write.tmp) && exists|rest: Seq<u8>|
                files == #[trigger] with_private_file(start, write.tmp, rest)
        } else {
            files == start
        },
        StageView::Succeeded => files == with_private_file(start, write.path, write.data) && !kept,
    }
}

proof fn lemma_next_in_step(
    write: AtomicWriteView,
    start: Files,
    files: Files,
    kept: bool,
    step: WriteStep,
)
    requires
        in_step(write, start, files, kept),
        performed(files, write.action(), step.event, step.files),
    ensures
        in_step(
            write.next(step.event, step.suffix),
            start,
            step.files,
            kept || (write.stage is Discarding && step.event is Failed),
        ),
{
    let next = write.next(step.event, step.suffix);
    let suffix = if next.tmp == write.tmp {
        choose|suffix: u64| write.tmp == #[trigger] temp_path(write.dir, suffix)
    } else {
        step.suffix
    };
    assert(next.tmp == temp_path(next.dir, suffix));
    match write.stage {
        StageView::Writing => {
            match step.event {
                WriteEventView::Done => {
                    assert(step.files =~= with_private_file(start, next.tmp, next.data));
                },
                WriteEventView::Failed(_, _) => {
                    let rest = choose|rest: Seq<u8>|
                        step.files == #[trigger] with_contents(files, write.tmp, rest);
                    assert(step.files =~= with_private_file(start, write.tmp, rest));
                    assert(step.files == with_private_file(start, next.tmp, rest));
                },
            }
        },
        StageView::Renaming => {
            match step.event {
                WriteEventView::Done => {
                    assert(step.files =~= with_private_file(start, write.path, write.data));
                },
                WriteEventView::Failed(_, _) => {
                    assert(step.files =~= with_private_file(start, write.tmp, write.data));
                },
            }
        },
        StageView::Discarding(_) => {
            if step.event is Done {
                let rest = choose|rest: Seq<u8>| files == #[trigger] with_private_file(start, write.tmp, rest);
                assert(step.files =~= start);
            }
        },
        _ => {},
    }
}

proof fn lemma_run_in_step(
    write: AtomicWriteView,
    start: Files,
    files: Files,
    kept: bool,
    steps: Seq<WriteStep>,
)
    requires
        in_step(write, start, files, kept),
        is_run(write, files, steps),
    ensures
        in_step(
            state_after(write, steps),
            start,
            files_after(files, steps),
            kept || removal_failed(write, steps),
        ),
        state_after(write, steps).path == write.path,
        state_after(write, steps).dir == write.dir,
        state_after(write, steps).data == write.data,
    decreases steps.len(),
{
    if steps.len() > 0 {
        let step = steps[0];
        lemma_next_in_step(write, start, files, kept, step);
        lemma_run_in_step(
            write.next(step.event, step.suffix),
            start,
            step.files,
            kept || (write.stage is Discarding && step.event is Failed),
            steps.drop_first(),
        );
    }
}

/// The file that is replaced is whole at every moment of the write: it is as
/// it was before, or, once the write has succeeded, it holds all of the new
/// data, and its owner alone may read and write it. No other file changes but a
/// temporary one that was not there.
pub proof fn law_destination_is_whole(
    path: Seq<u8>,
    dir: Seq<u8>,
    data: Seq<u8>,
    suffix: u64,
    start: Files,
    steps: Seq<WriteStep>,
)
    requires
        not_temporary(path, dir),
        is_run(AtomicWriteView::start(path, dir, data, suffix), start, steps),
    ensures
        ({
            let write = state_after(AtomicWriteView::start(path, dir, data, suffix), steps);
            let files = files_after(start, steps);
            &&& write.stage is Succeeded ==> files == with_private_file(start, path, data)
            &&& write.stage !is Succeeded ==> {
                &&& files.dom().contains(path) == start.dom().contains(path)
                &&& start.dom().contains(path) ==> files[path] == start[path]
            }
            &&& forall|other: Seq<u8>|
                #![trigger files.dom().contains(other)]
                other != path && start.dom().contains(other) ==> files.dom().contains(other)
                    && files[other] == start[other]
            &&& forall|other: Seq<u8>|
                #![trigger files.dom().contains(other)]
                other != path && files.dom().contains(other) && !start.dom().contains(other)
                    ==> exists|suffix: u64| other == #[trigger] temp_path(dir, suffix)
        }),
{
    let write = AtomicWriteView::start(path, dir, data, suffix);
    lemma_run_in_step(write, start, start, false, steps);
}

/// A write that fails leaves the files as they were, unless its temporary file
/// could not be removed.
pub proof fn law_failure_changes_nothing(
    path: Seq<u8>,
    dir: Seq<u8>,
    data: Seq<u8>,
    suffix: u64,
    start: Files,
    steps: Seq<WriteStep>,
)
    requires
        not_temporary(path, dir),
        is_run(AtomicWriteView::start(path, dir, data, suffix), start, steps),
        state_after(AtomicWriteView::start(path, dir, data, suffix), steps).stage is Failed,
        !removal_failed(AtomicWriteView::start(path, dir, data, suffix), steps),
    ensures
        files_after(start, steps) == start,
{
    let write = AtomicWriteView::start(path, dir, data, suffix);
    lemma_run_in_step(write, start, start, false, steps);
}

impl AtomicWriteView {
    /// How many more outcomes the write waits for, at most.
    pub open spec fn remaining(self) -> int {
        match self.stage {
            StageView::Creating(attempt) => if attempt < MAX_ATTEMPTS {
                MAX_ATTEMPTS - attempt + 3
            } else {
                4
            },
            StageView::Writing => 3,
            StageView::Renaming => 2,
            StageView::Discarding(_) => 1,
            StageView::Failed(_) => 0,
            StageView::Succeeded => 0,
        }
    }
}

/// A write is over after as many outcomes as there are attempts at a name, and
/// three more.
pub proof fn law_write_ends(write: AtomicWriteView, steps: Seq<WriteStep>)
    requires
        steps.len() >= write.remaining(),
    ensures
        write.stage == StageView::Creating(0) ==> write.remaining() == MAX_ATTEMPTS + 3,
        state_after(write, steps).stage is Failed || state_after(write, steps).stage is Succeeded,
    decreases steps.len(),
{
    if steps.len() > 0 {
        law_write_ends(write.next(steps[0].event, steps[0].suffix), steps.drop_first());
    }
}

/// Whether each of `steps` found its temporary name taken.
pub open spec fn all_taken(steps: Seq<WriteStep>) -> bool {
    forall|i: int|
        0 <= i < steps.len() ==> ((#[trigger] steps[i]).event matches WriteEventView::Failed(kind, _)
            && kind == IoErrorKind::AlreadyExists)
}

proof fn lemma_taken(write: AtomicWriteView, attempt: u32, steps: Seq<WriteStep>)
    requires
        write.stage == StageView::Creating(attempt),
        all_taken(steps),
        attempt < 100,
    ensures
        attempt + steps.len() < 100 ==> state_after(write, steps) == (AtomicWriteView {
            tmp: if steps.len() == 0 { write.tmp } else { temp_path(write.dir, steps.last().suffix) },
            stage: StageView::Creating((attempt + steps.len()) as u32),
            ..write
        }),
        attempt + steps.len() >= 100 ==> state_after(write, steps).stage == StageView::Failed(
            create_failure(
                write.dir,
                "could not create a unique temp file after 100 attempts"@,
            ),
        ),
    decreases steps.len(),
{
    if steps.len() > 0 {
        let next = write.next(steps[0].event, steps[0].suffix);
        let rest = steps.drop_first();
        assert(all_taken(rest)) by {
            assert forall|i: int| 0 <= i < rest.len() implies ((
            #[trigger] rest[i]).event matches WriteEventView::Failed(kind, _) && kind
                == IoErrorKind::AlreadyExists) by {
                assert(rest[i] == steps[i + 1]);
            }
        }
        if attempt + 1 < 100 {
            lemma_taken(next, (attempt + 1) as u32, rest);
            if rest.len() > 0 {
                assert(rest.last() == steps.last());
            }
        } else {
            lemma_over(next, rest);
        }
    }
}

proof fn lemma_over(write: AtomicWriteView, steps: Seq<WriteStep>)
    requires
        write.stage is Failed || write.stage is Succeeded,
    ensures
        state_after(write, steps) == write,
    decreases steps.len(),
{
    if steps.len() > 0 {
        lemma_over(write.next(steps[0].event, steps[0].suffix), steps.drop_first());
    }
}

/// Up to 100 temporary names are tried. While fewer were taken, a file that its
/// owner alone may read and write is to be created under the last one drawn;
/// once 100 were, the write fails, and says so.
pub proof fn law_taken_names_are_retried(
    path: Seq<u8>,
    dir: Seq<u8>,
    data: Seq<u8>,
    suffix: u64,
    steps: Seq<WriteStep>,
)
    requires
        all_taken(steps),
    ensures
        ({
            let write = state_after(AtomicWriteView::start(path, dir, data, suffix), steps);
            let last = if steps.len() == 0 {
                suffix
            } else {
                steps.last().suffix
            };
            &&& steps.len() < 100 ==> {
                &&& write.action() == WriteActionView::Create(temp_path(dir, last), 0o600u32)
                &&& write.path == path && write.dir == dir && write.data == data
            }
            &&& steps.len() >= 100 ==> write.action() == WriteActionView::Fail(
                "failed to create temp file in "@ + lossy_text(dir) + ": "@
                    + "could not create a unique temp file after 100 attempts"@,
            )
        }),
{
    lemma_taken(AtomicWriteView::start(path, dir, data, suffix), 0, steps);
}

/// A file that is created is filled with all of the data, then renamed to the
/// path, and then the write has succeeded. If any of these fails, the write
/// fails for that reason, once the file that was created is removed; whether it
/// could be removed changes nothing.
pub proof fn law_created_file_becomes_the_file(
    write: AtomicWriteView,
    file: Seq<u8>,
    mode: u32,
    kind: IoErrorKind,
    reason: Seq<char>,
    event: WriteEventView,
    suffix: u64,
)
    requires
        write.action() == WriteActionView::Create(file, mode),
    ensures
        ({
            let done = WriteEventView::Done;
            let failed = WriteEventView::Failed(kind, reason);
            let created = write.next(done, suffix);
            let filled = created.next(done, suffix);
            let renamed = filled.next(done, suffix);
            let unfilled = created.next(failed, suffix);
            let unrenamed = filled.next(failed, suffix);
            &&& mode == 0o600
            &&& created.action() == WriteActionView::Write(file, write.data)
            &&& filled.action() == WriteActionView::Rename(file, write.path)
            &&& renamed.action() == WriteActionView::Succeed
            &&& renamed.next(event, suffix) == renamed
            &&& unfilled.action() == WriteActionView::Remove(file)
            &&& unfilled.next(event, suffix).action() == WriteActionView::Fail(
                "failed to write temp file "@ + lossy_text(file) + ": "@ + reason,
            )
            &&& unrenamed.action() == WriteActionView::Remove(file)
            &&& unrenamed.next(event, suffix).action() == WriteActionView::Fail(
                "failed to rename "@ + lossy_text(file) + " to "@ + lossy_text(write.path) + ": "@
                    + reason,
            )
            &&& kind != IoErrorKind::AlreadyExists ==> write.next(failed, suffix).action()
                == WriteActionView::Fail(
                "failed to create temp file in "@ + lossy_text(write.dir) + ": "@ + reason,
            )
        }),
{
}

/// A write that has failed or succeeded stays so, whatever is reported.
pub proof fn law_outcome_is_final(write: AtomicWriteView, event: WriteEventView, suffix: u64)
    requires
        write.action() is Fail || write.action() is Succeed,
    ensures
        write.next(event, suffix) == write,
{
}

/// A new name is drawn exactly if the file could not be created since its name
/// is taken.
pub proof fn law_names_are_drawn_for_taken_ones(
    write: AtomicWriteView,
    kind: IoErrorKind,
    reason: Seq<char>,
)
    ensures
        write.needs_name(WriteEventView::Failed(kind, reason)) <==> write.action() is Create && kind
            == IoErrorKind::AlreadyExists,
        !write.needs_name(WriteEventView::Done),
{
}

/// A temporary file lies in the directory, one separator behind it. Its name is
/// `.secret-tmp-` and the suffix in hexadecimal digits, so that files with
/// different suffixes are different ones.
pub proof fn law_temporary_names(dir: Seq<u8>, suffix: u64, other: u64)
    requires
        dir.len() > 0,
    ensures
        ({
            let digits = numeral(suffix as nat, 16);
            let name = encode_utf8(".secret-tmp-"@ + digits);
            &&& numeral_value(digits, 16) == suffix
            &&& dir.last() != 0x2f ==> temp_path(dir, suffix) == dir + seq![0x2fu8] + name
            &&& dir.last() == 0x2f ==> temp_path(dir, suffix) == dir + name
            &&& temp_path(dir, suffix) == temp_path(dir, other) ==> suffix == other
        }),
{
    reveal_strlit(".secret-tmp-");
    let digits = numeral(suffix as nat, 16);
    let others = numeral(other as nat, 16);
    law_numeral_spells_number(suffix as nat, 16);
    law_numeral_spells_number(other as nat, 16);
    let text = ".secret-tmp-"@ + digits;
    let other_text = ".secret-tmp-"@ + others;
    assert(is_ascii_chars(text)) by {
        assert forall|i: int| 0 <= i < text.len() implies '\0' <= #[trigger] text[i]
            <= '\u{7f}' by {
            if i >= 12 {
                assert(text[i] == digits[i - 12]);
            }
        }
    }
    assert(is_ascii_chars(other_text)) by {
        assert forall|i: int| 0 <= i < other_text.len() implies '\0' <= #[trigger] other_text[i]
            <= '\u{7f}' by {
            if i >= 12 {
                assert(other_text[i] == others[i - 12]);
            }
        }
    }
    is_ascii_chars_encode_utf8(text);
    is_ascii_chars_encode_utf8(other_text);
    assert(encode_utf8(text)[0] == text[0] as u8);
    assert(encode_utf8(other_text)[0] == other_text[0] as u8);
    assert(dir.push(SEPARATOR) =~= dir + seq![0x2fu8]);
    if temp_path(dir, suffix) == temp_path(dir, other) {
        lemma_joined_injective(dir, encode_utf8(text), encode_utf8(other_text));
        encode_utf8_decode_utf8(text);
        encode_utf8_decode_utf8(other_text);
        assert(text.skip(12) =~= digits);
        assert(other_text.skip(12) =~= others);
    }
}

/// A path without a directory is refused with its text.
pub proof fn law_path_needs_directory(path: Seq<u8>)
    ensures
        no_parent_failure(path) == "secret path "@ + lossy_text(path) + " has no parent directory"@,
{
}

/// A report is seen by what it says, and an action by what it holds.
pub proof fn law_actions_are_seen_whole(event: WriteEvent, action: WriteAction<'_>)
    ensures
        event matches WriteEvent::Failed(failure) ==> event@ == WriteEventView::Failed(
            failure.kind,
            failure.message@,
        ),
        event is Done ==> event@ == WriteEventView::Done,
        match action {
            WriteAction::Create { path, mode } => action@ == WriteActionView::Create(path@, mode),
            WriteAction::Write { path, data } => action@ == WriteActionView::Write(path@, data@),
            WriteAction::Rename { from, to } => action@ == WriteActionView::Rename(from@, to@),
            WriteAction::Remove { path } => action@ == WriteActionView::Remove(path@),
            WriteAction::Succeed => action@ == WriteActionView::Succeed,
            WriteAction::Fail(message) => action@ == WriteActionView::Fail(message@),
        },
{
}

} // verus!

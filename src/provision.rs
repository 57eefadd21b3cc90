use vstd::prelude::*;
use crate::db::FsOp;

verus! {

/// The only mode a provisioned database file may have: owner read and write.
pub const OWNER_RW: u32 = 0o600;

/// The permission bits of a file mode (type bits excluded).
pub const PERMISSION_BITS: u32 = 0o7777;

/// What the provisioner learns from the filesystem.
#[derive(Clone, Copy, Debug, PartialEq, Eq, Structural)]
pub enum FsEvent {
    /// Provisioning begins.
    Start,
    /// Whether the parent directory of the target exists.
    ParentChecked(ParentStatus),
    /// Whether creating the parent directories succeeded.
    DirCreated(bool),
    /// Whether the target file exists.
    FileChecked(bool),
    /// The outcome of an exclusive create of the target file.
    Created(CreateOutcome),
    /// The target's mode, or `None` when its metadata could not be read.
    ModeRead(Option<u32>),
    /// Whether changing the target's mode succeeded.
    ModeSet(bool),
}

/// The state of the target's parent directory.
#[derive(Clone, Copy, Debug, PartialEq, Eq, Structural)]
pub enum ParentStatus {
    Missing,
    Present,
    /// The target is the root and has no parent.
    NoParent,
}

/// The outcome of an exclusive create.
#[derive(Clone, Copy, Debug, PartialEq, Eq, Structural)]
pub enum CreateOutcome {
    Created,
    /// Someone else created the file first.
    AlreadyExists,
    Failed,
}

/// What the provisioner asks the filesystem to do next.
#[derive(Clone, Copy, Debug, PartialEq, Eq, Structural)]
pub enum FsAction {
    CheckParent,
    CreateParentDirs,
    CheckFile,
    /// Create the file, failing if it exists; with `Some(mode)` the file is
    /// created with that mode in the same call.
    CreateExclusive(Option<u32>),
    ReadMode,
    SetMode(u32),
    /// The file is provisioned.
    Finish,
    /// Provisioning failed in the given operation.
    Fail(FsOp),
}

/// Where the provisioner stands.
#[derive(Clone, Copy, Debug, PartialEq, Eq, Structural)]
pub enum Stage {
    Begin,
    AwaitParent,
    AwaitDir,
    AwaitFileCheck,
    AwaitCreate,
    AwaitMode,
    AwaitModeSet,
    Done,
    Failed,
}

/// Decides, event by event, how a database file is brought into existence
/// with owner-only permissions. `enforce_mode` says whether the platform has
/// file-mode permissions; without them only existence is guaranteed.
#[derive(Clone, Copy, Debug)]
pub struct Provisioner {
    pub stage: Stage,
    pub enforce_mode: bool,
}

/// The permission bits of `mode` are exactly owner read and write.
pub open spec fn mode_is_owner_rw(mode: u32) -> bool {
    mode & PERMISSION_BITS == OWNER_RW
}

/// The event that the filesystem answers with in each waiting stage.
pub open spec fn expects(stage: Stage, ev: FsEvent) -> bool {
    match stage {
        Stage::Begin => ev is Start,
        Stage::AwaitParent => ev is ParentChecked,
        Stage::AwaitDir => ev is DirCreated,
        Stage::AwaitFileCheck => ev is FileChecked,
        Stage::AwaitCreate => ev is Created,
        Stage::AwaitMode => ev is ModeRead,
        Stage::AwaitModeSet => ev is ModeSet,
        Stage::Done | Stage::Failed => false,
    }
}

/// Once the file is known to exist: read its mode, or finish where the
/// platform has no permission model.
pub open spec fn on_existing(enforce_mode: bool) -> (Stage, FsAction) {
    if enforce_mode {
        (Stage::AwaitMode, FsAction::ReadMode)
    } else {
        (Stage::Done, FsAction::Finish)
    }
}

/// The provisioning rules: the next stage and action after `ev` in `stage`.
pub open spec fn next(stage: Stage, enforce_mode: bool, ev: FsEvent) -> (Stage, FsAction) {
    match ev {
        FsEvent::Start => (Stage::AwaitParent, FsAction::CheckParent),
        FsEvent::ParentChecked(ParentStatus::Missing) => (Stage::AwaitDir, FsAction::CreateParentDirs),
        FsEvent::ParentChecked(_) => (Stage::AwaitFileCheck, FsAction::CheckFile),
        FsEvent::DirCreated(true) => (Stage::AwaitFileCheck, FsAction::CheckFile),
        FsEvent::DirCreated(false) => (Stage::Failed, FsAction::Fail(FsOp::CreateDir)),
        FsEvent::FileChecked(false) => (
            Stage::AwaitCreate,
            FsAction::CreateExclusive(if enforce_mode { Some(OWNER_RW) } else { None }),
        ),
        FsEvent::FileChecked(true) => on_existing(enforce_mode),
        FsEvent::Created(CreateOutcome::Created) => (Stage::Done, FsAction::Finish),
        FsEvent::Created(CreateOutcome::AlreadyExists) => on_existing(enforce_mode),
        FsEvent::Created(CreateOutcome::Failed) => (Stage::Failed, FsAction::Fail(FsOp::CreateFile)),
        FsEvent::ModeRead(None) => (Stage::Failed, FsAction::Fail(FsOp::ReadMetadata)),
        FsEvent::ModeRead(Some(m)) => if mode_is_owner_rw(m) {
            (Stage::Done, FsAction::Finish)
        } else {
            (Stage::AwaitModeSet, FsAction::SetMode(OWNER_RW))
        },
        FsEvent::ModeSet(true) => (Stage::Done, FsAction::Finish),
        FsEvent::ModeSet(false) => (Stage::Failed, FsAction::Fail(FsOp::SetPermissions)),
    }
}

/// A file that did not exist is created with owner-only permissions in the
/// creating call itself, and provisioning then ends without a separate mode
/// change: no broader mode is ever observable.
pub proof fn lemma_new_file_created_restricted()
    ensures
        next(Stage::AwaitFileCheck, true, FsEvent::FileChecked(false))
            == (Stage::AwaitCreate, FsAction::CreateExclusive(Some(OWNER_RW))),
        mode_is_owner_rw(OWNER_RW),
        forall|enforce_mode: bool|
            next(Stage::AwaitCreate, enforce_mode, FsEvent::Created(CreateOutcome::Created))
                == (Stage::Done, FsAction::Finish),
{
    assert(OWNER_RW & PERMISSION_BITS == OWNER_RW) by (bit_vector);
}

/// An existing file whose permission bits are not owner-only gets its mode set
/// to owner read and write, after which provisioning is done.
pub proof fn lemma_permissive_mode_corrected(mode: u32)
    requires
        !mode_is_owner_rw(mode),
    ensures
        next(Stage::AwaitMode, true, FsEvent::ModeRead(Some(mode)))
            == (Stage::AwaitModeSet, FsAction::SetMode(OWNER_RW)),
        mode_is_owner_rw(OWNER_RW),
        next(Stage::AwaitModeSet, true, FsEvent::ModeSet(true)) == (Stage::Done, FsAction::Finish),
{
    assert(OWNER_RW & PERMISSION_BITS == OWNER_RW) by (bit_vector);
}

/// An existing file that already has owner-only permissions is left as it is:
/// provisioning finishes without changing its mode.
pub proof fn lemma_correct_mode_untouched(mode: u32)
    requires
        mode_is_owner_rw(mode),
    ensures
        next(Stage::AwaitMode, true, FsEvent::ModeRead(Some(mode))) == (Stage::Done, FsAction::Finish),
{
}

/// Losing the exclusive create to a concurrent creator is not an error: the
/// provisioner goes on to check the existing file's mode, exactly as if it
/// had found the file present.
pub proof fn lemma_lost_race_not_fatal(enforce_mode: bool)
    ensures
        next(Stage::AwaitCreate, enforce_mode, FsEvent::Created(CreateOutcome::AlreadyExists))
            == next(Stage::AwaitFileCheck, enforce_mode, FsEvent::FileChecked(true)),
        !(next(Stage::AwaitCreate, enforce_mode, FsEvent::Created(CreateOutcome::AlreadyExists)).1 is Fail),
{
}

/// A model of what provisioning touches: the parent directory and the file.
pub struct FsModel {
    pub parent_exists: bool,
    pub file_exists: bool,
    pub mode: u32,
}

/// How a filesystem on which every operation succeeds answers `a`; a file
/// created without an explicit mode gets `default_mode`.
pub open spec fn respond(fs: FsModel, a: FsAction, default_mode: u32) -> (FsModel, FsEvent) {
    match a {
        FsAction::CheckParent => (
            fs,
            FsEvent::ParentChecked(if fs.parent_exists { ParentStatus::Present } else { ParentStatus::Missing }),
        ),
        FsAction::CreateParentDirs => (FsModel { parent_exists: true, ..fs }, FsEvent::DirCreated(true)),
        FsAction::CheckFile => (fs, FsEvent::FileChecked(fs.file_exists)),
        FsAction::CreateExclusive(m) => if fs.file_exists {
            (fs, FsEvent::Created(CreateOutcome::AlreadyExists))
        } else {
            let mode = match m {
                Some(x) => x,
                None => default_mode,
            };
            (FsModel { file_exists: true, mode, ..fs }, FsEvent::Created(CreateOutcome::Created))
        },
        FsAction::ReadMode => (fs, FsEvent::ModeRead(Some(fs.mode))),
        FsAction::SetMode(m) => (FsModel { mode: m, ..fs }, FsEvent::ModeSet(true)),
        FsAction::Finish | FsAction::Fail(_) => (fs, FsEvent::Start),
    }
}

/// Another caller that may create the file, with a mode of its choosing.
pub open spec fn interfere(fs: FsModel, other: Option<u32>) -> FsModel {
    match other {
        Some(m) => if fs.file_exists {
            fs
        } else {
            FsModel { file_exists: true, mode: m, ..fs }
        },
        None => fs,
    }
}

/// Runs the provisioner from `stage`, with `action` pending, against `fs`;
/// before each answer the other caller acts as the next entry of `others`.
pub open spec fn run(
    stage: Stage,
    enforce_mode: bool,
    fs: FsModel,
    action: FsAction,
    others: Seq<Option<u32>>,
    default_mode: u32,
) -> (Stage, FsModel)
    decreases others.len(),
{
    if others.len() == 0 || stage is Done || stage is Failed {
        (stage, fs)
    } else {
        let (fs2, ev) = respond(interfere(fs, others[0]), action, default_mode);
        let (st, a) = next(stage, enforce_mode, ev);
        run(st, enforce_mode, fs2, a, others.drop_first(), default_mode)
    }
}

/// The end of a run is a provisioned file: done, with its parent directory,
/// the file present and its permission bits owner-only.
pub open spec fn provisioned(end: (Stage, FsModel)) -> bool {
    end.0 == Stage::Done && end.1.parent_exists && end.1.file_exists && mode_is_owner_rw(end.1.mode)
}

proof fn lemma_run_from_mode_set(fs: FsModel, others: Seq<Option<u32>>, default_mode: u32)
    requires
        others.len() >= 1,
        fs.parent_exists,
        fs.file_exists,
    ensures
        provisioned(run(Stage::AwaitModeSet, true, fs, FsAction::SetMode(OWNER_RW), others, default_mode)),
{
    assert(OWNER_RW & PERMISSION_BITS == OWNER_RW) by (bit_vector);
    let fs2 = respond(interfere(fs, others[0]), FsAction::SetMode(OWNER_RW), default_mode).0;
    assert(run(Stage::Done, true, fs2, FsAction::Finish, others.drop_first(), default_mode) == (Stage::Done, fs2));
}

proof fn lemma_run_from_mode_read(fs: FsModel, others: Seq<Option<u32>>, default_mode: u32)
    requires
        others.len() >= 2,
        fs.parent_exists,
        fs.file_exists,
    ensures
        provisioned(run(Stage::AwaitMode, true, fs, FsAction::ReadMode, others, default_mode)),
{
    let fs1 = interfere(fs, others[0]);
    assert(fs1 == fs);
    if mode_is_owner_rw(fs.mode) {
        assert(run(Stage::Done, true, fs, FsAction::Finish, others.drop_first(), default_mode) == (Stage::Done, fs));
    } else {
        lemma_run_from_mode_set(fs, others.drop_first(), default_mode);
    }
}

proof fn lemma_run_from_create(fs: FsModel, others: Seq<Option<u32>>, default_mode: u32)
    requires
        others.len() >= 3,
        fs.parent_exists,
    ensures
        provisioned(
            run(Stage::AwaitCreate, true, fs, FsAction::CreateExclusive(Some(OWNER_RW)), others, default_mode),
        ),
{
    assert(OWNER_RW & PERMISSION_BITS == OWNER_RW) by (bit_vector);
    let fs1 = interfere(fs, others[0]);
    let fs2 = respond(fs1, FsAction::CreateExclusive(Some(OWNER_RW)), default_mode).0;
    if fs1.file_exists {
        lemma_run_from_mode_read(fs2, others.drop_first(), default_mode);
    } else {
        assert(run(Stage::Done, true, fs2, FsAction::Finish, others.drop_first(), default_mode) == (Stage::Done, fs2));
    }
}

proof fn lemma_run_from_file_check(fs: FsModel, others: Seq<Option<u32>>, default_mode: u32)
    requires
        others.len() >= 4,
        fs.parent_exists,
    ensures
        provisioned(run(Stage::AwaitFileCheck, true, fs, FsAction::CheckFile, others, default_mode)),
{
    let fs1 = interfere(fs, others[0]);
    if fs1.file_exists {
        lemma_run_from_mode_read(fs1, others.drop_first(), default_mode);
    } else {
        lemma_run_from_create(fs1, others.drop_first(), default_mode);
    }
}

/// On a filesystem where every operation succeeds, provisioning ends with the
/// parent directory present and the one file with owner-only permissions,
/// whatever mode the file had, and whether or not another caller creates it
/// at any point meanwhile, with any mode; neither outcome is an error.
pub proof fn lemma_provisioning_converges(fs: FsModel, others: Seq<Option<u32>>, default_mode: u32)
    requires
        others.len() >= 6,
    ensures
        next(Stage::Begin, true, FsEvent::Start) == (Stage::AwaitParent, FsAction::CheckParent),
        provisioned(run(Stage::AwaitParent, true, fs, FsAction::CheckParent, others, default_mode)),
{
    let fs1 = interfere(fs, others[0]);
    let rest = others.drop_first();
    if fs1.parent_exists {
        lemma_run_from_file_check(fs1, rest, default_mode);
    } else {
        let fs3 = respond(interfere(fs1, rest[0]), FsAction::CreateParentDirs, default_mode).0;
        assert(run(Stage::AwaitParent, true, fs, FsAction::CheckParent, others, default_mode)
            == run(Stage::AwaitDir, true, fs1, FsAction::CreateParentDirs, rest, default_mode));
        assert(run(Stage::AwaitDir, true, fs1, FsAction::CreateParentDirs, rest, default_mode)
            == run(Stage::AwaitFileCheck, true, fs3, FsAction::CheckFile, rest.drop_first(), default_mode));
        lemma_run_from_file_check(fs3, rest.drop_first(), default_mode);
    }
}

impl Provisioner {
    /// A provisioner about to start; `enforce_mode` is whether the platform
    /// supports owner-exclusive file permissions.
    pub fn new(enforce_mode: bool) -> (r: Provisioner)
        ensures
            r.stage == Stage::Begin,
            r.enforce_mode == enforce_mode,
    {
        Provisioner { stage: Stage::Begin, enforce_mode }
    }

    /// Whether `ev` is the answer this provisioner waits for.
    pub fn accepts(&self, ev: FsEvent) -> (r: bool)
        ensures
            r == expects(self.stage, ev),
    {
        match self.stage {
            Stage::Begin => matches!(ev, FsEvent::Start),
            Stage::AwaitParent => matches!(ev, FsEvent::ParentChecked(_)),
            Stage::AwaitDir => matches!(ev, FsEvent::DirCreated(_)),
            Stage::AwaitFileCheck => matches!(ev, FsEvent::FileChecked(_)),
            Stage::AwaitCreate => matches!(ev, FsEvent::Created(_)),
            Stage::AwaitMode => matches!(ev, FsEvent::ModeRead(_)),
            Stage::AwaitModeSet => matches!(ev, FsEvent::ModeSet(_)),
            Stage::Done | Stage::Failed => false,
        }
    }

    fn existing(&mut self) -> (r: FsAction)
        ensures
            (final(self).stage, r) == on_existing(old(self).enforce_mode),
            final(self).enforce_mode == old(self).enforce_mode,
    {
        if self.enforce_mode {
            self.stage = Stage::AwaitMode;
            FsAction::ReadMode
        } else {
            self.stage = Stage::Done;
            FsAction::Finish
        }
    }

    /// Takes the filesystem's answer `ev` and returns the next action.
    pub fn step(&mut self, ev: FsEvent) -> (r: FsAction)
        requires
            expects(old(self).stage, ev),
        ensures
            (final(self).stage, r) == next(old(self).stage, old(self).enforce_mode, ev),
            final(self).enforce_mode == old(self).enforce_mode,
    {
        match ev {
            FsEvent::Start => {
                self.stage = Stage::AwaitParent;
                FsAction::CheckParent
            },
            FsEvent::ParentChecked(ParentStatus::Missing) => {
                self.stage = Stage::AwaitDir;
                FsAction::CreateParentDirs
            },
            FsEvent::ParentChecked(_) => {
                self.stage = Stage::AwaitFileCheck;
                FsAction::CheckFile
            },
            FsEvent::DirCreated(true) => {
                self.stage = Stage::AwaitFileCheck;
                FsAction::CheckFile
            },
            FsEvent::DirCreated(false) => {
                self.stage = Stage::Failed;
                FsAction::Fail(FsOp::CreateDir)
            },
            FsEvent::FileChecked(false) => {
                self.stage = Stage::AwaitCreate;
                FsAction::CreateExclusive(if self.enforce_mode { Some(OWNER_RW) } else { None })
            },
            FsEvent::FileChecked(true) => self.existing(),
            FsEvent::Created(CreateOutcome::Created) => {
                self.stage = Stage::Done;
                FsAction::Finish
            },
            FsEvent::Created(CreateOutcome::AlreadyExists) => self.existing(),
            FsEvent::Created(CreateOutcome::Failed) => {
                self.stage = Stage::Failed;
                FsAction::Fail(FsOp::CreateFile)
            },
            FsEvent::ModeRead(None) => {
                self.stage = Stage::Failed;
                FsAction::Fail(FsOp::ReadMetadata)
            },
            FsEvent::ModeRead(Some(m)) => {
                if m & PERMISSION_BITS == OWNER_RW {
                    self.stage = Stage::Done;
                    FsAction::Finish
                } else {
                    self.stage = Stage::AwaitModeSet;
                    FsAction::SetMode(OWNER_RW)
                }
            },
            FsEvent::ModeSet(true) => {
                self.stage = Stage::Done;
                FsAction::Finish
            },
            FsEvent::ModeSet(false) => {
                self.stage = Stage::Failed;
                FsAction::Fail(FsOp::SetPermissions)
            },
        }
    }
}

} // verus!

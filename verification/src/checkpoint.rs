//! Checkpoints taken before destructive operations, so that the last one can be undone.
//!
//! Before a file is removed it is copied into the checkpoint directory; before it is
//! moved, the move is recorded. Undo takes the latest checkpoint first. The copying,
//! renaming and probing of files is done by the caller, which asks this module what
//! to do and reports what it found.
use vstd::prelude::*;

use crate::text::{cat, cat4, has_suffix, owned};

verus! {

/// A checkpoint recording a destructive operation.
#[derive(Debug, Clone)]
pub struct Checkpoint {
    pub id: String,
    pub timestamp: String,
    pub command: String,
    pub args: Vec<String>,
    pub operation: CheckpointOp,
}

/// The kind of operation a checkpoint records.
#[non_exhaustive]
#[derive(Debug, Clone)]
pub enum CheckpointOp {
    /// A file removed, after it was copied to `backup_path`.
    FileRemoved { original_path: String, backup_path: String },
    /// A file moved from `source` to `destination`.
    FileMoved { source: String, destination: String },
    /// Permissions changed; `old_mode` held before.
    PermissionsChanged { path: String, old_mode: u32 },
    /// Ownership changed; `old_owner` held before.
    OwnershipChanged { path: String, old_owner: String },
}

/// A checkpointed operation as plain values.
pub enum OpView {
    FileRemoved { original_path: Seq<char>, backup_path: Seq<char> },
    FileMoved { source: Seq<char>, destination: Seq<char> },
    PermissionsChanged { path: Seq<char>, old_mode: u32 },
    OwnershipChanged { path: Seq<char>, old_owner: Seq<char> },
}

/// A checkpoint as plain values.
pub struct CheckpointView {
    pub id: Seq<char>,
    pub timestamp: Seq<char>,
    pub command: Seq<char>,
    pub args: Seq<Seq<char>>,
    pub operation: OpView,
}

impl View for CheckpointOp {
    type V = OpView;

    open spec fn view(&self) -> OpView {
        match self {
            CheckpointOp::FileRemoved { original_path, backup_path } => OpView::FileRemoved {
                original_path: original_path@,
                backup_path: backup_path@,
            },
            CheckpointOp::FileMoved { source, destination } => OpView::FileMoved {
                source: source@,
                destination: destination@,
            },
            CheckpointOp::PermissionsChanged { path, old_mode } => OpView::PermissionsChanged {
                path: path@,
                old_mode: *old_mode,
            },
            CheckpointOp::OwnershipChanged { path, old_owner } => OpView::OwnershipChanged {
                path: path@,
                old_owner: old_owner@,
            },
        }
    }
}

impl View for Checkpoint {
    type V = CheckpointView;

    open spec fn view(&self) -> CheckpointView {
        CheckpointView {
            id: self.id@,
            timestamp: self.timestamp@,
            command: self.command@,
            args: self.args.deep_view(),
            operation: self.operation@,
        }
    }
}

/// Whether `c` is a lower-case hexadecimal digit.
pub open spec fn is_lower_hex(c: char) -> bool {
    ('0' <= c && c <= '9') || ('a' <= c && c <= 'f')
}

/// Whether `s` is a random (version 4) UUID in its hyphenated lower-case form, such as
/// `67e55044-10b1-426f-9247-bb680e5fe0c8`.
pub open spec fn is_uuid_v4_text(s: Seq<char>) -> bool {
    &&& s.len() == 36
    &&& forall|i: int|
        0 <= i < 36 ==> if i == 8 || i == 13 || i == 18 || i == 23 {
            #[trigger] s[i] == '-'
        } else {
            is_lower_hex(s[i])
        }
    &&& s[14] == '4'
    &&& (s[19] == '8' || s[19] == '9' || s[19] == 'a' || s[19] == 'b')
}

/// Whether `s` is a time written in RFC 3339 form in UTC, which ends in `+00:00`.
pub open spec fn is_utc_timestamp(s: Seq<char>) -> bool {
    has_suffix(s, "+00:00"@)
}

/// A fresh random identifier: sixteen bytes from `getrandom::fill`, made a version 4
/// UUID by `uuid::Builder::from_random_bytes`, and written by `to_string`. `None` where
/// the system's source of randomness fails (`fill` returns an error).
///
/// The contract claims only the form of the text that `uuid` writes (see its
/// `builder.rs` and `fmt.rs`): 36 lower-case hexadecimal digits and hyphens, with the
/// version digit `4` and an RFC 4122 variant digit. Which identifier comes back, and
/// whether one does, is left open.
#[verifier::external_body]
fn fresh_id() -> (r: Option<String>)
    ensures
        r matches Some(id) ==> is_uuid_v4_text(id@),
{
    let mut bytes = [0u8; 16];
    getrandom::fill(&mut bytes).ok()?;
    Some(uuid::Builder::from_random_bytes(bytes).into_uuid().to_string())
}

/// The current time in RFC 3339 form: the time since 1970 from
/// `std::time::SystemTime::now`, made a UTC time by `chrono::DateTime::from_timestamp`
/// and written by `to_rfc3339`. `None` where the clock reads before 1970, or so far
/// ahead that `chrono` holds no such time.
///
/// The contract claims only that the text ends in the UTC offset `+00:00`, which
/// `chrono` writes for a UTC time (see `write_rfc3339` in its `format/formatting.rs`).
/// The time itself, and whether one comes back, is left open.
#[verifier::external_body]
fn now_timestamp() -> (r: Option<String>)
    ensures
        r matches Some(t) ==> is_utc_timestamp(t@),
{
    let since = std::time::SystemTime::now().duration_since(std::time::UNIX_EPOCH).ok()?;
    let secs = i64::try_from(since.as_secs()).ok()?;
    let time = chrono::DateTime::from_timestamp(secs, since.subsec_nanos())?;
    Some(time.to_rfc3339())
}

/// `name` appended to the directory `dir`, as `PathBuf::join` appends a relative name:
/// a separator goes between them unless `dir` is empty or already ends in one.
pub open spec fn join_path(dir: Seq<char>, name: Seq<char>) -> Seq<char> {
    if dir.len() == 0 || dir.last() == '/' {
        dir + name
    } else {
        dir + "/"@ + name
    }
}

/// Appends `name` to the directory `dir`, as `PathBuf::join` appends a relative name.
pub fn join_path_text(dir: &str, name: &str) -> (r: String)
    ensures
        r@ == join_path(dir@, name@),
{
    let n = dir.unicode_len();
    if n == 0 || dir.get_char(n - 1) == '/' {
        cat(dir, name)
    } else {
        proof {
            reveal_strlit("/");
        }
        let r = crate::text::cat3(dir, "/", name);
        r
    }
}

/// The name of the directory, under the system's temporary directory, that holds
/// the checkpoint backups.
pub open spec fn checkpoint_dir_name() -> Seq<char> {
    "agnoshi-checkpoints"@
}

/// The checkpoint recorded before `path` is removed, its copy kept under `dir`.
pub open spec fn remove_record(
    id: Seq<char>,
    timestamp: Seq<char>,
    dir: Seq<char>,
    path: Seq<char>,
) -> CheckpointView {
    CheckpointView {
        id,
        timestamp,
        command: "rm"@,
        args: seq![path],
        operation: OpView::FileRemoved { original_path: path, backup_path: join_path(dir, id) },
    }
}

/// The checkpoint recorded before `source` is moved to `destination`.
pub open spec fn move_record(
    id: Seq<char>,
    timestamp: Seq<char>,
    source: Seq<char>,
    destination: Seq<char>,
) -> CheckpointView {
    CheckpointView {
        id,
        timestamp,
        command: "mv"@,
        args: seq![source, destination],
        operation: OpView::FileMoved { source, destination },
    }
}

/// What to do before removing a file.
pub enum RemovePlan {
    /// Nothing: the path does not exist, or is a directory, which is not copied.
    Skip,
    /// Copy the file to `backup_path`, then record the checkpoint `id`.
    Backup { id: String, backup_path: String },
    /// No checkpoint can be made: the system gave no random identifier.
    NoRandomness,
}

/// How to undo one checkpoint.
pub enum UndoStep {
    /// Where `from` exists, rename it to `to` and report `done`; else report `missing`.
    MoveBack { from: String, to: String, done: String, missing: String },
    /// This kind of operation cannot be undone; report `message`.
    Unsupported { message: String },
}

/// An undo step as plain values.
pub enum UndoView {
    MoveBack { from: Seq<char>, to: Seq<char>, done: Seq<char>, missing: Seq<char> },
    Unsupported { message: Seq<char> },
}

impl View for UndoStep {
    type V = UndoView;

    open spec fn view(&self) -> UndoView {
        match self {
            UndoStep::MoveBack { from, to, done, missing } => UndoView::MoveBack {
                from: from@,
                to: to@,
                done: done@,
                missing: missing@,
            },
            UndoStep::Unsupported { message } => UndoView::Unsupported { message: message@ },
        }
    }
}

/// How checkpoint `c` is undone: a removed file comes back from its copy, a moved file
/// goes back where it was, and nothing else can be undone.
pub open spec fn undo_spec(c: CheckpointView) -> UndoView {
    match c.operation {
        OpView::FileRemoved { original_path, backup_path } => UndoView::MoveBack {
            from: backup_path,
            to: original_path,
            done: "Restored: "@ + original_path,
            missing: "Backup not found: "@ + backup_path,
        },
        OpView::FileMoved { source, destination } => UndoView::MoveBack {
            from: destination,
            to: source,
            done: "Moved back: "@ + destination + " -> "@ + source,
            missing: "File not found at: "@ + destination,
        },
        _ => UndoView::Unsupported { message: "Undo not supported for this operation type"@ },
    }
}

/// A copy of a list of strings.
fn copy_texts(v: &Vec<String>) -> (r: Vec<String>)
    ensures
        r.deep_view() == v.deep_view(),
{
    let mut r: Vec<String> = Vec::new();
    let mut i: usize = 0;
    while i < v.len()
        invariant
            i <= v.len(),
            r.deep_view() == v.deep_view().take(i as int),
        decreases v.len() - i,
    {
        r.push(owned(v[i].as_str()));
        assert(v.deep_view().take(i + 1) =~= v.deep_view().take(i as int).push(v[i as int]@));
        i = i + 1;
    }
    assert(v.deep_view().take(v.len() as int) =~= v.deep_view());
    r
}

impl CheckpointOp {
    /// A copy of this operation.
    pub fn duplicate(&self) -> (r: CheckpointOp)
        ensures
            r@ == self@,
    {
        match self {
            CheckpointOp::FileRemoved { original_path, backup_path } => CheckpointOp::FileRemoved {
                original_path: owned(original_path.as_str()),
                backup_path: owned(backup_path.as_str()),
            },
            CheckpointOp::FileMoved { source, destination } => CheckpointOp::FileMoved {
                source: owned(source.as_str()),
                destination: owned(destination.as_str()),
            },
            CheckpointOp::PermissionsChanged { path, old_mode } => CheckpointOp::PermissionsChanged {
                path: owned(path.as_str()),
                old_mode: *old_mode,
            },
            CheckpointOp::OwnershipChanged { path, old_owner } => CheckpointOp::OwnershipChanged {
                path: owned(path.as_str()),
                old_owner: owned(old_owner.as_str()),
            },
        }
    }
}

impl Checkpoint {
    /// A copy of this checkpoint.
    pub fn duplicate(&self) -> (r: Checkpoint)
        ensures
            r@ == self@,
    {
        Checkpoint {
            id: owned(self.id.as_str()),
            timestamp: owned(self.timestamp.as_str()),
            command: owned(self.command.as_str()),
            args: copy_texts(&self.args),
            operation: self.operation.duplicate(),
        }
    }

    /// How this checkpoint is undone.
    pub fn undo_step(&self) -> (r: UndoStep)
        ensures
            r@ == undo_spec(self@),
    {
        match &self.operation {
            CheckpointOp::FileRemoved { original_path, backup_path } => UndoStep::MoveBack {
                from: owned(backup_path.as_str()),
                to: owned(original_path.as_str()),
                done: cat("Restored: ", original_path.as_str()),
                missing: cat("Backup not found: ", backup_path.as_str()),
            },
            CheckpointOp::FileMoved { source, destination } => UndoStep::MoveBack {
                from: owned(destination.as_str()),
                to: owned(source.as_str()),
                done: cat4("Moved back: ", destination.as_str(), " -> ", source.as_str()),
                missing: cat("File not found at: ", destination.as_str()),
            },
            _ => UndoStep::Unsupported { message: owned("Undo not supported for this operation type") },
        }
    }
}

/// The checkpoints taken so far, latest last, and the directory that holds the copies
/// of removed files.
pub struct CheckpointManager {
    checkpoint_dir: String,
    checkpoints: Vec<Checkpoint>,
}

/// A checkpoint manager as plain values.
pub struct ManagerView {
    pub dir: Seq<char>,
    pub checkpoints: Seq<CheckpointView>,
}

impl View for CheckpointManager {
    type V = ManagerView;

    closed spec fn view(&self) -> ManagerView {
        ManagerView {
            dir: self.checkpoint_dir@,
            checkpoints: self.checkpoints@.map_values(|c: Checkpoint| c@),
        }
    }
}

impl CheckpointManager {
    /// A manager with no checkpoints, keeping its copies in `agnoshi-checkpoints` under
    /// the temporary directory `temp_dir`.
    pub fn new(temp_dir: &str) -> (r: CheckpointManager)
        ensures
            r@.dir == join_path(temp_dir@, checkpoint_dir_name()),
            r@.checkpoints == Seq::<CheckpointView>::empty(),
    {
        let r = CheckpointManager {
            checkpoint_dir: join_path_text(temp_dir, "agnoshi-checkpoints"),
            checkpoints: Vec::new(),
        };
        assert(r@.checkpoints =~= Seq::<CheckpointView>::empty());
        r
    }

    /// The directory that holds the copies of removed files.
    pub fn checkpoint_dir(&self) -> (r: &str)
        ensures
            r@ == self@.dir,
    {
        self.checkpoint_dir.as_str()
    }

    /// Where a file removed under checkpoint `id` is copied.
    pub fn backup_path(&self, id: &str) -> (r: String)
        ensures
            r@ == join_path(self@.dir, id@),
    {
        join_path_text(self.checkpoint_dir.as_str(), id)
    }

    /// What to do before removing a path, given whether it exists and whether it is a
    /// directory: a missing path and a directory get no checkpoint; a file is copied
    /// to the backup path of a fresh checkpoint id.
    pub fn plan_remove(&self, path_exists: bool, is_dir: bool) -> (r: RemovePlan)
        ensures
            r is Skip <==> (!path_exists || is_dir),
            r matches RemovePlan::Backup { id, backup_path } ==> (is_uuid_v4_text(id@)
                && backup_path@ == join_path(self@.dir, id@)),
    {
        if !path_exists || is_dir {
            RemovePlan::Skip
        } else {
            match fresh_id() {
                Some(id) => {
                    let backup_path = self.backup_path(id.as_str());
                    RemovePlan::Backup { id, backup_path }
                },
                None => RemovePlan::NoRandomness,
            }
        }
    }

    /// Records that `path` was copied to the backup path of checkpoint `id` before its
    /// removal, and returns the checkpoint; `None`, with nothing recorded, where the
    /// system gives no current time.
    pub fn checkpoint_remove(&mut self, path: &str, id: String) -> (r: Option<Checkpoint>)
        ensures
            final(self)@.dir == old(self)@.dir,
            r matches Some(c) ==> {
                &&& is_utc_timestamp(c@.timestamp)
                &&& c@ == remove_record(id@, c@.timestamp, old(self)@.dir, path@)
                &&& final(self)@.checkpoints == old(self)@.checkpoints.push(c@)
                &&& step_taken(
                    old(self)@.checkpoints,
                    CheckpointStep::Recorded(c@),
                    final(self)@.checkpoints,
                )
            },
            r is None ==> final(self)@.checkpoints == old(self)@.checkpoints,
    {
        match now_timestamp() {
            Some(timestamp) => Some(self.record_remove(path, id, timestamp)),
            None => None,
        }
    }

    /// Records that `path` was copied to the backup path of checkpoint `id` at `timestamp`
    /// before its removal, and returns the checkpoint.
    pub fn record_remove(&mut self, path: &str, id: String, timestamp: String) -> (c: Checkpoint)
        ensures
            c@ == remove_record(id@, timestamp@, old(self)@.dir, path@),
            final(self)@.checkpoints == old(self)@.checkpoints.push(c@),
            final(self)@.dir == old(self)@.dir,
            step_taken(old(self)@.checkpoints, CheckpointStep::Recorded(c@), final(self)@.checkpoints),
    {
        let backup_path = self.backup_path(id.as_str());
        let checkpoint = Checkpoint {
            id,
            timestamp,
            command: owned("rm"),
            args: vec![owned(path)],
            operation: CheckpointOp::FileRemoved { original_path: owned(path), backup_path },
        };
        assert(checkpoint.args.deep_view() =~= seq![path@]);
        self.push(checkpoint.duplicate());
        checkpoint
    }

    /// Records a checkpoint before `source` is moved to `destination`, and returns it;
    /// `None`, with nothing recorded, where the system gives no random identifier or no
    /// current time.
    pub fn checkpoint_move(&mut self, source: &str, destination: &str) -> (r: Option<Checkpoint>)
        ensures
            final(self)@.dir == old(self)@.dir,
            r matches Some(c) ==> {
                &&& is_uuid_v4_text(c@.id)
                &&& is_utc_timestamp(c@.timestamp)
                &&& c@ == move_record(c@.id, c@.timestamp, source@, destination@)
                &&& final(self)@.checkpoints == old(self)@.checkpoints.push(c@)
                &&& step_taken(
                    old(self)@.checkpoints,
                    CheckpointStep::Recorded(c@),
                    final(self)@.checkpoints,
                )
            },
            r is None ==> final(self)@.checkpoints == old(self)@.checkpoints,
    {
        let id = match fresh_id() {
            Some(id) => id,
            None => return None,
        };
        match now_timestamp() {
            Some(timestamp) => Some(self.record_move(id, timestamp, source, destination)),
            None => None,
        }
    }

    /// Records the checkpoint `id`, taken at `timestamp`, before `source` is moved to
    /// `destination`, and returns it.
    pub fn record_move(&mut self, id: String, timestamp: String, source: &str, destination: &str) -> (c:
        Checkpoint)
        ensures
            c@ == move_record(id@, timestamp@, source@, destination@),
            final(self)@.checkpoints == old(self)@.checkpoints.push(c@),
            final(self)@.dir == old(self)@.dir,
            step_taken(old(self)@.checkpoints, CheckpointStep::Recorded(c@), final(self)@.checkpoints),
    {
        let checkpoint = Checkpoint {
            id,
            timestamp,
            command: owned("mv"),
            args: vec![owned(source), owned(destination)],
            operation: CheckpointOp::FileMoved {
                source: owned(source),
                destination: owned(destination),
            },
        };
        assert(checkpoint.args.deep_view() =~= seq![source@, destination@]);
        self.push(checkpoint.duplicate());
        checkpoint
    }

    fn push(&mut self, c: Checkpoint)
        ensures
            final(self)@.dir == old(self)@.dir,
            final(self)@.checkpoints == old(self)@.checkpoints.push(c@),
    {
        self.checkpoints.push(c);
        assert(self@.checkpoints =~= old(self)@.checkpoints.push(c@));
    }

    /// Takes the latest checkpoint off and says how to undo it; `None` where there is
    /// no checkpoint.
    pub fn undo_last(&mut self) -> (r: Option<UndoStep>)
        ensures
            final(self)@.dir == old(self)@.dir,
            old(self)@.checkpoints.len() == 0 ==> (r is None
                && final(self)@.checkpoints == old(self)@.checkpoints),
            old(self)@.checkpoints.len() > 0 ==> (r matches Some(s)
                && s@ == undo_spec(old(self)@.checkpoints.last())
                && final(self)@.checkpoints == old(self)@.checkpoints.drop_last()),
            step_taken(old(self)@.checkpoints, CheckpointStep::Undone, final(self)@.checkpoints),
    {
        match self.checkpoints.pop() {
            None => None,
            Some(c) => {
                assert(self@.checkpoints =~= old(self)@.checkpoints.drop_last());
                Some(c.undo_step())
            },
        }
    }

    /// The number of checkpoints that can be undone.
    pub fn checkpoint_count(&self) -> (r: usize)
        ensures
            r == self@.checkpoints.len(),
    {
        self.checkpoints.len()
    }
}

/// Undo takes the latest checkpoint first: after a checkpoint is recorded, undo gives
/// the step for that checkpoint and leaves the checkpoints as they were before.
pub proof fn law_undo_takes_latest(before: Seq<CheckpointView>, c: CheckpointView)
    ensures
        before.push(c).drop_last() == before,
        before.push(c).last() == c,
        before.push(c).len() == before.len() + 1,
{
    assert(before.push(c).drop_last() =~= before);
}

/// Undoing a move right after it was recorded renames the destination back to the
/// source, and leaves the checkpoints as they were before the move.
pub proof fn law_undo_reverses_move(
    before: Seq<CheckpointView>,
    id: Seq<char>,
    timestamp: Seq<char>,
    source: Seq<char>,
    destination: Seq<char>,
)
    ensures
        ({
            let after = before.push(move_record(id, timestamp, source, destination));
            &&& after.drop_last() == before
            &&& undo_spec(after.last()) matches UndoView::MoveBack { from, to, .. }
            &&& from == destination
            &&& to == source
        }),
{
    law_undo_takes_latest(before, move_record(id, timestamp, source, destination));
}

/// Undoing a removal right after it was recorded renames the backup copy back to the
/// removed path, and leaves the checkpoints as they were before the removal.
pub proof fn law_undo_restores_removed(
    before: Seq<CheckpointView>,
    id: Seq<char>,
    timestamp: Seq<char>,
    dir: Seq<char>,
    path: Seq<char>,
)
    ensures
        ({
            let after = before.push(remove_record(id, timestamp, dir, path));
            &&& after.drop_last() == before
            &&& undo_spec(after.last()) matches UndoView::MoveBack { from, to, done, .. }
            &&& from == join_path(dir, id)
            &&& to == path
            &&& done == "Restored: "@ + path
        }),
{
    law_undo_takes_latest(before, remove_record(id, timestamp, dir, path));
}

/// One step taken on a checkpoint manager: a checkpoint recorded (by `checkpoint_move`
/// or `checkpoint_remove`, where they return one), or a call of `undo_last`. A call
/// that returns no checkpoint changes nothing and is no step.
pub enum CheckpointStep {
    Recorded(CheckpointView),
    Undone,
}

/// Whether a step turns the checkpoints `before` into `after`, as the functions that
/// take it change them.
pub open spec fn step_taken(
    before: Seq<CheckpointView>,
    step: CheckpointStep,
    after: Seq<CheckpointView>,
) -> bool {
    match step {
        CheckpointStep::Recorded(c) => after == before.push(c),
        CheckpointStep::Undone => after == if before.len() == 0 {
            before
        } else {
            before.drop_last()
        },
    }
}

/// Whether `states` are the checkpoints before the first of `steps` and after each of
/// them in turn.
pub open spec fn follows_steps(states: Seq<Seq<CheckpointView>>, steps: Seq<CheckpointStep>) -> bool {
    &&& states.len() == steps.len() + 1
    &&& forall|i: int| 0 <= i < steps.len() ==> step_taken(states[i], #[trigger] steps[i], states[i + 1])
}

/// The number of checkpoints after `steps` taken from none: one more for each recorded
/// checkpoint, one fewer for each undo while there was one to undo.
pub open spec fn count_after(steps: Seq<CheckpointStep>) -> nat
    decreases steps.len(),
{
    if steps.len() == 0 {
        0
    } else {
        let n = count_after(steps.drop_last());
        match steps.last() {
            CheckpointStep::Recorded(_) => n + 1,
            CheckpointStep::Undone => if n > 0 {
                (n - 1) as nat
            } else {
                0
            },
        }
    }
}

/// Counting: starting from a new manager, which has no checkpoint, the count after any
/// sequence of recorded checkpoints and undos is the number recorded less the number of
/// undos made while there was a checkpoint to undo.
pub proof fn law_checkpoint_count(states: Seq<Seq<CheckpointView>>, steps: Seq<CheckpointStep>)
    requires
        follows_steps(states, steps),
        states[0].len() == 0,
    ensures
        states.last().len() == count_after(steps),
    decreases steps.len(),
{
    if steps.len() > 0 {
        let n = steps.len() - 1;
        let fewer = states.drop_last();
        let prefix = steps.drop_last();
        assert forall|i: int| 0 <= i < prefix.len() implies step_taken(
            fewer[i],
            #[trigger] prefix[i],
            fewer[i + 1],
        ) by {
            assert(prefix[i] == steps[i]);
            assert(step_taken(states[i], steps[i], states[i + 1]));
        }
        law_checkpoint_count(fewer, prefix);
        assert(step_taken(states[n], steps[n], states[n + 1]));
    }
}

} // verus!

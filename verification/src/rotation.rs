//! Rotation: every file of the download directory is moved into the archive
//! directory under its own base name, after both directories were made sure
//! to exist.

use vstd::prelude::*;
use vstd::string::{StrSliceExecFns, StringExecFns};

verus! {

/// Whether a file name begins with a dot.
pub open spec fn starts_with_dot(name: Seq<char>) -> bool {
    name.len() > 0 && name[0] == '.'
}

/// Whether a traversal visits an entry. The root itself, at depth 0, is always
/// visited. Below the root an entry is visited when its name can be read as
/// text and does not begin with a dot.
pub open spec fn is_visible(file_name: Option<Seq<char>>, depth: nat) -> bool {
    depth == 0 || match file_name {
        Some(name) => !starts_with_dot(name),
        None => false,
    }
}

/// The file name as a sequence of characters, when it is readable as text.
pub open spec fn name_text(file_name: Option<&str>) -> Option<Seq<char>> {
    match file_name {
        Some(name) => Some(name@),
        None => None,
    }
}

/// Decides whether the traversal of the download directory visits an entry,
/// given its file name (`None` when the name is not valid Unicode) and its
/// depth below the root of the traversal. An entry that is not visited is not
/// moved, and if it is a directory nothing below it is visited either.
pub fn is_not_hidden(file_name: Option<&str>, depth: usize) -> (visible: bool)
    ensures
        visible == is_visible(name_text(file_name), depth as nat),
{
    depth == 0 || match file_name {
        Some(name) => name.is_empty() || name.get_char(0) != '.',
        None => false,
    }
}

/// A dot file below the root is never visited, at whatever depth it lies.
pub proof fn lemma_nested_dot_file_is_hidden(name: Seq<char>, depth: nat)
    requires
        starts_with_dot(name),
        depth > 0,
    ensures
        !is_visible(Some(name), depth),
{
}

/// The root of the traversal is visited whatever its name is, also when it
/// begins with a dot.
pub proof fn lemma_root_is_visible(file_name: Option<Seq<char>>)
    ensures
        is_visible(file_name, 0),
{
}

/// One entry that the traversal of the download directory came by.
#[derive(Debug, Clone, PartialEq, Eq)]
pub struct Entry {
    /// The full path of the entry, the root of the traversal included.
    pub path: String,
    /// The last component of the path.
    pub file_name: String,
    /// Whether the entry is a directory.
    pub is_dir: bool,
}

/// An [`Entry`] as plain text.
pub struct EntryView {
    pub path: Seq<char>,
    pub file_name: Seq<char>,
    pub is_dir: bool,
}

impl View for Entry {
    type V = EntryView;

    open spec fn view(&self) -> EntryView {
        EntryView { path: self.path@, file_name: self.file_name@, is_dir: self.is_dir }
    }
}

/// One file to move into the archive directory, where it keeps its base name
/// and loses the directories it lay in.
#[derive(Debug, Clone, PartialEq, Eq)]
pub struct Move {
    /// The path the file is found at.
    pub from: String,
    /// The name it gets in the archive directory.
    pub file_name: String,
}

/// A [`Move`] as plain text.
pub struct MoveView {
    pub from: Seq<char>,
    pub file_name: Seq<char>,
}

impl View for Move {
    type V = MoveView;

    open spec fn view(&self) -> MoveView {
        MoveView { from: self.from@, file_name: self.file_name@ }
    }
}

/// The entries of a listing as plain text, in the same order.
pub open spec fn entry_views(entries: Seq<Entry>) -> Seq<EntryView> {
    entries.map_values(|entry: Entry| entry@)
}

/// The moves of a plan as plain text, in the same order.
pub open spec fn move_views(moves: Seq<Move>) -> Seq<MoveView> {
    moves.map_values(|step: Move| step@)
}

/// The move that takes an entry into the archive.
pub open spec fn move_of(entry: EntryView) -> MoveView {
    MoveView { from: entry.path, file_name: entry.file_name }
}

/// The moves that a listing asks for: one for each entry that is not a
/// directory, in the order of the listing.
pub open spec fn planned_moves(entries: Seq<EntryView>) -> Seq<MoveView> {
    entries.filter(|entry: EntryView| !entry.is_dir).map_values(|entry: EntryView| move_of(entry))
}

/// Plans the rotation of a listing: every entry that is not a directory is
/// moved, directories are left where they are.
pub fn plan_moves(entries: &Vec<Entry>) -> (moves: Vec<Move>)
    ensures
        move_views(moves@) == planned_moves(entry_views(entries@)),
{
    let mut moves: Vec<Move> = Vec::new();
    let mut i: usize = 0;
    while i < entries.len()
        invariant
            i <= entries.len(),
            move_views(moves@) == planned_moves(entry_views(entries@).take(i as int)),
        decreases entries.len() - i,
    {
        let ghost listed = entry_views(entries@);
        let ghost keep = |entry: EntryView| !entry.is_dir;
        let ghost to_move = |entry: EntryView| move_of(entry);
        proof {
            assert(listed.take(i + 1) =~= listed.take(i as int).push(listed[i as int]));
            listed.take(i as int).lemma_filter_push(listed[i as int], keep);
            listed.take(i as int).filter(keep).lemma_push_map_commute(to_move, listed[i as int]);
        }
        if !entries[i].is_dir {
            let planned = Move {
                from: entries[i].path.clone(),
                file_name: entries[i].file_name.clone(),
            };
            proof {
                assert(move_views(moves@.push(planned)) =~= move_views(moves@).push(planned@));
            }
            moves.push(planned);
        }
        i += 1;
    }
    proof {
        assert(entry_views(entries@).take(i as int) =~= entry_views(entries@));
    }
    moves
}

/// Why a rotation was given up.
#[derive(Debug, Clone, Copy, PartialEq, Eq, Structural)]
pub enum IoError {
    /// One of the two directories is missing and could not be created.
    CreateDirectory,
    /// The download directory could not be listed.
    List,
    /// A file could not be moved into the archive directory.
    Move,
}

/// The sentence that tells of a failed rotation.
pub open spec fn io_message(error: IoError) -> Seq<char> {
    match error {
        IoError::CreateDirectory => "Could not create path"@,
        IoError::List => "Could not list directory"@,
        IoError::Move => "Could not move file to archive"@,
    }
}

impl IoError {
    /// A sentence for the person who runs the program.
    pub fn message(&self) -> (text: String)
        ensures
            text@ == io_message(*self),
    {
        match self {
            IoError::CreateDirectory => String::from_str("Could not create path"),
            IoError::List => String::from_str("Could not list directory"),
            IoError::Move => String::from_str("Could not move file to archive"),
        }
    }
}

/// Where a rotation stands: the step that was asked for last.
#[derive(Debug, Clone, Copy, PartialEq, Eq, Structural)]
pub enum RotationStage {
    /// The download directory is being made sure to exist.
    CreatingSource,
    /// The archive directory is being made sure to exist.
    CreatingArchive,
    /// The download directory is being listed.
    Listing,
    /// The first of the pending moves is being carried out.
    Moving,
    /// Every file was moved.
    Done,
    /// The rotation was given up.
    Failed(IoError),
}

/// The state of a rotation as plain values.
pub struct RotationModel {
    /// The download directory.
    pub source: Seq<char>,
    /// The archive directory.
    pub archive: Seq<char>,
    pub stage: RotationStage,
    /// The moves that are still to be completed, the one in hand first.
    /// Empty unless the stage is `Moving`.
    pub pending: Seq<MoveView>,
}

/// A step that a rotation asks its driver to perform.
#[derive(Debug, Clone, PartialEq, Eq)]
pub enum RotationAction {
    /// Create the directory and its missing parents, unless it exists.
    EnsureDirectory { path: String },
    /// Walk the directory and what lies below it, visiting the entries that
    /// [`is_not_hidden`] lets through and none below a directory that it
    /// holds back.
    ListEntries { root: String },
    /// Rename `from` to `file_name` inside `to_dir`.
    MoveFile { from: String, to_dir: String, file_name: String },
    /// Nothing is left to do.
    Finish,
    /// The rotation failed; nothing more will be asked for.
    Abort { error: IoError },
}

/// A [`RotationAction`] as plain text.
pub enum RotationActionView {
    EnsureDirectory { path: Seq<char> },
    ListEntries { root: Seq<char> },
    MoveFile { from: Seq<char>, to_dir: Seq<char>, file_name: Seq<char> },
    Finish,
    Abort { error: IoError },
}

impl View for RotationAction {
    type V = RotationActionView;

    open spec fn view(&self) -> RotationActionView {
        match *self {
            RotationAction::EnsureDirectory { path } => RotationActionView::EnsureDirectory {
                path: path@,
            },
            RotationAction::ListEntries { root } => RotationActionView::ListEntries { root: root@ },
            RotationAction::MoveFile { from, to_dir, file_name } => RotationActionView::MoveFile {
                from: from@,
                to_dir: to_dir@,
                file_name: file_name@,
            },
            RotationAction::Finish => RotationActionView::Finish,
            RotationAction::Abort { error } => RotationActionView::Abort { error },
        }
    }
}

/// How the step that a rotation asked for ended.
#[derive(Debug, Clone, PartialEq, Eq)]
pub enum RotationEvent {
    /// The step was carried out.
    Succeeded,
    /// The step could not be carried out.
    Failed,
    /// The directory was walked: the entries that were visited and could be
    /// read, in the order of the walk.
    Listed(Vec<Entry>),
}

/// A [`RotationEvent`] as plain text.
pub enum RotationEventView {
    Succeeded,
    Failed,
    Listed(Seq<EntryView>),
}

impl View for RotationEvent {
    type V = RotationEventView;

    open spec fn view(&self) -> RotationEventView {
        match *self {
            RotationEvent::Succeeded => RotationEventView::Succeeded,
            RotationEvent::Failed => RotationEventView::Failed,
            RotationEvent::Listed(entries) => RotationEventView::Listed(entry_views(entries@)),
        }
    }
}

/// The state in which a rotation from `source` into `archive` begins.
pub open spec fn rotation_start(source: Seq<char>, archive: Seq<char>) -> RotationModel {
    RotationModel { source, archive, stage: RotationStage::CreatingSource, pending: Seq::empty() }
}

/// The state `stage`, with nothing pending.
pub open spec fn rotation_at(model: RotationModel, stage: RotationStage) -> RotationModel {
    RotationModel { stage, pending: Seq::empty(), ..model }
}

/// A rotation that gives up with `error`.
pub open spec fn rotation_failure(model: RotationModel, error: IoError) -> (
    RotationModel,
    RotationActionView,
) {
    (rotation_at(model, RotationStage::Failed(error)), RotationActionView::Abort { error })
}

/// A rotation that turns to the moves in `pending`: it asks for the first,
/// or finishes if there is none.
pub open spec fn rotation_moving(model: RotationModel, pending: Seq<MoveView>) -> (
    RotationModel,
    RotationActionView,
) {
    if pending.len() == 0 {
        (rotation_at(model, RotationStage::Done), RotationActionView::Finish)
    } else {
        (
            RotationModel { stage: RotationStage::Moving, pending, ..model },
            RotationActionView::MoveFile {
                from: pending[0].from,
                to_dir: model.archive,
                file_name: pending[0].file_name,
            },
        )
    }
}

/// The rule of a rotation: the state it goes to and the step it asks for when,
/// in state `model`, it is told that the step it asked for last ended in
/// `event`.
///
/// Both directories are made sure to exist, the download directory first.
/// Then the download directory is listed and the files of the listing are
/// moved one by one, in its order. Whatever is not the success of the step in
/// hand ends the rotation with that step's error; after a move that failed,
/// the files that follow it stay where they are.
pub open spec fn rotation_step(model: RotationModel, event: RotationEventView) -> (
    RotationModel,
    RotationActionView,
) {
    match model.stage {
        RotationStage::CreatingSource => if event is Succeeded {
            (
                rotation_at(model, RotationStage::CreatingArchive),
                RotationActionView::EnsureDirectory { path: model.archive },
            )
        } else {
            rotation_failure(model, IoError::CreateDirectory)
        },
        RotationStage::CreatingArchive => if event is Succeeded {
            (
                rotation_at(model, RotationStage::Listing),
                RotationActionView::ListEntries { root: model.source },
            )
        } else {
            rotation_failure(model, IoError::CreateDirectory)
        },
        RotationStage::Listing => match event {
            RotationEventView::Listed(entries) => rotation_moving(model, planned_moves(entries)),
            _ => rotation_failure(model, IoError::List),
        },
        RotationStage::Moving => if event is Succeeded {
            rotation_moving(model, model.pending.drop_first())
        } else {
            rotation_failure(model, IoError::Move)
        },
        RotationStage::Done => (model, RotationActionView::Finish),
        RotationStage::Failed(error) => (model, RotationActionView::Abort { error }),
    }
}

/// A rotation in progress. It performs nothing itself: it names one step at a
/// time and is told how the step ended.
#[derive(Debug)]
pub struct Rotation {
    source: String,
    archive: String,
    stage: RotationStage,
    queue: Vec<Move>,
    next: usize,
}

impl View for Rotation {
    type V = RotationModel;

    closed spec fn view(&self) -> RotationModel {
        RotationModel {
            source: self.source@,
            archive: self.archive@,
            stage: self.stage,
            pending: if self.stage is Moving {
                move_views(self.queue@).skip(self.next as int)
            } else {
                Seq::empty()
            },
        }
    }
}

impl Rotation {
    #[verifier::type_invariant]
    spec fn well_formed(&self) -> bool {
        self.stage is Moving ==> self.next < self.queue.len()
    }

    /// Begins the rotation of `source` into `archive`. The first step is to
    /// make sure that `source` exists.
    pub fn begin(source: String, archive: String) -> (started: (Rotation, RotationAction))
        ensures
            started.0@ == rotation_start(source@, archive@),
            started.1@ == (RotationActionView::EnsureDirectory { path: source@ }),
    {
        let action = RotationAction::EnsureDirectory { path: source.clone() };
        let rotation = Rotation {
            source,
            archive,
            stage: RotationStage::CreatingSource,
            queue: Vec::new(),
            next: 0,
        };
        (rotation, action)
    }

    /// Where the rotation stands.
    pub fn stage(&self) -> (stage: RotationStage)
        ensures
            stage == self@.stage,
    {
        self.stage
    }

    fn fail(&mut self, error: IoError) -> (action: RotationAction)
        ensures
            (final(self)@, action@) == rotation_failure(old(self)@, error),
    {
        self.stage = RotationStage::Failed(error);
        RotationAction::Abort { error }
    }

    fn move_in_hand(&self) -> (action: RotationAction)
        requires
            self.next < self.queue.len(),
        ensures
            action@ == (RotationActionView::MoveFile {
                from: self.queue[self.next as int].from@,
                to_dir: self.archive@,
                file_name: self.queue[self.next as int].file_name@,
            }),
    {
        RotationAction::MoveFile {
            from: self.queue[self.next].from.clone(),
            to_dir: self.archive.clone(),
            file_name: self.queue[self.next].file_name.clone(),
        }
    }

    /// Tells the rotation how the step it asked for last ended, and returns
    /// the step to perform next.
    pub fn step(&mut self, event: RotationEvent) -> (action: RotationAction)
        ensures
            (final(self)@, action@) == rotation_step(old(self)@, event@),
    {
        proof {
            use_type_invariant(&*self);
        }
        match self.stage {
            RotationStage::CreatingSource => match event {
                RotationEvent::Succeeded => {
                    self.stage = RotationStage::CreatingArchive;
                    RotationAction::EnsureDirectory { path: self.archive.clone() }
                },
                _ => self.fail(IoError::CreateDirectory),
            },
            RotationStage::CreatingArchive => match event {
                RotationEvent::Succeeded => {
                    self.stage = RotationStage::Listing;
                    RotationAction::ListEntries { root: self.source.clone() }
                },
                _ => self.fail(IoError::CreateDirectory),
            },
            RotationStage::Listing => match event {
                RotationEvent::Listed(entries) => {
                    self.queue = plan_moves(&entries);
                    self.next = 0;
                    proof {
                        assert(move_views(self.queue@).skip(0) =~= move_views(self.queue@));
                    }
                    if self.queue.len() > 0 {
                        self.stage = RotationStage::Moving;
                        self.move_in_hand()
                    } else {
                        self.stage = RotationStage::Done;
                        RotationAction::Finish
                    }
                },
                _ => self.fail(IoError::List),
            },
            RotationStage::Moving => match event {
                RotationEvent::Succeeded => {
                    proof {
                        assert(move_views(self.queue@).skip(self.next as int).drop_first()
                            =~= move_views(self.queue@).skip(self.next + 1));
                    }
                    if self.next + 1 < self.queue.len() {
                        self.next = self.next + 1;
                        self.move_in_hand()
                    } else {
                        self.stage = RotationStage::Done;
                        RotationAction::Finish
                    }
                },
                _ => self.fail(IoError::Move),
            },
            RotationStage::Done => RotationAction::Finish,
            RotationStage::Failed(error) => RotationAction::Abort { error },
        }
    }
}

/// The state a rotation is in, and the step it asks for, once the listing
/// `entries` has arrived in state `model` and the first `moved` moves have
/// succeeded.
pub open spec fn rotation_after(model: RotationModel, entries: Seq<EntryView>, moved: nat) -> (
    RotationModel,
    RotationActionView,
)
    decreases moved,
{
    if moved == 0 {
        rotation_step(model, RotationEventView::Listed(entries))
    } else {
        rotation_step(
            rotation_after(model, entries, (moved - 1) as nat).0,
            RotationEventView::Succeeded,
        )
    }
}

proof fn lemma_rotation_after(model: RotationModel, entries: Seq<EntryView>, moved: nat)
    requires
        model.stage is Listing,
        moved <= planned_moves(entries).len(),
    ensures
        rotation_after(model, entries, moved) == rotation_moving(
            model,
            planned_moves(entries).skip(moved as int),
        ),
    decreases moved,
{
    let plan = planned_moves(entries);
    if moved == 0 {
        assert(plan.skip(0) =~= plan);
    } else {
        lemma_rotation_after(model, entries, (moved - 1) as nat);
        assert(plan.skip(moved - 1).drop_first() =~= plan.skip(moved as int));
    }
}

/// Every file of a listing is moved, and in the listing's order: while the
/// moves succeed, the rotation asks for one planned move after the other,
/// each from the file's path to its base name in the archive directory, and
/// finishes after the last.
pub proof fn lemma_rotation_moves_every_file(
    model: RotationModel,
    entries: Seq<EntryView>,
    moved: nat,
)
    requires
        model.stage is Listing,
        moved <= planned_moves(entries).len(),
    ensures
        ({
            let plan = planned_moves(entries);
            let (state, action) = rotation_after(model, entries, moved);
            &&& state.source == model.source
            &&& state.archive == model.archive
            &&& moved < plan.len() ==> state.stage is Moving && action
                == (RotationActionView::MoveFile {
                from: plan[moved as int].from,
                to_dir: model.archive,
                file_name: plan[moved as int].file_name,
            })
            &&& moved == plan.len() ==> state.stage is Done && action == RotationActionView::Finish
        }),
{
    lemma_rotation_after(model, entries, moved);
}

/// A plan has a move for every entry of the listing that is not a directory.
pub proof fn lemma_every_file_is_planned(entries: Seq<EntryView>, i: int)
    requires
        0 <= i < entries.len(),
        !entries[i].is_dir,
    ensures
        planned_moves(entries).contains(move_of(entries[i])),
{
    let keep = |entry: EntryView| !entry.is_dir;
    let files = entries.filter(keep);
    entries.lemma_filter_contains(keep, i);
    let k = choose|k: int| 0 <= k < files.len() && files[k] == entries[i];
    assert(planned_moves(entries)[k] == move_of(entries[i]));
}

/// A plan moves nothing but files of the listing: each of its moves is that
/// of an entry which is not a directory.
pub proof fn lemma_only_files_are_planned(entries: Seq<EntryView>, k: int)
    requires
        0 <= k < planned_moves(entries).len(),
    ensures
        exists|i: int|
            0 <= i < entries.len() && !entries[i].is_dir && planned_moves(entries)[k] == move_of(
                #[trigger] entries[i],
            ),
{
    let keep = |entry: EntryView| !entry.is_dir;
    let files = entries.filter(keep);
    entries.lemma_filter_pred(keep, k);
    assert(files.contains(files[k]));
    entries.lemma_filter_contains_rev(keep, files[k]);
    let i = choose|i: int| 0 <= i < entries.len() && entries[i] == files[k];
    assert(planned_moves(entries)[k] == move_of(entries[i]));
}

/// Rotating a directory that holds no file moves nothing: when the listing
/// holds directories only, or nothing at all, the rotation finishes at once
/// and without an error.
pub proof fn lemma_nothing_to_rotate(model: RotationModel, entries: Seq<EntryView>)
    requires
        model.stage is Listing,
        forall|i: int| 0 <= i < entries.len() ==> (#[trigger] entries[i]).is_dir,
    ensures
        planned_moves(entries).len() == 0,
        rotation_step(model, RotationEventView::Listed(entries)) == (
            rotation_at(model, RotationStage::Done),
            RotationActionView::Finish,
        ),
{
    let keep = |entry: EntryView| !entry.is_dir;
    let files = entries.filter(keep);
    if files.len() > 0 {
        entries.lemma_filter_pred(keep, 0);
        assert(files.contains(files[0]));
        entries.lemma_filter_contains_rev(keep, files[0]);
    }
}

/// Both directories are made sure to exist before anything is listed or
/// moved, the download directory first, and the rotation is given up when
/// either cannot be had.
pub proof fn lemma_directories_come_first(
    source: Seq<char>,
    archive: Seq<char>,
    first: RotationEventView,
    second: RotationEventView,
)
    ensures
        ({
            let start = rotation_start(source, archive);
            let (after_first, action) = rotation_step(start, first);
            let (after_second, then) = rotation_step(after_first, second);
            &&& first is Succeeded ==> action == (RotationActionView::EnsureDirectory {
                path: archive,
            })
            &&& !(first is Succeeded) ==> action == (RotationActionView::Abort {
                error: IoError::CreateDirectory,
            })
            &&& first is Succeeded && second is Succeeded ==> then
                == (RotationActionView::ListEntries { root: source })
            &&& !(first is Succeeded && second is Succeeded) ==> then
                == (RotationActionView::Abort { error: IoError::CreateDirectory })
        }),
{
}

/// A rotation that has failed stays as it is and asks for nothing more: the
/// files that were not moved yet stay where they are.
pub proof fn lemma_failed_rotation_stays_failed(model: RotationModel, event: RotationEventView)
    requires
        model.stage is Failed,
    ensures
        rotation_step(model, event) == (
            model,
            RotationActionView::Abort { error: model.stage->Failed_0 },
        ),
{
}

/// How far a rotation has come: a later stage has a higher rank.
pub open spec fn rotation_rank(stage: RotationStage) -> nat {
    match stage {
        RotationStage::CreatingSource => 0,
        RotationStage::CreatingArchive => 1,
        RotationStage::Listing => 2,
        RotationStage::Moving => 3,
        RotationStage::Done => 4,
        RotationStage::Failed(_) => 4,
    }
}

/// What holds of every state that a rotation is ever in: it is at the stage
/// `Moving` exactly when moves are pending.
pub open spec fn rotation_holds(model: RotationModel) -> bool {
    model.stage is Moving <==> model.pending.len() > 0
}

/// [`rotation_holds`] is true of the state in which a rotation begins, and a
/// step keeps it true.
pub proof fn lemma_rotation_holds(
    source: Seq<char>,
    archive: Seq<char>,
    model: RotationModel,
    event: RotationEventView,
)
    ensures
        rotation_holds(rotation_start(source, archive)),
        rotation_holds(model) ==> rotation_holds(rotation_step(model, event).0),
{
}

/// A rotation comes to an end. Once it is done or has failed nothing changes
/// any more; before that every step takes it to a later stage, or, while it
/// moves files, leaves one file less to move.
pub proof fn lemma_rotation_advances(model: RotationModel, event: RotationEventView)
    requires
        rotation_holds(model),
    ensures
        ({
            let (next, action) = rotation_step(model, event);
            if model.stage is Done || model.stage is Failed {
                next == model
            } else {
                ||| rotation_rank(next.stage) > rotation_rank(model.stage)
                ||| (model.stage is Moving && next.stage is Moving && next.pending.len() + 1
                    == model.pending.len())
            }
        }),
{
}

} // verus!

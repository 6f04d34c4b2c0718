//! The application state machine: chord handling, the saved-selection
//! register, building invocations for actions, and draining the command queue.
use crate::command_tree::{help_listing_of, resolve_spec, ChordResolution, CommandTree, NodeView};
use crate::info::{display_unbound_error_lines, info_view, unbound_added, InfoLine, InfoLineView};
use crate::jj_command::{
    abandon_view, abandon_restore_descendants_view, abandon_retain_bookmarks_view, absorb_into_view,
    absorb_view, bookmark_create_view, bookmark_delete_view, bookmark_forget_include_remotes_view,
    bookmark_forget_view, bookmark_move_allow_backwards_view, bookmark_move_tug_view,
    bookmark_move_view, bookmark_rename_view, bookmark_set_view, bookmark_track_view,
    bookmark_untrack_view, commit_view, describe_view, diff_file_interactive_view,
    diff_from_to_interactive_view, duplicate_insert_after_view, duplicate_insert_before_view,
    duplicate_onto_view, duplicate_view, edit_view, evolog_patch_view, evolog_view, fetch_all_remotes_view,
    fetch_branch_view, fetch_remote_view, fetch_tracked_view, fetch_view, file_track_view,
    file_untrack_view, interdiff_view, metaedit_force_rewrite_view, metaedit_set_author_timestamp_view,
    metaedit_set_author_view, metaedit_update_author_timestamp_view, metaedit_update_author_view,
    metaedit_update_change_id_view, new_after_trunk_view, new_before_view, new_insert_after_view,
    new_view, next_conflict_view, next_edit_offset_view, next_edit_view, next_no_edit_offset_view,
    next_no_edit_view, next_offset_view, next_view, parallelize_view, prev_conflict_view,
    prev_edit_offset_view, prev_edit_view, prev_no_edit_offset_view, prev_no_edit_view,
    prev_offset_view, prev_view, push_all_view, push_bookmark_view, push_change_view,
    push_deleted_view, push_named_view, push_revision_view, push_tracked_view, push_view,
    rebase_after_destination_no_descendants_view, rebase_after_destination_view,
    rebase_before_destination_no_descendants_view, rebase_before_destination_view,
    rebase_branch_onto_destination_view, rebase_branch_onto_trunk_view,
    rebase_onto_destination_no_descendants_view, rebase_onto_destination_view,
    rebase_onto_trunk_view, redo_view, restore_from_into_view, restore_from_view,
    restore_into_view, restore_restore_descendants_view, restore_view, revert_insert_after_view,
    revert_insert_before_view, revert_onto_view, show_view, sign_view, simplify_parents_source_view,
    simplify_parents_view, squash_interactive_view, squash_into_interactive_view,
    squash_noninteractive_view, status_view, undo_view, unsign_view, GlobalArgs, JjCommand,
    JjCommandError, JjCommandView,
};
use crate::keys::Key;
use crate::message::Message;
use vstd::prelude::*;

verus! {

/// Whether the main loop keeps going.
#[derive(Debug, Clone, Copy, PartialEq, Eq, Structural)]
pub enum State {
    Running,
    Quit,
}

/// What the view model reports about the current selection.
#[derive(Debug, Clone)]
pub struct Selection {
    /// The change of the selected revision, or of the revision that holds
    /// the selected file or hunk; `None` when the selection resolves to nothing.
    pub change_id: Option<String>,
    /// The selected file, when a file diff (or a line of it) is selected.
    pub file_path: Option<String>,
    /// Whether the selected revision is the working copy.
    pub is_working_copy: bool,
    /// Whether the selected revision has a description.
    pub has_description: bool,
    /// The selection's index in the flattened log.
    pub log_index: usize,
}

pub struct SelectionView {
    pub change_id: Option<Seq<char>>,
    pub file_path: Option<Seq<char>>,
    pub is_working_copy: bool,
    pub has_description: bool,
    pub log_index: usize,
}

pub open spec fn opt_string_view(o: Option<String>) -> Option<Seq<char>> {
    match o {
        Some(s) => Some(s@),
        None => None,
    }
}

impl Selection {
    pub open spec fn view(&self) -> SelectionView {
        SelectionView {
            change_id: opt_string_view(self.change_id),
            file_path: opt_string_view(self.file_path),
            is_working_copy: self.is_working_copy,
            has_description: self.has_description,
            log_index: self.log_index,
        }
    }
}

/// The one-slot register of two-step commands: empty, or a change with the
/// file and list index that were selected with it, always set together.
#[derive(Debug)]
pub enum SavedSelection {
    Empty,
    Saved { change_id: String, file_path: Option<String>, log_index: usize },
}

pub struct SavedView {
    pub change_id: Seq<char>,
    pub file_path: Option<Seq<char>>,
    pub log_index: usize,
}

pub open spec fn saved_view(s: SavedSelection) -> Option<SavedView> {
    match s {
        SavedSelection::Empty => None,
        SavedSelection::Saved { change_id, file_path, log_index } => Some(
            SavedView { change_id: change_id@, file_path: opt_string_view(file_path), log_index },
        ),
    }
}

/// One command of the current batch that has run, with the text shown for it.
#[derive(Debug)]
pub struct CommandRecord {
    pub args: Vec<String>,
    pub output: String,
}

/// A record in plain values: the command's arguments and its output.
pub type RecordView = (Seq<Seq<char>>, Seq<char>);

/// How a run of the front command ended, in plain values.
pub enum OutcomeView {
    Output(Seq<char>),
    Failed(Seq<char>),
    Other(Seq<char>),
}

pub open spec fn outcome_view(r: Result<String, JjCommandError>) -> OutcomeView {
    match r {
        Ok(s) => OutcomeView::Output(s@),
        Err(JjCommandError::Failed { stderr }) => OutcomeView::Failed(stderr@),
        Err(JjCommandError::Other { err }) => OutcomeView::Other(err@),
    }
}

/// What one step of the queue did.
#[derive(Debug, Clone, Copy, PartialEq, Eq, Structural)]
pub enum QueueStep {
    /// Nothing was queued.
    Idle,
    /// The command succeeded and another one is next.
    Next,
    /// The last command succeeded; `resync` asks for the view model to be reloaded.
    Finished { resync: bool },
    /// The command failed; the rest of the batch is discarded.
    Failed,
    /// The command could not be run at all; the program cannot go on.
    Fatal,
}

pub struct ModelView {
    pub global_args: (Seq<char>, bool),
    pub display_repository: Seq<char>,
    pub revset: Seq<char>,
    pub state: State,
    pub tree: Seq<NodeView>,
    pub chord: Seq<Key>,
    pub queue: Seq<JjCommandView>,
    pub transcript: Seq<RecordView>,
    pub saved: Option<SavedView>,
    pub info: Option<Seq<InfoLineView>>,
}

/// The state of the application outside the view model.
#[derive(Debug)]
pub struct Model {
    pub global_args: GlobalArgs,
    pub display_repository: String,
    pub revset: String,
    pub state: State,
    command_tree: CommandTree,
    command_keys: Vec<Key>,
    queued_jj_commands: Vec<JjCommand>,
    accumulated_command_output: Vec<CommandRecord>,
    saved: SavedSelection,
    pub info_list: Option<Vec<InfoLine>>,
}

pub open spec fn records_view(rs: Seq<CommandRecord>) -> Seq<RecordView> {
    rs.map_values(|r: CommandRecord| (r.args.deep_view(), r.output@))
}

pub open spec fn commands_view(cs: Seq<JjCommand>) -> Seq<JjCommandView> {
    cs.map_values(|c: JjCommand| c@)
}

impl View for Model {
    type V = ModelView;

    closed spec fn view(&self) -> ModelView {
        ModelView {
            global_args: self.global_args.view(),
            display_repository: self.display_repository@,
            revset: self.revset@,
            state: self.state,
            tree: self.command_tree@,
            chord: self.command_keys@,
            queue: commands_view(self.queued_jj_commands@),
            transcript: records_view(self.accumulated_command_output@),
            saved: saved_view(self.saved),
            info: info_view(self.info_list),
        }
    }
}

/// The lines of a transcript: each command's invocation line, a blank line
/// and its output, with a blank line between commands.
pub open spec fn transcript_lines(t: Seq<RecordView>) -> Seq<InfoLineView>
    decreases t.len(),
{
    if t.len() == 0 {
        seq![]
    } else {
        transcript_lines(t.drop_last()) + (if t.len() > 1 {
            seq![InfoLineView::Blank]
        } else {
            seq![]
        }) + seq![
            InfoLineView::Invocation(t.last().0),
            InfoLineView::Blank,
            InfoLineView::Output(t.last().1),
        ]
    }
}

/// The notice while a batch runs: what ran so far, then the next command.
pub open spec fn running_notice(t: Seq<RecordView>, queue: Seq<JjCommandView>) -> Seq<InfoLineView> {
    transcript_lines(t) + if queue.len() > 0 {
        seq![
            InfoLineView::Invocation(queue[0].args),
            InfoLineView::Blank,
            InfoLineView::Plain("Running..."@),
        ]
    } else {
        seq![]
    }
}

/// Everything transient cleared: notice, register, chord and batch.
pub open spec fn cleared(m: ModelView) -> ModelView {
    ModelView { info: None, saved: None, chord: seq![], queue: seq![], transcript: seq![], ..m }
}

/// A precondition of the action failed: the notice says so and the chord
/// and the saved register are cleared.
pub open spec fn after_invalid_selection(m: ModelView) -> ModelView {
    ModelView {
        info: Some(seq![InfoLineView::Plain("Invalid selection"@)]),
        saved: None,
        chord: seq![],
        ..m
    }
}

/// The user gave no text for an action that needs it.
pub open spec fn after_cancelled(m: ModelView) -> ModelView {
    ModelView { info: Some(seq![InfoLineView::Plain("Cancelled"@)]), ..m }
}

/// A new batch replaces any previous one and its transcript.
pub open spec fn queued(m: ModelView, cmds: Seq<JjCommandView>) -> ModelView {
    ModelView {
        queue: cmds,
        transcript: seq![],
        info: Some(running_notice(seq![], cmds)),
        ..m
    }
}

/// The model after one step of the queue with this outcome.
pub open spec fn step_model(m: ModelView, o: OutcomeView) -> ModelView {
    if m.queue.len() == 0 {
        m
    } else {
        let cmd = m.queue[0];
        let rest = m.queue.drop_first();
        match o {
            OutcomeView::Output(text) => {
                let t = m.transcript.push((cmd.args, text));
                if rest.len() == 0 {
                    ModelView { info: Some(transcript_lines(t)), ..cleared(m) }
                } else {
                    ModelView { queue: rest, transcript: t, info: Some(running_notice(t, rest)), ..m }
                }
            },
            OutcomeView::Failed(err) => {
                let t = m.transcript.push((cmd.args, err));
                ModelView { info: Some(transcript_lines(t)), ..cleared(m) }
            },
            OutcomeView::Other(_) => ModelView { queue: rest, ..m },
        }
    }
}

pub open spec fn step_result(m: ModelView, o: OutcomeView) -> QueueStep {
    if m.queue.len() == 0 {
        QueueStep::Idle
    } else {
        match o {
            OutcomeView::Output(_) => if m.queue.len() == 1 {
                QueueStep::Finished { resync: m.queue[0].sync }
            } else {
                QueueStep::Next
            },
            OutcomeView::Failed(_) => QueueStep::Failed,
            OutcomeView::Other(_) => QueueStep::Fatal,
        }
    }
}

/// `from::to`: the changes from one to the other, both included.
pub open spec fn range_revset_view(from: Seq<char>, to: Seq<char>) -> Seq<char> {
    from + "::"@ + to
}

/// `id-::id`: a change together with its parents.
pub open spec fn parents_revset_view(id: Seq<char>) -> Seq<char> {
    id + "-::"@ + id
}

fn range_revset(from: &str, to: &str) -> (r: String)
    ensures
        r@ == range_revset_view(from@, to@),
{
    let mut r = String::from_str(from);
    r.append("::");
    r.append(to);
    r
}

fn parents_revset(id: &str) -> (r: String)
    ensures
        r@ == parents_revset_view(id@),
{
    let mut r = String::from_str(id);
    r.append("-::");
    r.append(id);
    r
}

fn opt_str(o: &Option<String>) -> (r: Option<&str>)
    ensures
        crate::jj_command::opt_str_view(r) == opt_string_view(*o),
{
    match o {
        Some(s) => Some(s.as_str()),
        None => None,
    }
}

fn plain(text: &str) -> (r: Vec<InfoLine>)
    ensures
        crate::info::lines_view(r@) == seq![InfoLineView::Plain(text@)],
{
    let r = vec![InfoLine::Plain(String::from_str(text))];
    assert(crate::info::lines_view(r@) =~= seq![InfoLineView::Plain(text@)]);
    r
}

impl Model {
    pub closed spec fn inv(&self) -> bool {
        self.command_tree.wf()
    }

    /// A running model with the built-in chords and nothing transient.
    pub fn new(repository: String, revset: String, home_dir: Option<&str>) -> (r: Self)
        ensures
            r.inv(),
            crate::builtin::builtin_tree(r@.tree),
            r@.state == State::Running,
            r@.global_args == (repository@, false),
            r@.revset == revset@,
            r@.display_repository == crate::display::display_repository(repository@, crate::jj_command::opt_str_view(home_dir)),
            r@.chord.len() == 0,
            r@.queue.len() == 0,
            r@.transcript.len() == 0,
            r@.saved is None,
            r@.info is None,
    {
        let display_repository = crate::display::format_repository_for_display(repository.as_str(), home_dir);
        Model {
            global_args: GlobalArgs { repository, ignore_immutable: false },
            display_repository,
            revset,
            state: State::Running,
            command_tree: CommandTree::new(),
            command_keys: Vec::new(),
            queued_jj_commands: Vec::new(),
            accumulated_command_output: Vec::new(),
            saved: SavedSelection::Empty,
            info_list: None,
        }
    }

    pub fn quit(&mut self)
        ensures
            final(self)@ == (ModelView { state: State::Quit, ..old(self)@ }),
            final(self).inv() == old(self).inv(),
    {
        self.state = State::Quit;
    }

    pub fn toggle_ignore_immutable(&mut self)
        ensures
            final(self)@ == (ModelView {
                global_args: (old(self)@.global_args.0, !old(self)@.global_args.1),
                ..old(self)@
            }),
            final(self).inv() == old(self).inv(),
    {
        self.global_args.ignore_immutable = !self.global_args.ignore_immutable;
    }

    /// Clears the notice, the register, the chord and the batch.
    pub fn clear(&mut self)
        ensures
            final(self)@ == cleared(old(self)@),
            final(self).inv() == old(self).inv(),
    {
        self.info_list = None;
        self.saved = SavedSelection::Empty;
        self.command_keys.clear();
        self.queued_jj_commands.clear();
        self.accumulated_command_output.clear();
        assert(commands_view(self.queued_jj_commands@) =~= seq![]);
        assert(records_view(self.accumulated_command_output@) =~= seq![]);
    }

    fn cancelled(&mut self)
        ensures
            final(self)@ == after_cancelled(old(self)@),
            final(self).inv() == old(self).inv(),
    {
        self.info_list = Some(plain("Cancelled"));
    }

    fn invalid_selection(&mut self)
        ensures
            final(self)@ == after_invalid_selection(old(self)@),
            final(self).inv() == old(self).inv(),
    {
        self.info_list = Some(plain("Invalid selection"));
        self.saved = SavedSelection::Empty;
        self.command_keys.clear();
    }

    /// The keys of the chord in progress.
    pub fn command_keys(&self) -> (r: &Vec<Key>)
        ensures
            r@ == self@.chord,
    {
        &self.command_keys
    }

    /// The saved change, file and list index, if any.
    pub fn saved_selection(&self) -> (r: &SavedSelection)
        ensures
            saved_view(*r) == self@.saved,
    {
        &self.saved
    }

    /// The commands still queued in this batch.
    pub fn queued_jj_commands(&self) -> (r: &Vec<JjCommand>)
        ensures
            commands_view(r@) == self@.queue,
    {
        &self.queued_jj_commands
    }

    /// A copy of the saved change and file.
    fn saved_parts(&self) -> (r: Option<(String, Option<String>)>)
        ensures
            match self@.saved {
                None => r is None,
                Some(v) => r matches Some(p) && p.0@ == v.change_id && opt_string_view(p.1) == v.file_path,
            },
    {
        match &self.saved {
            SavedSelection::Empty => None,
            SavedSelection::Saved { change_id, file_path, .. } => {
                let path = match file_path {
                    Some(p) => Some(p.clone()),
                    None => None,
                };
                Some((change_id.clone(), path))
            },
        }
    }

    /// Shows the top-level help.
    pub fn show_help(&mut self)
        requires
            old(self).inv(),
        ensures
            final(self).inv(),
            final(self)@.info is Some,
            help_listing_of(
                final(self)@.info->0,
                crate::command_tree::group_set(
                    crate::command_tree::group_set(
                        old(self)@.tree[0].help,
                        "Navigation"@,
                        crate::command_tree::navigation_help(),
                    ),
                    "General"@,
                    crate::command_tree::general_help(),
                ),
            ),
            final(self)@ == (ModelView { info: final(self)@.info, ..old(self)@ }),
    {
        self.info_list = Some(self.command_tree.get_help());
    }

    /// Feeds one key to the chord. An unbound key is dropped from the chord,
    /// alone, and reported; a menu shows its help; an action is returned, and
    /// the chord ends there unless the node also opens a submenu.
    pub fn handle_command_key(&mut self, key_code: Key) -> (r: Option<Message>)
        requires
            old(self).inv(),
        ensures
            final(self).inv(),
            ({
                let c = old(self)@.chord.push(key_code);
                match resolve_spec(old(self)@.tree, c) {
                    ChordResolution::Unresolved => r is None && final(self)@ == (ModelView {
                        info: unbound_added(old(self)@.info, key_code),
                        ..old(self)@
                    }),
                    ChordResolution::Menu(n) => r is None && final(self)@ == (ModelView {
                        chord: c,
                        info: final(self)@.info,
                        ..old(self)@
                    }) && final(self)@.info is Some && help_listing_of(
                        final(self)@.info->0,
                        old(self)@.tree[n as int].help,
                    ),
                    ChordResolution::Action { message, node, has_children } => r == Some(message)
                        && if has_children {
                        final(self)@ == (ModelView {
                            chord: c,
                            info: final(self)@.info,
                            ..old(self)@
                        }) && final(self)@.info is Some && help_listing_of(
                            final(self)@.info->0,
                            old(self)@.tree[node as int].help,
                        )
                    } else {
                        final(self)@ == (ModelView { chord: seq![], ..old(self)@ })
                    },
                }
            }),
    {
        self.command_keys.push(key_code);
        match self.command_tree.resolve(self.command_keys.as_slice()) {
            ChordResolution::Unresolved => {
                self.command_keys.pop();
                assert(self.command_keys@ =~= old(self).command_keys@);
                display_unbound_error_lines(&mut self.info_list, &key_code);
                None
            },
            ChordResolution::Menu(n) => {
                self.info_list = Some(self.command_tree.node_help(n));
                None
            },
            ChordResolution::Action { message, node, has_children } => {
                if has_children {
                    self.info_list = Some(self.command_tree.node_help(node));
                } else {
                    self.command_keys.clear();
                }
                Some(message)
            },
        }
    }

    /// Stashes the current selection as the first half of a two-step command.
    pub fn save_selection(&mut self, sel: &Selection)
        requires
            old(self).inv(),
        ensures
            final(self).inv(),
            match sel@.change_id {
                None => final(self)@ == after_invalid_selection(cleared(old(self)@)),
                Some(id) => final(self)@ == (ModelView {
                    saved: Some(
                        SavedView { change_id: id, file_path: sel@.file_path, log_index: sel@.log_index },
                    ),
                    ..old(self)@
                }),
            },
    {
        match &sel.change_id {
            None => {
                self.clear();
                self.invalid_selection();
            },
            Some(id) => {
                let file_path = match &sel.file_path {
                    Some(p) => Some(p.clone()),
                    None => None,
                };
                self.saved = SavedSelection::Saved {
                    change_id: id.clone(),
                    file_path,
                    log_index: sel.log_index,
                };
            },
        }
    }

    fn queue_jj_command(&mut self, cmd: JjCommand)
        ensures
            final(self)@ == queued(old(self)@, seq![cmd@]),
            final(self).inv() == old(self).inv(),
    {
        let cmds = vec![cmd];
        assert(commands_view(cmds@) =~= seq![cmd@]);
        self.queue_jj_commands(cmds);
    }

    /// Starts a new batch, replacing any previous one and its transcript.
    pub fn queue_jj_commands(&mut self, cmds: Vec<JjCommand>)
        ensures
            final(self)@ == queued(old(self)@, commands_view(cmds@)),
            final(self).inv() == old(self).inv(),
    {
        self.accumulated_command_output.clear();
        self.queued_jj_commands = cmds;
        assert(records_view(self.accumulated_command_output@) =~= seq![]);
        self.update_info_list_for_queue();
    }

    fn update_info_list_for_queue(&mut self)
        ensures
            final(self)@ == (ModelView {
                info: Some(running_notice(old(self)@.transcript, old(self)@.queue)),
                ..old(self)@
            }),
            final(self).inv() == old(self).inv(),
    {
        let mut lines = self.transcript_lines();
        if self.queued_jj_commands.len() > 0 {
            let ghost before = lines@;
            let args = self.queued_jj_commands[0].args().clone();
            lines.push(InfoLine::Invocation(args));
            lines.push(InfoLine::Blank);
            lines.push(InfoLine::Plain(String::from_str("Running...")));
            assert(crate::info::lines_view(lines@) =~= crate::info::lines_view(before) + seq![
                InfoLineView::Invocation(self@.queue[0].args),
                InfoLineView::Blank,
                InfoLineView::Plain("Running..."@),
            ]);
        } else {
            assert(running_notice(self@.transcript, self@.queue) =~= transcript_lines(self@.transcript));
        }
        self.info_list = Some(lines);
    }

    /// The lines of the transcript so far.
    fn transcript_lines(&self) -> (r: Vec<InfoLine>)
        ensures
            crate::info::lines_view(r@) == transcript_lines(self@.transcript),
    {
        let mut r: Vec<InfoLine> = Vec::new();
        let mut i: usize = 0;
        let ghost t = self@.transcript;
        assert(t.take(0) =~= Seq::<RecordView>::empty());
        while i < self.accumulated_command_output.len()
            invariant
                i <= t.len(),
                t == self@.transcript,
                t.len() == self.accumulated_command_output@.len(),
                crate::info::lines_view(r@) == transcript_lines(t.take(i as int)),
            decreases t.len() - i,
        {
            let ghost before = r@;
            let rec = &self.accumulated_command_output[i];
            assert(t[i as int] == (rec.args.deep_view(), rec.output@));
            assert(t.take(i + 1).drop_last() =~= t.take(i as int));
            if i > 0 {
                r.push(InfoLine::Blank);
            }
            r.push(InfoLine::Invocation(rec.args.clone()));
            r.push(InfoLine::Blank);
            r.push(InfoLine::Output(rec.output.clone()));
            assert(crate::info::lines_view(r@) =~= transcript_lines(t.take(i + 1)));
            i = i + 1;
        }
        assert(t.take(t.len() as int) =~= t);
        r
    }

    /// The command to run next, if a batch is in flight.
    pub fn next_jj_command(&self) -> (r: Option<&JjCommand>)
        ensures
            r is None <==> self@.queue.len() == 0,
            r matches Some(c) ==> c@ == self@.queue[0],
    {
        if self.queued_jj_commands.len() == 0 {
            None
        } else {
            Some(&self.queued_jj_commands[0])
        }
    }

    /// Records how the front command of the batch ended. On success the
    /// command and its output join the transcript and the next command is
    /// announced, or, after the last one, the whole transcript is shown and
    /// transient state cleared. On failure the rest of the batch is dropped
    /// and the transcript with the error is shown.
    pub fn process_jj_command_queue(&mut self, result: Result<String, JjCommandError>) -> (r: QueueStep)
        requires
            old(self).inv(),
        ensures
            final(self).inv(),
            final(self)@ == step_model(old(self)@, outcome_view(result)),
            r == step_result(old(self)@, outcome_view(result)),
    {
        if self.queued_jj_commands.len() == 0 {
            return QueueStep::Idle;
        }
        let ghost m = self@;
        let cmd = self.queued_jj_commands.remove(0);
        assert(commands_view(self.queued_jj_commands@) =~= m.queue.drop_first());
        let args = cmd.args().clone();
        match result {
            Ok(output) => {
                let ghost before = self.accumulated_command_output@;
                self.accumulated_command_output.push(CommandRecord { args, output });
                assert(records_view(self.accumulated_command_output@) =~= records_view(before).push(
                    (cmd@.args, outcome_view(result)->Output_0),
                ));
                if self.queued_jj_commands.len() == 0 {
                    let lines = self.transcript_lines();
                    self.clear();
                    self.info_list = Some(lines);
                    QueueStep::Finished { resync: cmd.sync() }
                } else {
                    self.update_info_list_for_queue();
                    QueueStep::Next
                }
            },
            Err(JjCommandError::Failed { stderr }) => {
                let ghost before = self.accumulated_command_output@;
                self.accumulated_command_output.push(CommandRecord { args, output: stderr });
                assert(records_view(self.accumulated_command_output@) =~= records_view(before).push(
                    (cmd@.args, outcome_view(result)->Failed_0),
                ));
                let lines = self.transcript_lines();
                self.clear();
                self.info_list = Some(lines);
                QueueStep::Failed
            },
            Err(JjCommandError::Other { .. }) => QueueStep::Fatal,
        }
    }

    /// The text the editor starts with when asking for the input of `msg`.
    pub fn prompt_starting_text(&self, msg: Message) -> (r: Option<String>)
        ensures
            msg == Message::SetRevset ==> (r matches Some(t) && t@ == self@.revset),
            msg != Message::SetRevset ==> r is None,
    {
        match msg {
            Message::SetRevset => Some(self.revset.clone()),
            _ => None,
        }
    }

    /// Clears transient state and reports a refresh; repeated refreshes add
    /// dots so that each one is visible.
    pub fn refresh(&mut self)
        ensures
            final(self).inv() == old(self).inv(),
            final(self)@ == (ModelView {
                info: Some(seq![InfoLineView::Plain("Refreshed"@ + dots(refresh_dots(old(self)@.info)))]),
                ..cleared(old(self)@)
            }),
    {
        let periods = self.refresh_periods();
        self.clear();
        let mut text = String::from_str("Refreshed");
        let mut i: usize = 0;
        while i < periods
            invariant
                i <= periods,
                text@ == "Refreshed"@ + dots(i as nat),
            decreases periods - i,
        {
            text.append(".");
            proof {
                reveal_strlit(".");
            }
            assert(text@ =~= "Refreshed"@ + dots((i + 1) as nat));
            i = i + 1;
        }
        self.info_list = Some(plain(text.as_str()));
    }

    fn refresh_periods(&self) -> (r: usize)
        ensures
            r == refresh_dots(self@.info),
    {
        match &self.info_list {
            Some(lines) => {
                if lines.len() == 1 {
                    match &lines[0] {
                        InfoLine::Plain(s) => {
                            if crate::display::starts_with(s.as_str(), "Refreshed") {
                                let n = count_dots(s.as_str());
                                if n < usize::MAX - 3 {
                                    n + 3
                                } else {
                                    0
                                }
                            } else {
                                0
                            }
                        },
                        _ => 0,
                    }
                } else {
                    0
                }
            },
            None => 0,
        }
    }

    /// Shows the selected file's diff, or the selected revision when no file is selected.
    pub fn jj_view(&mut self, sel: &Selection)
        requires
            old(self).inv(),
        ensures
            final(self).inv(),
            match sel@.change_id {
                None => final(self)@ == after_invalid_selection(old(self)@),
                Some(sid) => final(self)@ == queued(
                    old(self)@,
                    seq![
                        match sel@.file_path {
                            Some(p) => diff_file_interactive_view(sid, p, old(self)@.global_args),
                            None => show_view(sid, old(self)@.global_args),
                        },
                    ],
                ),
            },
    {
        let sel_id = match &sel.change_id {
            None => {
                self.invalid_selection();
                return;
            },
            Some(id) => id.as_str(),
        };
        let cmd = match &sel.file_path {
            Some(file_path) => JjCommand::diff_file_interactive(
                sel_id,
                file_path.as_str(),
                self.global_args.snapshot(),
            ),
            None => JjCommand::show(sel_id, self.global_args.snapshot()),
        };
        self.queue_jj_command(cmd);
    }

    /// Squashes the selection into its parent; a revision with a description
    /// opens the editor to combine descriptions, one without does not.
    pub fn jj_squash(&mut self, sel: &Selection)
        requires
            old(self).inv(),
        ensures
            final(self).inv(),
            match sel@.change_id {
                None => final(self)@ == after_invalid_selection(old(self)@),
                Some(sid) => final(self)@ == queued(
                    old(self)@,
                    seq![
                        if sel@.has_description {
                            squash_interactive_view(sid, sel@.file_path, old(self)@.global_args)
                        } else {
                            squash_noninteractive_view(sid, sel@.file_path, old(self)@.global_args)
                        },
                    ],
                ),
            },
    {
        let sel_id = match &sel.change_id {
            None => {
                self.invalid_selection();
                return;
            },
            Some(id) => id.as_str(),
        };
        let cmd = if sel.has_description {
            JjCommand::squash_interactive(sel_id, opt_str(&sel.file_path), self.global_args.snapshot())
        } else {
            JjCommand::squash_noninteractive(sel_id, opt_str(&sel.file_path), self.global_args.snapshot())
        };
        self.queue_jj_command(cmd);
    }

    /// Stops tracking the selected file; only files of the working copy qualify.
    pub fn jj_file_untrack(&mut self, sel: &Selection)
        requires
            old(self).inv(),
        ensures
            final(self).inv(),
            match sel@.file_path {
                None => final(self)@ == after_invalid_selection(old(self)@),
                Some(p) => if !sel@.is_working_copy {
                    final(self)@ == after_invalid_selection(old(self)@)
                } else {
                    final(self)@ == queued(old(self)@, seq![file_untrack_view(p, old(self)@.global_args)])
                },
            },
    {
        let file_path = match &sel.file_path {
            None => {
                self.invalid_selection();
                return;
            },
            Some(p) => p.as_str(),
        };
        if !sel.is_working_copy {
            self.invalid_selection();
            return;
        }
        let cmd = JjCommand::file_untrack(file_path, self.global_args.snapshot());
        self.queue_jj_command(cmd);
    }

    /// Fetches, then starts a new change on trunk: two commands, in order, as one batch.
    pub fn jj_new_after_trunk_sync(&mut self)
        requires
            old(self).inv(),
        ensures
            final(self).inv(),
            final(self)@ == queued(
                old(self)@,
                seq![fetch_view(old(self)@.global_args), new_after_trunk_view(old(self)@.global_args)],
            ),
    {
        let fetch_cmd = JjCommand::fetch(self.global_args.snapshot());
        let new_cmd = JjCommand::new_after_trunk(self.global_args.snapshot());
        let cmds = vec![fetch_cmd, new_cmd];
        assert(commands_view(cmds@) =~= seq![
            fetch_view(old(self)@.global_args),
            new_after_trunk_view(old(self)@.global_args),
        ]);
        self.queue_jj_commands(cmds);
    }

    /// Takes a new revset; returns the previous one so that it can be put
    /// back if loading the log with the new one fails.
    pub fn set_revset(&mut self, new_revset: Option<String>) -> (r: Option<String>)
        ensures
            final(self).inv() == old(self).inv(),
            match opt_string_view(new_revset) {
                None => r is None && final(self)@ == after_cancelled(old(self)@),
                Some(t) => r matches Some(p) && p@ == old(self)@.revset && final(self)@ == (
                ModelView { revset: t, ..old(self)@ }),
            },
    {
        match new_revset {
            None => {
                self.cancelled();
                None
            },
            Some(t) => {
                let mut previous = t;
                std::mem::swap(&mut self.revset, &mut previous);
                Some(previous)
            },
        }
    }

    /// Reports how loading the log with the new revset went; on failure the
    /// error is shown and the previous revset restored.
    pub fn revset_loaded(&mut self, result: Result<(), String>, previous: String)
        ensures
            final(self).inv() == old(self).inv(),
            match result {
                Ok(_) => final(self)@ == (ModelView {
                    info: Some(seq![InfoLineView::Plain("Revset set to '"@ + old(self)@.revset + "'"@)]),
                    ..old(self)@
                }),
                Err(e) => final(self)@ == (ModelView {
                    info: Some(seq![InfoLineView::Output(e@)]),
                    revset: previous@,
                    ..old(self)@
                }),
            },
    {
        match result {
            Ok(()) => {
                let mut text = String::from_str("Revset set to '");
                text.append(self.revset.as_str());
                text.append("'");
                self.info_list = Some(plain(text.as_str()));
            },
            Err(e) => {
                let lines = vec![InfoLine::Output(e)];
                assert(crate::info::lines_view(lines@) =~= seq![InfoLineView::Output(e@)]);
                self.info_list = Some(lines);
                self.revset = previous;
            },
        }
    }

    /// Queues [`JjCommand::describe`] for the selected change.
    pub fn jj_describe(&mut self, sel: &Selection)
        requires
            old(self).inv(),
        ensures
            final(self).inv(),
            match sel@.change_id {
                None => final(self)@ == after_invalid_selection(old(self)@),
                Some(sid) => final(self)@ == queued(
                    old(self)@,
                    seq![describe_view(sid, old(self)@.global_args)],
                ),
            },
    {
        let sel_id = match &sel.change_id {
            None => {
                self.invalid_selection();
                return;
            },
            Some(id) => id.as_str(),
        };
        let cmd = JjCommand::describe(sel_id, self.global_args.snapshot());
        self.queue_jj_command(cmd);
    }

    /// Queues [`JjCommand::duplicate`] for the selected change.
    pub fn jj_duplicate(&mut self, sel: &Selection)
        requires
            old(self).inv(),
        ensures
            final(self).inv(),
            match sel@.change_id {
                None => final(self)@ == after_invalid_selection(old(self)@),
                Some(sid) => final(self)@ == queued(
                    old(self)@,
                    seq![duplicate_view(sid, old(self)@.global_args)],
                ),
            },
    {
        let sel_id = match &sel.change_id {
            None => {
                self.invalid_selection();
                return;
            },
            Some(id) => id.as_str(),
        };
        let cmd = JjCommand::duplicate(sel_id, self.global_args.snapshot());
        self.queue_jj_command(cmd);
    }

    /// Queues [`JjCommand::duplicate_onto`] for the saved change and the selected one.
    pub fn jj_duplicate_onto(&mut self, sel: &Selection)
        requires
            old(self).inv(),
        ensures
            final(self).inv(),
            match old(self)@.saved {
                None => final(self)@ == after_invalid_selection(old(self)@),
                Some(v) => match sel@.change_id {
                    None => final(self)@ == after_invalid_selection(old(self)@),
                    Some(sid) => final(self)@ == queued(
                        old(self)@,
                        seq![duplicate_onto_view(v.change_id, sid, old(self)@.global_args)],
                    ),
                },
            },
    {
        let (saved_id, _) = match self.saved_parts() {
            None => {
                self.invalid_selection();
                return;
            },
            Some(parts) => parts,
        };
        let sel_id = match &sel.change_id {
            None => {
                self.invalid_selection();
                return;
            },
            Some(id) => id.as_str(),
        };
        let cmd = JjCommand::duplicate_onto(saved_id.as_str(), sel_id, self.global_args.snapshot());
        self.queue_jj_command(cmd);
    }

    /// Queues [`JjCommand::duplicate_insert_after`] for the saved change and the selected one.
    pub fn jj_duplicate_insert_after(&mut self, sel: &Selection)
        requires
            old(self).inv(),
        ensures
            final(self).inv(),
            match old(self)@.saved {
                None => final(self)@ == after_invalid_selection(old(self)@),
                Some(v) => match sel@.change_id {
                    None => final(self)@ == after_invalid_selection(old(self)@),
                    Some(sid) => final(self)@ == queued(
                        old(self)@,
                        seq![duplicate_insert_after_view(v.change_id, sid, old(self)@.global_args)],
                    ),
                },
            },
    {
        let (saved_id, _) = match self.saved_parts() {
            None => {
                self.invalid_selection();
                return;
            },
            Some(parts) => parts,
        };
        let sel_id = match &sel.change_id {
            None => {
                self.invalid_selection();
                return;
            },
            Some(id) => id.as_str(),
        };
        let cmd = JjCommand::duplicate_insert_after(saved_id.as_str(), sel_id, self.global_args.snapshot());
        self.queue_jj_command(cmd);
    }

    /// Queues [`JjCommand::duplicate_insert_before`] for the saved change and the selected one.
    pub fn jj_duplicate_insert_before(&mut self, sel: &Selection)
        requires
            old(self).inv(),
        ensures
            final(self).inv(),
            match old(self)@.saved {
                None => final(self)@ == after_invalid_selection(old(self)@),
                Some(v) => match sel@.change_id {
                    None => final(self)@ == after_invalid_selection(old(self)@),
                    Some(sid) => final(self)@ == queued(
                        old(self)@,
                        seq![duplicate_insert_before_view(v.change_id, sid, old(self)@.global_args)],
                    ),
                },
            },
    {
        let (saved_id, _) = match self.saved_parts() {
            None => {
                self.invalid_selection();
                return;
            },
            Some(parts) => parts,
        };
        let sel_id = match &sel.change_id {
            None => {
                self.invalid_selection();
                return;
            },
            Some(id) => id.as_str(),
        };
        let cmd = JjCommand::duplicate_insert_before(saved_id.as_str(), sel_id, self.global_args.snapshot());
        self.queue_jj_command(cmd);
    }

    /// Queues [`JjCommand::new`] for the selected change.
    pub fn jj_new(&mut self, sel: &Selection)
        requires
            old(self).inv(),
        ensures
            final(self).inv(),
            match sel@.change_id {
                None => final(self)@ == after_invalid_selection(old(self)@),
                Some(sid) => final(self)@ == queued(
                    old(self)@,
                    seq![new_view(sid, old(self)@.global_args)],
                ),
            },
    {
        let sel_id = match &sel.change_id {
            None => {
                self.invalid_selection();
                return;
            },
            Some(id) => id.as_str(),
        };
        let cmd = JjCommand::new(sel_id, self.global_args.snapshot());
        self.queue_jj_command(cmd);
    }

    /// Queues [`JjCommand::parallelize`] for the selected change.
    pub fn jj_parallelize(&mut self, sel: &Selection)
        requires
            old(self).inv(),
        ensures
            final(self).inv(),
            match sel@.change_id {
                None => final(self)@ == after_invalid_selection(old(self)@),
                Some(sid) => final(self)@ == queued(
                    old(self)@,
                    seq![parallelize_view(parents_revset_view(sid), old(self)@.global_args)],
                ),
            },
    {
        let sel_id = match &sel.change_id {
            None => {
                self.invalid_selection();
                return;
            },
            Some(id) => id.as_str(),
        };
        let revset = parents_revset(sel_id);
        let cmd = JjCommand::parallelize(revset.as_str(), self.global_args.snapshot());
        self.queue_jj_command(cmd);
    }

    /// Queues [`JjCommand::parallelize`] for the saved change and the selected one.
    pub fn jj_parallelize_range(&mut self, sel: &Selection)
        requires
            old(self).inv(),
        ensures
            final(self).inv(),
            match old(self)@.saved {
                None => final(self)@ == after_invalid_selection(old(self)@),
                Some(v) => match sel@.change_id {
                    None => final(self)@ == after_invalid_selection(old(self)@),
                    Some(sid) => final(self)@ == queued(
                        old(self)@,
                        seq![parallelize_view(range_revset_view(v.change_id, sid), old(self)@.global_args)],
                    ),
                },
            },
    {
        let (saved_id, _) = match self.saved_parts() {
            None => {
                self.invalid_selection();
                return;
            },
            Some(parts) => parts,
        };
        let sel_id = match &sel.change_id {
            None => {
                self.invalid_selection();
                return;
            },
            Some(id) => id.as_str(),
        };
        let revset = range_revset(saved_id.as_str(), sel_id);
        let cmd = JjCommand::parallelize(revset.as_str(), self.global_args.snapshot());
        self.queue_jj_command(cmd);
    }

    /// Queues [`JjCommand::parallelize`] for the text the user entered.
    pub fn jj_parallelize_revset(&mut self, revset: Option<String>)
        requires
            old(self).inv(),
        ensures
            final(self).inv(),
            match opt_string_view(revset) {
                None => final(self)@ == after_cancelled(old(self)@),
                Some(revset_text) => final(self)@ == queued(
                    old(self)@,
                    seq![parallelize_view(revset_text, old(self)@.global_args)],
                ),
            },
    {
        let revset_text = match revset {
            None => {
                self.cancelled();
                return;
            },
            Some(t) => t,
        };
        let cmd = JjCommand::parallelize(revset_text.as_str(), self.global_args.snapshot());
        self.queue_jj_command(cmd);
    }

    /// Queues [`JjCommand::new_before`] for the selected change.
    pub fn jj_new_before(&mut self, sel: &Selection)
        requires
            old(self).inv(),
        ensures
            final(self).inv(),
            match sel@.change_id {
                None => final(self)@ == after_invalid_selection(old(self)@),
                Some(sid) => final(self)@ == queued(
                    old(self)@,
                    seq![new_before_view(sid, old(self)@.global_args)],
                ),
            },
    {
        let sel_id = match &sel.change_id {
            None => {
                self.invalid_selection();
                return;
            },
            Some(id) => id.as_str(),
        };
        let cmd = JjCommand::new_before(sel_id, self.global_args.snapshot());
        self.queue_jj_command(cmd);
    }

    /// Queues [`JjCommand::new_insert_after`] for the selected change.
    pub fn jj_new_insert_after(&mut self, sel: &Selection)
        requires
            old(self).inv(),
        ensures
            final(self).inv(),
            match sel@.change_id {
                None => final(self)@ == after_invalid_selection(old(self)@),
                Some(sid) => final(self)@ == queued(
                    old(self)@,
                    seq![new_insert_after_view(sid, old(self)@.global_args)],
                ),
            },
    {
        let sel_id = match &sel.change_id {
            None => {
                self.invalid_selection();
                return;
            },
            Some(id) => id.as_str(),
        };
        let cmd = JjCommand::new_insert_after(sel_id, self.global_args.snapshot());
        self.queue_jj_command(cmd);
    }

    /// Queues [`JjCommand::new_after_trunk`].
    pub fn jj_new_after_trunk(&mut self)
        requires
            old(self).inv(),
        ensures
            final(self).inv(),
            final(self)@ == queued(
                old(self)@,
                seq![new_after_trunk_view(old(self)@.global_args)],
            ),
    {
        let cmd = JjCommand::new_after_trunk(self.global_args.snapshot());
        self.queue_jj_command(cmd);
    }

    /// Queues [`JjCommand::next`].
    pub fn jj_next(&mut self)
        requires
            old(self).inv(),
        ensures
            final(self).inv(),
            final(self)@ == queued(
                old(self)@,
                seq![next_view(old(self)@.global_args)],
            ),
    {
        let cmd = JjCommand::next(self.global_args.snapshot());
        self.queue_jj_command(cmd);
    }

    /// Queues [`JjCommand::next_offset`] for the text the user entered.
    pub fn jj_next_offset(&mut self, offset: Option<String>)
        requires
            old(self).inv(),
        ensures
            final(self).inv(),
            match opt_string_view(offset) {
                None => final(self)@ == after_cancelled(old(self)@),
                Some(offset_text) => final(self)@ == queued(
                    old(self)@,
                    seq![next_offset_view(offset_text, old(self)@.global_args)],
                ),
            },
    {
        let offset_text = match offset {
            None => {
                self.cancelled();
                return;
            },
            Some(t) => t,
        };
        let cmd = JjCommand::next_offset(offset_text.as_str(), self.global_args.snapshot());
        self.queue_jj_command(cmd);
    }

    /// Queues [`JjCommand::next_edit`].
    pub fn jj_next_edit(&mut self)
        requires
            old(self).inv(),
        ensures
            final(self).inv(),
            final(self)@ == queued(
                old(self)@,
                seq![next_edit_view(old(self)@.global_args)],
            ),
    {
        let cmd = JjCommand::next_edit(self.global_args.snapshot());
        self.queue_jj_command(cmd);
    }

    /// Queues [`JjCommand::next_edit_offset`] for the text the user entered.
    pub fn jj_next_edit_offset(&mut self, offset: Option<String>)
        requires
            old(self).inv(),
        ensures
            final(self).inv(),
            match opt_string_view(offset) {
                None => final(self)@ == after_cancelled(old(self)@),
                Some(offset_text) => final(self)@ == queued(
                    old(self)@,
                    seq![next_edit_offset_view(offset_text, old(self)@.global_args)],
                ),
            },
    {
        let offset_text = match offset {
            None => {
                self.cancelled();
                return;
            },
            Some(t) => t,
        };
        let cmd = JjCommand::next_edit_offset(offset_text.as_str(), self.global_args.snapshot());
        self.queue_jj_command(cmd);
    }

    /// Queues [`JjCommand::next_no_edit`].
    pub fn jj_next_no_edit(&mut self)
        requires
            old(self).inv(),
        ensures
            final(self).inv(),
            final(self)@ == queued(
                old(self)@,
                seq![next_no_edit_view(old(self)@.global_args)],
            ),
    {
        let cmd = JjCommand::next_no_edit(self.global_args.snapshot());
        self.queue_jj_command(cmd);
    }

    /// Queues [`JjCommand::next_no_edit_offset`] for the text the user entered.
    pub fn jj_next_no_edit_offset(&mut self, offset: Option<String>)
        requires
            old(self).inv(),
        ensures
            final(self).inv(),
            match opt_string_view(offset) {
                None => final(self)@ == after_cancelled(old(self)@),
                Some(offset_text) => final(self)@ == queued(
                    old(self)@,
                    seq![next_no_edit_offset_view(offset_text, old(self)@.global_args)],
                ),
            },
    {
        let offset_text = match offset {
            None => {
                self.cancelled();
                return;
            },
            Some(t) => t,
        };
        let cmd = JjCommand::next_no_edit_offset(offset_text.as_str(), self.global_args.snapshot());
        self.queue_jj_command(cmd);
    }

    /// Queues [`JjCommand::next_conflict`].
    pub fn jj_next_conflict(&mut self)
        requires
            old(self).inv(),
        ensures
            final(self).inv(),
            final(self)@ == queued(
                old(self)@,
                seq![next_conflict_view(old(self)@.global_args)],
            ),
    {
        let cmd = JjCommand::next_conflict(self.global_args.snapshot());
        self.queue_jj_command(cmd);
    }

    /// Queues [`JjCommand::prev`].
    pub fn jj_prev(&mut self)
        requires
            old(self).inv(),
        ensures
            final(self).inv(),
            final(self)@ == queued(
                old(self)@,
                seq![prev_view(old(self)@.global_args)],
            ),
    {
        let cmd = JjCommand::prev(self.global_args.snapshot());
        self.queue_jj_command(cmd);
    }

    /// Queues [`JjCommand::prev_offset`] for the text the user entered.
    pub fn jj_prev_offset(&mut self, offset: Option<String>)
        requires
            old(self).inv(),
        ensures
            final(self).inv(),
            match opt_string_view(offset) {
                None => final(self)@ == after_cancelled(old(self)@),
                Some(offset_text) => final(self)@ == queued(
                    old(self)@,
                    seq![prev_offset_view(offset_text, old(self)@.global_args)],
                ),
            },
    {
        let offset_text = match offset {
            None => {
                self.cancelled();
                return;
            },
            Some(t) => t,
        };
        let cmd = JjCommand::prev_offset(offset_text.as_str(), self.global_args.snapshot());
        self.queue_jj_command(cmd);
    }

    /// Queues [`JjCommand::prev_edit`].
    pub fn jj_prev_edit(&mut self)
        requires
            old(self).inv(),
        ensures
            final(self).inv(),
            final(self)@ == queued(
                old(self)@,
                seq![prev_edit_view(old(self)@.global_args)],
            ),
    {
        let cmd = JjCommand::prev_edit(self.global_args.snapshot());
        self.queue_jj_command(cmd);
    }

    /// Queues [`JjCommand::prev_edit_offset`] for the text the user entered.
    pub fn jj_prev_edit_offset(&mut self, offset: Option<String>)
        requires
            old(self).inv(),
        ensures
            final(self).inv(),
            match opt_string_view(offset) {
                None => final(self)@ == after_cancelled(old(self)@),
                Some(offset_text) => final(self)@ == queued(
                    old(self)@,
                    seq![prev_edit_offset_view(offset_text, old(self)@.global_args)],
                ),
            },
    {
        let offset_text = match offset {
            None => {
                self.cancelled();
                return;
            },
            Some(t) => t,
        };
        let cmd = JjCommand::prev_edit_offset(offset_text.as_str(), self.global_args.snapshot());
        self.queue_jj_command(cmd);
    }

    /// Queues [`JjCommand::prev_no_edit`].
    pub fn jj_prev_no_edit(&mut self)
        requires
            old(self).inv(),
        ensures
            final(self).inv(),
            final(self)@ == queued(
                old(self)@,
                seq![prev_no_edit_view(old(self)@.global_args)],
            ),
    {
        let cmd = JjCommand::prev_no_edit(self.global_args.snapshot());
        self.queue_jj_command(cmd);
    }

    /// Queues [`JjCommand::prev_no_edit_offset`] for the text the user entered.
    pub fn jj_prev_no_edit_offset(&mut self, offset: Option<String>)
        requires
            old(self).inv(),
        ensures
            final(self).inv(),
            match opt_string_view(offset) {
                None => final(self)@ == after_cancelled(old(self)@),
                Some(offset_text) => final(self)@ == queued(
                    old(self)@,
                    seq![prev_no_edit_offset_view(offset_text, old(self)@.global_args)],
                ),
            },
    {
        let offset_text = match offset {
            None => {
                self.cancelled();
                return;
            },
            Some(t) => t,
        };
        let cmd = JjCommand::prev_no_edit_offset(offset_text.as_str(), self.global_args.snapshot());
        self.queue_jj_command(cmd);
    }

    /// Queues [`JjCommand::prev_conflict`].
    pub fn jj_prev_conflict(&mut self)
        requires
            old(self).inv(),
        ensures
            final(self).inv(),
            final(self)@ == queued(
                old(self)@,
                seq![prev_conflict_view(old(self)@.global_args)],
            ),
    {
        let cmd = JjCommand::prev_conflict(self.global_args.snapshot());
        self.queue_jj_command(cmd);
    }

    /// Queues [`JjCommand::abandon`] for the selected change.
    pub fn jj_abandon(&mut self, sel: &Selection)
        requires
            old(self).inv(),
        ensures
            final(self).inv(),
            match sel@.change_id {
                None => final(self)@ == after_invalid_selection(old(self)@),
                Some(sid) => final(self)@ == queued(
                    old(self)@,
                    seq![abandon_view(sid, old(self)@.global_args)],
                ),
            },
    {
        let sel_id = match &sel.change_id {
            None => {
                self.invalid_selection();
                return;
            },
            Some(id) => id.as_str(),
        };
        let cmd = JjCommand::abandon(sel_id, self.global_args.snapshot());
        self.queue_jj_command(cmd);
    }

    /// Queues [`JjCommand::abandon_retain_bookmarks`] for the selected change.
    pub fn jj_abandon_retain_bookmarks(&mut self, sel: &Selection)
        requires
            old(self).inv(),
        ensures
            final(self).inv(),
            match sel@.change_id {
                None => final(self)@ == after_invalid_selection(old(self)@),
                Some(sid) => final(self)@ == queued(
                    old(self)@,
                    seq![abandon_retain_bookmarks_view(sid, old(self)@.global_args)],
                ),
            },
    {
        let sel_id = match &sel.change_id {
            None => {
                self.invalid_selection();
                return;
            },
            Some(id) => id.as_str(),
        };
        let cmd = JjCommand::abandon_retain_bookmarks(sel_id, self.global_args.snapshot());
        self.queue_jj_command(cmd);
    }

    /// Queues [`JjCommand::abandon_restore_descendants`] for the selected change.
    pub fn jj_abandon_restore_descendants(&mut self, sel: &Selection)
        requires
            old(self).inv(),
        ensures
            final(self).inv(),
            match sel@.change_id {
                None => final(self)@ == after_invalid_selection(old(self)@),
                Some(sid) => final(self)@ == queued(
                    old(self)@,
                    seq![abandon_restore_descendants_view(sid, old(self)@.global_args)],
                ),
            },
    {
        let sel_id = match &sel.change_id {
            None => {
                self.invalid_selection();
                return;
            },
            Some(id) => id.as_str(),
        };
        let cmd = JjCommand::abandon_restore_descendants(sel_id, self.global_args.snapshot());
        self.queue_jj_command(cmd);
    }

    /// Queues [`JjCommand::absorb`] for the selected change.
    pub fn jj_absorb(&mut self, sel: &Selection)
        requires
            old(self).inv(),
        ensures
            final(self).inv(),
            match sel@.change_id {
                None => final(self)@ == after_invalid_selection(old(self)@),
                Some(sid) => final(self)@ == queued(
                    old(self)@,
                    seq![absorb_view(sid, sel@.file_path, old(self)@.global_args)],
                ),
            },
    {
        let sel_id = match &sel.change_id {
            None => {
                self.invalid_selection();
                return;
            },
            Some(id) => id.as_str(),
        };
        let cmd = JjCommand::absorb(sel_id, opt_str(&sel.file_path), self.global_args.snapshot());
        self.queue_jj_command(cmd);
    }

    /// Queues [`JjCommand::absorb_into`] for the saved change and the selected one.
    pub fn jj_absorb_into(&mut self, sel: &Selection)
        requires
            old(self).inv(),
        ensures
            final(self).inv(),
            match old(self)@.saved {
                None => final(self)@ == after_invalid_selection(old(self)@),
                Some(v) => match sel@.change_id {
                    None => final(self)@ == after_invalid_selection(old(self)@),
                    Some(sid) => final(self)@ == queued(
                        old(self)@,
                        seq![absorb_into_view(v.change_id, sid, v.file_path, old(self)@.global_args)],
                    ),
                },
            },
    {
        let (saved_id, saved_path) = match self.saved_parts() {
            None => {
                self.invalid_selection();
                return;
            },
            Some(parts) => parts,
        };
        let sel_id = match &sel.change_id {
            None => {
                self.invalid_selection();
                return;
            },
            Some(id) => id.as_str(),
        };
        let cmd = JjCommand::absorb_into(saved_id.as_str(), sel_id, opt_str(&saved_path), self.global_args.snapshot());
        self.queue_jj_command(cmd);
    }

    /// Queues [`JjCommand::undo`].
    pub fn jj_undo(&mut self)
        requires
            old(self).inv(),
        ensures
            final(self).inv(),
            final(self)@ == queued(
                old(self)@,
                seq![undo_view(old(self)@.global_args)],
            ),
    {
        let cmd = JjCommand::undo(self.global_args.snapshot());
        self.queue_jj_command(cmd);
    }

    /// Queues [`JjCommand::redo`].
    pub fn jj_redo(&mut self)
        requires
            old(self).inv(),
        ensures
            final(self).inv(),
            final(self)@ == queued(
                old(self)@,
                seq![redo_view(old(self)@.global_args)],
            ),
    {
        let cmd = JjCommand::redo(self.global_args.snapshot());
        self.queue_jj_command(cmd);
    }

    /// Queues [`JjCommand::commit`].
    pub fn jj_commit(&mut self, sel: &Selection)
        requires
            old(self).inv(),
        ensures
            final(self).inv(),
            final(self)@ == queued(
                old(self)@,
                seq![commit_view(sel@.file_path, old(self)@.global_args)],
            ),
    {
        let cmd = JjCommand::commit(opt_str(&sel.file_path), self.global_args.snapshot());
        self.queue_jj_command(cmd);
    }

    /// Queues [`JjCommand::rebase_onto_trunk`] for the selected change.
    pub fn jj_rebase_onto_trunk(&mut self, sel: &Selection)
        requires
            old(self).inv(),
        ensures
            final(self).inv(),
            match sel@.change_id {
                None => final(self)@ == after_invalid_selection(old(self)@),
                Some(sid) => final(self)@ == queued(
                    old(self)@,
                    seq![rebase_onto_trunk_view(sid, old(self)@.global_args)],
                ),
            },
    {
        let sel_id = match &sel.change_id {
            None => {
                self.invalid_selection();
                return;
            },
            Some(id) => id.as_str(),
        };
        let cmd = JjCommand::rebase_onto_trunk(sel_id, self.global_args.snapshot());
        self.queue_jj_command(cmd);
    }

    /// Queues [`JjCommand::rebase_branch_onto_trunk`] for the selected change.
    pub fn jj_rebase_branch_onto_trunk(&mut self, sel: &Selection)
        requires
            old(self).inv(),
        ensures
            final(self).inv(),
            match sel@.change_id {
                None => final(self)@ == after_invalid_selection(old(self)@),
                Some(sid) => final(self)@ == queued(
                    old(self)@,
                    seq![rebase_branch_onto_trunk_view(sid, old(self)@.global_args)],
                ),
            },
    {
        let sel_id = match &sel.change_id {
            None => {
                self.invalid_selection();
                return;
            },
            Some(id) => id.as_str(),
        };
        let cmd = JjCommand::rebase_branch_onto_trunk(sel_id, self.global_args.snapshot());
        self.queue_jj_command(cmd);
    }

    /// Queues [`JjCommand::rebase_onto_destination`] for the saved change and the selected one.
    pub fn jj_rebase_onto_destination(&mut self, sel: &Selection)
        requires
            old(self).inv(),
        ensures
            final(self).inv(),
            match old(self)@.saved {
                None => final(self)@ == after_invalid_selection(old(self)@),
                Some(v) => match sel@.change_id {
                    None => final(self)@ == after_invalid_selection(old(self)@),
                    Some(sid) => final(self)@ == queued(
                        old(self)@,
                        seq![rebase_onto_destination_view(v.change_id, sid, old(self)@.global_args)],
                    ),
                },
            },
    {
        let (saved_id, _) = match self.saved_parts() {
            None => {
                self.invalid_selection();
                return;
            },
            Some(parts) => parts,
        };
        let sel_id = match &sel.change_id {
            None => {
                self.invalid_selection();
                return;
            },
            Some(id) => id.as_str(),
        };
        let cmd = JjCommand::rebase_onto_destination(saved_id.as_str(), sel_id, self.global_args.snapshot());
        self.queue_jj_command(cmd);
    }

    /// Queues [`JjCommand::rebase_branch_onto_destination`] for the saved change and the selected one.
    pub fn jj_rebase_branch_onto_destination(&mut self, sel: &Selection)
        requires
            old(self).inv(),
        ensures
            final(self).inv(),
            match old(self)@.saved {
                None => final(self)@ == after_invalid_selection(old(self)@),
                Some(v) => match sel@.change_id {
                    None => final(self)@ == after_invalid_selection(old(self)@),
                    Some(sid) => final(self)@ == queued(
                        old(self)@,
                        seq![rebase_branch_onto_destination_view(v.change_id, sid, old(self)@.global_args)],
                    ),
                },
            },
    {
        let (saved_id, _) = match self.saved_parts() {
            None => {
                self.invalid_selection();
                return;
            },
            Some(parts) => parts,
        };
        let sel_id = match &sel.change_id {
            None => {
                self.invalid_selection();
                return;
            },
            Some(id) => id.as_str(),
        };
        let cmd = JjCommand::rebase_branch_onto_destination(saved_id.as_str(), sel_id, self.global_args.snapshot());
        self.queue_jj_command(cmd);
    }

    /// Queues [`JjCommand::rebase_onto_destination_no_descendants`] for the saved change and the selected one.
    pub fn jj_rebase_onto_destination_no_descendants(&mut self, sel: &Selection)
        requires
            old(self).inv(),
        ensures
            final(self).inv(),
            match old(self)@.saved {
                None => final(self)@ == after_invalid_selection(old(self)@),
                Some(v) => match sel@.change_id {
                    None => final(self)@ == after_invalid_selection(old(self)@),
                    Some(sid) => final(self)@ == queued(
                        old(self)@,
                        seq![rebase_onto_destination_no_descendants_view(v.change_id, sid, old(self)@.global_args)],
                    ),
                },
            },
    {
        let (saved_id, _) = match self.saved_parts() {
            None => {
                self.invalid_selection();
                return;
            },
            Some(parts) => parts,
        };
        let sel_id = match &sel.change_id {
            None => {
                self.invalid_selection();
                return;
            },
            Some(id) => id.as_str(),
        };
        let cmd = JjCommand::rebase_onto_destination_no_descendants(saved_id.as_str(), sel_id, self.global_args.snapshot());
        self.queue_jj_command(cmd);
    }

    /// Queues [`JjCommand::rebase_after_destination`] for the saved change and the selected one.
    pub fn jj_rebase_after_destination(&mut self, sel: &Selection)
        requires
            old(self).inv(),
        ensures
            final(self).inv(),
            match old(self)@.saved {
                None => final(self)@ == after_invalid_selection(old(self)@),
                Some(v) => match sel@.change_id {
                    None => final(self)@ == after_invalid_selection(old(self)@),
                    Some(sid) => final(self)@ == queued(
                        old(self)@,
                        seq![rebase_after_destination_view(v.change_id, sid, old(self)@.global_args)],
                    ),
                },
            },
    {
        let (saved_id, _) = match self.saved_parts() {
            None => {
                self.invalid_selection();
                return;
            },
            Some(parts) => parts,
        };
        let sel_id = match &sel.change_id {
            None => {
                self.invalid_selection();
                return;
            },
            Some(id) => id.as_str(),
        };
        let cmd = JjCommand::rebase_after_destination(saved_id.as_str(), sel_id, self.global_args.snapshot());
        self.queue_jj_command(cmd);
    }

    /// Queues [`JjCommand::rebase_after_destination_no_descendants`] for the saved change and the selected one.
    pub fn jj_rebase_after_destination_no_descendants(&mut self, sel: &Selection)
        requires
            old(self).inv(),
        ensures
            final(self).inv(),
            match old(self)@.saved {
                None => final(self)@ == after_invalid_selection(old(self)@),
                Some(v) => match sel@.change_id {
                    None => final(self)@ == after_invalid_selection(old(self)@),
                    Some(sid) => final(self)@ == queued(
                        old(self)@,
                        seq![rebase_after_destination_no_descendants_view(v.change_id, sid, old(self)@.global_args)],
                    ),
                },
            },
    {
        let (saved_id, _) = match self.saved_parts() {
            None => {
                self.invalid_selection();
                return;
            },
            Some(parts) => parts,
        };
        let sel_id = match &sel.change_id {
            None => {
                self.invalid_selection();
                return;
            },
            Some(id) => id.as_str(),
        };
        let cmd = JjCommand::rebase_after_destination_no_descendants(saved_id.as_str(), sel_id, self.global_args.snapshot());
        self.queue_jj_command(cmd);
    }

    /// Queues [`JjCommand::rebase_before_destination`] for the saved change and the selected one.
    pub fn jj_rebase_before_destination(&mut self, sel: &Selection)
        requires
            old(self).inv(),
        ensures
            final(self).inv(),
            match old(self)@.saved {
                None => final(self)@ == after_invalid_selection(old(self)@),
                Some(v) => match sel@.change_id {
                    None => final(self)@ == after_invalid_selection(old(self)@),
                    Some(sid) => final(self)@ == queued(
                        old(self)@,
                        seq![rebase_before_destination_view(v.change_id, sid, old(self)@.global_args)],
                    ),
                },
            },
    {
        let (saved_id, _) = match self.saved_parts() {
            None => {
                self.invalid_selection();
                return;
            },
            Some(parts) => parts,
        };
        let sel_id = match &sel.change_id {
            None => {
                self.invalid_selection();
                return;
            },
            Some(id) => id.as_str(),
        };
        let cmd = JjCommand::rebase_before_destination(saved_id.as_str(), sel_id, self.global_args.snapshot());
        self.queue_jj_command(cmd);
    }

    /// Queues [`JjCommand::rebase_before_destination_no_descendants`] for the saved change and the selected one.
    pub fn jj_rebase_before_destination_no_descendants(&mut self, sel: &Selection)
        requires
            old(self).inv(),
        ensures
            final(self).inv(),
            match old(self)@.saved {
                None => final(self)@ == after_invalid_selection(old(self)@),
                Some(v) => match sel@.change_id {
                    None => final(self)@ == after_invalid_selection(old(self)@),
                    Some(sid) => final(self)@ == queued(
                        old(self)@,
                        seq![rebase_before_destination_no_descendants_view(v.change_id, sid, old(self)@.global_args)],
                    ),
                },
            },
    {
        let (saved_id, _) = match self.saved_parts() {
            None => {
                self.invalid_selection();
                return;
            },
            Some(parts) => parts,
        };
        let sel_id = match &sel.change_id {
            None => {
                self.invalid_selection();
                return;
            },
            Some(id) => id.as_str(),
        };
        let cmd = JjCommand::rebase_before_destination_no_descendants(saved_id.as_str(), sel_id, self.global_args.snapshot());
        self.queue_jj_command(cmd);
    }

    /// Queues [`JjCommand::restore`] for the selected change.
    pub fn jj_restore(&mut self, sel: &Selection)
        requires
            old(self).inv(),
        ensures
            final(self).inv(),
            match sel@.change_id {
                None => final(self)@ == after_invalid_selection(old(self)@),
                Some(sid) => final(self)@ == queued(
                    old(self)@,
                    seq![restore_view(sid, sel@.file_path, old(self)@.global_args)],
                ),
            },
    {
        let sel_id = match &sel.change_id {
            None => {
                self.invalid_selection();
                return;
            },
            Some(id) => id.as_str(),
        };
        let cmd = JjCommand::restore(sel_id, opt_str(&sel.file_path), self.global_args.snapshot());
        self.queue_jj_command(cmd);
    }

    /// Queues [`JjCommand::restore_from`] for the selected change.
    pub fn jj_restore_from(&mut self, sel: &Selection)
        requires
            old(self).inv(),
        ensures
            final(self).inv(),
            match sel@.change_id {
                None => final(self)@ == after_invalid_selection(old(self)@),
                Some(sid) => final(self)@ == queued(
                    old(self)@,
                    seq![restore_from_view(sid, sel@.file_path, old(self)@.global_args)],
                ),
            },
    {
        let sel_id = match &sel.change_id {
            None => {
                self.invalid_selection();
                return;
            },
            Some(id) => id.as_str(),
        };
        let cmd = JjCommand::restore_from(sel_id, opt_str(&sel.file_path), self.global_args.snapshot());
        self.queue_jj_command(cmd);
    }

    /// Queues [`JjCommand::restore_into`] for the selected change.
    pub fn jj_restore_into(&mut self, sel: &Selection)
        requires
            old(self).inv(),
        ensures
            final(self).inv(),
            match sel@.change_id {
                None => final(self)@ == after_invalid_selection(old(self)@),
                Some(sid) => final(self)@ == queued(
                    old(self)@,
                    seq![restore_into_view(sid, sel@.file_path, old(self)@.global_args)],
                ),
            },
    {
        let sel_id = match &sel.change_id {
            None => {
                self.invalid_selection();
                return;
            },
            Some(id) => id.as_str(),
        };
        let cmd = JjCommand::restore_into(sel_id, opt_str(&sel.file_path), self.global_args.snapshot());
        self.queue_jj_command(cmd);
    }

    /// Queues [`JjCommand::restore_restore_descendants`] for the selected change.
    pub fn jj_restore_restore_descendants(&mut self, sel: &Selection)
        requires
            old(self).inv(),
        ensures
            final(self).inv(),
            match sel@.change_id {
                None => final(self)@ == after_invalid_selection(old(self)@),
                Some(sid) => final(self)@ == queued(
                    old(self)@,
                    seq![restore_restore_descendants_view(sid, sel@.file_path, old(self)@.global_args)],
                ),
            },
    {
        let sel_id = match &sel.change_id {
            None => {
                self.invalid_selection();
                return;
            },
            Some(id) => id.as_str(),
        };
        let cmd = JjCommand::restore_restore_descendants(sel_id, opt_str(&sel.file_path), self.global_args.snapshot());
        self.queue_jj_command(cmd);
    }

    /// Queues [`JjCommand::restore_from_into`] for the saved change and the selected one.
    pub fn jj_restore_from_into(&mut self, sel: &Selection)
        requires
            old(self).inv(),
        ensures
            final(self).inv(),
            match old(self)@.saved {
                None => final(self)@ == after_invalid_selection(old(self)@),
                Some(v) => match sel@.change_id {
                    None => final(self)@ == after_invalid_selection(old(self)@),
                    Some(sid) => final(self)@ == queued(
                        old(self)@,
                        seq![restore_from_into_view(v.change_id, sid, v.file_path, old(self)@.global_args)],
                    ),
                },
            },
    {
        let (saved_id, saved_path) = match self.saved_parts() {
            None => {
                self.invalid_selection();
                return;
            },
            Some(parts) => parts,
        };
        let sel_id = match &sel.change_id {
            None => {
                self.invalid_selection();
                return;
            },
            Some(id) => id.as_str(),
        };
        let cmd = JjCommand::restore_from_into(saved_id.as_str(), sel_id, opt_str(&saved_path), self.global_args.snapshot());
        self.queue_jj_command(cmd);
    }

    /// Queues [`JjCommand::revert_onto`] for the selected change.
    pub fn jj_revert(&mut self, sel: &Selection)
        requires
            old(self).inv(),
        ensures
            final(self).inv(),
            match sel@.change_id {
                None => final(self)@ == after_invalid_selection(old(self)@),
                Some(sid) => final(self)@ == queued(
                    old(self)@,
                    seq![revert_onto_view(sid, "@"@, old(self)@.global_args)],
                ),
            },
    {
        let sel_id = match &sel.change_id {
            None => {
                self.invalid_selection();
                return;
            },
            Some(id) => id.as_str(),
        };
        let cmd = JjCommand::revert_onto(sel_id, "@", self.global_args.snapshot());
        self.queue_jj_command(cmd);
    }

    /// Queues [`JjCommand::revert_onto`] for the saved change and the selected one.
    pub fn jj_revert_onto_destination(&mut self, sel: &Selection)
        requires
            old(self).inv(),
        ensures
            final(self).inv(),
            match old(self)@.saved {
                None => final(self)@ == after_invalid_selection(old(self)@),
                Some(v) => match sel@.change_id {
                    None => final(self)@ == after_invalid_selection(old(self)@),
                    Some(sid) => final(self)@ == queued(
                        old(self)@,
                        seq![revert_onto_view(v.change_id, sid, old(self)@.global_args)],
                    ),
                },
            },
    {
        let (saved_id, _) = match self.saved_parts() {
            None => {
                self.invalid_selection();
                return;
            },
            Some(parts) => parts,
        };
        let sel_id = match &sel.change_id {
            None => {
                self.invalid_selection();
                return;
            },
            Some(id) => id.as_str(),
        };
        let cmd = JjCommand::revert_onto(saved_id.as_str(), sel_id, self.global_args.snapshot());
        self.queue_jj_command(cmd);
    }

    /// Queues [`JjCommand::revert_insert_after`] for the saved change and the selected one.
    pub fn jj_revert_insert_after(&mut self, sel: &Selection)
        requires
            old(self).inv(),
        ensures
            final(self).inv(),
            match old(self)@.saved {
                None => final(self)@ == after_invalid_selection(old(self)@),
                Some(v) => match sel@.change_id {
                    None => final(self)@ == after_invalid_selection(old(self)@),
                    Some(sid) => final(self)@ == queued(
                        old(self)@,
                        seq![revert_insert_after_view(v.change_id, sid, old(self)@.global_args)],
                    ),
                },
            },
    {
        let (saved_id, _) = match self.saved_parts() {
            None => {
                self.invalid_selection();
                return;
            },
            Some(parts) => parts,
        };
        let sel_id = match &sel.change_id {
            None => {
                self.invalid_selection();
                return;
            },
            Some(id) => id.as_str(),
        };
        let cmd = JjCommand::revert_insert_after(saved_id.as_str(), sel_id, self.global_args.snapshot());
        self.queue_jj_command(cmd);
    }

    /// Queues [`JjCommand::revert_insert_before`] for the saved change and the selected one.
    pub fn jj_revert_insert_before(&mut self, sel: &Selection)
        requires
            old(self).inv(),
        ensures
            final(self).inv(),
            match old(self)@.saved {
                None => final(self)@ == after_invalid_selection(old(self)@),
                Some(v) => match sel@.change_id {
                    None => final(self)@ == after_invalid_selection(old(self)@),
                    Some(sid) => final(self)@ == queued(
                        old(self)@,
                        seq![revert_insert_before_view(v.change_id, sid, old(self)@.global_args)],
                    ),
                },
            },
    {
        let (saved_id, _) = match self.saved_parts() {
            None => {
                self.invalid_selection();
                return;
            },
            Some(parts) => parts,
        };
        let sel_id = match &sel.change_id {
            None => {
                self.invalid_selection();
                return;
            },
            Some(id) => id.as_str(),
        };
        let cmd = JjCommand::revert_insert_before(saved_id.as_str(), sel_id, self.global_args.snapshot());
        self.queue_jj_command(cmd);
    }

    /// Queues [`JjCommand::squash_into_interactive`] for the saved change and the selected one.
    pub fn jj_squash_into(&mut self, sel: &Selection)
        requires
            old(self).inv(),
        ensures
            final(self).inv(),
            match old(self)@.saved {
                None => final(self)@ == after_invalid_selection(old(self)@),
                Some(v) => match sel@.change_id {
                    None => final(self)@ == after_invalid_selection(old(self)@),
                    Some(sid) => final(self)@ == queued(
                        old(self)@,
                        seq![squash_into_interactive_view(v.change_id, sid, v.file_path, old(self)@.global_args)],
                    ),
                },
            },
    {
        let (saved_id, saved_path) = match self.saved_parts() {
            None => {
                self.invalid_selection();
                return;
            },
            Some(parts) => parts,
        };
        let sel_id = match &sel.change_id {
            None => {
                self.invalid_selection();
                return;
            },
            Some(id) => id.as_str(),
        };
        let cmd = JjCommand::squash_into_interactive(saved_id.as_str(), sel_id, opt_str(&saved_path), self.global_args.snapshot());
        self.queue_jj_command(cmd);
    }

    /// Queues [`JjCommand::status`].
    pub fn jj_status(&mut self)
        requires
            old(self).inv(),
        ensures
            final(self).inv(),
            final(self)@ == queued(
                old(self)@,
                seq![status_view(old(self)@.global_args)],
            ),
    {
        let cmd = JjCommand::status(self.global_args.snapshot());
        self.queue_jj_command(cmd);
    }

    /// Queues [`JjCommand::sign`] for the selected change.
    pub fn jj_sign(&mut self, sel: &Selection)
        requires
            old(self).inv(),
        ensures
            final(self).inv(),
            match sel@.change_id {
                None => final(self)@ == after_invalid_selection(old(self)@),
                Some(sid) => final(self)@ == queued(
                    old(self)@,
                    seq![sign_view(sid, old(self)@.global_args)],
                ),
            },
    {
        let sel_id = match &sel.change_id {
            None => {
                self.invalid_selection();
                return;
            },
            Some(id) => id.as_str(),
        };
        let cmd = JjCommand::sign(sel_id, self.global_args.snapshot());
        self.queue_jj_command(cmd);
    }

    /// Queues [`JjCommand::sign`] for the saved change and the selected one.
    pub fn jj_sign_range(&mut self, sel: &Selection)
        requires
            old(self).inv(),
        ensures
            final(self).inv(),
            match old(self)@.saved {
                None => final(self)@ == after_invalid_selection(old(self)@),
                Some(v) => match sel@.change_id {
                    None => final(self)@ == after_invalid_selection(old(self)@),
                    Some(sid) => final(self)@ == queued(
                        old(self)@,
                        seq![sign_view(range_revset_view(v.change_id, sid), old(self)@.global_args)],
                    ),
                },
            },
    {
        let (saved_id, _) = match self.saved_parts() {
            None => {
                self.invalid_selection();
                return;
            },
            Some(parts) => parts,
        };
        let sel_id = match &sel.change_id {
            None => {
                self.invalid_selection();
                return;
            },
            Some(id) => id.as_str(),
        };
        let revset = range_revset(saved_id.as_str(), sel_id);
        let cmd = JjCommand::sign(revset.as_str(), self.global_args.snapshot());
        self.queue_jj_command(cmd);
    }

    /// Queues [`JjCommand::diff_from_to_interactive`] for the selected change.
    pub fn jj_view_from_selection(&mut self, sel: &Selection)
        requires
            old(self).inv(),
        ensures
            final(self).inv(),
            match sel@.change_id {
                None => final(self)@ == after_invalid_selection(old(self)@),
                Some(sid) => final(self)@ == queued(
                    old(self)@,
                    seq![diff_from_to_interactive_view(sid, "@"@, old(self)@.global_args)],
                ),
            },
    {
        let sel_id = match &sel.change_id {
            None => {
                self.invalid_selection();
                return;
            },
            Some(id) => id.as_str(),
        };
        let cmd = JjCommand::diff_from_to_interactive(sel_id, "@", self.global_args.snapshot());
        self.queue_jj_command(cmd);
    }

    /// Queues [`JjCommand::diff_from_to_interactive`] for the selected change.
    pub fn jj_view_to_selection(&mut self, sel: &Selection)
        requires
            old(self).inv(),
        ensures
            final(self).inv(),
            match sel@.change_id {
                None => final(self)@ == after_invalid_selection(old(self)@),
                Some(sid) => final(self)@ == queued(
                    old(self)@,
                    seq![diff_from_to_interactive_view("@"@, sid, old(self)@.global_args)],
                ),
            },
    {
        let sel_id = match &sel.change_id {
            None => {
                self.invalid_selection();
                return;
            },
            Some(id) => id.as_str(),
        };
        let cmd = JjCommand::diff_from_to_interactive("@", sel_id, self.global_args.snapshot());
        self.queue_jj_command(cmd);
    }

    /// Queues [`JjCommand::diff_from_to_interactive`] for the saved change and the selected one.
    pub fn jj_view_from_selection_to_destination(&mut self, sel: &Selection)
        requires
            old(self).inv(),
        ensures
            final(self).inv(),
            match old(self)@.saved {
                None => final(self)@ == after_invalid_selection(old(self)@),
                Some(v) => match sel@.change_id {
                    None => final(self)@ == after_invalid_selection(old(self)@),
                    Some(sid) => final(self)@ == queued(
                        old(self)@,
                        seq![diff_from_to_interactive_view(v.change_id, sid, old(self)@.global_args)],
                    ),
                },
            },
    {
        let (saved_id, _) = match self.saved_parts() {
            None => {
                self.invalid_selection();
                return;
            },
            Some(parts) => parts,
        };
        let sel_id = match &sel.change_id {
            None => {
                self.invalid_selection();
                return;
            },
            Some(id) => id.as_str(),
        };
        let cmd = JjCommand::diff_from_to_interactive(saved_id.as_str(), sel_id, self.global_args.snapshot());
        self.queue_jj_command(cmd);
    }

    /// Queues [`JjCommand::unsign`] for the selected change.
    pub fn jj_unsign(&mut self, sel: &Selection)
        requires
            old(self).inv(),
        ensures
            final(self).inv(),
            match sel@.change_id {
                None => final(self)@ == after_invalid_selection(old(self)@),
                Some(sid) => final(self)@ == queued(
                    old(self)@,
                    seq![unsign_view(sid, old(self)@.global_args)],
                ),
            },
    {
        let sel_id = match &sel.change_id {
            None => {
                self.invalid_selection();
                return;
            },
            Some(id) => id.as_str(),
        };
        let cmd = JjCommand::unsign(sel_id, self.global_args.snapshot());
        self.queue_jj_command(cmd);
    }

    /// Queues [`JjCommand::unsign`] for the saved change and the selected one.
    pub fn jj_unsign_range(&mut self, sel: &Selection)
        requires
            old(self).inv(),
        ensures
            final(self).inv(),
            match old(self)@.saved {
                None => final(self)@ == after_invalid_selection(old(self)@),
                Some(v) => match sel@.change_id {
                    None => final(self)@ == after_invalid_selection(old(self)@),
                    Some(sid) => final(self)@ == queued(
                        old(self)@,
                        seq![unsign_view(range_revset_view(v.change_id, sid), old(self)@.global_args)],
                    ),
                },
            },
    {
        let (saved_id, _) = match self.saved_parts() {
            None => {
                self.invalid_selection();
                return;
            },
            Some(parts) => parts,
        };
        let sel_id = match &sel.change_id {
            None => {
                self.invalid_selection();
                return;
            },
            Some(id) => id.as_str(),
        };
        let revset = range_revset(saved_id.as_str(), sel_id);
        let cmd = JjCommand::unsign(revset.as_str(), self.global_args.snapshot());
        self.queue_jj_command(cmd);
    }

    /// Queues [`JjCommand::simplify_parents`] for the selected change.
    pub fn jj_simplify_parents(&mut self, sel: &Selection)
        requires
            old(self).inv(),
        ensures
            final(self).inv(),
            match sel@.change_id {
                None => final(self)@ == after_invalid_selection(old(self)@),
                Some(sid) => final(self)@ == queued(
                    old(self)@,
                    seq![simplify_parents_view(sid, old(self)@.global_args)],
                ),
            },
    {
        let sel_id = match &sel.change_id {
            None => {
                self.invalid_selection();
                return;
            },
            Some(id) => id.as_str(),
        };
        let cmd = JjCommand::simplify_parents(sel_id, self.global_args.snapshot());
        self.queue_jj_command(cmd);
    }

    /// Queues [`JjCommand::simplify_parents_source`] for the selected change.
    pub fn jj_simplify_parents_source(&mut self, sel: &Selection)
        requires
            old(self).inv(),
        ensures
            final(self).inv(),
            match sel@.change_id {
                None => final(self)@ == after_invalid_selection(old(self)@),
                Some(sid) => final(self)@ == queued(
                    old(self)@,
                    seq![simplify_parents_source_view(sid, old(self)@.global_args)],
                ),
            },
    {
        let sel_id = match &sel.change_id {
            None => {
                self.invalid_selection();
                return;
            },
            Some(id) => id.as_str(),
        };
        let cmd = JjCommand::simplify_parents_source(sel_id, self.global_args.snapshot());
        self.queue_jj_command(cmd);
    }

    /// Queues [`JjCommand::edit`] for the selected change.
    pub fn jj_edit(&mut self, sel: &Selection)
        requires
            old(self).inv(),
        ensures
            final(self).inv(),
            match sel@.change_id {
                None => final(self)@ == after_invalid_selection(old(self)@),
                Some(sid) => final(self)@ == queued(
                    old(self)@,
                    seq![edit_view(sid, old(self)@.global_args)],
                ),
            },
    {
        let sel_id = match &sel.change_id {
            None => {
                self.invalid_selection();
                return;
            },
            Some(id) => id.as_str(),
        };
        let cmd = JjCommand::edit(sel_id, self.global_args.snapshot());
        self.queue_jj_command(cmd);
    }

    /// Queues [`JjCommand::evolog`] for the selected change.
    pub fn jj_evolog(&mut self, sel: &Selection)
        requires
            old(self).inv(),
        ensures
            final(self).inv(),
            match sel@.change_id {
                None => final(self)@ == after_invalid_selection(old(self)@),
                Some(sid) => final(self)@ == queued(
                    old(self)@,
                    seq![evolog_view(sid, old(self)@.global_args)],
                ),
            },
    {
        let sel_id = match &sel.change_id {
            None => {
                self.invalid_selection();
                return;
            },
            Some(id) => id.as_str(),
        };
        let cmd = JjCommand::evolog(sel_id, self.global_args.snapshot());
        self.queue_jj_command(cmd);
    }

    /// Queues [`JjCommand::evolog_patch`] for the selected change.
    pub fn jj_evolog_patch(&mut self, sel: &Selection)
        requires
            old(self).inv(),
        ensures
            final(self).inv(),
            match sel@.change_id {
                None => final(self)@ == after_invalid_selection(old(self)@),
                Some(sid) => final(self)@ == queued(
                    old(self)@,
                    seq![evolog_patch_view(sid, old(self)@.global_args)],
                ),
            },
    {
        let sel_id = match &sel.change_id {
            None => {
                self.invalid_selection();
                return;
            },
            Some(id) => id.as_str(),
        };
        let cmd = JjCommand::evolog_patch(sel_id, self.global_args.snapshot());
        self.queue_jj_command(cmd);
    }

    /// Queues [`JjCommand::interdiff`] for the selected change.
    pub fn jj_interdiff_from_selection(&mut self, sel: &Selection)
        requires
            old(self).inv(),
        ensures
            final(self).inv(),
            match sel@.change_id {
                None => final(self)@ == after_invalid_selection(old(self)@),
                Some(sid) => final(self)@ == queued(
                    old(self)@,
                    seq![interdiff_view(sid, "@"@, sel@.file_path, old(self)@.global_args)],
                ),
            },
    {
        let sel_id = match &sel.change_id {
            None => {
                self.invalid_selection();
                return;
            },
            Some(id) => id.as_str(),
        };
        let cmd = JjCommand::interdiff(sel_id, "@", opt_str(&sel.file_path), self.global_args.snapshot());
        self.queue_jj_command(cmd);
    }

    /// Queues [`JjCommand::interdiff`] for the selected change.
    pub fn jj_interdiff_to_selection(&mut self, sel: &Selection)
        requires
            old(self).inv(),
        ensures
            final(self).inv(),
            match sel@.change_id {
                None => final(self)@ == after_invalid_selection(old(self)@),
                Some(sid) => final(self)@ == queued(
                    old(self)@,
                    seq![interdiff_view("@"@, sid, sel@.file_path, old(self)@.global_args)],
                ),
            },
    {
        let sel_id = match &sel.change_id {
            None => {
                self.invalid_selection();
                return;
            },
            Some(id) => id.as_str(),
        };
        let cmd = JjCommand::interdiff("@", sel_id, opt_str(&sel.file_path), self.global_args.snapshot());
        self.queue_jj_command(cmd);
    }

    /// Queues [`JjCommand::interdiff`] for the saved change and the selected one.
    pub fn jj_interdiff_from_selection_to_destination(&mut self, sel: &Selection)
        requires
            old(self).inv(),
        ensures
            final(self).inv(),
            match old(self)@.saved {
                None => final(self)@ == after_invalid_selection(old(self)@),
                Some(v) => match sel@.change_id {
                    None => final(self)@ == after_invalid_selection(old(self)@),
                    Some(sid) => final(self)@ == queued(
                        old(self)@,
                        seq![interdiff_view(v.change_id, sid, v.file_path, old(self)@.global_args)],
                    ),
                },
            },
    {
        let (saved_id, saved_path) = match self.saved_parts() {
            None => {
                self.invalid_selection();
                return;
            },
            Some(parts) => parts,
        };
        let sel_id = match &sel.change_id {
            None => {
                self.invalid_selection();
                return;
            },
            Some(id) => id.as_str(),
        };
        let cmd = JjCommand::interdiff(saved_id.as_str(), sel_id, opt_str(&saved_path), self.global_args.snapshot());
        self.queue_jj_command(cmd);
    }

    /// Queues [`JjCommand::file_track`] for the text the user entered.
    pub fn jj_file_track(&mut self, file_path: Option<String>)
        requires
            old(self).inv(),
        ensures
            final(self).inv(),
            match opt_string_view(file_path) {
                None => final(self)@ == after_cancelled(old(self)@),
                Some(file_path_text) => final(self)@ == queued(
                    old(self)@,
                    seq![file_track_view(file_path_text, old(self)@.global_args)],
                ),
            },
    {
        let file_path_text = match file_path {
            None => {
                self.cancelled();
                return;
            },
            Some(t) => t,
        };
        let cmd = JjCommand::file_track(file_path_text.as_str(), self.global_args.snapshot());
        self.queue_jj_command(cmd);
    }

    /// Queues [`JjCommand::metaedit_update_change_id`] for the selected change.
    pub fn jj_metaedit_update_change_id(&mut self, sel: &Selection)
        requires
            old(self).inv(),
        ensures
            final(self).inv(),
            match sel@.change_id {
                None => final(self)@ == after_invalid_selection(old(self)@),
                Some(sid) => final(self)@ == queued(
                    old(self)@,
                    seq![metaedit_update_change_id_view(sid, old(self)@.global_args)],
                ),
            },
    {
        let sel_id = match &sel.change_id {
            None => {
                self.invalid_selection();
                return;
            },
            Some(id) => id.as_str(),
        };
        let cmd = JjCommand::metaedit_update_change_id(sel_id, self.global_args.snapshot());
        self.queue_jj_command(cmd);
    }

    /// Queues [`JjCommand::metaedit_update_author_timestamp`] for the selected change.
    pub fn jj_metaedit_update_author_timestamp(&mut self, sel: &Selection)
        requires
            old(self).inv(),
        ensures
            final(self).inv(),
            match sel@.change_id {
                None => final(self)@ == after_invalid_selection(old(self)@),
                Some(sid) => final(self)@ == queued(
                    old(self)@,
                    seq![metaedit_update_author_timestamp_view(sid, old(self)@.global_args)],
                ),
            },
    {
        let sel_id = match &sel.change_id {
            None => {
                self.invalid_selection();
                return;
            },
            Some(id) => id.as_str(),
        };
        let cmd = JjCommand::metaedit_update_author_timestamp(sel_id, self.global_args.snapshot());
        self.queue_jj_command(cmd);
    }

    /// Queues [`JjCommand::metaedit_update_author`] for the selected change.
    pub fn jj_metaedit_update_author(&mut self, sel: &Selection)
        requires
            old(self).inv(),
        ensures
            final(self).inv(),
            match sel@.change_id {
                None => final(self)@ == after_invalid_selection(old(self)@),
                Some(sid) => final(self)@ == queued(
                    old(self)@,
                    seq![metaedit_update_author_view(sid, old(self)@.global_args)],
                ),
            },
    {
        let sel_id = match &sel.change_id {
            None => {
                self.invalid_selection();
                return;
            },
            Some(id) => id.as_str(),
        };
        let cmd = JjCommand::metaedit_update_author(sel_id, self.global_args.snapshot());
        self.queue_jj_command(cmd);
    }

    /// Queues [`JjCommand::metaedit_set_author`] for the selected change and the text the user entered.
    pub fn jj_metaedit_set_author(&mut self, sel: &Selection, author: Option<String>)
        requires
            old(self).inv(),
        ensures
            final(self).inv(),
            match sel@.change_id {
                None => final(self)@ == after_invalid_selection(old(self)@),
                Some(sid) => match opt_string_view(author) {
                    None => final(self)@ == after_cancelled(old(self)@),
                    Some(author_text) => final(self)@ == queued(
                        old(self)@,
                        seq![metaedit_set_author_view(sid, author_text, old(self)@.global_args)],
                    ),
                },
            },
    {
        let sel_id = match &sel.change_id {
            None => {
                self.invalid_selection();
                return;
            },
            Some(id) => id.as_str(),
        };
        let author_text = match author {
            None => {
                self.cancelled();
                return;
            },
            Some(t) => t,
        };
        let cmd = JjCommand::metaedit_set_author(sel_id, author_text.as_str(), self.global_args.snapshot());
        self.queue_jj_command(cmd);
    }

    /// Queues [`JjCommand::metaedit_set_author_timestamp`] for the selected change and the text the user entered.
    pub fn jj_metaedit_set_author_timestamp(&mut self, sel: &Selection, timestamp: Option<String>)
        requires
            old(self).inv(),
        ensures
            final(self).inv(),
            match sel@.change_id {
                None => final(self)@ == after_invalid_selection(old(self)@),
                Some(sid) => match opt_string_view(timestamp) {
                    None => final(self)@ == after_cancelled(old(self)@),
                    Some(timestamp_text) => final(self)@ == queued(
                        old(self)@,
                        seq![metaedit_set_author_timestamp_view(sid, timestamp_text, old(self)@.global_args)],
                    ),
                },
            },
    {
        let sel_id = match &sel.change_id {
            None => {
                self.invalid_selection();
                return;
            },
            Some(id) => id.as_str(),
        };
        let timestamp_text = match timestamp {
            None => {
                self.cancelled();
                return;
            },
            Some(t) => t,
        };
        let cmd = JjCommand::metaedit_set_author_timestamp(sel_id, timestamp_text.as_str(), self.global_args.snapshot());
        self.queue_jj_command(cmd);
    }

    /// Queues [`JjCommand::metaedit_force_rewrite`] for the selected change.
    pub fn jj_metaedit_force_rewrite(&mut self, sel: &Selection)
        requires
            old(self).inv(),
        ensures
            final(self).inv(),
            match sel@.change_id {
                None => final(self)@ == after_invalid_selection(old(self)@),
                Some(sid) => final(self)@ == queued(
                    old(self)@,
                    seq![metaedit_force_rewrite_view(sid, old(self)@.global_args)],
                ),
            },
    {
        let sel_id = match &sel.change_id {
            None => {
                self.invalid_selection();
                return;
            },
            Some(id) => id.as_str(),
        };
        let cmd = JjCommand::metaedit_force_rewrite(sel_id, self.global_args.snapshot());
        self.queue_jj_command(cmd);
    }

    /// Queues [`JjCommand::fetch`].
    pub fn jj_fetch(&mut self)
        requires
            old(self).inv(),
        ensures
            final(self).inv(),
            final(self)@ == queued(
                old(self)@,
                seq![fetch_view(old(self)@.global_args)],
            ),
    {
        let cmd = JjCommand::fetch(self.global_args.snapshot());
        self.queue_jj_command(cmd);
    }

    /// Queues [`JjCommand::fetch_all_remotes`].
    pub fn jj_fetch_all_remotes(&mut self)
        requires
            old(self).inv(),
        ensures
            final(self).inv(),
            final(self)@ == queued(
                old(self)@,
                seq![fetch_all_remotes_view(old(self)@.global_args)],
            ),
    {
        let cmd = JjCommand::fetch_all_remotes(self.global_args.snapshot());
        self.queue_jj_command(cmd);
    }

    /// Queues [`JjCommand::fetch_tracked`].
    pub fn jj_fetch_tracked(&mut self)
        requires
            old(self).inv(),
        ensures
            final(self).inv(),
            final(self)@ == queued(
                old(self)@,
                seq![fetch_tracked_view(old(self)@.global_args)],
            ),
    {
        let cmd = JjCommand::fetch_tracked(self.global_args.snapshot());
        self.queue_jj_command(cmd);
    }

    /// Queues [`JjCommand::fetch_branch`] for the text the user entered.
    pub fn jj_fetch_branch(&mut self, branch: Option<String>)
        requires
            old(self).inv(),
        ensures
            final(self).inv(),
            match opt_string_view(branch) {
                None => final(self)@ == after_cancelled(old(self)@),
                Some(branch_text) => final(self)@ == queued(
                    old(self)@,
                    seq![fetch_branch_view(branch_text, old(self)@.global_args)],
                ),
            },
    {
        let branch_text = match branch {
            None => {
                self.cancelled();
                return;
            },
            Some(t) => t,
        };
        let cmd = JjCommand::fetch_branch(branch_text.as_str(), self.global_args.snapshot());
        self.queue_jj_command(cmd);
    }

    /// Queues [`JjCommand::fetch_remote`] for the text the user entered.
    pub fn jj_fetch_remote(&mut self, remote: Option<String>)
        requires
            old(self).inv(),
        ensures
            final(self).inv(),
            match opt_string_view(remote) {
                None => final(self)@ == after_cancelled(old(self)@),
                Some(remote_text) => final(self)@ == queued(
                    old(self)@,
                    seq![fetch_remote_view(remote_text, old(self)@.global_args)],
                ),
            },
    {
        let remote_text = match remote {
            None => {
                self.cancelled();
                return;
            },
            Some(t) => t,
        };
        let cmd = JjCommand::fetch_remote(remote_text.as_str(), self.global_args.snapshot());
        self.queue_jj_command(cmd);
    }

    /// Queues [`JjCommand::push`].
    pub fn jj_push(&mut self)
        requires
            old(self).inv(),
        ensures
            final(self).inv(),
            final(self)@ == queued(
                old(self)@,
                seq![push_view(old(self)@.global_args)],
            ),
    {
        let cmd = JjCommand::push(self.global_args.snapshot());
        self.queue_jj_command(cmd);
    }

    /// Queues [`JjCommand::push_all`].
    pub fn jj_push_all(&mut self)
        requires
            old(self).inv(),
        ensures
            final(self).inv(),
            final(self)@ == queued(
                old(self)@,
                seq![push_all_view(old(self)@.global_args)],
            ),
    {
        let cmd = JjCommand::push_all(self.global_args.snapshot());
        self.queue_jj_command(cmd);
    }

    /// Queues [`JjCommand::push_revision`] for the selected change.
    pub fn jj_push_revision(&mut self, sel: &Selection)
        requires
            old(self).inv(),
        ensures
            final(self).inv(),
            match sel@.change_id {
                None => final(self)@ == after_invalid_selection(old(self)@),
                Some(sid) => final(self)@ == queued(
                    old(self)@,
                    seq![push_revision_view(sid, old(self)@.global_args)],
                ),
            },
    {
        let sel_id = match &sel.change_id {
            None => {
                self.invalid_selection();
                return;
            },
            Some(id) => id.as_str(),
        };
        let cmd = JjCommand::push_revision(sel_id, self.global_args.snapshot());
        self.queue_jj_command(cmd);
    }

    /// Queues [`JjCommand::push_tracked`].
    pub fn jj_push_tracked(&mut self)
        requires
            old(self).inv(),
        ensures
            final(self).inv(),
            final(self)@ == queued(
                old(self)@,
                seq![push_tracked_view(old(self)@.global_args)],
            ),
    {
        let cmd = JjCommand::push_tracked(self.global_args.snapshot());
        self.queue_jj_command(cmd);
    }

    /// Queues [`JjCommand::push_deleted`].
    pub fn jj_push_deleted(&mut self)
        requires
            old(self).inv(),
        ensures
            final(self).inv(),
            final(self)@ == queued(
                old(self)@,
                seq![push_deleted_view(old(self)@.global_args)],
            ),
    {
        let cmd = JjCommand::push_deleted(self.global_args.snapshot());
        self.queue_jj_command(cmd);
    }

    /// Queues [`JjCommand::push_change`] for the selected change.
    pub fn jj_push_change(&mut self, sel: &Selection)
        requires
            old(self).inv(),
        ensures
            final(self).inv(),
            match sel@.change_id {
                None => final(self)@ == after_invalid_selection(old(self)@),
                Some(sid) => final(self)@ == queued(
                    old(self)@,
                    seq![push_change_view(sid, old(self)@.global_args)],
                ),
            },
    {
        let sel_id = match &sel.change_id {
            None => {
                self.invalid_selection();
                return;
            },
            Some(id) => id.as_str(),
        };
        let cmd = JjCommand::push_change(sel_id, self.global_args.snapshot());
        self.queue_jj_command(cmd);
    }

    /// Queues [`JjCommand::push_named`] for the selected change and the text the user entered.
    pub fn jj_push_named(&mut self, sel: &Selection, bookmark_name: Option<String>)
        requires
            old(self).inv(),
        ensures
            final(self).inv(),
            match sel@.change_id {
                None => final(self)@ == after_invalid_selection(old(self)@),
                Some(sid) => match opt_string_view(bookmark_name) {
                    None => final(self)@ == after_cancelled(old(self)@),
                    Some(bookmark_name_text) => final(self)@ == queued(
                        old(self)@,
                        seq![push_named_view(bookmark_name_text, sid, old(self)@.global_args)],
                    ),
                },
            },
    {
        let sel_id = match &sel.change_id {
            None => {
                self.invalid_selection();
                return;
            },
            Some(id) => id.as_str(),
        };
        let bookmark_name_text = match bookmark_name {
            None => {
                self.cancelled();
                return;
            },
            Some(t) => t,
        };
        let cmd = JjCommand::push_named(bookmark_name_text.as_str(), sel_id, self.global_args.snapshot());
        self.queue_jj_command(cmd);
    }

    /// Queues [`JjCommand::push_bookmark`] for the text the user entered.
    pub fn jj_push_bookmark(&mut self, bookmark_name: Option<String>)
        requires
            old(self).inv(),
        ensures
            final(self).inv(),
            match opt_string_view(bookmark_name) {
                None => final(self)@ == after_cancelled(old(self)@),
                Some(bookmark_name_text) => final(self)@ == queued(
                    old(self)@,
                    seq![push_bookmark_view(bookmark_name_text, old(self)@.global_args)],
                ),
            },
    {
        let bookmark_name_text = match bookmark_name {
            None => {
                self.cancelled();
                return;
            },
            Some(t) => t,
        };
        let cmd = JjCommand::push_bookmark(bookmark_name_text.as_str(), self.global_args.snapshot());
        self.queue_jj_command(cmd);
    }

    /// Queues [`JjCommand::bookmark_create`] for the selected change and the text the user entered.
    pub fn jj_bookmark_create(&mut self, sel: &Selection, bookmark_names: Option<String>)
        requires
            old(self).inv(),
        ensures
            final(self).inv(),
            match sel@.change_id {
                None => final(self)@ == after_invalid_selection(old(self)@),
                Some(sid) => match opt_string_view(bookmark_names) {
                    None => final(self)@ == after_cancelled(old(self)@),
                    Some(bookmark_names_text) => final(self)@ == queued(
                        old(self)@,
                        seq![bookmark_create_view(bookmark_names_text, sid, old(self)@.global_args)],
                    ),
                },
            },
    {
        let sel_id = match &sel.change_id {
            None => {
                self.invalid_selection();
                return;
            },
            Some(id) => id.as_str(),
        };
        let bookmark_names_text = match bookmark_names {
            None => {
                self.cancelled();
                return;
            },
            Some(t) => t,
        };
        let cmd = JjCommand::bookmark_create(bookmark_names_text.as_str(), sel_id, self.global_args.snapshot());
        self.queue_jj_command(cmd);
    }

    /// Queues [`JjCommand::bookmark_delete`] for the text the user entered.
    pub fn jj_bookmark_delete(&mut self, bookmark_names: Option<String>)
        requires
            old(self).inv(),
        ensures
            final(self).inv(),
            match opt_string_view(bookmark_names) {
                None => final(self)@ == after_cancelled(old(self)@),
                Some(bookmark_names_text) => final(self)@ == queued(
                    old(self)@,
                    seq![bookmark_delete_view(bookmark_names_text, old(self)@.global_args)],
                ),
            },
    {
        let bookmark_names_text = match bookmark_names {
            None => {
                self.cancelled();
                return;
            },
            Some(t) => t,
        };
        let cmd = JjCommand::bookmark_delete(bookmark_names_text.as_str(), self.global_args.snapshot());
        self.queue_jj_command(cmd);
    }

    /// Queues [`JjCommand::bookmark_forget`] for the text the user entered.
    pub fn jj_bookmark_forget(&mut self, bookmark_names: Option<String>)
        requires
            old(self).inv(),
        ensures
            final(self).inv(),
            match opt_string_view(bookmark_names) {
                None => final(self)@ == after_cancelled(old(self)@),
                Some(bookmark_names_text) => final(self)@ == queued(
                    old(self)@,
                    seq![bookmark_forget_view(bookmark_names_text, old(self)@.global_args)],
                ),
            },
    {
        let bookmark_names_text = match bookmark_names {
            None => {
                self.cancelled();
                return;
            },
            Some(t) => t,
        };
        let cmd = JjCommand::bookmark_forget(bookmark_names_text.as_str(), self.global_args.snapshot());
        self.queue_jj_command(cmd);
    }

    /// Queues [`JjCommand::bookmark_forget_include_remotes`] for the text the user entered.
    pub fn jj_bookmark_forget_include_remotes(&mut self, bookmark_names: Option<String>)
        requires
            old(self).inv(),
        ensures
            final(self).inv(),
            match opt_string_view(bookmark_names) {
                None => final(self)@ == after_cancelled(old(self)@),
                Some(bookmark_names_text) => final(self)@ == queued(
                    old(self)@,
                    seq![bookmark_forget_include_remotes_view(bookmark_names_text, old(self)@.global_args)],
                ),
            },
    {
        let bookmark_names_text = match bookmark_names {
            None => {
                self.cancelled();
                return;
            },
            Some(t) => t,
        };
        let cmd = JjCommand::bookmark_forget_include_remotes(bookmark_names_text.as_str(), self.global_args.snapshot());
        self.queue_jj_command(cmd);
    }

    /// Queues [`JjCommand::bookmark_move`] for the saved change and the selected one.
    pub fn jj_bookmark_move(&mut self, sel: &Selection)
        requires
            old(self).inv(),
        ensures
            final(self).inv(),
            match old(self)@.saved {
                None => final(self)@ == after_invalid_selection(old(self)@),
                Some(v) => match sel@.change_id {
                    None => final(self)@ == after_invalid_selection(old(self)@),
                    Some(sid) => final(self)@ == queued(
                        old(self)@,
                        seq![bookmark_move_view(v.change_id, sid, old(self)@.global_args)],
                    ),
                },
            },
    {
        let (saved_id, _) = match self.saved_parts() {
            None => {
                self.invalid_selection();
                return;
            },
            Some(parts) => parts,
        };
        let sel_id = match &sel.change_id {
            None => {
                self.invalid_selection();
                return;
            },
            Some(id) => id.as_str(),
        };
        let cmd = JjCommand::bookmark_move(saved_id.as_str(), sel_id, self.global_args.snapshot());
        self.queue_jj_command(cmd);
    }

    /// Queues [`JjCommand::bookmark_move_allow_backwards`] for the saved change and the selected one.
    pub fn jj_bookmark_move_allow_backwards(&mut self, sel: &Selection)
        requires
            old(self).inv(),
        ensures
            final(self).inv(),
            match old(self)@.saved {
                None => final(self)@ == after_invalid_selection(old(self)@),
                Some(v) => match sel@.change_id {
                    None => final(self)@ == after_invalid_selection(old(self)@),
                    Some(sid) => final(self)@ == queued(
                        old(self)@,
                        seq![bookmark_move_allow_backwards_view(v.change_id, sid, old(self)@.global_args)],
                    ),
                },
            },
    {
        let (saved_id, _) = match self.saved_parts() {
            None => {
                self.invalid_selection();
                return;
            },
            Some(parts) => parts,
        };
        let sel_id = match &sel.change_id {
            None => {
                self.invalid_selection();
                return;
            },
            Some(id) => id.as_str(),
        };
        let cmd = JjCommand::bookmark_move_allow_backwards(saved_id.as_str(), sel_id, self.global_args.snapshot());
        self.queue_jj_command(cmd);
    }

    /// Queues [`JjCommand::bookmark_move_tug`] for the selected change.
    pub fn jj_bookmark_move_tug(&mut self, sel: &Selection)
        requires
            old(self).inv(),
        ensures
            final(self).inv(),
            match sel@.change_id {
                None => final(self)@ == after_invalid_selection(old(self)@),
                Some(sid) => final(self)@ == queued(
                    old(self)@,
                    seq![bookmark_move_tug_view(sid, old(self)@.global_args)],
                ),
            },
    {
        let sel_id = match &sel.change_id {
            None => {
                self.invalid_selection();
                return;
            },
            Some(id) => id.as_str(),
        };
        let cmd = JjCommand::bookmark_move_tug(sel_id, self.global_args.snapshot());
        self.queue_jj_command(cmd);
    }

    /// Queues [`JjCommand::bookmark_rename`] for the text the user entered.
    pub fn jj_bookmark_rename(&mut self, old_bookmark_name: Option<String>, new_bookmark_name: Option<String>)
        requires
            old(self).inv(),
        ensures
            final(self).inv(),
            match opt_string_view(old_bookmark_name) {
                None => final(self)@ == after_cancelled(old(self)@),
                Some(old_bookmark_name_text) => match opt_string_view(new_bookmark_name) {
                    None => final(self)@ == after_cancelled(old(self)@),
                    Some(new_bookmark_name_text) => final(self)@ == queued(
                        old(self)@,
                        seq![bookmark_rename_view(old_bookmark_name_text, new_bookmark_name_text, old(self)@.global_args)],
                    ),
                },
            },
    {
        let old_bookmark_name_text = match old_bookmark_name {
            None => {
                self.cancelled();
                return;
            },
            Some(t) => t,
        };
        let new_bookmark_name_text = match new_bookmark_name {
            None => {
                self.cancelled();
                return;
            },
            Some(t) => t,
        };
        let cmd = JjCommand::bookmark_rename(old_bookmark_name_text.as_str(), new_bookmark_name_text.as_str(), self.global_args.snapshot());
        self.queue_jj_command(cmd);
    }

    /// Queues [`JjCommand::bookmark_set`] for the selected change and the text the user entered.
    pub fn jj_bookmark_set(&mut self, sel: &Selection, bookmark_names: Option<String>)
        requires
            old(self).inv(),
        ensures
            final(self).inv(),
            match sel@.change_id {
                None => final(self)@ == after_invalid_selection(old(self)@),
                Some(sid) => match opt_string_view(bookmark_names) {
                    None => final(self)@ == after_cancelled(old(self)@),
                    Some(bookmark_names_text) => final(self)@ == queued(
                        old(self)@,
                        seq![bookmark_set_view(bookmark_names_text, sid, old(self)@.global_args)],
                    ),
                },
            },
    {
        let sel_id = match &sel.change_id {
            None => {
                self.invalid_selection();
                return;
            },
            Some(id) => id.as_str(),
        };
        let bookmark_names_text = match bookmark_names {
            None => {
                self.cancelled();
                return;
            },
            Some(t) => t,
        };
        let cmd = JjCommand::bookmark_set(bookmark_names_text.as_str(), sel_id, self.global_args.snapshot());
        self.queue_jj_command(cmd);
    }

    /// Queues [`JjCommand::bookmark_track`] for the text the user entered.
    pub fn jj_bookmark_track(&mut self, bookmark_at_remote: Option<String>)
        requires
            old(self).inv(),
        ensures
            final(self).inv(),
            match opt_string_view(bookmark_at_remote) {
                None => final(self)@ == after_cancelled(old(self)@),
                Some(bookmark_at_remote_text) => final(self)@ == queued(
                    old(self)@,
                    seq![bookmark_track_view(bookmark_at_remote_text, old(self)@.global_args)],
                ),
            },
    {
        let bookmark_at_remote_text = match bookmark_at_remote {
            None => {
                self.cancelled();
                return;
            },
            Some(t) => t,
        };
        let cmd = JjCommand::bookmark_track(bookmark_at_remote_text.as_str(), self.global_args.snapshot());
        self.queue_jj_command(cmd);
    }

    /// Queues [`JjCommand::bookmark_untrack`] for the text the user entered.
    pub fn jj_bookmark_untrack(&mut self, bookmark_at_remote: Option<String>)
        requires
            old(self).inv(),
        ensures
            final(self).inv(),
            match opt_string_view(bookmark_at_remote) {
                None => final(self)@ == after_cancelled(old(self)@),
                Some(bookmark_at_remote_text) => final(self)@ == queued(
                    old(self)@,
                    seq![bookmark_untrack_view(bookmark_at_remote_text, old(self)@.global_args)],
                ),
            },
    {
        let bookmark_at_remote_text = match bookmark_at_remote {
            None => {
                self.cancelled();
                return;
            },
            Some(t) => t,
        };
        let cmd = JjCommand::bookmark_untrack(bookmark_at_remote_text.as_str(), self.global_args.snapshot());
        self.queue_jj_command(cmd);
    }
}

pub open spec fn dots(n: nat) -> Seq<char> {
    Seq::new(n, |i: int| '.')
}

pub open spec fn count_char(s: Seq<char>, c: char) -> nat
    decreases s.len(),
{
    if s.len() == 0 {
        0
    } else {
        count_char(s.drop_last(), c) + if s.last() == c {
            1nat
        } else {
            0nat
        }
    }
}

/// Dots for the next refresh notice: three more than the current one has,
/// when the notice is a refresh notice.
pub open spec fn refresh_dots(info: Option<Seq<InfoLineView>>) -> nat {
    match info {
        Some(ls) => if ls.len() == 1 {
            match ls[0] {
                InfoLineView::Plain(s) => if crate::display::is_prefix("Refreshed"@, s) && count_char(s, '.')
                    < usize::MAX - 3 {
                    count_char(s, '.') + 3
                } else {
                    0
                },
                _ => 0,
            }
        } else {
            0
        },
        None => 0,
    }
}

fn count_dots(s: &str) -> (r: usize)
    ensures
        r == count_char(s@, '.'),
{
    let n = s.unicode_len();
    let mut i: usize = 0;
    let mut r: usize = 0;
    while i < n
        invariant
            i <= n,
            n == s@.len(),
            r == count_char(s@.take(i as int), '.'),
            r <= i,
        decreases n - i,
    {
        assert(s@.take(i + 1).drop_last() =~= s@.take(i as int));
        if s.get_char(i) == '.' {
            r = r + 1;
        }
        i = i + 1;
    }
    assert(s@.take(n as int) =~= s@);
    r
}


/// The model and the step results after running the queue through these outcomes in turn.
pub open spec fn run_steps(m: ModelView, os: Seq<OutcomeView>) -> (ModelView, Seq<QueueStep>)
    decreases os.len(),
{
    if os.len() == 0 {
        (m, seq![])
    } else {
        let (m1, ss) = run_steps(m, os.drop_last());
        (step_model(m1, os.last()), ss.push(step_result(m1, os.last())))
    }
}

pub open spec fn outputs_then(outputs: Seq<Seq<char>>, last: OutcomeView) -> Seq<OutcomeView> {
    outputs.map_values(|o: Seq<char>| OutcomeView::Output(o)).push(last)
}

/// The records of the first `j` commands of `cmds` with these outputs.
pub open spec fn records_of(cmds: Seq<JjCommandView>, outputs: Seq<Seq<char>>, j: int) -> Seq<RecordView> {
    Seq::new(j as nat, |i: int| (cmds[i].args, outputs[i]))
}

proof fn lemma_successes(m: ModelView, outputs: Seq<Seq<char>>, j: int)
    requires
        m.transcript.len() == 0,
        0 <= j <= outputs.len(),
        outputs.len() < m.queue.len(),
    ensures
        ({
            let os = outputs.map_values(|o: Seq<char>| OutcomeView::Output(o)).take(j);
            let (mj, ss) = run_steps(m, os);
            &&& mj.queue == m.queue.skip(j)
            &&& mj.transcript == records_of(m.queue, outputs, j)
            &&& ss.len() == j
            &&& forall|i: int| 0 <= i < j ==> ss[i] == QueueStep::Next
        }),
    decreases j,
{
    let all = outputs.map_values(|o: Seq<char>| OutcomeView::Output(o));
    if j == 0 {
        assert(all.take(0) =~= Seq::<OutcomeView>::empty());
        assert(m.queue.skip(0) =~= m.queue);
        assert(records_of(m.queue, outputs, 0) =~= Seq::<RecordView>::empty());
    } else {
        lemma_successes(m, outputs, j - 1);
        assert(all.take(j).drop_last() =~= all.take(j - 1));
        let (m1, ss) = run_steps(m, all.take(j - 1));
        assert(m1.queue[0] == m.queue[j - 1]);
        assert(m1.queue.drop_first() =~= m.queue.skip(j));
        assert(m1.transcript.push((m1.queue[0].args, outputs[j - 1])) =~= records_of(m.queue, outputs, j));
    }
}

/// A batch stops at its first failure: when command `k` fails after the
/// ones before it succeeded, the notice shows the commands up to and
/// including `k`, in order, each with its output and the failing one with its
/// error, and nothing of the commands after it; the batch is discarded and no
/// step asks for the view model to be resynced.
pub proof fn lemma_batch_stops_at_failure(
    m: ModelView,
    outputs: Seq<Seq<char>>,
    err: Seq<char>,
)
    requires
        m.transcript.len() == 0,
        outputs.len() < m.queue.len(),
    ensures
        ({
            let k = outputs.len() as int;
            let (m2, steps) = run_steps(m, outputs_then(outputs, OutcomeView::Failed(err)));
            &&& m2.queue.len() == 0
            &&& m2.transcript.len() == 0
            &&& m2.info == Some(transcript_lines(records_of(m.queue, outputs.push(err), k + 1)))
            &&& steps.len() == k + 1
            &&& steps[k] == QueueStep::Failed
            &&& forall|i: int| 0 <= i < k ==> steps[i] == QueueStep::Next
        }),
{
    let k = outputs.len() as int;
    let all = outputs.map_values(|o: Seq<char>| OutcomeView::Output(o));
    lemma_successes(m, outputs, k);
    assert(all.take(k) =~= all);
    let os = outputs_then(outputs, OutcomeView::Failed(err));
    assert(os.drop_last() =~= all);
    let (m1, ss) = run_steps(m, all);
    assert(m1.queue[0] == m.queue[k]);
    assert(m1.transcript.push((m1.queue[0].args, err)) =~= records_of(m.queue, outputs.push(err), k + 1));
}


/// An argument that is an option rather than an operand.
pub open spec fn is_flag(a: Seq<char>) -> bool {
    a.len() > 0 && a[0] == '-'
}

/// Two invocations of the same shape: the same mode, stream, resync flag and
/// global flags, the same number of arguments, the same subcommand, and the
/// same option wherever either has one; they differ in operands at most.
pub open spec fn same_shape(a: JjCommandView, b: JjCommandView) -> bool {
    &&& a.interactive == b.interactive
    &&& a.return_output == b.return_output
    &&& a.sync == b.sync
    &&& a.global_args == b.global_args
    &&& a.args.len() == b.args.len()
    &&& a.args.len() > 0 && a.args[0] == b.args[0]
    &&& forall|i: int|
        0 <= i < a.args.len() && (is_flag(a.args[i]) || is_flag(b.args[i])) ==> a.args[i] == b.args[i]
}

/// Two-step commands mirror their one-step forms: saving a change `x` and
/// then picking `x` again as the destination queues (as the handlers'
/// contracts state) an invocation of the same shape as the one-step action on
/// the selection `x`. This holds for signing and unsigning a range,
/// parallelizing a range, viewing and interdiffing to a destination, and
/// reverting onto a destination.
pub proof fn lemma_two_step_symmetry(
    x: Seq<char>,
    file_path: Option<Seq<char>>,
    global_args: (Seq<char>, bool),
)
    requires
        x.len() > 0,
        !is_flag(x),
    ensures
        same_shape(
            sign_view(range_revset_view(x, x), global_args),
            sign_view(x, global_args),
        ),
        same_shape(
            unsign_view(range_revset_view(x, x), global_args),
            unsign_view(x, global_args),
        ),
        same_shape(
            parallelize_view(range_revset_view(x, x), global_args),
            parallelize_view(parents_revset_view(x), global_args),
        ),
        same_shape(
            diff_from_to_interactive_view(x, x, global_args),
            diff_from_to_interactive_view(x, "@"@, global_args),
        ),
        same_shape(
            interdiff_view(x, x, file_path, global_args),
            interdiff_view(x, "@"@, file_path, global_args),
        ),
        same_shape(
            revert_onto_view(x, x, global_args),
            revert_onto_view(x, "@"@, global_args),
        ),
{
    reveal_strlit("sign");
    reveal_strlit("unsign");
    reveal_strlit("-r");
    reveal_strlit("parallelize");
    reveal_strlit("diff");
    reveal_strlit("interdiff");
    reveal_strlit("--from");
    reveal_strlit("--to");
    reveal_strlit("revert");
    reveal_strlit("--onto");
    reveal_strlit("@");
    reveal_strlit("::");
    reveal_strlit("-::");
    assert(range_revset_view(x, x)[0] == x[0]);
    assert(parents_revset_view(x)[0] == x[0]);
    assert(!is_flag("@"@));
}

} // verus!

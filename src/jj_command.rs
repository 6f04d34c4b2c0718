//! Invocation descriptors for the external version-control executable.
use crate::log_rows::LOG_TEMPLATE;
use vstd::prelude::*;

verus! {

/// Flags that every invocation carries before its own arguments.
#[derive(Debug, Clone)]
pub struct GlobalArgs {
    pub repository: String,
    pub ignore_immutable: bool,
}

impl GlobalArgs {
    pub open spec fn view(&self) -> (Seq<char>, bool) {
        (self.repository@, self.ignore_immutable)
    }

    /// A copy with the same repository and the same immutability override.
    pub fn snapshot(&self) -> (r: GlobalArgs)
        ensures
            r.view() == self.view(),
    {
        GlobalArgs { repository: self.repository.clone(), ignore_immutable: self.ignore_immutable }
    }
}

/// Which captured stream of a finished invocation is shown to the user.
#[derive(Debug, Clone, Copy, PartialEq, Eq, Structural)]
pub enum ReturnOutput {
    Stdout,
    Stderr,
}

/// What a descriptor stands for, in mathematical terms.
pub struct JjCommandView {
    pub args: Seq<Seq<char>>,
    pub global_args: (Seq<char>, bool),
    pub interactive: bool,
    pub return_output: ReturnOutput,
    pub sync: bool,
}

/// One invocation of the external tool: its arguments, the global flags, the
/// execution mode, the stream to surface and whether success triggers a resync.
#[derive(Debug)]
pub struct JjCommand {
    args: Vec<String>,
    global_args: GlobalArgs,
    interactive: bool,
    return_output: ReturnOutput,
    sync: bool,
}

impl View for JjCommand {
    type V = JjCommandView;

    closed spec fn view(&self) -> JjCommandView {
        JjCommandView {
            args: self.args.deep_view(),
            global_args: self.global_args.view(),
            interactive: self.interactive,
            return_output: self.return_output,
            sync: self.sync,
        }
    }
}

pub open spec fn strs_view(parts: Seq<&str>) -> Seq<Seq<char>> {
    parts.map_values(|s: &str| s@)
}

/// Owned copies of a list of string slices.
fn to_strings(parts: &[&str]) -> (r: Vec<String>)
    ensures
        r.deep_view() == strs_view(parts@),
{
    let mut r: Vec<String> = Vec::new();
    let mut i: usize = 0;
    while i < parts.len()
        invariant
            i <= parts@.len(),
            r.deep_view() == strs_view(parts@.subrange(0, i as int)),
        decreases parts@.len() - i,
    {
        r.push(String::from_str(parts[i]));
        i = i + 1;
        assert(strs_view(parts@.subrange(0, i as int)) =~= strs_view(
            parts@.subrange(0, i as int - 1),
        ).push(parts@[i as int - 1]@));
    }
    assert(parts@.subrange(0, parts@.len() as int) =~= parts@);
    r
}

impl JjCommand {
    fn _new(
        args: &[&str],
        global_args: GlobalArgs,
        interactive: bool,
        return_output: ReturnOutput,
    ) -> (r: Self)
        ensures
            r@ == (JjCommandView {
                args: strs_view(args@),
                global_args: global_args.view(),
                interactive,
                return_output,
                sync: true,
            }),
    {
        JjCommand { args: to_strings(args), global_args, interactive, return_output, sync: true }
    }

    fn _new_skip_sync(
        args: &[&str],
        global_args: GlobalArgs,
        interactive: bool,
        return_output: ReturnOutput,
    ) -> (r: Self)
        ensures
            r@ == (JjCommandView {
                args: strs_view(args@),
                global_args: global_args.view(),
                interactive,
                return_output,
                sync: false,
            }),
    {
        JjCommand { args: to_strings(args), global_args, interactive, return_output, sync: false }
    }

    /// The arguments followed by the file path, when there is one.
    fn with_path(
        args: &[&str],
        maybe_file_path: Option<&str>,
        global_args: GlobalArgs,
        interactive: bool,
        return_output: ReturnOutput,
        sync: bool,
    ) -> (r: Self)
        ensures
            r@ == (JjCommandView {
                args: strs_view(args@) + path_arg(maybe_file_path),
                global_args: global_args.view(),
                interactive,
                return_output,
                sync,
            }),
    {
        let mut all = to_strings(args);
        if let Some(file_path) = maybe_file_path {
            all.push(String::from_str(file_path));
        }
        assert(all.deep_view() =~= strs_view(args@) + path_arg(maybe_file_path));
        JjCommand { args: all, global_args, interactive, return_output, sync }
    }

    /// Whether overall success of a batch ending with this command resyncs the view model.
    pub fn sync(&self) -> (r: bool)
        ensures
            r == self@.sync,
    {
        self.sync
    }

    /// The action-specific arguments.
    pub fn args(&self) -> (r: &Vec<String>)
        ensures
            r.deep_view() == self@.args,
    {
        &self.args
    }

    /// Whether the command takes over the terminal while it runs.
    pub fn is_interactive(&self) -> (r: bool)
        ensures
            r == self@.interactive,
    {
        self.interactive
    }

    pub fn return_output(&self) -> (r: ReturnOutput)
        ensures
            r == self@.return_output,
    {
        self.return_output
    }

    pub fn global_args(&self) -> (r: &GlobalArgs)
        ensures
            r.view() == self@.global_args,
    {
        &self.global_args
    }

    /// The complete argument vector handed to the executable: the fixed
    /// display flags, the repository, the optional immutability override and
    /// then the action-specific arguments.
    pub fn command_line(&self) -> (r: Vec<String>)
        ensures
            r.deep_view() == full_command_line(self@),
    {
        let base = [
            "--color",
            "always",
            "--config",
            PAGER_CONFIG,
            "--config",
            STREAMPAGER_CONFIG,
            "--config",
            LOG_NODE_TEMPLATE,
            "--repository",
        ];
        let mut r = to_strings(&base);
        r.push(self.global_args.repository.clone());
        if self.global_args.ignore_immutable {
            r.push(String::from_str("--ignore-immutable"));
        }
        let ghost prefix = r.deep_view();
        let mut i: usize = 0;
        while i < self.args.len()
            invariant
                i <= self.args@.len(),
                r.deep_view() == prefix + self.args.deep_view().subrange(0, i as int),
            decreases self.args@.len() - i,
        {
            let a = self.args[i].clone();
            assert(a@ == self.args.deep_view()[i as int]);
            let ghost before = r.deep_view();
            r.push(a);
            assert(r.deep_view() =~= before.push(a@));
            i = i + 1;
            assert(self.args.deep_view().subrange(0, i as int) =~= self.args.deep_view().subrange(
                0,
                i - 1,
            ).push(a@));
            assert(r.deep_view() =~= prefix + self.args.deep_view().subrange(0, i as int));
        }
        assert(self.args.deep_view().subrange(0, self.args@.len() as int) =~= self.args.deep_view());
        assert(strs_view(base@) =~= base_flags());
        assert(r.deep_view() =~= full_command_line(self@));
        r
    }

    /// The text shown for a finished command: the stream chosen at construction.
    pub fn select_output(&self, output: JjCommandOutput) -> (r: String)
        ensures
            self@.return_output == ReturnOutput::Stdout ==> r@ == output.stdout@,
            self@.return_output == ReturnOutput::Stderr ==> r@ == output.stderr@,
    {
        match self.return_output {
            ReturnOutput::Stdout => output.stdout,
            ReturnOutput::Stderr => output.stderr,
        }
    }

    /// Captured: `jj git push --named <name>=<change_id>`.
    pub fn push_named(name: &str, change_id: &str, global_args: GlobalArgs) -> (r: Self)
        ensures
            r@ == push_named_view(name@, change_id@, global_args.view()),
    {
        let mut named_arg = String::from_str(name);
        named_arg.append("=");
        named_arg.append(change_id);
        let args = ["git", "push", "--named", named_arg.as_str()];
        let r = Self::_new(&args, global_args, false, ReturnOutput::Stderr);
        assert(strs_view(args@) =~= seq!["git"@, "push"@, "--named"@, name@ + "="@ + change_id@]);
        r
    }

    /// Captured, showing standard output: `jj log --no-graph --revisions
    /// <revset> --template <LOG_TEMPLATE>`, the listing that
    /// `log_rows::parse_log` reads. Loading it changes nothing, so no resync.
    pub fn log_records(revset: &str, global_args: GlobalArgs) -> (r: Self)
        ensures
            r@ == log_records_view(revset@, global_args.view()),
    {
        let args = ["log", "--no-graph", "--revisions", revset, "--template", LOG_TEMPLATE];
        let r = Self::_new_skip_sync(&args, global_args, false, ReturnOutput::Stdout);
        assert(strs_view(args@) =~= seq![
            "log"@,
            "--no-graph"@,
            "--revisions"@,
            revset@,
            "--template"@,
            LOG_TEMPLATE@,
        ]);
        r
    }

    /// Captured, showing standard output: `jj log --revisions <revset>`.
    pub fn log(revset: &str, global_args: GlobalArgs) -> (r: Self)
        ensures
            r@ == log_view(revset@, global_args.view()),
    {
        let args = ["log", "--revisions", revset];
        let r = Self::_new(&args, global_args, false, ReturnOutput::Stdout);
        assert(strs_view(args@) =~= seq!["log"@, "--revisions"@, revset@]);
        r
    }

    /// Captured, showing standard output: `jj diff --revisions <change_id> --summary`.
    pub fn diff_summary(change_id: &str, global_args: GlobalArgs) -> (r: Self)
        ensures
            r@ == diff_summary_view(change_id@, global_args.view()),
    {
        let args = ["diff", "--revisions", change_id, "--summary"];
        let r = Self::_new(&args, global_args, false, ReturnOutput::Stdout);
        assert(strs_view(args@) =~= seq!["diff"@, "--revisions"@, change_id@, "--summary"@]);
        r
    }

    /// Captured, showing standard output: `jj diff --revisions <change_id> <file>`.
    pub fn diff_file(change_id: &str, file: &str, global_args: GlobalArgs) -> (r: Self)
        ensures
            r@ == diff_file_view(change_id@, file@, global_args.view()),
    {
        let args = ["diff", "--revisions", change_id, file];
        let r = Self::_new(&args, global_args, false, ReturnOutput::Stdout);
        assert(strs_view(args@) =~= seq!["diff"@, "--revisions"@, change_id@, file@]);
        r
    }

    /// Interactive, without resync: `jj diff --revisions <change_id> <file>`.
    pub fn diff_file_interactive(change_id: &str, file: &str, global_args: GlobalArgs) -> (r: Self)
        ensures
            r@ == diff_file_interactive_view(change_id@, file@, global_args.view()),
    {
        let args = ["diff", "--revisions", change_id, file];
        let r = Self::_new_skip_sync(&args, global_args, true, ReturnOutput::Stderr);
        assert(strs_view(args@) =~= seq!["diff"@, "--revisions"@, change_id@, file@]);
        r
    }

    /// Interactive, without resync: `jj diff --from <from> --to <to>`.
    pub fn diff_from_to_interactive(from: &str, to: &str, global_args: GlobalArgs) -> (r: Self)
        ensures
            r@ == diff_from_to_interactive_view(from@, to@, global_args.view()),
    {
        let args = ["diff", "--from", from, "--to", to];
        let r = Self::_new_skip_sync(&args, global_args, true, ReturnOutput::Stderr);
        assert(strs_view(args@) =~= seq!["diff"@, "--from"@, from@, "--to"@, to@]);
        r
    }

    /// Interactive: `jj describe <change_id>`.
    pub fn describe(change_id: &str, global_args: GlobalArgs) -> (r: Self)
        ensures
            r@ == describe_view(change_id@, global_args.view()),
    {
        let args = ["describe", change_id];
        let r = Self::_new(&args, global_args, true, ReturnOutput::Stderr);
        assert(strs_view(args@) =~= seq!["describe"@, change_id@]);
        r
    }

    /// Captured: `jj duplicate <change_id>`.
    pub fn duplicate(change_id: &str, global_args: GlobalArgs) -> (r: Self)
        ensures
            r@ == duplicate_view(change_id@, global_args.view()),
    {
        let args = ["duplicate", change_id];
        let r = Self::_new(&args, global_args, false, ReturnOutput::Stderr);
        assert(strs_view(args@) =~= seq!["duplicate"@, change_id@]);
        r
    }

    /// Captured: `jj duplicate <change_id> --onto <dest_change_id>`.
    pub fn duplicate_onto(change_id: &str, dest_change_id: &str, global_args: GlobalArgs) -> (r: Self)
        ensures
            r@ == duplicate_onto_view(change_id@, dest_change_id@, global_args.view()),
    {
        let args = ["duplicate", change_id, "--onto", dest_change_id];
        let r = Self::_new(&args, global_args, false, ReturnOutput::Stderr);
        assert(strs_view(args@) =~= seq!["duplicate"@, change_id@, "--onto"@, dest_change_id@]);
        r
    }

    /// Captured: `jj duplicate <change_id> --insert-after <dest_change_id>`.
    pub fn duplicate_insert_after(change_id: &str, dest_change_id: &str, global_args: GlobalArgs) -> (r: Self)
        ensures
            r@ == duplicate_insert_after_view(change_id@, dest_change_id@, global_args.view()),
    {
        let args = ["duplicate", change_id, "--insert-after", dest_change_id];
        let r = Self::_new(&args, global_args, false, ReturnOutput::Stderr);
        assert(strs_view(args@) =~= seq!["duplicate"@, change_id@, "--insert-after"@, dest_change_id@]);
        r
    }

    /// Captured: `jj duplicate <change_id> --insert-before <dest_change_id>`.
    pub fn duplicate_insert_before(change_id: &str, dest_change_id: &str, global_args: GlobalArgs) -> (r: Self)
        ensures
            r@ == duplicate_insert_before_view(change_id@, dest_change_id@, global_args.view()),
    {
        let args = ["duplicate", change_id, "--insert-before", dest_change_id];
        let r = Self::_new(&args, global_args, false, ReturnOutput::Stderr);
        assert(strs_view(args@) =~= seq!["duplicate"@, change_id@, "--insert-before"@, dest_change_id@]);
        r
    }

    /// Captured: `jj new <change_id>`.
    pub fn new(change_id: &str, global_args: GlobalArgs) -> (r: Self)
        ensures
            r@ == new_view(change_id@, global_args.view()),
    {
        let args = ["new", change_id];
        let r = Self::_new(&args, global_args, false, ReturnOutput::Stderr);
        assert(strs_view(args@) =~= seq!["new"@, change_id@]);
        r
    }

    /// Captured: `jj parallelize <revset>`.
    pub fn parallelize(revset: &str, global_args: GlobalArgs) -> (r: Self)
        ensures
            r@ == parallelize_view(revset@, global_args.view()),
    {
        let args = ["parallelize", revset];
        let r = Self::_new(&args, global_args, false, ReturnOutput::Stderr);
        assert(strs_view(args@) =~= seq!["parallelize"@, revset@]);
        r
    }

    /// Captured: `jj prev`.
    pub fn prev(global_args: GlobalArgs) -> (r: Self)
        ensures
            r@ == prev_view(global_args.view()),
    {
        let args = ["prev"];
        let r = Self::_new(&args, global_args, false, ReturnOutput::Stderr);
        assert(strs_view(args@) =~= seq!["prev"@]);
        r
    }

    /// Captured: `jj prev <offset>`.
    pub fn prev_offset(offset: &str, global_args: GlobalArgs) -> (r: Self)
        ensures
            r@ == prev_offset_view(offset@, global_args.view()),
    {
        let args = ["prev", offset];
        let r = Self::_new(&args, global_args, false, ReturnOutput::Stderr);
        assert(strs_view(args@) =~= seq!["prev"@, offset@]);
        r
    }

    /// Captured: `jj prev --edit`.
    pub fn prev_edit(global_args: GlobalArgs) -> (r: Self)
        ensures
            r@ == prev_edit_view(global_args.view()),
    {
        let args = ["prev", "--edit"];
        let r = Self::_new(&args, global_args, false, ReturnOutput::Stderr);
        assert(strs_view(args@) =~= seq!["prev"@, "--edit"@]);
        r
    }

    /// Captured: `jj prev --edit <offset>`.
    pub fn prev_edit_offset(offset: &str, global_args: GlobalArgs) -> (r: Self)
        ensures
            r@ == prev_edit_offset_view(offset@, global_args.view()),
    {
        let args = ["prev", "--edit", offset];
        let r = Self::_new(&args, global_args, false, ReturnOutput::Stderr);
        assert(strs_view(args@) =~= seq!["prev"@, "--edit"@, offset@]);
        r
    }

    /// Captured: `jj prev --no-edit`.
    pub fn prev_no_edit(global_args: GlobalArgs) -> (r: Self)
        ensures
            r@ == prev_no_edit_view(global_args.view()),
    {
        let args = ["prev", "--no-edit"];
        let r = Self::_new(&args, global_args, false, ReturnOutput::Stderr);
        assert(strs_view(args@) =~= seq!["prev"@, "--no-edit"@]);
        r
    }

    /// Captured: `jj prev --no-edit <offset>`.
    pub fn prev_no_edit_offset(offset: &str, global_args: GlobalArgs) -> (r: Self)
        ensures
            r@ == prev_no_edit_offset_view(offset@, global_args.view()),
    {
        let args = ["prev", "--no-edit", offset];
        let r = Self::_new(&args, global_args, false, ReturnOutput::Stderr);
        assert(strs_view(args@) =~= seq!["prev"@, "--no-edit"@, offset@]);
        r
    }

    /// Captured: `jj prev --conflict`.
    pub fn prev_conflict(global_args: GlobalArgs) -> (r: Self)
        ensures
            r@ == prev_conflict_view(global_args.view()),
    {
        let args = ["prev", "--conflict"];
        let r = Self::_new(&args, global_args, false, ReturnOutput::Stderr);
        assert(strs_view(args@) =~= seq!["prev"@, "--conflict"@]);
        r
    }

    /// Captured: `jj new --insert-after <change_id>`.
    pub fn new_insert_after(change_id: &str, global_args: GlobalArgs) -> (r: Self)
        ensures
            r@ == new_insert_after_view(change_id@, global_args.view()),
    {
        let args = ["new", "--insert-after", change_id];
        let r = Self::_new(&args, global_args, false, ReturnOutput::Stderr);
        assert(strs_view(args@) =~= seq!["new"@, "--insert-after"@, change_id@]);
        r
    }

    /// Captured: `jj new --no-edit --insert-before <change_id>`.
    pub fn new_before(change_id: &str, global_args: GlobalArgs) -> (r: Self)
        ensures
            r@ == new_before_view(change_id@, global_args.view()),
    {
        let args = ["new", "--no-edit", "--insert-before", change_id];
        let r = Self::_new(&args, global_args, false, ReturnOutput::Stderr);
        assert(strs_view(args@) =~= seq!["new"@, "--no-edit"@, "--insert-before"@, change_id@]);
        r
    }

    /// Captured: `jj new trunk()`.
    pub fn new_after_trunk(global_args: GlobalArgs) -> (r: Self)
        ensures
            r@ == new_after_trunk_view(global_args.view()),
    {
        let args = ["new", "trunk()"];
        let r = Self::_new(&args, global_args, false, ReturnOutput::Stderr);
        assert(strs_view(args@) =~= seq!["new"@, "trunk()"@]);
        r
    }

    /// Captured: `jj next`.
    pub fn next(global_args: GlobalArgs) -> (r: Self)
        ensures
            r@ == next_view(global_args.view()),
    {
        let args = ["next"];
        let r = Self::_new(&args, global_args, false, ReturnOutput::Stderr);
        assert(strs_view(args@) =~= seq!["next"@]);
        r
    }

    /// Captured: `jj next <offset>`.
    pub fn next_offset(offset: &str, global_args: GlobalArgs) -> (r: Self)
        ensures
            r@ == next_offset_view(offset@, global_args.view()),
    {
        let args = ["next", offset];
        let r = Self::_new(&args, global_args, false, ReturnOutput::Stderr);
        assert(strs_view(args@) =~= seq!["next"@, offset@]);
        r
    }

    /// Captured: `jj next --edit`.
    pub fn next_edit(global_args: GlobalArgs) -> (r: Self)
        ensures
            r@ == next_edit_view(global_args.view()),
    {
        let args = ["next", "--edit"];
        let r = Self::_new(&args, global_args, false, ReturnOutput::Stderr);
        assert(strs_view(args@) =~= seq!["next"@, "--edit"@]);
        r
    }

    /// Captured: `jj next --edit <offset>`.
    pub fn next_edit_offset(offset: &str, global_args: GlobalArgs) -> (r: Self)
        ensures
            r@ == next_edit_offset_view(offset@, global_args.view()),
    {
        let args = ["next", "--edit", offset];
        let r = Self::_new(&args, global_args, false, ReturnOutput::Stderr);
        assert(strs_view(args@) =~= seq!["next"@, "--edit"@, offset@]);
        r
    }

    /// Captured: `jj next --no-edit`.
    pub fn next_no_edit(global_args: GlobalArgs) -> (r: Self)
        ensures
            r@ == next_no_edit_view(global_args.view()),
    {
        let args = ["next", "--no-edit"];
        let r = Self::_new(&args, global_args, false, ReturnOutput::Stderr);
        assert(strs_view(args@) =~= seq!["next"@, "--no-edit"@]);
        r
    }

    /// Captured: `jj next --no-edit <offset>`.
    pub fn next_no_edit_offset(offset: &str, global_args: GlobalArgs) -> (r: Self)
        ensures
            r@ == next_no_edit_offset_view(offset@, global_args.view()),
    {
        let args = ["next", "--no-edit", offset];
        let r = Self::_new(&args, global_args, false, ReturnOutput::Stderr);
        assert(strs_view(args@) =~= seq!["next"@, "--no-edit"@, offset@]);
        r
    }

    /// Captured: `jj next --conflict`.
    pub fn next_conflict(global_args: GlobalArgs) -> (r: Self)
        ensures
            r@ == next_conflict_view(global_args.view()),
    {
        let args = ["next", "--conflict"];
        let r = Self::_new(&args, global_args, false, ReturnOutput::Stderr);
        assert(strs_view(args@) =~= seq!["next"@, "--conflict"@]);
        r
    }

    /// Captured: `jj abandon <change_id>`.
    pub fn abandon(change_id: &str, global_args: GlobalArgs) -> (r: Self)
        ensures
            r@ == abandon_view(change_id@, global_args.view()),
    {
        let args = ["abandon", change_id];
        let r = Self::_new(&args, global_args, false, ReturnOutput::Stderr);
        assert(strs_view(args@) =~= seq!["abandon"@, change_id@]);
        r
    }

    /// Captured: `jj abandon --retain-bookmarks <change_id>`.
    pub fn abandon_retain_bookmarks(change_id: &str, global_args: GlobalArgs) -> (r: Self)
        ensures
            r@ == abandon_retain_bookmarks_view(change_id@, global_args.view()),
    {
        let args = ["abandon", "--retain-bookmarks", change_id];
        let r = Self::_new(&args, global_args, false, ReturnOutput::Stderr);
        assert(strs_view(args@) =~= seq!["abandon"@, "--retain-bookmarks"@, change_id@]);
        r
    }

    /// Captured: `jj abandon --restore-descendants <change_id>`.
    pub fn abandon_restore_descendants(change_id: &str, global_args: GlobalArgs) -> (r: Self)
        ensures
            r@ == abandon_restore_descendants_view(change_id@, global_args.view()),
    {
        let args = ["abandon", "--restore-descendants", change_id];
        let r = Self::_new(&args, global_args, false, ReturnOutput::Stderr);
        assert(strs_view(args@) =~= seq!["abandon"@, "--restore-descendants"@, change_id@]);
        r
    }

    /// Captured: `jj absorb --from <change_id> [<file_path>]`.
    pub fn absorb(change_id: &str, maybe_file_path: Option<&str>, global_args: GlobalArgs) -> (r: Self)
        ensures
            r@ == absorb_view(change_id@, opt_str_view(maybe_file_path), global_args.view()),
    {
        let args = ["absorb", "--from", change_id];
        let r = Self::with_path(&args, maybe_file_path, global_args, false, ReturnOutput::Stderr, true);
        assert(strs_view(args@) =~= seq!["absorb"@, "--from"@, change_id@]);
        r
    }

    /// Captured: `jj absorb --from <from_change_id> --into <into_change_id> [<file_path>]`.
    pub fn absorb_into(from_change_id: &str, into_change_id: &str, maybe_file_path: Option<&str>, global_args: GlobalArgs) -> (r: Self)
        ensures
            r@ == absorb_into_view(from_change_id@, into_change_id@, opt_str_view(maybe_file_path), global_args.view()),
    {
        let args = ["absorb", "--from", from_change_id, "--into", into_change_id];
        let r = Self::with_path(&args, maybe_file_path, global_args, false, ReturnOutput::Stderr, true);
        assert(strs_view(args@) =~= seq!["absorb"@, "--from"@, from_change_id@, "--into"@, into_change_id@]);
        r
    }

    /// Captured: `jj revert -r <revision> --onto <destination>`.
    pub fn revert_onto(revision: &str, destination: &str, global_args: GlobalArgs) -> (r: Self)
        ensures
            r@ == revert_onto_view(revision@, destination@, global_args.view()),
    {
        let args = ["revert", "-r", revision, "--onto", destination];
        let r = Self::_new(&args, global_args, false, ReturnOutput::Stderr);
        assert(strs_view(args@) =~= seq!["revert"@, "-r"@, revision@, "--onto"@, destination@]);
        r
    }

    /// Captured: `jj revert -r <revision> --insert-after <destination>`.
    pub fn revert_insert_after(revision: &str, destination: &str, global_args: GlobalArgs) -> (r: Self)
        ensures
            r@ == revert_insert_after_view(revision@, destination@, global_args.view()),
    {
        let args = ["revert", "-r", revision, "--insert-after", destination];
        let r = Self::_new(&args, global_args, false, ReturnOutput::Stderr);
        assert(strs_view(args@) =~= seq!["revert"@, "-r"@, revision@, "--insert-after"@, destination@]);
        r
    }

    /// Captured: `jj revert -r <revision> --insert-before <destination>`.
    pub fn revert_insert_before(revision: &str, destination: &str, global_args: GlobalArgs) -> (r: Self)
        ensures
            r@ == revert_insert_before_view(revision@, destination@, global_args.view()),
    {
        let args = ["revert", "-r", revision, "--insert-before", destination];
        let r = Self::_new(&args, global_args, false, ReturnOutput::Stderr);
        assert(strs_view(args@) =~= seq!["revert"@, "-r"@, revision@, "--insert-before"@, destination@]);
        r
    }

    /// Captured: `jj sign -r <revset>`.
    pub fn sign(revset: &str, global_args: GlobalArgs) -> (r: Self)
        ensures
            r@ == sign_view(revset@, global_args.view()),
    {
        let args = ["sign", "-r", revset];
        let r = Self::_new(&args, global_args, false, ReturnOutput::Stderr);
        assert(strs_view(args@) =~= seq!["sign"@, "-r"@, revset@]);
        r
    }

    /// Interactive, without resync: `jj show <change_id>`.
    pub fn show(change_id: &str, global_args: GlobalArgs) -> (r: Self)
        ensures
            r@ == show_view(change_id@, global_args.view()),
    {
        let args = ["show", change_id];
        let r = Self::_new_skip_sync(&args, global_args, true, ReturnOutput::Stderr);
        assert(strs_view(args@) =~= seq!["show"@, change_id@]);
        r
    }

    /// Interactive, without resync: `jj status`.
    pub fn status(global_args: GlobalArgs) -> (r: Self)
        ensures
            r@ == status_view(global_args.view()),
    {
        let args = ["status"];
        let r = Self::_new_skip_sync(&args, global_args, true, ReturnOutput::Stderr);
        assert(strs_view(args@) =~= seq!["status"@]);
        r
    }

    /// Captured: `jj unsign -r <revset>`.
    pub fn unsign(revset: &str, global_args: GlobalArgs) -> (r: Self)
        ensures
            r@ == unsign_view(revset@, global_args.view()),
    {
        let args = ["unsign", "-r", revset];
        let r = Self::_new(&args, global_args, false, ReturnOutput::Stderr);
        assert(strs_view(args@) =~= seq!["unsign"@, "-r"@, revset@]);
        r
    }

    /// Captured: `jj simplify-parents -r <revision>`.
    pub fn simplify_parents(revision: &str, global_args: GlobalArgs) -> (r: Self)
        ensures
            r@ == simplify_parents_view(revision@, global_args.view()),
    {
        let args = ["simplify-parents", "-r", revision];
        let r = Self::_new(&args, global_args, false, ReturnOutput::Stderr);
        assert(strs_view(args@) =~= seq!["simplify-parents"@, "-r"@, revision@]);
        r
    }

    /// Captured: `jj simplify-parents -s <revision>`.
    pub fn simplify_parents_source(revision: &str, global_args: GlobalArgs) -> (r: Self)
        ensures
            r@ == simplify_parents_source_view(revision@, global_args.view()),
    {
        let args = ["simplify-parents", "-s", revision];
        let r = Self::_new(&args, global_args, false, ReturnOutput::Stderr);
        assert(strs_view(args@) =~= seq!["simplify-parents"@, "-s"@, revision@]);
        r
    }

    /// Captured: `jj undo`.
    pub fn undo(global_args: GlobalArgs) -> (r: Self)
        ensures
            r@ == undo_view(global_args.view()),
    {
        let args = ["undo"];
        let r = Self::_new(&args, global_args, false, ReturnOutput::Stderr);
        assert(strs_view(args@) =~= seq!["undo"@]);
        r
    }

    /// Captured: `jj redo`.
    pub fn redo(global_args: GlobalArgs) -> (r: Self)
        ensures
            r@ == redo_view(global_args.view()),
    {
        let args = ["redo"];
        let r = Self::_new(&args, global_args, false, ReturnOutput::Stderr);
        assert(strs_view(args@) =~= seq!["redo"@]);
        r
    }

    /// Interactive: `jj commit [<file_path>]`.
    pub fn commit(maybe_file_path: Option<&str>, global_args: GlobalArgs) -> (r: Self)
        ensures
            r@ == commit_view(opt_str_view(maybe_file_path), global_args.view()),
    {
        let args = ["commit"];
        let r = Self::with_path(&args, maybe_file_path, global_args, true, ReturnOutput::Stderr, true);
        assert(strs_view(args@) =~= seq!["commit"@]);
        r
    }

    /// Captured: `jj rebase --source <change_id> --onto trunk()`.
    pub fn rebase_onto_trunk(change_id: &str, global_args: GlobalArgs) -> (r: Self)
        ensures
            r@ == rebase_onto_trunk_view(change_id@, global_args.view()),
    {
        let args = ["rebase", "--source", change_id, "--onto", "trunk()"];
        let r = Self::_new(&args, global_args, false, ReturnOutput::Stderr);
        assert(strs_view(args@) =~= seq!["rebase"@, "--source"@, change_id@, "--onto"@, "trunk()"@]);
        r
    }

    /// Captured: `jj rebase --branch <change_id> --onto trunk()`.
    pub fn rebase_branch_onto_trunk(change_id: &str, global_args: GlobalArgs) -> (r: Self)
        ensures
            r@ == rebase_branch_onto_trunk_view(change_id@, global_args.view()),
    {
        let args = ["rebase", "--branch", change_id, "--onto", "trunk()"];
        let r = Self::_new(&args, global_args, false, ReturnOutput::Stderr);
        assert(strs_view(args@) =~= seq!["rebase"@, "--branch"@, change_id@, "--onto"@, "trunk()"@]);
        r
    }

    /// Captured: `jj rebase --source <source_change_id> --onto <dest_change_id>`.
    pub fn rebase_onto_destination(source_change_id: &str, dest_change_id: &str, global_args: GlobalArgs) -> (r: Self)
        ensures
            r@ == rebase_onto_destination_view(source_change_id@, dest_change_id@, global_args.view()),
    {
        let args = ["rebase", "--source", source_change_id, "--onto", dest_change_id];
        let r = Self::_new(&args, global_args, false, ReturnOutput::Stderr);
        assert(strs_view(args@) =~= seq!["rebase"@, "--source"@, source_change_id@, "--onto"@, dest_change_id@]);
        r
    }

    /// Captured: `jj rebase --branch <source_change_id> --onto <dest_change_id>`.
    pub fn rebase_branch_onto_destination(source_change_id: &str, dest_change_id: &str, global_args: GlobalArgs) -> (r: Self)
        ensures
            r@ == rebase_branch_onto_destination_view(source_change_id@, dest_change_id@, global_args.view()),
    {
        let args = ["rebase", "--branch", source_change_id, "--onto", dest_change_id];
        let r = Self::_new(&args, global_args, false, ReturnOutput::Stderr);
        assert(strs_view(args@) =~= seq!["rebase"@, "--branch"@, source_change_id@, "--onto"@, dest_change_id@]);
        r
    }

    /// Captured: `jj rebase --revisions <source_change_id> --onto <dest_change_id>`.
    pub fn rebase_onto_destination_no_descendants(source_change_id: &str, dest_change_id: &str, global_args: GlobalArgs) -> (r: Self)
        ensures
            r@ == rebase_onto_destination_no_descendants_view(source_change_id@, dest_change_id@, global_args.view()),
    {
        let args = ["rebase", "--revisions", source_change_id, "--onto", dest_change_id];
        let r = Self::_new(&args, global_args, false, ReturnOutput::Stderr);
        assert(strs_view(args@) =~= seq!["rebase"@, "--revisions"@, source_change_id@, "--onto"@, dest_change_id@]);
        r
    }

    /// Captured: `jj rebase --source <source_change_id> --insert-after <dest_change_id>`.
    pub fn rebase_after_destination(source_change_id: &str, dest_change_id: &str, global_args: GlobalArgs) -> (r: Self)
        ensures
            r@ == rebase_after_destination_view(source_change_id@, dest_change_id@, global_args.view()),
    {
        let args = ["rebase", "--source", source_change_id, "--insert-after", dest_change_id];
        let r = Self::_new(&args, global_args, false, ReturnOutput::Stderr);
        assert(strs_view(args@) =~= seq!["rebase"@, "--source"@, source_change_id@, "--insert-after"@, dest_change_id@]);
        r
    }

    /// Captured: `jj rebase --revisions <source_change_id> --insert-after <dest_change_id>`.
    pub fn rebase_after_destination_no_descendants(source_change_id: &str, dest_change_id: &str, global_args: GlobalArgs) -> (r: Self)
        ensures
            r@ == rebase_after_destination_no_descendants_view(source_change_id@, dest_change_id@, global_args.view()),
    {
        let args = ["rebase", "--revisions", source_change_id, "--insert-after", dest_change_id];
        let r = Self::_new(&args, global_args, false, ReturnOutput::Stderr);
        assert(strs_view(args@) =~= seq!["rebase"@, "--revisions"@, source_change_id@, "--insert-after"@, dest_change_id@]);
        r
    }

    /// Captured: `jj rebase --source <source_change_id> --insert-before <dest_change_id>`.
    pub fn rebase_before_destination(source_change_id: &str, dest_change_id: &str, global_args: GlobalArgs) -> (r: Self)
        ensures
            r@ == rebase_before_destination_view(source_change_id@, dest_change_id@, global_args.view()),
    {
        let args = ["rebase", "--source", source_change_id, "--insert-before", dest_change_id];
        let r = Self::_new(&args, global_args, false, ReturnOutput::Stderr);
        assert(strs_view(args@) =~= seq!["rebase"@, "--source"@, source_change_id@, "--insert-before"@, dest_change_id@]);
        r
    }

    /// Captured: `jj rebase --revisions <source_change_id> --insert-before <dest_change_id>`.
    pub fn rebase_before_destination_no_descendants(source_change_id: &str, dest_change_id: &str, global_args: GlobalArgs) -> (r: Self)
        ensures
            r@ == rebase_before_destination_no_descendants_view(source_change_id@, dest_change_id@, global_args.view()),
    {
        let args = ["rebase", "--revisions", source_change_id, "--insert-before", dest_change_id];
        let r = Self::_new(&args, global_args, false, ReturnOutput::Stderr);
        assert(strs_view(args@) =~= seq!["rebase"@, "--revisions"@, source_change_id@, "--insert-before"@, dest_change_id@]);
        r
    }

    /// Captured: `jj restore --changes-in <change_id> [<file_path>]`.
    pub fn restore(change_id: &str, maybe_file_path: Option<&str>, global_args: GlobalArgs) -> (r: Self)
        ensures
            r@ == restore_view(change_id@, opt_str_view(maybe_file_path), global_args.view()),
    {
        let args = ["restore", "--changes-in", change_id];
        let r = Self::with_path(&args, maybe_file_path, global_args, false, ReturnOutput::Stderr, true);
        assert(strs_view(args@) =~= seq!["restore"@, "--changes-in"@, change_id@]);
        r
    }

    /// Captured: `jj restore --from <from_change_id> [<file_path>]`.
    pub fn restore_from(from_change_id: &str, maybe_file_path: Option<&str>, global_args: GlobalArgs) -> (r: Self)
        ensures
            r@ == restore_from_view(from_change_id@, opt_str_view(maybe_file_path), global_args.view()),
    {
        let args = ["restore", "--from", from_change_id];
        let r = Self::with_path(&args, maybe_file_path, global_args, false, ReturnOutput::Stderr, true);
        assert(strs_view(args@) =~= seq!["restore"@, "--from"@, from_change_id@]);
        r
    }

    /// Captured: `jj restore --into <into_change_id> [<file_path>]`.
    pub fn restore_into(into_change_id: &str, maybe_file_path: Option<&str>, global_args: GlobalArgs) -> (r: Self)
        ensures
            r@ == restore_into_view(into_change_id@, opt_str_view(maybe_file_path), global_args.view()),
    {
        let args = ["restore", "--into", into_change_id];
        let r = Self::with_path(&args, maybe_file_path, global_args, false, ReturnOutput::Stderr, true);
        assert(strs_view(args@) =~= seq!["restore"@, "--into"@, into_change_id@]);
        r
    }

    /// Captured: `jj restore --changes-in <change_id> --restore-descendants [<file_path>]`.
    pub fn restore_restore_descendants(change_id: &str, maybe_file_path: Option<&str>, global_args: GlobalArgs) -> (r: Self)
        ensures
            r@ == restore_restore_descendants_view(change_id@, opt_str_view(maybe_file_path), global_args.view()),
    {
        let args = ["restore", "--changes-in", change_id, "--restore-descendants"];
        let r = Self::with_path(&args, maybe_file_path, global_args, false, ReturnOutput::Stderr, true);
        assert(strs_view(args@) =~= seq!["restore"@, "--changes-in"@, change_id@, "--restore-descendants"@]);
        r
    }

    /// Captured: `jj restore --from <from_change_id> --into <into_change_id> [<file_path>]`.
    pub fn restore_from_into(from_change_id: &str, into_change_id: &str, maybe_file_path: Option<&str>, global_args: GlobalArgs) -> (r: Self)
        ensures
            r@ == restore_from_into_view(from_change_id@, into_change_id@, opt_str_view(maybe_file_path), global_args.view()),
    {
        let args = ["restore", "--from", from_change_id, "--into", into_change_id];
        let r = Self::with_path(&args, maybe_file_path, global_args, false, ReturnOutput::Stderr, true);
        assert(strs_view(args@) =~= seq!["restore"@, "--from"@, from_change_id@, "--into"@, into_change_id@]);
        r
    }

    /// Captured: `jj squash --revision <change_id> [<file_path>]`.
    pub fn squash_noninteractive(change_id: &str, maybe_file_path: Option<&str>, global_args: GlobalArgs) -> (r: Self)
        ensures
            r@ == squash_noninteractive_view(change_id@, opt_str_view(maybe_file_path), global_args.view()),
    {
        let args = ["squash", "--revision", change_id];
        let r = Self::with_path(&args, maybe_file_path, global_args, false, ReturnOutput::Stderr, true);
        assert(strs_view(args@) =~= seq!["squash"@, "--revision"@, change_id@]);
        r
    }

    /// Interactive: `jj squash --revision <change_id> [<file_path>]`.
    pub fn squash_interactive(change_id: &str, maybe_file_path: Option<&str>, global_args: GlobalArgs) -> (r: Self)
        ensures
            r@ == squash_interactive_view(change_id@, opt_str_view(maybe_file_path), global_args.view()),
    {
        let args = ["squash", "--revision", change_id];
        let r = Self::with_path(&args, maybe_file_path, global_args, true, ReturnOutput::Stderr, true);
        assert(strs_view(args@) =~= seq!["squash"@, "--revision"@, change_id@]);
        r
    }

    /// Interactive: `jj squash --from <from_change_id> --into <into_change_id> [<file_path>]`.
    pub fn squash_into_interactive(from_change_id: &str, into_change_id: &str, maybe_file_path: Option<&str>, global_args: GlobalArgs) -> (r: Self)
        ensures
            r@ == squash_into_interactive_view(from_change_id@, into_change_id@, opt_str_view(maybe_file_path), global_args.view()),
    {
        let args = ["squash", "--from", from_change_id, "--into", into_change_id];
        let r = Self::with_path(&args, maybe_file_path, global_args, true, ReturnOutput::Stderr, true);
        assert(strs_view(args@) =~= seq!["squash"@, "--from"@, from_change_id@, "--into"@, into_change_id@]);
        r
    }

    /// Captured: `jj edit <change_id>`.
    pub fn edit(change_id: &str, global_args: GlobalArgs) -> (r: Self)
        ensures
            r@ == edit_view(change_id@, global_args.view()),
    {
        let args = ["edit", change_id];
        let r = Self::_new(&args, global_args, false, ReturnOutput::Stderr);
        assert(strs_view(args@) =~= seq!["edit"@, change_id@]);
        r
    }

    /// Interactive, without resync: `jj evolog -r <change_id>`.
    pub fn evolog(change_id: &str, global_args: GlobalArgs) -> (r: Self)
        ensures
            r@ == evolog_view(change_id@, global_args.view()),
    {
        let args = ["evolog", "-r", change_id];
        let r = Self::_new_skip_sync(&args, global_args, true, ReturnOutput::Stderr);
        assert(strs_view(args@) =~= seq!["evolog"@, "-r"@, change_id@]);
        r
    }

    /// Interactive, without resync: `jj evolog -r <change_id> --patch`.
    pub fn evolog_patch(change_id: &str, global_args: GlobalArgs) -> (r: Self)
        ensures
            r@ == evolog_patch_view(change_id@, global_args.view()),
    {
        let args = ["evolog", "-r", change_id, "--patch"];
        let r = Self::_new_skip_sync(&args, global_args, true, ReturnOutput::Stderr);
        assert(strs_view(args@) =~= seq!["evolog"@, "-r"@, change_id@, "--patch"@]);
        r
    }

    /// Interactive, without resync: `jj interdiff --from <from> --to <to> [<file_path>]`.
    pub fn interdiff(from: &str, to: &str, maybe_file_path: Option<&str>, global_args: GlobalArgs) -> (r: Self)
        ensures
            r@ == interdiff_view(from@, to@, opt_str_view(maybe_file_path), global_args.view()),
    {
        let args = ["interdiff", "--from", from, "--to", to];
        let r = Self::with_path(&args, maybe_file_path, global_args, true, ReturnOutput::Stderr, false);
        assert(strs_view(args@) =~= seq!["interdiff"@, "--from"@, from@, "--to"@, to@]);
        r
    }

    /// Captured: `jj file track <file_path>`.
    pub fn file_track(file_path: &str, global_args: GlobalArgs) -> (r: Self)
        ensures
            r@ == file_track_view(file_path@, global_args.view()),
    {
        let args = ["file", "track", file_path];
        let r = Self::_new(&args, global_args, false, ReturnOutput::Stderr);
        assert(strs_view(args@) =~= seq!["file"@, "track"@, file_path@]);
        r
    }

    /// Captured: `jj file untrack <file_path>`.
    pub fn file_untrack(file_path: &str, global_args: GlobalArgs) -> (r: Self)
        ensures
            r@ == file_untrack_view(file_path@, global_args.view()),
    {
        let args = ["file", "untrack", file_path];
        let r = Self::_new(&args, global_args, false, ReturnOutput::Stderr);
        assert(strs_view(args@) =~= seq!["file"@, "untrack"@, file_path@]);
        r
    }

    /// Captured: `jj metaedit --update-change-id <change_id>`.
    pub fn metaedit_update_change_id(change_id: &str, global_args: GlobalArgs) -> (r: Self)
        ensures
            r@ == metaedit_update_change_id_view(change_id@, global_args.view()),
    {
        let args = ["metaedit", "--update-change-id", change_id];
        let r = Self::_new(&args, global_args, false, ReturnOutput::Stderr);
        assert(strs_view(args@) =~= seq!["metaedit"@, "--update-change-id"@, change_id@]);
        r
    }

    /// Captured: `jj metaedit --update-author-timestamp <change_id>`.
    pub fn metaedit_update_author_timestamp(change_id: &str, global_args: GlobalArgs) -> (r: Self)
        ensures
            r@ == metaedit_update_author_timestamp_view(change_id@, global_args.view()),
    {
        let args = ["metaedit", "--update-author-timestamp", change_id];
        let r = Self::_new(&args, global_args, false, ReturnOutput::Stderr);
        assert(strs_view(args@) =~= seq!["metaedit"@, "--update-author-timestamp"@, change_id@]);
        r
    }

    /// Captured: `jj metaedit --update-author <change_id>`.
    pub fn metaedit_update_author(change_id: &str, global_args: GlobalArgs) -> (r: Self)
        ensures
            r@ == metaedit_update_author_view(change_id@, global_args.view()),
    {
        let args = ["metaedit", "--update-author", change_id];
        let r = Self::_new(&args, global_args, false, ReturnOutput::Stderr);
        assert(strs_view(args@) =~= seq!["metaedit"@, "--update-author"@, change_id@]);
        r
    }

    /// Captured: `jj metaedit --author <author> <change_id>`.
    pub fn metaedit_set_author(change_id: &str, author: &str, global_args: GlobalArgs) -> (r: Self)
        ensures
            r@ == metaedit_set_author_view(change_id@, author@, global_args.view()),
    {
        let args = ["metaedit", "--author", author, change_id];
        let r = Self::_new(&args, global_args, false, ReturnOutput::Stderr);
        assert(strs_view(args@) =~= seq!["metaedit"@, "--author"@, author@, change_id@]);
        r
    }

    /// Captured: `jj metaedit --author-timestamp <timestamp> <change_id>`.
    pub fn metaedit_set_author_timestamp(change_id: &str, timestamp: &str, global_args: GlobalArgs) -> (r: Self)
        ensures
            r@ == metaedit_set_author_timestamp_view(change_id@, timestamp@, global_args.view()),
    {
        let args = ["metaedit", "--author-timestamp", timestamp, change_id];
        let r = Self::_new(&args, global_args, false, ReturnOutput::Stderr);
        assert(strs_view(args@) =~= seq!["metaedit"@, "--author-timestamp"@, timestamp@, change_id@]);
        r
    }

    /// Captured: `jj metaedit --force-rewrite <change_id>`.
    pub fn metaedit_force_rewrite(change_id: &str, global_args: GlobalArgs) -> (r: Self)
        ensures
            r@ == metaedit_force_rewrite_view(change_id@, global_args.view()),
    {
        let args = ["metaedit", "--force-rewrite", change_id];
        let r = Self::_new(&args, global_args, false, ReturnOutput::Stderr);
        assert(strs_view(args@) =~= seq!["metaedit"@, "--force-rewrite"@, change_id@]);
        r
    }

    /// Captured: `jj git fetch`.
    pub fn fetch(global_args: GlobalArgs) -> (r: Self)
        ensures
            r@ == fetch_view(global_args.view()),
    {
        let args = ["git", "fetch"];
        let r = Self::_new(&args, global_args, false, ReturnOutput::Stderr);
        assert(strs_view(args@) =~= seq!["git"@, "fetch"@]);
        r
    }

    /// Captured: `jj git fetch --all-remotes`.
    pub fn fetch_all_remotes(global_args: GlobalArgs) -> (r: Self)
        ensures
            r@ == fetch_all_remotes_view(global_args.view()),
    {
        let args = ["git", "fetch", "--all-remotes"];
        let r = Self::_new(&args, global_args, false, ReturnOutput::Stderr);
        assert(strs_view(args@) =~= seq!["git"@, "fetch"@, "--all-remotes"@]);
        r
    }

    /// Captured: `jj git fetch --tracked`.
    pub fn fetch_tracked(global_args: GlobalArgs) -> (r: Self)
        ensures
            r@ == fetch_tracked_view(global_args.view()),
    {
        let args = ["git", "fetch", "--tracked"];
        let r = Self::_new(&args, global_args, false, ReturnOutput::Stderr);
        assert(strs_view(args@) =~= seq!["git"@, "fetch"@, "--tracked"@]);
        r
    }

    /// Captured: `jj git fetch -b <branch>`.
    pub fn fetch_branch(branch: &str, global_args: GlobalArgs) -> (r: Self)
        ensures
            r@ == fetch_branch_view(branch@, global_args.view()),
    {
        let args = ["git", "fetch", "-b", branch];
        let r = Self::_new(&args, global_args, false, ReturnOutput::Stderr);
        assert(strs_view(args@) =~= seq!["git"@, "fetch"@, "-b"@, branch@]);
        r
    }

    /// Captured: `jj git fetch --remote <remote>`.
    pub fn fetch_remote(remote: &str, global_args: GlobalArgs) -> (r: Self)
        ensures
            r@ == fetch_remote_view(remote@, global_args.view()),
    {
        let args = ["git", "fetch", "--remote", remote];
        let r = Self::_new(&args, global_args, false, ReturnOutput::Stderr);
        assert(strs_view(args@) =~= seq!["git"@, "fetch"@, "--remote"@, remote@]);
        r
    }

    /// Captured: `jj git push`.
    pub fn push(global_args: GlobalArgs) -> (r: Self)
        ensures
            r@ == push_view(global_args.view()),
    {
        let args = ["git", "push"];
        let r = Self::_new(&args, global_args, false, ReturnOutput::Stderr);
        assert(strs_view(args@) =~= seq!["git"@, "push"@]);
        r
    }

    /// Captured: `jj git push --all`.
    pub fn push_all(global_args: GlobalArgs) -> (r: Self)
        ensures
            r@ == push_all_view(global_args.view()),
    {
        let args = ["git", "push", "--all"];
        let r = Self::_new(&args, global_args, false, ReturnOutput::Stderr);
        assert(strs_view(args@) =~= seq!["git"@, "push"@, "--all"@]);
        r
    }

    /// Captured: `jj git push -r <change_id>`.
    pub fn push_revision(change_id: &str, global_args: GlobalArgs) -> (r: Self)
        ensures
            r@ == push_revision_view(change_id@, global_args.view()),
    {
        let args = ["git", "push", "-r", change_id];
        let r = Self::_new(&args, global_args, false, ReturnOutput::Stderr);
        assert(strs_view(args@) =~= seq!["git"@, "push"@, "-r"@, change_id@]);
        r
    }

    /// Captured: `jj git push --tracked`.
    pub fn push_tracked(global_args: GlobalArgs) -> (r: Self)
        ensures
            r@ == push_tracked_view(global_args.view()),
    {
        let args = ["git", "push", "--tracked"];
        let r = Self::_new(&args, global_args, false, ReturnOutput::Stderr);
        assert(strs_view(args@) =~= seq!["git"@, "push"@, "--tracked"@]);
        r
    }

    /// Captured: `jj git push --deleted`.
    pub fn push_deleted(global_args: GlobalArgs) -> (r: Self)
        ensures
            r@ == push_deleted_view(global_args.view()),
    {
        let args = ["git", "push", "--deleted"];
        let r = Self::_new(&args, global_args, false, ReturnOutput::Stderr);
        assert(strs_view(args@) =~= seq!["git"@, "push"@, "--deleted"@]);
        r
    }

    /// Captured: `jj git push -c <change_id>`.
    pub fn push_change(change_id: &str, global_args: GlobalArgs) -> (r: Self)
        ensures
            r@ == push_change_view(change_id@, global_args.view()),
    {
        let args = ["git", "push", "-c", change_id];
        let r = Self::_new(&args, global_args, false, ReturnOutput::Stderr);
        assert(strs_view(args@) =~= seq!["git"@, "push"@, "-c"@, change_id@]);
        r
    }

    /// Captured: `jj git push -b <bookmark_name>`.
    pub fn push_bookmark(bookmark_name: &str, global_args: GlobalArgs) -> (r: Self)
        ensures
            r@ == push_bookmark_view(bookmark_name@, global_args.view()),
    {
        let args = ["git", "push", "-b", bookmark_name];
        let r = Self::_new(&args, global_args, false, ReturnOutput::Stderr);
        assert(strs_view(args@) =~= seq!["git"@, "push"@, "-b"@, bookmark_name@]);
        r
    }

    /// Captured: `jj bookmark create --revision <change_id> <bookmark_names>`.
    pub fn bookmark_create(bookmark_names: &str, change_id: &str, global_args: GlobalArgs) -> (r: Self)
        ensures
            r@ == bookmark_create_view(bookmark_names@, change_id@, global_args.view()),
    {
        let args = ["bookmark", "create", "--revision", change_id, bookmark_names];
        let r = Self::_new(&args, global_args, false, ReturnOutput::Stderr);
        assert(strs_view(args@) =~= seq!["bookmark"@, "create"@, "--revision"@, change_id@, bookmark_names@]);
        r
    }

    /// Captured: `jj bookmark delete <bookmark_names>`.
    pub fn bookmark_delete(bookmark_names: &str, global_args: GlobalArgs) -> (r: Self)
        ensures
            r@ == bookmark_delete_view(bookmark_names@, global_args.view()),
    {
        let args = ["bookmark", "delete", bookmark_names];
        let r = Self::_new(&args, global_args, false, ReturnOutput::Stderr);
        assert(strs_view(args@) =~= seq!["bookmark"@, "delete"@, bookmark_names@]);
        r
    }

    /// Captured: `jj bookmark forget <bookmark_names>`.
    pub fn bookmark_forget(bookmark_names: &str, global_args: GlobalArgs) -> (r: Self)
        ensures
            r@ == bookmark_forget_view(bookmark_names@, global_args.view()),
    {
        let args = ["bookmark", "forget", bookmark_names];
        let r = Self::_new(&args, global_args, false, ReturnOutput::Stderr);
        assert(strs_view(args@) =~= seq!["bookmark"@, "forget"@, bookmark_names@]);
        r
    }

    /// Captured: `jj bookmark forget --include-remotes <bookmark_names>`.
    pub fn bookmark_forget_include_remotes(bookmark_names: &str, global_args: GlobalArgs) -> (r: Self)
        ensures
            r@ == bookmark_forget_include_remotes_view(bookmark_names@, global_args.view()),
    {
        let args = ["bookmark", "forget", "--include-remotes", bookmark_names];
        let r = Self::_new(&args, global_args, false, ReturnOutput::Stderr);
        assert(strs_view(args@) =~= seq!["bookmark"@, "forget"@, "--include-remotes"@, bookmark_names@]);
        r
    }

    /// Captured: `jj bookmark move --from <from_change_id> --to <to_change_id>`.
    pub fn bookmark_move(from_change_id: &str, to_change_id: &str, global_args: GlobalArgs) -> (r: Self)
        ensures
            r@ == bookmark_move_view(from_change_id@, to_change_id@, global_args.view()),
    {
        let args = ["bookmark", "move", "--from", from_change_id, "--to", to_change_id];
        let r = Self::_new(&args, global_args, false, ReturnOutput::Stderr);
        assert(strs_view(args@) =~= seq!["bookmark"@, "move"@, "--from"@, from_change_id@, "--to"@, to_change_id@]);
        r
    }

    /// Captured: `jj bookmark move --from <from_change_id> --to <to_change_id> --allow-backwards`.
    pub fn bookmark_move_allow_backwards(from_change_id: &str, to_change_id: &str, global_args: GlobalArgs) -> (r: Self)
        ensures
            r@ == bookmark_move_allow_backwards_view(from_change_id@, to_change_id@, global_args.view()),
    {
        let args = ["bookmark", "move", "--from", from_change_id, "--to", to_change_id, "--allow-backwards"];
        let r = Self::_new(&args, global_args, false, ReturnOutput::Stderr);
        assert(strs_view(args@) =~= seq!["bookmark"@, "move"@, "--from"@, from_change_id@, "--to"@, to_change_id@, "--allow-backwards"@]);
        r
    }

    /// Captured: `jj bookmark move --from heads(::@- & bookmarks()) --to <change_id>`.
    pub fn bookmark_move_tug(change_id: &str, global_args: GlobalArgs) -> (r: Self)
        ensures
            r@ == bookmark_move_tug_view(change_id@, global_args.view()),
    {
        let args = ["bookmark", "move", "--from", "heads(::@- & bookmarks())", "--to", change_id];
        let r = Self::_new(&args, global_args, false, ReturnOutput::Stderr);
        assert(strs_view(args@) =~= seq!["bookmark"@, "move"@, "--from"@, "heads(::@- & bookmarks())"@, "--to"@, change_id@]);
        r
    }

    /// Captured: `jj bookmark rename <old_bookmark_name> <new_bookmark_name>`.
    pub fn bookmark_rename(old_bookmark_name: &str, new_bookmark_name: &str, global_args: GlobalArgs) -> (r: Self)
        ensures
            r@ == bookmark_rename_view(old_bookmark_name@, new_bookmark_name@, global_args.view()),
    {
        let args = ["bookmark", "rename", old_bookmark_name, new_bookmark_name];
        let r = Self::_new(&args, global_args, false, ReturnOutput::Stderr);
        assert(strs_view(args@) =~= seq!["bookmark"@, "rename"@, old_bookmark_name@, new_bookmark_name@]);
        r
    }

    /// Captured: `jj bookmark set <bookmark_names> --revision <change_id>`.
    pub fn bookmark_set(bookmark_names: &str, change_id: &str, global_args: GlobalArgs) -> (r: Self)
        ensures
            r@ == bookmark_set_view(bookmark_names@, change_id@, global_args.view()),
    {
        let args = ["bookmark", "set", bookmark_names, "--revision", change_id];
        let r = Self::_new(&args, global_args, false, ReturnOutput::Stderr);
        assert(strs_view(args@) =~= seq!["bookmark"@, "set"@, bookmark_names@, "--revision"@, change_id@]);
        r
    }

    /// Captured: `jj bookmark track <bookmark_at_remote>`.
    pub fn bookmark_track(bookmark_at_remote: &str, global_args: GlobalArgs) -> (r: Self)
        ensures
            r@ == bookmark_track_view(bookmark_at_remote@, global_args.view()),
    {
        let args = ["bookmark", "track", bookmark_at_remote];
        let r = Self::_new(&args, global_args, false, ReturnOutput::Stderr);
        assert(strs_view(args@) =~= seq!["bookmark"@, "track"@, bookmark_at_remote@]);
        r
    }

    /// Captured: `jj bookmark untrack <bookmark_at_remote>`.
    pub fn bookmark_untrack(bookmark_at_remote: &str, global_args: GlobalArgs) -> (r: Self)
        ensures
            r@ == bookmark_untrack_view(bookmark_at_remote@, global_args.view()),
    {
        let args = ["bookmark", "untrack", bookmark_at_remote];
        let r = Self::_new(&args, global_args, false, ReturnOutput::Stderr);
        assert(strs_view(args@) =~= seq!["bookmark"@, "untrack"@, bookmark_at_remote@]);
        r
    }
}

pub open spec fn opt_str_view(o: Option<&str>) -> Option<Seq<char>> {
    match o {
        Some(s) => Some(s@),
        None => None,
    }
}

/// The optional trailing file-path argument.
pub open spec fn opt_arg(maybe_file_path: Option<Seq<char>>) -> Seq<Seq<char>> {
    match maybe_file_path {
        Some(p) => seq![p],
        None => seq![],
    }
}

pub open spec fn path_arg(maybe_file_path: Option<&str>) -> Seq<Seq<char>> {
    opt_arg(opt_str_view(maybe_file_path))
}

/// Display flags that precede every invocation.
pub const PAGER_CONFIG: &'static str = "ui.pager=:builtin";

pub const STREAMPAGER_CONFIG: &'static str = "ui.streampager.interface=full-screen-clear-output";

/// Node symbols of the log graph, labelled so the log can be parsed.
pub const LOG_NODE_TEMPLATE: &'static str = r#"templates.log_node=
            coalesce(
              if(!self, label("elided", "~")),
              label(
                separate(" ",
                  if(current_working_copy, "working_copy"),
                  if(immutable, "immutable"),
                  if(conflict, "conflict"),
                ),
                coalesce(
                  if(current_working_copy, "@"),
                  if(root, "┴"),
                  if(immutable, "●"),
                  if(conflict, "⊗"),
                  "○",
                )
              )
            )
        "#;

pub open spec fn base_flags() -> Seq<Seq<char>> {
    seq![
        "--color"@,
        "always"@,
        "--config"@,
        PAGER_CONFIG@,
        "--config"@,
        STREAMPAGER_CONFIG@,
        "--config"@,
        LOG_NODE_TEMPLATE@,
        "--repository"@,
    ]
}

/// `<flags> --repository PATH [--ignore-immutable] <args>`.
pub open spec fn full_command_line(c: JjCommandView) -> Seq<Seq<char>> {
    base_flags() + seq![c.global_args.0] + (if c.global_args.1 {
        seq!["--ignore-immutable"@]
    } else {
        seq![]
    }) + c.args
}

/// A captured invocation that shows the error stream and resyncs on success.
pub open spec fn captured(args: Seq<Seq<char>>, global_args: (Seq<char>, bool)) -> JjCommandView {
    JjCommandView {
        args,
        global_args,
        interactive: false,
        return_output: ReturnOutput::Stderr,
        sync: true,
    }
}

} // verus!

verus! {

/// Captured, showing standard output, resync on success.
pub open spec fn captured_stdout(args: Seq<Seq<char>>, global_args: (Seq<char>, bool)) -> JjCommandView {
    JjCommandView { args, global_args, interactive: false, return_output: ReturnOutput::Stdout, sync: true }
}

/// Takes over the terminal, resync on success.
pub open spec fn interactive(args: Seq<Seq<char>>, global_args: (Seq<char>, bool)) -> JjCommandView {
    JjCommandView { args, global_args, interactive: true, return_output: ReturnOutput::Stderr, sync: true }
}

/// Takes over the terminal to show something; nothing changes, so no resync.
pub open spec fn viewer(args: Seq<Seq<char>>, global_args: (Seq<char>, bool)) -> JjCommandView {
    JjCommandView { args, global_args, interactive: true, return_output: ReturnOutput::Stderr, sync: false }
}

/// What the tool printed to each stream.
#[derive(Debug)]
pub struct JjCommandOutput {
    pub stdout: String,
    pub stderr: String,
}

/// A failed invocation: the tool's own non-zero exit, or a failure to run it.
#[derive(Debug)]
pub enum JjCommandError {
    Failed { stderr: String },
    Other { err: String },
}

/// A character with the Unicode White_Space property.
pub open spec fn is_white_space(c: char) -> bool {
    let u = c as u32;
    (0x9 <= u && u <= 0xd) || u == 0x20 || u == 0x85 || u == 0xa0 || u == 0x1680 || (0x2000 <= u
        && u <= 0x200a) || u == 0x2028 || u == 0x2029 || u == 0x202f || u == 0x205f || u == 0x3000
}

pub open spec fn trim_start_of(s: Seq<char>) -> Seq<char>
    decreases s.len(),
{
    if s.len() > 0 && is_white_space(s[0]) {
        trim_start_of(s.drop_first())
    } else {
        s
    }
}

pub open spec fn trim_end_of(s: Seq<char>) -> Seq<char>
    decreases s.len(),
{
    if s.len() > 0 && is_white_space(s.last()) {
        trim_end_of(s.drop_last())
    } else {
        s
    }
}

/// The text without leading and trailing white space.
pub open spec fn trim_of(s: Seq<char>) -> Seq<char> {
    trim_end_of(trim_start_of(s))
}

/// Relies on `str::trim`, which removes leading and trailing characters with
/// the Unicode White_Space property.
#[verifier::external_body]
pub(crate) fn trim(s: &str) -> (r: String)
    ensures
        r@ == trim_of(s@),
{
    s.trim().to_string()
}

impl JjCommandError {
    /// A non-zero exit; the error stream is kept without surrounding whitespace.
    pub fn new_failed(stderr: String) -> (r: Self)
        ensures
            r matches JjCommandError::Failed { stderr: s } && s@ == trim_of(stderr@),
    {
        JjCommandError::Failed { stderr: trim(stderr.as_str()) }
    }

    /// A failure to spawn or talk to the process.
    pub fn new_other(err: String) -> (r: Self)
        ensures
            r matches JjCommandError::Other { err: e } && e@ == err@,
    {
        JjCommandError::Other { err }
    }
}

} // verus!

verus! {

/// Captured: `jj git push --named <name>=<change_id>`.
pub open spec fn push_named_view(name: Seq<char>, change_id: Seq<char>, global_args: (Seq<char>, bool)) -> JjCommandView {
    captured(seq!["git"@, "push"@, "--named"@, name + "="@ + change_id], global_args)
}

/// Captured, showing standard output: `jj log --revisions <revset>`.
pub open spec fn log_view(revset: Seq<char>, global_args: (Seq<char>, bool)) -> JjCommandView {
    captured_stdout(seq!["log"@, "--revisions"@, revset], global_args)
}

/// Captured, showing standard output: `jj diff --revisions <change_id> --summary`.
pub open spec fn diff_summary_view(change_id: Seq<char>, global_args: (Seq<char>, bool)) -> JjCommandView {
    captured_stdout(seq!["diff"@, "--revisions"@, change_id, "--summary"@], global_args)
}

/// Captured, showing standard output: `jj diff --revisions <change_id> <file>`.
pub open spec fn diff_file_view(change_id: Seq<char>, file: Seq<char>, global_args: (Seq<char>, bool)) -> JjCommandView {
    captured_stdout(seq!["diff"@, "--revisions"@, change_id, file], global_args)
}

/// Interactive, without resync: `jj diff --revisions <change_id> <file>`.
pub open spec fn diff_file_interactive_view(change_id: Seq<char>, file: Seq<char>, global_args: (Seq<char>, bool)) -> JjCommandView {
    viewer(seq!["diff"@, "--revisions"@, change_id, file], global_args)
}

/// Interactive, without resync: `jj diff --from <from> --to <to>`.
pub open spec fn diff_from_to_interactive_view(from: Seq<char>, to: Seq<char>, global_args: (Seq<char>, bool)) -> JjCommandView {
    viewer(seq!["diff"@, "--from"@, from, "--to"@, to], global_args)
}

/// Interactive: `jj describe <change_id>`.
pub open spec fn describe_view(change_id: Seq<char>, global_args: (Seq<char>, bool)) -> JjCommandView {
    interactive(seq!["describe"@, change_id], global_args)
}

/// Captured: `jj duplicate <change_id>`.
pub open spec fn duplicate_view(change_id: Seq<char>, global_args: (Seq<char>, bool)) -> JjCommandView {
    captured(seq!["duplicate"@, change_id], global_args)
}

/// Captured: `jj duplicate <change_id> --onto <dest_change_id>`.
pub open spec fn duplicate_onto_view(change_id: Seq<char>, dest_change_id: Seq<char>, global_args: (Seq<char>, bool)) -> JjCommandView {
    captured(seq!["duplicate"@, change_id, "--onto"@, dest_change_id], global_args)
}

/// Captured: `jj duplicate <change_id> --insert-after <dest_change_id>`.
pub open spec fn duplicate_insert_after_view(change_id: Seq<char>, dest_change_id: Seq<char>, global_args: (Seq<char>, bool)) -> JjCommandView {
    captured(seq!["duplicate"@, change_id, "--insert-after"@, dest_change_id], global_args)
}

/// Captured: `jj duplicate <change_id> --insert-before <dest_change_id>`.
pub open spec fn duplicate_insert_before_view(change_id: Seq<char>, dest_change_id: Seq<char>, global_args: (Seq<char>, bool)) -> JjCommandView {
    captured(seq!["duplicate"@, change_id, "--insert-before"@, dest_change_id], global_args)
}

/// Captured: `jj new <change_id>`.
pub open spec fn new_view(change_id: Seq<char>, global_args: (Seq<char>, bool)) -> JjCommandView {
    captured(seq!["new"@, change_id], global_args)
}

/// Captured: `jj parallelize <revset>`.
pub open spec fn parallelize_view(revset: Seq<char>, global_args: (Seq<char>, bool)) -> JjCommandView {
    captured(seq!["parallelize"@, revset], global_args)
}

/// Captured: `jj prev`.
pub open spec fn prev_view(global_args: (Seq<char>, bool)) -> JjCommandView {
    captured(seq!["prev"@], global_args)
}

/// Captured: `jj prev <offset>`.
pub open spec fn prev_offset_view(offset: Seq<char>, global_args: (Seq<char>, bool)) -> JjCommandView {
    captured(seq!["prev"@, offset], global_args)
}

/// Captured: `jj prev --edit`.
pub open spec fn prev_edit_view(global_args: (Seq<char>, bool)) -> JjCommandView {
    captured(seq!["prev"@, "--edit"@], global_args)
}

/// Captured: `jj prev --edit <offset>`.
pub open spec fn prev_edit_offset_view(offset: Seq<char>, global_args: (Seq<char>, bool)) -> JjCommandView {
    captured(seq!["prev"@, "--edit"@, offset], global_args)
}

/// Captured: `jj prev --no-edit`.
pub open spec fn prev_no_edit_view(global_args: (Seq<char>, bool)) -> JjCommandView {
    captured(seq!["prev"@, "--no-edit"@], global_args)
}

/// Captured: `jj prev --no-edit <offset>`.
pub open spec fn prev_no_edit_offset_view(offset: Seq<char>, global_args: (Seq<char>, bool)) -> JjCommandView {
    captured(seq!["prev"@, "--no-edit"@, offset], global_args)
}

/// Captured: `jj prev --conflict`.
pub open spec fn prev_conflict_view(global_args: (Seq<char>, bool)) -> JjCommandView {
    captured(seq!["prev"@, "--conflict"@], global_args)
}

/// Captured: `jj new --insert-after <change_id>`.
pub open spec fn new_insert_after_view(change_id: Seq<char>, global_args: (Seq<char>, bool)) -> JjCommandView {
    captured(seq!["new"@, "--insert-after"@, change_id], global_args)
}

/// Captured: `jj new --no-edit --insert-before <change_id>`.
pub open spec fn new_before_view(change_id: Seq<char>, global_args: (Seq<char>, bool)) -> JjCommandView {
    captured(seq!["new"@, "--no-edit"@, "--insert-before"@, change_id], global_args)
}

/// Captured: `jj new trunk()`.
pub open spec fn new_after_trunk_view(global_args: (Seq<char>, bool)) -> JjCommandView {
    captured(seq!["new"@, "trunk()"@], global_args)
}

/// Captured: `jj next`.
pub open spec fn next_view(global_args: (Seq<char>, bool)) -> JjCommandView {
    captured(seq!["next"@], global_args)
}

/// Captured: `jj next <offset>`.
pub open spec fn next_offset_view(offset: Seq<char>, global_args: (Seq<char>, bool)) -> JjCommandView {
    captured(seq!["next"@, offset], global_args)
}

/// Captured: `jj next --edit`.
pub open spec fn next_edit_view(global_args: (Seq<char>, bool)) -> JjCommandView {
    captured(seq!["next"@, "--edit"@], global_args)
}

/// Captured: `jj next --edit <offset>`.
pub open spec fn next_edit_offset_view(offset: Seq<char>, global_args: (Seq<char>, bool)) -> JjCommandView {
    captured(seq!["next"@, "--edit"@, offset], global_args)
}

/// Captured: `jj next --no-edit`.
pub open spec fn next_no_edit_view(global_args: (Seq<char>, bool)) -> JjCommandView {
    captured(seq!["next"@, "--no-edit"@], global_args)
}

/// Captured: `jj next --no-edit <offset>`.
pub open spec fn next_no_edit_offset_view(offset: Seq<char>, global_args: (Seq<char>, bool)) -> JjCommandView {
    captured(seq!["next"@, "--no-edit"@, offset], global_args)
}

/// Captured: `jj next --conflict`.
pub open spec fn next_conflict_view(global_args: (Seq<char>, bool)) -> JjCommandView {
    captured(seq!["next"@, "--conflict"@], global_args)
}

/// Captured: `jj abandon <change_id>`.
pub open spec fn abandon_view(change_id: Seq<char>, global_args: (Seq<char>, bool)) -> JjCommandView {
    captured(seq!["abandon"@, change_id], global_args)
}

/// Captured: `jj abandon --retain-bookmarks <change_id>`.
pub open spec fn abandon_retain_bookmarks_view(change_id: Seq<char>, global_args: (Seq<char>, bool)) -> JjCommandView {
    captured(seq!["abandon"@, "--retain-bookmarks"@, change_id], global_args)
}

/// Captured: `jj abandon --restore-descendants <change_id>`.
pub open spec fn abandon_restore_descendants_view(change_id: Seq<char>, global_args: (Seq<char>, bool)) -> JjCommandView {
    captured(seq!["abandon"@, "--restore-descendants"@, change_id], global_args)
}

/// Captured: `jj absorb --from <change_id> [<file_path>]`.
pub open spec fn absorb_view(change_id: Seq<char>, maybe_file_path: Option<Seq<char>>, global_args: (Seq<char>, bool)) -> JjCommandView {
    captured(seq!["absorb"@, "--from"@, change_id] + opt_arg(maybe_file_path), global_args)
}

/// Captured: `jj absorb --from <from_change_id> --into <into_change_id> [<file_path>]`.
pub open spec fn absorb_into_view(from_change_id: Seq<char>, into_change_id: Seq<char>, maybe_file_path: Option<Seq<char>>, global_args: (Seq<char>, bool)) -> JjCommandView {
    captured(seq!["absorb"@, "--from"@, from_change_id, "--into"@, into_change_id] + opt_arg(maybe_file_path), global_args)
}

/// Captured: `jj revert -r <revision> --onto <destination>`.
pub open spec fn revert_onto_view(revision: Seq<char>, destination: Seq<char>, global_args: (Seq<char>, bool)) -> JjCommandView {
    captured(seq!["revert"@, "-r"@, revision, "--onto"@, destination], global_args)
}

/// Captured: `jj revert -r <revision> --insert-after <destination>`.
pub open spec fn revert_insert_after_view(revision: Seq<char>, destination: Seq<char>, global_args: (Seq<char>, bool)) -> JjCommandView {
    captured(seq!["revert"@, "-r"@, revision, "--insert-after"@, destination], global_args)
}

/// Captured: `jj revert -r <revision> --insert-before <destination>`.
pub open spec fn revert_insert_before_view(revision: Seq<char>, destination: Seq<char>, global_args: (Seq<char>, bool)) -> JjCommandView {
    captured(seq!["revert"@, "-r"@, revision, "--insert-before"@, destination], global_args)
}

/// Captured: `jj sign -r <revset>`.
pub open spec fn sign_view(revset: Seq<char>, global_args: (Seq<char>, bool)) -> JjCommandView {
    captured(seq!["sign"@, "-r"@, revset], global_args)
}

/// Interactive, without resync: `jj show <change_id>`.
pub open spec fn show_view(change_id: Seq<char>, global_args: (Seq<char>, bool)) -> JjCommandView {
    viewer(seq!["show"@, change_id], global_args)
}

/// Interactive, without resync: `jj status`.
pub open spec fn status_view(global_args: (Seq<char>, bool)) -> JjCommandView {
    viewer(seq!["status"@], global_args)
}

/// Captured: `jj unsign -r <revset>`.
pub open spec fn unsign_view(revset: Seq<char>, global_args: (Seq<char>, bool)) -> JjCommandView {
    captured(seq!["unsign"@, "-r"@, revset], global_args)
}

/// Captured: `jj simplify-parents -r <revision>`.
pub open spec fn simplify_parents_view(revision: Seq<char>, global_args: (Seq<char>, bool)) -> JjCommandView {
    captured(seq!["simplify-parents"@, "-r"@, revision], global_args)
}

/// Captured: `jj simplify-parents -s <revision>`.
pub open spec fn simplify_parents_source_view(revision: Seq<char>, global_args: (Seq<char>, bool)) -> JjCommandView {
    captured(seq!["simplify-parents"@, "-s"@, revision], global_args)
}

/// Captured: `jj undo`.
pub open spec fn undo_view(global_args: (Seq<char>, bool)) -> JjCommandView {
    captured(seq!["undo"@], global_args)
}

/// Captured: `jj redo`.
pub open spec fn redo_view(global_args: (Seq<char>, bool)) -> JjCommandView {
    captured(seq!["redo"@], global_args)
}

/// Interactive: `jj commit [<file_path>]`.
pub open spec fn commit_view(maybe_file_path: Option<Seq<char>>, global_args: (Seq<char>, bool)) -> JjCommandView {
    interactive(seq!["commit"@] + opt_arg(maybe_file_path), global_args)
}

/// Captured: `jj rebase --source <change_id> --onto trunk()`.
pub open spec fn rebase_onto_trunk_view(change_id: Seq<char>, global_args: (Seq<char>, bool)) -> JjCommandView {
    captured(seq!["rebase"@, "--source"@, change_id, "--onto"@, "trunk()"@], global_args)
}

/// Captured: `jj rebase --branch <change_id> --onto trunk()`.
pub open spec fn rebase_branch_onto_trunk_view(change_id: Seq<char>, global_args: (Seq<char>, bool)) -> JjCommandView {
    captured(seq!["rebase"@, "--branch"@, change_id, "--onto"@, "trunk()"@], global_args)
}

/// Captured: `jj rebase --source <source_change_id> --onto <dest_change_id>`.
pub open spec fn rebase_onto_destination_view(source_change_id: Seq<char>, dest_change_id: Seq<char>, global_args: (Seq<char>, bool)) -> JjCommandView {
    captured(seq!["rebase"@, "--source"@, source_change_id, "--onto"@, dest_change_id], global_args)
}

/// Captured: `jj rebase --branch <source_change_id> --onto <dest_change_id>`.
pub open spec fn rebase_branch_onto_destination_view(source_change_id: Seq<char>, dest_change_id: Seq<char>, global_args: (Seq<char>, bool)) -> JjCommandView {
    captured(seq!["rebase"@, "--branch"@, source_change_id, "--onto"@, dest_change_id], global_args)
}

/// Captured: `jj rebase --revisions <source_change_id> --onto <dest_change_id>`.
pub open spec fn rebase_onto_destination_no_descendants_view(source_change_id: Seq<char>, dest_change_id: Seq<char>, global_args: (Seq<char>, bool)) -> JjCommandView {
    captured(seq!["rebase"@, "--revisions"@, source_change_id, "--onto"@, dest_change_id], global_args)
}

/// Captured: `jj rebase --source <source_change_id> --insert-after <dest_change_id>`.
pub open spec fn rebase_after_destination_view(source_change_id: Seq<char>, dest_change_id: Seq<char>, global_args: (Seq<char>, bool)) -> JjCommandView {
    captured(seq!["rebase"@, "--source"@, source_change_id, "--insert-after"@, dest_change_id], global_args)
}

/// Captured: `jj rebase --revisions <source_change_id> --insert-after <dest_change_id>`.
pub open spec fn rebase_after_destination_no_descendants_view(source_change_id: Seq<char>, dest_change_id: Seq<char>, global_args: (Seq<char>, bool)) -> JjCommandView {
    captured(seq!["rebase"@, "--revisions"@, source_change_id, "--insert-after"@, dest_change_id], global_args)
}

/// Captured: `jj rebase --source <source_change_id> --insert-before <dest_change_id>`.
pub open spec fn rebase_before_destination_view(source_change_id: Seq<char>, dest_change_id: Seq<char>, global_args: (Seq<char>, bool)) -> JjCommandView {
    captured(seq!["rebase"@, "--source"@, source_change_id, "--insert-before"@, dest_change_id], global_args)
}

/// Captured: `jj rebase --revisions <source_change_id> --insert-before <dest_change_id>`.
pub open spec fn rebase_before_destination_no_descendants_view(source_change_id: Seq<char>, dest_change_id: Seq<char>, global_args: (Seq<char>, bool)) -> JjCommandView {
    captured(seq!["rebase"@, "--revisions"@, source_change_id, "--insert-before"@, dest_change_id], global_args)
}

/// Captured: `jj restore --changes-in <change_id> [<file_path>]`.
pub open spec fn restore_view(change_id: Seq<char>, maybe_file_path: Option<Seq<char>>, global_args: (Seq<char>, bool)) -> JjCommandView {
    captured(seq!["restore"@, "--changes-in"@, change_id] + opt_arg(maybe_file_path), global_args)
}

/// Captured: `jj restore --from <from_change_id> [<file_path>]`.
pub open spec fn restore_from_view(from_change_id: Seq<char>, maybe_file_path: Option<Seq<char>>, global_args: (Seq<char>, bool)) -> JjCommandView {
    captured(seq!["restore"@, "--from"@, from_change_id] + opt_arg(maybe_file_path), global_args)
}

/// Captured: `jj restore --into <into_change_id> [<file_path>]`.
pub open spec fn restore_into_view(into_change_id: Seq<char>, maybe_file_path: Option<Seq<char>>, global_args: (Seq<char>, bool)) -> JjCommandView {
    captured(seq!["restore"@, "--into"@, into_change_id] + opt_arg(maybe_file_path), global_args)
}

/// Captured: `jj restore --changes-in <change_id> --restore-descendants [<file_path>]`.
pub open spec fn restore_restore_descendants_view(change_id: Seq<char>, maybe_file_path: Option<Seq<char>>, global_args: (Seq<char>, bool)) -> JjCommandView {
    captured(seq!["restore"@, "--changes-in"@, change_id, "--restore-descendants"@] + opt_arg(maybe_file_path), global_args)
}

/// Captured: `jj restore --from <from_change_id> --into <into_change_id> [<file_path>]`.
pub open spec fn restore_from_into_view(from_change_id: Seq<char>, into_change_id: Seq<char>, maybe_file_path: Option<Seq<char>>, global_args: (Seq<char>, bool)) -> JjCommandView {
    captured(seq!["restore"@, "--from"@, from_change_id, "--into"@, into_change_id] + opt_arg(maybe_file_path), global_args)
}

/// Captured: `jj squash --revision <change_id> [<file_path>]`.
pub open spec fn squash_noninteractive_view(change_id: Seq<char>, maybe_file_path: Option<Seq<char>>, global_args: (Seq<char>, bool)) -> JjCommandView {
    captured(seq!["squash"@, "--revision"@, change_id] + opt_arg(maybe_file_path), global_args)
}

/// Interactive: `jj squash --revision <change_id> [<file_path>]`.
pub open spec fn squash_interactive_view(change_id: Seq<char>, maybe_file_path: Option<Seq<char>>, global_args: (Seq<char>, bool)) -> JjCommandView {
    interactive(seq!["squash"@, "--revision"@, change_id] + opt_arg(maybe_file_path), global_args)
}

/// Interactive: `jj squash --from <from_change_id> --into <into_change_id> [<file_path>]`.
pub open spec fn squash_into_interactive_view(from_change_id: Seq<char>, into_change_id: Seq<char>, maybe_file_path: Option<Seq<char>>, global_args: (Seq<char>, bool)) -> JjCommandView {
    interactive(seq!["squash"@, "--from"@, from_change_id, "--into"@, into_change_id] + opt_arg(maybe_file_path), global_args)
}

/// Captured: `jj edit <change_id>`.
pub open spec fn edit_view(change_id: Seq<char>, global_args: (Seq<char>, bool)) -> JjCommandView {
    captured(seq!["edit"@, change_id], global_args)
}

/// Interactive, without resync: `jj evolog -r <change_id>`.
pub open spec fn evolog_view(change_id: Seq<char>, global_args: (Seq<char>, bool)) -> JjCommandView {
    viewer(seq!["evolog"@, "-r"@, change_id], global_args)
}

/// Interactive, without resync: `jj evolog -r <change_id> --patch`.
pub open spec fn evolog_patch_view(change_id: Seq<char>, global_args: (Seq<char>, bool)) -> JjCommandView {
    viewer(seq!["evolog"@, "-r"@, change_id, "--patch"@], global_args)
}

/// Interactive, without resync: `jj interdiff --from <from> --to <to> [<file_path>]`.
pub open spec fn interdiff_view(from: Seq<char>, to: Seq<char>, maybe_file_path: Option<Seq<char>>, global_args: (Seq<char>, bool)) -> JjCommandView {
    viewer(seq!["interdiff"@, "--from"@, from, "--to"@, to] + opt_arg(maybe_file_path), global_args)
}

/// Captured: `jj file track <file_path>`.
pub open spec fn file_track_view(file_path: Seq<char>, global_args: (Seq<char>, bool)) -> JjCommandView {
    captured(seq!["file"@, "track"@, file_path], global_args)
}

/// Captured: `jj file untrack <file_path>`.
pub open spec fn file_untrack_view(file_path: Seq<char>, global_args: (Seq<char>, bool)) -> JjCommandView {
    captured(seq!["file"@, "untrack"@, file_path], global_args)
}

/// Captured: `jj metaedit --update-change-id <change_id>`.
pub open spec fn metaedit_update_change_id_view(change_id: Seq<char>, global_args: (Seq<char>, bool)) -> JjCommandView {
    captured(seq!["metaedit"@, "--update-change-id"@, change_id], global_args)
}

/// Captured: `jj metaedit --update-author-timestamp <change_id>`.
pub open spec fn metaedit_update_author_timestamp_view(change_id: Seq<char>, global_args: (Seq<char>, bool)) -> JjCommandView {
    captured(seq!["metaedit"@, "--update-author-timestamp"@, change_id], global_args)
}

/// Captured: `jj metaedit --update-author <change_id>`.
pub open spec fn metaedit_update_author_view(change_id: Seq<char>, global_args: (Seq<char>, bool)) -> JjCommandView {
    captured(seq!["metaedit"@, "--update-author"@, change_id], global_args)
}

/// Captured: `jj metaedit --author <author> <change_id>`.
pub open spec fn metaedit_set_author_view(change_id: Seq<char>, author: Seq<char>, global_args: (Seq<char>, bool)) -> JjCommandView {
    captured(seq!["metaedit"@, "--author"@, author, change_id], global_args)
}

/// Captured: `jj metaedit --author-timestamp <timestamp> <change_id>`.
pub open spec fn metaedit_set_author_timestamp_view(change_id: Seq<char>, timestamp: Seq<char>, global_args: (Seq<char>, bool)) -> JjCommandView {
    captured(seq!["metaedit"@, "--author-timestamp"@, timestamp, change_id], global_args)
}

/// Captured: `jj metaedit --force-rewrite <change_id>`.
pub open spec fn metaedit_force_rewrite_view(change_id: Seq<char>, global_args: (Seq<char>, bool)) -> JjCommandView {
    captured(seq!["metaedit"@, "--force-rewrite"@, change_id], global_args)
}

/// Captured: `jj git fetch`.
pub open spec fn fetch_view(global_args: (Seq<char>, bool)) -> JjCommandView {
    captured(seq!["git"@, "fetch"@], global_args)
}

/// Captured: `jj git fetch --all-remotes`.
pub open spec fn fetch_all_remotes_view(global_args: (Seq<char>, bool)) -> JjCommandView {
    captured(seq!["git"@, "fetch"@, "--all-remotes"@], global_args)
}

/// Captured: `jj git fetch --tracked`.
pub open spec fn fetch_tracked_view(global_args: (Seq<char>, bool)) -> JjCommandView {
    captured(seq!["git"@, "fetch"@, "--tracked"@], global_args)
}

/// Captured: `jj git fetch -b <branch>`.
pub open spec fn fetch_branch_view(branch: Seq<char>, global_args: (Seq<char>, bool)) -> JjCommandView {
    captured(seq!["git"@, "fetch"@, "-b"@, branch], global_args)
}

/// Captured: `jj git fetch --remote <remote>`.
pub open spec fn fetch_remote_view(remote: Seq<char>, global_args: (Seq<char>, bool)) -> JjCommandView {
    captured(seq!["git"@, "fetch"@, "--remote"@, remote], global_args)
}

/// Captured: `jj git push`.
pub open spec fn push_view(global_args: (Seq<char>, bool)) -> JjCommandView {
    captured(seq!["git"@, "push"@], global_args)
}

/// Captured: `jj git push --all`.
pub open spec fn push_all_view(global_args: (Seq<char>, bool)) -> JjCommandView {
    captured(seq!["git"@, "push"@, "--all"@], global_args)
}

/// Captured: `jj git push -r <change_id>`.
pub open spec fn push_revision_view(change_id: Seq<char>, global_args: (Seq<char>, bool)) -> JjCommandView {
    captured(seq!["git"@, "push"@, "-r"@, change_id], global_args)
}

/// Captured: `jj git push --tracked`.
pub open spec fn push_tracked_view(global_args: (Seq<char>, bool)) -> JjCommandView {
    captured(seq!["git"@, "push"@, "--tracked"@], global_args)
}

/// Captured: `jj git push --deleted`.
pub open spec fn push_deleted_view(global_args: (Seq<char>, bool)) -> JjCommandView {
    captured(seq!["git"@, "push"@, "--deleted"@], global_args)
}

/// Captured: `jj git push -c <change_id>`.
pub open spec fn push_change_view(change_id: Seq<char>, global_args: (Seq<char>, bool)) -> JjCommandView {
    captured(seq!["git"@, "push"@, "-c"@, change_id], global_args)
}

/// Captured: `jj git push -b <bookmark_name>`.
pub open spec fn push_bookmark_view(bookmark_name: Seq<char>, global_args: (Seq<char>, bool)) -> JjCommandView {
    captured(seq!["git"@, "push"@, "-b"@, bookmark_name], global_args)
}

/// Captured: `jj bookmark create --revision <change_id> <bookmark_names>`.
pub open spec fn bookmark_create_view(bookmark_names: Seq<char>, change_id: Seq<char>, global_args: (Seq<char>, bool)) -> JjCommandView {
    captured(seq!["bookmark"@, "create"@, "--revision"@, change_id, bookmark_names], global_args)
}

/// Captured: `jj bookmark delete <bookmark_names>`.
pub open spec fn bookmark_delete_view(bookmark_names: Seq<char>, global_args: (Seq<char>, bool)) -> JjCommandView {
    captured(seq!["bookmark"@, "delete"@, bookmark_names], global_args)
}

/// Captured: `jj bookmark forget <bookmark_names>`.
pub open spec fn bookmark_forget_view(bookmark_names: Seq<char>, global_args: (Seq<char>, bool)) -> JjCommandView {
    captured(seq!["bookmark"@, "forget"@, bookmark_names], global_args)
}

/// Captured: `jj bookmark forget --include-remotes <bookmark_names>`.
pub open spec fn bookmark_forget_include_remotes_view(bookmark_names: Seq<char>, global_args: (Seq<char>, bool)) -> JjCommandView {
    captured(seq!["bookmark"@, "forget"@, "--include-remotes"@, bookmark_names], global_args)
}

/// Captured: `jj bookmark move --from <from_change_id> --to <to_change_id>`.
pub open spec fn bookmark_move_view(from_change_id: Seq<char>, to_change_id: Seq<char>, global_args: (Seq<char>, bool)) -> JjCommandView {
    captured(seq!["bookmark"@, "move"@, "--from"@, from_change_id, "--to"@, to_change_id], global_args)
}

/// Captured: `jj bookmark move --from <from_change_id> --to <to_change_id> --allow-backwards`.
pub open spec fn bookmark_move_allow_backwards_view(from_change_id: Seq<char>, to_change_id: Seq<char>, global_args: (Seq<char>, bool)) -> JjCommandView {
    captured(seq!["bookmark"@, "move"@, "--from"@, from_change_id, "--to"@, to_change_id, "--allow-backwards"@], global_args)
}

/// Captured: `jj bookmark move --from heads(::@- & bookmarks()) --to <change_id>`.
pub open spec fn bookmark_move_tug_view(change_id: Seq<char>, global_args: (Seq<char>, bool)) -> JjCommandView {
    captured(seq!["bookmark"@, "move"@, "--from"@, "heads(::@- & bookmarks())"@, "--to"@, change_id], global_args)
}

/// Captured: `jj bookmark rename <old_bookmark_name> <new_bookmark_name>`.
pub open spec fn bookmark_rename_view(old_bookmark_name: Seq<char>, new_bookmark_name: Seq<char>, global_args: (Seq<char>, bool)) -> JjCommandView {
    captured(seq!["bookmark"@, "rename"@, old_bookmark_name, new_bookmark_name], global_args)
}

/// Captured: `jj bookmark set <bookmark_names> --revision <change_id>`.
pub open spec fn bookmark_set_view(bookmark_names: Seq<char>, change_id: Seq<char>, global_args: (Seq<char>, bool)) -> JjCommandView {
    captured(seq!["bookmark"@, "set"@, bookmark_names, "--revision"@, change_id], global_args)
}

/// Captured: `jj bookmark track <bookmark_at_remote>`.
pub open spec fn bookmark_track_view(bookmark_at_remote: Seq<char>, global_args: (Seq<char>, bool)) -> JjCommandView {
    captured(seq!["bookmark"@, "track"@, bookmark_at_remote], global_args)
}

/// Captured: `jj bookmark untrack <bookmark_at_remote>`.
pub open spec fn bookmark_untrack_view(bookmark_at_remote: Seq<char>, global_args: (Seq<char>, bool)) -> JjCommandView {
    captured(seq!["bookmark"@, "untrack"@, bookmark_at_remote], global_args)
}

/// `jj log --no-graph --revisions <revset> --template <LOG_TEMPLATE>`, captured.
pub open spec fn log_records_view(revset: Seq<char>, global_args: (Seq<char>, bool)) -> JjCommandView {
    JjCommandView {
        args: seq!["log"@, "--no-graph"@, "--revisions"@, revset, "--template"@, LOG_TEMPLATE@],
        global_args,
        interactive: false,
        return_output: ReturnOutput::Stdout,
        sync: false,
    }
}

} // verus!

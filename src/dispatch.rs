//! Routing of messages: each intent goes to its handler, or back to the
//! caller when it concerns the view model.
use crate::command_tree::{general_help, group_set, help_listing_of, navigation_help};
use crate::info::InfoLineView;
use crate::jj_command::{opt_str_view, abandon_restore_descendants_view, abandon_retain_bookmarks_view, abandon_view, absorb_into_view, absorb_view, bookmark_create_view, bookmark_delete_view, bookmark_forget_include_remotes_view, bookmark_forget_view, bookmark_move_allow_backwards_view, bookmark_move_tug_view, bookmark_move_view, bookmark_rename_view, bookmark_set_view, bookmark_track_view, bookmark_untrack_view, commit_view, describe_view, diff_file_interactive_view, diff_from_to_interactive_view, duplicate_insert_after_view, duplicate_insert_before_view, duplicate_onto_view, duplicate_view, edit_view, evolog_patch_view, evolog_view, fetch_all_remotes_view, fetch_branch_view, fetch_remote_view, fetch_tracked_view, fetch_view, file_track_view, file_untrack_view, interdiff_view, metaedit_force_rewrite_view, metaedit_set_author_timestamp_view, metaedit_set_author_view, metaedit_update_author_timestamp_view, metaedit_update_author_view, metaedit_update_change_id_view, new_after_trunk_view, new_before_view, new_insert_after_view, new_view, next_conflict_view, next_edit_offset_view, next_edit_view, next_no_edit_offset_view, next_no_edit_view, next_offset_view, next_view, parallelize_view, prev_conflict_view, prev_edit_offset_view, prev_edit_view, prev_no_edit_offset_view, prev_no_edit_view, prev_offset_view, prev_view, push_all_view, push_bookmark_view, push_change_view, push_deleted_view, push_named_view, push_revision_view, push_tracked_view, push_view, rebase_after_destination_no_descendants_view, rebase_after_destination_view, rebase_before_destination_no_descendants_view, rebase_before_destination_view, rebase_branch_onto_destination_view, rebase_branch_onto_trunk_view, rebase_onto_destination_no_descendants_view, rebase_onto_destination_view, rebase_onto_trunk_view, redo_view, restore_from_into_view, restore_from_view, restore_into_view, restore_restore_descendants_view, restore_view, revert_insert_after_view, revert_insert_before_view, revert_onto_view, show_view, sign_view, simplify_parents_source_view, simplify_parents_view, squash_interactive_view, squash_into_interactive_view, squash_noninteractive_view, status_view, undo_view, unsign_view};
use crate::message::Message;
use crate::model::{
    after_cancelled, after_invalid_selection, cleared, dots, opt_string_view, parents_revset_view,
    queued, range_revset_view, refresh_dots, Model, ModelView, SavedView, Selection, State,
};
use vstd::prelude::*;

verus! {

/// What is left for the caller after a message was dispatched.
#[derive(Debug)]
pub enum Effect {
    /// The model handled the message.
    Handled,
    /// The message moves the cursor, scrolls or folds the view model.
    ViewModel,
    /// The view model is to be reloaded.
    Resync,
    /// The view model is to be loaded with the new revset; the previous one
    /// goes back through `Model::revset_loaded` if that fails.
    LoadRevset(String),
}

/// The hints of the texts a message asks the user for, in order; a second
/// text is asked for only after a first one was given. Messages that also
/// need a selected change ask for nothing without one.
pub open spec fn prompts_of(msg: Message, has_change: bool) -> (Option<Seq<char>>, Option<Seq<char>>) {
    match msg {
        Message::ParallelizeRevset => (Some("Enter the revset to parallelize"@), None),
        Message::NextOffset => (Some("Enter the offset"@), None),
        Message::NextEditOffset => (Some("Enter the offset"@), None),
        Message::NextNoEditOffset => (Some("Enter the offset"@), None),
        Message::PrevOffset => (Some("Enter the offset"@), None),
        Message::PrevEditOffset => (Some("Enter the offset"@), None),
        Message::PrevNoEditOffset => (Some("Enter the offset"@), None),
        Message::FileTrack => (Some("Enter the file path(s) to track"@), None),
        Message::MetaeditSetAuthor => if has_change {
            (Some("Enter the author (e.g. 'Name <email@example.com>')"@), None)
        } else {
            (None, None)
        },
        Message::MetaeditSetAuthorTimestamp => if has_change {
            (Some("Enter the author timestamp (e.g. '2000-01-23T01:23:45-08:00')"@), None)
        } else {
            (None, None)
        },
        Message::GitFetchBranch => (Some("Enter the branch to fetch"@), None),
        Message::GitFetchRemote => (Some("Enter the remote to fetch from"@), None),
        Message::GitPushNamed => if has_change {
            (Some("Enter the bookmark name for this revision"@), None)
        } else {
            (None, None)
        },
        Message::GitPushBookmark => (Some("Enter the bookmark to push"@), None),
        Message::BookmarkCreate => if has_change {
            (Some("Enter the new bookmark(s)"@), None)
        } else {
            (None, None)
        },
        Message::BookmarkDelete => (Some("Enter the bookmark(s) to delete"@), None),
        Message::BookmarkForget => (Some("Enter the bookmark(s) to forget"@), None),
        Message::BookmarkForgetIncludeRemotes => (Some("Enter the bookmark(s) to forget, including remotes"@), None),
        Message::BookmarkRename => (Some("Enter the bookmark to rename"@), Some("Enter the bookmark to rename to"@)),
        Message::BookmarkSet => if has_change {
            (Some("Enter the bookmark(s) to set"@), None)
        } else {
            (None, None)
        },
        Message::BookmarkTrack => (Some("Enter the bookmark@remote to track"@), None),
        Message::BookmarkUntrack => (Some("Enter the bookmark@remote to untrack"@), None),
        Message::SetRevset => (Some("Enter the new revset"@), None),
        _ => (None, None),
    }
}

/// The hints of the texts that `msg` needs before it is dispatched.
pub fn text_prompts(msg: Message, has_change: bool) -> (r: (Option<&'static str>, Option<&'static str>))
    ensures
        (opt_str_view(r.0), opt_str_view(r.1)) == prompts_of(msg, has_change),
{
    match msg {
        Message::ParallelizeRevset => (Some("Enter the revset to parallelize"), None),
        Message::NextOffset => (Some("Enter the offset"), None),
        Message::NextEditOffset => (Some("Enter the offset"), None),
        Message::NextNoEditOffset => (Some("Enter the offset"), None),
        Message::PrevOffset => (Some("Enter the offset"), None),
        Message::PrevEditOffset => (Some("Enter the offset"), None),
        Message::PrevNoEditOffset => (Some("Enter the offset"), None),
        Message::FileTrack => (Some("Enter the file path(s) to track"), None),
        Message::MetaeditSetAuthor => if has_change {
            (Some("Enter the author (e.g. 'Name <email@example.com>')"), None)
        } else {
            (None, None)
        },
        Message::MetaeditSetAuthorTimestamp => if has_change {
            (Some("Enter the author timestamp (e.g. '2000-01-23T01:23:45-08:00')"), None)
        } else {
            (None, None)
        },
        Message::GitFetchBranch => (Some("Enter the branch to fetch"), None),
        Message::GitFetchRemote => (Some("Enter the remote to fetch from"), None),
        Message::GitPushNamed => if has_change {
            (Some("Enter the bookmark name for this revision"), None)
        } else {
            (None, None)
        },
        Message::GitPushBookmark => (Some("Enter the bookmark to push"), None),
        Message::BookmarkCreate => if has_change {
            (Some("Enter the new bookmark(s)"), None)
        } else {
            (None, None)
        },
        Message::BookmarkDelete => (Some("Enter the bookmark(s) to delete"), None),
        Message::BookmarkForget => (Some("Enter the bookmark(s) to forget"), None),
        Message::BookmarkForgetIncludeRemotes => (Some("Enter the bookmark(s) to forget, including remotes"), None),
        Message::BookmarkRename => (Some("Enter the bookmark to rename"), Some("Enter the bookmark to rename to")),
        Message::BookmarkSet => if has_change {
            (Some("Enter the bookmark(s) to set"), None)
        } else {
            (None, None)
        },
        Message::BookmarkTrack => (Some("Enter the bookmark@remote to track"), None),
        Message::BookmarkUntrack => (Some("Enter the bookmark@remote to untrack"), None),
        Message::SetRevset => (Some("Enter the new revset"), None),
        _ => (None, None),
    }
}

impl Model {
    /// Dispatches one message with the texts the user gave for it.
    pub fn dispatch(
        &mut self,
        msg: Message,
        sel: &Selection,
        text: Option<String>,
        second_text: Option<String>,
    ) -> (r: Effect)
        requires
            old(self).inv(),
        ensures
            final(self).inv(),
            msg == Message::SelectNextNode || msg == Message::SelectPrevNode || msg == Message::SelectNextSiblingNode || msg == Message::SelectPrevSiblingNode || msg == Message::SelectParentNode || msg == Message::SelectCurrentWorkingCopy || msg == Message::ToggleLogListFold || msg == Message::ScrollDown || msg == Message::ScrollUp || msg == Message::ScrollDownPage || msg == Message::ScrollUpPage || msg is LeftMouseClick || msg is RightMouseClick ==> r is ViewModel && final(self)@ == old(self)@,
            msg == Message::Refresh ==> r is Resync && final(self)@ == (ModelView {
                info: Some(seq![InfoLineView::Plain("Refreshed"@ + dots(refresh_dots(old(self)@.info)))]),
                ..cleared(old(self)@)
            }),
            msg == Message::Clear ==> r is Handled && final(self)@ == cleared(old(self)@),
            msg == Message::ToggleIgnoreImmutable ==> r is Handled && final(self)@ == (ModelView {
                global_args: (old(self)@.global_args.0, !old(self)@.global_args.1),
                ..old(self)@
            }),
            msg == Message::Quit ==> r is Handled && final(self)@ == (ModelView {
                state: State::Quit,
                ..old(self)@
            }),
            msg == Message::ShowHelp ==> r is Handled && final(self)@ == (ModelView {
                info: final(self)@.info,
                ..old(self)@
            }) && final(self)@.info is Some && help_listing_of(
                final(self)@.info->0,
                group_set(
                    group_set(old(self)@.tree[0].help, "Navigation"@, navigation_help()),
                    "General"@,
                    general_help(),
                ),
            ),
            msg == Message::SetRevset ==> match opt_string_view(text) {
                None => r is Handled && final(self)@ == after_cancelled(old(self)@),
                Some(t) => (r matches Effect::LoadRevset(p) && p@ == old(self)@.revset) && final(self)@ == (
                ModelView { revset: t, ..old(self)@ }),
            },
            msg == Message::SaveSelection ==> r is Handled && match sel@.change_id {
                None => final(self)@ == after_invalid_selection(cleared(old(self)@)),
                Some(id) => final(self)@ == (ModelView {
                    saved: Some(
                        SavedView { change_id: id, file_path: sel@.file_path, log_index: sel@.log_index },
                    ),
                    ..old(self)@
                }),
            },
            msg == Message::Abandon ==> r == Effect::Handled && (match sel@.change_id {
                    None => final(self)@ == after_invalid_selection(old(self)@),
                    Some(sid) => final(self)@ == queued(
                        old(self)@,
                        seq![abandon_view(sid, old(self)@.global_args)],
                    ),
                }),
            msg == Message::AbandonRestoreDescendants ==> r == Effect::Handled && (match sel@.change_id {
                    None => final(self)@ == after_invalid_selection(old(self)@),
                    Some(sid) => final(self)@ == queued(
                        old(self)@,
                        seq![abandon_restore_descendants_view(sid, old(self)@.global_args)],
                    ),
                }),
            msg == Message::AbandonRetainBookmarks ==> r == Effect::Handled && (match sel@.change_id {
                    None => final(self)@ == after_invalid_selection(old(self)@),
                    Some(sid) => final(self)@ == queued(
                        old(self)@,
                        seq![abandon_retain_bookmarks_view(sid, old(self)@.global_args)],
                    ),
                }),
            msg == Message::Absorb ==> r == Effect::Handled && (match sel@.change_id {
                    None => final(self)@ == after_invalid_selection(old(self)@),
                    Some(sid) => final(self)@ == queued(
                        old(self)@,
                        seq![absorb_view(sid, sel@.file_path, old(self)@.global_args)],
                    ),
                }),
            msg == Message::AbsorbInto ==> r == Effect::Handled && (match old(self)@.saved {
                    None => final(self)@ == after_invalid_selection(old(self)@),
                    Some(v) => match sel@.change_id {
                        None => final(self)@ == after_invalid_selection(old(self)@),
                        Some(sid) => final(self)@ == queued(
                            old(self)@,
                            seq![absorb_into_view(v.change_id, sid, v.file_path, old(self)@.global_args)],
                        ),
                    },
                }),
            msg == Message::BookmarkCreate ==> r == Effect::Handled && (match sel@.change_id {
                    None => final(self)@ == after_invalid_selection(old(self)@),
                    Some(sid) => match opt_string_view(text) {
                        None => final(self)@ == after_cancelled(old(self)@),
                        Some(bookmark_names_text) => final(self)@ == queued(
                            old(self)@,
                            seq![bookmark_create_view(bookmark_names_text, sid, old(self)@.global_args)],
                        ),
                    },
                }),
            msg == Message::BookmarkDelete ==> r == Effect::Handled && (match opt_string_view(text) {
                    None => final(self)@ == after_cancelled(old(self)@),
                    Some(bookmark_names_text) => final(self)@ == queued(
                        old(self)@,
                        seq![bookmark_delete_view(bookmark_names_text, old(self)@.global_args)],
                    ),
                }),
            msg == Message::BookmarkForget ==> r == Effect::Handled && (match opt_string_view(text) {
                    None => final(self)@ == after_cancelled(old(self)@),
                    Some(bookmark_names_text) => final(self)@ == queued(
                        old(self)@,
                        seq![bookmark_forget_view(bookmark_names_text, old(self)@.global_args)],
                    ),
                }),
            msg == Message::BookmarkForgetIncludeRemotes ==> r == Effect::Handled && (match opt_string_view(text) {
                    None => final(self)@ == after_cancelled(old(self)@),
                    Some(bookmark_names_text) => final(self)@ == queued(
                        old(self)@,
                        seq![bookmark_forget_include_remotes_view(bookmark_names_text, old(self)@.global_args)],
                    ),
                }),
            msg == Message::BookmarkMove ==> r == Effect::Handled && (match old(self)@.saved {
                    None => final(self)@ == after_invalid_selection(old(self)@),
                    Some(v) => match sel@.change_id {
                        None => final(self)@ == after_invalid_selection(old(self)@),
                        Some(sid) => final(self)@ == queued(
                            old(self)@,
                            seq![bookmark_move_view(v.change_id, sid, old(self)@.global_args)],
                        ),
                    },
                }),
            msg == Message::BookmarkMoveAllowBackwards ==> r == Effect::Handled && (match old(self)@.saved {
                    None => final(self)@ == after_invalid_selection(old(self)@),
                    Some(v) => match sel@.change_id {
                        None => final(self)@ == after_invalid_selection(old(self)@),
                        Some(sid) => final(self)@ == queued(
                            old(self)@,
                            seq![bookmark_move_allow_backwards_view(v.change_id, sid, old(self)@.global_args)],
                        ),
                    },
                }),
            msg == Message::BookmarkMoveTug ==> r == Effect::Handled && (match sel@.change_id {
                    None => final(self)@ == after_invalid_selection(old(self)@),
                    Some(sid) => final(self)@ == queued(
                        old(self)@,
                        seq![bookmark_move_tug_view(sid, old(self)@.global_args)],
                    ),
                }),
            msg == Message::BookmarkRename ==> r == Effect::Handled && (match opt_string_view(text) {
                    None => final(self)@ == after_cancelled(old(self)@),
                    Some(old_bookmark_name_text) => match opt_string_view(second_text) {
                        None => final(self)@ == after_cancelled(old(self)@),
                        Some(new_bookmark_name_text) => final(self)@ == queued(
                            old(self)@,
                            seq![bookmark_rename_view(old_bookmark_name_text, new_bookmark_name_text, old(self)@.global_args)],
                        ),
                    },
                }),
            msg == Message::BookmarkSet ==> r == Effect::Handled && (match sel@.change_id {
                    None => final(self)@ == after_invalid_selection(old(self)@),
                    Some(sid) => match opt_string_view(text) {
                        None => final(self)@ == after_cancelled(old(self)@),
                        Some(bookmark_names_text) => final(self)@ == queued(
                            old(self)@,
                            seq![bookmark_set_view(bookmark_names_text, sid, old(self)@.global_args)],
                        ),
                    },
                }),
            msg == Message::BookmarkTrack ==> r == Effect::Handled && (match opt_string_view(text) {
                    None => final(self)@ == after_cancelled(old(self)@),
                    Some(bookmark_at_remote_text) => final(self)@ == queued(
                        old(self)@,
                        seq![bookmark_track_view(bookmark_at_remote_text, old(self)@.global_args)],
                    ),
                }),
            msg == Message::BookmarkUntrack ==> r == Effect::Handled && (match opt_string_view(text) {
                    None => final(self)@ == after_cancelled(old(self)@),
                    Some(bookmark_at_remote_text) => final(self)@ == queued(
                        old(self)@,
                        seq![bookmark_untrack_view(bookmark_at_remote_text, old(self)@.global_args)],
                    ),
                }),
            msg == Message::Commit ==> r == Effect::Handled && (final(self)@ == queued(
                    old(self)@,
                    seq![commit_view(sel@.file_path, old(self)@.global_args)],
                )),
            msg == Message::Describe ==> r == Effect::Handled && (match sel@.change_id {
                    None => final(self)@ == after_invalid_selection(old(self)@),
                    Some(sid) => final(self)@ == queued(
                        old(self)@,
                        seq![describe_view(sid, old(self)@.global_args)],
                    ),
                }),
            msg == Message::Duplicate ==> r == Effect::Handled && (match sel@.change_id {
                    None => final(self)@ == after_invalid_selection(old(self)@),
                    Some(sid) => final(self)@ == queued(
                        old(self)@,
                        seq![duplicate_view(sid, old(self)@.global_args)],
                    ),
                }),
            msg == Message::DuplicateInsertAfter ==> r == Effect::Handled && (match old(self)@.saved {
                    None => final(self)@ == after_invalid_selection(old(self)@),
                    Some(v) => match sel@.change_id {
                        None => final(self)@ == after_invalid_selection(old(self)@),
                        Some(sid) => final(self)@ == queued(
                            old(self)@,
                            seq![duplicate_insert_after_view(v.change_id, sid, old(self)@.global_args)],
                        ),
                    },
                }),
            msg == Message::DuplicateInsertBefore ==> r == Effect::Handled && (match old(self)@.saved {
                    None => final(self)@ == after_invalid_selection(old(self)@),
                    Some(v) => match sel@.change_id {
                        None => final(self)@ == after_invalid_selection(old(self)@),
                        Some(sid) => final(self)@ == queued(
                            old(self)@,
                            seq![duplicate_insert_before_view(v.change_id, sid, old(self)@.global_args)],
                        ),
                    },
                }),
            msg == Message::DuplicateOnto ==> r == Effect::Handled && (match old(self)@.saved {
                    None => final(self)@ == after_invalid_selection(old(self)@),
                    Some(v) => match sel@.change_id {
                        None => final(self)@ == after_invalid_selection(old(self)@),
                        Some(sid) => final(self)@ == queued(
                            old(self)@,
                            seq![duplicate_onto_view(v.change_id, sid, old(self)@.global_args)],
                        ),
                    },
                }),
            msg == Message::Edit ==> r == Effect::Handled && (match sel@.change_id {
                    None => final(self)@ == after_invalid_selection(old(self)@),
                    Some(sid) => final(self)@ == queued(
                        old(self)@,
                        seq![edit_view(sid, old(self)@.global_args)],
                    ),
                }),
            msg == Message::Evolog ==> r == Effect::Handled && (match sel@.change_id {
                    None => final(self)@ == after_invalid_selection(old(self)@),
                    Some(sid) => final(self)@ == queued(
                        old(self)@,
                        seq![evolog_view(sid, old(self)@.global_args)],
                    ),
                }),
            msg == Message::EvologPatch ==> r == Effect::Handled && (match sel@.change_id {
                    None => final(self)@ == after_invalid_selection(old(self)@),
                    Some(sid) => final(self)@ == queued(
                        old(self)@,
                        seq![evolog_patch_view(sid, old(self)@.global_args)],
                    ),
                }),
            msg == Message::FileTrack ==> r == Effect::Handled && (match opt_string_view(text) {
                    None => final(self)@ == after_cancelled(old(self)@),
                    Some(file_path_text) => final(self)@ == queued(
                        old(self)@,
                        seq![file_track_view(file_path_text, old(self)@.global_args)],
                    ),
                }),
            msg == Message::FileUntrack ==> r == Effect::Handled && (match sel@.file_path {
                    None => final(self)@ == after_invalid_selection(old(self)@),
                    Some(p) => if !sel@.is_working_copy {
                        final(self)@ == after_invalid_selection(old(self)@)
                    } else {
                        final(self)@ == queued(old(self)@, seq![file_untrack_view(p, old(self)@.global_args)])
                    },
                }),
            msg == Message::GitFetch ==> r == Effect::Handled && (final(self)@ == queued(
                    old(self)@,
                    seq![fetch_view(old(self)@.global_args)],
                )),
            msg == Message::GitFetchAllRemotes ==> r == Effect::Handled && (final(self)@ == queued(
                    old(self)@,
                    seq![fetch_all_remotes_view(old(self)@.global_args)],
                )),
            msg == Message::GitFetchBranch ==> r == Effect::Handled && (match opt_string_view(text) {
                    None => final(self)@ == after_cancelled(old(self)@),
                    Some(branch_text) => final(self)@ == queued(
                        old(self)@,
                        seq![fetch_branch_view(branch_text, old(self)@.global_args)],
                    ),
                }),
            msg == Message::GitFetchRemote ==> r == Effect::Handled && (match opt_string_view(text) {
                    None => final(self)@ == after_cancelled(old(self)@),
                    Some(remote_text) => final(self)@ == queued(
                        old(self)@,
                        seq![fetch_remote_view(remote_text, old(self)@.global_args)],
                    ),
                }),
            msg == Message::GitFetchTracked ==> r == Effect::Handled && (final(self)@ == queued(
                    old(self)@,
                    seq![fetch_tracked_view(old(self)@.global_args)],
                )),
            msg == Message::GitPush ==> r == Effect::Handled && (final(self)@ == queued(
                    old(self)@,
                    seq![push_view(old(self)@.global_args)],
                )),
            msg == Message::GitPushAll ==> r == Effect::Handled && (final(self)@ == queued(
                    old(self)@,
                    seq![push_all_view(old(self)@.global_args)],
                )),
            msg == Message::GitPushBookmark ==> r == Effect::Handled && (match opt_string_view(text) {
                    None => final(self)@ == after_cancelled(old(self)@),
                    Some(bookmark_name_text) => final(self)@ == queued(
                        old(self)@,
                        seq![push_bookmark_view(bookmark_name_text, old(self)@.global_args)],
                    ),
                }),
            msg == Message::GitPushChange ==> r == Effect::Handled && (match sel@.change_id {
                    None => final(self)@ == after_invalid_selection(old(self)@),
                    Some(sid) => final(self)@ == queued(
                        old(self)@,
                        seq![push_change_view(sid, old(self)@.global_args)],
                    ),
                }),
            msg == Message::GitPushDeleted ==> r == Effect::Handled && (final(self)@ == queued(
                    old(self)@,
                    seq![push_deleted_view(old(self)@.global_args)],
                )),
            msg == Message::GitPushNamed ==> r == Effect::Handled && (match sel@.change_id {
                    None => final(self)@ == after_invalid_selection(old(self)@),
                    Some(sid) => match opt_string_view(text) {
                        None => final(self)@ == after_cancelled(old(self)@),
                        Some(bookmark_name_text) => final(self)@ == queued(
                            old(self)@,
                            seq![push_named_view(bookmark_name_text, sid, old(self)@.global_args)],
                        ),
                    },
                }),
            msg == Message::GitPushRevision ==> r == Effect::Handled && (match sel@.change_id {
                    None => final(self)@ == after_invalid_selection(old(self)@),
                    Some(sid) => final(self)@ == queued(
                        old(self)@,
                        seq![push_revision_view(sid, old(self)@.global_args)],
                    ),
                }),
            msg == Message::GitPushTracked ==> r == Effect::Handled && (final(self)@ == queued(
                    old(self)@,
                    seq![push_tracked_view(old(self)@.global_args)],
                )),
            msg == Message::InterdiffFromSelection ==> r == Effect::Handled && (match sel@.change_id {
                    None => final(self)@ == after_invalid_selection(old(self)@),
                    Some(sid) => final(self)@ == queued(
                        old(self)@,
                        seq![interdiff_view(sid, "@"@, sel@.file_path, old(self)@.global_args)],
                    ),
                }),
            msg == Message::InterdiffFromSelectionToDestination ==> r == Effect::Handled && (match old(self)@.saved {
                    None => final(self)@ == after_invalid_selection(old(self)@),
                    Some(v) => match sel@.change_id {
                        None => final(self)@ == after_invalid_selection(old(self)@),
                        Some(sid) => final(self)@ == queued(
                            old(self)@,
                            seq![interdiff_view(v.change_id, sid, v.file_path, old(self)@.global_args)],
                        ),
                    },
                }),
            msg == Message::InterdiffToSelection ==> r == Effect::Handled && (match sel@.change_id {
                    None => final(self)@ == after_invalid_selection(old(self)@),
                    Some(sid) => final(self)@ == queued(
                        old(self)@,
                        seq![interdiff_view("@"@, sid, sel@.file_path, old(self)@.global_args)],
                    ),
                }),
            msg == Message::MetaeditForceRewrite ==> r == Effect::Handled && (match sel@.change_id {
                    None => final(self)@ == after_invalid_selection(old(self)@),
                    Some(sid) => final(self)@ == queued(
                        old(self)@,
                        seq![metaedit_force_rewrite_view(sid, old(self)@.global_args)],
                    ),
                }),
            msg == Message::MetaeditSetAuthor ==> r == Effect::Handled && (match sel@.change_id {
                    None => final(self)@ == after_invalid_selection(old(self)@),
                    Some(sid) => match opt_string_view(text) {
                        None => final(self)@ == after_cancelled(old(self)@),
                        Some(author_text) => final(self)@ == queued(
                            old(self)@,
                            seq![metaedit_set_author_view(sid, author_text, old(self)@.global_args)],
                        ),
                    },
                }),
            msg == Message::MetaeditSetAuthorTimestamp ==> r == Effect::Handled && (match sel@.change_id {
                    None => final(self)@ == after_invalid_selection(old(self)@),
                    Some(sid) => match opt_string_view(text) {
                        None => final(self)@ == after_cancelled(old(self)@),
                        Some(timestamp_text) => final(self)@ == queued(
                            old(self)@,
                            seq![metaedit_set_author_timestamp_view(sid, timestamp_text, old(self)@.global_args)],
                        ),
                    },
                }),
            msg == Message::MetaeditUpdateAuthor ==> r == Effect::Handled && (match sel@.change_id {
                    None => final(self)@ == after_invalid_selection(old(self)@),
                    Some(sid) => final(self)@ == queued(
                        old(self)@,
                        seq![metaedit_update_author_view(sid, old(self)@.global_args)],
                    ),
                }),
            msg == Message::MetaeditUpdateAuthorTimestamp ==> r == Effect::Handled && (match sel@.change_id {
                    None => final(self)@ == after_invalid_selection(old(self)@),
                    Some(sid) => final(self)@ == queued(
                        old(self)@,
                        seq![metaedit_update_author_timestamp_view(sid, old(self)@.global_args)],
                    ),
                }),
            msg == Message::MetaeditUpdateChangeId ==> r == Effect::Handled && (match sel@.change_id {
                    None => final(self)@ == after_invalid_selection(old(self)@),
                    Some(sid) => final(self)@ == queued(
                        old(self)@,
                        seq![metaedit_update_change_id_view(sid, old(self)@.global_args)],
                    ),
                }),
            msg == Message::Next ==> r == Effect::Handled && (final(self)@ == queued(
                    old(self)@,
                    seq![next_view(old(self)@.global_args)],
                )),
            msg == Message::NextConflict ==> r == Effect::Handled && (final(self)@ == queued(
                    old(self)@,
                    seq![next_conflict_view(old(self)@.global_args)],
                )),
            msg == Message::NextEdit ==> r == Effect::Handled && (final(self)@ == queued(
                    old(self)@,
                    seq![next_edit_view(old(self)@.global_args)],
                )),
            msg == Message::NextEditOffset ==> r == Effect::Handled && (match opt_string_view(text) {
                    None => final(self)@ == after_cancelled(old(self)@),
                    Some(offset_text) => final(self)@ == queued(
                        old(self)@,
                        seq![next_edit_offset_view(offset_text, old(self)@.global_args)],
                    ),
                }),
            msg == Message::NextNoEdit ==> r == Effect::Handled && (final(self)@ == queued(
                    old(self)@,
                    seq![next_no_edit_view(old(self)@.global_args)],
                )),
            msg == Message::NextNoEditOffset ==> r == Effect::Handled && (match opt_string_view(text) {
                    None => final(self)@ == after_cancelled(old(self)@),
                    Some(offset_text) => final(self)@ == queued(
                        old(self)@,
                        seq![next_no_edit_offset_view(offset_text, old(self)@.global_args)],
                    ),
                }),
            msg == Message::NextOffset ==> r == Effect::Handled && (match opt_string_view(text) {
                    None => final(self)@ == after_cancelled(old(self)@),
                    Some(offset_text) => final(self)@ == queued(
                        old(self)@,
                        seq![next_offset_view(offset_text, old(self)@.global_args)],
                    ),
                }),
            msg == Message::New ==> r == Effect::Handled && (match sel@.change_id {
                    None => final(self)@ == after_invalid_selection(old(self)@),
                    Some(sid) => final(self)@ == queued(
                        old(self)@,
                        seq![new_view(sid, old(self)@.global_args)],
                    ),
                }),
            msg == Message::NewAfterTrunk ==> r == Effect::Handled && (final(self)@ == queued(
                    old(self)@,
                    seq![new_after_trunk_view(old(self)@.global_args)],
                )),
            msg == Message::NewAfterTrunkSync ==> r == Effect::Handled && (final(self)@ == queued(
                    old(self)@,
                    seq![fetch_view(old(self)@.global_args), new_after_trunk_view(old(self)@.global_args)],
                )),
            msg == Message::NewBefore ==> r == Effect::Handled && (match sel@.change_id {
                    None => final(self)@ == after_invalid_selection(old(self)@),
                    Some(sid) => final(self)@ == queued(
                        old(self)@,
                        seq![new_before_view(sid, old(self)@.global_args)],
                    ),
                }),
            msg == Message::NewInsertAfter ==> r == Effect::Handled && (match sel@.change_id {
                    None => final(self)@ == after_invalid_selection(old(self)@),
                    Some(sid) => final(self)@ == queued(
                        old(self)@,
                        seq![new_insert_after_view(sid, old(self)@.global_args)],
                    ),
                }),
            msg == Message::Parallelize ==> r == Effect::Handled && (match sel@.change_id {
                    None => final(self)@ == after_invalid_selection(old(self)@),
                    Some(sid) => final(self)@ == queued(
                        old(self)@,
                        seq![parallelize_view(parents_revset_view(sid), old(self)@.global_args)],
                    ),
                }),
            msg == Message::ParallelizeRange ==> r == Effect::Handled && (match old(self)@.saved {
                    None => final(self)@ == after_invalid_selection(old(self)@),
                    Some(v) => match sel@.change_id {
                        None => final(self)@ == after_invalid_selection(old(self)@),
                        Some(sid) => final(self)@ == queued(
                            old(self)@,
                            seq![parallelize_view(range_revset_view(v.change_id, sid), old(self)@.global_args)],
                        ),
                    },
                }),
            msg == Message::ParallelizeRevset ==> r == Effect::Handled && (match opt_string_view(text) {
                    None => final(self)@ == after_cancelled(old(self)@),
                    Some(revset_text) => final(self)@ == queued(
                        old(self)@,
                        seq![parallelize_view(revset_text, old(self)@.global_args)],
                    ),
                }),
            msg == Message::Prev ==> r == Effect::Handled && (final(self)@ == queued(
                    old(self)@,
                    seq![prev_view(old(self)@.global_args)],
                )),
            msg == Message::PrevConflict ==> r == Effect::Handled && (final(self)@ == queued(
                    old(self)@,
                    seq![prev_conflict_view(old(self)@.global_args)],
                )),
            msg == Message::PrevEdit ==> r == Effect::Handled && (final(self)@ == queued(
                    old(self)@,
                    seq![prev_edit_view(old(self)@.global_args)],
                )),
            msg == Message::PrevEditOffset ==> r == Effect::Handled && (match opt_string_view(text) {
                    None => final(self)@ == after_cancelled(old(self)@),
                    Some(offset_text) => final(self)@ == queued(
                        old(self)@,
                        seq![prev_edit_offset_view(offset_text, old(self)@.global_args)],
                    ),
                }),
            msg == Message::PrevNoEdit ==> r == Effect::Handled && (final(self)@ == queued(
                    old(self)@,
                    seq![prev_no_edit_view(old(self)@.global_args)],
                )),
            msg == Message::PrevNoEditOffset ==> r == Effect::Handled && (match opt_string_view(text) {
                    None => final(self)@ == after_cancelled(old(self)@),
                    Some(offset_text) => final(self)@ == queued(
                        old(self)@,
                        seq![prev_no_edit_offset_view(offset_text, old(self)@.global_args)],
                    ),
                }),
            msg == Message::PrevOffset ==> r == Effect::Handled && (match opt_string_view(text) {
                    None => final(self)@ == after_cancelled(old(self)@),
                    Some(offset_text) => final(self)@ == queued(
                        old(self)@,
                        seq![prev_offset_view(offset_text, old(self)@.global_args)],
                    ),
                }),
            msg == Message::RebaseAfterDestination ==> r == Effect::Handled && (match old(self)@.saved {
                    None => final(self)@ == after_invalid_selection(old(self)@),
                    Some(v) => match sel@.change_id {
                        None => final(self)@ == after_invalid_selection(old(self)@),
                        Some(sid) => final(self)@ == queued(
                            old(self)@,
                            seq![rebase_after_destination_view(v.change_id, sid, old(self)@.global_args)],
                        ),
                    },
                }),
            msg == Message::RebaseAfterDestinationNoDescendants ==> r == Effect::Handled && (match old(self)@.saved {
                    None => final(self)@ == after_invalid_selection(old(self)@),
                    Some(v) => match sel@.change_id {
                        None => final(self)@ == after_invalid_selection(old(self)@),
                        Some(sid) => final(self)@ == queued(
                            old(self)@,
                            seq![rebase_after_destination_no_descendants_view(v.change_id, sid, old(self)@.global_args)],
                        ),
                    },
                }),
            msg == Message::RebaseBeforeDestination ==> r == Effect::Handled && (match old(self)@.saved {
                    None => final(self)@ == after_invalid_selection(old(self)@),
                    Some(v) => match sel@.change_id {
                        None => final(self)@ == after_invalid_selection(old(self)@),
                        Some(sid) => final(self)@ == queued(
                            old(self)@,
                            seq![rebase_before_destination_view(v.change_id, sid, old(self)@.global_args)],
                        ),
                    },
                }),
            msg == Message::RebaseBeforeDestinationNoDescendants ==> r == Effect::Handled && (match old(self)@.saved {
                    None => final(self)@ == after_invalid_selection(old(self)@),
                    Some(v) => match sel@.change_id {
                        None => final(self)@ == after_invalid_selection(old(self)@),
                        Some(sid) => final(self)@ == queued(
                            old(self)@,
                            seq![rebase_before_destination_no_descendants_view(v.change_id, sid, old(self)@.global_args)],
                        ),
                    },
                }),
            msg == Message::RebaseBranchOntoDestination ==> r == Effect::Handled && (match old(self)@.saved {
                    None => final(self)@ == after_invalid_selection(old(self)@),
                    Some(v) => match sel@.change_id {
                        None => final(self)@ == after_invalid_selection(old(self)@),
                        Some(sid) => final(self)@ == queued(
                            old(self)@,
                            seq![rebase_branch_onto_destination_view(v.change_id, sid, old(self)@.global_args)],
                        ),
                    },
                }),
            msg == Message::RebaseBranchOntoTrunk ==> r == Effect::Handled && (match sel@.change_id {
                    None => final(self)@ == after_invalid_selection(old(self)@),
                    Some(sid) => final(self)@ == queued(
                        old(self)@,
                        seq![rebase_branch_onto_trunk_view(sid, old(self)@.global_args)],
                    ),
                }),
            msg == Message::RebaseOntoDestination ==> r == Effect::Handled && (match old(self)@.saved {
                    None => final(self)@ == after_invalid_selection(old(self)@),
                    Some(v) => match sel@.change_id {
                        None => final(self)@ == after_invalid_selection(old(self)@),
                        Some(sid) => final(self)@ == queued(
                            old(self)@,
                            seq![rebase_onto_destination_view(v.change_id, sid, old(self)@.global_args)],
                        ),
                    },
                }),
            msg == Message::RebaseOntoDestinationNoDescendants ==> r == Effect::Handled && (match old(self)@.saved {
                    None => final(self)@ == after_invalid_selection(old(self)@),
                    Some(v) => match sel@.change_id {
                        None => final(self)@ == after_invalid_selection(old(self)@),
                        Some(sid) => final(self)@ == queued(
                            old(self)@,
                            seq![rebase_onto_destination_no_descendants_view(v.change_id, sid, old(self)@.global_args)],
                        ),
                    },
                }),
            msg == Message::RebaseOntoTrunk ==> r == Effect::Handled && (match sel@.change_id {
                    None => final(self)@ == after_invalid_selection(old(self)@),
                    Some(sid) => final(self)@ == queued(
                        old(self)@,
                        seq![rebase_onto_trunk_view(sid, old(self)@.global_args)],
                    ),
                }),
            msg == Message::Redo ==> r == Effect::Handled && (final(self)@ == queued(
                    old(self)@,
                    seq![redo_view(old(self)@.global_args)],
                )),
            msg == Message::Restore ==> r == Effect::Handled && (match sel@.change_id {
                    None => final(self)@ == after_invalid_selection(old(self)@),
                    Some(sid) => final(self)@ == queued(
                        old(self)@,
                        seq![restore_view(sid, sel@.file_path, old(self)@.global_args)],
                    ),
                }),
            msg == Message::Revert ==> r == Effect::Handled && (match sel@.change_id {
                    None => final(self)@ == after_invalid_selection(old(self)@),
                    Some(sid) => final(self)@ == queued(
                        old(self)@,
                        seq![revert_onto_view(sid, "@"@, old(self)@.global_args)],
                    ),
                }),
            msg == Message::RevertInsertAfter ==> r == Effect::Handled && (match old(self)@.saved {
                    None => final(self)@ == after_invalid_selection(old(self)@),
                    Some(v) => match sel@.change_id {
                        None => final(self)@ == after_invalid_selection(old(self)@),
                        Some(sid) => final(self)@ == queued(
                            old(self)@,
                            seq![revert_insert_after_view(v.change_id, sid, old(self)@.global_args)],
                        ),
                    },
                }),
            msg == Message::RevertInsertBefore ==> r == Effect::Handled && (match old(self)@.saved {
                    None => final(self)@ == after_invalid_selection(old(self)@),
                    Some(v) => match sel@.change_id {
                        None => final(self)@ == after_invalid_selection(old(self)@),
                        Some(sid) => final(self)@ == queued(
                            old(self)@,
                            seq![revert_insert_before_view(v.change_id, sid, old(self)@.global_args)],
                        ),
                    },
                }),
            msg == Message::RevertOntoDestination ==> r == Effect::Handled && (match old(self)@.saved {
                    None => final(self)@ == after_invalid_selection(old(self)@),
                    Some(v) => match sel@.change_id {
                        None => final(self)@ == after_invalid_selection(old(self)@),
                        Some(sid) => final(self)@ == queued(
                            old(self)@,
                            seq![revert_onto_view(v.change_id, sid, old(self)@.global_args)],
                        ),
                    },
                }),
            msg == Message::RestoreFrom ==> r == Effect::Handled && (match sel@.change_id {
                    None => final(self)@ == after_invalid_selection(old(self)@),
                    Some(sid) => final(self)@ == queued(
                        old(self)@,
                        seq![restore_from_view(sid, sel@.file_path, old(self)@.global_args)],
                    ),
                }),
            msg == Message::RestoreFromInto ==> r == Effect::Handled && (match old(self)@.saved {
                    None => final(self)@ == after_invalid_selection(old(self)@),
                    Some(v) => match sel@.change_id {
                        None => final(self)@ == after_invalid_selection(old(self)@),
                        Some(sid) => final(self)@ == queued(
                            old(self)@,
                            seq![restore_from_into_view(v.change_id, sid, v.file_path, old(self)@.global_args)],
                        ),
                    },
                }),
            msg == Message::RestoreInto ==> r == Effect::Handled && (match sel@.change_id {
                    None => final(self)@ == after_invalid_selection(old(self)@),
                    Some(sid) => final(self)@ == queued(
                        old(self)@,
                        seq![restore_into_view(sid, sel@.file_path, old(self)@.global_args)],
                    ),
                }),
            msg == Message::RestoreRestoreDescendants ==> r == Effect::Handled && (match sel@.change_id {
                    None => final(self)@ == after_invalid_selection(old(self)@),
                    Some(sid) => final(self)@ == queued(
                        old(self)@,
                        seq![restore_restore_descendants_view(sid, sel@.file_path, old(self)@.global_args)],
                    ),
                }),
            msg == Message::View ==> r == Effect::Handled && (match sel@.change_id {
                    None => final(self)@ == after_invalid_selection(old(self)@),
                    Some(sid) => final(self)@ == queued(
                        old(self)@,
                        seq![
                            match sel@.file_path {
                                Some(p) => diff_file_interactive_view(sid, p, old(self)@.global_args),
                                None => show_view(sid, old(self)@.global_args),
                            },
                        ],
                    ),
                }),
            msg == Message::Sign ==> r == Effect::Handled && (match sel@.change_id {
                    None => final(self)@ == after_invalid_selection(old(self)@),
                    Some(sid) => final(self)@ == queued(
                        old(self)@,
                        seq![sign_view(sid, old(self)@.global_args)],
                    ),
                }),
            msg == Message::SignRange ==> r == Effect::Handled && (match old(self)@.saved {
                    None => final(self)@ == after_invalid_selection(old(self)@),
                    Some(v) => match sel@.change_id {
                        None => final(self)@ == after_invalid_selection(old(self)@),
                        Some(sid) => final(self)@ == queued(
                            old(self)@,
                            seq![sign_view(range_revset_view(v.change_id, sid), old(self)@.global_args)],
                        ),
                    },
                }),
            msg == Message::SimplifyParents ==> r == Effect::Handled && (match sel@.change_id {
                    None => final(self)@ == after_invalid_selection(old(self)@),
                    Some(sid) => final(self)@ == queued(
                        old(self)@,
                        seq![simplify_parents_view(sid, old(self)@.global_args)],
                    ),
                }),
            msg == Message::SimplifyParentsSource ==> r == Effect::Handled && (match sel@.change_id {
                    None => final(self)@ == after_invalid_selection(old(self)@),
                    Some(sid) => final(self)@ == queued(
                        old(self)@,
                        seq![simplify_parents_source_view(sid, old(self)@.global_args)],
                    ),
                }),
            msg == Message::Squash ==> r == Effect::Handled && (match sel@.change_id {
                    None => final(self)@ == after_invalid_selection(old(self)@),
                    Some(sid) => final(self)@ == queued(
                        old(self)@,
                        seq![
                            if sel@.has_description {
                                squash_interactive_view(sid, sel@.file_path, old(self)@.global_args)
                            } else {
                                squash_noninteractive_view(sid, sel@.file_path, old(self)@.global_args)
                            },
                        ],
                    ),
                }),
            msg == Message::SquashInto ==> r == Effect::Handled && (match old(self)@.saved {
                    None => final(self)@ == after_invalid_selection(old(self)@),
                    Some(v) => match sel@.change_id {
                        None => final(self)@ == after_invalid_selection(old(self)@),
                        Some(sid) => final(self)@ == queued(
                            old(self)@,
                            seq![squash_into_interactive_view(v.change_id, sid, v.file_path, old(self)@.global_args)],
                        ),
                    },
                }),
            msg == Message::Status ==> r == Effect::Handled && (final(self)@ == queued(
                    old(self)@,
                    seq![status_view(old(self)@.global_args)],
                )),
            msg == Message::Undo ==> r == Effect::Handled && (final(self)@ == queued(
                    old(self)@,
                    seq![undo_view(old(self)@.global_args)],
                )),
            msg == Message::Unsign ==> r == Effect::Handled && (match sel@.change_id {
                    None => final(self)@ == after_invalid_selection(old(self)@),
                    Some(sid) => final(self)@ == queued(
                        old(self)@,
                        seq![unsign_view(sid, old(self)@.global_args)],
                    ),
                }),
            msg == Message::UnsignRange ==> r == Effect::Handled && (match old(self)@.saved {
                    None => final(self)@ == after_invalid_selection(old(self)@),
                    Some(v) => match sel@.change_id {
                        None => final(self)@ == after_invalid_selection(old(self)@),
                        Some(sid) => final(self)@ == queued(
                            old(self)@,
                            seq![unsign_view(range_revset_view(v.change_id, sid), old(self)@.global_args)],
                        ),
                    },
                }),
            msg == Message::ViewFromSelection ==> r == Effect::Handled && (match sel@.change_id {
                    None => final(self)@ == after_invalid_selection(old(self)@),
                    Some(sid) => final(self)@ == queued(
                        old(self)@,
                        seq![diff_from_to_interactive_view(sid, "@"@, old(self)@.global_args)],
                    ),
                }),
            msg == Message::ViewFromSelectionToDestination ==> r == Effect::Handled && (match old(self)@.saved {
                    None => final(self)@ == after_invalid_selection(old(self)@),
                    Some(v) => match sel@.change_id {
                        None => final(self)@ == after_invalid_selection(old(self)@),
                        Some(sid) => final(self)@ == queued(
                            old(self)@,
                            seq![diff_from_to_interactive_view(v.change_id, sid, old(self)@.global_args)],
                        ),
                    },
                }),
            msg == Message::ViewToSelection ==> r == Effect::Handled && (match sel@.change_id {
                    None => final(self)@ == after_invalid_selection(old(self)@),
                    Some(sid) => final(self)@ == queued(
                        old(self)@,
                        seq![diff_from_to_interactive_view("@"@, sid, old(self)@.global_args)],
                    ),
                }),
    {
        match msg {
            Message::SelectNextNode | Message::SelectPrevNode | Message::SelectNextSiblingNode | Message::SelectPrevSiblingNode | Message::SelectParentNode | Message::SelectCurrentWorkingCopy | Message::ToggleLogListFold | Message::ScrollDown | Message::ScrollUp | Message::ScrollDownPage | Message::ScrollUpPage | Message::LeftMouseClick { .. } | Message::RightMouseClick { .. } => Effect::ViewModel,
            Message::Refresh => {
                self.refresh();
                Effect::Resync
            },
            Message::Clear => {
                self.clear();
                Effect::Handled
            },
            Message::ToggleIgnoreImmutable => {
                self.toggle_ignore_immutable();
                Effect::Handled
            },
            Message::Quit => {
                self.quit();
                Effect::Handled
            },
            Message::ShowHelp => {
                self.show_help();
                Effect::Handled
            },
            Message::SetRevset => match self.set_revset(text) {
                Some(previous) => Effect::LoadRevset(previous),
                None => Effect::Handled,
            },
            Message::SaveSelection => {
                self.save_selection(sel);
                Effect::Handled
            },
            Message::Abandon => {
                self.jj_abandon(sel);
                Effect::Handled
            },
            Message::AbandonRestoreDescendants => {
                self.jj_abandon_restore_descendants(sel);
                Effect::Handled
            },
            Message::AbandonRetainBookmarks => {
                self.jj_abandon_retain_bookmarks(sel);
                Effect::Handled
            },
            Message::Absorb => {
                self.jj_absorb(sel);
                Effect::Handled
            },
            Message::AbsorbInto => {
                self.jj_absorb_into(sel);
                Effect::Handled
            },
            Message::BookmarkCreate => {
                self.jj_bookmark_create(sel, text);
                Effect::Handled
            },
            Message::BookmarkDelete => {
                self.jj_bookmark_delete(text);
                Effect::Handled
            },
            Message::BookmarkForget => {
                self.jj_bookmark_forget(text);
                Effect::Handled
            },
            Message::BookmarkForgetIncludeRemotes => {
                self.jj_bookmark_forget_include_remotes(text);
                Effect::Handled
            },
            Message::BookmarkMove => {
                self.jj_bookmark_move(sel);
                Effect::Handled
            },
            Message::BookmarkMoveAllowBackwards => {
                self.jj_bookmark_move_allow_backwards(sel);
                Effect::Handled
            },
            Message::BookmarkMoveTug => {
                self.jj_bookmark_move_tug(sel);
                Effect::Handled
            },
            Message::BookmarkRename => {
                self.jj_bookmark_rename(text, second_text);
                Effect::Handled
            },
            Message::BookmarkSet => {
                self.jj_bookmark_set(sel, text);
                Effect::Handled
            },
            Message::BookmarkTrack => {
                self.jj_bookmark_track(text);
                Effect::Handled
            },
            Message::BookmarkUntrack => {
                self.jj_bookmark_untrack(text);
                Effect::Handled
            },
            Message::Commit => {
                self.jj_commit(sel);
                Effect::Handled
            },
            Message::Describe => {
                self.jj_describe(sel);
                Effect::Handled
            },
            Message::Duplicate => {
                self.jj_duplicate(sel);
                Effect::Handled
            },
            Message::DuplicateInsertAfter => {
                self.jj_duplicate_insert_after(sel);
                Effect::Handled
            },
            Message::DuplicateInsertBefore => {
                self.jj_duplicate_insert_before(sel);
                Effect::Handled
            },
            Message::DuplicateOnto => {
                self.jj_duplicate_onto(sel);
                Effect::Handled
            },
            Message::Edit => {
                self.jj_edit(sel);
                Effect::Handled
            },
            Message::Evolog => {
                self.jj_evolog(sel);
                Effect::Handled
            },
            Message::EvologPatch => {
                self.jj_evolog_patch(sel);
                Effect::Handled
            },
            Message::FileTrack => {
                self.jj_file_track(text);
                Effect::Handled
            },
            Message::FileUntrack => {
                self.jj_file_untrack(sel);
                Effect::Handled
            },
            Message::GitFetch => {
                self.jj_fetch();
                Effect::Handled
            },
            Message::GitFetchAllRemotes => {
                self.jj_fetch_all_remotes();
                Effect::Handled
            },
            Message::GitFetchBranch => {
                self.jj_fetch_branch(text);
                Effect::Handled
            },
            Message::GitFetchRemote => {
                self.jj_fetch_remote(text);
                Effect::Handled
            },
            Message::GitFetchTracked => {
                self.jj_fetch_tracked();
                Effect::Handled
            },
            Message::GitPush => {
                self.jj_push();
                Effect::Handled
            },
            Message::GitPushAll => {
                self.jj_push_all();
                Effect::Handled
            },
            Message::GitPushBookmark => {
                self.jj_push_bookmark(text);
                Effect::Handled
            },
            Message::GitPushChange => {
                self.jj_push_change(sel);
                Effect::Handled
            },
            Message::GitPushDeleted => {
                self.jj_push_deleted();
                Effect::Handled
            },
            Message::GitPushNamed => {
                self.jj_push_named(sel, text);
                Effect::Handled
            },
            Message::GitPushRevision => {
                self.jj_push_revision(sel);
                Effect::Handled
            },
            Message::GitPushTracked => {
                self.jj_push_tracked();
                Effect::Handled
            },
            Message::InterdiffFromSelection => {
                self.jj_interdiff_from_selection(sel);
                Effect::Handled
            },
            Message::InterdiffFromSelectionToDestination => {
                self.jj_interdiff_from_selection_to_destination(sel);
                Effect::Handled
            },
            Message::InterdiffToSelection => {
                self.jj_interdiff_to_selection(sel);
                Effect::Handled
            },
            Message::MetaeditForceRewrite => {
                self.jj_metaedit_force_rewrite(sel);
                Effect::Handled
            },
            Message::MetaeditSetAuthor => {
                self.jj_metaedit_set_author(sel, text);
                Effect::Handled
            },
            Message::MetaeditSetAuthorTimestamp => {
                self.jj_metaedit_set_author_timestamp(sel, text);
                Effect::Handled
            },
            Message::MetaeditUpdateAuthor => {
                self.jj_metaedit_update_author(sel);
                Effect::Handled
            },
            Message::MetaeditUpdateAuthorTimestamp => {
                self.jj_metaedit_update_author_timestamp(sel);
                Effect::Handled
            },
            Message::MetaeditUpdateChangeId => {
                self.jj_metaedit_update_change_id(sel);
                Effect::Handled
            },
            Message::Next => {
                self.jj_next();
                Effect::Handled
            },
            Message::NextConflict => {
                self.jj_next_conflict();
                Effect::Handled
            },
            Message::NextEdit => {
                self.jj_next_edit();
                Effect::Handled
            },
            Message::NextEditOffset => {
                self.jj_next_edit_offset(text);
                Effect::Handled
            },
            Message::NextNoEdit => {
                self.jj_next_no_edit();
                Effect::Handled
            },
            Message::NextNoEditOffset => {
                self.jj_next_no_edit_offset(text);
                Effect::Handled
            },
            Message::NextOffset => {
                self.jj_next_offset(text);
                Effect::Handled
            },
            Message::New => {
                self.jj_new(sel);
                Effect::Handled
            },
            Message::NewAfterTrunk => {
                self.jj_new_after_trunk();
                Effect::Handled
            },
            Message::NewAfterTrunkSync => {
                self.jj_new_after_trunk_sync();
                Effect::Handled
            },
            Message::NewBefore => {
                self.jj_new_before(sel);
                Effect::Handled
            },
            Message::NewInsertAfter => {
                self.jj_new_insert_after(sel);
                Effect::Handled
            },
            Message::Parallelize => {
                self.jj_parallelize(sel);
                Effect::Handled
            },
            Message::ParallelizeRange => {
                self.jj_parallelize_range(sel);
                Effect::Handled
            },
            Message::ParallelizeRevset => {
                self.jj_parallelize_revset(text);
                Effect::Handled
            },
            Message::Prev => {
                self.jj_prev();
                Effect::Handled
            },
            Message::PrevConflict => {
                self.jj_prev_conflict();
                Effect::Handled
            },
            Message::PrevEdit => {
                self.jj_prev_edit();
                Effect::Handled
            },
            Message::PrevEditOffset => {
                self.jj_prev_edit_offset(text);
                Effect::Handled
            },
            Message::PrevNoEdit => {
                self.jj_prev_no_edit();
                Effect::Handled
            },
            Message::PrevNoEditOffset => {
                self.jj_prev_no_edit_offset(text);
                Effect::Handled
            },
            Message::PrevOffset => {
                self.jj_prev_offset(text);
                Effect::Handled
            },
            Message::RebaseAfterDestination => {
                self.jj_rebase_after_destination(sel);
                Effect::Handled
            },
            Message::RebaseAfterDestinationNoDescendants => {
                self.jj_rebase_after_destination_no_descendants(sel);
                Effect::Handled
            },
            Message::RebaseBeforeDestination => {
                self.jj_rebase_before_destination(sel);
                Effect::Handled
            },
            Message::RebaseBeforeDestinationNoDescendants => {
                self.jj_rebase_before_destination_no_descendants(sel);
                Effect::Handled
            },
            Message::RebaseBranchOntoDestination => {
                self.jj_rebase_branch_onto_destination(sel);
                Effect::Handled
            },
            Message::RebaseBranchOntoTrunk => {
                self.jj_rebase_branch_onto_trunk(sel);
                Effect::Handled
            },
            Message::RebaseOntoDestination => {
                self.jj_rebase_onto_destination(sel);
                Effect::Handled
            },
            Message::RebaseOntoDestinationNoDescendants => {
                self.jj_rebase_onto_destination_no_descendants(sel);
                Effect::Handled
            },
            Message::RebaseOntoTrunk => {
                self.jj_rebase_onto_trunk(sel);
                Effect::Handled
            },
            Message::Redo => {
                self.jj_redo();
                Effect::Handled
            },
            Message::Restore => {
                self.jj_restore(sel);
                Effect::Handled
            },
            Message::Revert => {
                self.jj_revert(sel);
                Effect::Handled
            },
            Message::RevertInsertAfter => {
                self.jj_revert_insert_after(sel);
                Effect::Handled
            },
            Message::RevertInsertBefore => {
                self.jj_revert_insert_before(sel);
                Effect::Handled
            },
            Message::RevertOntoDestination => {
                self.jj_revert_onto_destination(sel);
                Effect::Handled
            },
            Message::RestoreFrom => {
                self.jj_restore_from(sel);
                Effect::Handled
            },
            Message::RestoreFromInto => {
                self.jj_restore_from_into(sel);
                Effect::Handled
            },
            Message::RestoreInto => {
                self.jj_restore_into(sel);
                Effect::Handled
            },
            Message::RestoreRestoreDescendants => {
                self.jj_restore_restore_descendants(sel);
                Effect::Handled
            },
            Message::View => {
                self.jj_view(sel);
                Effect::Handled
            },
            Message::Sign => {
                self.jj_sign(sel);
                Effect::Handled
            },
            Message::SignRange => {
                self.jj_sign_range(sel);
                Effect::Handled
            },
            Message::SimplifyParents => {
                self.jj_simplify_parents(sel);
                Effect::Handled
            },
            Message::SimplifyParentsSource => {
                self.jj_simplify_parents_source(sel);
                Effect::Handled
            },
            Message::Squash => {
                self.jj_squash(sel);
                Effect::Handled
            },
            Message::SquashInto => {
                self.jj_squash_into(sel);
                Effect::Handled
            },
            Message::Status => {
                self.jj_status();
                Effect::Handled
            },
            Message::Undo => {
                self.jj_undo();
                Effect::Handled
            },
            Message::Unsign => {
                self.jj_unsign(sel);
                Effect::Handled
            },
            Message::UnsignRange => {
                self.jj_unsign_range(sel);
                Effect::Handled
            },
            Message::ViewFromSelection => {
                self.jj_view_from_selection(sel);
                Effect::Handled
            },
            Message::ViewFromSelectionToDestination => {
                self.jj_view_from_selection_to_destination(sel);
                Effect::Handled
            },
            Message::ViewToSelection => {
                self.jj_view_to_selection(sel);
                Effect::Handled
            },
        }
    }
}

} // verus!

//! The closed set of intents that drive the application state machine.
use vstd::prelude::*;

verus! {

/// A resolved intent: navigation, meta, or one external-action family.
/// External actions carry no operands; those are read at dispatch time.
#[derive(Debug, Clone, Copy, PartialEq, Eq, Structural)]
pub enum Message {
    Abandon,
    AbandonRestoreDescendants,
    AbandonRetainBookmarks,
    Absorb,
    AbsorbInto,
    BookmarkCreate,
    BookmarkDelete,
    BookmarkForget,
    BookmarkForgetIncludeRemotes,
    BookmarkMove,
    BookmarkMoveAllowBackwards,
    BookmarkMoveTug,
    BookmarkRename,
    BookmarkSet,
    BookmarkTrack,
    BookmarkUntrack,
    Clear,
    Commit,
    Describe,
    Duplicate,
    DuplicateInsertAfter,
    DuplicateInsertBefore,
    DuplicateOnto,
    Edit,
    Evolog,
    EvologPatch,
    FileTrack,
    FileUntrack,
    GitFetch,
    GitFetchAllRemotes,
    GitFetchBranch,
    GitFetchRemote,
    GitFetchTracked,
    GitPush,
    GitPushAll,
    GitPushBookmark,
    GitPushChange,
    GitPushDeleted,
    GitPushNamed,
    GitPushRevision,
    GitPushTracked,
    InterdiffFromSelection,
    InterdiffFromSelectionToDestination,
    InterdiffToSelection,
    LeftMouseClick { row: u16, column: u16 },
    MetaeditForceRewrite,
    MetaeditSetAuthor,
    MetaeditSetAuthorTimestamp,
    MetaeditUpdateAuthor,
    MetaeditUpdateAuthorTimestamp,
    MetaeditUpdateChangeId,
    New,
    NewAfterTrunk,
    NewAfterTrunkSync,
    NewBefore,
    NewInsertAfter,
    Next,
    NextConflict,
    NextEdit,
    NextEditOffset,
    NextNoEdit,
    NextNoEditOffset,
    NextOffset,
    Parallelize,
    ParallelizeRange,
    ParallelizeRevset,
    Prev,
    PrevConflict,
    PrevEdit,
    PrevEditOffset,
    PrevNoEdit,
    PrevNoEditOffset,
    PrevOffset,
    Quit,
    RebaseAfterDestination,
    RebaseAfterDestinationNoDescendants,
    RebaseBeforeDestination,
    RebaseBeforeDestinationNoDescendants,
    RebaseBranchOntoDestination,
    RebaseBranchOntoTrunk,
    RebaseOntoDestination,
    RebaseOntoDestinationNoDescendants,
    RebaseOntoTrunk,
    Redo,
    Refresh,
    Restore,
    RestoreFrom,
    RestoreFromInto,
    RestoreInto,
    RestoreRestoreDescendants,
    Revert,
    RevertInsertAfter,
    RevertInsertBefore,
    RevertOntoDestination,
    RightMouseClick { row: u16, column: u16 },
    SaveSelection,
    ScrollDown,
    ScrollDownPage,
    ScrollUp,
    ScrollUpPage,
    SelectCurrentWorkingCopy,
    SelectNextNode,
    SelectNextSiblingNode,
    SelectParentNode,
    SelectPrevNode,
    SelectPrevSiblingNode,
    SetRevset,
    ShowHelp,
    Sign,
    SignRange,
    SimplifyParents,
    SimplifyParentsSource,
    Squash,
    SquashInto,
    Status,
    ToggleIgnoreImmutable,
    ToggleLogListFold,
    Undo,
    Unsign,
    UnsignRange,
    View,
    ViewFromSelection,
    ViewFromSelectionToDestination,
    ViewToSelection,
}

} // verus!

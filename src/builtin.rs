//! The built-in chords: which key sequences open menus and which give
//! actions, and the tree registered from them.
use crate::command_tree::{
    child_of, fresh, registered, resolve_spec, tree_wf, walk, ChordResolution, CommandTree,
    CommandTreeNode, NodeView,
};
use crate::trie_proofs::{
    lemma_child_of_none, lemma_child_of_push, lemma_walk_kept, lemma_walk_new, lemma_walk_push,
    with_fresh_edge,
};
use crate::keys::Key;
use crate::message::Message;
use vstd::prelude::*;

verus! {

/// The number of built-in chords.
pub const NUM_CHORDS: usize = 154;

/// Built-in chord `j`, in increasing order of keys: its keys, its action
/// (none for a pure menu), and whether its node also opens a submenu.
pub open spec fn chord(j: int) -> (Seq<Key>, Option<Message>, bool) {
    if j == 0 {
        (seq![Key::Char('A')], None, true)
    } else if j == 1 {
        (seq![Key::Char('A'), Key::Char('a')], Some(Message::Absorb), false)
    } else if j == 2 {
        (seq![Key::Char('A'), Key::Char('i')], Some(Message::SaveSelection), true)
    } else if j == 3 {
        (seq![Key::Char('A'), Key::Char('i'), Key::Enter], Some(Message::AbsorbInto), false)
    } else if j == 4 {
        (seq![Key::Char('D')], None, true)
    } else if j == 5 {
        (seq![Key::Char('D'), Key::Char('a')], Some(Message::SaveSelection), true)
    } else if j == 6 {
        (seq![Key::Char('D'), Key::Char('a'), Key::Enter], Some(Message::DuplicateInsertAfter), false)
    } else if j == 7 {
        (seq![Key::Char('D'), Key::Char('b')], Some(Message::SaveSelection), true)
    } else if j == 8 {
        (seq![Key::Char('D'), Key::Char('b'), Key::Enter], Some(Message::DuplicateInsertBefore), false)
    } else if j == 9 {
        (seq![Key::Char('D'), Key::Char('d')], Some(Message::Duplicate), false)
    } else if j == 10 {
        (seq![Key::Char('D'), Key::Char('o')], Some(Message::SaveSelection), true)
    } else if j == 11 {
        (seq![Key::Char('D'), Key::Char('o'), Key::Enter], Some(Message::DuplicateOnto), false)
    } else if j == 12 {
        (seq![Key::Char('E')], None, true)
    } else if j == 13 {
        (seq![Key::Char('E'), Key::Char('E')], Some(Message::EvologPatch), false)
    } else if j == 14 {
        (seq![Key::Char('E'), Key::Char('e')], Some(Message::Evolog), false)
    } else if j == 15 {
        (seq![Key::Char('N')], None, true)
    } else if j == 16 {
        (seq![Key::Char('N'), Key::Char('E')], Some(Message::NextEditOffset), false)
    } else if j == 17 {
        (seq![Key::Char('N'), Key::Char('N')], Some(Message::NextOffset), false)
    } else if j == 18 {
        (seq![Key::Char('N'), Key::Char('X')], Some(Message::NextNoEditOffset), false)
    } else if j == 19 {
        (seq![Key::Char('N'), Key::Char('c')], Some(Message::NextConflict), false)
    } else if j == 20 {
        (seq![Key::Char('N'), Key::Char('e')], Some(Message::NextEdit), false)
    } else if j == 21 {
        (seq![Key::Char('N'), Key::Char('n')], Some(Message::Next), false)
    } else if j == 22 {
        (seq![Key::Char('N'), Key::Char('x')], Some(Message::NextNoEdit), false)
    } else if j == 23 {
        (seq![Key::Char('P')], None, true)
    } else if j == 24 {
        (seq![Key::Char('P'), Key::Char('E')], Some(Message::PrevEditOffset), false)
    } else if j == 25 {
        (seq![Key::Char('P'), Key::Char('P')], Some(Message::PrevOffset), false)
    } else if j == 26 {
        (seq![Key::Char('P'), Key::Char('X')], Some(Message::PrevNoEditOffset), false)
    } else if j == 27 {
        (seq![Key::Char('P'), Key::Char('c')], Some(Message::PrevConflict), false)
    } else if j == 28 {
        (seq![Key::Char('P'), Key::Char('e')], Some(Message::PrevEdit), false)
    } else if j == 29 {
        (seq![Key::Char('P'), Key::Char('p')], Some(Message::Prev), false)
    } else if j == 30 {
        (seq![Key::Char('P'), Key::Char('x')], Some(Message::PrevNoEdit), false)
    } else if j == 31 {
        (seq![Key::Char('R')], None, true)
    } else if j == 32 {
        (seq![Key::Char('R'), Key::Char('R')], Some(Message::SaveSelection), true)
    } else if j == 33 {
        (seq![Key::Char('R'), Key::Char('R'), Key::Enter], Some(Message::RestoreFromInto), false)
    } else if j == 34 {
        (seq![Key::Char('R'), Key::Char('d')], Some(Message::RestoreRestoreDescendants), false)
    } else if j == 35 {
        (seq![Key::Char('R'), Key::Char('f')], Some(Message::RestoreFrom), false)
    } else if j == 36 {
        (seq![Key::Char('R'), Key::Char('i')], Some(Message::RestoreInto), false)
    } else if j == 37 {
        (seq![Key::Char('R'), Key::Char('r')], Some(Message::Restore), false)
    } else if j == 38 {
        (seq![Key::Char('S')], None, true)
    } else if j == 39 {
        (seq![Key::Char('S'), Key::Char('S')], Some(Message::SaveSelection), true)
    } else if j == 40 {
        (seq![Key::Char('S'), Key::Char('S'), Key::Enter], Some(Message::SignRange), false)
    } else if j == 41 {
        (seq![Key::Char('S'), Key::Char('U')], Some(Message::SaveSelection), true)
    } else if j == 42 {
        (seq![Key::Char('S'), Key::Char('U'), Key::Enter], Some(Message::UnsignRange), false)
    } else if j == 43 {
        (seq![Key::Char('S'), Key::Char('s')], Some(Message::Sign), false)
    } else if j == 44 {
        (seq![Key::Char('S'), Key::Char('u')], Some(Message::Unsign), false)
    } else if j == 45 {
        (seq![Key::Char('V')], None, true)
    } else if j == 46 {
        (seq![Key::Char('V'), Key::Char('a')], Some(Message::SaveSelection), true)
    } else if j == 47 {
        (seq![Key::Char('V'), Key::Char('a'), Key::Enter], Some(Message::RevertInsertAfter), false)
    } else if j == 48 {
        (seq![Key::Char('V'), Key::Char('b')], Some(Message::SaveSelection), true)
    } else if j == 49 {
        (seq![Key::Char('V'), Key::Char('b'), Key::Enter], Some(Message::RevertInsertBefore), false)
    } else if j == 50 {
        (seq![Key::Char('V'), Key::Char('o')], Some(Message::SaveSelection), true)
    } else if j == 51 {
        (seq![Key::Char('V'), Key::Char('o'), Key::Enter], Some(Message::RevertOntoDestination), false)
    } else if j == 52 {
        (seq![Key::Char('V'), Key::Char('v')], Some(Message::Revert), false)
    } else if j == 53 {
        (seq![Key::Char('a')], None, true)
    } else if j == 54 {
        (seq![Key::Char('a'), Key::Char('a')], Some(Message::Abandon), false)
    } else if j == 55 {
        (seq![Key::Char('a'), Key::Char('b')], Some(Message::AbandonRetainBookmarks), false)
    } else if j == 56 {
        (seq![Key::Char('a'), Key::Char('d')], Some(Message::AbandonRestoreDescendants), false)
    } else if j == 57 {
        (seq![Key::Char('b')], None, true)
    } else if j == 58 {
        (seq![Key::Char('b'), Key::Char('F')], Some(Message::BookmarkForgetIncludeRemotes), false)
    } else if j == 59 {
        (seq![Key::Char('b'), Key::Char('c')], Some(Message::BookmarkCreate), false)
    } else if j == 60 {
        (seq![Key::Char('b'), Key::Char('d')], Some(Message::BookmarkDelete), false)
    } else if j == 61 {
        (seq![Key::Char('b'), Key::Char('f')], Some(Message::BookmarkForget), false)
    } else if j == 62 {
        (seq![Key::Char('b'), Key::Char('m')], None, true)
    } else if j == 63 {
        (seq![Key::Char('b'), Key::Char('m'), Key::Char('M')], Some(Message::SaveSelection), true)
    } else if j == 64 {
        (seq![Key::Char('b'), Key::Char('m'), Key::Char('M'), Key::Enter], Some(Message::BookmarkMoveAllowBackwards), false)
    } else if j == 65 {
        (seq![Key::Char('b'), Key::Char('m'), Key::Char('m')], Some(Message::SaveSelection), true)
    } else if j == 66 {
        (seq![Key::Char('b'), Key::Char('m'), Key::Char('m'), Key::Enter], Some(Message::BookmarkMove), false)
    } else if j == 67 {
        (seq![Key::Char('b'), Key::Char('m'), Key::Char('t')], Some(Message::BookmarkMoveTug), false)
    } else if j == 68 {
        (seq![Key::Char('b'), Key::Char('r')], Some(Message::BookmarkRename), false)
    } else if j == 69 {
        (seq![Key::Char('b'), Key::Char('s')], Some(Message::BookmarkSet), false)
    } else if j == 70 {
        (seq![Key::Char('b'), Key::Char('t')], Some(Message::BookmarkTrack), false)
    } else if j == 71 {
        (seq![Key::Char('b'), Key::Char('u')], Some(Message::BookmarkUntrack), false)
    } else if j == 72 {
        (seq![Key::Char('c')], None, true)
    } else if j == 73 {
        (seq![Key::Char('c'), Key::Char('c')], Some(Message::Commit), false)
    } else if j == 74 {
        (seq![Key::Char('d')], None, true)
    } else if j == 75 {
        (seq![Key::Char('d'), Key::Char('d')], Some(Message::Describe), false)
    } else if j == 76 {
        (seq![Key::Char('e')], None, true)
    } else if j == 77 {
        (seq![Key::Char('e'), Key::Char('e')], Some(Message::Edit), false)
    } else if j == 78 {
        (seq![Key::Char('f')], None, true)
    } else if j == 79 {
        (seq![Key::Char('f'), Key::Char('t')], Some(Message::FileTrack), false)
    } else if j == 80 {
        (seq![Key::Char('f'), Key::Char('u')], Some(Message::FileUntrack), false)
    } else if j == 81 {
        (seq![Key::Char('g')], None, true)
    } else if j == 82 {
        (seq![Key::Char('g'), Key::Char('f')], None, true)
    } else if j == 83 {
        (seq![Key::Char('g'), Key::Char('f'), Key::Char('a')], Some(Message::GitFetchAllRemotes), false)
    } else if j == 84 {
        (seq![Key::Char('g'), Key::Char('f'), Key::Char('b')], Some(Message::GitFetchBranch), false)
    } else if j == 85 {
        (seq![Key::Char('g'), Key::Char('f'), Key::Char('f')], Some(Message::GitFetch), false)
    } else if j == 86 {
        (seq![Key::Char('g'), Key::Char('f'), Key::Char('r')], Some(Message::GitFetchRemote), false)
    } else if j == 87 {
        (seq![Key::Char('g'), Key::Char('f'), Key::Char('t')], Some(Message::GitFetchTracked), false)
    } else if j == 88 {
        (seq![Key::Char('g'), Key::Char('p')], None, true)
    } else if j == 89 {
        (seq![Key::Char('g'), Key::Char('p'), Key::Char('a')], Some(Message::GitPushAll), false)
    } else if j == 90 {
        (seq![Key::Char('g'), Key::Char('p'), Key::Char('b')], Some(Message::GitPushBookmark), false)
    } else if j == 91 {
        (seq![Key::Char('g'), Key::Char('p'), Key::Char('c')], Some(Message::GitPushChange), false)
    } else if j == 92 {
        (seq![Key::Char('g'), Key::Char('p'), Key::Char('d')], Some(Message::GitPushDeleted), false)
    } else if j == 93 {
        (seq![Key::Char('g'), Key::Char('p'), Key::Char('n')], Some(Message::GitPushNamed), false)
    } else if j == 94 {
        (seq![Key::Char('g'), Key::Char('p'), Key::Char('p')], Some(Message::GitPush), false)
    } else if j == 95 {
        (seq![Key::Char('g'), Key::Char('p'), Key::Char('r')], Some(Message::GitPushRevision), false)
    } else if j == 96 {
        (seq![Key::Char('g'), Key::Char('p'), Key::Char('t')], Some(Message::GitPushTracked), false)
    } else if j == 97 {
        (seq![Key::Char('i')], None, true)
    } else if j == 98 {
        (seq![Key::Char('i'), Key::Char('f')], Some(Message::InterdiffFromSelection), false)
    } else if j == 99 {
        (seq![Key::Char('i'), Key::Char('i')], Some(Message::SaveSelection), true)
    } else if j == 100 {
        (seq![Key::Char('i'), Key::Char('i'), Key::Enter], Some(Message::InterdiffFromSelectionToDestination), false)
    } else if j == 101 {
        (seq![Key::Char('i'), Key::Char('t')], Some(Message::InterdiffToSelection), false)
    } else if j == 102 {
        (seq![Key::Char('m')], None, true)
    } else if j == 103 {
        (seq![Key::Char('m'), Key::Char('A')], Some(Message::MetaeditSetAuthor), false)
    } else if j == 104 {
        (seq![Key::Char('m'), Key::Char('T')], Some(Message::MetaeditSetAuthorTimestamp), false)
    } else if j == 105 {
        (seq![Key::Char('m'), Key::Char('a')], Some(Message::MetaeditUpdateAuthor), false)
    } else if j == 106 {
        (seq![Key::Char('m'), Key::Char('c')], Some(Message::MetaeditUpdateChangeId), false)
    } else if j == 107 {
        (seq![Key::Char('m'), Key::Char('r')], Some(Message::MetaeditForceRewrite), false)
    } else if j == 108 {
        (seq![Key::Char('m'), Key::Char('t')], Some(Message::MetaeditUpdateAuthorTimestamp), false)
    } else if j == 109 {
        (seq![Key::Char('n')], None, true)
    } else if j == 110 {
        (seq![Key::Char('n'), Key::Char('M')], Some(Message::NewAfterTrunkSync), false)
    } else if j == 111 {
        (seq![Key::Char('n'), Key::Char('a')], Some(Message::NewInsertAfter), false)
    } else if j == 112 {
        (seq![Key::Char('n'), Key::Char('b')], Some(Message::NewBefore), false)
    } else if j == 113 {
        (seq![Key::Char('n'), Key::Char('m')], Some(Message::NewAfterTrunk), false)
    } else if j == 114 {
        (seq![Key::Char('n'), Key::Char('n')], Some(Message::New), false)
    } else if j == 115 {
        (seq![Key::Char('p')], None, true)
    } else if j == 116 {
        (seq![Key::Char('p'), Key::Char('P')], Some(Message::SaveSelection), true)
    } else if j == 117 {
        (seq![Key::Char('p'), Key::Char('P'), Key::Enter], Some(Message::ParallelizeRange), false)
    } else if j == 118 {
        (seq![Key::Char('p'), Key::Char('p')], Some(Message::Parallelize), false)
    } else if j == 119 {
        (seq![Key::Char('p'), Key::Char('r')], Some(Message::ParallelizeRevset), false)
    } else if j == 120 {
        (seq![Key::Char('r')], None, true)
    } else if j == 121 {
        (seq![Key::Char('r'), Key::Char('A')], Some(Message::SaveSelection), true)
    } else if j == 122 {
        (seq![Key::Char('r'), Key::Char('A'), Key::Enter], Some(Message::RebaseAfterDestinationNoDescendants), false)
    } else if j == 123 {
        (seq![Key::Char('r'), Key::Char('B')], Some(Message::SaveSelection), true)
    } else if j == 124 {
        (seq![Key::Char('r'), Key::Char('B'), Key::Enter], Some(Message::RebaseBeforeDestinationNoDescendants), false)
    } else if j == 125 {
        (seq![Key::Char('r'), Key::Char('M')], Some(Message::RebaseBranchOntoTrunk), false)
    } else if j == 126 {
        (seq![Key::Char('r'), Key::Char('O')], Some(Message::SaveSelection), true)
    } else if j == 127 {
        (seq![Key::Char('r'), Key::Char('O'), Key::Enter], Some(Message::RebaseBranchOntoDestination), false)
    } else if j == 128 {
        (seq![Key::Char('r'), Key::Char('a')], Some(Message::SaveSelection), true)
    } else if j == 129 {
        (seq![Key::Char('r'), Key::Char('a'), Key::Enter], Some(Message::RebaseAfterDestination), false)
    } else if j == 130 {
        (seq![Key::Char('r'), Key::Char('b')], Some(Message::SaveSelection), true)
    } else if j == 131 {
        (seq![Key::Char('r'), Key::Char('b'), Key::Enter], Some(Message::RebaseBeforeDestination), false)
    } else if j == 132 {
        (seq![Key::Char('r'), Key::Char('m')], Some(Message::RebaseOntoTrunk), false)
    } else if j == 133 {
        (seq![Key::Char('r'), Key::Char('o')], Some(Message::SaveSelection), true)
    } else if j == 134 {
        (seq![Key::Char('r'), Key::Char('o'), Key::Enter], Some(Message::RebaseOntoDestination), false)
    } else if j == 135 {
        (seq![Key::Char('r'), Key::Char('r')], Some(Message::SaveSelection), true)
    } else if j == 136 {
        (seq![Key::Char('r'), Key::Char('r'), Key::Enter], Some(Message::RebaseOntoDestinationNoDescendants), false)
    } else if j == 137 {
        (seq![Key::Char('s')], None, true)
    } else if j == 138 {
        (seq![Key::Char('s'), Key::Char('i')], Some(Message::SaveSelection), true)
    } else if j == 139 {
        (seq![Key::Char('s'), Key::Char('i'), Key::Enter], Some(Message::SquashInto), false)
    } else if j == 140 {
        (seq![Key::Char('s'), Key::Char('s')], Some(Message::Squash), false)
    } else if j == 141 {
        (seq![Key::Char('t')], Some(Message::Status), false)
    } else if j == 142 {
        (seq![Key::Char('u')], None, true)
    } else if j == 143 {
        (seq![Key::Char('u'), Key::Char('r')], Some(Message::Redo), false)
    } else if j == 144 {
        (seq![Key::Char('u'), Key::Char('u')], Some(Message::Undo), false)
    } else if j == 145 {
        (seq![Key::Char('v')], None, true)
    } else if j == 146 {
        (seq![Key::Char('v'), Key::Char('V')], Some(Message::SaveSelection), true)
    } else if j == 147 {
        (seq![Key::Char('v'), Key::Char('V'), Key::Enter], Some(Message::ViewFromSelectionToDestination), false)
    } else if j == 148 {
        (seq![Key::Char('v'), Key::Char('f')], Some(Message::ViewFromSelection), false)
    } else if j == 149 {
        (seq![Key::Char('v'), Key::Char('t')], Some(Message::ViewToSelection), false)
    } else if j == 150 {
        (seq![Key::Char('v'), Key::Char('v')], Some(Message::View), false)
    } else if j == 151 {
        (seq![Key::Char('y')], None, true)
    } else if j == 152 {
        (seq![Key::Char('y'), Key::Char('Y')], Some(Message::SimplifyParentsSource), false)
    } else if j == 153 {
        (seq![Key::Char('y'), Key::Char('y')], Some(Message::SimplifyParents), false)
    } else {
        (seq![], None, false)
    }
}

/// The chord whose keys are chord `j`'s without the last one; -1 for a
/// chord of one key.
pub open spec fn chord_parent(j: int) -> int {
    if j == 0 {
        -1
    } else if j == 1 {
        0
    } else if j == 2 {
        0
    } else if j == 3 {
        2
    } else if j == 4 {
        -1
    } else if j == 5 {
        4
    } else if j == 6 {
        5
    } else if j == 7 {
        4
    } else if j == 8 {
        7
    } else if j == 9 {
        4
    } else if j == 10 {
        4
    } else if j == 11 {
        10
    } else if j == 12 {
        -1
    } else if j == 13 {
        12
    } else if j == 14 {
        12
    } else if j == 15 {
        -1
    } else if j == 16 {
        15
    } else if j == 17 {
        15
    } else if j == 18 {
        15
    } else if j == 19 {
        15
    } else if j == 20 {
        15
    } else if j == 21 {
        15
    } else if j == 22 {
        15
    } else if j == 23 {
        -1
    } else if j == 24 {
        23
    } else if j == 25 {
        23
    } else if j == 26 {
        23
    } else if j == 27 {
        23
    } else if j == 28 {
        23
    } else if j == 29 {
        23
    } else if j == 30 {
        23
    } else if j == 31 {
        -1
    } else if j == 32 {
        31
    } else if j == 33 {
        32
    } else if j == 34 {
        31
    } else if j == 35 {
        31
    } else if j == 36 {
        31
    } else if j == 37 {
        31
    } else if j == 38 {
        -1
    } else if j == 39 {
        38
    } else if j == 40 {
        39
    } else if j == 41 {
        38
    } else if j == 42 {
        41
    } else if j == 43 {
        38
    } else if j == 44 {
        38
    } else if j == 45 {
        -1
    } else if j == 46 {
        45
    } else if j == 47 {
        46
    } else if j == 48 {
        45
    } else if j == 49 {
        48
    } else if j == 50 {
        45
    } else if j == 51 {
        50
    } else if j == 52 {
        45
    } else if j == 53 {
        -1
    } else if j == 54 {
        53
    } else if j == 55 {
        53
    } else if j == 56 {
        53
    } else if j == 57 {
        -1
    } else if j == 58 {
        57
    } else if j == 59 {
        57
    } else if j == 60 {
        57
    } else if j == 61 {
        57
    } else if j == 62 {
        57
    } else if j == 63 {
        62
    } else if j == 64 {
        63
    } else if j == 65 {
        62
    } else if j == 66 {
        65
    } else if j == 67 {
        62
    } else if j == 68 {
        57
    } else if j == 69 {
        57
    } else if j == 70 {
        57
    } else if j == 71 {
        57
    } else if j == 72 {
        -1
    } else if j == 73 {
        72
    } else if j == 74 {
        -1
    } else if j == 75 {
        74
    } else if j == 76 {
        -1
    } else if j == 77 {
        76
    } else if j == 78 {
        -1
    } else if j == 79 {
        78
    } else if j == 80 {
        78
    } else if j == 81 {
        -1
    } else if j == 82 {
        81
    } else if j == 83 {
        82
    } else if j == 84 {
        82
    } else if j == 85 {
        82
    } else if j == 86 {
        82
    } else if j == 87 {
        82
    } else if j == 88 {
        81
    } else if j == 89 {
        88
    } else if j == 90 {
        88
    } else if j == 91 {
        88
    } else if j == 92 {
        88
    } else if j == 93 {
        88
    } else if j == 94 {
        88
    } else if j == 95 {
        88
    } else if j == 96 {
        88
    } else if j == 97 {
        -1
    } else if j == 98 {
        97
    } else if j == 99 {
        97
    } else if j == 100 {
        99
    } else if j == 101 {
        97
    } else if j == 102 {
        -1
    } else if j == 103 {
        102
    } else if j == 104 {
        102
    } else if j == 105 {
        102
    } else if j == 106 {
        102
    } else if j == 107 {
        102
    } else if j == 108 {
        102
    } else if j == 109 {
        -1
    } else if j == 110 {
        109
    } else if j == 111 {
        109
    } else if j == 112 {
        109
    } else if j == 113 {
        109
    } else if j == 114 {
        109
    } else if j == 115 {
        -1
    } else if j == 116 {
        115
    } else if j == 117 {
        116
    } else if j == 118 {
        115
    } else if j == 119 {
        115
    } else if j == 120 {
        -1
    } else if j == 121 {
        120
    } else if j == 122 {
        121
    } else if j == 123 {
        120
    } else if j == 124 {
        123
    } else if j == 125 {
        120
    } else if j == 126 {
        120
    } else if j == 127 {
        126
    } else if j == 128 {
        120
    } else if j == 129 {
        128
    } else if j == 130 {
        120
    } else if j == 131 {
        130
    } else if j == 132 {
        120
    } else if j == 133 {
        120
    } else if j == 134 {
        133
    } else if j == 135 {
        120
    } else if j == 136 {
        135
    } else if j == 137 {
        -1
    } else if j == 138 {
        137
    } else if j == 139 {
        138
    } else if j == 140 {
        137
    } else if j == 141 {
        -1
    } else if j == 142 {
        -1
    } else if j == 143 {
        142
    } else if j == 144 {
        142
    } else if j == 145 {
        -1
    } else if j == 146 {
        145
    } else if j == 147 {
        146
    } else if j == 148 {
        145
    } else if j == 149 {
        145
    } else if j == 150 {
        145
    } else if j == 151 {
        -1
    } else if j == 152 {
        151
    } else if j == 153 {
        151
    } else {
        -1
    }
}

/// All built-in chords, in order.
pub open spec fn builtin_chords() -> Seq<(Seq<Key>, Option<Message>, bool)> {
    Seq::new(NUM_CHORDS as nat, |j: int| chord(j))
}

/// What built-in chord `i` resolves to: its node is the `i + 1`-th of the tree.
pub open spec fn expected_resolution(i: int) -> ChordResolution {
    match chord(i).1 {
        Some(m) => ChordResolution::Action { message: m, node: (i + 1) as usize, has_children: chord(i).2 },
        None => ChordResolution::Menu((i + 1) as usize),
    }
}

/// The tree that the built-in chords make: each chord resolves as listed,
/// no other key sequence reaches a node, registered paths are at most four
/// keys long, and every node reached has an action or children.
pub open spec fn builtin_tree(t: Seq<NodeView>) -> bool {
    &&& tree_wf(t)
    &&& forall|i: int|
        0 <= i < NUM_CHORDS ==> resolve_spec(t, #[trigger] chord(i).0) == expected_resolution(i)
    &&& forall|q: Seq<Key>|
        #[trigger] registered(t, q) ==> q.len() == 0 || exists|i: int|
            0 <= i < NUM_CHORDS && q == chord(i).0
    &&& forall|q: Seq<Key>| registered(t, q) ==> q.len() <= 4
    &&& forall|q: Seq<Key>| #[trigger] node_ok_at(t, q)
}

/// The node that `q` reaches, if any, has an action or children.
pub open spec fn node_ok_at(t: Seq<NodeView>, q: Seq<Key>) -> bool {
    match walk(t, 0, q) {
        Some(n) => t[n].action is Some || t[n].edges is Some,
        None => true,
    }
}

/// The node that `q` reaches, if any, is the root (for no keys) or the node
/// of the chord with exactly these keys, one of the first `j`.
pub open spec fn complete_at(t: Seq<NodeView>, j: int, q: Seq<Key>) -> bool {
    match walk(t, 0, q) {
        Some(n) => (n == 0 && q.len() == 0) || (1 <= n <= j && q == chord(n - 1).0),
        None => true,
    }
}

/// An order on keys: characters by code point, other keys after them.
pub open spec fn key_code(k: Key) -> int {
    match k {
        Key::Char(c) => c as int,
        Key::Backspace => 0x110000,
        Key::Enter => 0x110001,
        Key::Left => 0x110002,
        Key::Right => 0x110003,
        Key::Up => 0x110004,
        Key::Down => 0x110005,
        Key::Home => 0x110006,
        Key::End => 0x110007,
        Key::PageUp => 0x110008,
        Key::PageDown => 0x110009,
        Key::Tab => 0x11000a,
        Key::BackTab => 0x11000b,
        Key::Delete => 0x11000c,
        Key::Insert => 0x11000d,
        Key::Null => 0x11000e,
        Key::Esc => 0x11000f,
    }
}

/// Strict lexicographic order on key sequences.
pub open spec fn lex_lt(a: Seq<Key>, b: Seq<Key>) -> bool
    decreases a.len(),
{
    if b.len() == 0 {
        false
    } else if a.len() == 0 {
        true
    } else if key_code(a[0]) < key_code(b[0]) {
        true
    } else if key_code(a[0]) > key_code(b[0]) {
        false
    } else {
        lex_lt(a.drop_first(), b.drop_first())
    }
}

proof fn lemma_key_code_injective(a: Key, b: Key)
    ensures
        key_code(a) == key_code(b) ==> a == b,
{
}

proof fn lemma_lex_irreflexive(a: Seq<Key>)
    ensures
        !lex_lt(a, a),
    decreases a.len(),
{
    if a.len() > 0 {
        lemma_lex_irreflexive(a.drop_first());
    }
}

proof fn lemma_lex_trans(a: Seq<Key>, b: Seq<Key>, c: Seq<Key>)
    requires
        lex_lt(a, b),
        lex_lt(b, c),
    ensures
        lex_lt(a, c),
    decreases a.len(),
{
    if a.len() > 0 && b.len() > 0 && c.len() > 0 {
        if key_code(a[0]) == key_code(b[0]) && key_code(b[0]) == key_code(c[0]) {
            lemma_lex_trans(a.drop_first(), b.drop_first(), c.drop_first());
        }
    }
}

/// Chord `j` is one to four keys long, has an action or children, and the
/// chord of its prefix comes earlier and is a menu.
pub open spec fn chord_ok(j: int) -> bool {
    let path = chord(j).0;
    let pi = chord_parent(j);
    &&& 1 <= path.len() <= 4
    &&& (chord(j).2 || chord(j).1 is Some)
    &&& -1 <= pi < j
    &&& pi == -1 ==> path.len() == 1
    &&& pi >= 0 ==> chord(pi).0 == path.drop_last() && chord(pi).2
}

proof fn lemma_chord_facts_0(j: int)
    requires
        0 <= j < 20,
    ensures
        chord_ok(j),
        j + 1 < NUM_CHORDS ==> lex_lt(chord(j).0, chord(j + 1).0),
{
    reveal_with_fuel(lex_lt, 6);
    if j == 0 {
            assert(lex_lt(chord(0).0, chord(1).0));
            assert(chord_ok(0));
        } else if j == 1 {
            assert(chord(1).0.drop_last() =~= chord(0).0);
            assert(lex_lt(chord(1).0, chord(2).0));
            assert(chord_ok(1));
        } else if j == 2 {
            assert(chord(2).0.drop_last() =~= chord(0).0);
            assert(lex_lt(chord(2).0, chord(3).0));
            assert(chord_ok(2));
        } else if j == 3 {
            assert(chord(3).0.drop_last() =~= chord(2).0);
            assert(lex_lt(chord(3).0, chord(4).0));
            assert(chord_ok(3));
        } else if j == 4 {
            assert(lex_lt(chord(4).0, chord(5).0));
            assert(chord_ok(4));
        } else if j == 5 {
            assert(chord(5).0.drop_last() =~= chord(4).0);
            assert(lex_lt(chord(5).0, chord(6).0));
            assert(chord_ok(5));
        } else if j == 6 {
            assert(chord(6).0.drop_last() =~= chord(5).0);
            assert(lex_lt(chord(6).0, chord(7).0));
            assert(chord_ok(6));
        } else if j == 7 {
            assert(chord(7).0.drop_last() =~= chord(4).0);
            assert(lex_lt(chord(7).0, chord(8).0));
            assert(chord_ok(7));
        } else if j == 8 {
            assert(chord(8).0.drop_last() =~= chord(7).0);
            assert(lex_lt(chord(8).0, chord(9).0));
            assert(chord_ok(8));
        } else if j == 9 {
            assert(chord(9).0.drop_last() =~= chord(4).0);
            assert(lex_lt(chord(9).0, chord(10).0));
            assert(chord_ok(9));
        } else if j == 10 {
            assert(chord(10).0.drop_last() =~= chord(4).0);
            assert(lex_lt(chord(10).0, chord(11).0));
            assert(chord_ok(10));
        } else if j == 11 {
            assert(chord(11).0.drop_last() =~= chord(10).0);
            assert(lex_lt(chord(11).0, chord(12).0));
            assert(chord_ok(11));
        } else if j == 12 {
            assert(lex_lt(chord(12).0, chord(13).0));
            assert(chord_ok(12));
        } else if j == 13 {
            assert(chord(13).0.drop_last() =~= chord(12).0);
            assert(lex_lt(chord(13).0, chord(14).0));
            assert(chord_ok(13));
        } else if j == 14 {
            assert(chord(14).0.drop_last() =~= chord(12).0);
            assert(lex_lt(chord(14).0, chord(15).0));
            assert(chord_ok(14));
        } else if j == 15 {
            assert(lex_lt(chord(15).0, chord(16).0));
            assert(chord_ok(15));
        } else if j == 16 {
            assert(chord(16).0.drop_last() =~= chord(15).0);
            assert(lex_lt(chord(16).0, chord(17).0));
            assert(chord_ok(16));
        } else if j == 17 {
            assert(chord(17).0.drop_last() =~= chord(15).0);
            assert(lex_lt(chord(17).0, chord(18).0));
            assert(chord_ok(17));
        } else if j == 18 {
            assert(chord(18).0.drop_last() =~= chord(15).0);
            assert(lex_lt(chord(18).0, chord(19).0));
            assert(chord_ok(18));
        } else if j == 19 {
            assert(chord(19).0.drop_last() =~= chord(15).0);
            assert(lex_lt(chord(19).0, chord(20).0));
            assert(chord_ok(19));
        }
}

proof fn lemma_chord_facts_20(j: int)
    requires
        20 <= j < 40,
    ensures
        chord_ok(j),
        j + 1 < NUM_CHORDS ==> lex_lt(chord(j).0, chord(j + 1).0),
{
    reveal_with_fuel(lex_lt, 6);
    if j == 20 {
            assert(chord(20).0.drop_last() =~= chord(15).0);
            assert(lex_lt(chord(20).0, chord(21).0));
            assert(chord_ok(20));
        } else if j == 21 {
            assert(chord(21).0.drop_last() =~= chord(15).0);
            assert(lex_lt(chord(21).0, chord(22).0));
            assert(chord_ok(21));
        } else if j == 22 {
            assert(chord(22).0.drop_last() =~= chord(15).0);
            assert(lex_lt(chord(22).0, chord(23).0));
            assert(chord_ok(22));
        } else if j == 23 {
            assert(lex_lt(chord(23).0, chord(24).0));
            assert(chord_ok(23));
        } else if j == 24 {
            assert(chord(24).0.drop_last() =~= chord(23).0);
            assert(lex_lt(chord(24).0, chord(25).0));
            assert(chord_ok(24));
        } else if j == 25 {
            assert(chord(25).0.drop_last() =~= chord(23).0);
            assert(lex_lt(chord(25).0, chord(26).0));
            assert(chord_ok(25));
        } else if j == 26 {
            assert(chord(26).0.drop_last() =~= chord(23).0);
            assert(lex_lt(chord(26).0, chord(27).0));
            assert(chord_ok(26));
        } else if j == 27 {
            assert(chord(27).0.drop_last() =~= chord(23).0);
            assert(lex_lt(chord(27).0, chord(28).0));
            assert(chord_ok(27));
        } else if j == 28 {
            assert(chord(28).0.drop_last() =~= chord(23).0);
            assert(lex_lt(chord(28).0, chord(29).0));
            assert(chord_ok(28));
        } else if j == 29 {
            assert(chord(29).0.drop_last() =~= chord(23).0);
            assert(lex_lt(chord(29).0, chord(30).0));
            assert(chord_ok(29));
        } else if j == 30 {
            assert(chord(30).0.drop_last() =~= chord(23).0);
            assert(lex_lt(chord(30).0, chord(31).0));
            assert(chord_ok(30));
        } else if j == 31 {
            assert(lex_lt(chord(31).0, chord(32).0));
            assert(chord_ok(31));
        } else if j == 32 {
            assert(chord(32).0.drop_last() =~= chord(31).0);
            assert(lex_lt(chord(32).0, chord(33).0));
            assert(chord_ok(32));
        } else if j == 33 {
            assert(chord(33).0.drop_last() =~= chord(32).0);
            assert(lex_lt(chord(33).0, chord(34).0));
            assert(chord_ok(33));
        } else if j == 34 {
            assert(chord(34).0.drop_last() =~= chord(31).0);
            assert(lex_lt(chord(34).0, chord(35).0));
            assert(chord_ok(34));
        } else if j == 35 {
            assert(chord(35).0.drop_last() =~= chord(31).0);
            assert(lex_lt(chord(35).0, chord(36).0));
            assert(chord_ok(35));
        } else if j == 36 {
            assert(chord(36).0.drop_last() =~= chord(31).0);
            assert(lex_lt(chord(36).0, chord(37).0));
            assert(chord_ok(36));
        } else if j == 37 {
            assert(chord(37).0.drop_last() =~= chord(31).0);
            assert(lex_lt(chord(37).0, chord(38).0));
            assert(chord_ok(37));
        } else if j == 38 {
            assert(lex_lt(chord(38).0, chord(39).0));
            assert(chord_ok(38));
        } else if j == 39 {
            assert(chord(39).0.drop_last() =~= chord(38).0);
            assert(lex_lt(chord(39).0, chord(40).0));
            assert(chord_ok(39));
        }
}

proof fn lemma_chord_facts_40(j: int)
    requires
        40 <= j < 60,
    ensures
        chord_ok(j),
        j + 1 < NUM_CHORDS ==> lex_lt(chord(j).0, chord(j + 1).0),
{
    reveal_with_fuel(lex_lt, 6);
    if j == 40 {
            assert(chord(40).0.drop_last() =~= chord(39).0);
            assert(lex_lt(chord(40).0, chord(41).0));
            assert(chord_ok(40));
        } else if j == 41 {
            assert(chord(41).0.drop_last() =~= chord(38).0);
            assert(lex_lt(chord(41).0, chord(42).0));
            assert(chord_ok(41));
        } else if j == 42 {
            assert(chord(42).0.drop_last() =~= chord(41).0);
            assert(lex_lt(chord(42).0, chord(43).0));
            assert(chord_ok(42));
        } else if j == 43 {
            assert(chord(43).0.drop_last() =~= chord(38).0);
            assert(lex_lt(chord(43).0, chord(44).0));
            assert(chord_ok(43));
        } else if j == 44 {
            assert(chord(44).0.drop_last() =~= chord(38).0);
            assert(lex_lt(chord(44).0, chord(45).0));
            assert(chord_ok(44));
        } else if j == 45 {
            assert(lex_lt(chord(45).0, chord(46).0));
            assert(chord_ok(45));
        } else if j == 46 {
            assert(chord(46).0.drop_last() =~= chord(45).0);
            assert(lex_lt(chord(46).0, chord(47).0));
            assert(chord_ok(46));
        } else if j == 47 {
            assert(chord(47).0.drop_last() =~= chord(46).0);
            assert(lex_lt(chord(47).0, chord(48).0));
            assert(chord_ok(47));
        } else if j == 48 {
            assert(chord(48).0.drop_last() =~= chord(45).0);
            assert(lex_lt(chord(48).0, chord(49).0));
            assert(chord_ok(48));
        } else if j == 49 {
            assert(chord(49).0.drop_last() =~= chord(48).0);
            assert(lex_lt(chord(49).0, chord(50).0));
            assert(chord_ok(49));
        } else if j == 50 {
            assert(chord(50).0.drop_last() =~= chord(45).0);
            assert(lex_lt(chord(50).0, chord(51).0));
            assert(chord_ok(50));
        } else if j == 51 {
            assert(chord(51).0.drop_last() =~= chord(50).0);
            assert(lex_lt(chord(51).0, chord(52).0));
            assert(chord_ok(51));
        } else if j == 52 {
            assert(chord(52).0.drop_last() =~= chord(45).0);
            assert(lex_lt(chord(52).0, chord(53).0));
            assert(chord_ok(52));
        } else if j == 53 {
            assert(lex_lt(chord(53).0, chord(54).0));
            assert(chord_ok(53));
        } else if j == 54 {
            assert(chord(54).0.drop_last() =~= chord(53).0);
            assert(lex_lt(chord(54).0, chord(55).0));
            assert(chord_ok(54));
        } else if j == 55 {
            assert(chord(55).0.drop_last() =~= chord(53).0);
            assert(lex_lt(chord(55).0, chord(56).0));
            assert(chord_ok(55));
        } else if j == 56 {
            assert(chord(56).0.drop_last() =~= chord(53).0);
            assert(lex_lt(chord(56).0, chord(57).0));
            assert(chord_ok(56));
        } else if j == 57 {
            assert(lex_lt(chord(57).0, chord(58).0));
            assert(chord_ok(57));
        } else if j == 58 {
            assert(chord(58).0.drop_last() =~= chord(57).0);
            assert(lex_lt(chord(58).0, chord(59).0));
            assert(chord_ok(58));
        } else if j == 59 {
            assert(chord(59).0.drop_last() =~= chord(57).0);
            assert(lex_lt(chord(59).0, chord(60).0));
            assert(chord_ok(59));
        }
}

proof fn lemma_chord_facts_60(j: int)
    requires
        60 <= j < 80,
    ensures
        chord_ok(j),
        j + 1 < NUM_CHORDS ==> lex_lt(chord(j).0, chord(j + 1).0),
{
    reveal_with_fuel(lex_lt, 6);
    if j == 60 {
            assert(chord(60).0.drop_last() =~= chord(57).0);
            assert(lex_lt(chord(60).0, chord(61).0));
            assert(chord_ok(60));
        } else if j == 61 {
            assert(chord(61).0.drop_last() =~= chord(57).0);
            assert(lex_lt(chord(61).0, chord(62).0));
            assert(chord_ok(61));
        } else if j == 62 {
            assert(chord(62).0.drop_last() =~= chord(57).0);
            assert(lex_lt(chord(62).0, chord(63).0));
            assert(chord_ok(62));
        } else if j == 63 {
            assert(chord(63).0.drop_last() =~= chord(62).0);
            assert(lex_lt(chord(63).0, chord(64).0));
            assert(chord_ok(63));
        } else if j == 64 {
            assert(chord(64).0.drop_last() =~= chord(63).0);
            assert(lex_lt(chord(64).0, chord(65).0));
            assert(chord_ok(64));
        } else if j == 65 {
            assert(chord(65).0.drop_last() =~= chord(62).0);
            assert(lex_lt(chord(65).0, chord(66).0));
            assert(chord_ok(65));
        } else if j == 66 {
            assert(chord(66).0.drop_last() =~= chord(65).0);
            assert(lex_lt(chord(66).0, chord(67).0));
            assert(chord_ok(66));
        } else if j == 67 {
            assert(chord(67).0.drop_last() =~= chord(62).0);
            assert(lex_lt(chord(67).0, chord(68).0));
            assert(chord_ok(67));
        } else if j == 68 {
            assert(chord(68).0.drop_last() =~= chord(57).0);
            assert(lex_lt(chord(68).0, chord(69).0));
            assert(chord_ok(68));
        } else if j == 69 {
            assert(chord(69).0.drop_last() =~= chord(57).0);
            assert(lex_lt(chord(69).0, chord(70).0));
            assert(chord_ok(69));
        } else if j == 70 {
            assert(chord(70).0.drop_last() =~= chord(57).0);
            assert(lex_lt(chord(70).0, chord(71).0));
            assert(chord_ok(70));
        } else if j == 71 {
            assert(chord(71).0.drop_last() =~= chord(57).0);
            assert(lex_lt(chord(71).0, chord(72).0));
            assert(chord_ok(71));
        } else if j == 72 {
            assert(lex_lt(chord(72).0, chord(73).0));
            assert(chord_ok(72));
        } else if j == 73 {
            assert(chord(73).0.drop_last() =~= chord(72).0);
            assert(lex_lt(chord(73).0, chord(74).0));
            assert(chord_ok(73));
        } else if j == 74 {
            assert(lex_lt(chord(74).0, chord(75).0));
            assert(chord_ok(74));
        } else if j == 75 {
            assert(chord(75).0.drop_last() =~= chord(74).0);
            assert(lex_lt(chord(75).0, chord(76).0));
            assert(chord_ok(75));
        } else if j == 76 {
            assert(lex_lt(chord(76).0, chord(77).0));
            assert(chord_ok(76));
        } else if j == 77 {
            assert(chord(77).0.drop_last() =~= chord(76).0);
            assert(lex_lt(chord(77).0, chord(78).0));
            assert(chord_ok(77));
        } else if j == 78 {
            assert(lex_lt(chord(78).0, chord(79).0));
            assert(chord_ok(78));
        } else if j == 79 {
            assert(chord(79).0.drop_last() =~= chord(78).0);
            assert(lex_lt(chord(79).0, chord(80).0));
            assert(chord_ok(79));
        }
}

proof fn lemma_chord_facts_80(j: int)
    requires
        80 <= j < 100,
    ensures
        chord_ok(j),
        j + 1 < NUM_CHORDS ==> lex_lt(chord(j).0, chord(j + 1).0),
{
    reveal_with_fuel(lex_lt, 6);
    if j == 80 {
            assert(chord(80).0.drop_last() =~= chord(78).0);
            assert(lex_lt(chord(80).0, chord(81).0));
            assert(chord_ok(80));
        } else if j == 81 {
            assert(lex_lt(chord(81).0, chord(82).0));
            assert(chord_ok(81));
        } else if j == 82 {
            assert(chord(82).0.drop_last() =~= chord(81).0);
            assert(lex_lt(chord(82).0, chord(83).0));
            assert(chord_ok(82));
        } else if j == 83 {
            assert(chord(83).0.drop_last() =~= chord(82).0);
            assert(lex_lt(chord(83).0, chord(84).0));
            assert(chord_ok(83));
        } else if j == 84 {
            assert(chord(84).0.drop_last() =~= chord(82).0);
            assert(lex_lt(chord(84).0, chord(85).0));
            assert(chord_ok(84));
        } else if j == 85 {
            assert(chord(85).0.drop_last() =~= chord(82).0);
            assert(lex_lt(chord(85).0, chord(86).0));
            assert(chord_ok(85));
        } else if j == 86 {
            assert(chord(86).0.drop_last() =~= chord(82).0);
            assert(lex_lt(chord(86).0, chord(87).0));
            assert(chord_ok(86));
        } else if j == 87 {
            assert(chord(87).0.drop_last() =~= chord(82).0);
            assert(lex_lt(chord(87).0, chord(88).0));
            assert(chord_ok(87));
        } else if j == 88 {
            assert(chord(88).0.drop_last() =~= chord(81).0);
            assert(lex_lt(chord(88).0, chord(89).0));
            assert(chord_ok(88));
        } else if j == 89 {
            assert(chord(89).0.drop_last() =~= chord(88).0);
            assert(lex_lt(chord(89).0, chord(90).0));
            assert(chord_ok(89));
        } else if j == 90 {
            assert(chord(90).0.drop_last() =~= chord(88).0);
            assert(lex_lt(chord(90).0, chord(91).0));
            assert(chord_ok(90));
        } else if j == 91 {
            assert(chord(91).0.drop_last() =~= chord(88).0);
            assert(lex_lt(chord(91).0, chord(92).0));
            assert(chord_ok(91));
        } else if j == 92 {
            assert(chord(92).0.drop_last() =~= chord(88).0);
            assert(lex_lt(chord(92).0, chord(93).0));
            assert(chord_ok(92));
        } else if j == 93 {
            assert(chord(93).0.drop_last() =~= chord(88).0);
            assert(lex_lt(chord(93).0, chord(94).0));
            assert(chord_ok(93));
        } else if j == 94 {
            assert(chord(94).0.drop_last() =~= chord(88).0);
            assert(lex_lt(chord(94).0, chord(95).0));
            assert(chord_ok(94));
        } else if j == 95 {
            assert(chord(95).0.drop_last() =~= chord(88).0);
            assert(lex_lt(chord(95).0, chord(96).0));
            assert(chord_ok(95));
        } else if j == 96 {
            assert(chord(96).0.drop_last() =~= chord(88).0);
            assert(lex_lt(chord(96).0, chord(97).0));
            assert(chord_ok(96));
        } else if j == 97 {
            assert(lex_lt(chord(97).0, chord(98).0));
            assert(chord_ok(97));
        } else if j == 98 {
            assert(chord(98).0.drop_last() =~= chord(97).0);
            assert(lex_lt(chord(98).0, chord(99).0));
            assert(chord_ok(98));
        } else if j == 99 {
            assert(chord(99).0.drop_last() =~= chord(97).0);
            assert(lex_lt(chord(99).0, chord(100).0));
            assert(chord_ok(99));
        }
}

proof fn lemma_chord_facts_100(j: int)
    requires
        100 <= j < 120,
    ensures
        chord_ok(j),
        j + 1 < NUM_CHORDS ==> lex_lt(chord(j).0, chord(j + 1).0),
{
    reveal_with_fuel(lex_lt, 6);
    if j == 100 {
            assert(chord(100).0.drop_last() =~= chord(99).0);
            assert(lex_lt(chord(100).0, chord(101).0));
            assert(chord_ok(100));
        } else if j == 101 {
            assert(chord(101).0.drop_last() =~= chord(97).0);
            assert(lex_lt(chord(101).0, chord(102).0));
            assert(chord_ok(101));
        } else if j == 102 {
            assert(lex_lt(chord(102).0, chord(103).0));
            assert(chord_ok(102));
        } else if j == 103 {
            assert(chord(103).0.drop_last() =~= chord(102).0);
            assert(lex_lt(chord(103).0, chord(104).0));
            assert(chord_ok(103));
        } else if j == 104 {
            assert(chord(104).0.drop_last() =~= chord(102).0);
            assert(lex_lt(chord(104).0, chord(105).0));
            assert(chord_ok(104));
        } else if j == 105 {
            assert(chord(105).0.drop_last() =~= chord(102).0);
            assert(lex_lt(chord(105).0, chord(106).0));
            assert(chord_ok(105));
        } else if j == 106 {
            assert(chord(106).0.drop_last() =~= chord(102).0);
            assert(lex_lt(chord(106).0, chord(107).0));
            assert(chord_ok(106));
        } else if j == 107 {
            assert(chord(107).0.drop_last() =~= chord(102).0);
            assert(lex_lt(chord(107).0, chord(108).0));
            assert(chord_ok(107));
        } else if j == 108 {
            assert(chord(108).0.drop_last() =~= chord(102).0);
            assert(lex_lt(chord(108).0, chord(109).0));
            assert(chord_ok(108));
        } else if j == 109 {
            assert(lex_lt(chord(109).0, chord(110).0));
            assert(chord_ok(109));
        } else if j == 110 {
            assert(chord(110).0.drop_last() =~= chord(109).0);
            assert(lex_lt(chord(110).0, chord(111).0));
            assert(chord_ok(110));
        } else if j == 111 {
            assert(chord(111).0.drop_last() =~= chord(109).0);
            assert(lex_lt(chord(111).0, chord(112).0));
            assert(chord_ok(111));
        } else if j == 112 {
            assert(chord(112).0.drop_last() =~= chord(109).0);
            assert(lex_lt(chord(112).0, chord(113).0));
            assert(chord_ok(112));
        } else if j == 113 {
            assert(chord(113).0.drop_last() =~= chord(109).0);
            assert(lex_lt(chord(113).0, chord(114).0));
            assert(chord_ok(113));
        } else if j == 114 {
            assert(chord(114).0.drop_last() =~= chord(109).0);
            assert(lex_lt(chord(114).0, chord(115).0));
            assert(chord_ok(114));
        } else if j == 115 {
            assert(lex_lt(chord(115).0, chord(116).0));
            assert(chord_ok(115));
        } else if j == 116 {
            assert(chord(116).0.drop_last() =~= chord(115).0);
            assert(lex_lt(chord(116).0, chord(117).0));
            assert(chord_ok(116));
        } else if j == 117 {
            assert(chord(117).0.drop_last() =~= chord(116).0);
            assert(lex_lt(chord(117).0, chord(118).0));
            assert(chord_ok(117));
        } else if j == 118 {
            assert(chord(118).0.drop_last() =~= chord(115).0);
            assert(lex_lt(chord(118).0, chord(119).0));
            assert(chord_ok(118));
        } else if j == 119 {
            assert(chord(119).0.drop_last() =~= chord(115).0);
            assert(lex_lt(chord(119).0, chord(120).0));
            assert(chord_ok(119));
        }
}

proof fn lemma_chord_facts_120(j: int)
    requires
        120 <= j < 140,
    ensures
        chord_ok(j),
        j + 1 < NUM_CHORDS ==> lex_lt(chord(j).0, chord(j + 1).0),
{
    reveal_with_fuel(lex_lt, 6);
    if j == 120 {
            assert(lex_lt(chord(120).0, chord(121).0));
            assert(chord_ok(120));
        } else if j == 121 {
            assert(chord(121).0.drop_last() =~= chord(120).0);
            assert(lex_lt(chord(121).0, chord(122).0));
            assert(chord_ok(121));
        } else if j == 122 {
            assert(chord(122).0.drop_last() =~= chord(121).0);
            assert(lex_lt(chord(122).0, chord(123).0));
            assert(chord_ok(122));
        } else if j == 123 {
            assert(chord(123).0.drop_last() =~= chord(120).0);
            assert(lex_lt(chord(123).0, chord(124).0));
            assert(chord_ok(123));
        } else if j == 124 {
            assert(chord(124).0.drop_last() =~= chord(123).0);
            assert(lex_lt(chord(124).0, chord(125).0));
            assert(chord_ok(124));
        } else if j == 125 {
            assert(chord(125).0.drop_last() =~= chord(120).0);
            assert(lex_lt(chord(125).0, chord(126).0));
            assert(chord_ok(125));
        } else if j == 126 {
            assert(chord(126).0.drop_last() =~= chord(120).0);
            assert(lex_lt(chord(126).0, chord(127).0));
            assert(chord_ok(126));
        } else if j == 127 {
            assert(chord(127).0.drop_last() =~= chord(126).0);
            assert(lex_lt(chord(127).0, chord(128).0));
            assert(chord_ok(127));
        } else if j == 128 {
            assert(chord(128).0.drop_last() =~= chord(120).0);
            assert(lex_lt(chord(128).0, chord(129).0));
            assert(chord_ok(128));
        } else if j == 129 {
            assert(chord(129).0.drop_last() =~= chord(128).0);
            assert(lex_lt(chord(129).0, chord(130).0));
            assert(chord_ok(129));
        } else if j == 130 {
            assert(chord(130).0.drop_last() =~= chord(120).0);
            assert(lex_lt(chord(130).0, chord(131).0));
            assert(chord_ok(130));
        } else if j == 131 {
            assert(chord(131).0.drop_last() =~= chord(130).0);
            assert(lex_lt(chord(131).0, chord(132).0));
            assert(chord_ok(131));
        } else if j == 132 {
            assert(chord(132).0.drop_last() =~= chord(120).0);
            assert(lex_lt(chord(132).0, chord(133).0));
            assert(chord_ok(132));
        } else if j == 133 {
            assert(chord(133).0.drop_last() =~= chord(120).0);
            assert(lex_lt(chord(133).0, chord(134).0));
            assert(chord_ok(133));
        } else if j == 134 {
            assert(chord(134).0.drop_last() =~= chord(133).0);
            assert(lex_lt(chord(134).0, chord(135).0));
            assert(chord_ok(134));
        } else if j == 135 {
            assert(chord(135).0.drop_last() =~= chord(120).0);
            assert(lex_lt(chord(135).0, chord(136).0));
            assert(chord_ok(135));
        } else if j == 136 {
            assert(chord(136).0.drop_last() =~= chord(135).0);
            assert(lex_lt(chord(136).0, chord(137).0));
            assert(chord_ok(136));
        } else if j == 137 {
            assert(lex_lt(chord(137).0, chord(138).0));
            assert(chord_ok(137));
        } else if j == 138 {
            assert(chord(138).0.drop_last() =~= chord(137).0);
            assert(lex_lt(chord(138).0, chord(139).0));
            assert(chord_ok(138));
        } else if j == 139 {
            assert(chord(139).0.drop_last() =~= chord(138).0);
            assert(lex_lt(chord(139).0, chord(140).0));
            assert(chord_ok(139));
        }
}

proof fn lemma_chord_facts_140(j: int)
    requires
        140 <= j < 154,
    ensures
        chord_ok(j),
        j + 1 < NUM_CHORDS ==> lex_lt(chord(j).0, chord(j + 1).0),
{
    reveal_with_fuel(lex_lt, 6);
    if j == 140 {
            assert(chord(140).0.drop_last() =~= chord(137).0);
            assert(lex_lt(chord(140).0, chord(141).0));
            assert(chord_ok(140));
        } else if j == 141 {
            assert(lex_lt(chord(141).0, chord(142).0));
            assert(chord_ok(141));
        } else if j == 142 {
            assert(lex_lt(chord(142).0, chord(143).0));
            assert(chord_ok(142));
        } else if j == 143 {
            assert(chord(143).0.drop_last() =~= chord(142).0);
            assert(lex_lt(chord(143).0, chord(144).0));
            assert(chord_ok(143));
        } else if j == 144 {
            assert(chord(144).0.drop_last() =~= chord(142).0);
            assert(lex_lt(chord(144).0, chord(145).0));
            assert(chord_ok(144));
        } else if j == 145 {
            assert(lex_lt(chord(145).0, chord(146).0));
            assert(chord_ok(145));
        } else if j == 146 {
            assert(chord(146).0.drop_last() =~= chord(145).0);
            assert(lex_lt(chord(146).0, chord(147).0));
            assert(chord_ok(146));
        } else if j == 147 {
            assert(chord(147).0.drop_last() =~= chord(146).0);
            assert(lex_lt(chord(147).0, chord(148).0));
            assert(chord_ok(147));
        } else if j == 148 {
            assert(chord(148).0.drop_last() =~= chord(145).0);
            assert(lex_lt(chord(148).0, chord(149).0));
            assert(chord_ok(148));
        } else if j == 149 {
            assert(chord(149).0.drop_last() =~= chord(145).0);
            assert(lex_lt(chord(149).0, chord(150).0));
            assert(chord_ok(149));
        } else if j == 150 {
            assert(chord(150).0.drop_last() =~= chord(145).0);
            assert(lex_lt(chord(150).0, chord(151).0));
            assert(chord_ok(150));
        } else if j == 151 {
            assert(lex_lt(chord(151).0, chord(152).0));
            assert(chord_ok(151));
        } else if j == 152 {
            assert(chord(152).0.drop_last() =~= chord(151).0);
            assert(lex_lt(chord(152).0, chord(153).0));
            assert(chord_ok(152));
        } else if j == 153 {
            assert(chord(153).0.drop_last() =~= chord(151).0);
            assert(chord_ok(153));
        }
}

proof fn lemma_chord_facts(j: int)
    requires
        0 <= j < NUM_CHORDS,
    ensures
        chord_ok(j),
        j + 1 < NUM_CHORDS ==> lex_lt(chord(j).0, chord(j + 1).0),
{
    if j < 20 {
        lemma_chord_facts_0(j);
    } else if j < 40 {
        lemma_chord_facts_20(j);
    } else if j < 60 {
        lemma_chord_facts_40(j);
    } else if j < 80 {
        lemma_chord_facts_60(j);
    } else if j < 100 {
        lemma_chord_facts_80(j);
    } else if j < 120 {
        lemma_chord_facts_100(j);
    } else if j < 140 {
        lemma_chord_facts_120(j);
    } else if j < 154 {
        lemma_chord_facts_140(j);
    }
}

proof fn lemma_chords_sorted(i: int, j: int)
    requires
        0 <= i < j < NUM_CHORDS,
    ensures
        lex_lt(chord(i).0, chord(j).0),
    decreases j - i,
{
    lemma_chord_facts(j - 1);
    if j > i + 1 {
        lemma_chords_sorted(i, j - 1);
        lemma_lex_trans(chord(i).0, chord(j - 1).0, chord(j).0);
    }
}

/// The first `j` chords are registered: chord `i` leads to node `i + 1`, and
/// no other key sequence reaches a node.
pub open spec fn built_upto(t: Seq<NodeView>, j: int) -> bool {
    &&& tree_wf(t)
    &&& t.len() == j + 1
    &&& t[0].edges is Some
    &&& t[0].action is None
    &&& forall|i: int| 0 <= i < j ==> #[trigger] walk(t, 0, chord(i).0) == Some(i + 1)
    &&& forall|n: int|
        1 <= n <= j ==> (#[trigger] t[n]).action == chord(n - 1).1 && (t[n].edges is Some <==> chord(
            n - 1,
        ).2)
    &&& forall|q: Seq<Key>| #[trigger] complete_at(t, j, q)
}

/// Adding chord `j` as a fresh edge keeps the first `j` chords and makes
/// `j + 1`.
proof fn lemma_built_extend(t: Seq<NodeView>, j: int, p: int, nv: NodeView, help: Seq<
    crate::command_tree::HelpGroupView,
>)
    requires
        t.len() < usize::MAX,
        built_upto(t, j),
        0 <= j < NUM_CHORDS,
        0 <= p < t.len(),
        walk(t, 0, chord(j).0.drop_last()) == Some(p),
        t[p].edges is Some,
        child_of(t[p].edges->0, chord(j).0.last()) is None,
        fresh(nv),
        nv.action == chord(j).1,
        nv.edges is Some <==> chord(j).2,
        chord(j).0.len() >= 1,
        tree_wf(with_fresh_edge(t, p, chord(j).0.last(), nv, help)),
    ensures
        built_upto(with_fresh_edge(t, p, chord(j).0.last(), nv, help), j + 1),
{
    let k = chord(j).0.last();
    let t2 = with_fresh_edge(t, p, k, nv, help);
    assert forall|i: int| 0 <= i < j + 1 implies #[trigger] walk(t2, 0, chord(i).0) == Some(i + 1) by {
        if i < j {
            lemma_walk_kept(t, p, k, nv, help, 0, chord(i).0);
        } else {
            let pre = chord(j).0.drop_last();
            assert(pre.push(k) =~= chord(j).0);
            lemma_walk_kept(t, p, k, nv, help, 0, pre);
            lemma_walk_push(t2, 0, pre, k);
            lemma_child_of_push(t[p].edges->0, (k, t.len() as usize), k);
        }
    }
    assert forall|q: Seq<Key>| #[trigger] complete_at(t2, j + 1, q) by {
        lemma_walk_new(t, p, k, nv, help, 0, q);
        assert(complete_at(t, j, q));
        assert(complete_at(t, j, q.drop_last()));
        assert(complete_at(t, j, chord(j).0.drop_last()));
        if walk(t, 0, q) != walk(t2, 0, q) {
            let pre = chord(j).0.drop_last();
            assert(q.drop_last() == pre);
            assert(q =~= pre.push(k));
            assert(pre.push(k) =~= chord(j).0);
        }
    }
}

/// A key sequence strictly between two neighbouring chords is no chord.
proof fn lemma_between_neighbours(q: Seq<Key>, x: int)
    requires
        0 <= x,
        x + 1 < NUM_CHORDS,
        lex_lt(chord(x).0, q),
        lex_lt(q, chord(x + 1).0),
    ensures
        forall|i: int| 0 <= i < NUM_CHORDS ==> #[trigger] chord(i).0 != q,
{
    assert forall|i: int| 0 <= i < NUM_CHORDS implies #[trigger] chord(i).0 != q by {
        if i < x {
            lemma_chords_sorted(i, x);
            lemma_lex_trans(chord(i).0, chord(x).0, q);
            lemma_lex_irreflexive(q);
        } else if i == x {
            lemma_lex_irreflexive(q);
        } else if i == x + 1 {
            lemma_lex_irreflexive(q);
        } else {
            lemma_chords_sorted(x + 1, i);
            lemma_lex_trans(q, chord(x + 1).0, chord(i).0);
            lemma_lex_irreflexive(q);
        }
    }
}

/// In the built-in tree `a` opens the abandon menu, `a a` abandons, and
/// `a z` is unbound.
pub proof fn lemma_builtin_abandon_chords(t: Seq<NodeView>)
    requires
        builtin_tree(t),
    ensures
        resolve_spec(t, seq![Key::Char('a')]) is Menu,
        resolve_spec(t, seq![Key::Char('a'), Key::Char('a')]) matches ChordResolution::Action {
            message,
            has_children,
            ..
        } && message == Message::Abandon && !has_children,
        resolve_spec(t, seq![Key::Char('a'), Key::Char('z')]) is Unresolved,
{
    assert(chord(53).0 =~= seq![Key::Char('a')]);
    assert(chord(54).0 =~= seq![Key::Char('a'), Key::Char('a')]);
    assert(resolve_spec(t, chord(53).0) == expected_resolution(53));
    assert(resolve_spec(t, chord(54).0) == expected_resolution(54));
    let q = seq![Key::Char('a'), Key::Char('z')];
    reveal_with_fuel(lex_lt, 3);
    assert(lex_lt(chord(56).0, q));
    assert(lex_lt(q, chord(57).0));
    lemma_between_neighbours(q, 56);
    if registered(t, q) {
        assert(q.len() == 0 || exists|i: int| 0 <= i < NUM_CHORDS && q == chord(i).0);
    }
}

/// One built-in chord as registered: help group and text, keys, action,
/// and whether its node opens a submenu.
pub struct ChordEntry {
    pub group: &'static str,
    pub help: &'static str,
    pub keys: Vec<Key>,
    pub action: Option<Message>,
    pub interior: bool,
}

/// Built-in chord `j`.
pub fn chord_entry(j: usize) -> (r: ChordEntry)
    requires
        j < NUM_CHORDS,
    ensures
        (r.keys@, r.action, r.interior) == chord(j as int),
{
    match j {
        0 => {
            let r = ChordEntry {
                group: "Commands",
                help: "Absorb",
                keys: vec![Key::Char('A')],
                action: None,
                interior: true,
            };
            assert(r.keys@ =~= chord(0).0);
            r
        },
        1 => {
            let r = ChordEntry {
                group: "Absorb",
                help: "From selection",
                keys: vec![Key::Char('A'), Key::Char('a')],
                action: Some(Message::Absorb),
                interior: false,
            };
            assert(r.keys@ =~= chord(1).0);
            r
        },
        2 => {
            let r = ChordEntry {
                group: "Absorb",
                help: "From selection into destination",
                keys: vec![Key::Char('A'), Key::Char('i')],
                action: Some(Message::SaveSelection),
                interior: true,
            };
            assert(r.keys@ =~= chord(2).0);
            r
        },
        3 => {
            let r = ChordEntry {
                group: "Absorb into",
                help: "Select destination",
                keys: vec![Key::Char('A'), Key::Char('i'), Key::Enter],
                action: Some(Message::AbsorbInto),
                interior: false,
            };
            assert(r.keys@ =~= chord(3).0);
            r
        },
        4 => {
            let r = ChordEntry {
                group: "Commands",
                help: "Duplicate",
                keys: vec![Key::Char('D')],
                action: None,
                interior: true,
            };
            assert(r.keys@ =~= chord(4).0);
            r
        },
        5 => {
            let r = ChordEntry {
                group: "Duplicate",
                help: "Selection insert after destination",
                keys: vec![Key::Char('D'), Key::Char('a')],
                action: Some(Message::SaveSelection),
                interior: true,
            };
            assert(r.keys@ =~= chord(5).0);
            r
        },
        6 => {
            let r = ChordEntry {
                group: "Duplicate insert after",
                help: "Select destination",
                keys: vec![Key::Char('D'), Key::Char('a'), Key::Enter],
                action: Some(Message::DuplicateInsertAfter),
                interior: false,
            };
            assert(r.keys@ =~= chord(6).0);
            r
        },
        7 => {
            let r = ChordEntry {
                group: "Duplicate",
                help: "Selection insert before destination",
                keys: vec![Key::Char('D'), Key::Char('b')],
                action: Some(Message::SaveSelection),
                interior: true,
            };
            assert(r.keys@ =~= chord(7).0);
            r
        },
        8 => {
            let r = ChordEntry {
                group: "Duplicate insert before",
                help: "Select destination",
                keys: vec![Key::Char('D'), Key::Char('b'), Key::Enter],
                action: Some(Message::DuplicateInsertBefore),
                interior: false,
            };
            assert(r.keys@ =~= chord(8).0);
            r
        },
        9 => {
            let r = ChordEntry {
                group: "Duplicate",
                help: "Selection",
                keys: vec![Key::Char('D'), Key::Char('d')],
                action: Some(Message::Duplicate),
                interior: false,
            };
            assert(r.keys@ =~= chord(9).0);
            r
        },
        10 => {
            let r = ChordEntry {
                group: "Duplicate",
                help: "Selection onto destination",
                keys: vec![Key::Char('D'), Key::Char('o')],
                action: Some(Message::SaveSelection),
                interior: true,
            };
            assert(r.keys@ =~= chord(10).0);
            r
        },
        11 => {
            let r = ChordEntry {
                group: "Duplicate onto",
                help: "Select destination",
                keys: vec![Key::Char('D'), Key::Char('o'), Key::Enter],
                action: Some(Message::DuplicateOnto),
                interior: false,
            };
            assert(r.keys@ =~= chord(11).0);
            r
        },
        12 => {
            let r = ChordEntry {
                group: "Commands",
                help: "Evolog",
                keys: vec![Key::Char('E')],
                action: None,
                interior: true,
            };
            assert(r.keys@ =~= chord(12).0);
            r
        },
        13 => {
            let r = ChordEntry {
                group: "Evolog",
                help: "Selection (patch)",
                keys: vec![Key::Char('E'), Key::Char('E')],
                action: Some(Message::EvologPatch),
                interior: false,
            };
            assert(r.keys@ =~= chord(13).0);
            r
        },
        14 => {
            let r = ChordEntry {
                group: "Evolog",
                help: "Selection",
                keys: vec![Key::Char('E'), Key::Char('e')],
                action: Some(Message::Evolog),
                interior: false,
            };
            assert(r.keys@ =~= chord(14).0);
            r
        },
        15 => {
            let r = ChordEntry {
                group: "Commands",
                help: "Next",
                keys: vec![Key::Char('N')],
                action: None,
                interior: true,
            };
            assert(r.keys@ =~= chord(15).0);
            r
        },
        16 => {
            let r = ChordEntry {
                group: "Next",
                help: "Nth next (edit)",
                keys: vec![Key::Char('N'), Key::Char('E')],
                action: Some(Message::NextEditOffset),
                interior: false,
            };
            assert(r.keys@ =~= chord(16).0);
            r
        },
        17 => {
            let r = ChordEntry {
                group: "Next",
                help: "Nth next",
                keys: vec![Key::Char('N'), Key::Char('N')],
                action: Some(Message::NextOffset),
                interior: false,
            };
            assert(r.keys@ =~= chord(17).0);
            r
        },
        18 => {
            let r = ChordEntry {
                group: "Next",
                help: "Nth next (no-edit)",
                keys: vec![Key::Char('N'), Key::Char('X')],
                action: Some(Message::NextNoEditOffset),
                interior: false,
            };
            assert(r.keys@ =~= chord(18).0);
            r
        },
        19 => {
            let r = ChordEntry {
                group: "Next",
                help: "Next conflict",
                keys: vec![Key::Char('N'), Key::Char('c')],
                action: Some(Message::NextConflict),
                interior: false,
            };
            assert(r.keys@ =~= chord(19).0);
            r
        },
        20 => {
            let r = ChordEntry {
                group: "Next",
                help: "Next (edit)",
                keys: vec![Key::Char('N'), Key::Char('e')],
                action: Some(Message::NextEdit),
                interior: false,
            };
            assert(r.keys@ =~= chord(20).0);
            r
        },
        21 => {
            let r = ChordEntry {
                group: "Next",
                help: "Next",
                keys: vec![Key::Char('N'), Key::Char('n')],
                action: Some(Message::Next),
                interior: false,
            };
            assert(r.keys@ =~= chord(21).0);
            r
        },
        22 => {
            let r = ChordEntry {
                group: "Next",
                help: "Next (no-edit)",
                keys: vec![Key::Char('N'), Key::Char('x')],
                action: Some(Message::NextNoEdit),
                interior: false,
            };
            assert(r.keys@ =~= chord(22).0);
            r
        },
        23 => {
            let r = ChordEntry {
                group: "Commands",
                help: "Previous",
                keys: vec![Key::Char('P')],
                action: None,
                interior: true,
            };
            assert(r.keys@ =~= chord(23).0);
            r
        },
        24 => {
            let r = ChordEntry {
                group: "Previous",
                help: "Nth previous (edit)",
                keys: vec![Key::Char('P'), Key::Char('E')],
                action: Some(Message::PrevEditOffset),
                interior: false,
            };
            assert(r.keys@ =~= chord(24).0);
            r
        },
        25 => {
            let r = ChordEntry {
                group: "Previous",
                help: "Nth previous",
                keys: vec![Key::Char('P'), Key::Char('P')],
                action: Some(Message::PrevOffset),
                interior: false,
            };
            assert(r.keys@ =~= chord(25).0);
            r
        },
        26 => {
            let r = ChordEntry {
                group: "Previous",
                help: "Nth previous (no-edit)",
                keys: vec![Key::Char('P'), Key::Char('X')],
                action: Some(Message::PrevNoEditOffset),
                interior: false,
            };
            assert(r.keys@ =~= chord(26).0);
            r
        },
        27 => {
            let r = ChordEntry {
                group: "Previous",
                help: "Previous conflict",
                keys: vec![Key::Char('P'), Key::Char('c')],
                action: Some(Message::PrevConflict),
                interior: false,
            };
            assert(r.keys@ =~= chord(27).0);
            r
        },
        28 => {
            let r = ChordEntry {
                group: "Previous",
                help: "Previous (edit)",
                keys: vec![Key::Char('P'), Key::Char('e')],
                action: Some(Message::PrevEdit),
                interior: false,
            };
            assert(r.keys@ =~= chord(28).0);
            r
        },
        29 => {
            let r = ChordEntry {
                group: "Previous",
                help: "Previous",
                keys: vec![Key::Char('P'), Key::Char('p')],
                action: Some(Message::Prev),
                interior: false,
            };
            assert(r.keys@ =~= chord(29).0);
            r
        },
        30 => {
            let r = ChordEntry {
                group: "Previous",
                help: "Previous (no-edit)",
                keys: vec![Key::Char('P'), Key::Char('x')],
                action: Some(Message::PrevNoEdit),
                interior: false,
            };
            assert(r.keys@ =~= chord(30).0);
            r
        },
        31 => {
            let r = ChordEntry {
                group: "Commands",
                help: "Restore",
                keys: vec![Key::Char('R')],
                action: None,
                interior: true,
            };
            assert(r.keys@ =~= chord(31).0);
            r
        },
        32 => {
            let r = ChordEntry {
                group: "Restore",
                help: "From selection into destination",
                keys: vec![Key::Char('R'), Key::Char('R')],
                action: Some(Message::SaveSelection),
                interior: true,
            };
            assert(r.keys@ =~= chord(32).0);
            r
        },
        33 => {
            let r = ChordEntry {
                group: "Restore into",
                help: "Select destination",
                keys: vec![Key::Char('R'), Key::Char('R'), Key::Enter],
                action: Some(Message::RestoreFromInto),
                interior: false,
            };
            assert(r.keys@ =~= chord(33).0);
            r
        },
        34 => {
            let r = ChordEntry {
                group: "Restore",
                help: "Changes in selection (restore descendants)",
                keys: vec![Key::Char('R'), Key::Char('d')],
                action: Some(Message::RestoreRestoreDescendants),
                interior: false,
            };
            assert(r.keys@ =~= chord(34).0);
            r
        },
        35 => {
            let r = ChordEntry {
                group: "Restore",
                help: "From selection into @",
                keys: vec![Key::Char('R'), Key::Char('f')],
                action: Some(Message::RestoreFrom),
                interior: false,
            };
            assert(r.keys@ =~= chord(35).0);
            r
        },
        36 => {
            let r = ChordEntry {
                group: "Restore",
                help: "From @ into selection",
                keys: vec![Key::Char('R'), Key::Char('i')],
                action: Some(Message::RestoreInto),
                interior: false,
            };
            assert(r.keys@ =~= chord(36).0);
            r
        },
        37 => {
            let r = ChordEntry {
                group: "Restore",
                help: "Changes in selection",
                keys: vec![Key::Char('R'), Key::Char('r')],
                action: Some(Message::Restore),
                interior: false,
            };
            assert(r.keys@ =~= chord(37).0);
            r
        },
        38 => {
            let r = ChordEntry {
                group: "Commands",
                help: "Sign",
                keys: vec![Key::Char('S')],
                action: None,
                interior: true,
            };
            assert(r.keys@ =~= chord(38).0);
            r
        },
        39 => {
            let r = ChordEntry {
                group: "Sign",
                help: "From selection to destination",
                keys: vec![Key::Char('S'), Key::Char('S')],
                action: Some(Message::SaveSelection),
                interior: true,
            };
            assert(r.keys@ =~= chord(39).0);
            r
        },
        40 => {
            let r = ChordEntry {
                group: "Sign range",
                help: "Select destination",
                keys: vec![Key::Char('S'), Key::Char('S'), Key::Enter],
                action: Some(Message::SignRange),
                interior: false,
            };
            assert(r.keys@ =~= chord(40).0);
            r
        },
        41 => {
            let r = ChordEntry {
                group: "Sign",
                help: "Unsign from selection to destination",
                keys: vec![Key::Char('S'), Key::Char('U')],
                action: Some(Message::SaveSelection),
                interior: true,
            };
            assert(r.keys@ =~= chord(41).0);
            r
        },
        42 => {
            let r = ChordEntry {
                group: "Unsign range",
                help: "Select destination",
                keys: vec![Key::Char('S'), Key::Char('U'), Key::Enter],
                action: Some(Message::UnsignRange),
                interior: false,
            };
            assert(r.keys@ =~= chord(42).0);
            r
        },
        43 => {
            let r = ChordEntry {
                group: "Sign",
                help: "Selection",
                keys: vec![Key::Char('S'), Key::Char('s')],
                action: Some(Message::Sign),
                interior: false,
            };
            assert(r.keys@ =~= chord(43).0);
            r
        },
        44 => {
            let r = ChordEntry {
                group: "Sign",
                help: "Unsign selection",
                keys: vec![Key::Char('S'), Key::Char('u')],
                action: Some(Message::Unsign),
                interior: false,
            };
            assert(r.keys@ =~= chord(44).0);
            r
        },
        45 => {
            let r = ChordEntry {
                group: "Commands",
                help: "Revert",
                keys: vec![Key::Char('V')],
                action: None,
                interior: true,
            };
            assert(r.keys@ =~= chord(45).0);
            r
        },
        46 => {
            let r = ChordEntry {
                group: "Revert",
                help: "Selection after destination",
                keys: vec![Key::Char('V'), Key::Char('a')],
                action: Some(Message::SaveSelection),
                interior: true,
            };
            assert(r.keys@ =~= chord(46).0);
            r
        },
        47 => {
            let r = ChordEntry {
                group: "Revert after",
                help: "Select destination",
                keys: vec![Key::Char('V'), Key::Char('a'), Key::Enter],
                action: Some(Message::RevertInsertAfter),
                interior: false,
            };
            assert(r.keys@ =~= chord(47).0);
            r
        },
        48 => {
            let r = ChordEntry {
                group: "Revert",
                help: "Selection before destination",
                keys: vec![Key::Char('V'), Key::Char('b')],
                action: Some(Message::SaveSelection),
                interior: true,
            };
            assert(r.keys@ =~= chord(48).0);
            r
        },
        49 => {
            let r = ChordEntry {
                group: "Revert before",
                help: "Select destination",
                keys: vec![Key::Char('V'), Key::Char('b'), Key::Enter],
                action: Some(Message::RevertInsertBefore),
                interior: false,
            };
            assert(r.keys@ =~= chord(49).0);
            r
        },
        50 => {
            let r = ChordEntry {
                group: "Revert",
                help: "Selection onto destination",
                keys: vec![Key::Char('V'), Key::Char('o')],
                action: Some(Message::SaveSelection),
                interior: true,
            };
            assert(r.keys@ =~= chord(50).0);
            r
        },
        51 => {
            let r = ChordEntry {
                group: "Revert onto",
                help: "Select destination",
                keys: vec![Key::Char('V'), Key::Char('o'), Key::Enter],
                action: Some(Message::RevertOntoDestination),
                interior: false,
            };
            assert(r.keys@ =~= chord(51).0);
            r
        },
        52 => {
            let r = ChordEntry {
                group: "Revert",
                help: "Selection onto @",
                keys: vec![Key::Char('V'), Key::Char('v')],
                action: Some(Message::Revert),
                interior: false,
            };
            assert(r.keys@ =~= chord(52).0);
            r
        },
        53 => {
            let r = ChordEntry {
                group: "Commands",
                help: "Abandon",
                keys: vec![Key::Char('a')],
                action: None,
                interior: true,
            };
            assert(r.keys@ =~= chord(53).0);
            r
        },
        54 => {
            let r = ChordEntry {
                group: "Abandon",
                help: "Selection",
                keys: vec![Key::Char('a'), Key::Char('a')],
                action: Some(Message::Abandon),
                interior: false,
            };
            assert(r.keys@ =~= chord(54).0);
            r
        },
        55 => {
            let r = ChordEntry {
                group: "Abandon",
                help: "Selection (retain bookmarks)",
                keys: vec![Key::Char('a'), Key::Char('b')],
                action: Some(Message::AbandonRetainBookmarks),
                interior: false,
            };
            assert(r.keys@ =~= chord(55).0);
            r
        },
        56 => {
            let r = ChordEntry {
                group: "Abandon",
                help: "Selection (restore descendants)",
                keys: vec![Key::Char('a'), Key::Char('d')],
                action: Some(Message::AbandonRestoreDescendants),
                interior: false,
            };
            assert(r.keys@ =~= chord(56).0);
            r
        },
        57 => {
            let r = ChordEntry {
                group: "Commands",
                help: "Bookmark",
                keys: vec![Key::Char('b')],
                action: None,
                interior: true,
            };
            assert(r.keys@ =~= chord(57).0);
            r
        },
        58 => {
            let r = ChordEntry {
                group: "Bookmark",
                help: "Forget, including remotes",
                keys: vec![Key::Char('b'), Key::Char('F')],
                action: Some(Message::BookmarkForgetIncludeRemotes),
                interior: false,
            };
            assert(r.keys@ =~= chord(58).0);
            r
        },
        59 => {
            let r = ChordEntry {
                group: "Bookmark",
                help: "Create at selection",
                keys: vec![Key::Char('b'), Key::Char('c')],
                action: Some(Message::BookmarkCreate),
                interior: false,
            };
            assert(r.keys@ =~= chord(59).0);
            r
        },
        60 => {
            let r = ChordEntry {
                group: "Bookmark",
                help: "Delete",
                keys: vec![Key::Char('b'), Key::Char('d')],
                action: Some(Message::BookmarkDelete),
                interior: false,
            };
            assert(r.keys@ =~= chord(60).0);
            r
        },
        61 => {
            let r = ChordEntry {
                group: "Bookmark",
                help: "Forget",
                keys: vec![Key::Char('b'), Key::Char('f')],
                action: Some(Message::BookmarkForget),
                interior: false,
            };
            assert(r.keys@ =~= chord(61).0);
            r
        },
        62 => {
            let r = ChordEntry {
                group: "Bookmark",
                help: "Move",
                keys: vec![Key::Char('b'), Key::Char('m')],
                action: None,
                interior: true,
            };
            assert(r.keys@ =~= chord(62).0);
            r
        },
        63 => {
            let r = ChordEntry {
                group: "Bookmark move",
                help: "Selected bookmark to destination (allow backwards)",
                keys: vec![Key::Char('b'), Key::Char('m'), Key::Char('M')],
                action: Some(Message::SaveSelection),
                interior: true,
            };
            assert(r.keys@ =~= chord(63).0);
            r
        },
        64 => {
            let r = ChordEntry {
                group: "Move bookmark to, allowing backwards",
                help: "Select destination",
                keys: vec![Key::Char('b'), Key::Char('m'), Key::Char('M'), Key::Enter],
                action: Some(Message::BookmarkMoveAllowBackwards),
                interior: false,
            };
            assert(r.keys@ =~= chord(64).0);
            r
        },
        65 => {
            let r = ChordEntry {
                group: "Bookmark move",
                help: "Selected bookmark to destination",
                keys: vec![Key::Char('b'), Key::Char('m'), Key::Char('m')],
                action: Some(Message::SaveSelection),
                interior: true,
            };
            assert(r.keys@ =~= chord(65).0);
            r
        },
        66 => {
            let r = ChordEntry {
                group: "Move bookmark to",
                help: "Select destination",
                keys: vec![Key::Char('b'), Key::Char('m'), Key::Char('m'), Key::Enter],
                action: Some(Message::BookmarkMove),
                interior: false,
            };
            assert(r.keys@ =~= chord(66).0);
            r
        },
        67 => {
            let r = ChordEntry {
                group: "Bookmark move",
                help: "Tug to selection",
                keys: vec![Key::Char('b'), Key::Char('m'), Key::Char('t')],
                action: Some(Message::BookmarkMoveTug),
                interior: false,
            };
            assert(r.keys@ =~= chord(67).0);
            r
        },
        68 => {
            let r = ChordEntry {
                group: "Bookmark",
                help: "Rename",
                keys: vec![Key::Char('b'), Key::Char('r')],
                action: Some(Message::BookmarkRename),
                interior: false,
            };
            assert(r.keys@ =~= chord(68).0);
            r
        },
        69 => {
            let r = ChordEntry {
                group: "Bookmark",
                help: "Set to selection",
                keys: vec![Key::Char('b'), Key::Char('s')],
                action: Some(Message::BookmarkSet),
                interior: false,
            };
            assert(r.keys@ =~= chord(69).0);
            r
        },
        70 => {
            let r = ChordEntry {
                group: "Bookmark",
                help: "Track",
                keys: vec![Key::Char('b'), Key::Char('t')],
                action: Some(Message::BookmarkTrack),
                interior: false,
            };
            assert(r.keys@ =~= chord(70).0);
            r
        },
        71 => {
            let r = ChordEntry {
                group: "Bookmark",
                help: "Untrack",
                keys: vec![Key::Char('b'), Key::Char('u')],
                action: Some(Message::BookmarkUntrack),
                interior: false,
            };
            assert(r.keys@ =~= chord(71).0);
            r
        },
        72 => {
            let r = ChordEntry {
                group: "Commands",
                help: "Commit",
                keys: vec![Key::Char('c')],
                action: None,
                interior: true,
            };
            assert(r.keys@ =~= chord(72).0);
            r
        },
        73 => {
            let r = ChordEntry {
                group: "Commit",
                help: "Selection",
                keys: vec![Key::Char('c'), Key::Char('c')],
                action: Some(Message::Commit),
                interior: false,
            };
            assert(r.keys@ =~= chord(73).0);
            r
        },
        74 => {
            let r = ChordEntry {
                group: "Commands",
                help: "Describe",
                keys: vec![Key::Char('d')],
                action: None,
                interior: true,
            };
            assert(r.keys@ =~= chord(74).0);
            r
        },
        75 => {
            let r = ChordEntry {
                group: "Describe",
                help: "Selection",
                keys: vec![Key::Char('d'), Key::Char('d')],
                action: Some(Message::Describe),
                interior: false,
            };
            assert(r.keys@ =~= chord(75).0);
            r
        },
        76 => {
            let r = ChordEntry {
                group: "Commands",
                help: "Edit",
                keys: vec![Key::Char('e')],
                action: None,
                interior: true,
            };
            assert(r.keys@ =~= chord(76).0);
            r
        },
        77 => {
            let r = ChordEntry {
                group: "Edit",
                help: "Selection",
                keys: vec![Key::Char('e'), Key::Char('e')],
                action: Some(Message::Edit),
                interior: false,
            };
            assert(r.keys@ =~= chord(77).0);
            r
        },
        78 => {
            let r = ChordEntry {
                group: "Commands",
                help: "File",
                keys: vec![Key::Char('f')],
                action: None,
                interior: true,
            };
            assert(r.keys@ =~= chord(78).0);
            r
        },
        79 => {
            let r = ChordEntry {
                group: "File",
                help: "Track (enter filepath)",
                keys: vec![Key::Char('f'), Key::Char('t')],
                action: Some(Message::FileTrack),
                interior: false,
            };
            assert(r.keys@ =~= chord(79).0);
            r
        },
        80 => {
            let r = ChordEntry {
                group: "File",
                help: "Untrack selection (must be ignored)",
                keys: vec![Key::Char('f'), Key::Char('u')],
                action: Some(Message::FileUntrack),
                interior: false,
            };
            assert(r.keys@ =~= chord(80).0);
            r
        },
        81 => {
            let r = ChordEntry {
                group: "Commands",
                help: "Git",
                keys: vec![Key::Char('g')],
                action: None,
                interior: true,
            };
            assert(r.keys@ =~= chord(81).0);
            r
        },
        82 => {
            let r = ChordEntry {
                group: "Git",
                help: "Fetch",
                keys: vec![Key::Char('g'), Key::Char('f')],
                action: None,
                interior: true,
            };
            assert(r.keys@ =~= chord(82).0);
            r
        },
        83 => {
            let r = ChordEntry {
                group: "Git fetch",
                help: "All remotes",
                keys: vec![Key::Char('g'), Key::Char('f'), Key::Char('a')],
                action: Some(Message::GitFetchAllRemotes),
                interior: false,
            };
            assert(r.keys@ =~= chord(83).0);
            r
        },
        84 => {
            let r = ChordEntry {
                group: "Git fetch",
                help: "Branch by name",
                keys: vec![Key::Char('g'), Key::Char('f'), Key::Char('b')],
                action: Some(Message::GitFetchBranch),
                interior: false,
            };
            assert(r.keys@ =~= chord(84).0);
            r
        },
        85 => {
            let r = ChordEntry {
                group: "Git fetch",
                help: "Default",
                keys: vec![Key::Char('g'), Key::Char('f'), Key::Char('f')],
                action: Some(Message::GitFetch),
                interior: false,
            };
            assert(r.keys@ =~= chord(85).0);
            r
        },
        86 => {
            let r = ChordEntry {
                group: "Git fetch",
                help: "Remote by name",
                keys: vec![Key::Char('g'), Key::Char('f'), Key::Char('r')],
                action: Some(Message::GitFetchRemote),
                interior: false,
            };
            assert(r.keys@ =~= chord(86).0);
            r
        },
        87 => {
            let r = ChordEntry {
                group: "Git fetch",
                help: "Tracked bookmarks",
                keys: vec![Key::Char('g'), Key::Char('f'), Key::Char('t')],
                action: Some(Message::GitFetchTracked),
                interior: false,
            };
            assert(r.keys@ =~= chord(87).0);
            r
        },
        88 => {
            let r = ChordEntry {
                group: "Git",
                help: "Push",
                keys: vec![Key::Char('g'), Key::Char('p')],
                action: None,
                interior: true,
            };
            assert(r.keys@ =~= chord(88).0);
            r
        },
        89 => {
            let r = ChordEntry {
                group: "Git push",
                help: "All bookmarks",
                keys: vec![Key::Char('g'), Key::Char('p'), Key::Char('a')],
                action: Some(Message::GitPushAll),
                interior: false,
            };
            assert(r.keys@ =~= chord(89).0);
            r
        },
        90 => {
            let r = ChordEntry {
                group: "Git push",
                help: "Bookmark by name",
                keys: vec![Key::Char('g'), Key::Char('p'), Key::Char('b')],
                action: Some(Message::GitPushBookmark),
                interior: false,
            };
            assert(r.keys@ =~= chord(90).0);
            r
        },
        91 => {
            let r = ChordEntry {
                group: "Git push",
                help: "New bookmark for selection",
                keys: vec![Key::Char('g'), Key::Char('p'), Key::Char('c')],
                action: Some(Message::GitPushChange),
                interior: false,
            };
            assert(r.keys@ =~= chord(91).0);
            r
        },
        92 => {
            let r = ChordEntry {
                group: "Git push",
                help: "Deleted bookmarks",
                keys: vec![Key::Char('g'), Key::Char('p'), Key::Char('d')],
                action: Some(Message::GitPushDeleted),
                interior: false,
            };
            assert(r.keys@ =~= chord(92).0);
            r
        },
        93 => {
            let r = ChordEntry {
                group: "Git push",
                help: "New named bookmark for selection",
                keys: vec![Key::Char('g'), Key::Char('p'), Key::Char('n')],
                action: Some(Message::GitPushNamed),
                interior: false,
            };
            assert(r.keys@ =~= chord(93).0);
            r
        },
        94 => {
            let r = ChordEntry {
                group: "Git push",
                help: "Default",
                keys: vec![Key::Char('g'), Key::Char('p'), Key::Char('p')],
                action: Some(Message::GitPush),
                interior: false,
            };
            assert(r.keys@ =~= chord(94).0);
            r
        },
        95 => {
            let r = ChordEntry {
                group: "Git push",
                help: "Bookmarks at selection",
                keys: vec![Key::Char('g'), Key::Char('p'), Key::Char('r')],
                action: Some(Message::GitPushRevision),
                interior: false,
            };
            assert(r.keys@ =~= chord(95).0);
            r
        },
        96 => {
            let r = ChordEntry {
                group: "Git push",
                help: "Tracked bookmarks",
                keys: vec![Key::Char('g'), Key::Char('p'), Key::Char('t')],
                action: Some(Message::GitPushTracked),
                interior: false,
            };
            assert(r.keys@ =~= chord(96).0);
            r
        },
        97 => {
            let r = ChordEntry {
                group: "Commands",
                help: "Interdiff",
                keys: vec![Key::Char('i')],
                action: None,
                interior: true,
            };
            assert(r.keys@ =~= chord(97).0);
            r
        },
        98 => {
            let r = ChordEntry {
                group: "Interdiff",
                help: "From selection to @",
                keys: vec![Key::Char('i'), Key::Char('f')],
                action: Some(Message::InterdiffFromSelection),
                interior: false,
            };
            assert(r.keys@ =~= chord(98).0);
            r
        },
        99 => {
            let r = ChordEntry {
                group: "Interdiff",
                help: "From selection to destination",
                keys: vec![Key::Char('i'), Key::Char('i')],
                action: Some(Message::SaveSelection),
                interior: true,
            };
            assert(r.keys@ =~= chord(99).0);
            r
        },
        100 => {
            let r = ChordEntry {
                group: "Interdiff to destination",
                help: "Select destination",
                keys: vec![Key::Char('i'), Key::Char('i'), Key::Enter],
                action: Some(Message::InterdiffFromSelectionToDestination),
                interior: false,
            };
            assert(r.keys@ =~= chord(100).0);
            r
        },
        101 => {
            let r = ChordEntry {
                group: "Interdiff",
                help: "From @ to selection",
                keys: vec![Key::Char('i'), Key::Char('t')],
                action: Some(Message::InterdiffToSelection),
                interior: false,
            };
            assert(r.keys@ =~= chord(101).0);
            r
        },
        102 => {
            let r = ChordEntry {
                group: "Commands",
                help: "Metaedit",
                keys: vec![Key::Char('m')],
                action: None,
                interior: true,
            };
            assert(r.keys@ =~= chord(102).0);
            r
        },
        103 => {
            let r = ChordEntry {
                group: "Metaedit",
                help: "Set author",
                keys: vec![Key::Char('m'), Key::Char('A')],
                action: Some(Message::MetaeditSetAuthor),
                interior: false,
            };
            assert(r.keys@ =~= chord(103).0);
            r
        },
        104 => {
            let r = ChordEntry {
                group: "Metaedit",
                help: "Set author timestamp",
                keys: vec![Key::Char('m'), Key::Char('T')],
                action: Some(Message::MetaeditSetAuthorTimestamp),
                interior: false,
            };
            assert(r.keys@ =~= chord(104).0);
            r
        },
        105 => {
            let r = ChordEntry {
                group: "Metaedit",
                help: "Update author to configured user",
                keys: vec![Key::Char('m'), Key::Char('a')],
                action: Some(Message::MetaeditUpdateAuthor),
                interior: false,
            };
            assert(r.keys@ =~= chord(105).0);
            r
        },
        106 => {
            let r = ChordEntry {
                group: "Metaedit",
                help: "Update change-id",
                keys: vec![Key::Char('m'), Key::Char('c')],
                action: Some(Message::MetaeditUpdateChangeId),
                interior: false,
            };
            assert(r.keys@ =~= chord(106).0);
            r
        },
        107 => {
            let r = ChordEntry {
                group: "Metaedit",
                help: "Force rewrite",
                keys: vec![Key::Char('m'), Key::Char('r')],
                action: Some(Message::MetaeditForceRewrite),
                interior: false,
            };
            assert(r.keys@ =~= chord(107).0);
            r
        },
        108 => {
            let r = ChordEntry {
                group: "Metaedit",
                help: "Update author timestamp to now",
                keys: vec![Key::Char('m'), Key::Char('t')],
                action: Some(Message::MetaeditUpdateAuthorTimestamp),
                interior: false,
            };
            assert(r.keys@ =~= chord(108).0);
            r
        },
        109 => {
            let r = ChordEntry {
                group: "Commands",
                help: "New",
                keys: vec![Key::Char('n')],
                action: None,
                interior: true,
            };
            assert(r.keys@ =~= chord(109).0);
            r
        },
        110 => {
            let r = ChordEntry {
                group: "New",
                help: "After trunk (sync)",
                keys: vec![Key::Char('n'), Key::Char('M')],
                action: Some(Message::NewAfterTrunkSync),
                interior: false,
            };
            assert(r.keys@ =~= chord(110).0);
            r
        },
        111 => {
            let r = ChordEntry {
                group: "New",
                help: "After selection (rebase children)",
                keys: vec![Key::Char('n'), Key::Char('a')],
                action: Some(Message::NewInsertAfter),
                interior: false,
            };
            assert(r.keys@ =~= chord(111).0);
            r
        },
        112 => {
            let r = ChordEntry {
                group: "New",
                help: "Before selection (rebase children)",
                keys: vec![Key::Char('n'), Key::Char('b')],
                action: Some(Message::NewBefore),
                interior: false,
            };
            assert(r.keys@ =~= chord(112).0);
            r
        },
        113 => {
            let r = ChordEntry {
                group: "New",
                help: "After trunk",
                keys: vec![Key::Char('n'), Key::Char('m')],
                action: Some(Message::NewAfterTrunk),
                interior: false,
            };
            assert(r.keys@ =~= chord(113).0);
            r
        },
        114 => {
            let r = ChordEntry {
                group: "New",
                help: "After selection",
                keys: vec![Key::Char('n'), Key::Char('n')],
                action: Some(Message::New),
                interior: false,
            };
            assert(r.keys@ =~= chord(114).0);
            r
        },
        115 => {
            let r = ChordEntry {
                group: "Commands",
                help: "Parallelize",
                keys: vec![Key::Char('p')],
                action: None,
                interior: true,
            };
            assert(r.keys@ =~= chord(115).0);
            r
        },
        116 => {
            let r = ChordEntry {
                group: "Parallelize",
                help: "From selection to destination",
                keys: vec![Key::Char('p'), Key::Char('P')],
                action: Some(Message::SaveSelection),
                interior: true,
            };
            assert(r.keys@ =~= chord(116).0);
            r
        },
        117 => {
            let r = ChordEntry {
                group: "Parallelize range",
                help: "Select destination",
                keys: vec![Key::Char('p'), Key::Char('P'), Key::Enter],
                action: Some(Message::ParallelizeRange),
                interior: false,
            };
            assert(r.keys@ =~= chord(117).0);
            r
        },
        118 => {
            let r = ChordEntry {
                group: "Parallelize",
                help: "Selection with parent",
                keys: vec![Key::Char('p'), Key::Char('p')],
                action: Some(Message::Parallelize),
                interior: false,
            };
            assert(r.keys@ =~= chord(118).0);
            r
        },
        119 => {
            let r = ChordEntry {
                group: "Parallelize",
                help: "Revset",
                keys: vec![Key::Char('p'), Key::Char('r')],
                action: Some(Message::ParallelizeRevset),
                interior: false,
            };
            assert(r.keys@ =~= chord(119).0);
            r
        },
        120 => {
            let r = ChordEntry {
                group: "Commands",
                help: "Rebase",
                keys: vec![Key::Char('r')],
                action: None,
                interior: true,
            };
            assert(r.keys@ =~= chord(120).0);
            r
        },
        121 => {
            let r = ChordEntry {
                group: "Rebase",
                help: "Selection after destination (no descendants)",
                keys: vec![Key::Char('r'), Key::Char('A')],
                action: Some(Message::SaveSelection),
                interior: true,
            };
            assert(r.keys@ =~= chord(121).0);
            r
        },
        122 => {
            let r = ChordEntry {
                group: "Rebase after",
                help: "Select destination",
                keys: vec![Key::Char('r'), Key::Char('A'), Key::Enter],
                action: Some(Message::RebaseAfterDestinationNoDescendants),
                interior: false,
            };
            assert(r.keys@ =~= chord(122).0);
            r
        },
        123 => {
            let r = ChordEntry {
                group: "Rebase",
                help: "Selection before destination (no descendants)",
                keys: vec![Key::Char('r'), Key::Char('B')],
                action: Some(Message::SaveSelection),
                interior: true,
            };
            assert(r.keys@ =~= chord(123).0);
            r
        },
        124 => {
            let r = ChordEntry {
                group: "Rebase before",
                help: "Select destination",
                keys: vec![Key::Char('r'), Key::Char('B'), Key::Enter],
                action: Some(Message::RebaseBeforeDestinationNoDescendants),
                interior: false,
            };
            assert(r.keys@ =~= chord(124).0);
            r
        },
        125 => {
            let r = ChordEntry {
                group: "Rebase",
                help: "Selected branch onto trunk",
                keys: vec![Key::Char('r'), Key::Char('M')],
                action: Some(Message::RebaseBranchOntoTrunk),
                interior: false,
            };
            assert(r.keys@ =~= chord(125).0);
            r
        },
        126 => {
            let r = ChordEntry {
                group: "Rebase",
                help: "Selected branch onto destination",
                keys: vec![Key::Char('r'), Key::Char('O')],
                action: Some(Message::SaveSelection),
                interior: true,
            };
            assert(r.keys@ =~= chord(126).0);
            r
        },
        127 => {
            let r = ChordEntry {
                group: "Rebase branch onto",
                help: "Select destination",
                keys: vec![Key::Char('r'), Key::Char('O'), Key::Enter],
                action: Some(Message::RebaseBranchOntoDestination),
                interior: false,
            };
            assert(r.keys@ =~= chord(127).0);
            r
        },
        128 => {
            let r = ChordEntry {
                group: "Rebase",
                help: "Selection after destination",
                keys: vec![Key::Char('r'), Key::Char('a')],
                action: Some(Message::SaveSelection),
                interior: true,
            };
            assert(r.keys@ =~= chord(128).0);
            r
        },
        129 => {
            let r = ChordEntry {
                group: "Rebase after",
                help: "Select destination",
                keys: vec![Key::Char('r'), Key::Char('a'), Key::Enter],
                action: Some(Message::RebaseAfterDestination),
                interior: false,
            };
            assert(r.keys@ =~= chord(129).0);
            r
        },
        130 => {
            let r = ChordEntry {
                group: "Rebase",
                help: "Selection before destination",
                keys: vec![Key::Char('r'), Key::Char('b')],
                action: Some(Message::SaveSelection),
                interior: true,
            };
            assert(r.keys@ =~= chord(130).0);
            r
        },
        131 => {
            let r = ChordEntry {
                group: "Rebase before",
                help: "Select destination",
                keys: vec![Key::Char('r'), Key::Char('b'), Key::Enter],
                action: Some(Message::RebaseBeforeDestination),
                interior: false,
            };
            assert(r.keys@ =~= chord(131).0);
            r
        },
        132 => {
            let r = ChordEntry {
                group: "Rebase",
                help: "Selection onto trunk",
                keys: vec![Key::Char('r'), Key::Char('m')],
                action: Some(Message::RebaseOntoTrunk),
                interior: false,
            };
            assert(r.keys@ =~= chord(132).0);
            r
        },
        133 => {
            let r = ChordEntry {
                group: "Rebase",
                help: "Selection onto destination",
                keys: vec![Key::Char('r'), Key::Char('o')],
                action: Some(Message::SaveSelection),
                interior: true,
            };
            assert(r.keys@ =~= chord(133).0);
            r
        },
        134 => {
            let r = ChordEntry {
                group: "Rebase onto",
                help: "Select destination",
                keys: vec![Key::Char('r'), Key::Char('o'), Key::Enter],
                action: Some(Message::RebaseOntoDestination),
                interior: false,
            };
            assert(r.keys@ =~= chord(134).0);
            r
        },
        135 => {
            let r = ChordEntry {
                group: "Rebase",
                help: "Selection onto destination (no descendants)",
                keys: vec![Key::Char('r'), Key::Char('r')],
                action: Some(Message::SaveSelection),
                interior: true,
            };
            assert(r.keys@ =~= chord(135).0);
            r
        },
        136 => {
            let r = ChordEntry {
                group: "Rebase revision onto",
                help: "Select destination",
                keys: vec![Key::Char('r'), Key::Char('r'), Key::Enter],
                action: Some(Message::RebaseOntoDestinationNoDescendants),
                interior: false,
            };
            assert(r.keys@ =~= chord(136).0);
            r
        },
        137 => {
            let r = ChordEntry {
                group: "Commands",
                help: "Squash",
                keys: vec![Key::Char('s')],
                action: None,
                interior: true,
            };
            assert(r.keys@ =~= chord(137).0);
            r
        },
        138 => {
            let r = ChordEntry {
                group: "Squash",
                help: "Selection into destination",
                keys: vec![Key::Char('s'), Key::Char('i')],
                action: Some(Message::SaveSelection),
                interior: true,
            };
            assert(r.keys@ =~= chord(138).0);
            r
        },
        139 => {
            let r = ChordEntry {
                group: "Squash into",
                help: "Select destination",
                keys: vec![Key::Char('s'), Key::Char('i'), Key::Enter],
                action: Some(Message::SquashInto),
                interior: false,
            };
            assert(r.keys@ =~= chord(139).0);
            r
        },
        140 => {
            let r = ChordEntry {
                group: "Squash",
                help: "Selection into parent",
                keys: vec![Key::Char('s'), Key::Char('s')],
                action: Some(Message::Squash),
                interior: false,
            };
            assert(r.keys@ =~= chord(140).0);
            r
        },
        141 => {
            let r = ChordEntry {
                group: "Commands",
                help: "Status",
                keys: vec![Key::Char('t')],
                action: Some(Message::Status),
                interior: false,
            };
            assert(r.keys@ =~= chord(141).0);
            r
        },
        142 => {
            let r = ChordEntry {
                group: "Commands",
                help: "Undo",
                keys: vec![Key::Char('u')],
                action: None,
                interior: true,
            };
            assert(r.keys@ =~= chord(142).0);
            r
        },
        143 => {
            let r = ChordEntry {
                group: "Undo",
                help: "Redo last operation",
                keys: vec![Key::Char('u'), Key::Char('r')],
                action: Some(Message::Redo),
                interior: false,
            };
            assert(r.keys@ =~= chord(143).0);
            r
        },
        144 => {
            let r = ChordEntry {
                group: "Undo",
                help: "Undo last operation",
                keys: vec![Key::Char('u'), Key::Char('u')],
                action: Some(Message::Undo),
                interior: false,
            };
            assert(r.keys@ =~= chord(144).0);
            r
        },
        145 => {
            let r = ChordEntry {
                group: "Commands",
                help: "View",
                keys: vec![Key::Char('v')],
                action: None,
                interior: true,
            };
            assert(r.keys@ =~= chord(145).0);
            r
        },
        146 => {
            let r = ChordEntry {
                group: "View",
                help: "From selection to destination",
                keys: vec![Key::Char('v'), Key::Char('V')],
                action: Some(Message::SaveSelection),
                interior: true,
            };
            assert(r.keys@ =~= chord(146).0);
            r
        },
        147 => {
            let r = ChordEntry {
                group: "View to destination",
                help: "Select destination",
                keys: vec![Key::Char('v'), Key::Char('V'), Key::Enter],
                action: Some(Message::ViewFromSelectionToDestination),
                interior: false,
            };
            assert(r.keys@ =~= chord(147).0);
            r
        },
        148 => {
            let r = ChordEntry {
                group: "View",
                help: "From selection to @",
                keys: vec![Key::Char('v'), Key::Char('f')],
                action: Some(Message::ViewFromSelection),
                interior: false,
            };
            assert(r.keys@ =~= chord(148).0);
            r
        },
        149 => {
            let r = ChordEntry {
                group: "View",
                help: "From @ to selection",
                keys: vec![Key::Char('v'), Key::Char('t')],
                action: Some(Message::ViewToSelection),
                interior: false,
            };
            assert(r.keys@ =~= chord(149).0);
            r
        },
        150 => {
            let r = ChordEntry {
                group: "View",
                help: "Selection",
                keys: vec![Key::Char('v'), Key::Char('v')],
                action: Some(Message::View),
                interior: false,
            };
            assert(r.keys@ =~= chord(150).0);
            r
        },
        151 => {
            let r = ChordEntry {
                group: "Commands",
                help: "Simplify parents",
                keys: vec![Key::Char('y')],
                action: None,
                interior: true,
            };
            assert(r.keys@ =~= chord(151).0);
            r
        },
        152 => {
            let r = ChordEntry {
                group: "Simplify parents of",
                help: "Selection with descendants",
                keys: vec![Key::Char('y'), Key::Char('Y')],
                action: Some(Message::SimplifyParentsSource),
                interior: false,
            };
            assert(r.keys@ =~= chord(152).0);
            r
        },
        153 => {
            let r = ChordEntry {
                group: "Simplify parents of",
                help: "Selection",
                keys: vec![Key::Char('y'), Key::Char('y')],
                action: Some(Message::SimplifyParents),
                interior: false,
            };
            assert(r.keys@ =~= chord(153).0);
            r
        },
        _ => ChordEntry { group: "", help: "", keys: Vec::new(), action: None, interior: false },
    }
}

impl CommandTree {
    /// The built-in chords, their menus and help groups.
    pub fn new() -> (r: Self)
        ensures
            r.wf(),
            builtin_tree(r@),
    {
        let mut tree = Self::empty();
        let mut j: usize = 0;
        assert forall|q: Seq<Key>| #[trigger] complete_at(tree@, 0, q) by {
            if q.len() > 0 {
                assert(child_of(tree@[0].edges->0, q[0]) is None);
            }
        }
        while j < NUM_CHORDS
            invariant
                j <= NUM_CHORDS,
                tree.wf(),
                built_upto(tree@, j as int),
            decreases NUM_CHORDS - j,
        {
            proof {
                lemma_chord_facts(j as int);
            }
            let e = chord_entry(j);
            let node = if e.interior {
                match e.action {
                    Some(m) => CommandTreeNode::new_action_with_children(m),
                    None => CommandTreeNode::new_children(),
                }
            } else {
                match e.action {
                    Some(m) => CommandTreeNode::new_action(m),
                    None => CommandTreeNode::new_children(),
                }
            };
            let ghost t = tree@;
            let ghost path = chord(j as int).0;
            let ghost pre = path.drop_last();
            let ghost k = path.last();
            let ghost pi = chord_parent(j as int);
            let ghost p: int = if pi == -1 { 0 } else { pi + 1 };
            proof {
                if pi == -1 {
                    assert(pre =~= Seq::<Key>::empty());
                } else {
                    assert(walk(t, 0, chord(pi).0) == Some(pi + 1));
                }
                assert(walk(t, 0, pre) == Some(p));
                assert(pre.push(k) =~= path);
                lemma_walk_push(t, 0, pre, k);
                if child_of(t[p].edges->0, k) is Some {
                    let n = walk(t, 0, path)->0;
                    assert(complete_at(t, j as int, path));
                    lemma_chords_sorted(n - 1, j as int);
                    lemma_lex_irreflexive(path);
                }
                lemma_child_of_none(t[p].edges->0, k);
                assert(e.keys@.drop_last() == pre);
            }
            let ok = tree.add_child(e.group, e.help, e.keys.as_slice(), node);
            proof {
                assert(ok);
                lemma_built_extend(t, j as int, p, crate::command_tree::node_view(node), tree@[p].help);
                assert(tree@ =~= with_fresh_edge(t, p, k, crate::command_tree::node_view(node), tree@[p].help));
            }
            j = j + 1;
        }
        proof {
            let t = tree@;
            assert forall|i: int| 0 <= i < NUM_CHORDS implies resolve_spec(t, #[trigger] chord(i).0)
                == expected_resolution(i) by {
                assert(walk(t, 0, chord(i).0) == Some(i + 1));
                assert(t[i + 1].action == chord(i).1);
            }
            assert forall|q: Seq<Key>| #[trigger] registered(t, q) implies q.len() == 0 || exists|i: int|
                0 <= i < NUM_CHORDS && q == chord(i).0 by {
                assert(complete_at(t, NUM_CHORDS as int, q));
                let n = walk(t, 0, q)->0;
                if n > 0 {
                    assert(q == chord(n - 1).0);
                }
            }
            assert forall|q: Seq<Key>| registered(t, q) implies q.len() <= 4 by {
                assert(complete_at(t, NUM_CHORDS as int, q));
                let n = walk(t, 0, q)->0;
                if n > 0 {
                    lemma_chord_facts(n - 1);
                }
            }
            assert forall|q: Seq<Key>| #[trigger] node_ok_at(t, q) by {
                assert(complete_at(t, NUM_CHORDS as int, q));
                let n = walk(t, 0, q)->0;
                if walk(t, 0, q) is Some && n > 0 {
                    lemma_chord_facts(n - 1);
                }
            }
        }
        tree
    }
}

} // verus!

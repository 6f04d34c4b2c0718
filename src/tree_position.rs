//! Moves between tree positions: paths of sibling indices through revisions,
//! their file diffs and the lines of those diffs.
use vstd::prelude::*;

verus! {

/// A position names a node of the log: `[revision]`, `[revision, file]` or
/// `[revision, file, line]`. `shape[r][f]` is the number of lines of file
/// `f` of revision `r`.
pub open spec fn valid_pos(shape: Seq<Seq<usize>>, pos: Seq<usize>) -> bool {
    &&& 1 <= pos.len() <= 3
    &&& pos[0] < shape.len()
    &&& pos.len() >= 2 ==> pos[1] < shape[pos[0] as int].len()
    &&& pos.len() == 3 ==> pos[2] < shape[pos[0] as int][pos[1] as int]
}

/// The enclosing node; a revision has none.
pub open spec fn parent_pos(pos: Seq<usize>) -> Option<Seq<usize>> {
    if pos.len() <= 1 {
        None
    } else {
        Some(pos.drop_last())
    }
}

/// The next sibling: a line moves as its file does; the last file of a
/// revision moves on to the next revision; the last revision stays.
pub open spec fn next_sibling_pos(shape: Seq<Seq<usize>>, pos: Seq<usize>) -> Seq<usize>
    decreases pos.len(),
{
    if pos.len() >= 3 {
        next_sibling_pos(shape, pos.drop_last())
    } else if pos.len() == 2 {
        if pos[1] + 1 >= shape[pos[0] as int].len() {
            next_sibling_pos(shape, pos.drop_last())
        } else {
            seq![pos[0], (pos[1] + 1) as usize]
        }
    } else if pos.len() == 1 && pos[0] + 1 < shape.len() {
        seq![(pos[0] + 1) as usize]
    } else {
        pos
    }
}

/// The previous sibling: a line moves to its file, the first file of a
/// revision to the revision, and the first revision stays.
pub open spec fn prev_sibling_pos(pos: Seq<usize>) -> Seq<usize> {
    if pos.len() >= 3 {
        pos.drop_last()
    } else if pos.len() == 2 {
        if pos[1] == 0 {
            seq![pos[0]]
        } else {
            seq![pos[0], (pos[1] - 1) as usize]
        }
    } else if pos.len() == 1 && pos[0] > 0 {
        seq![(pos[0] - 1) as usize]
    } else {
        pos
    }
}

proof fn lemma_next_valid(shape: Seq<Seq<usize>>, pos: Seq<usize>)
    requires
        valid_pos(shape, pos),
    ensures
        valid_pos(shape, next_sibling_pos(shape, pos)),
    decreases pos.len(),
{
    if pos.len() >= 2 {
        lemma_next_valid(shape, pos.drop_last());
    }
}

/// The enclosing position, if any.
pub fn parent_position(pos: &Vec<usize>) -> (r: Option<Vec<usize>>)
    ensures
        match parent_pos(pos@) {
            None => r is None,
            Some(p) => r matches Some(v) && v@ == p,
        },
{
    if pos.len() <= 1 {
        None
    } else {
        let mut p = pos.clone();
        p.pop();
        assert(p@ =~= pos@.drop_last());
        Some(p)
    }
}

/// The position of the next sibling.
pub fn next_sibling_position(shape: &Vec<Vec<usize>>, pos: &Vec<usize>) -> (r: Vec<usize>)
    requires
        valid_pos(shape.deep_view(), pos@),
    ensures
        r@ == next_sibling_pos(shape.deep_view(), pos@),
        valid_pos(shape.deep_view(), r@),
{
    proof {
        lemma_next_valid(shape.deep_view(), pos@);
        reveal_with_fuel(next_sibling_pos, 3);
    }
    let ghost sh = shape.deep_view();
    let rev = pos[0];
    assert(sh[rev as int] == shape@[rev as int]@);
    if pos.len() >= 2 && pos[1] < shape[rev].len() - 1 {
        let r = vec![rev, pos[1] + 1];
        assert(pos.len() == 3 ==> pos@.drop_last() =~= seq![rev, pos@[1]]);
        assert(r@ =~= seq![rev, (pos@[1] + 1) as usize]);
        r
    } else if rev < shape.len() - 1 {
        let r = vec![rev + 1];
        assert(pos.len() >= 2 ==> pos@.drop_last().len() >= 1 && pos@.drop_last()[0] == rev);
        assert(pos.len() == 3 ==> pos@.drop_last().drop_last() =~= seq![rev]);
        assert(pos.len() == 2 ==> pos@.drop_last() =~= seq![rev]);
        assert(r@ =~= seq![(rev + 1) as usize]);
        r
    } else {
        let r = vec![rev];
        assert(pos.len() == 3 ==> pos@.drop_last().drop_last() =~= seq![rev]);
        assert(pos.len() == 2 ==> pos@.drop_last() =~= seq![rev]);
        assert(pos.len() == 1 ==> pos@ =~= seq![rev]);
        assert(r@ =~= seq![rev]);
        r
    }
}

/// The position of the previous sibling.
pub fn prev_sibling_position(pos: &Vec<usize>) -> (r: Vec<usize>)
    requires
        1 <= pos@.len() <= 3,
    ensures
        r@ == prev_sibling_pos(pos@),
{
    if pos.len() >= 3 {
        let mut p = pos.clone();
        p.pop();
        assert(p@ =~= pos@.drop_last());
        p
    } else if pos.len() == 2 {
        if pos[1] == 0 {
            let r = vec![pos[0]];
            assert(r@ =~= seq![pos@[0]]);
            r
        } else {
            let r = vec![pos[0], pos[1] - 1];
            assert(r@ =~= seq![pos@[0], (pos@[1] - 1) as usize]);
            r
        }
    } else if pos[0] > 0 {
        let r = vec![pos[0] - 1];
        assert(r@ =~= seq![(pos@[0] - 1) as usize]);
        r
    } else {
        pos.clone()
    }
}

} // verus!

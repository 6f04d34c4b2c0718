//! Facts about walking the chord trie when an edge to a new node is added.
use crate::command_tree::{child_of, first_edge, fresh, tree_wf, walk, HelpGroupView, NodeView};
use crate::keys::Key;
use vstd::prelude::*;

verus! {

pub proof fn lemma_child_of_push(es: Seq<(Key, usize)>, e: (Key, usize), x: Key)
    ensures
        child_of(es.push(e), x) == if child_of(es, x) is Some {
            child_of(es, x)
        } else if e.0 == x {
            Some(e.1)
        } else {
            None
        },
    decreases es.len(),
{
    reveal_with_fuel(child_of, 2);
    if es.len() > 0 {
        assert(es.push(e)[0] == es[0]);
        assert(es.push(e).drop_first() =~= es.drop_first().push(e));
        lemma_child_of_push(es.drop_first(), e, x);
    } else {
        assert(es.push(e)[0] == e);
        assert(es.push(e).drop_first() =~= Seq::<(Key, usize)>::empty());
    }
}

pub proof fn lemma_child_of_none(es: Seq<(Key, usize)>, x: Key)
    requires
        child_of(es, x) is None,
    ensures
        first_edge(es, x) == -1,
    decreases es.len(),
{
    if es.len() > 0 {
        lemma_child_of_none(es.drop_first(), x);
    }
}

pub proof fn lemma_child_bounded(t: Seq<NodeView>, m: int, x: Key)
    requires
        tree_wf(t),
        0 <= m < t.len(),
        t[m].edges is Some,
    ensures
        child_of(t[m].edges->0, x) matches Some(c) ==> m < c < t.len(),
    decreases t[m].edges->0.len(),
{
    let es = t[m].edges->0;
    lemma_child_of_in(es, x);
}

pub proof fn lemma_child_of_in(es: Seq<(Key, usize)>, x: Key)
    ensures
        child_of(es, x) matches Some(c) ==> exists|j: int| 0 <= j < es.len() && #[trigger] es[j].1 == c,
    decreases es.len(),
{
    if es.len() > 0 && es[0].0 != x {
        lemma_child_of_in(es.drop_first(), x);
        if let Some(c) = child_of(es, x) {
            let j = choose|j: int| 0 <= j < es.drop_first().len() && #[trigger] es.drop_first()[j].1 == c;
            assert(es[j + 1].1 == c);
        }
    }
}

/// Following one more key after a path.
pub proof fn lemma_walk_push(t: Seq<NodeView>, m: int, q: Seq<Key>, x: Key)
    ensures
        walk(t, m, q.push(x)) == match walk(t, m, q) {
            None => None,
            Some(n) => match t[n].edges {
                None => None,
                Some(es) => match child_of(es, x) {
                    None => None,
                    Some(c) => Some(c as int),
                },
            },
        },
    decreases q.len(),
{
    reveal_with_fuel(walk, 2);
    if q.len() == 0 {
        assert(q.push(x).drop_first() =~= Seq::<Key>::empty());
        assert(q.push(x)[0] == x);
    } else {
        assert(q.push(x).drop_first() =~= q.drop_first().push(x));
        assert(q.push(x)[0] == q[0]);
        if let Some(es) = t[m].edges {
            if let Some(c) = child_of(es, q[0]) {
                lemma_walk_push(t, c as int, q.drop_first(), x);
            }
        }
    }
}

/// The tree after a fresh edge `k` from `p` to a new last node `nv`.
pub open spec fn with_fresh_edge(t: Seq<NodeView>, p: int, k: Key, nv: NodeView, help: Seq<
    HelpGroupView,
>) -> Seq<NodeView> {
    t.update(
        p,
        NodeView {
            edges: Some(t[p].edges->0.push((k, t.len() as usize))),
            help,
            action: t[p].action,
        },
    ).push(nv)
}

pub proof fn lemma_walk_kept(
    t: Seq<NodeView>,
    p: int,
    k: Key,
    nv: NodeView,
    help: Seq<HelpGroupView>,
    m: int,
    q: Seq<Key>,
)
    requires
        t.len() < usize::MAX,
        tree_wf(t),
        0 <= p < t.len(),
        t[p].edges is Some,
        0 <= m < t.len(),
        walk(t, m, q) is Some,
    ensures
        walk(with_fresh_edge(t, p, k, nv, help), m, q) == walk(t, m, q),
    decreases q.len(),
{
    let t2 = with_fresh_edge(t, p, k, nv, help);
    if q.len() > 0 {
        let es = t[m].edges->0;
        let c = child_of(es, q[0])->0;
        lemma_child_bounded(t, m, q[0]);
        if m == p {
            lemma_child_of_push(es, (k, t.len() as usize), q[0]);
        }
        assert(t2[m].edges->0 == if m == p { es.push((k, t.len() as usize)) } else { es });
        lemma_walk_kept(t, p, k, nv, help, c as int, q.drop_first());
    }
}

pub proof fn lemma_walk_new(
    t: Seq<NodeView>,
    p: int,
    k: Key,
    nv: NodeView,
    help: Seq<HelpGroupView>,
    m: int,
    q: Seq<Key>,
)
    requires
        t.len() < usize::MAX,
        tree_wf(t),
        0 <= p < t.len(),
        t[p].edges is Some,
        child_of(t[p].edges->0, k) is None,
        fresh(nv),
        0 <= m < t.len(),
    ensures
        walk(with_fresh_edge(t, p, k, nv, help), m, q) matches Some(n) ==> walk(t, m, q) == Some(n)
            || (q.len() > 0 && walk(t, m, q.drop_last()) == Some(p) && q.last() == k && n == t.len()),
    decreases q.len(),
{
    let t2 = with_fresh_edge(t, p, k, nv, help);
    let new = t.len() as int;
    if q.len() > 0 {
        if let Some(es2) = t2[m].edges {
            if let Some(c) = child_of(es2, q[0]) {
                let rest = q.drop_first();
                let es = t[m].edges->0;
                if m == p {
                    lemma_child_of_push(es, (k, t.len() as usize), q[0]);
                }
                assert(es2 == if m == p { es.push((k, t.len() as usize)) } else { es });
                if m == p && child_of(es, q[0]) is None {
                    // the new edge: the new node has no edges, so the walk ends there
                    assert(c == new);
                    assert(t2[new] == nv);
                    if rest.len() > 0 {
                        if let Some(nes) = nv.edges {
                            assert(nes.len() == 0);
                            assert(child_of(nes, rest[0]) is None);
                        }
                    }
                    if walk(t2, m, q) is Some {
                        assert(rest.len() == 0);
                        assert(q =~= seq![k]);
                        assert(q.drop_last() =~= Seq::<Key>::empty());
                    }
                } else {
                    assert(child_of(es, q[0]) == Some(c));
                    lemma_child_bounded(t, m, q[0]);
                    lemma_walk_new(t, p, k, nv, help, c as int, rest);
                    if walk(t2, m, q) is Some && walk(t, c as int, rest) != walk(t2, c as int, rest) {
                        assert(rest.len() > 0);
                        assert(q.drop_last().drop_first() =~= rest.drop_last());
                        assert(q.drop_last()[0] == q[0]);
                        assert(rest.last() == q.last());
                    }
                }
            }
        }
    }
}

} // verus!

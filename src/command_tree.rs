//! The chord trie: key sequences resolve to menus with grouped help, or to
//! actions.
use crate::help::{
    all_columns, columns_view, help_rows, render_help_text, sort_by_description,
    sorted_by_description, HelpCell, HelpCellView,
};
use crate::info::{lines_view, InfoLine, InfoLineView};
use crate::keys::{key_label, key_label_of, Key};
use crate::message::Message;
use vstd::prelude::*;

verus! {

/// indexmap's insertion-ordered map, held opaque; what it holds is named by
/// `help_groups_of`.
#[verifier::external_type_specification]
#[verifier::external_body]
#[verifier::reject_recursive_types(K)]
#[verifier::reject_recursive_types(V)]
#[verifier::reject_recursive_types(S)]
pub struct ExIndexMap<K, V, S>(indexmap::IndexMap<K, V, S>);

/// Help text of one interior node: group label to (key label, description)
/// pairs, both in order of registration.
pub type HelpEntries = indexmap::IndexMap<String, Vec<(String, String)>>;

/// A help group in plain values: its label and its (key label, description) pairs.
pub type HelpGroupView = (Seq<char>, Seq<(Seq<char>, Seq<char>)>);

/// The groups that a help map holds, in its order.
pub uninterp spec fn help_groups_of(m: HelpEntries) -> Seq<HelpGroupView>;

/// Index of the first group with this label, or -1.
pub open spec fn group_index(gs: Seq<HelpGroupView>, label: Seq<char>) -> int
    decreases gs.len(),
{
    if gs.len() == 0 {
        -1
    } else if gs.last().0 == label && group_index(gs.drop_last(), label) == -1 {
        gs.len() - 1
    } else {
        group_index(gs.drop_last(), label)
    }
}

/// The groups after appending an entry to the group with this label, which
/// is created last in order when missing.
pub open spec fn group_added(
    gs: Seq<HelpGroupView>,
    label: Seq<char>,
    entry: (Seq<char>, Seq<char>),
) -> Seq<HelpGroupView> {
    let i = group_index(gs, label);
    if i == -1 {
        gs.push((label, seq![entry]))
    } else {
        gs.update(i, (label, gs[i].1.push(entry)))
    }
}

/// Relies on `IndexMap::new`: a new map holds nothing.
#[verifier::external_body]
fn help_map_new() -> (r: HelpEntries)
    ensures
        help_groups_of(r) == Seq::<HelpGroupView>::empty(),
{
    indexmap::IndexMap::new()
}

/// Relies on `IndexMap::entry` and `Entry::or_default`: an existing key keeps
/// its place, a missing one is inserted last with an empty list.
#[verifier::external_body]
fn help_map_add(m: &mut HelpEntries, label: &str, entry: (String, String))
    ensures
        help_groups_of(*final(m)) == group_added(
            help_groups_of(*old(m)),
            label@,
            (entry.0@, entry.1@),
        ),
{
    m.entry(label.to_string()).or_default().push(entry)
}

pub open spec fn entries_view(es: Seq<(String, String)>) -> Seq<(Seq<char>, Seq<char>)> {
    es.map_values(|e: (String, String)| (e.0@, e.1@))
}

pub open spec fn groups_view(gs: Seq<(String, Vec<(String, String)>)>) -> Seq<HelpGroupView> {
    gs.map_values(|g: (String, Vec<(String, String)>)| (g.0@, entries_view(g.1@)))
}

/// Relies on `IndexMap::iter`: the pairs come out in the map's order.
#[verifier::external_body]
fn help_map_groups(m: &HelpEntries) -> (r: Vec<(String, Vec<(String, String)>)>)
    ensures
        groups_view(r@) == help_groups_of(*m),
{
    m.iter().map(|(k, v)| (k.clone(), v.clone())).collect()
}

/// The outgoing edges of an interior node, and its grouped help.
#[derive(Debug)]
pub struct CommandTreeNodeChildren {
    nodes: Vec<(Key, usize)>,
    help: HelpEntries,
}

impl CommandTreeNodeChildren {
    pub closed spec fn edges(&self) -> Seq<(Key, usize)> {
        self.nodes@
    }

    pub closed spec fn help_view(&self) -> Seq<HelpGroupView> {
        help_groups_of(self.help)
    }

    pub fn new() -> (r: Self)
        ensures
            r.edges() == Seq::<(Key, usize)>::empty(),
            r.help_view() == Seq::<HelpGroupView>::empty(),
    {
        CommandTreeNodeChildren { nodes: Vec::new(), help: help_map_new() }
    }

    /// The node that this key leads to, as an index into the tree.
    pub fn get_node(&self, key_code: &Key) -> (r: Option<usize>)
        ensures
            r == child_of(self.edges(), *key_code),
    {
        let mut i: usize = 0;
        assert(self.nodes@.subrange(0, self.nodes@.len() as int) =~= self.nodes@);
        while i < self.nodes.len()
            invariant
                i <= self.nodes@.len(),
                child_of(self.nodes@, *key_code) == child_of(self.nodes@.subrange(i as int, self.nodes@.len() as int), *key_code),
            decreases self.nodes@.len() - i,
        {
            let ghost rest = self.nodes@.subrange(i as int, self.nodes@.len() as int);
            assert(rest.drop_first() =~= self.nodes@.subrange(i + 1, self.nodes@.len() as int));
            if self.nodes[i].0 == *key_code {
                return Some(self.nodes[i].1);
            }
            i = i + 1;
        }
        None
    }

    /// The help groups as registered; entries within a group sorted
    /// case-insensitively by description.
    pub fn get_help_entries(&self) -> (r: Vec<(String, Vec<(String, String)>)>)
        ensures
            sorted_groups_of(groups_view(r@), self.help_view()),
    {
        let groups = help_map_groups(&self.help);
        sort_groups(&groups)
    }

    /// The help listing of this node.
    pub fn get_help(&self) -> (r: Vec<InfoLine>)
        ensures
            help_listing_of(lines_view(r@), self.help_view()),
    {
        let groups = help_map_groups(&self.help);
        help_text(&groups)
    }

    /// Adds an edge under this key and lists it in the given help group; an
    /// existing edge under the same key now leads to `node`.
    fn add_child(&mut self, help_group_text: &str, help_text: &str, key_code: Key, node: usize)
        ensures
            final(self).edges() == edges_set(old(self).edges(), key_code, node),
            final(self).help_view() == group_added(
                old(self).help_view(),
                help_group_text@,
                (key_label_of(key_code), help_text@),
            ),
    {
        let mut i: usize = 0;
        while i < self.nodes.len() && self.nodes[i].0 != key_code
            invariant
                i <= self.nodes@.len(),
                self.nodes@ == old(self).nodes@,
                self.help == old(self).help,
                forall|j: int| 0 <= j < i ==> (#[trigger] self.nodes@[j]).0 != key_code,
            decreases self.nodes@.len() - i,
        {
            i = i + 1;
        }
        if i < self.nodes.len() {
            proof {
                lemma_first_edge(old(self).nodes@, key_code, i as int);
            }
            self.nodes.set(i, (key_code, node));
        } else {
            proof {
                lemma_first_edge_none(old(self).nodes@, key_code);
            }
            self.nodes.push((key_code, node));
        }
        let label = key_label(key_code);
        help_map_add(&mut self.help, help_group_text, (label, String::from_str(help_text)));
    }
}

/// A node of the trie: interior (with children), an action, or both.
#[derive(Debug)]
pub struct CommandTreeNode {
    pub children: Option<CommandTreeNodeChildren>,
    pub action: Option<Message>,
}

/// A node in plain values: its edges and help if interior, and its action.
pub struct NodeView {
    pub edges: Option<Seq<(Key, usize)>>,
    pub help: Seq<HelpGroupView>,
    pub action: Option<Message>,
}

pub open spec fn node_view(n: CommandTreeNode) -> NodeView {
    NodeView {
        edges: match n.children {
            Some(c) => Some(c.edges()),
            None => None,
        },
        help: match n.children {
            Some(c) => c.help_view(),
            None => Seq::empty(),
        },
        action: n.action,
    }
}

/// A node that nothing has been registered under yet.
pub open spec fn fresh(n: NodeView) -> bool {
    n.edges is Some ==> n.edges->0.len() == 0
}

impl CommandTreeNode {
    /// A pure interior node (a submenu).
    pub fn new_children() -> (r: Self)
        ensures
            node_view(r).edges == Some(Seq::<(Key, usize)>::empty()),
            node_view(r).help == Seq::<HelpGroupView>::empty(),
            r.action is None,
    {
        CommandTreeNode { children: Some(CommandTreeNodeChildren::new()), action: None }
    }

    /// A leaf that resolves to `action`.
    pub fn new_action(action: Message) -> (r: Self)
        ensures
            r.children is None,
            r.action == Some(action),
    {
        CommandTreeNode { children: None, action: Some(action) }
    }

    /// An action that also opens a submenu, as the first half of a two-step command.
    pub fn new_action_with_children(action: Message) -> (r: Self)
        ensures
            node_view(r).edges == Some(Seq::<(Key, usize)>::empty()),
            node_view(r).help == Seq::<HelpGroupView>::empty(),
            r.action == Some(action),
    {
        let mut node = Self::new_children();
        node.action = Some(action);
        node
    }
}

/// The trie, as an arena of nodes with the root first.
#[derive(Debug)]
pub struct CommandTree(Vec<CommandTreeNode>);

impl View for CommandTree {
    type V = Seq<NodeView>;

    closed spec fn view(&self) -> Seq<NodeView> {
        self.0@.map_values(|n: CommandTreeNode| node_view(n))
    }
}

/// The root exists and every edge leads to a later node of the arena, so no
/// path revisits a node.
pub open spec fn tree_wf(t: Seq<NodeView>) -> bool {
    &&& t.len() >= 1
    &&& forall|n: int|
        0 <= n < t.len() && (#[trigger] t[n]).edges is Some ==> forall|j: int|
            0 <= j < t[n].edges->0.len() ==> n < (#[trigger] t[n].edges->0[j]).1 < t.len()
}

/// The node reached from `n` by following `keys`, if every key has an edge.
pub open spec fn walk(t: Seq<NodeView>, n: int, keys: Seq<Key>) -> Option<int>
    decreases keys.len(),
{
    if keys.len() == 0 {
        Some(n)
    } else {
        match t[n].edges {
            None => None,
            Some(es) => match child_of(es, keys[0]) {
                None => None,
                Some(c) => walk(t, c as int, keys.drop_first()),
            },
        }
    }
}

/// A path of keys that reaches a node from the root.
pub open spec fn registered(t: Seq<NodeView>, keys: Seq<Key>) -> bool {
    walk(t, 0, keys) is Some
}

/// What a chord resolves to.
#[derive(Debug, Clone, Copy, PartialEq, Eq, Structural)]
pub enum ChordResolution {
    /// Some key of the chord has no edge.
    Unresolved,
    /// An interior node without an action: its help is shown, the chord kept.
    Menu(usize),
    /// A node with an action. When it also has children, its help is shown
    /// and the chord kept for the next key.
    Action { message: Message, node: usize, has_children: bool },
}

pub open spec fn resolve_spec(t: Seq<NodeView>, keys: Seq<Key>) -> ChordResolution {
    match walk(t, 0, keys) {
        None => ChordResolution::Unresolved,
        Some(n) => match t[n].action {
            Some(m) => ChordResolution::Action {
                message: m,
                node: n as usize,
                has_children: t[n].edges is Some,
            },
            None => ChordResolution::Menu(n as usize),
        },
    }
}

proof fn lemma_child_in_edges(es: Seq<(Key, usize)>, k: Key)
    ensures
        child_of(es, k) matches Some(c) ==> exists|j: int| 0 <= j < es.len() && es[j].1 == c,
    decreases es.len(),
{
    if es.len() > 0 && es[0].0 != k {
        lemma_child_in_edges(es.drop_first(), k);
        if let Some(c) = child_of(es, k) {
            let j = choose|j: int| 0 <= j < es.drop_first().len() && es.drop_first()[j].1 == c;
            assert(es[j + 1].1 == c);
        }
    }
}

proof fn lemma_walk_advances(t: Seq<NodeView>, n: int, keys: Seq<Key>)
    requires
        tree_wf(t),
        0 <= n < t.len(),
    ensures
        walk(t, n, keys) matches Some(m) ==> n + keys.len() <= m < t.len(),
        walk(t, n, keys) is None ==> exists|i: int|
            0 <= i < keys.len() && (#[trigger] walk(t, n, keys.take(i))) is Some && walk(
                t,
                n,
                keys.take(i + 1),
            ) is None,
    decreases keys.len(),
{
    if keys.len() > 0 {
        assert(keys.take(0) =~= Seq::<Key>::empty());
        assert(keys.take(1).drop_first() =~= Seq::<Key>::empty());
        assert(keys.take(1)[0] == keys[0]);
        assert(walk(t, n, keys.take(0)) is Some);
        if let Some(es) = t[n].edges {
            lemma_child_in_edges(es, keys[0]);
            if let Some(c) = child_of(es, keys[0]) {
                lemma_walk_advances(t, c as int, keys.drop_first());
                if walk(t, n, keys) is None {
                    let i = choose|i: int|
                        0 <= i < keys.drop_first().len() && (#[trigger] walk(
                            t,
                            c as int,
                            keys.drop_first().take(i),
                        )) is Some && walk(t, c as int, keys.drop_first().take(i + 1)) is None;
                    assert(keys.take(i + 1).drop_first() =~= keys.drop_first().take(i));
                    assert(keys.take(i + 2).drop_first() =~= keys.drop_first().take(i + 1));
                    assert(walk(t, n, keys.take(i + 1)) is Some);
                }
            }
        }
    }
}

/// Resolution is total and consumes a registered prefix: a chord that reaches
/// a node is shorter than the tree has nodes (so no longer than its deepest
/// registered path), and a chord that reaches none has a registered prefix
/// followed by one unbound key.
pub proof fn lemma_resolution_total(t: Seq<NodeView>, keys: Seq<Key>)
    requires
        tree_wf(t),
    ensures
        registered(t, keys) ==> keys.len() < t.len(),
        resolve_spec(t, keys) is Unresolved <==> !registered(t, keys),
        !registered(t, keys) ==> exists|i: int|
            0 <= i < keys.len() && registered(t, #[trigger] keys.take(i)) && !registered(
                t,
                keys.take(i + 1),
            ),
{
    lemma_walk_advances(t, 0, keys);
}

impl CommandTree {
    pub open spec fn wf(&self) -> bool {
        tree_wf(self@)
    }

    /// A tree with only a root interior node.
    pub fn empty() -> (r: Self)
        ensures
            r.wf(),
            r@.len() == 1,
            r@[0].edges == Some(Seq::<(Key, usize)>::empty()),
            r@[0].action is None,
    {
        let mut nodes: Vec<CommandTreeNode> = Vec::new();
        nodes.push(CommandTreeNode::new_children());
        let r = CommandTree(nodes);
        assert(r@[0] == node_view(r.0@[0]));
        r
    }

    /// The node that `key_codes` leads to from the root, as an index.
    pub fn get_node(&self, key_codes: &[Key]) -> (r: Option<usize>)
        requires
            self.wf(),
        ensures
            r is None <==> walk(self@, 0, key_codes@) is None,
            r matches Some(n) ==> walk(self@, 0, key_codes@) == Some(n as int) && n < self@.len(),
    {
        let mut node: usize = 0;
        let mut i: usize = 0;
        assert(key_codes@.skip(0) =~= key_codes@);
        while i < key_codes.len()
            invariant
                self.wf(),
                i <= key_codes@.len(),
                node < self@.len(),
                walk(self@, 0, key_codes@) == walk(self@, node as int, key_codes@.skip(i as int)),
            decreases key_codes@.len() - i,
        {
            assert(self@[node as int] == node_view(self.0@[node as int]));
            let ghost rest = key_codes@.skip(i as int);
            assert(rest.drop_first() =~= key_codes@.skip(i + 1));
            match &self.0[node].children {
                None => {
                    return None;
                },
                Some(children) => {
                    match children.get_node(&key_codes[i]) {
                        None => {
                            return None;
                        },
                        Some(next) => {
                            proof {
                                lemma_child_in_edges(children.edges(), key_codes@[i as int]);
                            }
                            node = next;
                        },
                    }
                },
            }
            i = i + 1;
        }
        Some(node)
    }

    /// The top-level help: the chords from the root, then the keys for
    /// navigation and general actions.
    pub fn get_help(&self) -> (r: Vec<InfoLine>)
        requires
            self.wf(),
        ensures
            help_listing_of(
                lines_view(r@),
                group_set(
                    group_set(self@[0].help, "Navigation"@, navigation_help()),
                    "General"@,
                    general_help(),
                ),
            ),
    {
        assert(self@[0] == node_view(self.0@[0]));
        let mut groups = match &self.0[0].children {
            Some(children) => help_map_groups(&children.help),
            None => Vec::new(),
        };
        assert(groups_view(groups@) =~= self@[0].help);
        let nav = help_pairs(
            &[
                ("Tab ", "Toggle folding"),
                ("PgDn", "Move down page"),
                ("PgUp", "Move up page"),
                ("j/↓ ", "Move down"),
                ("k/↑ ", "Move up"),
                ("l/→ ", "Next sibling"),
                ("h/← ", "Prev sibling"),
                ("K", "Select parent"),
                ("@", "Select @ change"),
            ],
        );
        let general = help_pairs(
            &[
                ("Spc/Ctrl-r", "Refresh log tree"),
                ("Esc", "Clear app state"),
                ("L", "Set log revset"),
                ("I", "Toggle --ignore-immutable"),
                ("?", "Show help"),
                ("q", "Quit"),
            ],
        );
        assert(entries_view(nav@) =~= navigation_help());
        assert(entries_view(general@) =~= general_help());
        let nav_label = String::from_str("Navigation");
        let general_label = String::from_str("General");
        set_group(&mut groups, nav_label, nav);
        set_group(&mut groups, general_label, general);
        help_text(&groups)
    }

    /// The help listing of node `n`.
    pub fn node_help(&self, n: usize) -> (r: Vec<InfoLine>)
        requires
            n < self@.len(),
        ensures
            help_listing_of(lines_view(r@), self@[n as int].help),
    {
        assert(self@[n as int] == node_view(self.0@[n as int]));
        match &self.0[n].children {
            Some(children) => children.get_help(),
            None => help_text(&Vec::new()),
        }
    }

    /// Resolves a chord against the tree.
    pub fn resolve(&self, key_codes: &[Key]) -> (r: ChordResolution)
        requires
            self.wf(),
        ensures
            r == resolve_spec(self@, key_codes@),
            r matches ChordResolution::Menu(n) ==> n < self@.len(),
            r matches ChordResolution::Action { node, .. } ==> node < self@.len(),
    {
        match self.get_node(key_codes) {
            None => ChordResolution::Unresolved,
            Some(n) => {
                assert(self@[n as int] == node_view(self.0@[n as int]));
                match self.0[n].action {
                    Some(m) => ChordResolution::Action {
                        message: m,
                        node: n,
                        has_children: self.0[n].children.is_some(),
                    },
                    None => ChordResolution::Menu(n),
                }
            },
        }
    }

    /// Registers `node` at `key_codes`, listed under `help_group_text` in its
    /// parent's help. Returns false, changing nothing, when `key_codes` is
    /// empty or its prefix does not reach an interior node.
    pub fn add_child(
        &mut self,
        help_group_text: &str,
        help_text: &str,
        key_codes: &[Key],
        node: CommandTreeNode,
    ) -> (r: bool)
        requires
            old(self).wf(),
            fresh(node_view(node)),
        ensures
            final(self).wf(),
            r == (key_codes@.len() > 0 && old(self)@.len() < usize::MAX && (walk(
                old(self)@,
                0,
                key_codes@.drop_last(),
            ) matches Some(p) && old(self)@[p].edges is Some)),
            !r ==> final(self)@ == old(self)@,
            r ==> ({
                let p = walk(old(self)@, 0, key_codes@.drop_last())->0;
                let k = key_codes@.last();
                final(self)@ == old(self)@.update(
                    p,
                    NodeView {
                        edges: Some(edges_set(old(self)@[p].edges->0, k, old(self)@.len() as usize)),
                        help: group_added(
                            old(self)@[p].help,
                            help_group_text@,
                            (key_label_of(k), help_text@),
                        ),
                        action: old(self)@[p].action,
                    },
                ).push(node_view(node))
            }),
    {
        if key_codes.len() == 0 {
            return false;
        }
        let last = key_codes.len() - 1;
        let ghost prefix = key_codes@.drop_last();
        let rest = slice_prefix(key_codes, last);
        let parent = match self.get_node(&rest) {
            None => {
                assert(rest@ == prefix);
                return false;
            },
            Some(p) => p,
        };
        assert(rest@ == prefix);
        assert(self@[parent as int] == node_view(self.0@[parent as int]));
        if self.0[parent].children.is_none() {
            return false;
        }
        let new_index = self.0.len();
        if new_index == usize::MAX {
            return false;
        }
        let ghost old_nodes = self.0@;
        let mut taken = CommandTreeNode { children: None, action: None };
        self.0.set_and_swap(parent, &mut taken);
        let key = key_codes[last];
        match taken.children {
            Some(ref mut children) => {
                children.add_child(help_group_text, help_text, key, new_index);
            },
            None => {},
        }
        self.0.set_and_swap(parent, &mut taken);
        self.0.push(node);
        proof {
            let t = self@;
            let o = old(self)@;
            assert(t =~= o.update(
                parent as int,
                NodeView {
                    edges: Some(edges_set(o[parent as int].edges->0, key, new_index)),
                    help: group_added(o[parent as int].help, help_group_text@, (key_label_of(key), help_text@)),
                    action: o[parent as int].action,
                },
            ).push(node_view(node)));
            assert forall|n: int| 0 <= n < t.len() && (#[trigger] t[n]).edges is Some implies forall|j: int|
                0 <= j < t[n].edges->0.len() ==> n < (#[trigger] t[n].edges->0[j]).1 < t.len() by {
                if n == parent as int {
                    let es = o[n].edges->0;
                    assert forall|j: int| 0 <= j < t[n].edges->0.len() implies n < (#[trigger] t[n].edges->0[j]).1 < t.len() by {
                        let i = first_edge(es, key);
                        if i != -1 {
                            lemma_first_edge_range(es, key);
                        }
                        if i == -1 || j != i {
                            if j < es.len() {
                                assert(t[n].edges->0[j] == es[j]);
                            }
                        }
                    }
                }
            }
        }
        true
    }
}

proof fn lemma_first_edge_range(edges: Seq<(Key, usize)>, k: Key)
    ensures
        first_edge(edges, k) != -1 ==> 0 <= first_edge(edges, k) < edges.len(),
        first_edge(edges, k) >= -1,
    decreases edges.len(),
{
    if edges.len() > 0 && edges[0].0 != k {
        lemma_first_edge_range(edges.drop_first(), k);
    }
}

/// The first `n` keys as an owned list.
fn slice_prefix(keys: &[Key], n: usize) -> (r: Vec<Key>)
    requires
        n <= keys@.len(),
    ensures
        r@ == keys@.take(n as int),
{
    let mut r: Vec<Key> = Vec::new();
    let mut i: usize = 0;
    while i < n
        invariant
            i <= n <= keys@.len(),
            r@ == keys@.take(i as int),
        decreases n - i,
    {
        r.push(keys[i]);
        i = i + 1;
        assert(r@ =~= keys@.take(i as int));
    }
    r
}

/// Each group of `sorted` is the group of `groups` at the same place, with
/// its entries sorted case-insensitively by description.
pub open spec fn sorted_groups_of(sorted: Seq<HelpGroupView>, groups: Seq<HelpGroupView>) -> bool {
    &&& sorted.len() == groups.len()
    &&& forall|i: int|
        0 <= i < sorted.len() ==> (#[trigger] sorted[i]).0 == groups[i].0 && sorted_by_description(
            sorted[i].1,
        ) && sorted[i].1.to_multiset() == groups[i].1.to_multiset()
}

/// The notice lines of a help listing of these groups, laid out as they stand.
pub open spec fn help_lines(gs: Seq<HelpGroupView>) -> Seq<InfoLineView> {
    help_rows(all_columns(gs)).map_values(|row: Seq<HelpCellView>| InfoLineView::HelpRow(row))
}

/// `lines` list `groups` with each group's entries sorted by description.
pub open spec fn help_listing_of(lines: Seq<InfoLineView>, groups: Seq<HelpGroupView>) -> bool {
    exists|sorted: Seq<HelpGroupView>| sorted_groups_of(sorted, groups) && lines == help_lines(sorted)
}

/// The same groups, each with its entries sorted case-insensitively by description.
pub fn sort_groups(groups: &Vec<(String, Vec<(String, String)>)>) -> (r: Vec<(String, Vec<(String, String)>)>)
    ensures
        sorted_groups_of(groups_view(r@), groups_view(groups@)),
{
    let mut sorted: Vec<(String, Vec<(String, String)>)> = Vec::new();
    let mut i: usize = 0;
    while i < groups.len()
        invariant
            i <= groups@.len(),
            sorted@.len() == i,
            forall|j: int|
                0 <= j < i ==> (#[trigger] groups_view(sorted@)[j]).0 == groups_view(groups@)[j].0
                    && sorted_by_description(groups_view(sorted@)[j].1)
                    && groups_view(sorted@)[j].1.to_multiset() == groups_view(groups@)[j].1.to_multiset(),
        decreases groups@.len() - i,
    {
        let es = sort_by_description(&groups[i].1);
        let label = groups[i].0.clone();
        assert(groups_view(groups@)[i as int] == (groups@[i as int].0@, entries_view(groups@[i as int].1@)));
        let ghost before = sorted@;
        let ghost added = (label@, entries_view(es@));
        sorted.push((label, es));
        assert(groups_view(sorted@) =~= groups_view(before).push(added));
        i = i + 1;
    }
    sorted
}

/// Sorts each group's entries and lays the groups out as notice lines.
pub fn help_text(groups: &Vec<(String, Vec<(String, String)>)>) -> (r: Vec<InfoLine>)
    ensures
        help_listing_of(lines_view(r@), groups_view(groups@)),
{
    let sorted = sort_groups(groups);
    let rows = render_help_text(&sorted);
    let r = rows_to_lines(rows);
    assert(lines_view(r@) == help_lines(groups_view(sorted@)));
    r
}

/// Each row as a notice line.
fn rows_to_lines(rows: Vec<Vec<HelpCell>>) -> (r: Vec<InfoLine>)
    ensures
        lines_view(r@) == columns_view(rows@).map_values(
            |row: Seq<HelpCellView>| InfoLineView::HelpRow(row),
        ),
{
    let ghost all = columns_view(rows@);
    let mut rows = rows;
    let mut r: Vec<InfoLine> = Vec::new();
    while rows.len() > 0
        invariant
            lines_view(r@) + columns_view(rows@).map_values(
                |row: Seq<HelpCellView>| InfoLineView::HelpRow(row),
            ) == all.map_values(|row: Seq<HelpCellView>| InfoLineView::HelpRow(row)),
        decreases rows@.len(),
    {
        let ghost before_rows = rows@;
        let ghost before_r = r@;
        let row = rows.remove(0);
        let ghost rv = crate::help::cells_view(row@);
        r.push(InfoLine::HelpRow(row));
        assert(lines_view(r@) =~= lines_view(before_r).push(InfoLineView::HelpRow(rv)));
        assert(columns_view(before_rows).map_values(
            |row: Seq<HelpCellView>| InfoLineView::HelpRow(row),
        ) =~= seq![InfoLineView::HelpRow(rv)] + columns_view(rows@).map_values(
            |row: Seq<HelpCellView>| InfoLineView::HelpRow(row),
        ));
        assert(lines_view(r@) + columns_view(rows@).map_values(
            |row: Seq<HelpCellView>| InfoLineView::HelpRow(row),
        ) =~= lines_view(before_r) + columns_view(before_rows).map_values(
            |row: Seq<HelpCellView>| InfoLineView::HelpRow(row),
        ));
    }
    assert(lines_view(r@) =~= lines_view(r@) + columns_view(rows@).map_values(
        |row: Seq<HelpCellView>| InfoLineView::HelpRow(row),
    ));
    r
}

/// The groups after setting the group with this label to `es`, in place when
/// present, else last.
pub open spec fn group_set(
    gs: Seq<HelpGroupView>,
    label: Seq<char>,
    es: Seq<(Seq<char>, Seq<char>)>,
) -> Seq<HelpGroupView> {
    let i = group_index(gs, label);
    if i == -1 {
        gs.push((label, es))
    } else {
        gs.update(i, (label, es))
    }
}

proof fn lemma_group_index(gs: Seq<HelpGroupView>, label: Seq<char>, i: int)
    requires
        0 <= i <= gs.len(),
        forall|j: int| 0 <= j < i ==> (#[trigger] gs[j]).0 != label,
        i < gs.len() ==> gs[i].0 == label,
    ensures
        group_index(gs, label) == if i < gs.len() { i } else { -1 },
    decreases gs.len(),
{
    if gs.len() > 0 {
        if i == gs.len() {
            lemma_group_index(gs.drop_last(), label, i - 1);
        } else if i < gs.len() - 1 {
            lemma_group_index(gs.drop_last(), label, i);
        } else {
            lemma_group_index(gs.drop_last(), label, gs.len() - 1);
        }
    }
}

/// Sets the group with this label, as a map keyed by label does.
fn set_group(
    groups: &mut Vec<(String, Vec<(String, String)>)>,
    label: String,
    es: Vec<(String, String)>,
)
    ensures
        groups_view(final(groups)@) == group_set(groups_view(old(groups)@), label@, entries_view(es@)),
{
    let ghost gv = groups_view(groups@);
    let mut i: usize = 0;
    while i < groups.len() && !string_eq(&groups[i].0, &label)
        invariant
            i <= groups@.len(),
            groups@ == old(groups)@,
            gv == groups_view(groups@),
            forall|j: int| 0 <= j < i ==> (#[trigger] gv[j]).0 != label@,
        decreases groups@.len() - i,
    {
        i = i + 1;
    }
    proof {
        lemma_group_index(gv, label@, i as int);
    }
    let ghost added = (label@, entries_view(es@));
    if i < groups.len() {
        groups.set(i, (label, es));
        assert(groups_view(groups@) =~= gv.update(i as int, added));
    } else {
        groups.push((label, es));
        assert(groups_view(groups@) =~= gv.push(added));
    }
}

fn string_eq(a: &String, b: &String) -> (r: bool)
    ensures
        r == (a@ == b@),
{
    a.eq(b)
}

fn help_pairs(pairs: &[(&str, &str)]) -> (r: Vec<(String, String)>)
    ensures
        entries_view(r@) == pairs@.map_values(|p: (&str, &str)| (p.0@, p.1@)),
{
    let mut r: Vec<(String, String)> = Vec::new();
    let mut i: usize = 0;
    while i < pairs.len()
        invariant
            i <= pairs@.len(),
            entries_view(r@) == pairs@.take(i as int).map_values(|p: (&str, &str)| (p.0@, p.1@)),
        decreases pairs@.len() - i,
    {
        let ghost before = r@;
        let a = String::from_str(pairs[i].0);
        let b = String::from_str(pairs[i].1);
        r.push((a, b));
        assert(entries_view(r@) =~= entries_view(before).push((pairs@[i as int].0@, pairs@[i as int].1@)));
        assert(pairs@.take(i + 1) =~= pairs@.take(i as int).push(pairs@[i as int]));
        assert(entries_view(r@) =~= pairs@.take(i + 1).map_values(|p: (&str, &str)| (p.0@, p.1@)));
        i = i + 1;
    }
    assert(pairs@.take(pairs@.len() as int) =~= pairs@);
    r
}

/// Keys handled outside the chord trie, for the top-level help.
pub open spec fn navigation_help() -> Seq<(Seq<char>, Seq<char>)> {
    seq![
        ("Tab "@, "Toggle folding"@),
        ("PgDn"@, "Move down page"@),
        ("PgUp"@, "Move up page"@),
        ("j/↓ "@, "Move down"@),
        ("k/↑ "@, "Move up"@),
        ("l/→ "@, "Next sibling"@),
        ("h/← "@, "Prev sibling"@),
        ("K"@, "Select parent"@),
        ("@"@, "Select @ change"@),
    ]
}

pub open spec fn general_help() -> Seq<(Seq<char>, Seq<char>)> {
    seq![
        ("Spc/Ctrl-r"@, "Refresh log tree"@),
        ("Esc"@, "Clear app state"@),
        ("L"@, "Set log revset"@),
        ("I"@, "Toggle --ignore-immutable"@),
        ("?"@, "Show help"@),
        ("q"@, "Quit"@),
    ]
}

/// Index of the first edge under this key, or -1.
pub open spec fn first_edge(edges: Seq<(Key, usize)>, k: Key) -> int
    decreases edges.len(),
{
    if edges.len() == 0 {
        -1
    } else if edges[0].0 == k {
        0
    } else {
        let r = first_edge(edges.drop_first(), k);
        if r == -1 {
            -1
        } else {
            r + 1
        }
    }
}

/// The target of the first edge under this key.
pub open spec fn child_of(edges: Seq<(Key, usize)>, k: Key) -> Option<usize>
    decreases edges.len(),
{
    if edges.len() == 0 {
        None
    } else if edges[0].0 == k {
        Some(edges[0].1)
    } else {
        child_of(edges.drop_first(), k)
    }
}

/// The edges after pointing `k` at `n`: in place if present, else appended.
pub open spec fn edges_set(edges: Seq<(Key, usize)>, k: Key, n: usize) -> Seq<(Key, usize)> {
    let i = first_edge(edges, k);
    if i == -1 {
        edges.push((k, n))
    } else {
        edges.update(i, (k, n))
    }
}

proof fn lemma_first_edge(edges: Seq<(Key, usize)>, k: Key, i: int)
    requires
        0 <= i < edges.len(),
        edges[i].0 == k,
        forall|j: int| 0 <= j < i ==> (#[trigger] edges[j]).0 != k,
    ensures
        first_edge(edges, k) == i,
    decreases edges.len(),
{
    if i > 0 {
        lemma_first_edge(edges.drop_first(), k, i - 1);
    }
}

proof fn lemma_first_edge_none(edges: Seq<(Key, usize)>, k: Key)
    requires
        forall|j: int| 0 <= j < edges.len() ==> (#[trigger] edges[j]).0 != k,
    ensures
        first_edge(edges, k) == -1,
    decreases edges.len(),
{
    if edges.len() > 0 {
        lemma_first_edge_none(edges.drop_first(), k);
    }
}

} // verus!

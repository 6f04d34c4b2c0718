//! Help listings: case-insensitive ordering of entries.
use crate::command_tree::{entries_view, HelpGroupView};
use vstd::prelude::*;

verus! {

broadcast use vstd::seq_lib::group_to_multiset_ensures;

/// The lower-case form of a text, as `str::to_lowercase` gives it.
pub uninterp spec fn lower_of(s: Seq<char>) -> Seq<char>;

/// Relies on `str::to_lowercase`: the result depends on the characters alone.
#[verifier::external_body]
fn lowercase(s: &str) -> (r: String)
    ensures
        r@ == lower_of(s@),
{
    s.to_lowercase()
}

/// Lexicographic order on texts by character code, the order of `str`.
pub open spec fn seq_le(a: Seq<char>, b: Seq<char>) -> bool
    decreases a.len(),
{
    if a.len() == 0 {
        true
    } else if b.len() == 0 {
        false
    } else if (a[0] as u32) < (b[0] as u32) {
        true
    } else if (a[0] as u32) > (b[0] as u32) {
        false
    } else {
        seq_le(a.drop_first(), b.drop_first())
    }
}

pub proof fn lemma_seq_le_total(a: Seq<char>, b: Seq<char>)
    ensures
        seq_le(a, b) || seq_le(b, a),
    decreases a.len(),
{
    if a.len() > 0 && b.len() > 0 && a[0] as u32 == b[0] as u32 {
        lemma_seq_le_total(a.drop_first(), b.drop_first());
    }
}

pub proof fn lemma_seq_le_trans(a: Seq<char>, b: Seq<char>, c: Seq<char>)
    requires
        seq_le(a, b),
        seq_le(b, c),
    ensures
        seq_le(a, c),
    decreases a.len(),
{
    if a.len() > 0 && b.len() > 0 && c.len() > 0 {
        if a[0] as u32 == b[0] as u32 && b[0] as u32 == c[0] as u32 {
            lemma_seq_le_trans(a.drop_first(), b.drop_first(), c.drop_first());
        }
    }
}

/// Whether `a` comes no later than `b` in the order of `str`.
pub fn str_le(a: &str, b: &str) -> (r: bool)
    ensures
        r == seq_le(a@, b@),
{
    let la = a.unicode_len();
    let lb = b.unicode_len();
    let mut i: usize = 0;
    assert(a@.skip(0) =~= a@);
    assert(b@.skip(0) =~= b@);
    loop
        invariant
            i <= la,
            i <= lb,
            la == a@.len(),
            lb == b@.len(),
            seq_le(a@, b@) == seq_le(a@.skip(i as int), b@.skip(i as int)),
        decreases la - i,
    {
        if i == la {
            return true;
        }
        if i == lb {
            return false;
        }
        let ca = a.get_char(i) as u32;
        let cb = b.get_char(i) as u32;
        if ca < cb {
            return true;
        }
        if ca > cb {
            return false;
        }
        assert(a@.skip(i as int).drop_first() =~= a@.skip(i + 1));
        assert(b@.skip(i as int).drop_first() =~= b@.skip(i + 1));
        i = i + 1;
    }
}

/// Entries ordered case-insensitively by their description.
pub open spec fn sorted_by_description(es: Seq<(Seq<char>, Seq<char>)>) -> bool {
    forall|i: int, j: int|
        0 <= i < j < es.len() ==> seq_le(lower_of(#[trigger] es[i].1), lower_of(#[trigger] es[j].1))
}

/// The same entries, ordered case-insensitively by description.
pub fn sort_by_description(es: &Vec<(String, String)>) -> (r: Vec<(String, String)>)
    ensures
        sorted_by_description(entries_view(r@)),
        entries_view(r@).to_multiset() == entries_view(es@).to_multiset(),
{
    let mut r: Vec<(String, String)> = Vec::new();
    let mut keys: Vec<String> = Vec::new();
    let mut i: usize = 0;
    while i < es.len()
        invariant
            i <= es@.len(),
            keys@.len() == r@.len(),
            forall|j: int| 0 <= j < r@.len() ==> (#[trigger] keys@[j])@ == lower_of(r@[j].1@),
            sorted_by_description(entries_view(r@)),
            entries_view(r@).to_multiset() == entries_view(es@.take(i as int)).to_multiset(),
        decreases es@.len() - i,
    {
        let e = (es[i].0.clone(), es[i].1.clone());
        let k = lowercase(es[i].1.as_str());
        let mut p: usize = 0;
        while p < keys.len() && str_le(keys[p].as_str(), k.as_str())
            invariant
                p <= keys@.len(),
                forall|j: int| 0 <= j < p ==> seq_le(#[trigger] keys@[j]@, k@),
            decreases keys@.len() - p,
        {
            p = p + 1;
        }
        proof {
            if p < keys@.len() {
                lemma_seq_le_total(keys@[p as int]@, k@);
            }
            assert forall|j: int| p <= j < keys@.len() implies seq_le(k@, #[trigger] keys@[j]@) by {
                if j > p {
                    assert(seq_le(lower_of(entries_view(r@)[p as int].1), lower_of(entries_view(r@)[j].1)));
                    lemma_seq_le_trans(k@, keys@[p as int]@, keys@[j]@);
                }
            }
        }
        let ghost old_r = r@;
        let ghost ev = (e.0@, e.1@);
        r.insert(p, e);
        keys.insert(p, k);
        proof {
            assert(entries_view(r@) =~= entries_view(old_r).insert(p as int, ev));
            assert(es@.take(i + 1) =~= es@.take(i as int).push(es@[i as int]));
            assert(entries_view(es@.take(i + 1)) =~= entries_view(es@.take(i as int)).push(ev));
            assert forall|a: int, b: int| 0 <= a < b < r@.len() implies seq_le(
                lower_of(#[trigger] entries_view(r@)[a].1),
                lower_of(#[trigger] entries_view(r@)[b].1),
            ) by {
                assert(lower_of(entries_view(r@)[a].1) == keys@[a]@);
                assert(lower_of(entries_view(r@)[b].1) == keys@[b]@);
                if a < p && b > p {
                    lemma_seq_le_trans(keys@[a]@, k@, keys@[b]@);
                } else if a < p && b < p {
                    assert(seq_le(lower_of(entries_view(old_r)[a].1), lower_of(entries_view(old_r)[b].1)));
                } else if a > p && b > p {
                    assert(seq_le(lower_of(entries_view(old_r)[a - 1].1), lower_of(entries_view(old_r)[b - 1].1)));
                } else if a < p && b == p {
                } else if a == p {
                } else {
                    assert(seq_le(lower_of(entries_view(old_r)[a].1), lower_of(entries_view(old_r)[b - 1].1)));
                }
            }
        }
        i = i + 1;
    }
    assert(es@.take(es@.len() as int) =~= es@);
    r
}

} // verus!

verus! {

/// Width of a help column, in characters.
pub const COL_WIDTH: usize = 26;

/// Entries per column before a group continues in a new column.
pub const MAX_ENTRIES_PER_COL: usize = 14;

/// One cell of a help listing.
#[derive(Debug, Clone)]
pub enum HelpCell {
    /// A group label (or nothing, for a continued group), padded or cut to the column width.
    Header(String),
    /// A key label and description, cut to fit the column, followed by `padding` spaces.
    Entry { key: String, help: String, padding: usize },
    /// An empty cell below a short column.
    Blank,
}

pub enum HelpCellView {
    Header(Seq<char>),
    Entry { key: Seq<char>, help: Seq<char>, padding: nat },
    Blank,
}

pub open spec fn cell_view(c: HelpCell) -> HelpCellView {
    match c {
        HelpCell::Header(s) => HelpCellView::Header(s@),
        HelpCell::Entry { key, help, padding } => HelpCellView::Entry {
            key: key@,
            help: help@,
            padding: padding as nat,
        },
        HelpCell::Blank => HelpCellView::Blank,
    }
}

/// The number of characters a cell takes on screen.
pub open spec fn cell_width(c: HelpCellView) -> nat {
    match c {
        HelpCellView::Header(s) => s.len(),
        HelpCellView::Entry { key, help, padding } => key.len() + 1 + help.len() + padding,
        HelpCellView::Blank => COL_WIDTH as nat,
    }
}

pub open spec fn spaces(n: nat) -> Seq<char> {
    Seq::new(n, |i: int| ' ')
}

/// Text left-aligned in a column: padded with spaces to the column width,
/// or cut to it.
pub open spec fn padded(s: Seq<char>) -> Seq<char> {
    if s.len() < COL_WIDTH {
        s + spaces((COL_WIDTH - s.len()) as nat)
    } else {
        s.take(COL_WIDTH as int)
    }
}

/// At most the first `n` characters.
pub open spec fn cut(s: Seq<char>, n: nat) -> Seq<char> {
    if s.len() <= n {
        s
    } else {
        s.take(n as int)
    }
}

/// An entry in a column: the key and the description, cut so that key,
/// space and description fit (the description first), then padded.
pub open spec fn entry_cell(e: (Seq<char>, Seq<char>)) -> HelpCellView {
    let key = cut(e.0, (COL_WIDTH - 1) as nat);
    let help = cut(e.1, (COL_WIDTH - 1 - key.len()) as nat);
    HelpCellView::Entry { key, help, padding: (COL_WIDTH - 1 - key.len() - help.len()) as nat }
}

pub open spec fn num_chunks(n: nat) -> nat {
    ((n + MAX_ENTRIES_PER_COL as nat - 1) / (MAX_ENTRIES_PER_COL as int)) as nat
}

pub open spec fn chunk_len(n: nat, j: nat) -> nat {
    let start = j * MAX_ENTRIES_PER_COL;
    if n - start < MAX_ENTRIES_PER_COL {
        (n - start) as nat
    } else {
        MAX_ENTRIES_PER_COL as nat
    }
}

/// Column `j` of a group: a header (the label on the first column only) and
/// the group's entries from `j * MAX_ENTRIES_PER_COL` on, at most
/// `MAX_ENTRIES_PER_COL` of them.
pub open spec fn chunk_column(g: HelpGroupView, j: nat) -> Seq<HelpCellView> {
    seq![HelpCellView::Header(padded(if j == 0 { g.0 } else { Seq::empty() }))] + Seq::new(
        chunk_len(g.1.len(), j),
        |e: int| entry_cell(g.1[j * MAX_ENTRIES_PER_COL + e]),
    )
}

pub open spec fn group_columns(g: HelpGroupView) -> Seq<Seq<HelpCellView>> {
    Seq::new(num_chunks(g.1.len()), |j: int| chunk_column(g, j as nat))
}

/// The columns of all groups, in order.
pub open spec fn all_columns(gs: Seq<HelpGroupView>) -> Seq<Seq<HelpCellView>>
    decreases gs.len(),
{
    if gs.len() == 0 {
        Seq::empty()
    } else {
        all_columns(gs.drop_last()) + group_columns(gs.last())
    }
}

pub open spec fn max_len(cols: Seq<Seq<HelpCellView>>) -> nat
    decreases cols.len(),
{
    if cols.len() == 0 {
        0
    } else {
        let m = max_len(cols.drop_last());
        if cols.last().len() > m {
            cols.last().len()
        } else {
            m
        }
    }
}

/// Row `i` holds cell `i` of every column, or a blank cell below a short column.
pub open spec fn help_rows(cols: Seq<Seq<HelpCellView>>) -> Seq<Seq<HelpCellView>> {
    Seq::new(
        max_len(cols),
        |i: int|
            Seq::new(
                cols.len(),
                |c: int|
                    if i < cols[c].len() {
                        cols[c][i]
                    } else {
                        HelpCellView::Blank
                    },
            ),
    )
}

pub open spec fn cells_view(cs: Seq<HelpCell>) -> Seq<HelpCellView> {
    cs.map_values(|c: HelpCell| cell_view(c))
}

pub open spec fn columns_view(cols: Seq<Vec<HelpCell>>) -> Seq<Seq<HelpCellView>> {
    cols.map_values(|c: Vec<HelpCell>| cells_view(c@))
}

/// The text padded with spaces to the column width, or cut to it.
fn pad_to_width(s: &str) -> (r: String)
    ensures
        r@ == padded(s@),
{
    let len = s.unicode_len();
    if len >= COL_WIDTH {
        return String::from_str(s.substring_char(0, COL_WIDTH));
    }
    let mut r = String::from_str(s);
    {
        let mut i: usize = len;
        while i < COL_WIDTH
            invariant
                len <= i <= COL_WIDTH,
                len == s@.len(),
                r@ == s@ + spaces((i - len) as nat),
            decreases COL_WIDTH - i,
        {
            r.append(" ");
            proof {
                reveal_strlit(" ");
            }
            assert(r@ =~= s@ + spaces((i + 1 - len) as nat));
            i = i + 1;
        }
    }
    r
}

/// At most the first `n` characters of the text.
fn cut_to(s: &str, n: usize) -> (r: String)
    ensures
        r@ == cut(s@, n as nat),
{
    let len = s.unicode_len();
    if len <= n {
        String::from_str(s)
    } else {
        String::from_str(s.substring_char(0, n))
    }
}

fn make_entry_cell(e: &(String, String)) -> (r: HelpCell)
    ensures
        cell_view(r) == entry_cell((e.0@, e.1@)),
{
    let key = cut_to(e.0.as_str(), COL_WIDTH - 1);
    let k = key.as_str().unicode_len();
    let help = cut_to(e.1.as_str(), COL_WIDTH - 1 - k);
    let h = help.as_str().unicode_len();
    HelpCell::Entry { key, help, padding: COL_WIDTH - 1 - k - h }
}

proof fn lemma_chunks(n: nat, j: nat)
    requires
        j * MAX_ENTRIES_PER_COL < n,
    ensures
        j < num_chunks(n),
        n - j * MAX_ENTRIES_PER_COL <= MAX_ENTRIES_PER_COL ==> num_chunks(n) == j + 1,
{
    assert(j < (n + 13) / 14) by (nonlinear_arith)
        requires
            j * 14 < n,
    ;
    assert(n - j * 14 <= 14 ==> (n + 13) / 14 == j + 1) by (nonlinear_arith)
        requires
            j * 14 < n,
    ;
}

/// The columns of one group.
fn group_help_columns(label: &String, es: &Vec<(String, String)>) -> (r: Vec<Vec<HelpCell>>)
    ensures
        columns_view(r@) == group_columns((label@, crate::command_tree::entries_view(es@))),
{
    let ghost g = (label@, crate::command_tree::entries_view(es@));
    let n = es.len();
    let mut r: Vec<Vec<HelpCell>> = Vec::new();
    let mut start: usize = 0;
    let mut j: usize = 0;
    if n == 0 {
        assert(num_chunks(0) == 0);
        assert(columns_view(r@) =~= group_columns(g));
        return r;
    }
    while start < n
        invariant
            n == es@.len(),
            n > 0,
            start <= n,
            g == (label@, crate::command_tree::entries_view(es@)),
            start < n ==> start == j * MAX_ENTRIES_PER_COL,
            start == n ==> j == num_chunks(n as nat),
            r@.len() == j,
            forall|c: int| 0 <= c < j ==> #[trigger] columns_view(r@)[c] == chunk_column(g, c as nat),
        decreases n - start,
    {
        proof {
            lemma_chunks(n as nat, j as nat);
        }
        let header = if j == 0 {
            pad_to_width(label.as_str())
        } else {
            pad_to_width("")
        };
        proof {
            reveal_strlit("");
            assert(""@ =~= Seq::<char>::empty());
        }
        let ghost hv = header@;
        let mut col: Vec<HelpCell> = vec![HelpCell::Header(header)];
        assert(cells_view(col@)[0] == HelpCellView::Header(hv));
        let end = if n - start < MAX_ENTRIES_PER_COL { n } else { start + MAX_ENTRIES_PER_COL };
        assert(cells_view(col@)[0] == chunk_column(g, j as nat)[0]);
        let mut e: usize = start;
        while e < end
            invariant
                start <= e <= end <= n,
                n == es@.len(),
                end - start == chunk_len(n as nat, j as nat),
                start == j * MAX_ENTRIES_PER_COL,
                g == (label@, crate::command_tree::entries_view(es@)),
                col@.len() == 1 + e - start,
                forall|x: int|
                    0 <= x < col@.len() ==> #[trigger] cells_view(col@)[x] == chunk_column(
                        g,
                        j as nat,
                    )[x],
            decreases end - e,
        {
            let cell = make_entry_cell(&es[e]);
            let ghost cv = cell_view(cell);
            assert(g.1[e as int] == (es@[e as int].0@, es@[e as int].1@));
            assert(chunk_column(g, j as nat)[1 + e - start] == entry_cell(g.1[e as int]));
            let ghost before = col@;
            col.push(cell);
            assert(cells_view(col@) =~= cells_view(before).push(cv));
            e = e + 1;
        }
        assert(cells_view(col@) =~= chunk_column(g, j as nat));
        let ghost before = r@;
        r.push(col);
        assert(columns_view(r@) =~= columns_view(before).push(chunk_column(g, j as nat)));
        start = end;
        j = j + 1;
    }
    assert(columns_view(r@) =~= group_columns(g));
    r
}

fn copy_cell(c: &HelpCell) -> (r: HelpCell)
    ensures
        cell_view(r) == cell_view(*c),
{
    match c {
        HelpCell::Header(s) => HelpCell::Header(s.clone()),
        HelpCell::Entry { key, help, padding } => HelpCell::Entry {
            key: key.clone(),
            help: help.clone(),
            padding: *padding,
        },
        HelpCell::Blank => HelpCell::Blank,
    }
}

/// The rows of a help listing for these groups: groups side by side in
/// columns, a group longer than `MAX_ENTRIES_PER_COL` continuing in further
/// columns, short columns padded with blank cells.
pub fn render_help_text(entries: &Vec<(String, Vec<(String, String)>)>) -> (r: Vec<Vec<HelpCell>>)
    ensures
        columns_view(r@) == help_rows(all_columns(crate::command_tree::groups_view(entries@))),
{
    let ghost gs = crate::command_tree::groups_view(entries@);
    let mut cols: Vec<Vec<HelpCell>> = Vec::new();
    let mut i: usize = 0;
    assert(gs.take(0) =~= Seq::<HelpGroupView>::empty());
    while i < entries.len()
        invariant
            i <= entries@.len(),
            gs == crate::command_tree::groups_view(entries@),
            columns_view(cols@) == all_columns(gs.take(i as int)),
        decreases entries@.len() - i,
    {
        let mut group_cols = group_help_columns(&entries[i].0, &entries[i].1);
        assert(gs[i as int] == (entries@[i as int].0@, crate::command_tree::entries_view(entries@[i as int].1@)));
        assert(gs.take(i + 1).drop_last() =~= gs.take(i as int));
        let ghost before = cols@;
        let ghost added = group_cols@;
        cols.append(&mut group_cols);
        assert(columns_view(cols@) =~= columns_view(before) + columns_view(added));
        i = i + 1;
    }
    assert(gs.take(entries@.len() as int) =~= gs);
    let ghost cv = columns_view(cols@);
    let mut rows: usize = 0;
    let mut c: usize = 0;
    assert(cv.take(0) =~= Seq::<Seq<HelpCellView>>::empty());
    while c < cols.len()
        invariant
            c <= cols@.len(),
            cv == columns_view(cols@),
            rows == max_len(cv.take(c as int)),
        decreases cols@.len() - c,
    {
        assert(cv.take(c + 1).drop_last() =~= cv.take(c as int));
        assert(cv[c as int] == cells_view(cols@[c as int]@));
        if cols[c].len() > rows {
            rows = cols[c].len();
        }
        c = c + 1;
    }
    assert(cv.take(cols@.len() as int) =~= cv);
    let mut r: Vec<Vec<HelpCell>> = Vec::new();
    let mut y: usize = 0;
    while y < rows
        invariant
            y <= rows,
            rows == max_len(cv),
            cv == columns_view(cols@),
            r@.len() == y,
            forall|k: int| 0 <= k < y ==> #[trigger] columns_view(r@)[k] == help_rows(cv)[k],
        decreases rows - y,
    {
        let mut row: Vec<HelpCell> = Vec::new();
        let mut x: usize = 0;
        while x < cols.len()
            invariant
                x <= cols@.len(),
                y < rows,
                rows == max_len(cv),
                cv == columns_view(cols@),
                row@.len() == x,
                forall|k: int| 0 <= k < x ==> #[trigger] cells_view(row@)[k] == help_rows(cv)[y as int][k],
            decreases cols@.len() - x,
        {
            assert(cv[x as int] == cells_view(cols@[x as int]@));
            let ghost expected = help_rows(cv)[y as int][x as int];
            assert(help_rows(cv)[y as int] == Seq::new(
                cv.len(),
                |c: int|
                    if (y as int) < cv[c].len() {
                        cv[c][y as int]
                    } else {
                        HelpCellView::Blank
                    },
            ));
            let cell = if y < cols[x].len() {
                assert(cv[x as int][y as int] == cell_view(cols@[x as int]@[y as int]));
                copy_cell(&cols[x][y])
            } else {
                HelpCell::Blank
            };
            assert(cell_view(cell) == expected);
            let ghost before = row@;
            row.push(cell);
            assert(cells_view(row@) =~= cells_view(before).push(expected));
            x = x + 1;
        }
        assert(cells_view(row@) =~= help_rows(cv)[y as int]);
        let ghost before = r@;
        r.push(row);
        assert(columns_view(r@) =~= columns_view(before).push(help_rows(cv)[y as int]));
        y = y + 1;
    }
    assert(columns_view(r@) =~= help_rows(cv));
    r
}


/// A cell takes exactly a column's width.
pub open spec fn aligned(c: HelpCellView) -> bool {
    cell_width(c) == COL_WIDTH
}

proof fn lemma_columns_aligned(gs: Seq<HelpGroupView>)
    ensures
        forall|c: int, x: int|
            0 <= c < all_columns(gs).len() && 0 <= x < all_columns(gs)[c].len() ==> aligned(
                #[trigger] all_columns(gs)[c][x],
            ),
    decreases gs.len(),
{
    if gs.len() > 0 {
        lemma_columns_aligned(gs.drop_last());
        let prev = all_columns(gs.drop_last());
        let g = gs.last();
        assert forall|c: int, x: int|
            0 <= c < all_columns(gs).len() && 0 <= x < all_columns(gs)[c].len() implies aligned(
                #[trigger] all_columns(gs)[c][x],
            ) by {
            if c >= prev.len() {
                let j = c - prev.len();
                assert(all_columns(gs)[c] == chunk_column(g, j as nat));
                if x == 0 {
                    let label: Seq<char> = if j == 0 { g.0 } else { Seq::empty() };
                    assert(padded(label).len() == COL_WIDTH);
                } else {
                    let e = g.1[j * MAX_ENTRIES_PER_COL + x - 1];
                    assert(all_columns(gs)[c][x] == entry_cell(e));
                }
            } else {
                assert(all_columns(gs)[c] == prev[c]);
            }
        }
    }
}

/// Help rendering keeps its columns aligned: every row of a listing has one
/// cell per column, short columns are filled with blank cells, and every cell
/// is exactly a column wide, so all rows have the same width.
pub proof fn lemma_help_rows_aligned(gs: Seq<HelpGroupView>)
    ensures
        forall|i: int|
            0 <= i < help_rows(all_columns(gs)).len() ==> (#[trigger] help_rows(
                all_columns(gs),
            )[i]).len() == all_columns(gs).len(),
        forall|i: int, c: int|
            0 <= i < help_rows(all_columns(gs)).len() && 0 <= c < all_columns(gs).len() ==> aligned(
                #[trigger] help_rows(all_columns(gs))[i][c],
            ),
{
    lemma_columns_aligned(gs);
}

} // verus!

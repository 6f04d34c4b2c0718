//! The notice area: the lines shown under the log, in plain values that the
//! rendering layer styles.
use crate::help::{cell_view, HelpCell, HelpCellView};
use crate::keys::Key;
use vstd::prelude::*;

verus! {

/// One line of the notice area.
#[derive(Debug, Clone)]
pub enum InfoLine {
    /// Plain text.
    Plain(String),
    /// An empty separating line.
    Blank,
    /// The invocation line of a command: the tool name followed by these arguments.
    Invocation(Vec<String>),
    /// Text that a command printed, with its terminal styling.
    Output(String),
    /// A key that extends the chord to nothing.
    UnboundSuffix(Key),
    /// One row of a help listing.
    HelpRow(Vec<HelpCell>),
}

pub enum InfoLineView {
    Plain(Seq<char>),
    Blank,
    Invocation(Seq<Seq<char>>),
    Output(Seq<char>),
    UnboundSuffix(Key),
    HelpRow(Seq<HelpCellView>),
}

pub open spec fn line_view(l: InfoLine) -> InfoLineView {
    match l {
        InfoLine::Plain(s) => InfoLineView::Plain(s@),
        InfoLine::Blank => InfoLineView::Blank,
        InfoLine::Invocation(a) => InfoLineView::Invocation(a.deep_view()),
        InfoLine::Output(s) => InfoLineView::Output(s@),
        InfoLine::UnboundSuffix(k) => InfoLineView::UnboundSuffix(k),
        InfoLine::HelpRow(cells) => InfoLineView::HelpRow(cells@.map_values(|c: HelpCell| cell_view(c))),
    }
}

pub open spec fn lines_view(ls: Seq<InfoLine>) -> Seq<InfoLineView> {
    ls.map_values(|l: InfoLine| line_view(l))
}

pub open spec fn info_view(info: Option<Vec<InfoLine>>) -> Option<Seq<InfoLineView>> {
    match info {
        Some(ls) => Some(lines_view(ls@)),
        None => None,
    }
}

/// The notice area after an unbound key: the same key again collapses onto
/// its own line; another key starts a new line after a blank one.
pub open spec fn unbound_added(info: Option<Seq<InfoLineView>>, k: Key) -> Option<Seq<InfoLineView>> {
    match info {
        None => Some(seq![InfoLineView::UnboundSuffix(k)]),
        Some(ls) => if ls.len() == 0 {
            Some(seq![InfoLineView::UnboundSuffix(k)])
        } else if ls.last() == InfoLineView::UnboundSuffix(k) {
            Some(ls)
        } else {
            Some(ls + seq![InfoLineView::Blank, InfoLineView::UnboundSuffix(k)])
        },
    }
}

/// Reports an unbound chord suffix in the notice area.
pub fn display_unbound_error_lines(info_list: &mut Option<Vec<InfoLine>>, key_code: &Key)
    ensures
        info_view(*final(info_list)) == unbound_added(info_view(*old(info_list)), *key_code),
{
    match info_list {
        None => {
            let lines = vec![InfoLine::UnboundSuffix(*key_code)];
            assert(lines_view(lines@) =~= seq![InfoLineView::UnboundSuffix(*key_code)]);
            *info_list = Some(lines);
        },
        Some(lines) => {
            let n = lines.len();
            let same = n > 0 && match &lines[n - 1] {
                InfoLine::UnboundSuffix(k) => *k == *key_code,
                _ => false,
            };
            if n == 0 {
                lines.push(InfoLine::UnboundSuffix(*key_code));
                assert(lines_view(lines@) =~= seq![InfoLineView::UnboundSuffix(*key_code)]);
            } else if !same {
                let ghost before = lines@;
                lines.push(InfoLine::Blank);
                lines.push(InfoLine::UnboundSuffix(*key_code));
                assert(lines_view(lines@) =~= lines_view(before) + seq![
                    InfoLineView::Blank,
                    InfoLineView::UnboundSuffix(*key_code),
                ]);
            } else {
                assert(lines_view(lines@).last() == line_view(lines@.last()));
            }
        },
    }
}

} // verus!

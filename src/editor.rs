//! The text exchanged with the external editor that collects free-text input.
use crate::display::{is_prefix, starts_with};
use crate::jj_command::{opt_str_view, trim, trim_of};
use crate::log_rows::{lemma_split_nonempty, split_char};
use vstd::prelude::*;

verus! {

/// Lines that start with this are comments, removed from what the user wrote.
pub const COMMENT_PREFIX: &'static str = "JJ:";

pub const COMMENT_NOTE: &'static str = "JJ: Lines starting with \"JJ:\" (like this one) will be removed.";

pub open spec fn strip_cr(l: Seq<char>) -> Seq<char> {
    if l.len() > 0 && l.last() == '\r' {
        l.drop_last()
    } else {
        l
    }
}

/// The lines of a text as `str::lines` gives them: split at `\n` or `\r\n`,
/// with no empty line after a final line ending.
pub open spec fn text_lines(s: Seq<char>) -> Seq<Seq<char>> {
    let p = split_char(s, '\n');
    let body = p.drop_last().map_values(|l: Seq<char>| strip_cr(l));
    if p.last().len() == 0 {
        body
    } else {
        body.push(p.last())
    }
}

/// The lines that are not comments.
pub open spec fn kept(ls: Seq<Seq<char>>) -> Seq<Seq<char>>
    decreases ls.len(),
{
    if ls.len() == 0 {
        seq![]
    } else {
        kept(ls.drop_last()) + if is_prefix(COMMENT_PREFIX@, ls.last()) {
            seq![]
        } else {
            seq![ls.last()]
        }
    }
}

/// Lines joined with newlines.
pub open spec fn join_lines(ls: Seq<Seq<char>>) -> Seq<char>
    decreases ls.len(),
{
    if ls.len() == 0 {
        seq![]
    } else if ls.len() == 1 {
        ls[0]
    } else {
        join_lines(ls.drop_last()) + seq!['\n'] + ls.last()
    }
}

/// What the user wrote: the lines that are not comments, joined.
pub open spec fn editor_text(s: Seq<char>) -> Seq<char> {
    join_lines(kept(text_lines(s)))
}

/// The line without a final carriage return.
fn strip_cr_exec(l: &str) -> (r: &str)
    ensures
        r@ == strip_cr(l@),
{
    let n = l.unicode_len();
    if n > 0 && l.get_char(n - 1) == '\r' {
        l.substring_char(0, n - 1)
    } else {
        l
    }
}

/// Adds a line to the kept text when it is not a comment.
fn keep_line(out: &mut String, count: &mut usize, line: &str, ghost_lines: Ghost<Seq<Seq<char>>>)
    requires
        old(out)@ == join_lines(kept(ghost_lines@)),
        *old(count) == kept(ghost_lines@).len(),
        *old(count) < usize::MAX,
    ensures
        final(out)@ == join_lines(kept(ghost_lines@.push(line@))),
        *final(count) == kept(ghost_lines@.push(line@)).len(),
        *final(count) <= *old(count) + 1,
{
    let ghost ls = ghost_lines@.push(line@);
    assert(ls.drop_last() =~= ghost_lines@);
    if !starts_with(line, COMMENT_PREFIX) {
        let ghost k = kept(ghost_lines@);
        assert(kept(ls) == k.push(line@));
        assert(k.push(line@).drop_last() =~= k);
        if *count > 0 {
            out.append("\n");
            proof {
                reveal_strlit("\n");
            }
        } else {
            assert(k.len() == 0);
        }
        out.append(line);
        *count = *count + 1;
    } else {
        assert(kept(ls) =~= kept(ghost_lines@));
    }
}

/// What the user wrote in the editor, without comment lines and surrounding
/// whitespace; `None` when nothing is left, which means the input was cancelled.
pub fn editor_result(contents: &str) -> (r: Option<String>)
    ensures
        trim_of(editor_text(contents@)).len() == 0 ==> r is None,
        trim_of(editor_text(contents@)).len() > 0 ==> (r matches Some(t) && t@ == trim_of(
            editor_text(contents@),
        )),
{
    let n = contents.unicode_len();
    let mut out = String::new();
    let mut count: usize = 0;
    let mut start: usize = 0;
    let mut i: usize = 0;
    let ghost s = contents@;
    assert(s.take(0) =~= Seq::<char>::empty());
    while i < n
        invariant
            start <= i <= n,
            n == s.len(),
            s == contents@,
            count <= start,
            split_char(s.take(i as int), '\n').len() >= 1,
            split_char(s.take(i as int), '\n').last() == s.subrange(start as int, i as int),
            out@ == join_lines(kept(split_char(s.take(i as int), '\n').drop_last().map_values(|l: Seq<char>| strip_cr(l)))),
            count == kept(split_char(s.take(i as int), '\n').drop_last().map_values(|l: Seq<char>| strip_cr(l))).len(),
        decreases n - i,
    {
        let ghost p = split_char(s.take(i as int), '\n');
        let ghost done = p.drop_last().map_values(|l: Seq<char>| strip_cr(l));
        assert(s.take(i + 1).drop_last() =~= s.take(i as int));
        let c = contents.get_char(i);
        if c == '\n' {
            let piece = contents.substring_char(start, i);
            let line = strip_cr_exec(piece);
            keep_line(&mut out, &mut count, line, Ghost(done));
            let ghost p2 = split_char(s.take(i + 1), '\n');
            assert(p2 == p.push(seq![]));
            assert(p2.drop_last().map_values(|l: Seq<char>| strip_cr(l)) =~= done.push(line@));
            assert(s.subrange(i + 1, i + 1) =~= Seq::<char>::empty());
            start = i + 1;
        } else {
            let ghost p2 = split_char(s.take(i + 1), '\n');
            assert(p2 == p.update(p.len() - 1, p.last().push(c)));
            assert(p2.drop_last() =~= p.drop_last());
            assert(s.subrange(start as int, i + 1) =~= s.subrange(start as int, i as int).push(c));
        }
        i = i + 1;
    }
    assert(s.take(n as int) =~= s);
    proof {
        lemma_split_nonempty(s, '\n');
    }
    let ghost done = split_char(s, '\n').drop_last().map_values(|l: Seq<char>| strip_cr(l));
    if start < n {
        let last = contents.substring_char(start, n);
        keep_line(&mut out, &mut count, last, Ghost(done));
        assert(text_lines(s) == done.push(last@));
    } else {
        assert(text_lines(s) == done);
    }
    let t = trim(out.as_str());
    if t.as_str().unicode_len() == 0 {
        None
    } else {
        Some(t)
    }
}

/// The starting text, if any, followed by the hint as comment lines.
pub open spec fn editor_template_view(starting_text: Option<Seq<char>>, help_text: Option<Seq<char>>) -> Seq<char> {
    (match starting_text {
        Some(t) => t + "\n"@,
        None => seq![],
    }) + match help_text {
        Some(h) => "\n\nJJ: "@ + h + "\n"@ + COMMENT_NOTE@ + "\n"@,
        None => seq![],
    }
}

/// The text that the editor opens with.
pub fn editor_template(starting_text: Option<&str>, help_text: Option<&str>) -> (r: String)
    ensures
        r@ == editor_template_view(opt_str_view(starting_text), opt_str_view(help_text)),
{
    let mut r = String::new();
    if let Some(text) = starting_text {
        r.append(text);
        r.append("\n");
    }
    if let Some(text) = help_text {
        r.append("\n\nJJ: ");
        r.append(text);
        r.append("\n");
        r.append(COMMENT_NOTE);
        r.append("\n");
    }
    assert(r@ =~= editor_template_view(opt_str_view(starting_text), opt_str_view(help_text)));
    r
}

} // verus!

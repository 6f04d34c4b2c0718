//! A flat listing of revisions read from the tool's log output.
use vstd::prelude::*;

verus! {

/// Separates the fields of one revision in the log output.
pub const FIELD_SEPARATOR: char = '\u{1f}';

/// The log template whose output `parse_log` reads: change id, working-copy
/// flag, description flag, then the line to display.
pub const LOG_TEMPLATE: &'static str = "stringify(change_id.short()) ++ \"\\x1f\" ++ if(current_working_copy, \"1\", \"0\") ++ \"\\x1f\" ++ if(description, \"1\", \"0\") ++ \"\\x1f\" ++ change_id.shortest(8) ++ \" \" ++ author.email() ++ \" \" ++ coalesce(description.first_line(), \"(no description set)\") ++ \"\\n\"";

/// The parts of a text between occurrences of `c`; there is one more part
/// than there are occurrences.
pub open spec fn split_char(s: Seq<char>, c: char) -> Seq<Seq<char>>
    decreases s.len(),
{
    if s.len() == 0 {
        seq![seq![]]
    } else {
        let p = split_char(s.drop_last(), c);
        if s.last() == c {
            p.push(seq![])
        } else {
            p.update(p.len() - 1, p.last().push(s.last()))
        }
    }
}

pub proof fn lemma_split_nonempty(s: Seq<char>, c: char)
    ensures
        split_char(s, c).len() >= 1,
    decreases s.len(),
{
    if s.len() > 0 {
        lemma_split_nonempty(s.drop_last(), c);
    }
}

/// Splits a text at every occurrence of `c`.
pub fn split_fields(s: &str, c: char) -> (r: Vec<String>)
    ensures
        r.deep_view() == split_char(s@, c),
{
    let n = s.unicode_len();
    let mut r: Vec<String> = Vec::new();
    let mut start: usize = 0;
    let mut i: usize = 0;
    assert(s@.take(0) =~= Seq::<char>::empty());
    while i < n
        invariant
            start <= i <= n,
            n == s@.len(),
            split_char(s@.take(i as int), c).len() >= 1,
            split_char(s@.take(i as int), c).last() == s@.subrange(start as int, i as int),
            r.deep_view() == split_char(s@.take(i as int), c).drop_last(),
        decreases n - i,
    {
        let ghost p = split_char(s@.take(i as int), c);
        assert(s@.take(i + 1).drop_last() =~= s@.take(i as int));
        let ch = s.get_char(i);
        if ch == c {
            let piece = String::from_str(s.substring_char(start, i));
            let ghost before = r.deep_view();
            r.push(piece);
            assert(r.deep_view() =~= before.push(p.last()));
            assert(split_char(s@.take(i + 1), c) == p.push(seq![]));
            assert(split_char(s@.take(i + 1), c).drop_last() =~= p);
            assert(s@.subrange(i + 1, i + 1) =~= Seq::<char>::empty());
            start = i + 1;
        } else {
            let ghost p2 = split_char(s@.take(i + 1), c);
            assert(p2 == p.update(p.len() - 1, p.last().push(ch)));
            assert(p2.drop_last() =~= p.drop_last());
            assert(s@.subrange(start as int, i + 1) =~= s@.subrange(start as int, i as int).push(ch));
        }
        i = i + 1;
    }
    assert(s@.take(n as int) =~= s@);
    proof {
        lemma_split_nonempty(s@, c);
    }
    let last = String::from_str(s.substring_char(start, n));
    let ghost before = r.deep_view();
    r.push(last);
    assert(r.deep_view() =~= before.push(split_char(s@, c).last()));
    assert(split_char(s@, c) =~= split_char(s@, c).drop_last().push(split_char(s@, c).last()));
    r
}

/// One revision of the listing.
#[derive(Debug, Clone)]
pub struct LogRecord {
    pub change_id: String,
    pub is_working_copy: bool,
    pub has_description: bool,
    pub line: String,
}

pub struct LogRecordView {
    pub change_id: Seq<char>,
    pub is_working_copy: bool,
    pub has_description: bool,
    pub line: Seq<char>,
}

pub open spec fn record_view(r: LogRecord) -> LogRecordView {
    LogRecordView {
        change_id: r.change_id@,
        is_working_copy: r.is_working_copy,
        has_description: r.has_description,
        line: r.line@,
    }
}

/// A line of the listing read as a revision: four fields, the flags `1` or `0`.
pub open spec fn parse_line_view(line: Seq<char>) -> Option<LogRecordView> {
    let f = split_char(line, FIELD_SEPARATOR);
    if f.len() == 4 && f[0].len() > 0 && (f[1] == "1"@ || f[1] == "0"@) && (f[2] == "1"@ || f[2]
        == "0"@) {
        Some(
            LogRecordView {
                change_id: f[0],
                is_working_copy: f[1] == "1"@,
                has_description: f[2] == "1"@,
                line: f[3],
            },
        )
    } else {
        None
    }
}

fn flag(s: &String) -> (r: Option<bool>)
    ensures
        r == (if s@ == "1"@ {
            Some(true)
        } else if s@ == "0"@ {
            Some(false)
        } else {
            None
        }),
{
    let one = String::from_str("1");
    let zero = String::from_str("0");
    if s.eq(&one) {
        Some(true)
    } else if s.eq(&zero) {
        Some(false)
    } else {
        None
    }
}

/// Reads one line of the listing; `None` when it is not a revision line.
pub fn parse_log_line(line: &str) -> (r: Option<LogRecord>)
    ensures
        match r {
            Some(rec) => parse_line_view(line@) == Some(record_view(rec)),
            None => parse_line_view(line@) is None,
        },
{
    let mut fields = split_fields(line, FIELD_SEPARATOR);
    if fields.len() != 4 || fields[0].as_str().unicode_len() == 0 {
        return None;
    }
    let wc = flag(&fields[1]);
    let desc = flag(&fields[2]);
    match (wc, desc) {
        (Some(is_working_copy), Some(has_description)) => {
            let ghost f = fields.deep_view();
            let text = fields.pop().unwrap();
            let _ = fields.pop();
            let _ = fields.pop();
            let change_id = fields.pop().unwrap();
            assert(f[0] == change_id@ && f[3] == text@);
            Some(LogRecord { change_id, is_working_copy, has_description, line: text })
        },
        _ => None,
    }
}

pub open spec fn records_view(rs: Seq<LogRecord>) -> Seq<LogRecordView> {
    rs.map_values(|r: LogRecord| record_view(r))
}

/// The revision lines of a listing, in order; other lines are skipped.
pub open spec fn parse_log_view(lines: Seq<Seq<char>>) -> Seq<LogRecordView>
    decreases lines.len(),
{
    if lines.len() == 0 {
        seq![]
    } else {
        parse_log_view(lines.drop_last()) + match parse_line_view(lines.last()) {
            Some(rec) => seq![rec],
            None => seq![],
        }
    }
}

/// The revisions of a listing produced with `LOG_TEMPLATE`.
pub fn parse_log(output: &str) -> (r: Vec<LogRecord>)
    ensures
        records_view(r@) == parse_log_view(split_char(output@, '\n')),
{
    let lines = split_fields(output, '\n');
    let ghost ls = lines.deep_view();
    let mut r: Vec<LogRecord> = Vec::new();
    let mut i: usize = 0;
    assert(ls.take(0) =~= Seq::<Seq<char>>::empty());
    while i < lines.len()
        invariant
            i <= lines@.len(),
            ls == lines.deep_view(),
            records_view(r@) == parse_log_view(ls.take(i as int)),
        decreases lines@.len() - i,
    {
        assert(ls.take(i + 1).drop_last() =~= ls.take(i as int));
        assert(ls[i as int] == lines@[i as int]@);
        let ghost before = r@;
        match parse_log_line(lines[i].as_str()) {
            Some(rec) => {
                let ghost rv = record_view(rec);
                r.push(rec);
                assert(records_view(r@) =~= records_view(before).push(rv));
            },
            None => {},
        }
        assert(records_view(r@) =~= parse_log_view(ls.take(i + 1)));
        i = i + 1;
    }
    assert(ls.take(lines@.len() as int) =~= ls);
    r
}

} // verus!

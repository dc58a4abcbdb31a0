use vstd::prelude::*;
use crate::text::{lines_of, parsed_usize, parse_usize, same_text, split_on, split_text, text_lines};

verus! {

/// One tmux session, as reported by `list-sessions`.
#[derive(Debug, Clone)]
pub struct TmuxSession {
    pub name: String,
    pub windows: usize,
    pub attached: bool,
    pub created: String,
}

/// One window of a session, as reported by `list-windows`.
#[derive(Debug, Clone)]
pub struct TmuxWindow {
    pub id: String,
    pub name: String,
    pub panes: usize,
    pub active: bool,
}

/// Handle on the tmux server; the commands themselves are issued by the binary.
pub struct TmuxClient;

impl TmuxClient {
    pub fn new() -> (r: Self)
        ensures
            r == TmuxClient,
    {
        TmuxClient
    }
}

impl Default for TmuxClient {
    fn default() -> (r: Self)
        ensures
            r == TmuxClient,
    {
        TmuxClient::new()
    }
}

/// The count that stands for a malformed window or pane count.
pub const MALFORMED_COUNT: usize = 1;

/// The count that a field gives: its value where it is a valid count, and
/// `MALFORMED_COUNT` where it is not.
pub open spec fn count_or_default(field: Seq<char>) -> usize {
    match parsed_usize(field) {
        Some(v) => v as usize,
        None => MALFORMED_COUNT,
    }
}

/// Whether a line carries the four fields of a record.
pub open spec fn is_record(line: Seq<char>) -> bool {
    split_on(line, '|').len() >= 4
}

/// The lines of `text` that carry a record, in order.
pub open spec fn record_lines(text: Seq<char>) -> Seq<Seq<char>> {
    lines_of(text).filter(|l: Seq<char>| is_record(l))
}

/// Whether `s` is the session that the fields of `line` describe:
/// name, window count, number of attached clients, creation time.
pub open spec fn session_of_line(s: TmuxSession, line: Seq<char>) -> bool {
    let f = split_on(line, '|');
    &&& s.name@ == f[0]
    &&& s.windows == count_or_default(f[1])
    &&& s.attached == (f[2] != seq!['0'])
    &&& s.created@ == f[3]
}

/// Whether `w` is the window that the fields of `line` describe:
/// id, name, pane count, active flag.
pub open spec fn window_of_line(w: TmuxWindow, line: Seq<char>) -> bool {
    let f = split_on(line, '|');
    &&& w.id@ == f[0]
    &&& w.name@ == f[1]
    &&& w.panes == count_or_default(f[2])
    &&& w.active == (f[3] == seq!['1'])
}

fn count_field(field: &str) -> (r: usize)
    ensures
        r == count_or_default(field@),
{
    match parse_usize(field) {
        Some(v) => v,
        None => MALFORMED_COUNT,
    }
}

/// Reads the output of `list-sessions` in the format
/// `name|windows|attached|created`, one session per line. Lines with fewer
/// than four fields are skipped; a malformed window count reads as 1.
pub fn parse_sessions(text: &str) -> (r: Vec<TmuxSession>)
    ensures
        r@.len() == record_lines(text@).len(),
        forall|i: int| 0 <= i < r@.len() ==> session_of_line(#[trigger] r@[i], record_lines(text@)[i]),
{
    let lines = text_lines(text);
    let ghost all = lines_of(text@);
    let ghost pred = |l: Seq<char>| is_record(l);
    let mut r: Vec<TmuxSession> = Vec::new();
    let mut i: usize = 0;
    while i < lines.len()
        invariant
            lines@.len() == all.len(),
            forall|k: int| 0 <= k < lines@.len() ==> #[trigger] lines@[k]@ == all[k],
            pred == (|l: Seq<char>| is_record(l)),
            i <= lines@.len(),
            r@.len() == all.subrange(0, i as int).filter(pred).len(),
            forall|k: int| 0 <= k < r@.len() ==> session_of_line(#[trigger] r@[k], all.subrange(0, i as int).filter(pred)[k]),
        decreases lines@.len() - i,
    {
        let fields = split_text(lines[i].as_str(), '|');
        let ghost line = all[i as int];
        let ghost prev = all.subrange(0, i as int).filter(pred);
        let ghost next = all.subrange(0, i + 1).filter(pred);
        proof {
            let q = all.subrange(0, i + 1);
            assert(q.drop_last() == all.subrange(0, i as int));
            assert(q.last() == line);
            reveal(Seq::filter);
            assert(next == (if pred(line) { prev.push(line) } else { prev }));
            assert(fields@.len() >= 4 <==> pred(line));
        }
        if fields.len() >= 4 {
            proof {
                reveal_strlit("0");
            }
            let session = TmuxSession {
                name: fields[0].clone(),
                windows: count_field(fields[1].as_str()),
                attached: !same_text(fields[2].as_str(), "0"),
                created: fields[3].clone(),
            };
            proof {
                assert(lines@[i as int]@ == line);
                assert(fields@[0]@ == split_on(line, '|')[0]);
                assert(fields@[1]@ == split_on(line, '|')[1]);
                assert(fields@[2]@ == split_on(line, '|')[2]);
                assert(fields@[3]@ == split_on(line, '|')[3]);
                assert("0"@ == seq!['0']);
                assert(session_of_line(session, line));
            }
            let ghost before = r@;
            r.push(session);
            proof {
                assert forall|k: int| 0 <= k < r@.len() implies session_of_line(#[trigger] r@[k], next[k]) by {
                    if k < before.len() {
                        assert(r@[k] == before[k]);
                        assert(next[k] == prev[k]);
                    }
                }
            }
        }
        i = i + 1;
    }
    proof {
        assert(all.subrange(0, i as int) == all);
    }
    r
}

/// Reads the output of `list-windows` in the format
/// `id|name|panes|active`, one window per line. Lines with fewer than four
/// fields are skipped; a malformed pane count reads as 1.
pub fn parse_windows(text: &str) -> (r: Vec<TmuxWindow>)
    ensures
        r@.len() == record_lines(text@).len(),
        forall|i: int| 0 <= i < r@.len() ==> window_of_line(#[trigger] r@[i], record_lines(text@)[i]),
{
    let lines = text_lines(text);
    let ghost all = lines_of(text@);
    let ghost pred = |l: Seq<char>| is_record(l);
    let mut r: Vec<TmuxWindow> = Vec::new();
    let mut i: usize = 0;
    while i < lines.len()
        invariant
            lines@.len() == all.len(),
            forall|k: int| 0 <= k < lines@.len() ==> #[trigger] lines@[k]@ == all[k],
            pred == (|l: Seq<char>| is_record(l)),
            i <= lines@.len(),
            r@.len() == all.subrange(0, i as int).filter(pred).len(),
            forall|k: int| 0 <= k < r@.len() ==> window_of_line(#[trigger] r@[k], all.subrange(0, i as int).filter(pred)[k]),
        decreases lines@.len() - i,
    {
        let fields = split_text(lines[i].as_str(), '|');
        let ghost line = all[i as int];
        let ghost prev = all.subrange(0, i as int).filter(pred);
        let ghost next = all.subrange(0, i + 1).filter(pred);
        proof {
            let q = all.subrange(0, i + 1);
            assert(q.drop_last() == all.subrange(0, i as int));
            assert(q.last() == line);
            reveal(Seq::filter);
            assert(next == (if pred(line) { prev.push(line) } else { prev }));
            assert(fields@.len() >= 4 <==> pred(line));
        }
        if fields.len() >= 4 {
            proof {
                reveal_strlit("1");
            }
            let window = TmuxWindow {
                id: fields[0].clone(),
                name: fields[1].clone(),
                panes: count_field(fields[2].as_str()),
                active: same_text(fields[3].as_str(), "1"),
            };
            proof {
                assert(lines@[i as int]@ == line);
                assert(fields@[0]@ == split_on(line, '|')[0]);
                assert(fields@[1]@ == split_on(line, '|')[1]);
                assert(fields@[2]@ == split_on(line, '|')[2]);
                assert(fields@[3]@ == split_on(line, '|')[3]);
                assert("1"@ == seq!['1']);
                assert(window_of_line(window, line));
            }
            let ghost before = r@;
            r.push(window);
            proof {
                assert forall|k: int| 0 <= k < r@.len() implies window_of_line(#[trigger] r@[k], next[k]) by {
                    if k < before.len() {
                        assert(r@[k] == before[k]);
                        assert(next[k] == prev[k]);
                    }
                }
            }
        }
        i = i + 1;
    }
    proof {
        assert(all.subrange(0, i as int) == all);
    }
    r
}

} // verus!

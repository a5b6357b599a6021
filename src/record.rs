//! The line format a task list is kept in: `<status>,<description>`, where
//! the status is `x` for a done task and a space for one that is not.
use vstd::prelude::*;
use crate::todo::{TaskView, Todo};

verus! {

/// The status mark written for a task.
pub open spec fn status_char(done: bool) -> char {
    if done {
        'x'
    } else {
        ' '
    }
}

/// The line that records a task.
pub open spec fn record_of(t: TaskView) -> Seq<char> {
    seq![status_char(t.1), ','] + t.0
}

/// The position of the first comma of `s` at or after `i`, or -1.
pub open spec fn comma_from(s: Seq<char>, i: int) -> int
    decreases s.len() - i,
{
    if i < 0 || i >= s.len() {
        -1
    } else if s[i] == ',' {
        i
    } else {
        comma_from(s, i + 1)
    }
}

/// The task that a line records: the text before its first comma is the
/// status, done exactly when it is `x`; the rest is the description. A line
/// without a comma records nothing.
pub open spec fn parse_record(s: Seq<char>) -> Option<TaskView> {
    let c = comma_from(s, 0);
    if c < 0 {
        None
    } else {
        Some((s.subrange(c + 1, s.len() as int), s.subrange(0, c) == seq!['x']))
    }
}

/// The tasks that a sequence of lines records, in order, skipping the lines
/// that record nothing.
pub open spec fn parse_records(lines: Seq<Seq<char>>) -> Seq<TaskView>
    decreases lines.len(),
{
    if lines.len() == 0 {
        Seq::empty()
    } else {
        let rest = parse_records(lines.drop_last());
        match parse_record(lines.last()) {
            Some(t) => rest.push(t),
            None => rest,
        }
    }
}

/// The lines that record a task list, one per task, in order.
pub open spec fn records_of(ts: Seq<TaskView>) -> Seq<Seq<char>> {
    ts.map_values(|t: TaskView| record_of(t))
}

/// Writes the line that records `t`.
pub fn format_record(t: &Todo) -> (r: String)
    ensures
        r@ == record_of(t@),
{
    proof {
        reveal_strlit("x,");
        reveal_strlit(" ,");
    }
    let mut r = if t.done {
        String::from_str("x,")
    } else {
        String::from_str(" ,")
    };
    r.append(t.description.as_str());
    assert(r@ =~= record_of(t@));
    r
}

/// Reads the task that a line records, if it records one.
pub fn parse_line(line: &str) -> (r: Option<Todo>)
    ensures
        match r {
            Some(t) => parse_record(line@) == Some(t@),
            None => parse_record(line@) is None,
        },
{
    let n = line.unicode_len();
    let mut i: usize = 0;
    while i < n
        invariant
            n == line@.len(),
            i <= n,
            comma_from(line@, 0) == comma_from(line@, i as int),
        decreases n - i,
    {
        if line.get_char(i) == ',' {
            let done = i == 1 && line.get_char(0) == 'x';
            proof {
                let status = line@.subrange(0, i as int);
                if i == 1 && line@[0] == 'x' {
                    assert(status =~= seq!['x']);
                } else if i == 1 {
                    assert(status[0] != seq!['x'][0]);
                } else {
                    assert(status.len() != seq!['x'].len());
                }
            }
            let description = line.substring_char(i + 1, n);
            return Some(Todo { description: String::from_str(description), done });
        }
        i = i + 1;
    }
    None
}

/// Reading back the line written for a task gives the same task.
pub proof fn lemma_record_round_trip(t: TaskView)
    ensures
        parse_record(record_of(t)) == Some(t),
{
    let s = record_of(t);
    assert(comma_from(s, 1) == 1);
    assert(comma_from(s, 0) == 1);
    assert(s.subrange(2, s.len() as int) =~= t.0);
    if t.1 {
        assert(s.subrange(0, 1) =~= seq!['x']);
    } else {
        assert(s.subrange(0, 1)[0] != seq!['x'][0]);
    }
}

/// Saving a task list and loading it back gives the same tasks in the same
/// order.
pub proof fn lemma_save_load_round_trip(ts: Seq<TaskView>)
    ensures
        parse_records(records_of(ts)) == ts,
    decreases ts.len(),
{
    if ts.len() > 0 {
        assert(records_of(ts).drop_last() =~= records_of(ts.drop_last()));
        lemma_save_load_round_trip(ts.drop_last());
        lemma_record_round_trip(ts.last());
        assert(ts.drop_last().push(ts.last()) =~= ts);
    } else {
        assert(records_of(ts) =~= Seq::<Seq<char>>::empty());
    }
}

} // verus!

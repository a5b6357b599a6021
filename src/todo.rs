//! The task store and its filtered-index addressing.
use vstd::prelude::*;
use crate::record::{format_record, record_of, parse_line, parse_records, records_of};

verus! {

/// A task as the contracts see it: its description and its done flag.
pub type TaskView = (Seq<char>, bool);

/// One task: a short text and whether it has been done.
pub struct Todo {
    pub description: String,
    pub done: bool,
}

impl View for Todo {
    type V = TaskView;

    open spec fn view(&self) -> TaskView {
        (self.description@, self.done)
    }
}

/// Whether a task shows in the view selected by `done`: `None` selects every
/// task, `Some(d)` those whose flag is `d`.
pub open spec fn matches(t: TaskView, done: Option<bool>) -> bool {
    match done {
        None => true,
        Some(d) => t.1 == d,
    }
}

/// The tasks of `s` that `done` selects, in their order in `s`.
pub open spec fn filtered(s: Seq<TaskView>, done: Option<bool>) -> Seq<TaskView>
    decreases s.len(),
{
    if s.len() == 0 {
        Seq::empty()
    } else {
        let rest = filtered(s.drop_last(), done);
        if matches(s.last(), done) {
            rest.push(s.last())
        } else {
            rest
        }
    }
}

/// The number of tasks among the first `i` of `s` that `done` selects: the
/// filtered index of the task at absolute position `i`.
pub open spec fn rank(s: Seq<TaskView>, done: Option<bool>, i: int) -> int {
    filtered(s.take(i), done).len() as int
}

/// The absolute position, at or after `i`, of the task with filtered index `k`,
/// or -1 where there is none.
pub open spec fn position_from(s: Seq<TaskView>, done: Option<bool>, k: int, i: int) -> int
    decreases s.len() - i,
{
    if i < 0 || i >= s.len() {
        -1
    } else if matches(s[i], done) && rank(s, done, i) == k {
        i
    } else {
        position_from(s, done, k, i + 1)
    }
}

/// The absolute position of the task with filtered index `k`, or -1.
pub open spec fn position(s: Seq<TaskView>, done: Option<bool>, k: int) -> int {
    position_from(s, done, k, 0)
}

/// The tasks after removing the one at filtered index `k`; unchanged where
/// there is none.
pub open spec fn removed(s: Seq<TaskView>, done: Option<bool>, k: int) -> Seq<TaskView> {
    if 0 <= k < filtered(s, done).len() {
        s.remove(position(s, done, k))
    } else {
        s
    }
}

/// The tasks after flipping the flag of the one at filtered index `k`;
/// unchanged where there is none.
pub open spec fn toggled(s: Seq<TaskView>, done: Option<bool>, k: int) -> Seq<TaskView> {
    if 0 <= k < filtered(s, done).len() {
        let p = position(s, done, k);
        s.update(p, (s[p].0, !s[p].1))
    } else {
        s
    }
}

/// Each task adds one to the rank of the next exactly when it is selected.
pub proof fn lemma_rank_step(s: Seq<TaskView>, done: Option<bool>, i: int)
    requires
        0 <= i < s.len(),
    ensures
        rank(s, done, i + 1) == rank(s, done, i) + if matches(s[i], done) { 1int } else { 0int },
{
    assert(s.take(i + 1).drop_last() =~= s.take(i));
}

/// The rank past the last task is the length of the view.
pub proof fn lemma_rank_full(s: Seq<TaskView>, done: Option<bool>)
    ensures
        rank(s, done, s.len() as int) == filtered(s, done).len(),
{
    assert(s.take(s.len() as int) =~= s);
}

/// No rank exceeds the length of the view.
pub proof fn lemma_rank_le_count(s: Seq<TaskView>, done: Option<bool>, i: int)
    requires
        0 <= i <= s.len(),
    ensures
        rank(s, done, i) <= filtered(s, done).len(),
    decreases s.len() - i,
{
    if i == s.len() {
        lemma_rank_full(s, done);
    } else {
        lemma_rank_step(s, done, i);
        lemma_rank_le_count(s, done, i + 1);
    }
}

proof fn lemma_position_from_found(s: Seq<TaskView>, done: Option<bool>, k: int, i: int)
    requires
        0 <= i <= s.len(),
        rank(s, done, i) <= k < filtered(s, done).len(),
    ensures
        i <= position_from(s, done, k, i) < s.len(),
        matches(s[position_from(s, done, k, i)], done),
        rank(s, done, position_from(s, done, k, i)) == k,
    decreases s.len() - i,
{
    if i == s.len() {
        lemma_rank_full(s, done);
    } else {
        lemma_rank_step(s, done, i);
        if !(matches(s[i], done) && rank(s, done, i) == k) {
            lemma_position_from_found(s, done, k, i + 1);
        }
    }
}

/// The task at filtered index `k`, where there is one, stands at an absolute
/// position that `done` selects and whose rank is `k`.
pub proof fn lemma_position_found(s: Seq<TaskView>, done: Option<bool>, k: int)
    requires
        0 <= k < filtered(s, done).len(),
    ensures
        0 <= position(s, done, k) < s.len(),
        matches(s[position(s, done, k)], done),
        rank(s, done, position(s, done, k)) == k,
        filtered(s, done)[k] == s[position(s, done, k)],
{
    lemma_position_from_found(s, done, k, 0);
    let p = position(s, done, k);
    lemma_filtered_split(s, done, p);
}

/// Filtering distributes over concatenation.
pub proof fn lemma_filtered_concat(a: Seq<TaskView>, b: Seq<TaskView>, done: Option<bool>)
    ensures
        filtered(a + b, done) =~= filtered(a, done) + filtered(b, done),
    decreases b.len(),
{
    if b.len() > 0 {
        assert((a + b).drop_last() =~= a + b.drop_last());
        lemma_filtered_concat(a, b.drop_last(), done);
    } else {
        assert(a + b =~= a);
    }
}

/// The filtered view around a selected task at position `p`: those before it,
/// then it, then those after it.
pub proof fn lemma_filtered_split(s: Seq<TaskView>, done: Option<bool>, p: int)
    requires
        0 <= p < s.len(),
        matches(s[p], done),
    ensures
        filtered(s, done) =~= filtered(s.take(p), done).push(s[p]) + filtered(s.skip(p + 1), done),
        filtered(s.remove(p), done) =~= filtered(s.take(p), done) + filtered(s.skip(p + 1), done),
{
    let head = s.take(p + 1);
    assert(head.drop_last() =~= s.take(p));
    assert(s =~= head + s.skip(p + 1));
    lemma_filtered_concat(head, s.skip(p + 1), done);
    assert(s.remove(p) =~= s.take(p) + s.skip(p + 1));
    lemma_filtered_concat(s.take(p), s.skip(p + 1), done);
}

/// Every task is either done or not: the view of all tasks is as long as the
/// views of the done and of the undone tasks together.
pub proof fn lemma_counts_partition(s: Seq<TaskView>)
    ensures
        filtered(s, None).len() == filtered(s, Some(true)).len() + filtered(s, Some(false)).len(),
        filtered(s, None) == s,
    decreases s.len(),
{
    if s.len() > 0 {
        lemma_counts_partition(s.drop_last());
        assert(s.drop_last().push(s.last()) =~= s);
    }
}

/// Removing at a filtered index that the view does not have changes nothing.
pub proof fn lemma_remove_out_of_range(s: Seq<TaskView>, done: Option<bool>, k: int)
    requires
        k >= filtered(s, done).len(),
    ensures
        removed(s, done, k) == s,
{
}

/// Removing the task at filtered index `k` takes exactly that task out of the
/// view and keeps the others in their order.
pub proof fn lemma_remove_keeps_order(s: Seq<TaskView>, done: Option<bool>, k: int)
    requires
        0 <= k < filtered(s, done).len(),
    ensures
        filtered(removed(s, done, k), done) == filtered(s, done).remove(k),
{
    lemma_position_found(s, done, k);
    let p = position(s, done, k);
    lemma_filtered_split(s, done, p);
    let before = filtered(s.take(p), done);
    assert(before.len() == k);
    assert(filtered(s, done).remove(k) =~= before + filtered(s.skip(p + 1), done));
}

/// Whether the task is one that `done` selects.
pub fn selects(t: &Todo, done: Option<bool>) -> (r: bool)
    ensures
        r == matches(t@, done),
{
    match done {
        None => true,
        Some(d) => t.done == d,
    }
}

impl Todo {
    /// A new task, not yet done.
    pub fn new(description: &str) -> (r: Self)
        ensures
            r@ == (description@, false),
    {
        Self { description: String::from_str(description), done: false }
    }

    pub fn mark_as_done(&mut self)
        ensures
            final(self)@ == (old(self)@.0, true),
    {
        self.done = true;
    }

    pub fn is_done(&self) -> (r: bool)
        ensures
            r == self@.1,
    {
        self.done
    }

    pub fn mark_as_undone(&mut self)
        ensures
            final(self)@ == (old(self)@.0, false),
    {
        self.done = false;
    }
}

/// The ordered task list and the name of the file it is kept in.
pub struct Todos {
    pub todos: Vec<Todo>,
    pub filesave: String,
}

impl View for Todos {
    type V = Seq<TaskView>;

    open spec fn view(&self) -> Seq<TaskView> {
        self.todos@.map_values(|t: Todo| t@)
    }
}

impl Todos {
    /// An empty list kept in the file `filename`.
    pub fn new(filename: &str) -> (r: Self)
        ensures
            r@ == Seq::<TaskView>::empty(),
            r.filesave@ == filename@,
    {
        let r = Todos { todos: Vec::new(), filesave: String::from_str(filename) };
        assert(r@ =~= Seq::<TaskView>::empty());
        r
    }

    /// Appends a new task that is not done.
    pub fn add_todo(&mut self, description: &str)
        ensures
            final(self)@ == old(self)@.push((description@, false)),
            final(self).filesave == old(self).filesave,
    {
        let new_todo = Todo::new(description);
        self.todos.push(new_todo);
        assert(self@ =~= old(self)@.push((description@, false)));
    }

    /// The absolute position of the task at filtered index `index`, if any.
    pub fn find_position(&self, index: usize, done: Option<bool>) -> (r: Option<usize>)
        ensures
            r is Some <==> index < filtered(self@, done).len(),
            r is Some ==> r->0 as int == position(self@, done, index as int),
    {
        let mut i: usize = 0;
        let mut cnt: usize = 0;
        while i < self.todos.len()
            invariant
                0 <= i <= self@.len(),
                self@.len() == self.todos@.len(),
                cnt == rank(self@, done, i as int),
                cnt <= index,
                position(self@, done, index as int) == position_from(self@, done, index as int, i as int),
            decreases self.todos@.len() - i,
        {
            let m = selects(&self.todos[i], done);
            proof {
                lemma_rank_step(self@, done, i as int);
                lemma_rank_le_count(self@, done, i as int + 1);
            }
            if m {
                if cnt == index {
                    return Some(i);
                }
                cnt = cnt + 1;
            }
            i = i + 1;
        }
        proof {
            lemma_rank_full(self@, done);
        }
        None
    }

    /// Removes the task at filtered index `index` from the list; does nothing
    /// where the view has no such task.
    pub fn remove_todo(&mut self, index: usize, done: Option<bool>)
        ensures
            final(self)@ == removed(old(self)@, done, index as int),
            index >= filtered(old(self)@, done).len() ==> final(self)@ == old(self)@,
            final(self).filesave == old(self).filesave,
    {
        match self.find_position(index, done) {
            Some(p) => {
                proof {
                    lemma_position_found(self@, done, index as int);
                }
                self.todos.remove(p);
                assert(self@ =~= old(self)@.remove(p as int));
            },
            None => {},
        }
    }

    /// Flips the done flag of the task at filtered index `index`; does nothing
    /// where the view has no such task.
    pub fn toggle_task(&mut self, index: usize, done: Option<bool>)
        ensures
            final(self)@ == toggled(old(self)@, done, index as int),
            final(self).filesave == old(self).filesave,
    {
        match self.find_position(index, done) {
            Some(p) => {
                proof {
                    lemma_position_found(self@, done, index as int);
                }
                assert(self@[p as int] == self.todos@[p as int]@);
                let d = self.todos[p].done;
                self.todos[p].done = !d;
                assert(self@ =~= old(self)@.update(p as int, (old(self)@[p as int].0, !d)));
            },
            None => {},
        }
    }

    /// The task at filtered index `index`, if the view has one.
    pub fn get_task(&self, index: usize, done: Option<bool>) -> (r: Option<&Todo>)
        ensures
            index < filtered(self@, done).len() ==> r is Some && r->0@ == filtered(self@, done)[index as int],
            index >= filtered(self@, done).len() ==> r is None,
    {
        match self.find_position(index, done) {
            Some(p) => {
                proof {
                    lemma_position_found(self@, done, index as int);
                }
                assert(self@[p as int] == self.todos@[p as int]@);
                Some(&self.todos[p])
            },
            None => None,
        }
    }

    /// The tasks that `done` selects, in list order.
    pub fn get_tasks(&self, done: Option<bool>) -> (r: Vec<&Todo>)
        ensures
            r@.map_values(|t: &Todo| t@) == filtered(self@, done),
    {
        let mut r: Vec<&Todo> = Vec::new();
        let mut i: usize = 0;
        while i < self.todos.len()
            invariant
                0 <= i <= self@.len(),
                self@.len() == self.todos@.len(),
                r@.map_values(|t: &Todo| t@) == filtered(self@.take(i as int), done),
            decreases self.todos@.len() - i,
        {
            let t = &self.todos[i];
            if selects(t, done) {
                r.push(t);
            }
            proof {
                assert(self@.take(i + 1).drop_last() =~= self@.take(i as int));
                assert(r@.map_values(|t: &Todo| t@) =~= filtered(self@.take(i + 1), done));
            }
            i = i + 1;
        }
        assert(self@.take(i as int) =~= self@);
        r
    }

    /// The number of tasks that `done` selects.
    pub fn get_number_of_tasks(&self, done: Option<bool>) -> (r: usize)
        ensures
            r == filtered(self@, done).len(),
    {
        let mut cnt: usize = 0;
        let mut i: usize = 0;
        while i < self.todos.len()
            invariant
                0 <= i <= self@.len(),
                self@.len() == self.todos@.len(),
                cnt == rank(self@, done, i as int),
                cnt <= i,
            decreases self.todos@.len() - i,
        {
            proof {
                lemma_rank_step(self@, done, i as int);
            }
            if selects(&self.todos[i], done) {
                cnt = cnt + 1;
            }
            i = i + 1;
        }
        proof {
            lemma_rank_full(self@, done);
        }
        cnt
    }

    /// The lines of the file that keeps this list, one per task, in order.
    pub fn file_lines(&self) -> (r: Vec<String>)
        ensures
            r@.map_values(|l: String| l@) == records_of(self@),
    {
        let mut r: Vec<String> = Vec::new();
        let mut i: usize = 0;
        while i < self.todos.len()
            invariant
                0 <= i <= self@.len(),
                self@.len() == self.todos@.len(),
                r@.len() == i,
                r@.map_values(|l: String| l@) =~= records_of(self@.take(i as int)),
            decreases self.todos@.len() - i,
        {
            let line = format_record(&self.todos[i]);
            let ghost before = r@.map_values(|l: String| l@);
            let ghost old_r = r@;
            r.push(line);
            proof {
                assert(self@[i as int] == self.todos@[i as int]@);
                let prev = records_of(self@.take(i as int));
                let next = records_of(self@.take(i + 1));
                assert forall|j: int| 0 <= j < i implies #[trigger] next[j] == r@.map_values(|l: String| l@)[j] by {
                    assert(self@.take(i as int)[j] == self@.take(i + 1)[j]);
                    assert(prev[j] == before[j]);
                    assert(r@[j] == old_r[j]);
                }
                assert(next[i as int] == record_of(self@[i as int]));
                assert(r@.map_values(|l: String| l@) =~= next);
            }
            i = i + 1;
        }
        assert(self@.take(i as int) =~= self@);
        r
    }

    /// Replaces the list with the tasks that `lines` record, skipping lines
    /// without a comma, and adopts `filename` as the file that keeps it.
    pub fn load_from_lines(&mut self, lines: &Vec<String>, filename: &str)
        ensures
            final(self)@ == parse_records(lines@.map_values(|l: String| l@)),
            final(self).filesave@ == filename@,
    {
        let ghost all = lines@.map_values(|l: String| l@);
        let mut todos: Vec<Todo> = Vec::new();
        let mut i: usize = 0;
        while i < lines.len()
            invariant
                0 <= i <= lines@.len(),
                all == lines@.map_values(|l: String| l@),
                todos@.map_values(|t: Todo| t@) == parse_records(all.take(i as int)),
            decreases lines@.len() - i,
        {
            let parsed = parse_line(lines[i].as_str());
            proof {
                assert(all.take(i + 1).drop_last() =~= all.take(i as int));
                assert(all.take(i + 1).last() == lines@[i as int]@);
            }
            match parsed {
                Some(t) => {
                    todos.push(t);
                },
                None => {},
            }
            assert(todos@.map_values(|t: Todo| t@) =~= parse_records(all.take(i + 1)));
            i = i + 1;
        }
        assert(all.take(i as int) =~= all);
        self.todos = todos;
        self.filesave = String::from_str(filename);
    }
}

} // verus!

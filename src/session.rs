//! The interactive session as a state machine: each key or submitted line
//! moves it to its next state and names the outside work to do next.
use vstd::prelude::*;
use crate::todo::{filtered, removed, toggled, TaskView, Todos};
use crate::ui::{command_of, next_tab, previous_tab, tab_filter, Command, Key, TodoUI, UiEvent};

verus! {

/// The name of the file that keeps the task list.
pub const FILE_NAME: &'static str = "todo.txt";

/// Where the session stands.
#[derive(Clone, Copy, PartialEq, Eq, Structural, Debug)]
pub enum SessionState {
    /// Reading keys.
    Running,
    /// Collecting the text of a new task.
    AwaitingTextInput,
    /// Done for good.
    Terminated,
}

/// The outside work that a step asks for, beside drawing the screen again.
#[derive(Clone, Copy, PartialEq, Eq, Structural, Debug)]
pub enum Action {
    /// Nothing more.
    Continue,
    /// Write the task list to its file.
    Save,
    /// Switch the terminal to line input and hand back the line read.
    ReadLine,
    /// Restore the terminal and stop.
    Quit,
}

/// The session: the task list, the view over it, and the loop's state.
pub struct App {
    pub todos: Todos,
    pub ui: TodoUI,
    pub state: SessionState,
}

/// A list that grew by one task has at least as many tasks in every view.
proof fn lemma_push_keeps_count(s: Seq<TaskView>, t: TaskView, done: Option<bool>)
    ensures
        filtered(s.push(t), done).len() >= filtered(s, done).len(),
{
    assert(s.push(t).drop_last() =~= s);
}

impl App {
    /// The cursor addresses a task of the active view, or is 0 where that
    /// view is empty.
    pub open spec fn wf(&self) -> bool {
        self.ui.cursor_valid(&self.todos)
    }

    /// A session over an empty list kept in the file `FILE_NAME`, showing all
    /// tasks.
    pub fn new() -> (r: Self)
        ensures
            r.wf(),
            r.todos@ == Seq::<TaskView>::empty(),
            r.todos.filesave@ == FILE_NAME@,
            r.ui.active_screen == crate::ui::TodoTab::TodoList,
            r.ui.cursor_row == 0,
            r.state == SessionState::Running,
    {
        let todos = Todos::new(FILE_NAME);
        let ui = TodoUI::new();
        Self { todos, ui, state: SessionState::Running }
    }

    /// Replaces the task list with what the lines of its file record, and
    /// reconciles the cursor with it.
    pub fn load(&mut self, lines: &Vec<String>)
        ensures
            final(self).wf(),
            final(self).todos@ == crate::record::parse_records(lines@.map_values(|l: String| l@)),
            final(self).todos.filesave@ == old(self).todos.filesave@,
            final(self).ui.active_screen == old(self).ui.active_screen,
            final(self).state == old(self).state,
    {
        let name = self.todos.filesave.clone();
        self.todos.load_from_lines(lines, name.as_str());
        self.ui.refresh_screen(&self.todos);
    }

    /// Carries out what the view asked for after a key.
    pub fn handle_event(&mut self, event: UiEvent) -> (r: Action)
        ensures
            final(self).todos == old(self).todos,
            match event {
                UiEvent::Quit => r == Action::Quit && final(self).state == SessionState::Terminated
                    && final(self).ui == old(self).ui,
                UiEvent::AddTodo => r == Action::ReadLine && final(self).state
                    == SessionState::AwaitingTextInput && final(self).ui == old(self).ui,
                UiEvent::ChangeTab(tab) => r == Action::Continue && final(self).state == old(self).state
                    && final(self).ui.active_screen == tab && final(self).ui.cursor_row
                    == old(self).ui.cursor_row,
                UiEvent::RefreshUI => r == Action::Continue && final(self).state == old(self).state
                    && final(self).ui.active_screen == old(self).ui.active_screen
                    && final(self).ui.cursor_row == crate::ui::reconciled(
                    old(self).ui.cursor_row as nat,
                    old(self).ui.view_len(&old(self).todos),
                ),
            },
    {
        match event {
            UiEvent::Quit => {
                self.state = SessionState::Terminated;
                Action::Quit
            },
            UiEvent::AddTodo => {
                self.state = SessionState::AwaitingTextInput;
                Action::ReadLine
            },
            UiEvent::ChangeTab(screen) => {
                self.ui.change_screen(screen);
                Action::Continue
            },
            UiEvent::RefreshUI => {
                self.ui.refresh_screen(&self.todos);
                Action::Continue
            },
        }
    }

    /// Applies one key. While running, the key acts on the view and the list
    /// as `TodoUI::handle_key` says and the resulting event is carried out;
    /// a removal asks for the list to be saved. In the other states the key
    /// is not read and the session's pending work is named again.
    pub fn step(&mut self, key: Key) -> (r: Action)
        requires
            old(self).wf(),
        ensures
            final(self).wf(),
            final(self).todos.filesave == old(self).todos.filesave,
            old(self).state != SessionState::Running ==> *final(self) == *old(self) && r == (
            if old(self).state == SessionState::Terminated {
                Action::Quit
            } else {
                Action::ReadLine
            }),
            old(self).state == SessionState::Running ==> ({
                let done = tab_filter(old(self).ui.active_screen);
                let cursor = old(self).ui.cursor_row as int;
                let tasks = old(self).todos@;
                match command_of(key) {
                    None => r == Action::Continue && final(self).todos@ == tasks
                        && final(self).ui == old(self).ui && final(self).state == old(self).state,
                    Some(Command::Quit) => r == Action::Quit && final(self).state
                        == SessionState::Terminated && final(self).ui == old(self).ui
                        && final(self).todos@ == tasks,
                    Some(Command::Add) => r == Action::ReadLine && final(self).state
                        == SessionState::AwaitingTextInput && final(self).ui == old(self).ui
                        && final(self).todos@ == tasks,
                    Some(Command::Remove) => final(self).todos@ == removed(tasks, done, cursor)
                        && r == (if cursor < filtered(tasks, done).len() {
                        Action::Save
                    } else {
                        Action::Continue
                    }) && final(self).state == SessionState::Running
                        && final(self).ui.active_screen == old(self).ui.active_screen
                        && final(self).ui.cursor_row == crate::ui::reconciled(
                        cursor as nat,
                        filtered(final(self).todos@, done).len(),
                    ),
                    Some(Command::Toggle) => r == Action::Continue && final(self).todos@ == toggled(
                        tasks,
                        done,
                        cursor,
                    ) && final(self).state == SessionState::Running
                        && final(self).ui.active_screen == old(self).ui.active_screen
                        && final(self).ui.cursor_row == crate::ui::reconciled(
                        cursor as nat,
                        filtered(final(self).todos@, done).len(),
                    ),
                    Some(Command::NextTab) => r == Action::Continue && final(self).todos@ == tasks
                        && final(self).state == SessionState::Running
                        && final(self).ui.active_screen == next_tab(old(self).ui.active_screen)
                        && final(self).ui.cursor_row == 0,
                    Some(Command::PreviousTab) => r == Action::Continue && final(self).todos@ == tasks
                        && final(self).state == SessionState::Running
                        && final(self).ui.active_screen == previous_tab(old(self).ui.active_screen)
                        && final(self).ui.cursor_row == 0,
                    Some(Command::Down) => r == Action::Continue && final(self).todos@ == tasks
                        && final(self).state == SessionState::Running
                        && final(self).ui.active_screen == old(self).ui.active_screen
                        && final(self).ui.cursor_row == (if cursor + 1 < filtered(tasks, done).len() {
                        cursor + 1
                    } else {
                        cursor
                    }),
                    Some(Command::Up) => r == Action::Continue && final(self).todos@ == tasks
                        && final(self).state == SessionState::Running
                        && final(self).ui.active_screen == old(self).ui.active_screen
                        && final(self).ui.cursor_row == (if cursor > 0 {
                        cursor - 1
                    } else {
                        0
                    }),
                }
            }),
    {
        match self.state {
            SessionState::Terminated => {
                return Action::Quit;
            },
            SessionState::AwaitingTextInput => {
                return Action::ReadLine;
            },
            SessionState::Running => {},
        }
        let before = self.todos.todos.len();
        let ghost tasks = self.todos@;
        let ghost done = tab_filter(self.ui.active_screen);
        let ghost cursor = self.ui.cursor_row as int;
        proof {
            if 0 <= cursor < filtered(tasks, done).len() {
                crate::todo::lemma_position_found(tasks, done, cursor);
            }
        }
        match self.ui.handle_key(key, &mut self.todos) {
            Some(event) => {
                let action = self.handle_event(event);
                if self.todos.todos.len() < before {
                    Action::Save
                } else {
                    action
                }
            },
            None => Action::Continue,
        }
    }

    /// Adds the line collected for a new task and resumes reading keys; the
    /// list is then to be saved. Outside text input nothing changes.
    pub fn add_line(&mut self, line: &str) -> (r: Action)
        requires
            old(self).wf(),
        ensures
            final(self).wf(),
            final(self).todos.filesave == old(self).todos.filesave,
            old(self).state == SessionState::AwaitingTextInput ==> r == Action::Save
                && final(self).todos@ == old(self).todos@.push((line@, false))
                && final(self).ui == old(self).ui && final(self).state == SessionState::Running,
            old(self).state == SessionState::Running ==> r == Action::Continue && *final(self) == *old(self),
            old(self).state == SessionState::Terminated ==> r == Action::Quit && *final(self) == *old(self),
    {
        match self.state {
            SessionState::AwaitingTextInput => {
                proof {
                    lemma_push_keeps_count(self.todos@, (line@, false), tab_filter(self.ui.active_screen));
                }
                self.todos.add_todo(line);
                self.state = SessionState::Running;
                Action::Save
            },
            SessionState::Running => Action::Continue,
            SessionState::Terminated => Action::Quit,
        }
    }
}

} // verus!

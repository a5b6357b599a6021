//! The view state of the session: the active tab, the highlighted row within
//! it, and how keys change them and the task list.
use vstd::prelude::*;
use crate::todo::{filtered, removed, toggled, Todos};

verus! {

/// The three views over the task list.
#[derive(Clone, Copy, PartialEq, Eq, Structural, Debug)]
pub enum TodoTab {
    TodoList,
    DoneList,
    UndoneList,
}

/// The filter that a tab applies: all tasks, the done ones, the undone ones.
pub open spec fn tab_filter(tab: TodoTab) -> Option<bool> {
    match tab {
        TodoTab::TodoList => None,
        TodoTab::DoneList => Some(true),
        TodoTab::UndoneList => Some(false),
    }
}

/// The tab after `tab`: all, done, undone, and round again.
pub open spec fn next_tab(tab: TodoTab) -> TodoTab {
    match tab {
        TodoTab::TodoList => TodoTab::DoneList,
        TodoTab::DoneList => TodoTab::UndoneList,
        TodoTab::UndoneList => TodoTab::TodoList,
    }
}

/// The tab before `tab`.
pub open spec fn previous_tab(tab: TodoTab) -> TodoTab {
    match tab {
        TodoTab::TodoList => TodoTab::UndoneList,
        TodoTab::DoneList => TodoTab::TodoList,
        TodoTab::UndoneList => TodoTab::DoneList,
    }
}

impl TodoTab {
    pub fn filter(self) -> (r: Option<bool>)
        ensures
            r == tab_filter(self),
    {
        match self {
            TodoTab::TodoList => None,
            TodoTab::DoneList => Some(true),
            TodoTab::UndoneList => Some(false),
        }
    }

    pub fn next(self) -> (r: TodoTab)
        ensures
            r == next_tab(self),
    {
        match self {
            TodoTab::TodoList => TodoTab::DoneList,
            TodoTab::DoneList => TodoTab::UndoneList,
            TodoTab::UndoneList => TodoTab::TodoList,
        }
    }

    pub fn previous(self) -> (r: TodoTab)
        ensures
            r == previous_tab(self),
    {
        match self {
            TodoTab::TodoList => TodoTab::UndoneList,
            TodoTab::DoneList => TodoTab::TodoList,
            TodoTab::UndoneList => TodoTab::DoneList,
        }
    }
}

/// Moving forward through the tabs three times comes back to the start, and
/// moving forward then back returns to the tab one started from.
pub proof fn lemma_tab_cycle(tab: TodoTab)
    ensures
        next_tab(next_tab(next_tab(tab))) == tab,
        previous_tab(next_tab(tab)) == tab,
        next_tab(previous_tab(tab)) == tab,
{
}

/// A key as the session reads it.
#[derive(Clone, Copy, PartialEq, Eq, Structural, Debug)]
pub enum Key {
    Char(char),
    Left,
    Right,
    Up,
    Down,
    Enter,
    Other,
}

/// What a key asks for.
#[derive(Clone, Copy, PartialEq, Eq, Structural, Debug)]
pub enum Command {
    Quit,
    Add,
    Remove,
    NextTab,
    PreviousTab,
    Down,
    Up,
    Toggle,
}

/// The command bound to a key, if any: `q` quits, `a` adds, `d` removes,
/// `l` or right and `h` or left change tabs, `j` or down and `k` or up move
/// the cursor, `x` toggles.
pub open spec fn command_of(key: Key) -> Option<Command> {
    match key {
        Key::Char(c) => if c == 'q' {
            Some(Command::Quit)
        } else if c == 'a' {
            Some(Command::Add)
        } else if c == 'd' {
            Some(Command::Remove)
        } else if c == 'l' {
            Some(Command::NextTab)
        } else if c == 'h' {
            Some(Command::PreviousTab)
        } else if c == 'j' {
            Some(Command::Down)
        } else if c == 'k' {
            Some(Command::Up)
        } else if c == 'x' {
            Some(Command::Toggle)
        } else {
            None
        },
        Key::Right => Some(Command::NextTab),
        Key::Left => Some(Command::PreviousTab),
        Key::Down => Some(Command::Down),
        Key::Up => Some(Command::Up),
        _ => None,
    }
}

pub fn classify(key: Key) -> (r: Option<Command>)
    ensures
        r == command_of(key),
{
    match key {
        Key::Char(c) => if c == 'q' {
            Some(Command::Quit)
        } else if c == 'a' {
            Some(Command::Add)
        } else if c == 'd' {
            Some(Command::Remove)
        } else if c == 'l' {
            Some(Command::NextTab)
        } else if c == 'h' {
            Some(Command::PreviousTab)
        } else if c == 'j' {
            Some(Command::Down)
        } else if c == 'k' {
            Some(Command::Up)
        } else if c == 'x' {
            Some(Command::Toggle)
        } else {
            None
        },
        Key::Right => Some(Command::NextTab),
        Key::Left => Some(Command::PreviousTab),
        Key::Down => Some(Command::Down),
        Key::Up => Some(Command::Up),
        _ => None,
    }
}

/// What a key leads the session to do next.
#[derive(Clone, Copy, PartialEq, Eq, Structural, Debug)]
pub enum UiEvent {
    Quit,
    AddTodo,
    ChangeTab(TodoTab),
    RefreshUI,
}

/// The cursor after reconciliation with a view of `n` tasks: kept where it
/// addresses a task, else moved to the last one, or to 0 in an empty view.
pub open spec fn reconciled(cursor: nat, n: nat) -> nat {
    if n == 0 {
        0
    } else if cursor < n {
        cursor
    } else {
        (n - 1) as nat
    }
}

/// The active tab and the highlighted row within it.
pub struct TodoUI {
    pub active_screen: TodoTab,
    pub cursor_row: usize,
}

impl TodoUI {
    /// The number of tasks in the active view.
    pub open spec fn view_len(&self, todos: &Todos) -> nat {
        filtered(todos@, tab_filter(self.active_screen)).len()
    }

    /// The cursor addresses a task of the active view, or is 0 where the view
    /// is empty.
    pub open spec fn cursor_valid(&self, todos: &Todos) -> bool {
        if self.view_len(todos) == 0 {
            self.cursor_row == 0
        } else {
            self.cursor_row < self.view_len(todos)
        }
    }

    /// The session's starting view: all tasks, first row.
    pub fn new() -> (r: Self)
        ensures
            r.active_screen == TodoTab::TodoList,
            r.cursor_row == 0,
    {
        Self { active_screen: TodoTab::TodoList, cursor_row: 0 }
    }

    pub fn active_screen(&self) -> (r: TodoTab)
        ensures
            r == self.active_screen,
    {
        self.active_screen
    }

    pub fn cursor_row(&self) -> (r: usize)
        ensures
            r == self.cursor_row,
    {
        self.cursor_row
    }

    pub fn change_screen(&mut self, screen: TodoTab)
        ensures
            final(self).active_screen == screen,
            final(self).cursor_row == old(self).cursor_row,
    {
        self.active_screen = screen;
    }

    /// Reconciles the cursor with the active view after the list changed.
    pub fn refresh_screen(&mut self, todos: &Todos)
        ensures
            final(self).active_screen == old(self).active_screen,
            final(self).cursor_row == reconciled(old(self).cursor_row as nat, old(self).view_len(todos)),
            final(self).view_len(todos) > 0 ==> final(self).cursor_row < final(self).view_len(todos),
            final(self).view_len(todos) == 0 ==> final(self).cursor_row == 0,
    {
        let n = todos.get_number_of_tasks(self.active_screen.filter());
        let last = n.saturating_sub(1);
        if self.cursor_row > last {
            self.cursor_row = last;
        }
    }

    /// Moves the cursor one row down, where the active view has a row there.
    pub fn move_down(&mut self, todos: &Todos)
        ensures
            final(self).active_screen == old(self).active_screen,
            final(self).cursor_row == if old(self).cursor_row + 1 < old(self).view_len(todos) {
                old(self).cursor_row + 1
            } else {
                old(self).cursor_row as int
            },
    {
        let n = todos.get_number_of_tasks(self.active_screen.filter());
        if n > 0 && self.cursor_row < n - 1 {
            self.cursor_row = self.cursor_row + 1;
        }
    }

    /// Moves the cursor one row up, stopping at the first row.
    pub fn move_up(&mut self)
        ensures
            final(self).active_screen == old(self).active_screen,
            final(self).cursor_row == if old(self).cursor_row > 0 {
                old(self).cursor_row - 1
            } else {
                0
            },
    {
        if self.cursor_row > 0 {
            self.cursor_row = self.cursor_row - 1;
        }
    }

    /// Applies a key to the view and the task list, and says what the session
    /// should do next; `None` for a key bound to nothing.
    pub fn handle_key(&mut self, key: Key, todos: &mut Todos) -> (r: Option<UiEvent>)
        ensures
            final(todos).filesave == old(todos).filesave,
            match command_of(key) {
                None => r is None && *final(self) == *old(self) && final(todos)@ == old(todos)@,
                Some(Command::Quit) => r == Some(UiEvent::Quit) && *final(self) == *old(self)
                    && final(todos)@ == old(todos)@,
                Some(Command::Add) => r == Some(UiEvent::AddTodo) && *final(self) == *old(self)
                    && final(todos)@ == old(todos)@,
                Some(Command::Remove) => r == Some(UiEvent::RefreshUI) && *final(self) == *old(self)
                    && final(todos)@ == removed(
                    old(todos)@,
                    tab_filter(old(self).active_screen),
                    old(self).cursor_row as int,
                ),
                Some(Command::Toggle) => r == Some(UiEvent::RefreshUI) && *final(self) == *old(self)
                    && final(todos)@ == toggled(
                    old(todos)@,
                    tab_filter(old(self).active_screen),
                    old(self).cursor_row as int,
                ),
                Some(Command::NextTab) => r == Some(UiEvent::ChangeTab(next_tab(old(self).active_screen)))
                    && final(self).active_screen == old(self).active_screen
                    && final(self).cursor_row == 0 && final(todos)@ == old(todos)@,
                Some(Command::PreviousTab) => r == Some(
                    UiEvent::ChangeTab(previous_tab(old(self).active_screen)),
                ) && final(self).active_screen == old(self).active_screen
                    && final(self).cursor_row == 0 && final(todos)@ == old(todos)@,
                Some(Command::Down) => r == Some(UiEvent::RefreshUI)
                    && final(self).active_screen == old(self).active_screen
                    && final(self).cursor_row == (if old(self).cursor_row + 1 < old(self).view_len(old(todos)) {
                        old(self).cursor_row + 1
                    } else {
                        old(self).cursor_row as int
                    }) && final(todos)@ == old(todos)@,
                Some(Command::Up) => r == Some(UiEvent::RefreshUI)
                    && final(self).active_screen == old(self).active_screen
                    && final(self).cursor_row == (if old(self).cursor_row > 0 {
                        old(self).cursor_row - 1
                    } else {
                        0
                    }) && final(todos)@ == old(todos)@,
            },
    {
        match classify(key) {
            None => None,
            Some(Command::Quit) => Some(UiEvent::Quit),
            Some(Command::Add) => Some(UiEvent::AddTodo),
            Some(Command::Remove) => {
                todos.remove_todo(self.cursor_row, self.active_screen.filter());
                Some(UiEvent::RefreshUI)
            },
            Some(Command::Toggle) => {
                todos.toggle_task(self.cursor_row, self.active_screen.filter());
                Some(UiEvent::RefreshUI)
            },
            Some(Command::NextTab) => {
                self.cursor_row = 0;
                Some(UiEvent::ChangeTab(self.active_screen.next()))
            },
            Some(Command::PreviousTab) => {
                self.cursor_row = 0;
                Some(UiEvent::ChangeTab(self.active_screen.previous()))
            },
            Some(Command::Down) => {
                self.move_down(todos);
                Some(UiEvent::RefreshUI)
            },
            Some(Command::Up) => {
                self.move_up();
                Some(UiEvent::RefreshUI)
            },
        }
    }
}

} // verus!

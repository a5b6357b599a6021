use todo_tui::session::{Action, App, SessionState};
use todo_tui::todo::Todos;
use todo_tui::ui::{classify, Command, Key, TodoTab, TodoUI, UiEvent};

fn app_with(tasks: &[(&str, bool)]) -> App {
    let lines: Vec<String> = tasks
        .iter()
        .map(|(d, done)| format!("{},{}", if *done { "x" } else { " " }, d))
        .collect();
    let mut app = App::new();
    app.load(&lines);
    app
}

fn listed(todos: &Todos) -> Vec<(String, bool)> {
    todos
        .get_tasks(None)
        .iter()
        .map(|t| (t.description.clone(), t.done))
        .collect()
}

#[test]
fn new_session_starts_on_all_tab() {
    let app = App::new();
    assert_eq!(app.state, SessionState::Running);
    assert_eq!(app.ui.active_screen(), TodoTab::TodoList);
    assert_eq!(app.ui.cursor_row(), 0);
    assert_eq!(app.todos.filesave, "todo.txt");
}

#[test]
fn tabs_cycle_forward_and_back() {
    let mut app = app_with(&[("a", false), ("b", false)]);
    app.step(Key::Char('j'));
    assert_eq!(app.ui.cursor_row(), 1);
    assert_eq!(app.step(Key::Char('l')), Action::Continue);
    assert_eq!(app.ui.active_screen(), TodoTab::DoneList);
    assert_eq!(app.ui.cursor_row(), 0);
    app.step(Key::Right);
    assert_eq!(app.ui.active_screen(), TodoTab::UndoneList);
    app.step(Key::Char('l'));
    assert_eq!(app.ui.active_screen(), TodoTab::TodoList);
    app.step(Key::Char('j'));
    assert_eq!(app.ui.cursor_row(), 1);
    app.step(Key::Char('l'));
    app.step(Key::Left);
    assert_eq!(app.ui.active_screen(), TodoTab::TodoList);
    assert_eq!(app.ui.cursor_row(), 0);
    app.step(Key::Char('h'));
    assert_eq!(app.ui.active_screen(), TodoTab::UndoneList);
}

#[test]
fn tab_methods_cycle() {
    for t in [TodoTab::TodoList, TodoTab::DoneList, TodoTab::UndoneList] {
        assert_eq!(t.next().next().next(), t);
        assert_eq!(t.next().previous(), t);
    }
    assert_eq!(TodoTab::TodoList.filter(), None);
    assert_eq!(TodoTab::DoneList.filter(), Some(true));
    assert_eq!(TodoTab::UndoneList.filter(), Some(false));
}

#[test]
fn cursor_moves_within_view() {
    let mut app = app_with(&[("a", false), ("b", false), ("c", true)]);
    app.step(Key::Up);
    assert_eq!(app.ui.cursor_row(), 0);
    app.step(Key::Down);
    app.step(Key::Char('j'));
    app.step(Key::Char('j'));
    assert_eq!(app.ui.cursor_row(), 2);
    app.step(Key::Char('k'));
    assert_eq!(app.ui.cursor_row(), 1);
}

#[test]
fn move_down_in_empty_view_stays_at_zero() {
    let mut app = app_with(&[]);
    assert_eq!(app.step(Key::Down), Action::Continue);
    assert_eq!(app.ui.cursor_row(), 0);
    app.step(Key::Char('d'));
    app.step(Key::Char('x'));
    assert_eq!(app.ui.cursor_row(), 0);
    assert_eq!(app.todos.get_number_of_tasks(None), 0);
}

#[test]
fn remove_in_undone_view_reconciles_cursor() {
    let mut app = app_with(&[("a", false), ("b", true), ("c", false)]);
    app.step(Key::Char('l'));
    app.step(Key::Char('l'));
    assert_eq!(app.ui.active_screen(), TodoTab::UndoneList);
    app.step(Key::Char('j'));
    assert_eq!(app.ui.cursor_row(), 1);
    assert_eq!(app.step(Key::Char('d')), Action::Save);
    assert_eq!(
        listed(&app.todos),
        vec![("a".to_string(), false), ("b".to_string(), true)]
    );
    assert_eq!(app.ui.cursor_row(), 0);
}

#[test]
fn remove_with_nothing_selected_does_not_save() {
    let mut app = app_with(&[("a", false)]);
    app.step(Key::Char('l'));
    assert_eq!(app.step(Key::Char('d')), Action::Continue);
    assert_eq!(listed(&app.todos), vec![("a".to_string(), false)]);
}

#[test]
fn toggle_in_done_view_reconciles_cursor() {
    let mut app = app_with(&[("a", true), ("b", true)]);
    app.step(Key::Char('l'));
    app.step(Key::Char('j'));
    assert_eq!(app.ui.cursor_row(), 1);
    assert_eq!(app.step(Key::Char('x')), Action::Continue);
    assert_eq!(
        listed(&app.todos),
        vec![("a".to_string(), true), ("b".to_string(), false)]
    );
    assert_eq!(app.ui.cursor_row(), 0);
}

#[test]
fn toggle_in_all_view_then_done_view() {
    let mut app = app_with(&[("Call mom", false), ("Do homework", false), ("Sleep", false)]);
    app.step(Key::Char('j'));
    app.step(Key::Char('x'));
    assert_eq!(
        listed(&app.todos),
        vec![
            ("Call mom".to_string(), false),
            ("Do homework".to_string(), true),
            ("Sleep".to_string(), false)
        ]
    );
    app.step(Key::Char('l'));
    let t = app.todos.get_task(app.ui.cursor_row(), app.ui.active_screen().filter()).unwrap();
    assert_eq!(t.description, "Do homework");
}

#[test]
fn add_key_collects_a_line() {
    let mut app = app_with(&[]);
    assert_eq!(app.add_line("early"), Action::Continue);
    assert_eq!(app.step(Key::Char('a')), Action::ReadLine);
    assert_eq!(app.state, SessionState::AwaitingTextInput);
    assert_eq!(app.step(Key::Char('q')), Action::ReadLine);
    assert_eq!(app.add_line("Buy milk"), Action::Save);
    assert_eq!(app.state, SessionState::Running);
    assert_eq!(listed(&app.todos), vec![("Buy milk".to_string(), false)]);
    assert_eq!(app.todos.file_lines(), vec![" ,Buy milk".to_string()]);
}

#[test]
fn quit_terminates_for_good() {
    let mut app = app_with(&[("a", false)]);
    assert_eq!(app.step(Key::Char('z')), Action::Continue);
    assert_eq!(app.step(Key::Enter), Action::Continue);
    assert_eq!(app.step(Key::Char('q')), Action::Quit);
    assert_eq!(app.state, SessionState::Terminated);
    assert_eq!(app.step(Key::Char('d')), Action::Quit);
    assert_eq!(app.add_line("x"), Action::Quit);
    assert_eq!(listed(&app.todos), vec![("a".to_string(), false)]);
}

#[test]
fn load_reconciles_cursor() {
    let mut app = app_with(&[("a", false), ("b", false), ("c", false)]);
    app.step(Key::Down);
    app.step(Key::Down);
    app.load(&vec![" ,only".to_string()]);
    assert_eq!(app.ui.cursor_row(), 0);
}

#[test]
fn refresh_clamps_cursor() {
    let mut todos = Todos::new("todo.txt");
    todos.add_todo("a");
    todos.add_todo("b");
    let mut ui = TodoUI::new();
    ui.cursor_row = 5;
    ui.refresh_screen(&todos);
    assert_eq!(ui.cursor_row(), 1);
    ui.change_screen(TodoTab::DoneList);
    assert_eq!(ui.active_screen(), TodoTab::DoneList);
    ui.refresh_screen(&todos);
    assert_eq!(ui.cursor_row(), 0);
}

#[test]
fn handle_key_reports_events() {
    let mut todos = Todos::new("todo.txt");
    todos.add_todo("a");
    let mut ui = TodoUI::new();
    assert_eq!(ui.handle_key(Key::Char('q'), &mut todos), Some(UiEvent::Quit));
    assert_eq!(ui.handle_key(Key::Char('a'), &mut todos), Some(UiEvent::AddTodo));
    assert_eq!(
        ui.handle_key(Key::Char('l'), &mut todos),
        Some(UiEvent::ChangeTab(TodoTab::DoneList))
    );
    assert_eq!(
        ui.handle_key(Key::Char('h'), &mut todos),
        Some(UiEvent::ChangeTab(TodoTab::UndoneList))
    );
    assert_eq!(ui.handle_key(Key::Char('x'), &mut todos), Some(UiEvent::RefreshUI));
    assert_eq!(todos.get_number_of_tasks(Some(true)), 1);
    assert_eq!(ui.handle_key(Key::Other, &mut todos), None);
}

#[test]
fn keys_classify() {
    assert_eq!(classify(Key::Char('d')), Some(Command::Remove));
    assert_eq!(classify(Key::Up), Some(Command::Up));
    assert_eq!(classify(Key::Char('Q')), None);
}

use todomvc::text::same_text;
use todomvc::{App, AppRoute, Msg, Props, StoredTodo, Todo};

fn record(text: &str, completed: bool) -> StoredTodo {
    StoredTodo { text: text.to_string(), completed }
}

fn app_with(items: &[(&str, bool)]) -> App {
    let stored = items.iter().map(|(text, completed)| record(text, *completed)).collect();
    App::create(Props { route: AppRoute::All }, Some(stored))
}

fn send(app: &mut App, msg: Msg) {
    assert!(app.accepts(&msg));
    let effect = app.update(msg);
    assert!(effect.should_render);
}

fn summary(todos: &[Todo]) -> Vec<(String, bool, bool)> {
    todos.iter().map(|t| (t.text.clone(), t.completed, t.editing)).collect()
}

fn item(text: &str, completed: bool, editing: bool) -> (String, bool, bool) {
    (text.to_string(), completed, editing)
}

#[test]
fn create_with_whitespace_only_draft_changes_nothing() {
    let mut app = app_with(&[("a", false)]);
    send(&mut app, Msg::Update("  ".to_string()));
    send(&mut app, Msg::Create);
    assert_eq!(summary(app.todos()), vec![item("a", false, false)]);
    assert_eq!(app.value(), "  ");
}

#[test]
fn create_with_empty_draft_changes_nothing() {
    let mut app = app_with(&[]);
    send(&mut app, Msg::Create);
    assert!(app.todos().is_empty());
    assert_eq!(app.value(), "");
}

#[test]
fn create_trims_the_draft_and_clears_it() {
    let mut app = app_with(&[]);
    send(&mut app, Msg::Update("  buy milk  ".to_string()));
    assert_eq!(app.value(), "  buy milk  ");
    send(&mut app, Msg::Create);
    assert_eq!(summary(app.todos()), vec![item("buy milk", false, false)]);
    assert_eq!(app.value(), "");
}

#[test]
fn create_appends_at_the_end() {
    let mut app = app_with(&[("a", true), ("b", false)]);
    send(&mut app, Msg::Update("c".to_string()));
    send(&mut app, Msg::Create);
    assert_eq!(
        summary(app.todos()),
        vec![item("a", true, false), item("b", false, false), item("c", false, false)]
    );
}

#[test]
fn create_keeps_whitespace_inside_the_text() {
    let mut app = app_with(&[]);
    send(&mut app, Msg::Update("\t\n walk \u{3000} the dog \u{a0}\r\n".to_string()));
    send(&mut app, Msg::Create);
    assert_eq!(summary(app.todos()), vec![item("walk \u{3000} the dog", false, false)]);
}

#[test]
fn create_treats_every_unicode_space_as_blank() {
    let blanks = [
        '\u{9}', '\u{a}', '\u{b}', '\u{c}', '\u{d}', '\u{20}', '\u{85}', '\u{a0}', '\u{1680}',
        '\u{2000}', '\u{2001}', '\u{2002}', '\u{2003}', '\u{2004}', '\u{2005}', '\u{2006}',
        '\u{2007}', '\u{2008}', '\u{2009}', '\u{200a}', '\u{2028}', '\u{2029}', '\u{202f}',
        '\u{205f}', '\u{3000}',
    ];
    for c in blanks {
        let mut app = app_with(&[]);
        send(&mut app, Msg::Update(c.to_string()));
        send(&mut app, Msg::Create);
        assert!(app.todos().is_empty(), "U+{:04X}", c as u32);
    }
}

#[test]
fn create_keeps_characters_next_to_the_unicode_spaces() {
    let kept = [
        '\u{8}', '\u{e}', '\u{1f}', '\u{21}', '\u{84}', '\u{86}', '\u{9f}', '\u{a1}', '\u{167f}',
        '\u{1681}', '\u{180e}', '\u{1fff}', '\u{200b}', '\u{2027}', '\u{202a}', '\u{202e}',
        '\u{2030}', '\u{205e}', '\u{2060}', '\u{2fff}', '\u{3001}', '\u{feff}',
    ];
    for c in kept {
        let mut app = app_with(&[]);
        send(&mut app, Msg::Update(format!(" {} ", c)));
        send(&mut app, Msg::Create);
        assert_eq!(app.todos().len(), 1, "U+{:04X}", c as u32);
        assert_eq!(app.todos()[0].text, c.to_string(), "U+{:04X}", c as u32);
    }
}

#[test]
fn whitespace_is_what_std_calls_whitespace() {
    let mut expected = Vec::new();
    let mut found = Vec::new();
    for n in 0..=0x10ffffu32 {
        if let Some(c) = char::from_u32(n) {
            if c.is_whitespace() {
                expected.push(n);
            }
            let listed = (0x09..=0x0d).contains(&n)
                || n == 0x20
                || n == 0x85
                || n == 0xa0
                || n == 0x1680
                || (0x2000..=0x200a).contains(&n)
                || n == 0x2028
                || n == 0x2029
                || n == 0x202f
                || n == 0x205f
                || n == 0x3000;
            if listed {
                found.push(n);
            }
        }
    }
    assert_eq!(found, expected);
}

#[test]
fn update_replaces_the_draft_as_typed() {
    let mut app = app_with(&[("a", false)]);
    send(&mut app, Msg::Update(" x ".to_string()));
    assert_eq!(app.value(), " x ");
    send(&mut app, Msg::Update(String::new()));
    assert_eq!(app.value(), "");
    assert_eq!(summary(app.todos()), vec![item("a", false, false)]);
}

#[test]
fn nop_changes_nothing() {
    let mut app = app_with(&[("a", true)]);
    send(&mut app, Msg::Update("draft".to_string()));
    send(&mut app, Msg::Nop);
    assert_eq!(summary(app.todos()), vec![item("a", true, false)]);
    assert_eq!(app.value(), "draft");
    assert!(!app.focus_edit());
}

#[test]
fn toggle_all_completes_all_then_clears_all() {
    let mut app = app_with(&[("a", false), ("b", true)]);
    send(&mut app, Msg::ToggleAll);
    assert_eq!(summary(app.todos()), vec![item("a", true, false), item("b", true, false)]);
    assert!(app.all_completed());
    send(&mut app, Msg::ToggleAll);
    assert_eq!(summary(app.todos()), vec![item("a", false, false), item("b", false, false)]);
    assert!(!app.all_completed());
}

#[test]
fn toggle_all_is_not_a_flip_of_each_item() {
    let mut app = app_with(&[("a", true), ("b", false), ("c", true)]);
    send(&mut app, Msg::ToggleAll);
    assert_eq!(
        summary(app.todos()),
        vec![item("a", true, false), item("b", true, false), item("c", true, false)]
    );
}

#[test]
fn toggle_all_on_the_empty_list_changes_nothing() {
    let mut app = app_with(&[]);
    assert!(app.all_completed());
    send(&mut app, Msg::ToggleAll);
    assert!(app.todos().is_empty());
}

#[test]
fn toggle_flips_one_item() {
    let mut app = app_with(&[("a", false), ("b", true)]);
    send(&mut app, Msg::Toggle(1));
    assert_eq!(summary(app.todos()), vec![item("a", false, false), item("b", false, false)]);
    send(&mut app, Msg::Toggle(1));
    assert_eq!(summary(app.todos()), vec![item("a", false, false), item("b", true, false)]);
    send(&mut app, Msg::Toggle(0));
    assert_eq!(summary(app.todos()), vec![item("a", true, false), item("b", true, false)]);
}

#[test]
fn clear_completed_keeps_the_others_in_order() {
    let mut app = app_with(&[("A", false), ("B", true), ("C", true), ("D", false)]);
    send(&mut app, Msg::ClearCompleted);
    assert_eq!(summary(app.todos()), vec![item("A", false, false), item("D", false, false)]);
}

#[test]
fn clear_completed_without_completed_items_changes_nothing() {
    let mut app = app_with(&[("A", false), ("B", false)]);
    send(&mut app, Msg::ClearCompleted);
    assert_eq!(summary(app.todos()), vec![item("A", false, false), item("B", false, false)]);
}

#[test]
fn clear_completed_can_empty_the_list() {
    let mut app = app_with(&[("A", true), ("B", true)]);
    send(&mut app, Msg::ClearCompleted);
    assert!(app.todos().is_empty());
}

#[test]
fn clear_completed_keeps_an_open_edit_field() {
    let mut app = app_with(&[("A", true), ("B", false)]);
    send(&mut app, Msg::StartEdit(1));
    send(&mut app, Msg::ClearCompleted);
    assert_eq!(summary(app.todos()), vec![item("B", false, true)]);
}

#[test]
fn delete_removes_one_item_and_keeps_the_order() {
    let mut app = app_with(&[("a", false), ("b", true), ("c", false), ("d", true)]);
    send(&mut app, Msg::Delete(1));
    assert_eq!(
        summary(app.todos()),
        vec![item("a", false, false), item("c", false, false), item("d", true, false)]
    );
    send(&mut app, Msg::Delete(2));
    assert_eq!(summary(app.todos()), vec![item("a", false, false), item("c", false, false)]);
    send(&mut app, Msg::Delete(0));
    assert_eq!(summary(app.todos()), vec![item("c", false, false)]);
    send(&mut app, Msg::Delete(0));
    assert!(app.todos().is_empty());
}

#[test]
fn delete_goes_by_the_index_in_the_whole_list() {
    let stored = vec![record("a", true), record("b", false), record("c", true)];
    let mut app = App::create(Props { route: AppRoute::Active }, Some(stored));
    send(&mut app, Msg::Delete(1));
    assert_eq!(summary(app.todos()), vec![item("a", true, false), item("c", true, false)]);
}

#[test]
fn complete_edit_commits_an_empty_text() {
    let mut app = app_with(&[("a", false), ("b", false)]);
    send(&mut app, Msg::StartEdit(1));
    send(&mut app, Msg::UpdateItem(1, String::new()));
    send(&mut app, Msg::CompleteEdit(1));
    assert_eq!(summary(app.todos()), vec![item("a", false, false), item("", false, false)]);
}

#[test]
fn complete_edit_does_not_trim() {
    let mut app = app_with(&[("a", true)]);
    send(&mut app, Msg::StartEdit(0));
    send(&mut app, Msg::UpdateItem(0, "  spaced  ".to_string()));
    assert_eq!(summary(app.todos()), vec![item("  spaced  ", true, true)]);
    send(&mut app, Msg::CompleteEdit(0));
    assert_eq!(summary(app.todos()), vec![item("  spaced  ", true, false)]);
}

#[test]
fn start_edit_opens_the_field_and_asks_for_focus() {
    let mut app = app_with(&[("a", false), ("b", false)]);
    assert!(!app.focus_edit());
    send(&mut app, Msg::StartEdit(0));
    assert!(app.focus_edit());
    assert_eq!(summary(app.todos()), vec![item("a", false, true), item("b", false, false)]);
}

#[test]
fn start_edit_leaves_other_edit_fields_open() {
    let mut app = app_with(&[("a", false), ("b", false)]);
    send(&mut app, Msg::StartEdit(0));
    send(&mut app, Msg::StartEdit(1));
    assert_eq!(summary(app.todos()), vec![item("a", false, true), item("b", false, true)]);
    send(&mut app, Msg::CompleteEdit(0));
    assert_eq!(summary(app.todos()), vec![item("a", false, false), item("b", false, true)]);
}

#[test]
fn update_item_overwrites_the_text_only() {
    let mut app = app_with(&[("a", true), ("b", false)]);
    send(&mut app, Msg::UpdateItem(0, "z".to_string()));
    assert_eq!(summary(app.todos()), vec![item("z", true, false), item("b", false, false)]);
    assert!(!app.focus_edit());
}

#[test]
fn accepts_only_indices_of_items() {
    let app = app_with(&[("a", false), ("b", false)]);
    assert!(app.accepts(&Msg::Nop));
    assert!(app.accepts(&Msg::Update("x".to_string())));
    assert!(app.accepts(&Msg::Create));
    assert!(app.accepts(&Msg::ToggleAll));
    assert!(app.accepts(&Msg::ClearCompleted));
    assert!(app.accepts(&Msg::Delete(1)));
    assert!(!app.accepts(&Msg::Delete(2)));
    assert!(app.accepts(&Msg::Toggle(0)));
    assert!(!app.accepts(&Msg::Toggle(usize::MAX)));
    assert!(!app.accepts(&Msg::StartEdit(2)));
    assert!(!app.accepts(&Msg::UpdateItem(3, String::new())));
    assert!(!app.accepts(&Msg::CompleteEdit(2)));
    assert!(app.accepts(&Msg::CompleteEdit(1)));
    let empty = app_with(&[]);
    assert!(!empty.accepts(&Msg::Delete(0)));
}

#[test]
fn msg_index_is_the_position_it_names() {
    assert_eq!(Msg::Delete(3).index(), Some(3));
    assert_eq!(Msg::Toggle(0).index(), Some(0));
    assert_eq!(Msg::StartEdit(7).index(), Some(7));
    assert_eq!(Msg::UpdateItem(2, "x".to_string()).index(), Some(2));
    assert_eq!(Msg::CompleteEdit(9).index(), Some(9));
    assert_eq!(Msg::Nop.index(), None);
    assert_eq!(Msg::Create.index(), None);
    assert_eq!(Msg::ToggleAll.index(), None);
    assert_eq!(Msg::ClearCompleted.index(), None);
    assert_eq!(Msg::Update("x".to_string()).index(), None);
}

#[test]
fn enter_in_the_new_field_submits() {
    assert!(matches!(Msg::new_todo_key("Enter"), Msg::Create));
    assert!(matches!(Msg::new_todo_key("a"), Msg::Nop));
    assert!(matches!(Msg::new_todo_key("enter"), Msg::Nop));
    assert!(matches!(Msg::new_todo_key(""), Msg::Nop));
    assert!(matches!(Msg::new_todo_key("Enter "), Msg::Nop));
    assert!(matches!(Msg::new_todo_key("Escape"), Msg::Nop));
}

#[test]
fn enter_in_the_edit_field_closes_it() {
    assert!(matches!(Msg::edit_key(4, "Enter"), Msg::CompleteEdit(4)));
    assert!(matches!(Msg::edit_key(0, "Enter"), Msg::CompleteEdit(0)));
    assert!(matches!(Msg::edit_key(4, "Tab"), Msg::Nop));
    assert!(matches!(Msg::edit_key(4, "E"), Msg::Nop));
}

#[test]
fn rendered_focuses_the_new_field_at_first() {
    let mut app = app_with(&[("a", false)]);
    let focus = app.rendered(true);
    assert!(focus.new_input);
    assert!(!focus.edit_input);
    let focus = app.rendered(false);
    assert!(!focus.new_input);
    assert!(!focus.edit_input);
}

#[test]
fn rendered_focuses_the_edit_field_once() {
    let mut app = app_with(&[("a", false)]);
    send(&mut app, Msg::StartEdit(0));
    let focus = app.rendered(false);
    assert!(!focus.new_input);
    assert!(focus.edit_input);
    assert!(!app.focus_edit());
    let focus = app.rendered(false);
    assert!(!focus.edit_input);
    assert_eq!(summary(app.todos()), vec![item("a", false, true)]);
}

#[test]
fn rendered_can_focus_both() {
    let mut app = app_with(&[("a", false)]);
    send(&mut app, Msg::StartEdit(0));
    let focus = app.rendered(true);
    assert!(focus.new_input);
    assert!(focus.edit_input);
}

#[test]
fn change_replaces_the_route() {
    let mut app = app_with(&[("a", false)]);
    assert_eq!(app.route(), AppRoute::All);
    assert!(app.change(Props { route: AppRoute::Completed }));
    assert_eq!(app.route(), AppRoute::Completed);
    assert_eq!(summary(app.todos()), vec![item("a", false, false)]);
}

#[test]
fn same_text_compares_characters() {
    assert!(same_text("Enter", "Enter"));
    assert!(same_text("", ""));
    assert!(!same_text("Enter", "enter"));
    assert!(!same_text("Enter", "Ente"));
    assert!(!same_text("", " "));
    assert!(same_text("\u{e9}", "\u{e9}"));
    assert!(!same_text("\u{e9}", "e\u{301}"));
}

#[test]
fn toggle_twice_gives_the_list_back() {
    let mut app = app_with(&[("a", false), ("b", true)]);
    send(&mut app, Msg::StartEdit(0));
    let before = summary(app.todos());
    send(&mut app, Msg::Toggle(0));
    send(&mut app, Msg::Toggle(0));
    assert_eq!(summary(app.todos()), before);
}

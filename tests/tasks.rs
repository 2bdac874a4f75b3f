use todo_list::id_generation::IdGenerator;
use todo_list::model::{TaskError, TasksModel};
use todo_list::presenter::{MenuOption, Presenter, select_option};
use todo_list::task::Task;
use todo_list::text::{decimal_string, parse_u32};
use todo_list::view::CliView;

fn task(ids: &mut IdGenerator, title: &str, description: &str) -> Task {
    Task::new(ids, title.to_string(), description.to_string(), "1700000000".to_string(), false)
}

#[test]
fn ids_start_at_one_and_increase() {
    let mut ids = IdGenerator::new();
    let issued: Vec<u32> = (0..5).map(|_| ids.next()).collect();
    assert_eq!(issued, vec![1, 2, 3, 4, 5]);
}

#[test]
fn id_generator_starting_at_and_exhaustion() {
    let mut ids = IdGenerator::starting_at(u32::MAX as u64);
    assert!(ids.has_next());
    assert_eq!(ids.next(), u32::MAX);
    assert!(!ids.has_next());
}

#[test]
fn add_grows_store_by_one_with_fresh_id() {
    let mut ids = IdGenerator::new();
    let mut model = TasksModel::new();
    model.add(task(&mut ids, "a", "b"));
    model.add(task(&mut ids, "c", "d"));
    assert_eq!(model.get_all().len(), 2);
    assert_ne!(model.get_all()[0].id, model.get_all()[1].id);
}

#[test]
fn delete_all_then_get_all_is_empty() {
    let mut ids = IdGenerator::new();
    let mut model = TasksModel::new();
    model.add(task(&mut ids, "a", "b"));
    model.add(task(&mut ids, "c", "d"));
    model.delete_all();
    assert!(model.get_all().is_empty());
    model.delete_all();
    assert!(model.get_all().is_empty());
}

#[test]
fn delete_absent_id_reports_not_found() {
    let mut ids = IdGenerator::new();
    let mut model = TasksModel::new();
    model.add(task(&mut ids, "a", "b"));
    assert_eq!(model.delete(2), Err(TaskError::NotFound(2)));
    assert_eq!(model.get_all().len(), 1);
    assert_eq!(model.get_all()[0].id, 1);
}

#[test]
fn delete_unissued_id_9999() {
    let mut model = TasksModel::new();
    assert_eq!(model.delete(9999), Err(TaskError::NotFound(9999)));
    assert!(model.get_all().is_empty());
    assert_eq!(TaskError::NotFound(9999).message(), "Task with id 9999 not found.");
}

#[test]
fn delete_removes_only_matching_task() {
    let mut ids = IdGenerator::new();
    let mut model = TasksModel::new();
    model.add(task(&mut ids, "a", "b"));
    model.add(task(&mut ids, "c", "d"));
    model.add(task(&mut ids, "e", "f"));
    assert_eq!(model.delete(2), Ok(()));
    let left: Vec<u32> = model.get_all().iter().map(|t| t.id).collect();
    assert_eq!(left, vec![1, 3]);
}

#[test]
fn toggle_twice_restores_done() {
    let mut ids = IdGenerator::new();
    let mut model = TasksModel::new();
    model.add(task(&mut ids, "a", "b"));
    model.add(task(&mut ids, "c", "d"));
    assert_eq!(model.toggle(2), Ok(()));
    assert!(!model.get_all()[0].done);
    assert!(model.get_all()[1].done);
    assert_eq!(model.toggle(2), Ok(()));
    assert!(!model.get_all()[1].done);
    assert_eq!(model.toggle(7), Err(TaskError::NotFound(7)));
}

#[test]
fn buy_milk_scenario() {
    let mut ids = IdGenerator::new();
    let mut model = TasksModel::new();
    model.add(task(&mut ids, "Buy milk", "2%"));
    assert_eq!(model.get_all().len(), 1);
    assert!(!model.get_all()[0].done);
    let id = model.get_all()[0].id;
    assert_eq!(model.toggle(id), Ok(()));
    assert!(model.get_all()[0].done);
    assert_eq!(model.delete(id), Ok(()));
    assert!(model.get_all().is_empty());
}

#[test]
fn add_task_with_empty_title_aborts() {
    let mut p = Presenter::new(TasksModel::new(), CliView::new());
    assert!(!p.add_task(String::new(), "2%".to_string(), 1));
    assert_eq!(p.tasks().len(), 0);
    assert!(!p.add_task("Buy milk".to_string(), String::new(), 1));
    assert_eq!(p.tasks().len(), 0);
}

#[test]
fn presenter_add_toggle_delete() {
    let mut p = Presenter::new(TasksModel::new(), CliView::new());
    assert!(p.add_task("Buy milk".to_string(), "2%".to_string(), 1700000000));
    assert!(p.add_task("Call mom".to_string(), "Sunday".to_string(), 1700000001));
    assert_eq!(p.tasks().len(), 2);
    assert_eq!(p.tasks()[0].id, 1);
    assert_eq!(p.tasks()[1].id, 2);
    assert_eq!(p.tasks()[0].date, "1700000000");
    assert_eq!(p.toggle_status("1"), None);
    assert!(p.tasks()[0].done);
    assert_eq!(p.toggle_status("x"), None);
    assert!(p.tasks()[0].done);
    assert_eq!(p.delete_task("9"), Some(TaskError::NotFound(9)));
    assert_eq!(p.delete_task("1"), None);
    assert_eq!(p.tasks().len(), 1);
    assert_eq!(p.delete_task("nope"), None);
    assert_eq!(p.tasks().len(), 1);
    assert!(p.add_task("Walk".to_string(), "dog".to_string(), 5));
    assert_eq!(p.tasks()[1].id, 3);
    p.delete_tasks();
    assert!(p.tasks().is_empty());
    assert_eq!(p.show_tasks(), "Todo list is empty.\n");
}

#[test]
fn presenter_ids_start_above_existing() {
    let mut ids = IdGenerator::starting_at(41);
    let mut model = TasksModel::new();
    model.add(task(&mut ids, "a", "b"));
    let mut p = Presenter::new(model, CliView::new());
    assert!(p.add_task("c".to_string(), "d".to_string(), 0));
    assert_eq!(p.tasks()[1].id, 42);
}

#[test]
fn menu_selection() {
    assert_eq!(select_option("0"), MenuOption::Exit);
    assert_eq!(select_option("1"), MenuOption::ShowTasks);
    assert_eq!(select_option("2"), MenuOption::AddTask);
    assert_eq!(select_option("3"), MenuOption::DeleteTask);
    assert_eq!(select_option("4"), MenuOption::ToggleStatus);
    assert_eq!(select_option("5"), MenuOption::ClearAll);
    assert_eq!(select_option("6"), MenuOption::Invalid);
    assert_eq!(select_option(""), MenuOption::Invalid);
    assert_eq!(select_option("abc"), MenuOption::Invalid);
    assert_eq!(select_option("-1"), MenuOption::Invalid);
}

#[test]
fn decimal_formatting() {
    assert_eq!(decimal_string(0), "0");
    assert_eq!(decimal_string(7), "7");
    assert_eq!(decimal_string(10), "10");
    assert_eq!(decimal_string(1700000000), "1700000000");
    assert_eq!(decimal_string(u64::MAX), "18446744073709551615");
}

#[test]
fn parsing_ids() {
    assert_eq!(parse_u32("42"), Some(42));
    assert_eq!(parse_u32("+7"), Some(7));
    assert_eq!(parse_u32("007"), Some(7));
    assert_eq!(parse_u32("4294967295"), Some(u32::MAX));
    assert_eq!(parse_u32("4294967296"), None);
    assert_eq!(parse_u32("99999999999999999999"), None);
    assert_eq!(parse_u32(""), None);
    assert_eq!(parse_u32("+"), None);
    assert_eq!(parse_u32("-1"), None);
    assert_eq!(parse_u32("12a"), None);
    assert_eq!(parse_u32(" 1"), None);
    for s in ["0", "+0", "123", "4294967295", "4294967296", "", "+", "++1", "1 2"] {
        assert_eq!(parse_u32(s), s.parse::<u32>().ok(), "{}", s);
    }
}

#[test]
fn render_empty_list() {
    let view = CliView::new();
    assert_eq!(view.render_tasks(&[]), "Todo list is empty.\n");
}

#[test]
fn render_trims_and_pads() {
    let mut ids = IdGenerator::new();
    let view = CliView::new();
    let t = task(&mut ids, "  Buy milk  ", " 2% ");
    let expected = format!(
        "Your tasks\n{sep}\nid: 1 | status: ✗ Not done | title: Buy milk\n 📝 {:<40}\n 📅 1700000000\n\n{sep}\n",
        "2%",
        sep = "*".repeat(42)
    );
    assert_eq!(view.render_tasks(&[t]), expected);
}

#[test]
fn render_omits_blank_description_and_shows_done() {
    let mut ids = IdGenerator::new();
    let view = CliView::new();
    let mut t = task(&mut ids, "Walk", "   ");
    t.done = true;
    let expected = format!(
        "Your tasks\n{sep}\nid: 1 | status: ✓ Done | title: Walk\n 📅 1700000000\n\n{sep}\n",
        sep = "*".repeat(42)
    );
    assert_eq!(view.render_tasks(&[t]), expected);
}

#[test]
fn render_keeps_long_description_unpadded() {
    let view = CliView::new();
    let long = "x".repeat(45);
    let block = view.render_task(3, false, "T", &long, "9");
    assert_eq!(
        block,
        format!("id: 3 | status: ✗ Not done | title: T\n 📝 {}\n 📅 9\n\n{}\n", long, "*".repeat(42))
    );
}

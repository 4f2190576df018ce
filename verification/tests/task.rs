use std::collections::HashSet;
use taskr::domain::{Category, DueDate, Priority, Status, Task, TaskId, ValidationError};

fn sample(due_date: Option<DueDate>) -> Task {
    Task::new(
        String::from("Write report"),
        String::from("quarterly figures"),
        Priority::Medium,
        Category::Work,
        due_date,
    )
    .unwrap()
}

#[test]
fn new_task_holds_what_it_was_given() {
    let due = DueDate::new(1_431_648_000, 0);
    let task = sample(due);
    assert_eq!(task.title.to_string(), "Write report");
    assert_eq!(task.description.to_string(), "quarterly figures");
    assert_eq!(task.priority, Priority::Medium);
    assert_eq!(task.category, Category::Work);
    assert_eq!(task.due_date, due);
    assert_eq!(task.status, Status::Todo);
    assert_eq!(task.id.to_string().len(), 36);
}

#[test]
fn new_task_without_due_date() {
    let task = sample(None);
    assert_eq!(task.due_date, None);
    assert_eq!(task.status, Status::Todo);
}

#[test]
fn new_tasks_differ_in_their_ids() {
    let a = sample(None);
    let b = sample(None);
    assert!(a.id != b.id);
    assert_eq!(a.title, b.title);
}

#[test]
fn ten_thousand_new_tasks_have_distinct_ids() {
    let mut seen = HashSet::new();
    for _ in 0..10_000 {
        assert!(seen.insert(sample(None).id));
    }
    assert_eq!(seen.len(), 10_000);
}

#[test]
fn new_task_refuses_an_empty_title() {
    let r = Task::new(String::new(), String::new(), Priority::Low, Category::Personal, None);
    assert_eq!(r, Err(ValidationError::EmptyTitle));
}

#[test]
fn new_task_refuses_a_long_title() {
    let r = Task::new("x".repeat(101), String::new(), Priority::Low, Category::Personal, None);
    assert_eq!(r, Err(ValidationError::TitleTooLong));
}

#[test]
fn new_task_refuses_a_long_description() {
    let r = Task::new(
        String::from("ok"),
        "x".repeat(501),
        Priority::Low,
        Category::Personal,
        None,
    );
    assert_eq!(r, Err(ValidationError::DescriptionTooLong));
}

#[test]
fn new_task_reports_the_title_before_the_description() {
    let r = Task::new(String::new(), "x".repeat(501), Priority::High, Category::Other, None);
    assert_eq!(r, Err(ValidationError::EmptyTitle));
    let r = Task::new("x".repeat(101), "x".repeat(501), Priority::High, Category::Other, None);
    assert_eq!(r, Err(ValidationError::TitleTooLong));
}

#[test]
fn task_with_id_keeps_the_id() {
    let task = Task::with_id(
        TaskId::from(String::from("fixed")),
        String::from("Buy milk"),
        String::new(),
        Priority::Low,
        Category::Personal,
        None,
    )
    .unwrap();
    assert_eq!(task.id.to_string(), "fixed");
    assert_eq!(task.title.to_string(), "Buy milk");
    assert_eq!(task.description.to_string(), "");
    assert_eq!(task.status, Status::Todo);
}

#[test]
fn task_with_id_refuses_what_new_refuses() {
    let id = TaskId::from(String::from("fixed"));
    let r = Task::with_id(
        id.clone(),
        String::new(),
        String::new(),
        Priority::Low,
        Category::Personal,
        None,
    );
    assert_eq!(r, Err(ValidationError::EmptyTitle));
    let r = Task::with_id(
        id,
        String::from("ok"),
        "x".repeat(501),
        Priority::Low,
        Category::Personal,
        None,
    );
    assert_eq!(r, Err(ValidationError::DescriptionTooLong));
}

#[test]
fn mark_completed_changes_the_status_alone() {
    let task = sample(DueDate::new(86_400, 0));
    assert_eq!(task.status, Status::Todo);
    let before = task.clone();
    let after = task.mark_completed();
    assert_eq!(after.status, Status::Completed);
    assert_eq!(after.id, before.id);
    assert_eq!(after.title, before.title);
    assert_eq!(after.description, before.description);
    assert_eq!(after.priority, before.priority);
    assert_eq!(after.category, before.category);
    assert_eq!(after.due_date, before.due_date);
}

#[test]
fn mark_completed_twice_stays_completed() {
    let task = sample(None).mark_completed();
    let again = task.clone().mark_completed();
    assert_eq!(again, task);
}

#[test]
fn mark_priority_changes_the_priority_alone() {
    let task = sample(DueDate::new(86_400, 0));
    let before = task.clone();

    let high = task.mark_high_priority();
    assert_eq!(high.priority, Priority::High);
    assert_eq!(high, Task { priority: Priority::High, ..before.clone() });

    let low = high.mark_low_priority();
    assert_eq!(low.priority, Priority::Low);
    assert_eq!(low, Task { priority: Priority::Low, ..before.clone() });

    let medium = low.mark_medium_priority();
    assert_eq!(medium, before);
}

#[test]
fn marks_keep_the_status() {
    let done = sample(None).mark_completed().mark_high_priority();
    assert_eq!(done.status, Status::Completed);
    assert_eq!(done.priority, Priority::High);
}

#[test]
fn clone_of_a_task_is_equal_and_independent() {
    let task = sample(DueDate::new(1, 2));
    let copy = task.clone();
    assert_eq!(copy, task);
    let changed = copy.mark_completed();
    assert_eq!(task.status, Status::Todo);
    assert_eq!(changed.status, Status::Completed);
}

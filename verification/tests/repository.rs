use taskr::domain::{
    is_hit, Category, DueDate, Priority, RepositoryError, Status, Task, TaskDomainService, TaskId,
    TaskRepository,
};
use taskr::infrastructure::TaskRepositoryInMemory;

fn task(title: &str) -> Task {
    Task::new(
        String::from(title),
        String::from("details"),
        Priority::Medium,
        Category::Study,
        DueDate::new(1_700_000_000, 0),
    )
    .unwrap()
}

fn titles(mut tasks: Vec<Task>) -> Vec<String> {
    tasks.sort_by_key(|t| t.title.to_string());
    tasks.iter().map(|t| t.title.to_string()).collect()
}

#[test]
fn empty_repository_finds_nothing() {
    let repo = TaskRepositoryInMemory::new();
    assert_eq!(repo.find_by_id(&TaskId::from(String::from("any"))), Err(RepositoryError::NotFound));
    assert_eq!(repo.find_by_id(&TaskId::from(String::new())), Err(RepositoryError::NotFound));
    assert_eq!(repo.find_by_id(&TaskId::new()), Err(RepositoryError::NotFound));
    assert_eq!(repo.find_all(), Ok(vec![]));
}

#[test]
fn saved_task_is_found_as_it_was_saved() {
    let mut repo = TaskRepositoryInMemory::new();
    let t = task("Read chapter 3");
    assert_eq!(repo.save(&t), Ok(()));
    let found = repo.find_by_id(&t.id).unwrap();
    assert_eq!(found.id, t.id);
    assert_eq!(found.title, t.title);
    assert_eq!(found.description, t.description);
    assert_eq!(found.priority, t.priority);
    assert_eq!(found.category, t.category);
    assert_eq!(found.due_date, t.due_date);
    assert_eq!(found.status, t.status);
    assert_eq!(found, t);
}

#[test]
fn save_of_a_new_id_succeeds() {
    let mut repo = TaskRepositoryInMemory::new();
    assert_eq!(repo.save(&task("first")), Ok(()));
    assert_eq!(repo.save(&task("second")), Ok(()));
    assert_eq!(titles(repo.find_all().unwrap()), vec!["first", "second"]);
}

#[test]
fn save_replaces_the_task_under_the_same_id() {
    let mut repo = TaskRepositoryInMemory::new();
    let t = task("Read chapter 3");
    let other = task("Other");
    repo.save(&t).unwrap();
    repo.save(&other).unwrap();
    let done = t.clone().mark_completed().mark_high_priority();
    assert_eq!(repo.save(&done), Ok(()));
    assert_eq!(repo.find_by_id(&t.id), Ok(done));
    assert_eq!(repo.find_by_id(&other.id), Ok(other));
    assert_eq!(repo.find_all().unwrap().len(), 2);
}

#[test]
fn found_task_is_a_copy() {
    let mut repo = TaskRepositoryInMemory::new();
    let t = task("Read chapter 3");
    repo.save(&t).unwrap();
    let copy = repo.find_by_id(&t.id).unwrap().mark_completed();
    assert_eq!(copy.status, Status::Completed);
    assert_eq!(repo.find_by_id(&t.id).unwrap().status, Status::Todo);
    repo.save(&copy).unwrap();
    assert_eq!(repo.find_by_id(&t.id).unwrap().status, Status::Completed);
}

#[test]
fn deleted_task_is_not_found() {
    let mut repo = TaskRepositoryInMemory::new();
    let t = task("Read chapter 3");
    repo.save(&t).unwrap();
    assert_eq!(repo.delete(&t.id), Ok(()));
    assert_eq!(repo.find_by_id(&t.id), Err(RepositoryError::NotFound));
    assert_eq!(repo.find_all(), Ok(vec![]));
}

#[test]
fn delete_leaves_the_others() {
    let mut repo = TaskRepositoryInMemory::new();
    let a = task("a");
    let b = task("b");
    let c = task("c");
    repo.save(&a).unwrap();
    repo.save(&b).unwrap();
    repo.save(&c).unwrap();
    assert_eq!(repo.delete(&b.id), Ok(()));
    assert_eq!(repo.find_by_id(&a.id), Ok(a));
    assert_eq!(repo.find_by_id(&b.id), Err(RepositoryError::NotFound));
    assert_eq!(repo.find_by_id(&c.id), Ok(c));
    assert_eq!(titles(repo.find_all().unwrap()), vec!["a", "c"]);
}

#[test]
fn delete_of_a_missing_id_is_not_found() {
    let mut repo = TaskRepositoryInMemory::new();
    assert_eq!(repo.delete(&TaskId::from(String::from("none"))), Err(RepositoryError::NotFound));
    let t = task("a");
    repo.save(&t).unwrap();
    assert_eq!(repo.delete(&TaskId::from(String::from("none"))), Err(RepositoryError::NotFound));
    assert_eq!(repo.delete(&t.id), Ok(()));
    assert_eq!(repo.delete(&t.id), Err(RepositoryError::NotFound));
}

#[test]
fn deleted_id_can_be_saved_again() {
    let mut repo = TaskRepositoryInMemory::new();
    let t = task("a");
    repo.save(&t).unwrap();
    repo.delete(&t.id).unwrap();
    assert_eq!(repo.save(&t), Ok(()));
    assert_eq!(repo.find_by_id(&t.id), Ok(t));
}

#[test]
fn find_all_lists_each_task_once() {
    let mut repo = TaskRepositoryInMemory::new();
    let mut saved = Vec::new();
    for n in 0..25 {
        let t = task(&format!("task {n:02}"));
        repo.save(&t).unwrap();
        saved.push(t);
    }
    // Saving again adds nothing.
    for t in &saved {
        repo.save(t).unwrap();
    }
    let mut all = repo.find_all().unwrap();
    assert_eq!(all.len(), 25);
    all.sort_by_key(|t| t.title.to_string());
    assert_eq!(all, saved);
}

#[test]
fn lookup_with_a_task_is_a_hit() {
    assert!(is_hit(&Ok(task("a"))));
    assert!(!is_hit(&Err(RepositoryError::NotFound)));
    assert!(!is_hit(&Err(RepositoryError::Other(String::from("disk full")))));
}

#[test]
fn domain_service_tells_whether_a_task_existed() {
    let mut repo = TaskRepositoryInMemory::new();
    let t = task("a");
    repo.save(&t).unwrap();
    let service = TaskDomainService::new(repo);
    assert!(service.existed(t.id.to_string()));
    assert!(!service.existed(String::from("none")));
    assert!(!service.existed(String::new()));
    assert_eq!(service.repository().find_all().unwrap().len(), 1);
    let repo = service.into_repository();
    assert_eq!(repo.find_by_id(&t.id), Ok(t));
}

#[test]
fn domain_service_can_be_printed() {
    let service = TaskDomainService::new(TaskRepositoryInMemory::new());
    let text = format!("{service:#?}");
    assert!(text.contains("TaskDomainService"));
    assert!(text.contains("TaskRepositoryInMemory"));
}

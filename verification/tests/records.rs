use chrono::{NaiveDate, NaiveDateTime};

use ntex_task_list::models::{
    Comment, CommentView, ModifiedTask, NewComment, NewTask, Tag, Task, TaskList, TaskTag, TaskView,
    TaskViewList,
};

fn date(y: i32, m: u32, d: u32) -> NaiveDate {
    NaiveDate::from_ymd_opt(y, m, d).unwrap()
}

fn moment(y: i32, m: u32, d: u32, h: u32) -> NaiveDateTime {
    date(y, m, d).and_hms_opt(h, 0, 0).unwrap()
}

fn task(id: i32, title: &str) -> Task {
    Task {
        id,
        title: title.to_string(),
        description: format!("description of {}", title),
        finished: false,
        deadline: date(2005, 10, 26),
        created: moment(2024, 1, 1, id as u32 % 24),
    }
}

fn comment(id: i32, content: &str, task_id: i32) -> Comment {
    Comment { id, content: content.to_string(), task_id, created: moment(2024, 2, 1, id as u32 % 24) }
}

fn contents(view: &TaskView) -> Vec<String> {
    view.comments().iter().map(|c| c.content().clone()).collect()
}

#[test]
fn new_task_keeps_its_fields() {
    let t = NewTask::new("TestTask".to_string(), "".to_string(), date(2005, 10, 26));
    assert_eq!(t.title, "TestTask");
    assert_eq!(t.description, "");
    assert_eq!(t.deadline, date(2005, 10, 26));
}

#[test]
fn modified_task_keeps_its_fields() {
    let t = ModifiedTask::new("ModifyTaskTest".to_string(), "After modify".to_string(), true, date(2014, 10, 25));
    assert_eq!(t.title, "ModifyTaskTest");
    assert_eq!(t.description, "After modify");
    assert!(t.finished);
    assert_eq!(t.deadline, date(2014, 10, 25));
}

#[test]
fn new_comment_takes_the_task_id() {
    let t = task(42, "TestTask for register comment");
    let c = NewComment::new("1st register comment".to_string(), &t);
    assert_eq!(c.content(), "1st register comment");
    assert_eq!(c.task_id(), 42);
}

#[test]
fn comment_view_keeps_every_field() {
    let c = comment(7, "hello", 3);
    let v = CommentView::new(&c);
    assert_eq!(v.id(), 7);
    assert_eq!(v.content(), "hello");
    assert_eq!(v.task_id(), 3);
    assert_eq!(v.created(), moment(2024, 2, 1, 7));
}

#[test]
fn task_view_shows_the_task_and_its_comments_in_order() {
    let t = task(5, "NewTask");
    let v = TaskView::new(&t, vec![comment(2, "second", 5), comment(1, "first", 5)]);
    assert_eq!(v.id(), 5);
    assert_eq!(v.title(), "NewTask");
    assert_eq!(v.description(), "description of NewTask");
    assert!(!v.finished());
    assert_eq!(v.deadline(), date(2005, 10, 26));
    assert_eq!(v.created(), moment(2024, 1, 1, 5));
    assert_eq!(contents(&v), vec!["second".to_string(), "first".to_string()]);
}

#[test]
fn task_view_without_comments() {
    let t = task(1, "alone");
    let v = TaskView::new(&t, vec![]);
    assert!(v.comments().is_empty());
}

#[test]
fn test_register_comment_ok() {
    // two comments added to one task are both shown with it and carry its id
    let t = task(11, "TestTask for register comment");
    let list = TaskViewList::new(
        vec![t],
        vec![comment(100, "1st register comment", 11), comment(101, "2nd register comment", 11)],
    );
    let view = &list.tasks()[0];
    assert_eq!(view.comments().len(), 2);
    for c in view.comments() {
        assert_eq!(c.task_id(), view.id());
    }
    assert_eq!(contents(view), vec!["1st register comment".to_string(), "2nd register comment".to_string()]);
}

#[test]
fn task_view_list_groups_comments_by_task() {
    let tasks = vec![task(1, "a"), task(2, "b"), task(3, "c")];
    let comments = vec![
        comment(10, "b1", 2),
        comment(11, "a1", 1),
        comment(12, "b2", 2),
        comment(13, "orphan", 9),
        comment(14, "a2", 1),
    ];
    let list = TaskViewList::new(tasks, comments);
    let views = list.tasks();
    assert_eq!(views.len(), 3);
    assert_eq!(views.iter().map(|v| v.id()).collect::<Vec<_>>(), vec![1, 2, 3]);
    assert_eq!(contents(&views[0]), vec!["a1".to_string(), "a2".to_string()]);
    assert_eq!(contents(&views[1]), vec!["b1".to_string(), "b2".to_string()]);
    assert!(views[2].comments().is_empty());
}

#[test]
fn task_view_list_gives_shared_ids_to_the_last_task() {
    let tasks = vec![task(4, "first"), task(4, "second")];
    let list = TaskViewList::new(tasks, vec![comment(1, "x", 4)]);
    let views = list.tasks();
    assert!(views[0].comments().is_empty());
    assert_eq!(contents(&views[1]), vec!["x".to_string()]);
}

#[test]
fn task_view_list_of_nothing() {
    let list = TaskViewList::new(vec![], vec![comment(1, "x", 4)]);
    assert!(list.tasks().is_empty());
}

#[test]
fn task_list_keeps_the_tasks() {
    let list = TaskList::new(vec![task(1, "a"), task(2, "b")]);
    assert_eq!(list.tasks().iter().map(|t| t.id).collect::<Vec<_>>(), vec![1, 2]);
}

#[test]
fn tags_are_plain_records() {
    let tag = Tag { id: 1, name: "home".to_string() };
    let link = TaskTag { tag_id: tag.id, task_id: 9 };
    assert_eq!(link.tag_id, 1);
    assert_eq!(link.task_id, 9);
    assert_eq!(tag.name, "home");
}

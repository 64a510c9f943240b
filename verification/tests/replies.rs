use chrono::{NaiveDate, NaiveDateTime};

use ntex_task_list::message::{
    CommentMessage, PagenatedTaskListMessage, SimpleMessage, TaskMessage,
};
use ntex_task_list::models::{Comment, Task};
use ntex_task_list::query::TaskQuery;
use ntex_task_list::response::{
    add_comment_reply, add_comment_step, decimal_string, delete_task_reply, get_comment_reply, get_task_step, get_tasks_reply,
    search_task_reply, stored_task_step, task_view_reply, DbError, HttpStatus, TaskListReply, TaskRequest,
    TaskStep,
};

fn date(y: i32, m: u32, d: u32) -> NaiveDate {
    NaiveDate::from_ymd_opt(y, m, d).unwrap()
}

fn moment(h: u32) -> NaiveDateTime {
    date(2024, 1, 1).and_hms_opt(h, 0, 0).unwrap()
}

fn task(id: i32, title: &str, description: &str) -> Task {
    Task {
        id,
        title: title.to_string(),
        description: description.to_string(),
        finished: false,
        deadline: date(2005, 10, 26),
        created: moment(1),
    }
}

fn comment(id: i32, content: &str, task_id: i32) -> Comment {
    Comment { id, content: content.to_string(), task_id, created: moment(2) }
}

fn error_text(m: &TaskMessage) -> String {
    match m {
        TaskMessage::Error(e) => e.message().clone(),
        TaskMessage::Info(_) => panic!("an error reply was expected"),
    }
}

#[test]
fn status_codes() {
    assert_eq!(HttpStatus::Success.code(), 200);
    assert_eq!(HttpStatus::NotFound.code(), 404);
    assert_eq!(HttpStatus::InternalServerError.code(), 500);
}

#[test]
fn simple_messages() {
    assert!(matches!(SimpleMessage::info("a".to_string()), SimpleMessage::Info(m) if m == "a"));
    assert!(matches!(SimpleMessage::error("b".to_string()), SimpleMessage::Error(m) if m == "b"));
}

#[test]
fn test_get_task_not_found() {
    match get_task_step(Err(DbError::NotFound)) {
        TaskStep::Reply(status, message) => {
            assert_eq!(status, HttpStatus::NotFound);
            assert_eq!(error_text(&message), "Not Found");
        },
        TaskStep::LoadComments(_) => panic!("This request must not return task"),
    }
}

#[test]
fn get_task_failure_is_internal_error() {
    match get_task_step(Err(DbError::Other)) {
        TaskStep::Reply(status, message) => {
            assert_eq!(status, HttpStatus::InternalServerError);
            assert_eq!(error_text(&message), "Internal Error");
        },
        TaskStep::LoadComments(_) => panic!("a failure must be answered"),
    }
}

#[test]
fn test_get_task_ok() {
    let t = task(3, "NewTask", "description");
    let found = match get_task_step(Ok(t)) {
        TaskStep::LoadComments(found) => found,
        TaskStep::Reply(..) => panic!("a found task has its comments loaded"),
    };
    let (status, message) = task_view_reply(TaskRequest::Get, &found, Ok(vec![]));
    assert_eq!(status, HttpStatus::Success);
    match message {
        TaskMessage::Info(info) => {
            assert_eq!(info.message(), "got task");
            assert_eq!(info.task().title(), "NewTask");
            assert_eq!(info.task().description(), "description");
            assert_eq!(info.task().deadline(), date(2005, 10, 26));
        },
        TaskMessage::Error(e) => panic!("{}", e.message()),
    }
}

#[test]
fn test_register_task_ok() {
    let stored = task(8, "TestTask", "");
    let found = match stored_task_step(Ok(stored)) {
        TaskStep::LoadComments(found) => found,
        TaskStep::Reply(..) => panic!("a stored task has its comments loaded"),
    };
    let (status, message) = task_view_reply(TaskRequest::Register, &found, Ok(vec![]));
    assert_eq!(status.code(), 200);
    match message {
        TaskMessage::Info(info) => {
            assert_eq!(info.message(), "task registered!");
            assert_eq!(info.task().title(), "TestTask");
            assert_eq!(info.task().description(), "");
            assert!(!info.task().finished());
        },
        TaskMessage::Error(e) => panic!("Error: {:?}", e.message()),
    }
}

#[test]
fn register_failure_reports_its_text() {
    match stored_task_step(Err("Error(NotFound)".to_string())) {
        TaskStep::Reply(status, message) => {
            assert_eq!(status, HttpStatus::InternalServerError);
            assert_eq!(error_text(&message), "Error(NotFound)");
        },
        TaskStep::LoadComments(_) => panic!("a failure must be answered"),
    }
}

#[test]
fn test_modify_task_ok() {
    let modified = task(12, "ModifyTaskTest", "After modify");
    let (status, message) = task_view_reply(TaskRequest::Modify, &modified, Ok(vec![comment(1, "c", 12)]));
    assert_eq!(status, HttpStatus::Success);
    match message {
        TaskMessage::Info(info) => {
            assert_eq!(info.message(), "task modified");
            assert_eq!(info.task().id(), 12);
            assert_eq!(info.task().title(), "ModifyTaskTest");
            assert_eq!(info.task().description(), "After modify");
            assert_eq!(info.task().comments().len(), 1);
        },
        TaskMessage::Error(_) => panic!(),
    }
}

#[test]
fn failing_to_load_comments_is_reported() {
    let t = task(1, "a", "b");
    let (status, message) = task_view_reply(TaskRequest::Register, &t, Err(DbError::Other));
    assert_eq!(status, HttpStatus::InternalServerError);
    assert_eq!(error_text(&message), "Failed to get task");
}

#[test]
fn search_replies() {
    let page = TaskQuery::new(1, 10).get_pagenated_tasks(0, vec![], vec![]);
    let (status, message) = search_task_reply(Ok(page));
    assert_eq!(status, HttpStatus::Success);
    match message {
        PagenatedTaskListMessage::Info(info) => {
            assert_eq!(info.message(), "search success");
            assert_eq!(info.pagenated_task_list().num_total_tasks(), 0);
            assert_eq!(info.pagenated_task_list().page_no(), 1);
        },
        PagenatedTaskListMessage::Error(_) => panic!("a page was found"),
    }
    let (status, message) = search_task_reply(Err("connection refused".to_string()));
    assert_eq!(status, HttpStatus::InternalServerError);
    match message {
        PagenatedTaskListMessage::Error(e) => assert_eq!(e.message(), "connection refused"),
        PagenatedTaskListMessage::Info(_) => panic!("a failure must be reported"),
    }
}

#[test]
fn test_delete_task_ok() {
    let (status, message) = delete_task_reply(Ok(1));
    assert_eq!(status, HttpStatus::Success);
    assert!(matches!(message, SimpleMessage::Info(m) if m == "task 1 was deleted."));
}

#[test]
fn delete_reports_the_number_removed() {
    let (_, zero) = delete_task_reply(Ok(0));
    assert!(matches!(zero, SimpleMessage::Info(m) if m == "task 0 was deleted."));
    let (_, many) = delete_task_reply(Ok(12));
    assert!(matches!(many, SimpleMessage::Info(m) if m == "task 12 was deleted."));
    let (status, failed) = delete_task_reply(Err(DbError::Other));
    assert_eq!(status, HttpStatus::InternalServerError);
    assert!(matches!(failed, SimpleMessage::Error(m) if m == "Error occurred"));
}

#[test]
fn decimal_numerals() {
    assert_eq!(decimal_string(0), "0");
    assert_eq!(decimal_string(7), "7");
    assert_eq!(decimal_string(10), "10");
    assert_eq!(decimal_string(12345), "12345");
    assert_eq!(decimal_string(usize::MAX), usize::MAX.to_string());
}

#[test]
fn comment_lookup_replies() {
    let (status, message) = get_comment_reply(Ok(comment(5, "hello", 2)));
    assert_eq!(status, HttpStatus::Success);
    match message {
        CommentMessage::Info(info) => {
            assert_eq!(info.message(), "got comment");
            assert_eq!(info.comment().id(), 5);
            assert_eq!(info.comment().content(), "hello");
            assert_eq!(info.comment().task_id(), 2);
        },
        CommentMessage::Error(_) => panic!("the comment was found"),
    }
    let (status, message) = get_comment_reply(Err(DbError::NotFound));
    assert_eq!(status, HttpStatus::NotFound);
    assert!(matches!(message, CommentMessage::Error(e) if e.message() == "Not Found"));
    let (status, message) = get_comment_reply(Err(DbError::Other));
    assert_eq!(status, HttpStatus::InternalServerError);
    assert!(matches!(message, CommentMessage::Error(e) if e.message() == "Internal Error"));
}

#[test]
fn add_comment_replies() {
    let (status, message) = add_comment_reply(Ok(comment(9, "1st register comment", 4)));
    assert_eq!(status, HttpStatus::Success);
    match message {
        CommentMessage::Info(info) => {
            assert_eq!(info.message(), "comment added!");
            assert_eq!(info.comment().content(), "1st register comment");
            assert_eq!(info.comment().task_id(), 4);
        },
        CommentMessage::Error(_) => panic!("the comment was stored"),
    }
}

#[test]
fn test_register_comment_ng_with_invalid_task_id() {
    // the lookup of the comment's task failed: nothing is stored, an error is answered
    match add_comment_step(Err("Error(NotFound)".to_string()), "comment with invalid task".to_string()) {
        Ok(_) => panic!("This comment's task id is invalid"),
        Err((status, message)) => {
            assert_eq!(status, HttpStatus::InternalServerError);
            assert!(matches!(message, CommentMessage::Error(e) if e.message() == "Error(NotFound)"));
        },
    }
}

#[test]
fn comment_for_an_existing_task_is_built() {
    let owner = task(77, "TestTask for register comment", "");
    match add_comment_step(Ok(owner), "1st register comment".to_string()) {
        Ok(c) => {
            assert_eq!(c.task_id(), 77);
            assert_eq!(c.content(), "1st register comment");
        },
        Err(_) => panic!("the task exists"),
    }
}

#[test]
fn storing_a_comment_can_still_fail() {
    let (status, message) = add_comment_reply(Err("NotFound".to_string()));
    assert_eq!(status, HttpStatus::InternalServerError);
    assert!(matches!(message, CommentMessage::Error(e) if e.message() == "NotFound"));
}

#[test]
fn all_tasks_replies() {
    let (status, body) = get_tasks_reply(Ok(vec![task(1, "a", "b")]));
    assert_eq!(status, HttpStatus::Success);
    match body {
        TaskListReply::Tasks(list) => assert_eq!(list.tasks().len(), 1),
        TaskListReply::Text(_) => panic!("tasks were loaded"),
    }
    let (status, body) = get_tasks_reply(Err(DbError::Other));
    assert_eq!(status, HttpStatus::InternalServerError);
    assert!(matches!(body, TaskListReply::Text(t) if t == "Error retrieving tasks"));
}

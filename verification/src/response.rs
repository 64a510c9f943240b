//! What the service answers: for each request, the status and the reply that
//! follow from what the store gave back.
//!
//! The store is reached elsewhere; the functions here take its outcome as an
//! argument, so each one is verified for every outcome the store may give.
use vstd::prelude::*;
use vstd::string::*;

use crate::message::{
    CommentMessage, CommentMessageModel, PagenatedTaskListMessage, PagenatedTaskListMessageModel,
    SimpleMessage, SimpleMessageModel, TaskMessage, TaskMessageModel,
};
use crate::models::{
    comment_model, comment_models, task_view_model, Comment, CommentView, NewComment, NewCommentModel, Task,
    TaskList, TaskView,
};
use crate::query::PagenatedTaskList;

verus! {

/// The status line of a reply.
#[derive(Debug, Clone, Copy, PartialEq, Eq, Structural)]
pub enum HttpStatus {
    Success,
    NotFound,
    InternalServerError,
}

impl HttpStatus {
    /// The numeric status code.
    pub open spec fn code_of(self) -> u16 {
        match self {
            HttpStatus::Success => 200,
            HttpStatus::NotFound => 404,
            HttpStatus::InternalServerError => 500,
        }
    }

    /// Returns the numeric status code.
    pub fn code(&self) -> (res: u16)
        ensures
            res == self.code_of(),
    {
        match self {
            HttpStatus::Success => 200,
            HttpStatus::NotFound => 404,
            HttpStatus::InternalServerError => 500,
        }
    }
}

/// How a lookup in the store failed: nothing had the key, or the store failed.
#[derive(Debug, Clone, Copy, PartialEq, Eq, Structural)]
pub enum DbError {
    NotFound,
    Other,
}

/// The request that produced a task to show.
#[derive(Debug, Clone, Copy, PartialEq, Eq, Structural)]
pub enum TaskRequest {
    Get,
    Register,
    Modify,
}

/// The line of text that accompanies a task shown after `request`.
pub open spec fn task_success_text(request: TaskRequest) -> Seq<char> {
    match request {
        TaskRequest::Get => "got task"@,
        TaskRequest::Register => "task registered!"@,
        TaskRequest::Modify => "task modified"@,
    }
}

fn task_success_string(request: &TaskRequest) -> (res: String)
    ensures
        res@ == task_success_text(*request),
{
    match request {
        TaskRequest::Get => String::from_str("got task"),
        TaskRequest::Register => String::from_str("task registered!"),
        TaskRequest::Modify => String::from_str("task modified"),
    }
}

/// What to do once the store has answered for a task: load its comments, or
/// reply at once.
pub enum TaskStep {
    LoadComments(Task),
    Reply(HttpStatus, TaskMessage),
}

/// The first step of showing one task: a task that was found has its comments
/// loaded next; a missing one is answered 404 "Not Found", any other failure
/// 500 "Internal Error".
pub fn get_task_step(lookup: Result<Task, DbError>) -> (res: TaskStep)
    ensures
        match lookup {
            Ok(task) => res == TaskStep::LoadComments(task),
            Err(DbError::NotFound) => res matches TaskStep::Reply(status, message) && status
                == HttpStatus::NotFound && message@ == (TaskMessageModel::Error { message: "Not Found"@ }),
            Err(DbError::Other) => res matches TaskStep::Reply(status, message) && status
                == HttpStatus::InternalServerError && message@ == (TaskMessageModel::Error {
                message: "Internal Error"@,
            }),
        },
{
    match lookup {
        Ok(task) => TaskStep::LoadComments(task),
        Err(DbError::NotFound) => TaskStep::Reply(
            HttpStatus::NotFound,
            TaskMessage::error(String::from_str("Not Found")),
        ),
        Err(DbError::Other) => TaskStep::Reply(
            HttpStatus::InternalServerError,
            TaskMessage::error(String::from_str("Internal Error")),
        ),
    }
}

/// The first step after a task was stored (registered or modified): the
/// stored task has its comments loaded next; a failure is answered 500 with
/// the failure's text.
pub fn stored_task_step(result: Result<Task, String>) -> (res: TaskStep)
    ensures
        match result {
            Ok(task) => res == TaskStep::LoadComments(task),
            Err(text) => res matches TaskStep::Reply(status, message) && status
                == HttpStatus::InternalServerError && message@ == (TaskMessageModel::Error {
                message: text@,
            }),
        },
{
    match result {
        Ok(task) => TaskStep::LoadComments(task),
        Err(text) => TaskStep::Reply(HttpStatus::InternalServerError, TaskMessage::error(text)),
    }
}

/// The reply that shows `task` once its comments were loaded: 200 with the
/// task and its comments and the text of `request`; where loading the
/// comments failed, 500 "Failed to get task".
pub fn task_view_reply(request: TaskRequest, task: &Task, comments: Result<Vec<Comment>, DbError>) -> (res: (
    HttpStatus,
    TaskMessage,
))
    ensures
        match comments {
            Ok(cs) => res.0 == HttpStatus::Success && res.1@ == (TaskMessageModel::Info {
                message: task_success_text(request),
                task: task_view_model(*task, comment_models(cs@)),
            }),
            Err(_) => res.0 == HttpStatus::InternalServerError && res.1@ == (TaskMessageModel::Error {
                message: "Failed to get task"@,
            }),
        },
        res.1@ matches TaskMessageModel::Info { task: shown, .. } ==> shown.id == task.id && shown.title
            == task.title@ && shown.description == task.description@ && shown.finished == task.finished
            && shown.deadline == task.deadline && shown.created == task.created,
{
    match comments {
        Ok(cs) => (HttpStatus::Success, TaskMessage::info(task_success_string(&request), TaskView::new(task, cs))),
        Err(_) => (HttpStatus::InternalServerError, TaskMessage::error(String::from_str("Failed to get task"))),
    }
}

/// The reply to a search: 200 "search success" with the page, or 500 with
/// the failure's text.
pub fn search_task_reply(result: Result<PagenatedTaskList, String>) -> (res: (
    HttpStatus,
    PagenatedTaskListMessage,
))
    ensures
        match result {
            Ok(list) => res.0 == HttpStatus::Success && res.1@ == (PagenatedTaskListMessageModel::Info {
                message: "search success"@,
                list: list@,
            }),
            Err(text) => res.0 == HttpStatus::InternalServerError && res.1@
                == (PagenatedTaskListMessageModel::Error { message: text@ }),
        },
{
    match result {
        Ok(list) => (HttpStatus::Success, PagenatedTaskListMessage::info(String::from_str("search success"), list)),
        Err(text) => (HttpStatus::InternalServerError, PagenatedTaskListMessage::error(text)),
    }
}

/// The reply to a comment lookup: 200 "got comment" with the comment, 404
/// "Not Found" where there is none, 500 "Internal Error" on any other failure.
pub fn get_comment_reply(lookup: Result<Comment, DbError>) -> (res: (HttpStatus, CommentMessage))
    ensures
        match lookup {
            Ok(c) => res.0 == HttpStatus::Success && res.1@ == (CommentMessageModel::Info {
                message: "got comment"@,
                comment: comment_model(c),
            }),
            Err(DbError::NotFound) => res.0 == HttpStatus::NotFound && res.1@ == (CommentMessageModel::Error {
                message: "Not Found"@,
            }),
            Err(DbError::Other) => res.0 == HttpStatus::InternalServerError && res.1@
                == (CommentMessageModel::Error { message: "Internal Error"@ }),
        },
{
    match lookup {
        Ok(c) => (HttpStatus::Success, CommentMessage::info(String::from_str("got comment"), CommentView::new(&c))),
        Err(DbError::NotFound) => (HttpStatus::NotFound, CommentMessage::error(String::from_str("Not Found"))),
        Err(DbError::Other) => (
            HttpStatus::InternalServerError,
            CommentMessage::error(String::from_str("Internal Error")),
        ),
    }
}

/// The first step of adding a comment: the comment is built for the task
/// that the lookup of its task id found; where the lookup failed there is no
/// comment to store, and the reply is 500 with the failure's text.
pub fn add_comment_step(lookup: Result<Task, String>, content: String) -> (res: Result<
    NewComment,
    (HttpStatus, CommentMessage),
>)
    ensures
        match lookup {
            Ok(task) => res matches Ok(c) && c@ == (NewCommentModel { content: content@, task_id: task.id }),
            Err(text) => res matches Err(reply) && reply.0 == HttpStatus::InternalServerError && reply.1@
                == (CommentMessageModel::Error { message: text@ }),
        },
{
    match lookup {
        Ok(task) => Ok(NewComment::new(content, &task)),
        Err(text) => Err((HttpStatus::InternalServerError, CommentMessage::error(text))),
    }
}

/// The reply to adding a comment: 200 "comment added!" with the stored
/// comment, or 500 with the failure's text.
pub fn add_comment_reply(result: Result<Comment, String>) -> (res: (HttpStatus, CommentMessage))
    ensures
        match result {
            Ok(c) => res.0 == HttpStatus::Success && res.1@ == (CommentMessageModel::Info {
                message: "comment added!"@,
                comment: comment_model(c),
            }),
            Err(text) => res.0 == HttpStatus::InternalServerError && res.1@ == (CommentMessageModel::Error {
                message: text@,
            }),
        },
{
    match result {
        Ok(c) => (HttpStatus::Success, CommentMessage::info(String::from_str("comment added!"), CommentView::new(&c))),
        Err(text) => (HttpStatus::InternalServerError, CommentMessage::error(text)),
    }
}

/// The body of a reply to a request for every task: the tasks, or a line of
/// text that says why there are none.
pub enum TaskListReply {
    Tasks(TaskList),
    Text(String),
}

/// The reply to a request for every task: 200 with the tasks as they were
/// loaded, or 500 "Error retrieving tasks".
pub fn get_tasks_reply(result: Result<Vec<Task>, DbError>) -> (res: (HttpStatus, TaskListReply))
    ensures
        match result {
            Ok(tasks) => res.0 == HttpStatus::Success && (res.1 matches TaskListReply::Tasks(list) && list@
                == tasks@),
            Err(_) => res.0 == HttpStatus::InternalServerError && (res.1 matches TaskListReply::Text(text)
                && text@ == "Error retrieving tasks"@),
        },
{
    match result {
        Ok(tasks) => (HttpStatus::Success, TaskListReply::Tasks(TaskList::new(tasks))),
        Err(_) => (HttpStatus::InternalServerError, TaskListReply::Text(String::from_str("Error retrieving tasks"))),
    }
}

/// The character of a decimal digit.
pub open spec fn digit_char(d: nat) -> char {
    if d == 0 {
        '0'
    } else if d == 1 {
        '1'
    } else if d == 2 {
        '2'
    } else if d == 3 {
        '3'
    } else if d == 4 {
        '4'
    } else if d == 5 {
        '5'
    } else if d == 6 {
        '6'
    } else if d == 7 {
        '7'
    } else if d == 8 {
        '8'
    } else {
        '9'
    }
}

/// The decimal numeral of `n`, without leading zeros.
pub open spec fn decimal(n: nat) -> Seq<char>
    decreases n,
{
    if n < 10 {
        seq![digit_char(n)]
    } else {
        decimal(n / 10).push(digit_char(n % 10))
    }
}

fn digit_str(d: usize) -> (res: &'static str)
    requires
        d < 10,
    ensures
        res@ == seq![digit_char(d as nat)],
{
    proof {
        reveal_strlit("0");
        reveal_strlit("1");
        reveal_strlit("2");
        reveal_strlit("3");
        reveal_strlit("4");
        reveal_strlit("5");
        reveal_strlit("6");
        reveal_strlit("7");
        reveal_strlit("8");
        reveal_strlit("9");
    }
    if d == 0 {
        "0"
    } else if d == 1 {
        "1"
    } else if d == 2 {
        "2"
    } else if d == 3 {
        "3"
    } else if d == 4 {
        "4"
    } else if d == 5 {
        "5"
    } else if d == 6 {
        "6"
    } else if d == 7 {
        "7"
    } else if d == 8 {
        "8"
    } else {
        "9"
    }
}

/// Writes `n` in decimal.
pub fn decimal_string(n: usize) -> (res: String)
    ensures
        res@ == decimal(n as nat),
    decreases n,
{
    if n < 10 {
        String::from_str(digit_str(n))
    } else {
        let mut s = decimal_string(n / 10);
        s.append(digit_str(n % 10));
        s
    }
}

/// The text that reports how many tasks a deletion removed.
pub open spec fn deleted_text(n: nat) -> Seq<char> {
    "task "@ + decimal(n) + " was deleted."@
}

/// The reply to a deletion: 200 with the number of tasks removed, or 500
/// "Error occurred".
pub fn delete_task_reply(result: Result<usize, DbError>) -> (res: (HttpStatus, SimpleMessage))
    ensures
        match result {
            Ok(n) => res.0 == HttpStatus::Success && res.1@ == SimpleMessageModel::Info(deleted_text(n as nat)),
            Err(_) => res.0 == HttpStatus::InternalServerError && res.1@ == SimpleMessageModel::Error(
                "Error occurred"@,
            ),
        },
{
    match result {
        Ok(n) => {
            let mut text = String::from_str("task ");
            let number = decimal_string(n);
            text.append(number.as_str());
            text.append(" was deleted.");
            (HttpStatus::Success, SimpleMessage::info(text))
        },
        Err(_) => (HttpStatus::InternalServerError, SimpleMessage::error(String::from_str("Error occurred"))),
    }
}


/// The value of a decimal digit character.
pub open spec fn digit_value(c: char) -> nat {
    if c == '1' {
        1
    } else if c == '2' {
        2
    } else if c == '3' {
        3
    } else if c == '4' {
        4
    } else if c == '5' {
        5
    } else if c == '6' {
        6
    } else if c == '7' {
        7
    } else if c == '8' {
        8
    } else if c == '9' {
        9
    } else {
        0
    }
}

/// The number that a decimal numeral denotes.
pub open spec fn numeral_value(s: Seq<char>) -> nat
    decreases s.len(),
{
    if s.len() == 0 {
        0
    } else {
        numeral_value(s.drop_last()) * 10 + digit_value(s.last())
    }
}

proof fn lemma_digit_round_trip(d: nat)
    requires
        d < 10,
    ensures
        digit_value(digit_char(d)) == d,
        '0' <= digit_char(d) <= '9',
        d > 0 ==> digit_char(d) != '0',
{
}

/// The number in a deletion reply reads back as the number of tasks removed:
/// the numeral of `n` denotes `n`, starts with a non-zero digit unless `n` is
/// zero, and holds digits only.
pub proof fn law_decimal_reads_back(n: nat)
    ensures
        numeral_value(decimal(n)) == n,
        n > 0 ==> decimal(n)[0] != '0',
        forall|k: int| 0 <= k < decimal(n).len() ==> '0' <= #[trigger] decimal(n)[k] <= '9',
    decreases n,
{
    if n < 10 {
        lemma_digit_round_trip(n);
        assert(decimal(n).drop_last() =~= Seq::<char>::empty());
        assert(numeral_value(Seq::<char>::empty()) == 0);
        assert(decimal(n).last() == digit_char(n));
        assert(numeral_value(decimal(n)) == numeral_value(decimal(n).drop_last()) * 10 + digit_value(
            decimal(n).last(),
        ));
    } else {
        lemma_digit_round_trip(n % 10);
        law_decimal_reads_back(n / 10);
        let d = decimal(n / 10).push(digit_char(n % 10));
        assert(d.drop_last() =~= decimal(n / 10));
        assert(n == (n / 10) * 10 + n % 10);
        assert(decimal(n) == d);
        assert(numeral_value(d) == numeral_value(decimal(n / 10)) * 10 + digit_value(digit_char(n % 10)));
        assert(numeral_value(d) == (n / 10) * 10 + n % 10);
        assert forall|k: int| 0 <= k < d.len() implies '0' <= #[trigger] d[k] <= '9' by {
            if k < d.len() - 1 {
                assert(d[k] == decimal(n / 10)[k]);
            }
        }
    }
}

/// The service answers with the standard codes: 200 for a success, 404 for
/// a missing record, 500 for a failure; no two statuses share a code.
pub proof fn law_status_codes()
    ensures
        HttpStatus::Success.code_of() == 200,
        HttpStatus::NotFound.code_of() == 404,
        HttpStatus::InternalServerError.code_of() == 500,
{
}

/// A task shown after a lookup, a registration or a modification comes with
/// the line of text that names that request.
pub proof fn law_task_success_texts()
    ensures
        task_success_text(TaskRequest::Get) == "got task"@,
        task_success_text(TaskRequest::Register) == "task registered!"@,
        task_success_text(TaskRequest::Modify) == "task modified"@,
{
}

} // verus!


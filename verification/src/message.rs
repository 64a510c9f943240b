//! The replies that the service sends: a line of text, or a result with the
//! line of text that describes it.
use vstd::prelude::*;

use crate::models::{CommentView, CommentViewModel, TaskView, TaskViewModel};
use crate::query::{PagenatedTaskList, PagenatedTaskListModel};

verus! {

/// A reply that carries a bare line of text, either as information or as an error.
pub enum SimpleMessage {
    Info(String),
    Error(String),
}

/// The model of a bare reply.
pub enum SimpleMessageModel {
    Info(Seq<char>),
    Error(Seq<char>),
}

impl View for SimpleMessage {
    type V = SimpleMessageModel;

    open spec fn view(&self) -> SimpleMessageModel {
        match self {
            SimpleMessage::Info(m) => SimpleMessageModel::Info(m@),
            SimpleMessage::Error(m) => SimpleMessageModel::Error(m@),
        }
    }
}

impl SimpleMessage {
    /// Wraps `message` as an informational reply.
    pub fn info(message: String) -> (res: Self)
        ensures
            res == SimpleMessage::Info(message),
    {
        SimpleMessage::Info(message)
    }

    /// Wraps `message` as an error reply.
    pub fn error(message: String) -> (res: Self)
        ensures
            res == SimpleMessage::Error(message),
    {
        SimpleMessage::Error(message)
    }
}

/// The model of a reply to a task search.
pub enum PagenatedTaskListMessageModel {
    Info { message: Seq<char>, list: PagenatedTaskListModel },
    Error { message: Seq<char> },
}

/// The successful half of a reply to a task search.
pub struct PagenatedTaskListInfoMessage {
    message: String,
    pagenated_task_list: PagenatedTaskList,
}

impl View for PagenatedTaskListInfoMessage {
    type V = PagenatedTaskListMessageModel;

    closed spec fn view(&self) -> PagenatedTaskListMessageModel {
        PagenatedTaskListMessageModel::Info { message: self.message@, list: self.pagenated_task_list@ }
    }
}

impl PagenatedTaskListInfoMessage {
    /// Returns the line of text of the reply.
    pub fn message(&self) -> (res: &String)
        ensures
            self@ matches PagenatedTaskListMessageModel::Info { message, .. } && res@ == message,
    {
        &self.message
    }

    /// Returns the page of tasks of the reply.
    pub fn pagenated_task_list(&self) -> (res: &PagenatedTaskList)
        ensures
            self@ matches PagenatedTaskListMessageModel::Info { list, .. } && res@ == list,
    {
        &self.pagenated_task_list
    }
}

/// The error half of a reply to a task search.
pub struct PagenatedTaskListErrorMessage {
    message: String,
}

impl View for PagenatedTaskListErrorMessage {
    type V = Seq<char>;

    closed spec fn view(&self) -> Seq<char> {
        self.message@
    }
}

impl PagenatedTaskListErrorMessage {
    /// Returns the text of the error.
    pub fn message(&self) -> (res: &String)
        ensures
            res@ == self@,
    {
        &self.message
    }
}

/// A reply to a task search.
pub enum PagenatedTaskListMessage {
    Info(PagenatedTaskListInfoMessage),
    Error(PagenatedTaskListErrorMessage),
}

impl View for PagenatedTaskListMessage {
    type V = PagenatedTaskListMessageModel;

    open spec fn view(&self) -> PagenatedTaskListMessageModel {
        match self {
            PagenatedTaskListMessage::Info(m) => m@,
            PagenatedTaskListMessage::Error(m) => PagenatedTaskListMessageModel::Error { message: m@ },
        }
    }
}

impl PagenatedTaskListMessage {
    /// A successful reply: `message` with the page `pagenated_task_list`.
    pub fn info(message: String, pagenated_task_list: PagenatedTaskList) -> (res: Self)
        ensures
            res@ == (PagenatedTaskListMessageModel::Info {
                message: message@,
                list: pagenated_task_list@,
            }),
    {
        PagenatedTaskListMessage::Info(PagenatedTaskListInfoMessage { message, pagenated_task_list })
    }

    /// An error reply with text `message`.
    pub fn error(message: String) -> (res: Self)
        ensures
            res@ == (PagenatedTaskListMessageModel::Error { message: message@ }),
    {
        PagenatedTaskListMessage::Error(PagenatedTaskListErrorMessage { message })
    }
}

/// The model of a reply about one task.
pub enum TaskMessageModel {
    Info { message: Seq<char>, task: TaskViewModel },
    Error { message: Seq<char> },
}

/// The successful half of a reply about one task.
pub struct TaskInfoMessage {
    message: String,
    task: TaskView,
}

impl View for TaskInfoMessage {
    type V = TaskMessageModel;

    closed spec fn view(&self) -> TaskMessageModel {
        TaskMessageModel::Info { message: self.message@, task: self.task@ }
    }
}

impl TaskInfoMessage {
    /// Returns the line of text of the reply.
    pub fn message(&self) -> (res: &String)
        ensures
            self@ matches TaskMessageModel::Info { message, .. } && res@ == message,
    {
        &self.message
    }

    /// Returns the task of the reply.
    pub fn task(&self) -> (res: &TaskView)
        ensures
            self@ matches TaskMessageModel::Info { task, .. } && res@ == task,
    {
        &self.task
    }
}

/// The error half of a reply about a task.
pub struct TaskErrorMessage {
    message: String,
}

impl View for TaskErrorMessage {
    type V = Seq<char>;

    closed spec fn view(&self) -> Seq<char> {
        self.message@
    }
}

impl TaskErrorMessage {
    /// Returns the text of the error.
    pub fn message(&self) -> (res: &String)
        ensures
            res@ == self@,
    {
        &self.message
    }
}

/// A reply about one task.
pub enum TaskMessage {
    Info(TaskInfoMessage),
    Error(TaskErrorMessage),
}

impl View for TaskMessage {
    type V = TaskMessageModel;

    open spec fn view(&self) -> TaskMessageModel {
        match self {
            TaskMessage::Info(m) => m@,
            TaskMessage::Error(m) => TaskMessageModel::Error { message: m@ },
        }
    }
}

impl TaskMessage {
    /// A successful reply: `message` with the view `task`.
    pub fn info(message: String, task: TaskView) -> (res: Self)
        ensures
            res@ == (TaskMessageModel::Info { message: message@, task: task@ }),
    {
        TaskMessage::Info(TaskInfoMessage { message, task })
    }

    /// An error reply with text `message`.
    pub fn error(message: String) -> (res: Self)
        ensures
            res@ == (TaskMessageModel::Error { message: message@ }),
    {
        TaskMessage::Error(TaskErrorMessage { message })
    }
}

/// The model of a reply about one comment.
pub enum CommentMessageModel {
    Info { message: Seq<char>, comment: CommentViewModel },
    Error { message: Seq<char> },
}

/// The successful half of a reply about one comment.
pub struct CommentInfoMessage {
    message: String,
    comment: CommentView,
}

impl View for CommentInfoMessage {
    type V = CommentMessageModel;

    closed spec fn view(&self) -> CommentMessageModel {
        CommentMessageModel::Info { message: self.message@, comment: self.comment@ }
    }
}

impl CommentInfoMessage {
    /// Returns the line of text of the reply.
    pub fn message(&self) -> (res: &String)
        ensures
            self@ matches CommentMessageModel::Info { message, .. } && res@ == message,
    {
        &self.message
    }

    /// Returns the comment of the reply.
    pub fn comment(&self) -> (res: &CommentView)
        ensures
            self@ matches CommentMessageModel::Info { comment, .. } && res@ == comment,
    {
        &self.comment
    }
}

/// The error half of a reply about a comment.
pub struct CommentErrorMessage {
    message: String,
}

impl View for CommentErrorMessage {
    type V = Seq<char>;

    closed spec fn view(&self) -> Seq<char> {
        self.message@
    }
}

impl CommentErrorMessage {
    /// Returns the text of the error.
    pub fn message(&self) -> (res: &String)
        ensures
            res@ == self@,
    {
        &self.message
    }
}

/// A reply about one comment.
pub enum CommentMessage {
    Info(CommentInfoMessage),
    Error(CommentErrorMessage),
}

impl View for CommentMessage {
    type V = CommentMessageModel;

    open spec fn view(&self) -> CommentMessageModel {
        match self {
            CommentMessage::Info(m) => m@,
            CommentMessage::Error(m) => CommentMessageModel::Error { message: m@ },
        }
    }
}

impl CommentMessage {
    /// A successful reply: `message` with the view `comment`.
    pub fn info(message: String, comment: CommentView) -> (res: Self)
        ensures
            res@ == (CommentMessageModel::Info { message: message@, comment: comment@ }),
    {
        CommentMessage::Info(CommentInfoMessage { message, comment })
    }

    /// An error reply with text `message`.
    pub fn error(message: String) -> (res: Self)
        ensures
            res@ == (CommentMessageModel::Error { message: message@ }),
    {
        CommentMessage::Error(CommentErrorMessage { message })
    }
}

} // verus!

use vstd::prelude::*;

use chrono::{NaiveDate, NaiveDateTime};

verus! {

/// A task as the store keeps it.
pub struct Task {
    pub id: i32,
    pub title: String,
    pub description: String,
    pub finished: bool,
    pub deadline: NaiveDate,
    pub created: NaiveDateTime,
}

/// What a client sends to register a task.
pub struct NewTask {
    pub title: String,
    pub description: String,
    pub deadline: NaiveDate,
}

impl NewTask {
    pub fn new(title: String, description: String, deadline: NaiveDate) -> (res: Self)
        ensures
            res.title == title,
            res.description == description,
            res.deadline == deadline,
    {
        NewTask { title, description, deadline }
    }
}

/// What a client sends to replace the editable fields of a task.
pub struct ModifiedTask {
    pub title: String,
    pub description: String,
    pub finished: bool,
    pub deadline: NaiveDate,
}

impl ModifiedTask {
    pub fn new(title: String, description: String, finished: bool, deadline: NaiveDate) -> (res: Self)
        ensures
            res.title == title,
            res.description == description,
            res.finished == finished,
            res.deadline == deadline,
    {
        ModifiedTask { title, description, finished, deadline }
    }
}

/// A comment as the store keeps it; `task_id` names the task it belongs to.
pub struct Comment {
    pub id: i32,
    pub content: String,
    pub task_id: i32,
    pub created: NaiveDateTime,
}

/// The model of a comment as it is shown to clients.
pub struct CommentViewModel {
    pub id: i32,
    pub content: Seq<char>,
    pub task_id: i32,
    pub created: NaiveDateTime,
}

/// The view of a comment that the service shows.
pub open spec fn comment_model(comment: Comment) -> CommentViewModel {
    CommentViewModel {
        id: comment.id,
        content: comment.content@,
        task_id: comment.task_id,
        created: comment.created,
    }
}

/// A comment as it is shown to clients.
pub struct CommentView {
    id: i32,
    content: String,
    task_id: i32,
    created: NaiveDateTime,
}

impl View for CommentView {
    type V = CommentViewModel;

    closed spec fn view(&self) -> CommentViewModel {
        CommentViewModel {
            id: self.id,
            content: self.content@,
            task_id: self.task_id,
            created: self.created,
        }
    }
}

impl DeepView for CommentView {
    type V = CommentViewModel;

    open spec fn deep_view(&self) -> CommentViewModel {
        self@
    }
}

impl CommentView {
    /// Shows `comment`: every field is kept as it is.
    pub fn new(comment: &Comment) -> (res: Self)
        ensures
            res@ == comment_model(*comment),
            res@.id == comment.id,
            res@.content == comment.content@,
            res@.task_id == comment.task_id,
            res@.created == comment.created,
    {
        CommentView {
            id: comment.id,
            content: comment.content.clone(),
            task_id: comment.task_id,
            created: comment.created,
        }
    }

    pub fn id(&self) -> (res: i32)
        ensures
            res == self@.id,
    {
        self.id
    }

    pub fn content(&self) -> (res: &String)
        ensures
            res@ == self@.content,
    {
        &self.content
    }

    pub fn task_id(&self) -> (res: i32)
        ensures
            res == self@.task_id,
    {
        self.task_id
    }

    pub fn created(&self) -> (res: NaiveDateTime)
        ensures
            res == self@.created,
    {
        self.created
    }
}


/// A label that tasks can carry.
pub struct Tag {
    pub id: i32,
    pub name: String,
}

/// The link between a task and one of its tags.
pub struct TaskTag {
    pub tag_id: i32,
    pub task_id: i32,
}

/// The model of a comment that a client asks to add.
pub struct NewCommentModel {
    pub content: Seq<char>,
    pub task_id: i32,
}

/// A comment that a client asks to add to a task.
pub struct NewComment {
    content: String,
    task_id: i32,
}

impl View for NewComment {
    type V = NewCommentModel;

    closed spec fn view(&self) -> NewCommentModel {
        NewCommentModel { content: self.content@, task_id: self.task_id }
    }
}

impl NewComment {
    /// A comment with text `content` for `task`.
    pub fn new(content: String, task: &Task) -> (res: Self)
        ensures
            res@ == (NewCommentModel { content: content@, task_id: task.id }),
    {
        NewComment { content, task_id: task.id }
    }

    pub fn content(&self) -> (res: &String)
        ensures
            res@ == self@.content,
    {
        &self.content
    }

    pub fn task_id(&self) -> (res: i32)
        ensures
            res == self@.task_id,
    {
        self.task_id
    }
}


/// The model of a task as it is shown to clients, with its comments.
pub struct TaskViewModel {
    pub id: i32,
    pub title: Seq<char>,
    pub description: Seq<char>,
    pub finished: bool,
    pub comments: Seq<CommentViewModel>,
    pub deadline: NaiveDate,
    pub created: NaiveDateTime,
}

/// The view of `task` that shows `comments` with it.
pub open spec fn task_view_model(task: Task, comments: Seq<CommentViewModel>) -> TaskViewModel {
    TaskViewModel {
        id: task.id,
        title: task.title@,
        description: task.description@,
        finished: task.finished,
        comments,
        deadline: task.deadline,
        created: task.created,
    }
}

/// The views of a sequence of comments, in the same order.
pub open spec fn comment_models(comments: Seq<Comment>) -> Seq<CommentViewModel> {
    comments.map_values(|c: Comment| comment_model(c))
}

/// A task as it is shown to clients, together with its comments.
pub struct TaskView {
    id: i32,
    title: String,
    description: String,
    finished: bool,
    comments: Vec<CommentView>,
    deadline: NaiveDate,
    created: NaiveDateTime,
}

impl View for TaskView {
    type V = TaskViewModel;

    closed spec fn view(&self) -> TaskViewModel {
        TaskViewModel {
            id: self.id,
            title: self.title@,
            description: self.description@,
            finished: self.finished,
            comments: self.comments.deep_view(),
            deadline: self.deadline,
            created: self.created,
        }
    }
}

impl DeepView for TaskView {
    type V = TaskViewModel;

    open spec fn deep_view(&self) -> TaskViewModel {
        self@
    }
}

/// Shows each comment of `comments`, in order.
fn comment_views(comments: &Vec<Comment>) -> (res: Vec<CommentView>)
    ensures
        res.deep_view() == comment_models(comments@),
{
    let mut res: Vec<CommentView> = Vec::new();
    let n = comments.len();
    for i in 0..n
        invariant
            n == comments@.len(),
            res@.len() == i,
            forall|j: int| 0 <= j < i ==> #[trigger] res@[j]@ == comment_model(comments@[j]),
    {
        res.push(CommentView::new(&comments[i]));
    }
    assert(res.deep_view() =~= comment_models(comments@));
    res
}

impl TaskView {
    /// Shows `task` with the comments that were loaded for it, in the order given.
    pub fn new(task: &Task, comments: Vec<Comment>) -> (res: Self)
        ensures
            res@ == task_view_model(*task, comment_models(comments@)),
            res@.id == task.id,
            res@.title == task.title@,
            res@.description == task.description@,
            res@.finished == task.finished,
            res@.deadline == task.deadline,
            res@.created == task.created,
            res@.comments.len() == comments@.len(),
            forall|k: int| 0 <= k < comments@.len() ==> (#[trigger] res@.comments[k]).id == comments@[k].id
                && res@.comments[k].content == comments@[k].content@ && res@.comments[k].task_id
                == comments@[k].task_id && res@.comments[k].created == comments@[k].created,
    {
        let views = comment_views(&comments);
        Self::new_with_comments(task, views)
    }

    fn new_with_comments(task: &Task, comments: Vec<CommentView>) -> (res: Self)
        ensures
            res@ == task_view_model(*task, comments.deep_view()),
    {
        TaskView {
            id: task.id,
            title: task.title.clone(),
            description: task.description.clone(),
            finished: task.finished,
            comments,
            deadline: task.deadline,
            created: task.created,
        }
    }

    pub fn id(&self) -> (res: i32)
        ensures
            res == self@.id,
    {
        self.id
    }

    pub fn title(&self) -> (res: &String)
        ensures
            res@ == self@.title,
    {
        &self.title
    }

    pub fn description(&self) -> (res: &String)
        ensures
            res@ == self@.description,
    {
        &self.description
    }

    pub fn finished(&self) -> (res: bool)
        ensures
            res == self@.finished,
    {
        self.finished
    }

    pub fn comments(&self) -> (res: &Vec<CommentView>)
        ensures
            res.deep_view() == self@.comments,
    {
        &self.comments
    }

    pub fn deadline(&self) -> (res: NaiveDate)
        ensures
            res == self@.deadline,
    {
        self.deadline
    }

    pub fn created(&self) -> (res: NaiveDateTime)
        ensures
            res == self@.created,
    {
        self.created
    }
}

/// The position of the task that owns comments with `task_id`: the last task
/// of `tasks` with that id, or -1 where there is none.
pub open spec fn owner_index(tasks: Seq<Task>, task_id: i32) -> int
    decreases tasks.len(),
{
    if tasks.len() == 0 {
        -1
    } else if tasks.last().id == task_id {
        tasks.len() - 1
    } else {
        owner_index(tasks.drop_last(), task_id)
    }
}

/// The comments shown with the task at position `i`: those it owns, in the
/// order in which they were loaded.
pub open spec fn comments_of(tasks: Seq<Task>, comments: Seq<Comment>, i: int) -> Seq<CommentViewModel> {
    comment_models(comments.filter(|c: Comment| owner_index(tasks, c.task_id) == i))
}

/// The views of `tasks`, each with the comments it owns.
pub open spec fn task_views(tasks: Seq<Task>, comments: Seq<Comment>) -> Seq<TaskViewModel> {
    Seq::new(tasks.len(), |i: int| task_view_model(tasks[i], comments_of(tasks, comments, i)))
}

/// A list of task views, as a search returns it.
pub struct TaskViewList {
    tasks: Vec<TaskView>,
}

impl View for TaskViewList {
    type V = Seq<TaskViewModel>;

    closed spec fn view(&self) -> Seq<TaskViewModel> {
        self.tasks.deep_view()
    }
}

/// Finds the position of the task that owns comments with `task_id`.
fn find_owner(tasks: &Vec<Task>, task_id: i32) -> (res: Option<usize>)
    ensures
        match res {
            Some(i) => owner_index(tasks@, task_id) == i as int,
            None => owner_index(tasks@, task_id) == -1,
        },
{
    let mut k = tasks.len();
    assert(tasks@.take(k as int) =~= tasks@);
    while k > 0
        invariant
            k <= tasks@.len(),
            owner_index(tasks@, task_id) == owner_index(tasks@.take(k as int), task_id),
        decreases k,
    {
        assert(tasks@.take(k as int).drop_last() =~= tasks@.take(k - 1));
        if tasks[k - 1].id == task_id {
            return Some(k - 1);
        }
        k = k - 1;
    }
    None
}

impl TaskViewList {
    /// Shows `tasks` in order, each with the comments of `comments` that it
    /// owns: a comment goes to the last task whose id is its `task_id`, and a
    /// comment that no task owns is left out.
    pub fn new(tasks: Vec<Task>, comments: Vec<Comment>) -> (res: Self)
        ensures
            res@ == task_views(tasks@, comments@),
            res@.len() == tasks@.len(),
            forall|i: int| 0 <= i < tasks@.len() ==> (#[trigger] res@[i]).id == tasks@[i].id && res@[i].title
                == tasks@[i].title@ && res@[i].description == tasks@[i].description@ && res@[i].finished
                == tasks@[i].finished && res@[i].deadline == tasks@[i].deadline && res@[i].created
                == tasks@[i].created,
    {
        let n = tasks.len();
        let m = comments.len();
        let mut owners: Vec<Option<usize>> = Vec::new();
        for j in 0..m
            invariant
                m == comments@.len(),
                owners@.len() == j,
                forall|q: int| 0 <= q < j ==> match #[trigger] owners@[q] {
                    Some(i) => owner_index(tasks@, comments@[q].task_id) == i as int,
                    None => owner_index(tasks@, comments@[q].task_id) == -1,
                },
        {
            owners.push(find_owner(&tasks, comments[j].task_id));
        }
        let mut views: Vec<TaskView> = Vec::new();
        for i in 0..n
            invariant
                n == tasks@.len(),
                m == comments@.len(),
                owners@.len() == m,
                forall|q: int| 0 <= q < m ==> match #[trigger] owners@[q] {
                    Some(i) => owner_index(tasks@, comments@[q].task_id) == i as int,
                    None => owner_index(tasks@, comments@[q].task_id) == -1,
                },
                views@.len() == i,
                forall|p: int| 0 <= p < i ==> #[trigger] views@[p]@ == task_view_model(tasks@[p], comments_of(tasks@, comments@, p)),
        {
            let ghost pred = |c: Comment| owner_index(tasks@, c.task_id) == i as int;
            let mut shown: Vec<CommentView> = Vec::new();
            for j in 0..m
                invariant
                    n == tasks@.len(),
                    m == comments@.len(),
                    i < n,
                    owners@.len() == m,
                    forall|q: int| 0 <= q < m ==> match #[trigger] owners@[q] {
                        Some(i) => owner_index(tasks@, comments@[q].task_id) == i as int,
                        None => owner_index(tasks@, comments@[q].task_id) == -1,
                    },
                    pred == (|c: Comment| owner_index(tasks@, c.task_id) == i as int),
                    shown.deep_view() =~= comment_models(comments@.take(j as int).filter(pred)),
            {
                let ghost before = comments@.take(j as int).filter(pred);
                proof {
                    reveal_with_fuel(Seq::<_>::filter, 1);
                    assert(comments@.take(j + 1).drop_last() =~= comments@.take(j as int));
                    assert(comments@.take(j + 1).last() == comments@[j as int]);
                }
                let owned = match owners[j] {
                    Some(o) => o == i,
                    None => false,
                };
                assert(owned == pred(comments@[j as int]));
                let ghost shown_before = shown.deep_view();
                if owned {
                    shown.push(CommentView::new(&comments[j]));
                    assert(shown.deep_view() =~= shown_before.push(comment_model(comments@[j as int])));
                    assert(comments@.take(j + 1).filter(pred) == before.push(comments@[j as int]));
                    assert(comment_models(before.push(comments@[j as int])) =~= comment_models(before).push(
                        comment_model(comments@[j as int]),
                    ));
                } else {
                    assert(shown.deep_view() =~= shown_before);
                    assert(comments@.take(j + 1).filter(pred) == before);
                }
            }
            assert(comments@.take(m as int) =~= comments@);
            views.push(TaskView::new_with_comments(&tasks[i], shown));
        }
        let res = TaskViewList { tasks: views };
        assert(res@ =~= task_views(tasks@, comments@));
        proof {
            assert forall|i: int| 0 <= i < tasks@.len() implies (#[trigger] res@[i]).id == tasks@[i].id
                && res@[i].title == tasks@[i].title@ && res@[i].description == tasks@[i].description@
                && res@[i].finished == tasks@[i].finished && res@[i].deadline == tasks@[i].deadline
                && res@[i].created == tasks@[i].created by {
                law_views_keep_task_fields(tasks@, comments@, i);
            }
        }
        res
    }

    pub fn tasks(&self) -> (res: &Vec<TaskView>)
        ensures
            res.deep_view() == self@,
    {
        &self.tasks
    }
}

/// A plain list of tasks.
pub struct TaskList {
    tasks: Vec<Task>,
}

impl View for TaskList {
    type V = Seq<Task>;

    closed spec fn view(&self) -> Seq<Task> {
        self.tasks@
    }
}

impl TaskList {
    pub fn new(tasks: Vec<Task>) -> (res: Self)
        ensures
            res@ == tasks@,
    {
        TaskList { tasks }
    }

    pub fn tasks(&self) -> (res: &Vec<Task>)
        ensures
            res@ == self@,
    {
        &self.tasks
    }
}


proof fn lemma_owner_index_bounds(tasks: Seq<Task>, task_id: i32)
    ensures
        -1 <= owner_index(tasks, task_id) < tasks.len(),
        owner_index(tasks, task_id) >= 0 ==> tasks[owner_index(tasks, task_id)].id == task_id,
    decreases tasks.len(),
{
    if tasks.len() > 0 && tasks.last().id != task_id {
        lemma_owner_index_bounds(tasks.drop_last(), task_id);
    }
}

proof fn lemma_owner_index_of_member(tasks: Seq<Task>, i: int)
    requires
        0 <= i < tasks.len(),
    ensures
        owner_index(tasks, tasks[i].id) >= i,
    decreases tasks.len(),
{
    if tasks.last().id != tasks[i].id {
        lemma_owner_index_of_member(tasks.drop_last(), i);
    }
}

proof fn lemma_owner_index_distinct(tasks: Seq<Task>, i: int)
    requires
        0 <= i < tasks.len(),
        forall|p: int, q: int| 0 <= p < q < tasks.len() ==> tasks[p].id != tasks[q].id,
    ensures
        owner_index(tasks, tasks[i].id) == i,
{
    lemma_owner_index_bounds(tasks, tasks[i].id);
    lemma_owner_index_of_member(tasks, i);
}

/// Every comment shown with a task carries the id of that task.
pub proof fn law_shown_comments_belong_to_their_task(tasks: Seq<Task>, comments: Seq<Comment>, i: int, k: int)
    requires
        0 <= i < tasks.len(),
        0 <= k < task_views(tasks, comments)[i].comments.len(),
    ensures
        task_views(tasks, comments)[i].comments[k].task_id == task_views(tasks, comments)[i].id,
{
    let pred = |c: Comment| owner_index(tasks, c.task_id) == i;
    let owned = comments.filter(pred);
    owned.lemma_filter_len(pred);
    comments.lemma_filter_pred(pred, k);
    lemma_owner_index_bounds(tasks, owned[k].task_id);
}

/// Every comment that a task of the list owns is shown with that task: with
/// the last task that carries the comment's task id.
pub proof fn law_every_owned_comment_is_shown(tasks: Seq<Task>, comments: Seq<Comment>, j: int)
    requires
        0 <= j < comments.len(),
        owner_index(tasks, comments[j].task_id) >= 0,
    ensures
        task_views(tasks, comments)[owner_index(tasks, comments[j].task_id)].comments.contains(
            comment_model(comments[j]),
        ),
{
    let i = owner_index(tasks, comments[j].task_id);
    lemma_owner_index_bounds(tasks, comments[j].task_id);
    let pred = |c: Comment| owner_index(tasks, c.task_id) == i;
    comments.lemma_filter_contains(pred, j);
    let owned = comments.filter(pred);
    let w = choose|w: int| 0 <= w < owned.len() && owned[w] == comments[j];
    assert(comment_models(owned)[w] == comment_model(comments[j]));
}

/// Where no two tasks share an id, the comments shown with each task are
/// exactly the comments whose task id is its id, in the order they came.
pub proof fn law_distinct_tasks_show_their_own_comments(tasks: Seq<Task>, comments: Seq<Comment>, i: int)
    requires
        0 <= i < tasks.len(),
        forall|p: int, q: int| 0 <= p < q < tasks.len() ==> tasks[p].id != tasks[q].id,
    ensures
        task_views(tasks, comments)[i].comments == comment_models(
            comments.filter(|c: Comment| c.task_id == tasks[i].id),
        ),
{
    let by_owner = |c: Comment| owner_index(tasks, c.task_id) == i;
    let by_id = |c: Comment| c.task_id == tasks[i].id;
    assert forall|c: Comment| #[trigger] by_owner(c) == by_id(c) by {
        lemma_owner_index_bounds(tasks, c.task_id);
        lemma_owner_index_distinct(tasks, i);
    }
    assert(by_owner =~= by_id);
}

/// A shown comment keeps every field of the stored comment.
pub proof fn law_comment_view_keeps_fields(c: Comment)
    ensures
        comment_model(c).id == c.id,
        comment_model(c).content == c.content@,
        comment_model(c).task_id == c.task_id,
        comment_model(c).created == c.created,
{
}

/// Showing a sequence of comments keeps their number and order, and each
/// shown comment keeps the fields of the stored one at the same place.
pub proof fn law_comment_views_keep_order(cs: Seq<Comment>, k: int)
    requires
        0 <= k < cs.len(),
    ensures
        comment_models(cs).len() == cs.len(),
        comment_models(cs)[k].id == cs[k].id,
        comment_models(cs)[k].content == cs[k].content@,
        comment_models(cs)[k].task_id == cs[k].task_id,
        comment_models(cs)[k].created == cs[k].created,
{
}

/// A task shown with comments keeps every field of the task, and shows
/// exactly the comments it is given.
pub proof fn law_task_view_keeps_fields(t: Task, cs: Seq<CommentViewModel>)
    ensures
        task_view_model(t, cs).id == t.id,
        task_view_model(t, cs).title == t.title@,
        task_view_model(t, cs).description == t.description@,
        task_view_model(t, cs).finished == t.finished,
        task_view_model(t, cs).deadline == t.deadline,
        task_view_model(t, cs).created == t.created,
        task_view_model(t, cs).comments == cs,
{
}

/// A page of views has one view per task, in the order of the tasks, and
/// each view keeps every field of its task.
pub proof fn law_views_keep_task_fields(tasks: Seq<Task>, comments: Seq<Comment>, i: int)
    requires
        0 <= i < tasks.len(),
    ensures
        task_views(tasks, comments).len() == tasks.len(),
        task_views(tasks, comments)[i].id == tasks[i].id,
        task_views(tasks, comments)[i].title == tasks[i].title@,
        task_views(tasks, comments)[i].description == tasks[i].description@,
        task_views(tasks, comments)[i].finished == tasks[i].finished,
        task_views(tasks, comments)[i].deadline == tasks[i].deadline,
        task_views(tasks, comments)[i].created == tasks[i].created,
{
}

} // verus!


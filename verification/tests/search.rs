use chrono::{NaiveDate, NaiveDateTime};

use ntex_task_list::models::{Comment, Task};
use ntex_task_list::query::{
    CommentCondition, CommentFilter, CommentOrder, Comparison, FilterBoolean, FilterContainable,
    FilterOrderd, SortOrder, TaskCondition, TaskFilter, TaskOrder, TaskQuery, TaskSort, TaskSortColumn,
    TextCondition,
};

fn date(y: i32, m: u32, d: u32) -> NaiveDate {
    NaiveDate::from_ymd_opt(y, m, d).unwrap()
}

fn moment(y: i32, m: u32, d: u32, h: u32) -> NaiveDateTime {
    date(y, m, d).and_hms_opt(h, 0, 0).unwrap()
}

fn like(c: &TaskCondition) -> Option<(&'static str, String)> {
    match c {
        TaskCondition::Title(TextCondition::Like(p)) => Some(("title like", p.clone())),
        TaskCondition::Title(TextCondition::Equal(v)) => Some(("title eq", v.clone())),
        TaskCondition::Description(TextCondition::Like(p)) => Some(("description like", p.clone())),
        TaskCondition::Description(TextCondition::Equal(v)) => Some(("description eq", v.clone())),
        _ => None,
    }
}

#[test]
fn new_filter_has_no_conditions() {
    assert!(TaskFilter::new().filter().is_empty());
    assert!(CommentFilter::new().filter().is_empty());
}

#[test]
fn contain_title_asks_for_a_pattern() {
    let f = TaskFilter::new().set_title(FilterContainable::CONTAIN("2024-01-01".to_string()));
    let c = f.filter();
    assert_eq!(c.len(), 1);
    assert_eq!(like(&c[0]), Some(("title like", "%2024-01-01%".to_string())));
}

#[test]
fn contain_empty_text_matches_everything() {
    let f = TaskFilter::new().set_title(FilterContainable::CONTAIN(String::new()));
    assert_eq!(like(&f.filter()[0]), Some(("title like", "%%".to_string())));
}

#[test]
fn equal_description_asks_for_equality() {
    let f = TaskFilter::new()
        .set_title(FilterContainable::CONTAIN("key".to_string()))
        .set_description(FilterContainable::EQUAL("description2 Lose".to_string()));
    let c = f.filter();
    assert_eq!(c.len(), 2);
    assert_eq!(like(&c[0]), Some(("title like", "%key%".to_string())));
    assert_eq!(like(&c[1]), Some(("description eq", "description2 Lose".to_string())));
}

#[test]
fn finished_filters() {
    let t = TaskFilter::new().set_finished(FilterBoolean::TRUE).filter();
    assert!(matches!(t[0], TaskCondition::Finished(true)));
    let f = TaskFilter::new().set_finished(FilterBoolean::FALSE).filter();
    assert!(matches!(f[0], TaskCondition::Finished(false)));
}

#[test]
fn ordered_filters_keep_comparison_and_value() {
    let created = moment(2024, 3, 4, 5);
    let deadline = date(2014, 10, 25);
    let f = TaskFilter::new().set_created(FilterOrderd::LT(created)).set_deadline(FilterOrderd::GE(deadline));
    let c = f.filter();
    assert_eq!(c.len(), 2);
    match &c[0] {
        TaskCondition::Deadline(cmp, d) => {
            assert_eq!(*cmp, Comparison::GreaterOrEqual);
            assert_eq!(*d, deadline);
        },
        _ => panic!("deadline comes before created"),
    }
    match &c[1] {
        TaskCondition::Created(cmp, t) => {
            assert_eq!(*cmp, Comparison::Less);
            assert_eq!(*t, created);
        },
        _ => panic!("created comes last"),
    }
}

#[test]
fn every_comparison_is_kept() {
    let d = date(2023, 11, 5);
    let cases = vec![
        (FilterOrderd::LT(d), Comparison::Less),
        (FilterOrderd::LE(d), Comparison::LessOrEqual),
        (FilterOrderd::EQ(d), Comparison::Equal),
        (FilterOrderd::GE(d), Comparison::GreaterOrEqual),
        (FilterOrderd::GT(d), Comparison::Greater),
    ];
    for (f, expected) in cases {
        match TaskFilter::new().set_deadline(f).filter()[0] {
            TaskCondition::Deadline(cmp, value) => {
                assert_eq!(cmp, expected);
                assert_eq!(value, d);
            },
            _ => panic!("one deadline condition expected"),
        }
    }
}

#[test]
fn conditions_come_in_column_order_whatever_the_order_of_setting() {
    let f = TaskFilter::new()
        .set_created(FilterOrderd::GT(moment(2024, 1, 1, 1)))
        .set_finished(FilterBoolean::FALSE)
        .set_description(FilterContainable::CONTAIN("Lose".to_string()))
        .set_deadline(FilterOrderd::LE(date(2020, 1, 1)))
        .set_title(FilterContainable::EQUAL("t".to_string()));
    let c = f.filter();
    assert_eq!(c.len(), 5);
    assert_eq!(like(&c[0]), Some(("title eq", "t".to_string())));
    assert_eq!(like(&c[1]), Some(("description like", "%Lose%".to_string())));
    assert!(matches!(c[2], TaskCondition::Finished(false)));
    assert!(matches!(c[3], TaskCondition::Deadline(Comparison::LessOrEqual, _)));
    assert!(matches!(c[4], TaskCondition::Created(Comparison::Greater, _)));
}

#[test]
fn last_setting_wins() {
    let f = TaskFilter::new()
        .set_title(FilterContainable::CONTAIN("old".to_string()))
        .set_title(FilterContainable::EQUAL("new".to_string()));
    let c = f.filter();
    assert_eq!(c.len(), 1);
    assert_eq!(like(&c[0]), Some(("title eq", "new".to_string())));
}

#[test]
fn comment_filter_conditions() {
    let t = moment(2024, 5, 6, 7);
    let f = CommentFilter::new()
        .set_created(FilterOrderd::EQ(t))
        .set_content(FilterContainable::CONTAIN("hi".to_string()));
    let c = f.filter();
    assert_eq!(c.len(), 2);
    match &c[0] {
        CommentCondition::Content(TextCondition::Like(p)) => assert_eq!(p, "%hi%"),
        _ => panic!("content comes first"),
    }
    assert!(matches!(c[1], CommentCondition::Created(Comparison::Equal, v) if v == t));
    let e = CommentFilter::new().set_content(FilterContainable::EQUAL("exact".to_string())).filter();
    match &e[0] {
        CommentCondition::Content(TextCondition::Equal(v)) => assert_eq!(v, "exact"),
        _ => panic!("equality expected"),
    }
}

#[test]
fn task_orders() {
    assert_eq!(
        TaskOrder::Deadline(SortOrder::ASC).order(),
        TaskSort { column: TaskSortColumn::Deadline, ascending: true }
    );
    assert_eq!(
        TaskOrder::Deadline(SortOrder::DESC).order(),
        TaskSort { column: TaskSortColumn::Deadline, ascending: false }
    );
    assert_eq!(
        TaskOrder::Created(SortOrder::ASC).order(),
        TaskSort { column: TaskSortColumn::Created, ascending: true }
    );
    assert_eq!(
        TaskOrder::Created(SortOrder::DESC).order(),
        TaskSort { column: TaskSortColumn::Created, ascending: false }
    );
}

#[test]
fn comment_orders() {
    assert!(CommentOrder::Created(SortOrder::ASC).order());
    assert!(!CommentOrder::Created(SortOrder::DESC).order());
}

#[test]
fn new_query_has_no_condition_and_sorts_by_deadline() {
    let q = TaskQuery::new(1, 100);
    assert!(q.filtered().is_empty());
    assert_eq!(q.ordered(), TaskSort { column: TaskSortColumn::Deadline, ascending: true });
    let w = q.page_window();
    assert_eq!(w.limit, 100);
    assert_eq!(w.offset, 0);
}

#[test]
fn query_with_set_filter_and_order() {
    let mut q = TaskQuery::new(1, 100);
    q.filter = q.filter.set_title(FilterContainable::CONTAIN("now".to_string()));
    q.order = TaskOrder::Created(SortOrder::ASC);
    assert_eq!(q.page_no(), 1);
    let c = q.filtered();
    assert_eq!(c.len(), 1);
    assert_eq!(like(&c[0]), Some(("title like", "%now%".to_string())));
    assert_eq!(q.ordered(), TaskSort { column: TaskSortColumn::Created, ascending: true });
}

#[test]
fn test_pagenated_task() {
    // three tasks match and pages hold two: page 2 skips two rows and the
    // store hands back the one row left, which the page shows with the total
    let mut q = TaskQuery::new(2, 2);
    q = q.set_filter(TaskFilter::new().set_title(FilterContainable::CONTAIN("key_pagenated_task".to_string())));
    let w = q.page_window();
    assert_eq!(w.limit, 2);
    assert_eq!(w.offset, 2);
    assert_eq!(q.ordered(), TaskSort { column: TaskSortColumn::Deadline, ascending: true });
    let registered_task1 = task(31);
    let page = q.get_pagenated_tasks(3, vec![registered_task1], vec![]);
    assert!(page.num_total_tasks() == 3);
    let task_list = page.task_view_list().tasks();
    assert!(task_list.len() == 1);
    assert!(task_list[0].id() == 31);
}

#[test]
fn set_filter_and_set_order_replace_them() {
    let q = TaskQuery::new(3, 4)
        .set_filter(TaskFilter::new().set_finished(FilterBoolean::TRUE))
        .set_order(TaskOrder::Created(SortOrder::DESC));
    assert_eq!(q.page_no(), 3);
    assert_eq!(q.per_page(), 4);
    let c = q.filtered();
    assert_eq!(c.len(), 1);
    assert!(matches!(c[0], TaskCondition::Finished(true)));
    assert_eq!(q.ordered(), TaskSort { column: TaskSortColumn::Created, ascending: false });
}

#[test]
fn pages_tile() {
    for page in 1..6i64 {
        let this = TaskQuery::new(page, 7).page_window();
        let next = TaskQuery::new(page + 1, 7).page_window();
        assert_eq!(next.offset, this.offset + this.limit);
    }
    assert_eq!(TaskQuery::new(0, 5).page_window().offset, -5);
}

fn task(id: i32) -> Task {
    Task {
        id,
        title: format!("SearchTask{}", id),
        description: "d".to_string(),
        finished: false,
        deadline: date(2023, 11, 5),
        created: moment(2024, 1, 1, 0),
    }
}

#[test]
fn paginated_list_reports_page_and_total() {
    let q = TaskQuery::new(2, 2);
    let comments = vec![Comment { id: 1, content: "c".to_string(), task_id: 3, created: moment(2024, 1, 2, 0) }];
    let page = q.get_pagenated_tasks(3, vec![task(3)], comments);
    assert_eq!(page.num_total_tasks(), 3);
    assert_eq!(page.page_no(), 2);
    let views = page.task_view_list().tasks();
    assert_eq!(views.len(), 1);
    assert_eq!(views[0].id(), 3);
    assert_eq!(views[0].comments().len(), 1);
}

use vstd::prelude::*;
use vstd::string::*;

use chrono::{NaiveDate, NaiveDateTime};

use crate::models::{task_views, Comment, Task, TaskViewList, TaskViewModel};

verus! {

/// A comparison of an ordered column against a value.
pub enum FilterOrderd<V> {
    LT(V),
    LE(V),
    EQ(V),
    GE(V),
    GT(V),
}

/// A text column either contains a value or equals it.
pub enum FilterContainable<V> {
    CONTAIN(V),
    EQUAL(V),
}

/// A boolean column is either false or true.
#[derive(Debug, Clone, Copy, PartialEq, Eq, Structural)]
pub enum FilterBoolean {
    FALSE,
    TRUE,
}

/// The comparison that a store condition makes between a column and a value.
#[derive(Debug, Clone, Copy, PartialEq, Eq, Structural)]
pub enum Comparison {
    Less,
    LessOrEqual,
    Equal,
    GreaterOrEqual,
    Greater,
}

/// The comparison that an ordered filter asks for, with its value.
pub open spec fn comparison_of<V>(f: FilterOrderd<V>) -> (Comparison, V) {
    match f {
        FilterOrderd::LT(v) => (Comparison::Less, v),
        FilterOrderd::LE(v) => (Comparison::LessOrEqual, v),
        FilterOrderd::EQ(v) => (Comparison::Equal, v),
        FilterOrderd::GE(v) => (Comparison::GreaterOrEqual, v),
        FilterOrderd::GT(v) => (Comparison::Greater, v),
    }
}

fn comparison<V: Copy>(f: &FilterOrderd<V>) -> (res: (Comparison, V))
    ensures
        res == comparison_of(*f),
{
    match f {
        FilterOrderd::LT(v) => (Comparison::Less, *v),
        FilterOrderd::LE(v) => (Comparison::LessOrEqual, *v),
        FilterOrderd::EQ(v) => (Comparison::Equal, *v),
        FilterOrderd::GE(v) => (Comparison::GreaterOrEqual, *v),
        FilterOrderd::GT(v) => (Comparison::Greater, *v),
    }
}

/// The pattern that selects the texts containing `v`: `v` between two `%`.
pub open spec fn like_pattern(v: Seq<char>) -> Seq<char> {
    seq!['%'] + v + seq!['%']
}

fn like_pattern_of(v: &String) -> (res: String)
    ensures
        res@ == like_pattern(v@),
{
    let mut s = String::from_str("%");
    proof {
        reveal_strlit("%");
    }
    s.append(v.as_str());
    s.append("%");
    s
}

/// A condition on a text column: it matches a pattern, or it equals a text.
pub enum TextCondition {
    Like(String),
    Equal(String),
}

/// The model of a condition on a text column.
pub enum TextConditionModel {
    Like(Seq<char>),
    Equal(Seq<char>),
}

impl View for TextCondition {
    type V = TextConditionModel;

    open spec fn view(&self) -> TextConditionModel {
        match self {
            TextCondition::Like(p) => TextConditionModel::Like(p@),
            TextCondition::Equal(v) => TextConditionModel::Equal(v@),
        }
    }
}

/// The model of a text filter.
pub open spec fn text_filter_model(f: FilterContainable<String>) -> FilterContainable<Seq<char>> {
    match f {
        FilterContainable::CONTAIN(v) => FilterContainable::CONTAIN(v@),
        FilterContainable::EQUAL(v) => FilterContainable::EQUAL(v@),
    }
}

/// The model of a text filter that may be absent.
pub open spec fn optional_text_filter_model(f: Option<FilterContainable<String>>) -> Option<
    FilterContainable<Seq<char>>,
> {
    match f {
        Some(c) => Some(text_filter_model(c)),
        None => None,
    }
}

/// The condition that a text filter puts on its column: containing `v` is
/// matching the pattern `%v%`, equality stays equality.
pub open spec fn text_condition(f: FilterContainable<Seq<char>>) -> TextConditionModel {
    match f {
        FilterContainable::CONTAIN(v) => TextConditionModel::Like(like_pattern(v)),
        FilterContainable::EQUAL(v) => TextConditionModel::Equal(v),
    }
}

fn text_condition_of(f: &FilterContainable<String>) -> (res: TextCondition)
    ensures
        res@ == text_condition(text_filter_model(*f)),
{
    match f {
        FilterContainable::CONTAIN(v) => TextCondition::Like(like_pattern_of(v)),
        FilterContainable::EQUAL(v) => TextCondition::Equal(v.clone()),
    }
}

/// A condition that a task search puts on the stored tasks.
pub enum TaskCondition {
    Title(TextCondition),
    Description(TextCondition),
    Finished(bool),
    Deadline(Comparison, NaiveDate),
    Created(Comparison, NaiveDateTime),
}

/// The model of a condition on tasks.
pub enum TaskConditionModel {
    Title(TextConditionModel),
    Description(TextConditionModel),
    Finished(bool),
    Deadline(Comparison, NaiveDate),
    Created(Comparison, NaiveDateTime),
}

impl View for TaskCondition {
    type V = TaskConditionModel;

    open spec fn view(&self) -> TaskConditionModel {
        match self {
            TaskCondition::Title(c) => TaskConditionModel::Title(c@),
            TaskCondition::Description(c) => TaskConditionModel::Description(c@),
            TaskCondition::Finished(b) => TaskConditionModel::Finished(*b),
            TaskCondition::Deadline(c, d) => TaskConditionModel::Deadline(*c, *d),
            TaskCondition::Created(c, t) => TaskConditionModel::Created(*c, *t),
        }
    }
}

impl DeepView for TaskCondition {
    type V = TaskConditionModel;

    open spec fn deep_view(&self) -> TaskConditionModel {
        self@
    }
}

/// A one-element sequence where `o` holds a value, the empty one where not.
pub open spec fn optional_seq<T>(o: Option<T>) -> Seq<T> {
    match o {
        Some(x) => seq![x],
        None => Seq::empty(),
    }
}

/// The model of a task filter: which condition it keeps for each column.
pub struct TaskFilterModel {
    pub title: Option<FilterContainable<Seq<char>>>,
    pub description: Option<FilterContainable<Seq<char>>>,
    pub finished: Option<FilterBoolean>,
    pub deadline: Option<FilterOrderd<NaiveDate>>,
    pub created: Option<FilterOrderd<NaiveDateTime>>,
}

impl TaskFilterModel {
    /// The filter that keeps no condition.
    pub open spec fn empty() -> TaskFilterModel {
        TaskFilterModel { title: None, description: None, finished: None, deadline: None, created: None }
    }

    pub open spec fn with_title(self, title: FilterContainable<Seq<char>>) -> TaskFilterModel {
        TaskFilterModel { title: Some(title), ..self }
    }

    pub open spec fn with_description(self, description: FilterContainable<Seq<char>>) -> TaskFilterModel {
        TaskFilterModel { description: Some(description), ..self }
    }

    pub open spec fn with_finished(self, finished: FilterBoolean) -> TaskFilterModel {
        TaskFilterModel { finished: Some(finished), ..self }
    }

    pub open spec fn with_deadline(self, deadline: FilterOrderd<NaiveDate>) -> TaskFilterModel {
        TaskFilterModel { deadline: Some(deadline), ..self }
    }

    pub open spec fn with_created(self, created: FilterOrderd<NaiveDateTime>) -> TaskFilterModel {
        TaskFilterModel { created: Some(created), ..self }
    }

    pub open spec fn title_condition(self) -> Option<TaskConditionModel> {
        match self.title {
            Some(c) => Some(TaskConditionModel::Title(text_condition(c))),
            None => None,
        }
    }

    pub open spec fn description_condition(self) -> Option<TaskConditionModel> {
        match self.description {
            Some(c) => Some(TaskConditionModel::Description(text_condition(c))),
            None => None,
        }
    }

    pub open spec fn finished_condition(self) -> Option<TaskConditionModel> {
        match self.finished {
            Some(FilterBoolean::TRUE) => Some(TaskConditionModel::Finished(true)),
            Some(FilterBoolean::FALSE) => Some(TaskConditionModel::Finished(false)),
            None => None,
        }
    }

    pub open spec fn deadline_condition(self) -> Option<TaskConditionModel> {
        match self.deadline {
            Some(f) => Some(TaskConditionModel::Deadline(comparison_of(f).0, comparison_of(f).1)),
            None => None,
        }
    }

    pub open spec fn created_condition(self) -> Option<TaskConditionModel> {
        match self.created {
            Some(f) => Some(TaskConditionModel::Created(comparison_of(f).0, comparison_of(f).1)),
            None => None,
        }
    }

    /// The conditions that the filter puts on the stored tasks, one for each
    /// column it constrains, in the order title, description, finished,
    /// deadline, created.
    pub open spec fn conditions(self) -> Seq<TaskConditionModel> {
        optional_seq(self.title_condition()) + optional_seq(self.description_condition()) + optional_seq(
            self.finished_condition(),
        ) + optional_seq(self.deadline_condition()) + optional_seq(self.created_condition())
    }
}

/// The model of a condition that may be absent.
pub open spec fn optional_condition_model(o: Option<TaskCondition>) -> Option<TaskConditionModel> {
    match o {
        Some(c) => Some(c@),
        None => None,
    }
}

/// Whether the store's `LIKE` admits `s` for `pattern`: `%` stands for any
/// run of characters, `_` for any one character, `\` makes the character
/// after it stand for itself, and every other character stands for itself.
/// A pattern that ends in a lone `\` admits nothing: the store refuses it.
pub open spec fn like_matches(pattern: Seq<char>, s: Seq<char>) -> bool
    decreases pattern.len(), s.len(),
{
    if pattern.len() == 0 {
        s.len() == 0
    } else if pattern[0] == '%' {
        like_matches(pattern.drop_first(), s) || (s.len() > 0 && like_matches(pattern, s.drop_first()))
    } else if pattern[0] == '_' {
        s.len() > 0 && like_matches(pattern.drop_first(), s.drop_first())
    } else if pattern[0] == '\\' {
        pattern.len() >= 2 && s.len() > 0 && s[0] == pattern[1] && like_matches(
            pattern.subrange(2, pattern.len() as int),
            s.drop_first(),
        )
    } else {
        s.len() > 0 && s[0] == pattern[0] && like_matches(pattern.drop_first(), s.drop_first())
    }
}

/// A text that holds none of the characters special to `LIKE`.
pub open spec fn plain_text(v: Seq<char>) -> bool {
    forall|i: int| 0 <= i < v.len() ==> #[trigger] v[i] != '%' && v[i] != '_' && v[i] != '\\'
}

/// Whether `v` occurs in `s` as a run of consecutive characters.
pub open spec fn occurs_in(v: Seq<char>, s: Seq<char>) -> bool {
    exists|i: int| 0 <= i <= s.len() - v.len() && #[trigger] s.subrange(i, i + v.len()) == v
}

proof fn lemma_percent_matches_everything(s: Seq<char>)
    ensures
        like_matches(seq!['%'], s),
    decreases s.len(),
{
    let p = seq!['%'];
    assert(p[0] == '%');
    assert(p.drop_first() =~= Seq::<char>::empty());
    if s.len() > 0 {
        lemma_percent_matches_everything(s.drop_first());
        assert(like_matches(p, s.drop_first()));
    } else {
        assert(like_matches(Seq::<char>::empty(), s));
        assert(like_matches(p.drop_first(), s));
    }
}

proof fn lemma_plain_prefix(v: Seq<char>, s: Seq<char>)
    requires
        plain_text(v),
    ensures
        like_matches(v + seq!['%'], s) == (v.len() <= s.len() && s.subrange(0, v.len() as int) == v),
    decreases v.len(),
{
    if v.len() == 0 {
        assert(v + seq!['%'] =~= seq!['%']);
        lemma_percent_matches_everything(s);
        assert(s.subrange(0, 0) =~= v);
    } else {
        let p = v + seq!['%'];
        let w = v.drop_first();
        assert(p[0] == v[0]);
        assert(p.drop_first() =~= w + seq!['%']);
        assert forall|i: int| 0 <= i < w.len() implies #[trigger] w[i] != '%' && w[i] != '_' && w[i] != '\\' by {
            assert(w[i] == v[i + 1]);
        }
        if s.len() > 0 {
            lemma_plain_prefix(w, s.drop_first());
            if v.len() <= s.len() && s.subrange(0, v.len() as int) == v {
                assert(s[0] == s.subrange(0, v.len() as int)[0]);
                assert(s.drop_first().subrange(0, w.len() as int) =~= s.subrange(0, v.len() as int).drop_first());
            }
            if s[0] == v[0] && w.len() <= s.drop_first().len() && s.drop_first().subrange(0, w.len() as int) == w {
                assert forall|k: int| 0 <= k < v.len() implies #[trigger] s.subrange(0, v.len() as int)[k] == v[k] by {
                    if k > 0 {
                        assert(s.drop_first().subrange(0, w.len() as int)[k - 1] == w[k - 1]);
                    }
                }
                assert(s.subrange(0, v.len() as int) =~= v);
            }
        }
    }
}

proof fn lemma_leading_percent(q: Seq<char>, s: Seq<char>)
    ensures
        like_matches(seq!['%'] + q, s) == (exists|i: int| 0 <= i <= s.len() && #[trigger] like_matches(q, s.skip(i))),
    decreases s.len(),
{
    let p = seq!['%'] + q;
    assert(p[0] == '%');
    assert(p.drop_first() =~= q);
    assert(s.skip(0) =~= s);
    assert(like_matches(p, s) == (like_matches(q, s) || (s.len() > 0 && like_matches(p, s.drop_first()))));
    if like_matches(q, s) {
        assert(like_matches(q, s.skip(0)));
    }
    if s.len() > 0 {
        lemma_leading_percent(q, s.drop_first());
        if like_matches(p, s.drop_first()) {
            let i = choose|i: int| 0 <= i <= s.drop_first().len() && #[trigger] like_matches(q, s.drop_first().skip(i));
            assert(s.drop_first().skip(i) =~= s.skip(i + 1));
            assert(like_matches(q, s.skip(i + 1)));
        }
        if exists|i: int| 0 <= i <= s.len() && #[trigger] like_matches(q, s.skip(i)) {
            let i = choose|i: int| 0 <= i <= s.len() && #[trigger] like_matches(q, s.skip(i));
            if i > 0 {
                assert(s.drop_first().skip(i - 1) =~= s.skip(i));
                assert(like_matches(q, s.drop_first().skip(i - 1)));
            }
        }
    } else {
        if exists|i: int| 0 <= i <= s.len() && #[trigger] like_matches(q, s.skip(i)) {
            let i = choose|i: int| 0 <= i <= s.len() && #[trigger] like_matches(q, s.skip(i));
            assert(i == 0);
        }
    }
}

/// A search for text containing a plain `v` keeps exactly the values in
/// which `v` occurs. Where `v` holds `%`, `_` or `\`, the store reads them as
/// pattern characters, and this need not hold.
pub proof fn law_contain_keeps_the_texts_that_contain(v: Seq<char>, s: Seq<char>)
    requires
        plain_text(v),
    ensures
        text_condition(FilterContainable::CONTAIN(v)).admits(s) == occurs_in(v, s),
{
    assert(like_pattern(v) =~= seq!['%'] + (v + seq!['%']));
    lemma_leading_percent(v + seq!['%'], s);
    if like_matches(like_pattern(v), s) {
        let i = choose|i: int| 0 <= i <= s.len() && #[trigger] like_matches(v + seq!['%'], s.skip(i));
        lemma_plain_prefix(v, s.skip(i));
        assert(s.skip(i).subrange(0, v.len() as int) =~= s.subrange(i, i + v.len()));
    }
    if occurs_in(v, s) {
        let i = choose|i: int| 0 <= i <= s.len() - v.len() && #[trigger] s.subrange(i, i + v.len()) == v;
        lemma_plain_prefix(v, s.skip(i));
        assert(s.skip(i).subrange(0, v.len() as int) =~= s.subrange(i, i + v.len()));
        assert(like_matches(v + seq!['%'], s.skip(i)));
    }
}

impl TextConditionModel {
    /// The column values this condition admits.
    pub open spec fn admits(self, value: Seq<char>) -> bool {
        match self {
            TextConditionModel::Like(p) => like_matches(p, value),
            TextConditionModel::Equal(v) => value == v,
        }
    }
}

impl Comparison {
    /// Whether the comparison admits a column value that the store orders
    /// `sign` against the bound: negative where the value comes before the
    /// bound, zero where they are equal, positive where it comes after.
    pub open spec fn admits(self, sign: int) -> bool {
        match self {
            Comparison::Less => sign < 0,
            Comparison::LessOrEqual => sign <= 0,
            Comparison::Equal => sign == 0,
            Comparison::GreaterOrEqual => sign >= 0,
            Comparison::Greater => sign > 0,
        }
    }
}

/// How the store orders dates and moments: the sign of comparing the first
/// argument against the second.
pub struct StoreOrdering {
    pub dates: spec_fn(NaiveDate, NaiveDate) -> int,
    pub moments: spec_fn(NaiveDateTime, NaiveDateTime) -> int,
}

impl TaskConditionModel {
    /// Whether the store keeps `task` under this condition.
    pub open spec fn admits(self, task: Task, ord: StoreOrdering) -> bool {
        match self {
            TaskConditionModel::Title(c) => c.admits(task.title@),
            TaskConditionModel::Description(c) => c.admits(task.description@),
            TaskConditionModel::Finished(b) => task.finished == b,
            TaskConditionModel::Deadline(c, d) => c.admits((ord.dates)(task.deadline, d)),
            TaskConditionModel::Created(c, t) => c.admits((ord.moments)(task.created, t)),
        }
    }
}

/// Whether the store keeps `task` under every one of `conditions`: the
/// conditions are joined by AND.
pub open spec fn admits_all(conditions: Seq<TaskConditionModel>, task: Task, ord: StoreOrdering) -> bool {
    forall|i: int| 0 <= i < conditions.len() ==> #[trigger] conditions[i].admits(task, ord)
}

/// Whether an optional condition keeps `task`: an absent one keeps every task.
pub open spec fn optionally_admits(c: Option<TaskConditionModel>, task: Task, ord: StoreOrdering) -> bool {
    match c {
        Some(c) => c.admits(task, ord),
        None => true,
    }
}

impl TaskFilterModel {
    /// Whether the store keeps `task` under this filter, column by column.
    pub open spec fn admits(self, task: Task, ord: StoreOrdering) -> bool {
        &&& optionally_admits(self.title_condition(), task, ord)
        &&& optionally_admits(self.description_condition(), task, ord)
        &&& optionally_admits(self.finished_condition(), task, ord)
        &&& optionally_admits(self.deadline_condition(), task, ord)
        &&& optionally_admits(self.created_condition(), task, ord)
    }
}

proof fn lemma_admits_all_add(a: Seq<TaskConditionModel>, b: Seq<TaskConditionModel>, task: Task, ord: StoreOrdering)
    ensures
        admits_all(a + b, task, ord) == (admits_all(a, task, ord) && admits_all(b, task, ord)),
{
    if admits_all(a, task, ord) && admits_all(b, task, ord) {
        assert forall|i: int| 0 <= i < (a + b).len() implies #[trigger] (a + b)[i].admits(task, ord) by {
            if i >= a.len() {
                assert((a + b)[i] == b[i - a.len()]);
            }
        }
    }
    if admits_all(a + b, task, ord) {
        assert forall|i: int| 0 <= i < a.len() implies #[trigger] a[i].admits(task, ord) by {
            assert((a + b)[i] == a[i]);
        }
        assert forall|i: int| 0 <= i < b.len() implies #[trigger] b[i].admits(task, ord) by {
            assert((a + b)[a.len() + i] == b[i]);
        }
    }
}

proof fn lemma_admits_optional(c: Option<TaskConditionModel>, task: Task, ord: StoreOrdering)
    ensures
        admits_all(optional_seq(c), task, ord) == optionally_admits(c, task, ord),
{
    if let Some(x) = c {
        assert(optional_seq(c)[0] == x);
    }
}

/// The conditions a filter hands to the store keep exactly the tasks that
/// the filter admits column by column.
pub proof fn law_conditions_admit_what_the_filter_admits(f: TaskFilterModel, task: Task, ord: StoreOrdering)
    ensures
        admits_all(f.conditions(), task, ord) == f.admits(task, ord),
{
    let t = optional_seq(f.title_condition());
    let d = optional_seq(f.description_condition());
    let b = optional_seq(f.finished_condition());
    let l = optional_seq(f.deadline_condition());
    let c = optional_seq(f.created_condition());
    lemma_admits_all_add(t, d, task, ord);
    lemma_admits_all_add(t + d, b, task, ord);
    lemma_admits_all_add(t + d + b, l, task, ord);
    lemma_admits_all_add(t + d + b + l, c, task, ord);
    lemma_admits_optional(f.title_condition(), task, ord);
    lemma_admits_optional(f.description_condition(), task, ord);
    lemma_admits_optional(f.finished_condition(), task, ord);
    lemma_admits_optional(f.deadline_condition(), task, ord);
    lemma_admits_optional(f.created_condition(), task, ord);
}

/// Setting one more column narrows a search: every task the store keeps
/// under the wider filter it keeps under the narrower one too, since the new
/// condition is joined to the earlier ones by AND and they all stay.
pub proof fn law_more_conditions_keep_fewer_tasks(
    f: TaskFilterModel,
    title: FilterContainable<Seq<char>>,
    description: FilterContainable<Seq<char>>,
    finished: FilterBoolean,
    deadline: FilterOrderd<NaiveDate>,
    created: FilterOrderd<NaiveDateTime>,
    task: Task,
    ord: StoreOrdering,
)
    ensures
        f.title is None && admits_all(f.with_title(title).conditions(), task, ord) ==> admits_all(
            f.conditions(),
            task,
            ord,
        ),
        f.description is None && admits_all(f.with_description(description).conditions(), task, ord)
            ==> admits_all(f.conditions(), task, ord),
        f.finished is None && admits_all(f.with_finished(finished).conditions(), task, ord) ==> admits_all(
            f.conditions(),
            task,
            ord,
        ),
        f.deadline is None && admits_all(f.with_deadline(deadline).conditions(), task, ord) ==> admits_all(
            f.conditions(),
            task,
            ord,
        ),
        f.created is None && admits_all(f.with_created(created).conditions(), task, ord) ==> admits_all(
            f.conditions(),
            task,
            ord,
        ),
{
    law_conditions_admit_what_the_filter_admits(f, task, ord);
    law_conditions_admit_what_the_filter_admits(f.with_title(title), task, ord);
    law_conditions_admit_what_the_filter_admits(f.with_description(description), task, ord);
    law_conditions_admit_what_the_filter_admits(f.with_finished(finished), task, ord);
    law_conditions_admit_what_the_filter_admits(f.with_deadline(deadline), task, ord);
    law_conditions_admit_what_the_filter_admits(f.with_created(created), task, ord);
}

/// The conditions a task search applies, one optional condition per column.
pub struct TaskFilter {
    title: Option<FilterContainable<String>>,
    description: Option<FilterContainable<String>>,
    finished: Option<FilterBoolean>,
    deadline: Option<FilterOrderd<NaiveDate>>,
    created: Option<FilterOrderd<NaiveDateTime>>,
}

impl View for TaskFilter {
    type V = TaskFilterModel;

    closed spec fn view(&self) -> TaskFilterModel {
        TaskFilterModel {
            title: optional_text_filter_model(self.title),
            description: optional_text_filter_model(self.description),
            finished: self.finished,
            deadline: self.deadline,
            created: self.created,
        }
    }
}

fn push_optional(conditions: &mut Vec<TaskCondition>, c: Option<TaskCondition>)
    ensures
        final(conditions).deep_view() == old(conditions).deep_view() + optional_seq(
            optional_condition_model(c),
        ),
{
    let ghost before = conditions.deep_view();
    match c {
        Some(c) => {
            conditions.push(c);
            assert(conditions.deep_view() =~= before + seq![c@]);
        },
        None => {
            assert(conditions.deep_view() =~= before + Seq::<TaskConditionModel>::empty());
        },
    }
}

impl TaskFilter {
    /// A filter that constrains no column.
    pub fn new() -> (res: Self)
        ensures
            res@ == TaskFilterModel::empty(),
    {
        TaskFilter { title: None, description: None, finished: None, deadline: None, created: None }
    }

    /// Replaces the condition on the title.
    pub fn set_title(self, title: FilterContainable<String>) -> (res: Self)
        ensures
            res@ == self@.with_title(text_filter_model(title)),
    {
        let mut res = self;
        res.title = Some(title);
        res
    }

    /// Replaces the condition on the description.
    pub fn set_description(self, description: FilterContainable<String>) -> (res: Self)
        ensures
            res@ == self@.with_description(text_filter_model(description)),
    {
        let mut res = self;
        res.description = Some(description);
        res
    }

    /// Replaces the condition on whether the task is finished.
    pub fn set_finished(self, finished: FilterBoolean) -> (res: Self)
        ensures
            res@ == self@.with_finished(finished),
    {
        let mut res = self;
        res.finished = Some(finished);
        res
    }

    /// Replaces the condition on the deadline.
    pub fn set_deadline(self, deadline: FilterOrderd<NaiveDate>) -> (res: Self)
        ensures
            res@ == self@.with_deadline(deadline),
    {
        let mut res = self;
        res.deadline = Some(deadline);
        res
    }

    /// Replaces the condition on the creation moment.
    pub fn set_created(self, created: FilterOrderd<NaiveDateTime>) -> (res: Self)
        ensures
            res@ == self@.with_created(created),
    {
        let mut res = self;
        res.created = Some(created);
        res
    }

    fn title_condition(&self) -> (res: Option<TaskCondition>)
        ensures
            optional_condition_model(res) == self@.title_condition(),
    {
        match &self.title {
            Some(c) => Some(TaskCondition::Title(text_condition_of(c))),
            None => None,
        }
    }

    fn description_condition(&self) -> (res: Option<TaskCondition>)
        ensures
            optional_condition_model(res) == self@.description_condition(),
    {
        match &self.description {
            Some(c) => Some(TaskCondition::Description(text_condition_of(c))),
            None => None,
        }
    }

    fn finished_condition(&self) -> (res: Option<TaskCondition>)
        ensures
            optional_condition_model(res) == self@.finished_condition(),
    {
        match &self.finished {
            Some(FilterBoolean::TRUE) => Some(TaskCondition::Finished(true)),
            Some(FilterBoolean::FALSE) => Some(TaskCondition::Finished(false)),
            None => None,
        }
    }

    fn deadline_condition(&self) -> (res: Option<TaskCondition>)
        ensures
            optional_condition_model(res) == self@.deadline_condition(),
    {
        match &self.deadline {
            Some(f) => {
                let (c, d) = comparison(f);
                Some(TaskCondition::Deadline(c, d))
            },
            None => None,
        }
    }

    fn created_condition(&self) -> (res: Option<TaskCondition>)
        ensures
            optional_condition_model(res) == self@.created_condition(),
    {
        match &self.created {
            Some(f) => {
                let (c, t) = comparison(f);
                Some(TaskCondition::Created(c, t))
            },
            None => None,
        }
    }

    /// The conditions to put on the stored tasks, in the order in which they
    /// are applied.
    pub fn filter(&self) -> (res: Vec<TaskCondition>)
        ensures
            res.deep_view() == self@.conditions(),
    {
        let mut res: Vec<TaskCondition> = Vec::new();
        assert(res.deep_view() =~= Seq::<TaskConditionModel>::empty());
        push_optional(&mut res, self.title_condition());
        assert(res.deep_view() =~= optional_seq(self@.title_condition()));
        push_optional(&mut res, self.description_condition());
        push_optional(&mut res, self.finished_condition());
        push_optional(&mut res, self.deadline_condition());
        push_optional(&mut res, self.created_condition());
        res
    }
}


/// A condition that a comment search puts on the stored comments.
pub enum CommentCondition {
    Content(TextCondition),
    Created(Comparison, NaiveDateTime),
}

/// The model of a condition on comments.
pub enum CommentConditionModel {
    Content(TextConditionModel),
    Created(Comparison, NaiveDateTime),
}

impl View for CommentCondition {
    type V = CommentConditionModel;

    open spec fn view(&self) -> CommentConditionModel {
        match self {
            CommentCondition::Content(c) => CommentConditionModel::Content(c@),
            CommentCondition::Created(c, t) => CommentConditionModel::Created(*c, *t),
        }
    }
}

impl DeepView for CommentCondition {
    type V = CommentConditionModel;

    open spec fn deep_view(&self) -> CommentConditionModel {
        self@
    }
}

/// The model of a comment filter.
pub struct CommentFilterModel {
    pub content: Option<FilterContainable<Seq<char>>>,
    pub created: Option<FilterOrderd<NaiveDateTime>>,
}

impl CommentFilterModel {
    pub open spec fn empty() -> CommentFilterModel {
        CommentFilterModel { content: None, created: None }
    }

    pub open spec fn with_content(self, content: FilterContainable<Seq<char>>) -> CommentFilterModel {
        CommentFilterModel { content: Some(content), ..self }
    }

    pub open spec fn with_created(self, created: FilterOrderd<NaiveDateTime>) -> CommentFilterModel {
        CommentFilterModel { created: Some(created), ..self }
    }

    pub open spec fn content_condition(self) -> Option<CommentConditionModel> {
        match self.content {
            Some(c) => Some(CommentConditionModel::Content(text_condition(c))),
            None => None,
        }
    }

    pub open spec fn created_condition(self) -> Option<CommentConditionModel> {
        match self.created {
            Some(f) => Some(CommentConditionModel::Created(comparison_of(f).0, comparison_of(f).1)),
            None => None,
        }
    }

    /// The conditions the filter puts on the stored comments: content first,
    /// then creation.
    pub open spec fn conditions(self) -> Seq<CommentConditionModel> {
        optional_seq(self.content_condition()) + optional_seq(self.created_condition())
    }
}

impl CommentConditionModel {
    /// Whether the store keeps `comment` under this condition, the store
    /// ordering moments by `moments`.
    pub open spec fn admits(self, comment: Comment, moments: spec_fn(NaiveDateTime, NaiveDateTime) -> int) -> bool {
        match self {
            CommentConditionModel::Content(c) => c.admits(comment.content@),
            CommentConditionModel::Created(c, t) => c.admits(moments(comment.created, t)),
        }
    }
}

/// The conditions a comment search applies.
pub struct CommentFilter {
    content: Option<FilterContainable<String>>,
    created: Option<FilterOrderd<NaiveDateTime>>,
}

impl View for CommentFilter {
    type V = CommentFilterModel;

    closed spec fn view(&self) -> CommentFilterModel {
        CommentFilterModel { content: optional_text_filter_model(self.content), created: self.created }
    }
}

impl CommentFilter {
    /// A filter that constrains no column.
    pub fn new() -> (res: Self)
        ensures
            res@ == CommentFilterModel::empty(),
    {
        CommentFilter { content: None, created: None }
    }

    /// Replaces the condition on the content.
    pub fn set_content(self, content: FilterContainable<String>) -> (res: Self)
        ensures
            res@ == self@.with_content(text_filter_model(content)),
    {
        let mut res = self;
        res.content = Some(content);
        res
    }

    /// Replaces the condition on the creation moment.
    pub fn set_created(self, created: FilterOrderd<NaiveDateTime>) -> (res: Self)
        ensures
            res@ == self@.with_created(created),
    {
        let mut res = self;
        res.created = Some(created);
        res
    }

    /// The conditions to put on the stored comments, in the order in which
    /// they are applied.
    pub fn filter(&self) -> (res: Vec<CommentCondition>)
        ensures
            res.deep_view() == self@.conditions(),
    {
        let mut res: Vec<CommentCondition> = Vec::new();
        match &self.content {
            Some(c) => res.push(CommentCondition::Content(text_condition_of(c))),
            None => {},
        }
        match &self.created {
            Some(f) => {
                let (c, t) = comparison(f);
                res.push(CommentCondition::Created(c, t));
            },
            None => {},
        }
        assert(res.deep_view() =~= self@.conditions());
        res
    }
}

/// The direction of a sort.
#[derive(Debug, Clone, Copy, PartialEq, Eq, Structural)]
pub enum SortOrder {
    ASC,
    DESC,
}

/// The column by which tasks are sorted, and in which direction.
pub enum TaskOrder {
    Deadline(SortOrder),
    Created(SortOrder),
}

/// A column by which tasks can be sorted.
#[derive(Debug, Clone, Copy, PartialEq, Eq, Structural)]
pub enum TaskSortColumn {
    Deadline,
    Created,
}

/// The sort that a task search asks of the store.
#[derive(Debug, Clone, Copy, PartialEq, Eq, Structural)]
pub struct TaskSort {
    pub column: TaskSortColumn,
    pub ascending: bool,
}

impl TaskOrder {
    /// The sort this order asks for.
    pub open spec fn sort(self) -> TaskSort {
        match self {
            TaskOrder::Deadline(d) => TaskSort { column: TaskSortColumn::Deadline, ascending: d == SortOrder::ASC },
            TaskOrder::Created(d) => TaskSort { column: TaskSortColumn::Created, ascending: d == SortOrder::ASC },
        }
    }

    /// The column to sort by and whether the sort ascends.
    pub fn order(&self) -> (res: TaskSort)
        ensures
            res == self.sort(),
    {
        match self {
            TaskOrder::Deadline(SortOrder::ASC) => TaskSort { column: TaskSortColumn::Deadline, ascending: true },
            TaskOrder::Deadline(SortOrder::DESC) => TaskSort { column: TaskSortColumn::Deadline, ascending: false },
            TaskOrder::Created(SortOrder::ASC) => TaskSort { column: TaskSortColumn::Created, ascending: true },
            TaskOrder::Created(SortOrder::DESC) => TaskSort { column: TaskSortColumn::Created, ascending: false },
        }
    }
}

/// The order of comments: by creation, in either direction.
pub enum CommentOrder {
    Created(SortOrder),
}

impl CommentOrder {
    /// Whether comments are sorted by creation in ascending order.
    pub fn order(&self) -> (ascending: bool)
        ensures
            ascending == (self == CommentOrder::Created(SortOrder::ASC)),
    {
        match self {
            CommentOrder::Created(SortOrder::ASC) => true,
            CommentOrder::Created(SortOrder::DESC) => false,
        }
    }
}

/// The model of one page of search results.
pub struct PagenatedTaskListModel {
    pub tasks: Seq<TaskViewModel>,
    pub num_total_tasks: i64,
    pub page_no: i64,
}

/// One page of the tasks a search selects, with how many it selects in all.
pub struct PagenatedTaskList {
    task_view_list: TaskViewList,
    num_total_tasks: i64,
    page_no: i64,
}

impl View for PagenatedTaskList {
    type V = PagenatedTaskListModel;

    closed spec fn view(&self) -> PagenatedTaskListModel {
        PagenatedTaskListModel {
            tasks: self.task_view_list@,
            num_total_tasks: self.num_total_tasks,
            page_no: self.page_no,
        }
    }
}

impl PagenatedTaskList {
    pub fn task_view_list(&self) -> (res: &TaskViewList)
        ensures
            res@ == self@.tasks,
    {
        &self.task_view_list
    }

    pub fn num_total_tasks(&self) -> (res: i64)
        ensures
            res == self@.num_total_tasks,
    {
        self.num_total_tasks
    }

    pub fn page_no(&self) -> (res: i64)
        ensures
            res == self@.page_no,
    {
        self.page_no
    }
}

/// The model of a search request.
pub struct TaskQueryModel {
    pub filter: TaskFilterModel,
    pub order: TaskOrder,
    pub page_no: i64,
    pub per_page: i64,
}

/// The first row of page `page_no` when each page holds `per_page` rows.
pub open spec fn page_offset(page_no: int, per_page: int) -> int {
    per_page * (page_no - 1)
}

/// How many of the stored tasks `db` the store keeps under `conditions`.
pub open spec fn matching_count(db: Seq<Task>, conditions: Seq<TaskConditionModel>, ord: StoreOrdering) -> nat {
    db.filter(|t: Task| admits_all(conditions, t, ord)).len()
}

/// The total of a search depends on its filter alone: two requests with the
/// same filter ask the store to count under the same conditions, so on the
/// same tasks they report the same total, whatever their page, page size and
/// sort.
pub proof fn law_total_depends_on_the_filter_alone(
    q1: TaskQueryModel,
    q2: TaskQueryModel,
    db: Seq<Task>,
    ord: StoreOrdering,
)
    requires
        q1.filter == q2.filter,
    ensures
        q1.filter.conditions() == q2.filter.conditions(),
        matching_count(db, q1.filter.conditions(), ord) == matching_count(db, q2.filter.conditions(), ord),
{
}

/// A search request: which tasks, in which order, and which page of them.
pub struct TaskQuery {
    pub filter: TaskFilter,
    pub order: TaskOrder,
    page_no: i64,
    per_page: i64,
}

impl View for TaskQuery {
    type V = TaskQueryModel;

    closed spec fn view(&self) -> TaskQueryModel {
        TaskQueryModel {
            filter: self.filter@,
            order: self.order,
            page_no: self.page_no,
            per_page: self.per_page,
        }
    }
}

/// The rows of a search that one page shows.
pub struct PageWindow {
    pub limit: i64,
    pub offset: i64,
}

impl TaskQuery {
    /// A request for page `page_no` of `per_page` tasks, with no condition,
    /// sorted by ascending deadline.
    pub fn new(page_no: i64, per_page: i64) -> (res: Self)
        ensures
            res@ == (TaskQueryModel {
                filter: TaskFilterModel::empty(),
                order: TaskOrder::Deadline(SortOrder::ASC),
                page_no,
                per_page,
            }),
    {
        TaskQuery {
            filter: TaskFilter::new(),
            order: TaskOrder::Deadline(SortOrder::ASC),
            page_no,
            per_page,
        }
    }

    pub fn page_no(&self) -> (res: i64)
        ensures
            res == self@.page_no,
    {
        self.page_no
    }

    /// Replaces the conditions of the request.
    pub fn set_filter(self, filter: TaskFilter) -> (res: Self)
        ensures
            res@ == (TaskQueryModel { filter: filter@, ..self@ }),
    {
        let mut res = self;
        res.filter = filter;
        res
    }

    /// Replaces the sort of the request.
    pub fn set_order(self, order: TaskOrder) -> (res: Self)
        ensures
            res@ == (TaskQueryModel { order, ..self@ }),
    {
        let mut res = self;
        res.order = order;
        res
    }

    pub fn per_page(&self) -> (res: i64)
        ensures
            res == self@.per_page,
    {
        self.per_page
    }

    /// The conditions of the request.
    pub fn filtered(&self) -> (res: Vec<TaskCondition>)
        ensures
            res.deep_view() == self@.filter.conditions(),
    {
        self.filter.filter()
    }

    /// The sort of the request.
    pub fn ordered(&self) -> (res: TaskSort)
        ensures
            res == self@.order.sort(),
    {
        self.order.order()
    }

    /// The rows that the requested page shows: at most `per_page` of them,
    /// after skipping the pages before it.
    pub fn page_window(&self) -> (res: PageWindow)
        requires
            self@.page_no > i64::MIN,
            i64::MIN <= page_offset(self@.page_no as int, self@.per_page as int) <= i64::MAX,
        ensures
            res.limit == self@.per_page,
            res.offset == page_offset(self@.page_no as int, self@.per_page as int),
    {
        PageWindow { limit: self.per_page, offset: self.per_page * (self.page_no - 1) }
    }

    /// The page of results for this request, from the number of tasks the
    /// conditions select, the tasks of the page and the comments loaded for
    /// them.
    pub fn get_pagenated_tasks(&self, num_total: i64, tasks: Vec<Task>, comments: Vec<Comment>) -> (res:
        PagenatedTaskList)
        ensures
            res@ == (PagenatedTaskListModel {
                tasks: task_views(tasks@, comments@),
                num_total_tasks: num_total,
                page_no: self@.page_no,
            }),
    {
        PagenatedTaskList {
            task_view_list: TaskViewList::new(tasks, comments),
            num_total_tasks: num_total,
            page_no: self.page_no,
        }
    }
}


/// A new filter puts no condition on the tasks: it selects every task.
pub proof fn law_new_filter_has_no_conditions()
    ensures
        TaskFilterModel::empty().conditions() == Seq::<TaskConditionModel>::empty(),
{
    assert(TaskFilterModel::empty().conditions() =~= Seq::<TaskConditionModel>::empty());
}

/// Setting a column twice keeps only the second setting.
pub proof fn law_last_setting_wins(
    f: TaskFilterModel,
    t1: FilterContainable<Seq<char>>,
    t2: FilterContainable<Seq<char>>,
    d1: FilterContainable<Seq<char>>,
    d2: FilterContainable<Seq<char>>,
    b1: FilterBoolean,
    b2: FilterBoolean,
    l1: FilterOrderd<NaiveDate>,
    l2: FilterOrderd<NaiveDate>,
    c1: FilterOrderd<NaiveDateTime>,
    c2: FilterOrderd<NaiveDateTime>,
)
    ensures
        f.with_title(t1).with_title(t2) == f.with_title(t2),
        f.with_description(d1).with_description(d2) == f.with_description(d2),
        f.with_finished(b1).with_finished(b2) == f.with_finished(b2),
        f.with_deadline(l1).with_deadline(l2) == f.with_deadline(l2),
        f.with_created(c1).with_created(c2) == f.with_created(c2),
{
}

/// The conditions do not depend on the order in which the columns were set:
/// setting two different columns in either order gives the same filter.
pub proof fn law_settings_commute(
    f: TaskFilterModel,
    t: FilterContainable<Seq<char>>,
    d: FilterContainable<Seq<char>>,
    b: FilterBoolean,
    l: FilterOrderd<NaiveDate>,
    c: FilterOrderd<NaiveDateTime>,
)
    ensures
        f.with_title(t).with_description(d) == f.with_description(d).with_title(t),
        f.with_title(t).with_finished(b) == f.with_finished(b).with_title(t),
        f.with_title(t).with_deadline(l) == f.with_deadline(l).with_title(t),
        f.with_title(t).with_created(c) == f.with_created(c).with_title(t),
        f.with_description(d).with_finished(b) == f.with_finished(b).with_description(d),
        f.with_description(d).with_deadline(l) == f.with_deadline(l).with_description(d),
        f.with_description(d).with_created(c) == f.with_created(c).with_description(d),
        f.with_finished(b).with_deadline(l) == f.with_deadline(l).with_finished(b),
        f.with_finished(b).with_created(c) == f.with_created(c).with_finished(b),
        f.with_deadline(l).with_created(c) == f.with_created(c).with_deadline(l),
{
}

/// The number of columns that a filter constrains.
pub open spec fn constrained_columns(f: TaskFilterModel) -> nat {
    (if f.title is Some { 1nat } else { 0nat }) + (if f.description is Some { 1nat } else { 0nat }) + (
    if f.finished is Some { 1nat } else { 0nat }) + (if f.deadline is Some { 1nat } else { 0nat }) + (
    if f.created is Some { 1nat } else { 0nat })
}

/// A filter puts exactly one condition on each column it constrains.
pub proof fn law_one_condition_per_constrained_column(f: TaskFilterModel)
    ensures
        f.conditions().len() == constrained_columns(f),
{
}

/// A search for text containing `v` asks the store for the pattern `%v%`,
/// and a search for text equal to `v` asks for `v` itself.
pub proof fn law_text_search_patterns(f: TaskFilterModel, t: FilterContainable<Seq<char>>)
    ensures
        f.with_title(t).conditions()[0] == TaskConditionModel::Title(
            match t {
                FilterContainable::CONTAIN(v) => TextConditionModel::Like(seq!['%'] + v + seq!['%']),
                FilterContainable::EQUAL(v) => TextConditionModel::Equal(v),
            },
        ),
{
}

/// The first page starts at the first row, and each page starts where the
/// page before it ends: pages of the same size tile the results.
pub proof fn law_pages_tile(page_no: int, per_page: int)
    ensures
        page_offset(1, per_page) == 0,
        page_offset(page_no + 1, per_page) == page_offset(page_no, per_page) + per_page,
{
    assert(per_page * (page_no + 1 - 1) == per_page * (page_no - 1) + per_page) by (nonlinear_arith);
    assert(per_page * (1 - 1) == 0) by (nonlinear_arith);
}

/// Each setter records its column exactly as given and leaves every other
/// column as it was.
pub proof fn law_setters_record_as_given(
    f: TaskFilterModel,
    t: FilterContainable<Seq<char>>,
    d: FilterContainable<Seq<char>>,
    b: FilterBoolean,
    l: FilterOrderd<NaiveDate>,
    c: FilterOrderd<NaiveDateTime>,
)
    ensures
        f.with_title(t).title == Some(t) && f.with_title(t).description == f.description
            && f.with_title(t).finished == f.finished && f.with_title(t).deadline == f.deadline
            && f.with_title(t).created == f.created,
        f.with_description(d).description == Some(d) && f.with_description(d).title == f.title
            && f.with_description(d).finished == f.finished && f.with_description(d).deadline == f.deadline
            && f.with_description(d).created == f.created,
        f.with_finished(b).finished == Some(b) && f.with_finished(b).title == f.title
            && f.with_finished(b).description == f.description && f.with_finished(b).deadline == f.deadline
            && f.with_finished(b).created == f.created,
        f.with_deadline(l).deadline == Some(l) && f.with_deadline(l).title == f.title
            && f.with_deadline(l).description == f.description && f.with_deadline(l).finished == f.finished
            && f.with_deadline(l).created == f.created,
        f.with_created(c).created == Some(c) && f.with_created(c).title == f.title
            && f.with_created(c).description == f.description && f.with_created(c).finished == f.finished
            && f.with_created(c).deadline == f.deadline,
{
}

/// A creation filter adds, after the conditions of the other columns, one
/// condition that carries the comparison the filter names and its moment.
pub proof fn law_created_condition_names_its_comparison(f: TaskFilterModel, v: NaiveDateTime)
    ensures
        f.with_created(FilterOrderd::LT(v)).conditions() == (TaskFilterModel { created: None, ..f }).conditions().push(
            TaskConditionModel::Created(Comparison::Less, v),
        ),
        f.with_created(FilterOrderd::LE(v)).conditions() == (TaskFilterModel { created: None, ..f }).conditions().push(
            TaskConditionModel::Created(Comparison::LessOrEqual, v),
        ),
        f.with_created(FilterOrderd::EQ(v)).conditions() == (TaskFilterModel { created: None, ..f }).conditions().push(
            TaskConditionModel::Created(Comparison::Equal, v),
        ),
        f.with_created(FilterOrderd::GE(v)).conditions() == (TaskFilterModel { created: None, ..f }).conditions().push(
            TaskConditionModel::Created(Comparison::GreaterOrEqual, v),
        ),
        f.with_created(FilterOrderd::GT(v)).conditions() == (TaskFilterModel { created: None, ..f }).conditions().push(
            TaskConditionModel::Created(Comparison::Greater, v),
        ),
{
    let base = (TaskFilterModel { created: None, ..f }).conditions();
    assert(f.with_created(FilterOrderd::LT(v)).conditions() =~= base.push(TaskConditionModel::Created(Comparison::Less, v)));
    assert(f.with_created(FilterOrderd::LE(v)).conditions() =~= base.push(TaskConditionModel::Created(Comparison::LessOrEqual, v)));
    assert(f.with_created(FilterOrderd::EQ(v)).conditions() =~= base.push(TaskConditionModel::Created(Comparison::Equal, v)));
    assert(f.with_created(FilterOrderd::GE(v)).conditions() =~= base.push(TaskConditionModel::Created(Comparison::GreaterOrEqual, v)));
    assert(f.with_created(FilterOrderd::GT(v)).conditions() =~= base.push(TaskConditionModel::Created(Comparison::Greater, v)));
}

/// A deadline filter on a filter without a creation condition adds, last,
/// one condition that carries the comparison the filter names and its date.
pub proof fn law_deadline_condition_names_its_comparison(f: TaskFilterModel, d: NaiveDate)
    requires
        f.created is None,
    ensures
        f.with_deadline(FilterOrderd::LT(d)).conditions() == (TaskFilterModel { deadline: None, ..f }).conditions().push(
            TaskConditionModel::Deadline(Comparison::Less, d),
        ),
        f.with_deadline(FilterOrderd::LE(d)).conditions() == (TaskFilterModel { deadline: None, ..f }).conditions().push(
            TaskConditionModel::Deadline(Comparison::LessOrEqual, d),
        ),
        f.with_deadline(FilterOrderd::EQ(d)).conditions() == (TaskFilterModel { deadline: None, ..f }).conditions().push(
            TaskConditionModel::Deadline(Comparison::Equal, d),
        ),
        f.with_deadline(FilterOrderd::GE(d)).conditions() == (TaskFilterModel { deadline: None, ..f }).conditions().push(
            TaskConditionModel::Deadline(Comparison::GreaterOrEqual, d),
        ),
        f.with_deadline(FilterOrderd::GT(d)).conditions() == (TaskFilterModel { deadline: None, ..f }).conditions().push(
            TaskConditionModel::Deadline(Comparison::Greater, d),
        ),
{
    let base = (TaskFilterModel { deadline: None, ..f }).conditions();
    assert(f.with_deadline(FilterOrderd::LT(d)).conditions() =~= base.push(TaskConditionModel::Deadline(Comparison::Less, d)));
    assert(f.with_deadline(FilterOrderd::LE(d)).conditions() =~= base.push(TaskConditionModel::Deadline(Comparison::LessOrEqual, d)));
    assert(f.with_deadline(FilterOrderd::EQ(d)).conditions() =~= base.push(TaskConditionModel::Deadline(Comparison::Equal, d)));
    assert(f.with_deadline(FilterOrderd::GE(d)).conditions() =~= base.push(TaskConditionModel::Deadline(Comparison::GreaterOrEqual, d)));
    assert(f.with_deadline(FilterOrderd::GT(d)).conditions() =~= base.push(TaskConditionModel::Deadline(Comparison::Greater, d)));
}

/// A finished filter on a filter without date conditions adds, last, the
/// condition that the finished column equals the value the filter names.
pub proof fn law_finished_condition_names_its_value(f: TaskFilterModel)
    requires
        f.deadline is None,
        f.created is None,
    ensures
        f.with_finished(FilterBoolean::TRUE).conditions() == (TaskFilterModel { finished: None, ..f }).conditions().push(
            TaskConditionModel::Finished(true),
        ),
        f.with_finished(FilterBoolean::FALSE).conditions() == (TaskFilterModel { finished: None, ..f }).conditions().push(
            TaskConditionModel::Finished(false),
        ),
{
    let base = (TaskFilterModel { finished: None, ..f }).conditions();
    assert(f.with_finished(FilterBoolean::TRUE).conditions() =~= base.push(TaskConditionModel::Finished(true)));
    assert(f.with_finished(FilterBoolean::FALSE).conditions() =~= base.push(TaskConditionModel::Finished(false)));
}

/// A description filter on a filter with no later column set adds, last, a
/// pattern `%v%` for a containment search and `v` itself for an equality.
pub proof fn law_description_condition_names_its_text(f: TaskFilterModel, v: Seq<char>)
    requires
        f.finished is None,
        f.deadline is None,
        f.created is None,
    ensures
        f.with_description(FilterContainable::CONTAIN(v)).conditions() == (TaskFilterModel {
            description: None,
            ..f
        }).conditions().push(TaskConditionModel::Description(TextConditionModel::Like(seq!['%'] + v + seq!['%']))),
        f.with_description(FilterContainable::EQUAL(v)).conditions() == (TaskFilterModel {
            description: None,
            ..f
        }).conditions().push(TaskConditionModel::Description(TextConditionModel::Equal(v))),
{
    let base = (TaskFilterModel { description: None, ..f }).conditions();
    assert(f.with_description(FilterContainable::CONTAIN(v)).conditions() =~= base.push(
        TaskConditionModel::Description(TextConditionModel::Like(seq!['%'] + v + seq!['%'])),
    ));
    assert(f.with_description(FilterContainable::EQUAL(v)).conditions() =~= base.push(
        TaskConditionModel::Description(TextConditionModel::Equal(v)),
    ));
}

/// Each comment filter setter records its column as given and leaves the
/// other as it was.
pub proof fn law_comment_setters_record_as_given(
    f: CommentFilterModel,
    t: FilterContainable<Seq<char>>,
    c: FilterOrderd<NaiveDateTime>,
)
    ensures
        f.with_content(t).content == Some(t) && f.with_content(t).created == f.created,
        f.with_created(c).created == Some(c) && f.with_created(c).content == f.content,
{
}

/// A comment creation filter adds, after the content condition, one
/// condition that carries the comparison the filter names and its moment.
pub proof fn law_comment_created_condition_names_its_comparison(f: CommentFilterModel, v: NaiveDateTime)
    ensures
        f.with_created(FilterOrderd::LT(v)).conditions() == (CommentFilterModel { created: None, ..f }).conditions().push(
            CommentConditionModel::Created(Comparison::Less, v),
        ),
        f.with_created(FilterOrderd::LE(v)).conditions() == (CommentFilterModel { created: None, ..f }).conditions().push(
            CommentConditionModel::Created(Comparison::LessOrEqual, v),
        ),
        f.with_created(FilterOrderd::EQ(v)).conditions() == (CommentFilterModel { created: None, ..f }).conditions().push(
            CommentConditionModel::Created(Comparison::Equal, v),
        ),
        f.with_created(FilterOrderd::GE(v)).conditions() == (CommentFilterModel { created: None, ..f }).conditions().push(
            CommentConditionModel::Created(Comparison::GreaterOrEqual, v),
        ),
        f.with_created(FilterOrderd::GT(v)).conditions() == (CommentFilterModel { created: None, ..f }).conditions().push(
            CommentConditionModel::Created(Comparison::Greater, v),
        ),
{
    let base = (CommentFilterModel { created: None, ..f }).conditions();
    assert(f.with_created(FilterOrderd::LT(v)).conditions() =~= base.push(CommentConditionModel::Created(Comparison::Less, v)));
    assert(f.with_created(FilterOrderd::LE(v)).conditions() =~= base.push(CommentConditionModel::Created(Comparison::LessOrEqual, v)));
    assert(f.with_created(FilterOrderd::EQ(v)).conditions() =~= base.push(CommentConditionModel::Created(Comparison::Equal, v)));
    assert(f.with_created(FilterOrderd::GE(v)).conditions() =~= base.push(CommentConditionModel::Created(Comparison::GreaterOrEqual, v)));
    assert(f.with_created(FilterOrderd::GT(v)).conditions() =~= base.push(CommentConditionModel::Created(Comparison::Greater, v)));
}

/// A content filter on a comment filter without a creation condition gives
/// the single condition `%v%` for a containment search and `v` for equality.
pub proof fn law_comment_content_condition_names_its_text(f: CommentFilterModel, v: Seq<char>)
    requires
        f.created is None,
    ensures
        f.with_content(FilterContainable::CONTAIN(v)).conditions() == seq![
            CommentConditionModel::Content(TextConditionModel::Like(seq!['%'] + v + seq!['%'])),
        ],
        f.with_content(FilterContainable::EQUAL(v)).conditions() == seq![
            CommentConditionModel::Content(TextConditionModel::Equal(v)),
        ],
{
    assert(f.with_content(FilterContainable::CONTAIN(v)).conditions() =~= seq![
        CommentConditionModel::Content(TextConditionModel::Like(seq!['%'] + v + seq!['%'])),
    ]);
    assert(f.with_content(FilterContainable::EQUAL(v)).conditions() =~= seq![
        CommentConditionModel::Content(TextConditionModel::Equal(v)),
    ]);
}

} // verus!


//! Tasks and their tags.

use crate::outside::fresh_id;
use crate::reconcile::{lemma_same_members, missing};
use crate::statement::{join, plan_view, Statement, StatementView};
use crate::text::{clone_texts, same_texts, texts_view};
use crate::user::ReadError;
use vstd::prelude::*;

verus! {

/// A question answered in free text.
#[derive(Debug)]
pub struct OpenQuestionTask {
    pub content: String,
}

/// A question answered by picking among choices.
#[derive(Debug)]
pub struct MultipleChoiceTask {
    pub choices: Vec<String>,
}

/// What a task asks, in one of its two shapes.
#[derive(Debug)]
pub enum TaskContent {
    Open(OpenQuestionTask),
    MultipleChoice(MultipleChoiceTask),
}

/// What a task content holds.
pub enum TaskContentView {
    Open(Seq<char>),
    MultipleChoice(Seq<Seq<char>>),
}

impl View for TaskContent {
    type V = TaskContentView;

    open spec fn view(&self) -> TaskContentView {
        match self {
            TaskContent::Open(question) => TaskContentView::Open(question.content@),
            TaskContent::MultipleChoice(question) => TaskContentView::MultipleChoice(
                texts_view(question.choices@),
            ),
        }
    }
}

/// A tag: an id and the name by which tags are told apart.
#[derive(Debug)]
pub struct Tag {
    pub id: u128,
    pub name: String,
}

/// What a tag holds.
pub struct TagView {
    pub id: u128,
    pub name: Seq<char>,
}

impl View for Tag {
    type V = TagView;

    open spec fn view(&self) -> TagView {
        TagView { id: self.id, name: self.name@ }
    }
}

/// What each tag of a list holds.
pub open spec fn tags_view(tags: Seq<Tag>) -> Seq<TagView> {
    tags.map_values(|tag: Tag| tag@)
}

/// One row of the tasks table.
#[derive(Debug)]
pub struct TaskRow {
    pub id: u128,
    pub title: String,
    pub content: TaskContent,
}

/// What a tasks row holds.
pub struct TaskRowView {
    pub id: u128,
    pub title: Seq<char>,
    pub content: TaskContentView,
}

impl View for TaskRow {
    type V = TaskRowView;

    open spec fn view(&self) -> TaskRowView {
        TaskRowView { id: self.id, title: self.title@, content: self.content@ }
    }
}

/// A task with its tags. `tags` is a set: no tag occurs in it twice.
#[derive(Debug)]
pub struct Task {
    pub id: u128,
    pub title: String,
    pub content: TaskContent,
    pub tags: Vec<Tag>,
}

/// What a task holds: the row of the tasks table and the tags.
pub struct TaskView {
    pub row: TaskRowView,
    pub tags: Seq<TagView>,
}

impl View for Task {
    type V = TaskView;

    open spec fn view(&self) -> TaskView {
        TaskView {
            row: TaskRowView { id: self.id, title: self.title@, content: self.content@ },
            tags: tags_view(self.tags@),
        }
    }
}

/// A tasks row as it comes from the store. `content` is `None` where the
/// stored payload is not a task content of either shape.
#[derive(Debug)]
pub struct StoredTask {
    pub id: u128,
    pub title: String,
    pub content: Option<TaskContent>,
}

/// The id of the first of `known` that goes by `name`.
pub open spec fn named(known: Seq<TagView>, name: Seq<char>) -> Option<u128>
    decreases known.len(),
{
    if known.len() == 0 {
        None
    } else if known[0].name == name {
        Some(known[0].id)
    } else {
        named(known.drop_first(), name)
    }
}

/// The statements that link a task to each of `tags` in turn. A tag whose name
/// is known, from the store or from an earlier tag of the same list, is linked
/// under the id known for that name; any other tag is inserted first and then
/// linked under its own id.
pub open spec fn link_plan(task: u128, tags: Seq<TagView>, known: Seq<TagView>) -> Seq<
    StatementView,
>
    decreases tags.len(),
{
    if tags.len() == 0 {
        Seq::empty()
    } else {
        match named(known, tags[0].name) {
            Some(id) => seq![StatementView::InsertTaskTag(task, id)] + link_plan(
                task,
                tags.drop_first(),
                known,
            ),
            None => seq![
                StatementView::InsertTag(tags[0]),
                StatementView::InsertTaskTag(task, tags[0].id),
            ] + link_plan(task, tags.drop_first(), known.push(tags[0])),
        }
    }
}

/// The statements that take the links of a task to each of `tags` away.
pub open spec fn unlink_plan(task: u128, tags: Seq<TagView>) -> Seq<StatementView> {
    tags.map_values(|tag: TagView| StatementView::DeleteTaskTag(task, tag.id))
}

/// The plan that stores a new task: its row, then its tags.
pub open spec fn creation_plan(task: TaskView, known: Seq<TagView>) -> Seq<StatementView> {
    seq![StatementView::InsertTask(task.row)] + link_plan(task.row.id, task.tags, known)
}

/// Whether two tasks have the same id, title, content and set of tags.
pub open spec fn same_task(left: TaskView, right: TaskView) -> bool {
    left.row == right.row && left.tags.to_set() == right.tags.to_set()
}

/// The plan that brings the stored task `persisted` in line with `task`:
/// nothing if they are the same; otherwise the row is written, the tags that
/// only the stored task has are unlinked, and those that only `task` has are
/// linked.
pub open spec fn update_plan(task: TaskView, persisted: TaskView, known: Seq<TagView>) -> Seq<
    StatementView,
> {
    if same_task(task, persisted) {
        Seq::empty()
    } else {
        seq![StatementView::UpdateTask(task.row)] + unlink_plan(
            task.row.id,
            missing(persisted.tags, task.tags),
        ) + link_plan(task.row.id, missing(task.tags, persisted.tags), known)
    }
}

/// The plan that removes a task: its links to tags first, then its row.
pub open spec fn deletion_plan(id: u128) -> Seq<StatementView> {
    seq![StatementView::DeleteTaskTagsOf(id), StatementView::DeleteTask(id)]
}

impl TaskContent {
    /// A copy of the content.
    pub fn clone_content(&self) -> (copy: TaskContent)
        ensures
            copy@ == self@,
    {
        match self {
            TaskContent::Open(question) => TaskContent::Open(
                OpenQuestionTask { content: question.content.clone() },
            ),
            TaskContent::MultipleChoice(question) => TaskContent::MultipleChoice(
                MultipleChoiceTask { choices: clone_texts(&question.choices) },
            ),
        }
    }

    /// Whether two contents have the same shape and hold the same texts.
    pub fn same(&self, other: &TaskContent) -> (same: bool)
        ensures
            same == (self@ == other@),
    {
        match (self, other) {
            (TaskContent::Open(a), TaskContent::Open(b)) => a.content == b.content,
            (TaskContent::MultipleChoice(a), TaskContent::MultipleChoice(b)) => same_texts(
                &a.choices,
                &b.choices,
            ),
            _ => false,
        }
    }
}

impl Tag {
    /// The tag that goes by `name`: under the id that the store already has
    /// for that name, if it has one, and under a fresh id otherwise.
    pub fn new(name: String, existing: Option<u128>) -> (tag: Tag)
        ensures
            tag.name == name,
            existing matches Some(id) ==> tag.id == id,
    {
        match existing {
            Some(id) => Tag { id, name },
            None => Tag { id: fresh_id(), name },
        }
    }

    /// A copy of the tag.
    pub fn clone_tag(&self) -> (copy: Tag)
        ensures
            copy == *self,
    {
        Tag { id: self.id, name: self.name.clone() }
    }

    /// Whether two tags have the same id and name.
    pub fn same(&self, other: &Tag) -> (same: bool)
        ensures
            same == (self@ == other@),
    {
        self.id == other.id && self.name == other.name
    }
}

/// The id of the first of `known` that goes by `name`.
pub fn find_named(known: &Vec<Tag>, name: &String) -> (id: Option<u128>)
    ensures
        id == named(tags_view(known@), name@),
{
    let ghost all = tags_view(known@);
    let mut i: usize = 0;
    assert(all.skip(0) == all);
    while i < known.len()
        invariant
            i <= known.len(),
            all == tags_view(known@),
            named(all, name@) == named(all.skip(i as int), name@),
        decreases known.len() - i,
    {
        assert(all.skip(i as int)[0] == known@[i as int]@);
        if known[i].name == *name {
            return Some(known[i].id);
        }
        assert(all.skip(i as int).drop_first() == all.skip(i + 1));
        i += 1;
    }
    None
}

/// Whether `tags` holds `tag`.
pub fn contains_tag(tags: &Vec<Tag>, tag: &Tag) -> (found: bool)
    ensures
        found == tags_view(tags@).contains(tag@),
{
    let mut i: usize = 0;
    while i < tags.len()
        invariant
            i <= tags.len(),
            forall|j: int| 0 <= j < i ==> tags_view(tags@)[j] != tag@,
        decreases tags.len() - i,
    {
        if tags[i].same(tag) {
            assert(tags_view(tags@)[i as int] == tag@);
            return true;
        }
        i += 1;
    }
    false
}

/// The tags of `wanted` that `present` lacks, each once.
pub fn tags_difference(wanted: &Vec<Tag>, present: &Vec<Tag>) -> (found: Vec<Tag>)
    ensures
        tags_view(found@) == missing(tags_view(wanted@), tags_view(present@)),
{
    let ghost all = tags_view(wanted@);
    let mut found: Vec<Tag> = Vec::new();
    let mut i: usize = 0;
    assert(tags_view(found@) =~= Seq::<TagView>::empty());
    while i < wanted.len()
        invariant
            i <= wanted.len(),
            all == tags_view(wanted@),
            tags_view(found@) == missing(all.take(i as int), tags_view(present@)),
        decreases wanted.len() - i,
    {
        proof {
            assert(all.take(i + 1).drop_last() == all.take(i as int));
            assert(all.take(i + 1).last() == wanted@[i as int]@);
        }
        if !contains_tag(present, &wanted[i]) && !contains_tag(&found, &wanted[i]) {
            let ghost before = tags_view(found@);
            found.push(wanted[i].clone_tag());
            assert(tags_view(found@) =~= before.push(wanted@[i as int]@));
        }
        i += 1;
    }
    assert(all.take(all.len() as int) == all);
    found
}

/// Whether two lists hold the same tags, whatever their order.
pub fn same_tags(left: &Vec<Tag>, right: &Vec<Tag>) -> (same: bool)
    ensures
        same == (tags_view(left@).to_set() == tags_view(right@).to_set()),
{
    let only_left = tags_difference(left, right);
    let only_right = tags_difference(right, left);
    proof {
        lemma_same_members(tags_view(left@), tags_view(right@));
    }
    only_left.len() == 0 && only_right.len() == 0
}

/// The statements that link a task to each of `tags` in turn, given the tags
/// that the store is known to hold.
pub fn link_tags(task: u128, tags: &Vec<Tag>, known: &Vec<Tag>) -> (plan: Vec<Statement>)
    ensures
        plan_view(plan@) == link_plan(task, tags_view(tags@), tags_view(known@)),
{
    let ghost all = tags_view(tags@);
    let ghost goal = link_plan(task, tags_view(tags@), tags_view(known@));
    let mut seen: Vec<Tag> = Vec::new();
    let mut k: usize = 0;
    while k < known.len()
        invariant
            k <= known.len(),
            seen@ == known@.take(k as int),
        decreases known.len() - k,
    {
        seen.push(known[k].clone_tag());
        k += 1;
    }
    assert(known@.take(known@.len() as int) == known@);
    let mut plan: Vec<Statement> = Vec::new();
    let mut i: usize = 0;
    assert(all.skip(0) == all);
    assert(plan_view(plan@) =~= Seq::<StatementView>::empty());
    assert(Seq::<StatementView>::empty() + goal == goal);
    while i < tags.len()
        invariant
            i <= tags.len(),
            all == tags_view(tags@),
            plan_view(plan@) + link_plan(task, all.skip(i as int), tags_view(seen@)) == goal,
        decreases tags.len() - i,
    {
        let ghost rest = all.skip(i as int);
        let ghost before = plan_view(plan@);
        let ghost seen_before = tags_view(seen@);
        assert(rest[0] == tags@[i as int]@);
        assert(rest.drop_first() == all.skip(i + 1));
        match find_named(&seen, &tags[i].name) {
            Some(id) => {
                plan.push(Statement::InsertTaskTag(task, id));
                assert(plan_view(plan@) =~= before + seq![StatementView::InsertTaskTag(task, id)]);
                assert(plan_view(plan@) + link_plan(task, all.skip(i + 1), seen_before) =~= before
                    + (seq![StatementView::InsertTaskTag(task, id)] + link_plan(
                    task,
                    rest.drop_first(),
                    seen_before,
                )));
            },
            None => {
                plan.push(Statement::InsertTag(tags[i].clone_tag()));
                plan.push(Statement::InsertTaskTag(task, tags[i].id));
                seen.push(tags[i].clone_tag());
                assert(tags_view(seen@) =~= seen_before.push(rest[0]));
                assert(plan_view(plan@) =~= before + seq![
                    StatementView::InsertTag(rest[0]),
                    StatementView::InsertTaskTag(task, rest[0].id),
                ]);
                assert(plan_view(plan@) + link_plan(task, all.skip(i + 1), tags_view(seen@)) =~= before
                    + (seq![
                    StatementView::InsertTag(rest[0]),
                    StatementView::InsertTaskTag(task, rest[0].id),
                ] + link_plan(task, rest.drop_first(), seen_before.push(rest[0]))));
            },
        }
        i += 1;
    }
    assert(plan_view(plan@) + Seq::<StatementView>::empty() == plan_view(plan@));
    plan
}

/// The statements that take the links of a task to each of `tags` away.
pub fn unlink_tags(task: u128, tags: &Vec<Tag>) -> (plan: Vec<Statement>)
    ensures
        plan_view(plan@) == unlink_plan(task, tags_view(tags@)),
{
    let mut plan: Vec<Statement> = Vec::new();
    let mut i: usize = 0;
    while i < tags.len()
        invariant
            i <= tags.len(),
            plan@.len() == i,
            forall|j: int| 0 <= j < i ==> plan@[j]@ == StatementView::DeleteTaskTag(task, tags@[j].id),
        decreases tags.len() - i,
    {
        plan.push(Statement::DeleteTaskTag(task, tags[i].id));
        i += 1;
    }
    assert(plan_view(plan@) =~= unlink_plan(task, tags_view(tags@)));
    plan
}

impl Task {
    /// No tag occurs twice among the tags.
    pub open spec fn well_formed(&self) -> bool {
        tags_view(self.tags@).no_duplicates()
    }

    /// A new task under a fresh id, with each of `tags` once.
    pub fn new(title: String, content: TaskContent, tags: Vec<Tag>) -> (task: Task)
        ensures
            task.title == title,
            task.content == content,
            task@.tags == missing(tags_view(tags@), Seq::empty()),
            task.well_formed(),
    {
        Task::with_id(fresh_id(), title, content, tags)
    }

    /// A task under the given id, with each of `tags` once.
    pub fn with_id(id: u128, title: String, content: TaskContent, tags: Vec<Tag>) -> (task: Task)
        ensures
            task.id == id,
            task.title == title,
            task.content == content,
            task@.tags == missing(tags_view(tags@), Seq::empty()),
            task.well_formed(),
    {
        let none: Vec<Tag> = Vec::new();
        assert(tags_view(none@) =~= Seq::<TagView>::empty());
        let distinct = tags_difference(&tags, &none);
        proof {
            crate::reconcile::lemma_missing_is_difference(
                tags_view(tags@),
                Seq::<TagView>::empty(),
            );
        }
        Task { id, title, content, tags: distinct }
    }

    /// The row of the tasks table that holds the task.
    pub fn row(&self) -> (row: TaskRow)
        ensures
            row@ == self@.row,
    {
        TaskRow { id: self.id, title: self.title.clone(), content: self.content.clone_content() }
    }

    /// The plan that stores the task: its row, then a link to each of its
    /// tags. `known_tags` are the tags that the store holds under the names of
    /// the tags of the task; a tag whose name is among them is linked under the
    /// stored id and not inserted again.
    pub fn create(&self, known_tags: &Vec<Tag>) -> (plan: Vec<Statement>)
        ensures
            plan_view(plan@) == creation_plan(self@, tags_view(known_tags@)),
    {
        let mut plan: Vec<Statement> = Vec::new();
        plan.push(Statement::InsertTask(self.row()));
        assert(plan_view(plan@) =~= seq![StatementView::InsertTask(self@.row)]);
        join(plan, link_tags(self.id, &self.tags, known_tags))
    }

    /// Puts together the task that the store holds: its row, if there is one,
    /// and the tags linked to it.
    pub fn read(row: Option<StoredTask>, tags: Vec<Tag>) -> (task: Result<Task, ReadError>)
        ensures
            match row {
                None => task == Err::<Task, ReadError>(ReadError::NotFound),
                Some(stored) => match stored.content {
                    None => task == Err::<Task, ReadError>(ReadError::BadPayload),
                    Some(content) => {
                        &&& task matches Ok(found)
                        &&& found.id == stored.id
                        &&& found.title == stored.title
                        &&& found.content == content
                        &&& found@.tags == missing(tags_view(tags@), Seq::empty())
                        &&& found.well_formed()
                    },
                },
            },
    {
        match row {
            None => Err(ReadError::NotFound),
            Some(stored) => match stored.content {
                None => Err(ReadError::BadPayload),
                Some(content) => Ok(Task::with_id(stored.id, stored.title, content, tags)),
            },
        }
    }

    /// The plan that brings the store in line with the task, given the task
    /// as the store holds it. `known_tags` is as for `create`.
    pub fn update(&self, persisted: &Task, known_tags: &Vec<Tag>) -> (plan: Vec<Statement>)
        ensures
            plan_view(plan@) == update_plan(self@, persisted@, tags_view(known_tags@)),
    {
        if self.eq(persisted) {
            let plan: Vec<Statement> = Vec::new();
            assert(plan_view(plan@) =~= Seq::<StatementView>::empty());
            return plan;
        }
        let mut plan: Vec<Statement> = Vec::new();
        plan.push(Statement::UpdateTask(self.row()));
        assert(plan_view(plan@) =~= seq![StatementView::UpdateTask(self@.row)]);
        let to_remove = tags_difference(&persisted.tags, &self.tags);
        let to_add = tags_difference(&self.tags, &persisted.tags);
        let plan = join(plan, unlink_tags(self.id, &to_remove));
        join(plan, link_tags(self.id, &to_add, known_tags))
    }

    /// The plan that removes the task `id`: its links to tags, then its row.
    pub fn delete(id: u128) -> (plan: Vec<Statement>)
        ensures
            plan_view(plan@) == deletion_plan(id),
    {
        let mut plan: Vec<Statement> = Vec::new();
        plan.push(Statement::DeleteTaskTagsOf(id));
        plan.push(Statement::DeleteTask(id));
        assert(plan_view(plan@) =~= deletion_plan(id));
        plan
    }
}

impl PartialEq for OpenQuestionTask {
    fn eq(&self, other: &OpenQuestionTask) -> (same: bool) {
        self.content == other.content
    }
}

impl vstd::std_specs::cmp::PartialEqSpecImpl for OpenQuestionTask {
    open spec fn obeys_eq_spec() -> bool {
        true
    }

    open spec fn eq_spec(&self, other: &OpenQuestionTask) -> bool {
        self.content@ == other.content@
    }
}

impl PartialEq for MultipleChoiceTask {
    fn eq(&self, other: &MultipleChoiceTask) -> (same: bool) {
        same_texts(&self.choices, &other.choices)
    }
}

impl vstd::std_specs::cmp::PartialEqSpecImpl for MultipleChoiceTask {
    open spec fn obeys_eq_spec() -> bool {
        true
    }

    open spec fn eq_spec(&self, other: &MultipleChoiceTask) -> bool {
        texts_view(self.choices@) == texts_view(other.choices@)
    }
}

impl PartialEq for TaskContent {
    fn eq(&self, other: &TaskContent) -> (same: bool) {
        self.same(other)
    }
}

impl vstd::std_specs::cmp::PartialEqSpecImpl for TaskContent {
    open spec fn obeys_eq_spec() -> bool {
        true
    }

    open spec fn eq_spec(&self, other: &TaskContent) -> bool {
        self@ == other@
    }
}

impl PartialEq for Tag {
    fn eq(&self, other: &Tag) -> (same: bool) {
        self.same(other)
    }
}

impl vstd::std_specs::cmp::PartialEqSpecImpl for Tag {
    open spec fn obeys_eq_spec() -> bool {
        true
    }

    open spec fn eq_spec(&self, other: &Tag) -> bool {
        self@ == other@
    }
}

impl PartialEq for Task {
    /// Two tasks are equal when they have the same id, title, content and set
    /// of tags.
    fn eq(&self, other: &Task) -> (same: bool) {
        self.id == other.id && self.title == other.title && self.content.same(&other.content)
            && same_tags(&self.tags, &other.tags)
    }
}

impl vstd::std_specs::cmp::PartialEqSpecImpl for Task {
    open spec fn obeys_eq_spec() -> bool {
        true
    }

    open spec fn eq_spec(&self, other: &Task) -> bool {
        same_task(self@, other@)
    }
}

} // verus!

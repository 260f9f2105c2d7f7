use backend::statement::{join, Statement};
use backend::task::{
    contains_tag, find_named, link_tags, same_tags, tags_difference, unlink_tags,
    MultipleChoiceTask, OpenQuestionTask, StoredTask, Tag, Task, TaskContent,
};
use backend::user::ReadError;

fn text(value: &str) -> String {
    value.to_string()
}

fn tag(id: u128, name: &str) -> Tag {
    Tag { id, name: text(name) }
}

fn open(question: &str) -> TaskContent {
    TaskContent::Open(OpenQuestionTask { content: text(question) })
}

fn choices(options: &[&str]) -> TaskContent {
    TaskContent::MultipleChoice(MultipleChoiceTask {
        choices: options.iter().map(|option| text(option)).collect(),
    })
}

#[test]
fn tag_takes_the_stored_id_if_there_is_one() {
    let known = Tag::new(text("AI"), Some(7));
    assert_eq!(known, tag(7, "AI"));
    let fresh = Tag::new(text("AI"), None);
    assert_eq!(fresh.name, "AI");
    assert_ne!(Tag::new(text("AI"), None).id, fresh.id);
}

#[test]
fn new_task_holds_each_tag_once() {
    let task = Task::new(
        text("Test task"),
        open("Code an AGI."),
        vec![tag(1, "AI"), tag(2, "AGI"), tag(1, "AI"), tag(1, "AGI")],
    );
    assert_eq!(task.title, "Test task");
    assert_eq!(task.content, open("Code an AGI."));
    assert_eq!(task.tags, vec![tag(1, "AI"), tag(2, "AGI"), tag(1, "AGI")]);
    assert_ne!(Task::new(text("x"), open("y"), vec![]).id, task.id);
}

#[test]
fn tasks_compare_their_tags_as_sets() {
    let a = Task::with_id(1, text("t"), open("q"), vec![tag(1, "AI"), tag(2, "AGI")]);
    let b = Task::with_id(1, text("t"), open("q"), vec![tag(2, "AGI"), tag(1, "AI")]);
    assert_eq!(a, b);
    assert_ne!(a, Task::with_id(2, text("t"), open("q"), vec![tag(1, "AI"), tag(2, "AGI")]));
    assert_ne!(a, Task::with_id(1, text("u"), open("q"), vec![tag(1, "AI"), tag(2, "AGI")]));
    assert_ne!(a, Task::with_id(1, text("t"), open("r"), vec![tag(1, "AI"), tag(2, "AGI")]));
    assert_ne!(a, Task::with_id(1, text("t"), open("q"), vec![tag(1, "AI")]));
    assert_ne!(a, Task::with_id(1, text("t"), open("q"), vec![tag(1, "AI"), tag(3, "AGI")]));
    assert_ne!(a, Task::with_id(1, text("t"), choices(&["q"]), vec![tag(1, "AI"), tag(2, "AGI")]));
}

#[test]
fn contents_compare_by_shape_and_text() {
    assert_eq!(open("a"), open("a"));
    assert_ne!(open("a"), open("b"));
    assert_eq!(choices(&["a", "b"]), choices(&["a", "b"]));
    assert_ne!(choices(&["a", "b"]), choices(&["b", "a"]));
    assert_ne!(choices(&["a"]), open("a"));
    assert_eq!(choices(&["a", "b"]).clone_content(), choices(&["a", "b"]));
    assert!(open("a").same(&open("a").clone_content()));
}

#[test]
fn tag_lists_are_searched_and_compared() {
    let tags = vec![tag(1, "AI"), tag(2, "AGI"), tag(3, "AI")];
    assert_eq!(find_named(&tags, &text("AI")), Some(1));
    assert_eq!(find_named(&tags, &text("AGI")), Some(2));
    assert_eq!(find_named(&tags, &text("ai")), None);
    assert_eq!(find_named(&vec![], &text("AI")), None);
    assert!(contains_tag(&tags, &tag(3, "AI")));
    assert!(!contains_tag(&tags, &tag(3, "AGI")));
    assert_eq!(tags_difference(&tags, &vec![tag(1, "AI")]), vec![tag(2, "AGI"), tag(3, "AI")]);
    assert!(same_tags(&tags, &vec![tag(3, "AI"), tag(2, "AGI"), tag(1, "AI"), tag(1, "AI")]));
    assert!(!same_tags(&tags, &vec![tag(1, "AI"), tag(2, "AGI")]));
}

#[test]
fn create_inserts_unknown_tags_and_links_all() {
    let task = Task::with_id(10, text("t"), open("q"), vec![tag(1, "AI"), tag(2, "AGI")]);
    let plan = task.create(&vec![tag(77, "AGI")]);
    assert_eq!(plan.len(), 4);
    assert!(matches!(&plan[0], Statement::InsertTask(row) if row.id == 10 && row.title == "t" && row.content == open("q")));
    assert!(matches!(&plan[1], Statement::InsertTag(new) if *new == tag(1, "AI")));
    assert!(matches!(&plan[2], Statement::InsertTaskTag(10, 1)));
    assert!(matches!(&plan[3], Statement::InsertTaskTag(10, 77)));
}

#[test]
fn create_without_tags_inserts_the_row_alone() {
    let task = Task::with_id(10, text("t"), choices(&["a", "b"]), vec![]);
    let plan = task.create(&vec![]);
    assert_eq!(plan.len(), 1);
    assert!(matches!(&plan[0], Statement::InsertTask(row) if row.content == choices(&["a", "b"])));
}

#[test]
fn linking_reuses_a_name_met_earlier_in_the_same_list() {
    let plan = link_tags(10, &vec![tag(1, "AI"), tag(2, "AI"), tag(3, "ML")], &vec![]);
    assert_eq!(plan.len(), 5);
    assert!(matches!(&plan[0], Statement::InsertTag(new) if *new == tag(1, "AI")));
    assert!(matches!(&plan[1], Statement::InsertTaskTag(10, 1)));
    assert!(matches!(&plan[2], Statement::InsertTaskTag(10, 1)));
    assert!(matches!(&plan[3], Statement::InsertTag(new) if *new == tag(3, "ML")));
    assert!(matches!(&plan[4], Statement::InsertTaskTag(10, 3)));
    assert!(link_tags(10, &vec![], &vec![tag(1, "AI")]).is_empty());
}

#[test]
fn unlinking_and_joining() {
    let plan = unlink_tags(10, &vec![tag(1, "AI"), tag(2, "AGI")]);
    assert_eq!(plan.len(), 2);
    assert!(matches!(&plan[0], Statement::DeleteTaskTag(10, 1)));
    assert!(matches!(&plan[1], Statement::DeleteTaskTag(10, 2)));
    let joined = join(plan, vec![Statement::DeleteTask(10)]);
    assert_eq!(joined.len(), 3);
    assert!(matches!(&joined[2], Statement::DeleteTask(10)));
    assert!(matches!(&joined[0], Statement::DeleteTaskTag(10, 1)));
}

#[test]
fn read_puts_row_and_tags_together() {
    let row = StoredTask { id: 4, title: text("t"), content: Some(open("q")) };
    let task = Task::read(Some(row), vec![tag(1, "AI"), tag(1, "AI"), tag(2, "AGI")]).unwrap();
    assert_eq!(task.id, 4);
    assert_eq!(task.title, "t");
    assert_eq!(task.content, open("q"));
    assert_eq!(task.tags, vec![tag(1, "AI"), tag(2, "AGI")]);
}

#[test]
fn read_tells_missing_from_undecodable() {
    assert_eq!(Task::read(None, vec![tag(1, "AI")]), Err(ReadError::NotFound));
    let row = StoredTask { id: 4, title: text("t"), content: None };
    assert_eq!(Task::read(Some(row), vec![]), Err(ReadError::BadPayload));
}

#[test]
fn update_of_the_same_task_is_empty() {
    let task = Task::with_id(1, text("t"), open("q"), vec![tag(1, "AI"), tag(2, "AGI")]);
    let persisted = Task::with_id(1, text("t"), open("q"), vec![tag(2, "AGI"), tag(1, "AI")]);
    assert!(task.update(&persisted, &vec![tag(1, "AI"), tag(2, "AGI")]).is_empty());
}

#[test]
fn update_writes_the_row_unlinks_then_links() {
    let task = Task::with_id(1, text("t2"), open("q"), vec![tag(1, "AI"), tag(5, "New Tag"), tag(6, "ML")]);
    let persisted = Task::with_id(1, text("t"), open("q"), vec![tag(1, "AI"), tag(2, "AGI")]);
    let plan = task.update(&persisted, &vec![tag(1, "AI"), tag(9, "ML")]);
    assert_eq!(plan.len(), 5);
    assert!(matches!(&plan[0], Statement::UpdateTask(row) if row.id == 1 && row.title == "t2"));
    assert!(matches!(&plan[1], Statement::DeleteTaskTag(1, 2)));
    assert!(matches!(&plan[2], Statement::InsertTag(new) if *new == tag(5, "New Tag")));
    assert!(matches!(&plan[3], Statement::InsertTaskTag(1, 5)));
    assert!(matches!(&plan[4], Statement::InsertTaskTag(1, 9)));
}

#[test]
fn update_of_the_content_alone_leaves_tags_alone() {
    let task = Task::with_id(1, text("t"), open("q2"), vec![tag(1, "AI")]);
    let persisted = Task::with_id(1, text("t"), open("q"), vec![tag(1, "AI")]);
    let plan = task.update(&persisted, &vec![tag(1, "AI")]);
    assert_eq!(plan.len(), 1);
    assert!(matches!(&plan[0], Statement::UpdateTask(row) if row.content == open("q2")));
}

#[test]
fn delete_unlinks_before_it_removes_the_row() {
    let plan = Task::delete(3);
    assert_eq!(plan.len(), 2);
    assert!(matches!(&plan[0], Statement::DeleteTaskTagsOf(3)));
    assert!(matches!(&plan[1], Statement::DeleteTask(3)));
}

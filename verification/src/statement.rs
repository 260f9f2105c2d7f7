//! The statements that change the store.
//!
//! The library never talks to the store. Each operation on an entity yields a
//! plan, a list of statements, which the caller runs inside one transaction.
//! What a statement does to the store is defined in the `store` module.

use crate::answer::{Answer, AnswerView};
use crate::session::Session;
use crate::task::{Tag, TagView, TaskRow, TaskRowView};
use crate::user::{UserProgress, UserRow, UserRowView};
use vstd::prelude::*;

verus! {

/// One change to one table.
#[derive(Debug)]
pub enum Statement {
    InsertUser(UserRow),
    UpdateUser(UserRow),
    DeleteUser(u128),
    InsertProgress(u128, UserProgress),
    UpdateProgress(u128, UserProgress),
    DeleteProgress(u128),
    /// Adds the link from the first user to the second.
    InsertFriend(u128, u128),
    /// Removes the link from the first user to the second.
    DeleteFriend(u128, u128),
    /// Removes every link that starts or ends at the user.
    DeleteFriendsOf(u128),
    InsertSession(Session),
    /// Removes the session that carries the token.
    DeleteSession(u128),
    /// Removes every session of the user.
    DeleteSessionsOf(u128),
    InsertTask(TaskRow),
    UpdateTask(TaskRow),
    DeleteTask(u128),
    InsertTag(Tag),
    /// Links the task (first) to the tag (second).
    InsertTaskTag(u128, u128),
    /// Removes the link of the task (first) to the tag (second).
    DeleteTaskTag(u128, u128),
    /// Removes every link of the task.
    DeleteTaskTagsOf(u128),
    InsertAnswer(Answer),
    UpdateAnswer(Answer),
    DeleteAnswer(u128),
    /// Removes every answer of the user.
    DeleteAnswersOf(u128),
}

/// What a statement holds.
pub enum StatementView {
    InsertUser(UserRowView),
    UpdateUser(UserRowView),
    DeleteUser(u128),
    InsertProgress(u128, UserProgress),
    UpdateProgress(u128, UserProgress),
    DeleteProgress(u128),
    InsertFriend(u128, u128),
    DeleteFriend(u128, u128),
    DeleteFriendsOf(u128),
    InsertSession(Session),
    DeleteSession(u128),
    DeleteSessionsOf(u128),
    InsertTask(TaskRowView),
    UpdateTask(TaskRowView),
    DeleteTask(u128),
    InsertTag(TagView),
    InsertTaskTag(u128, u128),
    DeleteTaskTag(u128, u128),
    DeleteTaskTagsOf(u128),
    InsertAnswer(AnswerView),
    UpdateAnswer(AnswerView),
    DeleteAnswer(u128),
    DeleteAnswersOf(u128),
}

impl View for Statement {
    type V = StatementView;

    open spec fn view(&self) -> StatementView {
        match self {
            Statement::InsertUser(row) => StatementView::InsertUser(row@),
            Statement::UpdateUser(row) => StatementView::UpdateUser(row@),
            Statement::DeleteUser(id) => StatementView::DeleteUser(*id),
            Statement::InsertProgress(id, progress) => StatementView::InsertProgress(
                *id,
                *progress,
            ),
            Statement::UpdateProgress(id, progress) => StatementView::UpdateProgress(
                *id,
                *progress,
            ),
            Statement::DeleteProgress(id) => StatementView::DeleteProgress(*id),
            Statement::InsertFriend(from, to) => StatementView::InsertFriend(*from, *to),
            Statement::DeleteFriend(from, to) => StatementView::DeleteFriend(*from, *to),
            Statement::DeleteFriendsOf(id) => StatementView::DeleteFriendsOf(*id),
            Statement::InsertSession(session) => StatementView::InsertSession(*session),
            Statement::DeleteSession(token) => StatementView::DeleteSession(*token),
            Statement::DeleteSessionsOf(id) => StatementView::DeleteSessionsOf(*id),
            Statement::InsertTask(row) => StatementView::InsertTask(row@),
            Statement::UpdateTask(row) => StatementView::UpdateTask(row@),
            Statement::DeleteTask(id) => StatementView::DeleteTask(*id),
            Statement::InsertTag(tag) => StatementView::InsertTag(tag@),
            Statement::InsertTaskTag(task, tag) => StatementView::InsertTaskTag(*task, *tag),
            Statement::DeleteTaskTag(task, tag) => StatementView::DeleteTaskTag(*task, *tag),
            Statement::DeleteTaskTagsOf(task) => StatementView::DeleteTaskTagsOf(*task),
            Statement::InsertAnswer(answer) => StatementView::InsertAnswer(answer@),
            Statement::UpdateAnswer(answer) => StatementView::UpdateAnswer(answer@),
            Statement::DeleteAnswer(id) => StatementView::DeleteAnswer(*id),
            Statement::DeleteAnswersOf(id) => StatementView::DeleteAnswersOf(*id),
        }
    }
}

/// What each statement of a plan holds.
pub open spec fn plan_view(plan: Seq<Statement>) -> Seq<StatementView> {
    plan.map_values(|statement: Statement| statement@)
}

/// Joins two plans into one, to be run as one transaction: the statements of
/// the first, then those of the second.
pub fn join(first: Vec<Statement>, second: Vec<Statement>) -> (plan: Vec<Statement>)
    ensures
        plan@ == first@ + second@,
        plan_view(plan@) == plan_view(first@) + plan_view(second@),
{
    let mut plan = first;
    let mut rest = second;
    plan.append(&mut rest);
    assert(plan_view(plan@) =~= plan_view(first@) + plan_view(second@));
    plan
}

} // verus!

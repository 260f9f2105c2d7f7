//! Requests on answers.

use crate::answer::{Answer, AnswerContent, VerifyStep};
use crate::outside::fresh_id;
use crate::server::{Grant, Rejection};
use crate::statement::{plan_view, Statement, StatementView};
use crate::user::AuthorizationError;
use vstd::prelude::*;

verus! {

/// What a request that hands in an answer carries.
#[derive(Debug)]
pub struct AnswerForm {
    pub user_id: u128,
    pub task_id: u128,
    pub content: Option<AnswerContent>,
}

impl AnswerForm {
    /// The answer that the form hands in, under a fresh id.
    pub fn into_answer(self) -> (answer: Answer)
        ensures
            answer.user_id == self.user_id,
            answer.task_id == self.task_id,
            answer.content == self.content,
    {
        Answer {
            id: fresh_id(),
            user_id: self.user_id,
            task_id: self.task_id,
            content: self.content,
        }
    }
}

/// Takes in the answer of a form, for a request that holds a grant for the
/// user of the form: the answer under a fresh id, the plan that stores it,
/// and the first step of grading it. The plan is to be committed before the
/// grading service is asked.
pub fn post(grant: &Grant, answer_form: AnswerForm) -> (result: Result<
    (Answer, Vec<Statement>, VerifyStep),
    Rejection,
>)
    ensures
        if grant.user_id() == answer_form.user_id {
            &&& result matches Ok((answer, plan, step))
            &&& answer.user_id == answer_form.user_id
            &&& answer.task_id == answer_form.task_id
            &&& answer.content == answer_form.content
            &&& plan_view(plan@) == seq![StatementView::InsertAnswer(answer@)]
            &&& crate::answer::first_step(answer.content, step)
        } else {
            result == Err::<(Answer, Vec<Statement>, VerifyStep), Rejection>(
                Rejection::Denied(AuthorizationError::NotAuthorized),
            )
        },
{
    if grant.user_id() != answer_form.user_id {
        return Err(Rejection::Denied(AuthorizationError::NotAuthorized));
    }
    let answer = answer_form.into_answer();
    let plan = answer.create();
    let step = answer.verify();
    Ok((answer, plan, step))
}

/// The plan that brings the stored answer `persisted` in line with `answer`,
/// for a request that holds a grant for the user of both.
pub fn put(grant: &Grant, answer: &Answer, persisted: &Answer) -> (result: Result<
    Vec<Statement>,
    Rejection,
>)
    ensures
        if grant.user_id() == answer.user_id && grant.user_id() == persisted.user_id {
            result matches Ok(plan) && plan_view(plan@) == crate::answer::update_plan(
                answer@,
                persisted@,
            )
        } else {
            result == Err::<Vec<Statement>, Rejection>(
                Rejection::Denied(AuthorizationError::NotAuthorized),
            )
        },
{
    if grant.user_id() != answer.user_id || grant.user_id() != persisted.user_id {
        return Err(Rejection::Denied(AuthorizationError::NotAuthorized));
    }
    Ok(answer.update(persisted))
}

/// The plan that removes the stored answer `stored`, for a request that
/// holds a grant for the user of that answer.
pub fn delete(grant: &Grant, stored: &Answer) -> (result: Result<Vec<Statement>, Rejection>)
    ensures
        if grant.user_id() == stored.user_id {
            result matches Ok(plan) && plan_view(plan@) == seq![
                StatementView::DeleteAnswer(stored.id),
            ]
        } else {
            result == Err::<Vec<Statement>, Rejection>(
                Rejection::Denied(AuthorizationError::NotAuthorized),
            )
        },
{
    if grant.user_id() != stored.user_id {
        return Err(Rejection::Denied(AuthorizationError::NotAuthorized));
    }
    Ok(Answer::delete(stored.id))
}

} // verus!

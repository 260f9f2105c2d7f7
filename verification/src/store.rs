//! A model of the store: what its tables hold and what each statement does.
//!
//! The store itself lives outside this library. The model says what the plans
//! of this library mean: a table keyed by an id is a map from that id to its
//! row, a join table is a set of pairs. The store refuses a statement that
//! would break a unique key, and a plan runs as one transaction: if the store
//! refuses any statement of it, nothing of the plan is kept.

use crate::answer::AnswerView;
use crate::session::Session;
use crate::statement::StatementView;
use crate::task::{TagView, TaskRowView};
use crate::user::{UserProgress, UserRowView};
use vstd::prelude::*;

verus! {

/// The contents of the store.
pub struct Database {
    /// users, by id; usernames are unique.
    pub users: Map<u128, UserRowView>,
    /// user_progress, by user id.
    pub progress: Map<u128, UserProgress>,
    /// friends: the pairs (user, friend).
    pub friends: Set<(u128, u128)>,
    /// sessions, by token.
    pub sessions: Map<u128, Session>,
    /// tasks, by id.
    pub tasks: Map<u128, TaskRowView>,
    /// tags: the name of each tag, by id.
    pub tags: Map<u128, Seq<char>>,
    /// task_tags: the pairs (task, tag).
    pub task_tags: Set<(u128, u128)>,
    /// answers, by id.
    pub answers: Map<u128, AnswerView>,
}

impl Database {
    /// Whether some user goes by `username`.
    pub open spec fn username_taken(self, username: Seq<char>) -> bool {
        exists|id: u128| #[trigger]
            self.users.contains_key(id) && self.users[id].username == username
    }

    /// Whether a user other than `id` goes by `username`.
    pub open spec fn username_taken_by_other(self, id: u128, username: Seq<char>) -> bool {
        exists|other: u128|
            other != id && #[trigger] self.users.contains_key(other) && self.users[other].username
                == username
    }

    /// The store after one statement, or `None` where the store refuses it.
    ///
    /// An insert is refused when its key is taken (for a user also when the
    /// username is taken); an update of a row that is not there changes
    /// nothing, and is refused when it would give a user the username of
    /// another; a delete removes what matches, which may be nothing. Linking
    /// what is already linked changes nothing.
    pub open spec fn apply(self, statement: StatementView) -> Option<Database> {
        match statement {
            StatementView::InsertUser(row) => if self.users.contains_key(row.id)
                || self.username_taken(row.username) {
                None
            } else {
                Some(Database { users: self.users.insert(row.id, row), ..self })
            },
            StatementView::UpdateUser(row) => if !self.users.contains_key(row.id) {
                Some(self)
            } else if self.username_taken_by_other(row.id, row.username) {
                None
            } else {
                Some(Database { users: self.users.insert(row.id, row), ..self })
            },
            StatementView::DeleteUser(id) => Some(
                Database { users: self.users.remove(id), ..self },
            ),
            StatementView::InsertProgress(id, progress) => if self.progress.contains_key(id) {
                None
            } else {
                Some(Database { progress: self.progress.insert(id, progress), ..self })
            },
            StatementView::UpdateProgress(id, progress) => if self.progress.contains_key(id) {
                Some(Database { progress: self.progress.insert(id, progress), ..self })
            } else {
                Some(self)
            },
            StatementView::DeleteProgress(id) => Some(
                Database { progress: self.progress.remove(id), ..self },
            ),
            StatementView::InsertFriend(user, friend) => Some(
                Database { friends: self.friends.insert((user, friend)), ..self },
            ),
            StatementView::DeleteFriend(user, friend) => Some(
                Database { friends: self.friends.remove((user, friend)), ..self },
            ),
            StatementView::DeleteFriendsOf(id) => Some(
                Database {
                    friends: self.friends.filter(|link: (u128, u128)| link.0 != id && link.1 != id),
                    ..self
                },
            ),
            StatementView::InsertSession(session) => if self.sessions.contains_key(
                session.auth_token,
            ) {
                None
            } else {
                Some(
                    Database { sessions: self.sessions.insert(session.auth_token, session), ..self },
                )
            },
            StatementView::DeleteSession(token) => Some(
                Database { sessions: self.sessions.remove(token), ..self },
            ),
            StatementView::DeleteSessionsOf(id) => Some(
                Database {
                    sessions: Map::new(
                        |token: u128|
                            self.sessions.contains_key(token) && self.sessions[token].user_id != id,
                        |token: u128| self.sessions[token],
                    ),
                    ..self
                },
            ),
            StatementView::InsertTask(row) => if self.tasks.contains_key(row.id) {
                None
            } else {
                Some(Database { tasks: self.tasks.insert(row.id, row), ..self })
            },
            StatementView::UpdateTask(row) => if self.tasks.contains_key(row.id) {
                Some(Database { tasks: self.tasks.insert(row.id, row), ..self })
            } else {
                Some(self)
            },
            StatementView::DeleteTask(id) => Some(
                Database { tasks: self.tasks.remove(id), ..self },
            ),
            StatementView::InsertTag(tag) => if self.tags.contains_key(tag.id) {
                None
            } else {
                Some(Database { tags: self.tags.insert(tag.id, tag.name), ..self })
            },
            StatementView::InsertTaskTag(task, tag) => Some(
                Database { task_tags: self.task_tags.insert((task, tag)), ..self },
            ),
            StatementView::DeleteTaskTag(task, tag) => Some(
                Database { task_tags: self.task_tags.remove((task, tag)), ..self },
            ),
            StatementView::DeleteTaskTagsOf(task) => Some(
                Database {
                    task_tags: self.task_tags.filter(|link: (u128, u128)| link.0 != task),
                    ..self
                },
            ),
            StatementView::InsertAnswer(answer) => if self.answers.contains_key(answer.id) {
                None
            } else {
                Some(Database { answers: self.answers.insert(answer.id, answer), ..self })
            },
            StatementView::UpdateAnswer(answer) => if self.answers.contains_key(answer.id) {
                Some(Database { answers: self.answers.insert(answer.id, answer), ..self })
            } else {
                Some(self)
            },
            StatementView::DeleteAnswer(id) => Some(
                Database { answers: self.answers.remove(id), ..self },
            ),
            StatementView::DeleteAnswersOf(id) => Some(
                Database {
                    answers: Map::new(
                        |answer: u128|
                            self.answers.contains_key(answer) && self.answers[answer].user_id
                                != id,
                        |answer: u128| self.answers[answer],
                    ),
                    ..self
                },
            ),
        }
    }

    /// The store after every statement of the plan in turn, or `None` where
    /// the store refuses one of them.
    pub open spec fn run(self, plan: Seq<StatementView>) -> Option<Database>
        decreases plan.len(),
    {
        if plan.len() == 0 {
            Some(self)
        } else {
            match self.apply(plan[0]) {
                Some(next) => next.run(plan.drop_first()),
                None => None,
            }
        }
    }

    /// The store after the plan has run as one transaction: all of it, or, if
    /// the store refuses a statement, none of it.
    pub open spec fn commit(self, plan: Seq<StatementView>) -> Database {
        match self.run(plan) {
            Some(after) => after,
            None => self,
        }
    }

    /// The friends of a user.
    pub open spec fn friends_of(self, id: u128) -> Set<u128> {
        Set::new(|friend: u128| self.friends.contains((id, friend)))
    }

    /// The tags linked to a task.
    pub open spec fn tags_of(self, task: u128) -> Set<TagView> {
        Set::new(
            |tag: TagView|
                self.task_tags.contains((task, tag.id)) && self.tags.contains_key(tag.id)
                    && self.tags[tag.id] == tag.name,
        )
    }

    /// The session that carries a token.
    pub open spec fn session_of(self, token: u128) -> Option<Session> {
        if self.sessions.contains_key(token) {
            Some(self.sessions[token])
        } else {
            None
        }
    }

    /// Whether some tag goes by `name`.
    pub open spec fn tag_named(self, name: Seq<char>) -> bool {
        exists|id: u128| #[trigger] self.tags.contains_key(id) && self.tags[id] == name
    }

    /// No two tags go by the same name.
    pub open spec fn tag_names_unique(self) -> bool {
        forall|a: u128, b: u128|
            #![trigger self.tags.contains_key(a), self.tags.contains_key(b)]
            self.tags.contains_key(a) && self.tags.contains_key(b) && self.tags[a] == self.tags[b]
                ==> a == b
    }

    /// Whether any row of user_progress, friends, sessions or answers refers
    /// to the user.
    pub open spec fn refers_to_user(self, id: u128) -> bool {
        ||| self.progress.contains_key(id)
        ||| exists|link: (u128, u128)| #[trigger]
            self.friends.contains(link) && (link.0 == id || link.1 == id)
        ||| exists|token: u128| #[trigger]
            self.sessions.contains_key(token) && self.sessions[token].user_id == id
        ||| exists|answer: u128| #[trigger]
            self.answers.contains_key(answer) && self.answers[answer].user_id == id
    }
}

/// Running two plans one after the other is running them joined.
pub proof fn lemma_run_joined(db: Database, first: Seq<StatementView>, second: Seq<StatementView>)
    ensures
        db.run(first + second) == match db.run(first) {
            Some(middle) => middle.run(second),
            None => None,
        },
    decreases first.len(),
{
    if first.len() == 0 {
        assert(first + second == second);
    } else {
        assert((first + second)[0] == first[0]);
        assert((first + second).drop_first() == first.drop_first() + second);
        match db.apply(first[0]) {
            Some(next) => {
                lemma_run_joined(next, first.drop_first(), second);
            },
            None => {},
        }
    }
}

/// A plan with nothing in it changes nothing.
pub proof fn lemma_empty_plan(db: Database)
    ensures
        db.run(Seq::empty()) == Some(db),
        db.commit(Seq::empty()) == db,
{
}

} // verus!

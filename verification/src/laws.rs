//! What holds of the plans of this library when the store runs them.
//!
//! Each law is stated over the model of the store and over the same
//! specification functions that the contracts of the operations use.

use crate::answer::{correct_choices, picked_correctly, AnswerView};
use crate::reconcile::{lemma_missing_is_difference, missing};
use crate::session::{expiry_of, state_at, Session, TokenState, SESSION_WINDOW_SECONDS};
use crate::store::{lemma_run_joined, Database};
use crate::statement::{plan_view, Statement, StatementView};
use crate::task::{link_plan, named, same_task, unlink_plan, TagView, TaskView};
use crate::user::{
    assembled, authorization, byte_length, creation_plan, deletion_plan, friend_links, friend_unlinks, login_outcome,
    ownership, refusal, registered, same_user, update_plan, validity, AuthorizationError,
    ReadError, StorageFailure, User, UserError, UserView, EMAIL_LIMIT, PHONE_LIMIT,
};
use vstd::prelude::*;

verus! {

/// The links from `id` to each of `friends`.
pub open spec fn links(id: u128, friends: Seq<u128>) -> Set<(u128, u128)> {
    Set::new(|link: (u128, u128)| link.0 == id && friends.contains(link.1))
}

/// What a read of the user `id` gives on a store, where `friends` lists the
/// friends in the order in which the store hands them out.
pub open spec fn read_user(db: Database, id: u128, friends: Seq<u128>) -> Result<
    UserView,
    ReadError,
> {
    assembled(
        if db.users.contains_key(id) {
            Some(db.users[id])
        } else {
            None
        },
        friends,
        if db.progress.contains_key(id) {
            Some(db.progress[id])
        } else {
            None
        },
    )
}

/// Linking a user to friends adds exactly those links to the store.
pub proof fn lemma_friend_links_run(db: Database, id: u128, friends: Seq<u128>)
    ensures
        db.run(friend_links(id, friends)) == Some(
            Database { friends: db.friends.union(links(id, friends)), ..db },
        ),
    decreases friends.len(),
{
    let plan = friend_links(id, friends);
    if friends.len() == 0 {
        assert(db.friends.union(links(id, friends)) =~= db.friends);
    } else {
        let next = Database { friends: db.friends.insert((id, friends[0])), ..db };
        assert(plan[0] == StatementView::InsertFriend(id, friends[0]));
        assert(plan.drop_first() =~= friend_links(id, friends.drop_first()));
        lemma_friend_links_run(next, id, friends.drop_first());
        assert forall|link: (u128, u128)|
            next.friends.union(links(id, friends.drop_first())).contains(link)
                == db.friends.union(links(id, friends)).contains(link) by {
            if friends.drop_first().contains(link.1) {
                let i = choose|i: int|
                    0 <= i < friends.drop_first().len() && friends.drop_first()[i] == link.1;
                assert(friends[i + 1] == link.1);
            }
            if friends.contains(link.1) {
                let i = choose|i: int| 0 <= i < friends.len() && friends[i] == link.1;
                if i > 0 {
                    assert(friends.drop_first()[i - 1] == link.1);
                }
            }
        }
        assert(next.friends.union(links(id, friends.drop_first())) =~= db.friends.union(
            links(id, friends),
        ));
    }
}

/// Unlinking a user from friends takes exactly those links out of the store.
pub proof fn lemma_friend_unlinks_run(db: Database, id: u128, friends: Seq<u128>)
    ensures
        db.run(friend_unlinks(id, friends)) == Some(
            Database { friends: db.friends.difference(links(id, friends)), ..db },
        ),
    decreases friends.len(),
{
    let plan = friend_unlinks(id, friends);
    if friends.len() == 0 {
        assert(db.friends.difference(links(id, friends)) =~= db.friends);
    } else {
        let next = Database { friends: db.friends.remove((id, friends[0])), ..db };
        assert(plan[0] == StatementView::DeleteFriend(id, friends[0]));
        assert(plan.drop_first() =~= friend_unlinks(id, friends.drop_first()));
        lemma_friend_unlinks_run(next, id, friends.drop_first());
        assert forall|link: (u128, u128)|
            next.friends.difference(links(id, friends.drop_first())).contains(link)
                == db.friends.difference(links(id, friends)).contains(link) by {
            if friends.drop_first().contains(link.1) {
                let i = choose|i: int|
                    0 <= i < friends.drop_first().len() && friends.drop_first()[i] == link.1;
                assert(friends[i + 1] == link.1);
            }
            if friends.contains(link.1) {
                let i = choose|i: int| 0 <= i < friends.len() && friends[i] == link.1;
                if i > 0 {
                    assert(friends.drop_first()[i - 1] == link.1);
                }
            }
        }
        assert(next.friends.difference(links(id, friends.drop_first())) =~= db.friends.difference(
            links(id, friends),
        ));
    }
}

/// A user that is stored under an id and a username that the store does not
/// hold yet reads back as it was stored: the same row, the same progress, the
/// same set of friends, and no session token.
pub proof fn law_created_user_reads_back(db: Database, user: UserView, listed: Seq<u128>)
    requires
        !db.users.contains_key(user.row.id),
        !db.progress.contains_key(user.row.id),
        !db.username_taken(user.row.username),
        db.friends_of(user.row.id) == Set::<u128>::empty(),
    ensures
        db.run(creation_plan(user)) matches Some(after) && {
            &&& after.friends_of(user.row.id) == user.friends.to_set()
            &&& read_user(after, user.row.id, listed) == Ok::<UserView, ReadError>(
                UserView { friends: listed, auth_token: None, ..user },
            )
            &&& db.commit(creation_plan(user)) == after
        },
{
    let id = user.row.id;
    let head = seq![
        StatementView::InsertUser(user.row),
        StatementView::InsertProgress(id, user.progress),
    ];
    let with_user = Database { users: db.users.insert(id, user.row), ..db };
    let with_progress = Database {
        progress: with_user.progress.insert(id, user.progress),
        ..with_user
    };
    assert(db.apply(head[0]) == Some(with_user));
    assert(head.drop_first() =~= seq![StatementView::InsertProgress(id, user.progress)]);
    assert(with_user.apply(head.drop_first()[0]) == Some(with_progress));
    assert(head.drop_first().drop_first() =~= Seq::<StatementView>::empty());
    assert(with_progress.run(head.drop_first().drop_first()) == Some(with_progress));
    assert(with_user.run(head.drop_first()) == Some(with_progress));
    assert(db.run(head) == Some(with_progress));
    lemma_run_joined(db, head, friend_links(id, user.friends));
    lemma_friend_links_run(with_progress, id, user.friends);
    let after = db.run(creation_plan(user))->0;
    assert forall|friend: u128|
        after.friends_of(id).contains(friend) == user.friends.to_set().contains(friend) by {
        assert(db.friends_of(id).contains(friend) == db.friends.contains((id, friend)));
        assert(links(id, user.friends).contains((id, friend)) == user.friends.contains(friend));
    }
    assert(after.friends_of(id) =~= user.friends.to_set());
}

/// Bringing the store in line with a user it already holds in that form
/// changes nothing: the plan is empty.
pub proof fn law_update_of_unchanged_user_is_empty(db: Database, user: UserView, persisted: UserView)
    requires
        same_user(user, persisted),
    ensures
        update_plan(user, persisted) == Seq::<StatementView>::empty(),
        db.commit(update_plan(user, persisted)) == db,
{
}

/// Bringing the store in line with a task it already holds in that form
/// changes nothing: the plan is empty.
pub proof fn law_update_of_unchanged_task_is_empty(
    db: Database,
    task: TaskView,
    persisted: TaskView,
    known: Seq<TagView>,
)
    requires
        crate::task::same_task(task, persisted),
    ensures
        crate::task::update_plan(task, persisted, known) == Seq::<StatementView>::empty(),
        db.commit(crate::task::update_plan(task, persisted, known)) == db,
{
}

/// After an update the friends of the user are exactly the desired ones: a
/// friend that was added is there, one that was dropped is gone, and the
/// friends of every other user are as before. Row and progress of the user
/// are the new ones.
pub proof fn law_update_reconciles_friends(db: Database, user: UserView, persisted: UserView)
    requires
        db.users.contains_key(user.row.id),
        db.progress.contains_key(user.row.id),
        persisted.row == db.users[user.row.id],
        persisted.progress == db.progress[user.row.id],
        persisted.friends.to_set() == db.friends_of(user.row.id),
        !db.username_taken_by_other(user.row.id, user.row.username),
    ensures
        db.run(update_plan(user, persisted)) matches Some(after) && {
            &&& after.friends_of(user.row.id) == user.friends.to_set()
            &&& forall|other: u128|
                other != user.row.id ==> #[trigger] after.friends_of(other) == db.friends_of(other)
            &&& after.users == db.users.insert(user.row.id, user.row)
            &&& after.progress == db.progress.insert(user.row.id, user.progress)
        },
{
    let id = user.row.id;
    if same_user(user, persisted) {
        assert(db.users.insert(id, user.row) =~= db.users);
        assert(db.progress.insert(id, user.progress) =~= db.progress);
    } else {
        let head = seq![
            StatementView::UpdateUser(user.row),
            StatementView::UpdateProgress(id, user.progress),
        ];
        let to_add = missing(user.friends, persisted.friends);
        let to_remove = missing(persisted.friends, user.friends);
        let with_user = Database { users: db.users.insert(id, user.row), ..db };
        let with_progress = Database {
            progress: with_user.progress.insert(id, user.progress),
            ..with_user
        };
        assert(db.apply(head[0]) == Some(with_user));
        assert(head.drop_first() =~= seq![StatementView::UpdateProgress(id, user.progress)]);
        assert(with_user.apply(head.drop_first()[0]) == Some(with_progress));
        assert(head.drop_first().drop_first() =~= Seq::<StatementView>::empty());
        assert(with_progress.run(head.drop_first().drop_first()) == Some(with_progress));
        assert(with_user.run(head.drop_first()) == Some(with_progress));
        assert(db.run(head) == Some(with_progress));
        lemma_run_joined(db, head, friend_links(id, to_add));
        lemma_friend_links_run(with_progress, id, to_add);
        let linked = Database {
            friends: with_progress.friends.union(links(id, to_add)),
            ..with_progress
        };
        lemma_run_joined(db, head + friend_links(id, to_add), friend_unlinks(id, to_remove));
        lemma_friend_unlinks_run(linked, id, to_remove);
        let after = Database { friends: linked.friends.difference(links(id, to_remove)), ..linked };
        assert(db.run(update_plan(user, persisted)) == Some(after));
        lemma_missing_is_difference(user.friends, persisted.friends);
        lemma_missing_is_difference(persisted.friends, user.friends);
        assert forall|friend: u128|
            after.friends_of(id).contains(friend) == user.friends.to_set().contains(friend) by {
            assert(db.friends_of(id).contains(friend) == db.friends.contains((id, friend)));
            assert(persisted.friends.to_set().contains(friend) == persisted.friends.contains(
                friend,
            ));
            assert(links(id, to_add).contains((id, friend)) == to_add.contains(friend));
            assert(links(id, to_remove).contains((id, friend)) == to_remove.contains(friend));
        }
        assert(after.friends_of(id) =~= user.friends.to_set());
        assert forall|other: u128| other != id implies #[trigger] after.friends_of(other)
            == db.friends_of(other) by {
            assert forall|friend: u128|
                after.friends_of(other).contains(friend) == db.friends_of(other).contains(
                    friend,
                ) by {
                assert(!links(id, to_add).contains((other, friend)));
                assert(!links(id, to_remove).contains((other, friend)));
            }
            assert(after.friends_of(other) =~= db.friends_of(other));
        }
    }
}

/// Removing a user removes all that refers to it: afterwards the user does
/// not read back, and no row of user_progress, friends, sessions or answers
/// names it. The users table loses that one row and nothing else.
pub proof fn law_deleted_user_is_gone(db: Database, id: u128, listed: Seq<u128>)
    ensures
        db.run(deletion_plan(id)) matches Some(after) && {
            &&& read_user(after, id, listed) == Err::<UserView, ReadError>(ReadError::NotFound)
            &&& !after.users.contains_key(id)
            &&& !after.refers_to_user(id)
            &&& after.users == db.users.remove(id)
            &&& after.tasks == db.tasks
            &&& after.tags == db.tags
            &&& after.task_tags == db.task_tags
        },
{
    let plan = deletion_plan(id);
    let no_progress = db.apply(plan[0])->0;
    let tail_a = plan.drop_first();
    let no_links = no_progress.apply(tail_a[0])->0;
    let tail_b = tail_a.drop_first();
    let no_sessions = no_links.apply(tail_b[0])->0;
    let tail_c = tail_b.drop_first();
    let no_answers = no_sessions.apply(tail_c[0])->0;
    let tail_d = tail_c.drop_first();
    let no_user = no_answers.apply(tail_d[0])->0;
    let tail_e = tail_d.drop_first();
    assert(tail_e =~= Seq::<StatementView>::empty());
    assert(no_user.run(tail_e) == Some(no_user));
    assert(no_answers.run(tail_d) == Some(no_user));
    assert(no_sessions.run(tail_c) == Some(no_user));
    assert(no_links.run(tail_b) == Some(no_user));
    assert(no_progress.run(tail_a) == Some(no_user));
    assert(db.run(plan) == Some(no_user));
}

/// Right after a login the token authorizes requests on the user that logged
/// in, and goes on doing so for every instant before the session runs out.
pub proof fn law_login_then_authorize(db: Database, user_id: u128, token: u128, now: i64, later: i64)
    requires
        !db.sessions.contains_key(token),
        now <= later < expiry_of(now),
    ensures
        db.run(seq![StatementView::InsertSession(Session::issued(user_id, token, now))])
            matches Some(after) && {
            &&& after.session_of(token) == Some(Session::issued(user_id, token, now))
            &&& validity(Some(token), after.session_of(token), now) == Ok::<
                (),
                AuthorizationError,
            >(())
            &&& authorization(Some(token), user_id, after.session_of(token), later) == Ok::<
                (),
                AuthorizationError,
            >(())
        },
{
    let plan = seq![StatementView::InsertSession(Session::issued(user_id, token, now))];
    let after = db.apply(plan[0])->0;
    assert(plan.drop_first() =~= Seq::<StatementView>::empty());
    assert(after.run(plan.drop_first()) == Some(after));
}

/// A login that succeeds opens a session that is good at once: once its plan
/// has run, the token that the user carries authorizes requests on that very
/// user, until the session runs out.
pub proof fn law_login_opens_a_good_session(
    db: Database,
    found: User,
    token: u128,
    now: i64,
    later: i64,
    result: Result<(User, Vec<Statement>), UserError>,
)
    requires
        login_outcome(
            found.username@,
            found.password_hash@,
            Ok::<Option<User>, StorageFailure>(Some(found)),
            token,
            now,
            result,
        ),
        !db.sessions.contains_key(token),
        now <= later < expiry_of(now),
    ensures
        result matches Ok((user, plan)) && {
            &&& user.id == found.id
            &&& user.auth_token == Some(token)
            &&& db.run(plan_view(plan@)) matches Some(after) && authorization(
                user.auth_token,
                user.id,
                after.session_of(token),
                later,
            ) == Ok::<(), AuthorizationError>(())
        },
{
    law_login_then_authorize(db, found.id, token, now, later);
}

/// A token that is good, but belongs to one user, does not authorize a
/// request on another.
pub proof fn law_token_of_another_user(session: Session, other: u128, now: i64)
    requires
        session.user_id != other,
        now < session.expiration_time,
    ensures
        validity(Some(session.auth_token), Some(session), now) == Ok::<(), AuthorizationError>(()),
        ownership(session.auth_token, other, Some(session)) == Err::<(), AuthorizationError>(
            AuthorizationError::NotAuthorized,
        ),
        authorization(Some(session.auth_token), other, Some(session), now) == Err::<
            (),
            AuthorizationError,
        >(AuthorizationError::NotAuthorized),
{
}

/// A token is good when its session is issued, and has expired fourteen days
/// after, for good.
pub proof fn law_token_expires_after_window(user_id: u128, token: u128, now: i64, later: i64)
    requires
        now < i64::MAX,
        later >= now + SESSION_WINDOW_SECONDS,
    ensures
        state_at(Some(Session::issued(user_id, token, now)), now) == TokenState::Valid,
        state_at(Some(Session::issued(user_id, token, now)), later) == TokenState::Expired,
        validity(Some(token), Some(Session::issued(user_id, token, now)), now) == Ok::<
            (),
            AuthorizationError,
        >(()),
        validity(Some(token), Some(Session::issued(user_id, token, now)), later) == Err::<
            (),
            AuthorizationError,
        >(AuthorizationError::TokenExpired),
{
}

/// The user that a registration creates reads back as registered once its
/// plan has run.
pub proof fn law_registered_user_reads_back(
    db: Database,
    id: u128,
    username: Seq<char>,
    password_hash: Seq<char>,
    email: Option<Seq<char>>,
    phone: Option<Seq<char>>,
)
    requires
        !db.users.contains_key(id),
        !db.progress.contains_key(id),
        !db.username_taken(username),
        db.friends_of(id) == Set::<u128>::empty(),
    ensures
        db.run(creation_plan(registered(id, username, password_hash, email, phone)))
            matches Some(after) && read_user(after, id, Seq::empty()) == Ok::<UserView, ReadError>(
            registered(id, username, password_hash, email, phone),
        ),
{
    law_created_user_reads_back(
        db,
        registered(id, username, password_hash, email, phone),
        Seq::empty(),
    );
}

/// What `named` finds goes by the name, and it finds something whenever a tag
/// of the list goes by the name.
pub proof fn lemma_named(known: Seq<TagView>, name: Seq<char>)
    ensures
        named(known, name) matches Some(id) ==> exists|i: int|
            0 <= i < known.len() && (#[trigger] known[i]).name == name && known[i].id == id,
        named(known, name) is None ==> forall|i: int|
            0 <= i < known.len() ==> (#[trigger] known[i]).name != name,
    decreases known.len(),
{
    if known.len() > 0 {
        if known[0].name == name {
        } else {
            lemma_named(known.drop_first(), name);
            if named(known, name) is Some {
                let i = choose|i: int|
                    0 <= i < known.drop_first().len() && (#[trigger] known.drop_first()[i]).name
                        == name && known.drop_first()[i].id == named(known, name)->0;
                assert(known[i + 1] == known.drop_first()[i]);
            } else {
                assert forall|i: int| 0 <= i < known.len() implies (#[trigger] known[i]).name
                    != name by {
                    if i > 0 {
                        assert(known[i] == known.drop_first()[i - 1]);
                    }
                }
            }
        }
    }
}

/// A name that was known stays known, under the same id, when a tag is added
/// at the end; a name that was not known is known afterwards exactly if the
/// added tag goes by it.
pub proof fn lemma_named_push(known: Seq<TagView>, tag: TagView, name: Seq<char>)
    ensures
        named(known.push(tag), name) == match named(known, name) {
            Some(id) => Some(id),
            None => if tag.name == name {
                Some(tag.id)
            } else {
                None
            },
        },
    decreases known.len(),
{
    let longer = known.push(tag);
    if known.len() == 0 {
        assert(longer.drop_first() =~= Seq::<TagView>::empty());
    } else {
        assert(longer[0] == known[0]);
        assert(longer.drop_first() =~= known.drop_first().push(tag));
        if known[0].name != name {
            lemma_named_push(known.drop_first(), tag, name);
        }
    }
}

/// `known` says what the store holds under the names of `tags`: each of
/// `known` is a tag of the store, and a name of `tags` that the store has is
/// among the names of `known`.
pub open spec fn reflects(db: Database, known: Seq<TagView>, tags: Seq<TagView>) -> bool {
    &&& forall|i: int|
        0 <= i < known.len() ==> db.tags.contains_key((#[trigger] known[i]).id)
            && db.tags[known[i].id] == known[i].name
    &&& forall|j: int|
        0 <= j < tags.len() && db.tag_named((#[trigger] tags[j]).name) ==> named(
            known,
            tags[j].name,
        ) is Some
}

/// The task is linked to a tag that goes by `name`.
pub open spec fn linked_by_name(db: Database, task: u128, name: Seq<char>) -> bool {
    exists|id: u128| #[trigger]
        db.tags.contains_key(id) && db.tags[id] == name && db.task_tags.contains((task, id))
}

/// The tags that `link_plan` inserts: those whose name is not known when
/// their turn comes.
pub open spec fn inserted_tags(tags: Seq<TagView>, known: Seq<TagView>) -> Seq<TagView>
    decreases tags.len(),
{
    if tags.len() == 0 {
        Seq::empty()
    } else {
        match named(known, tags[0].name) {
            Some(_) => inserted_tags(tags.drop_first(), known),
            None => seq![tags[0]] + inserted_tags(tags.drop_first(), known.push(tags[0])),
        }
    }
}

/// Each tag that gets inserted has an id that the store does not hold and
/// that no other inserted tag has.
pub open spec fn insertable(db: Database, tags: Seq<TagView>, known: Seq<TagView>) -> bool {
    let fresh = inserted_tags(tags, known);
    &&& forall|i: int| 0 <= i < fresh.len() ==> !db.tags.contains_key((#[trigger] fresh[i]).id)
    &&& forall|i: int, j: int|
        0 <= i < j < fresh.len() ==> (#[trigger] fresh[i]).id != (#[trigger] fresh[j]).id
}

/// The store takes the statements that link a task to tags whenever each tag
/// that gets inserted has an id that is neither in the store nor repeated.
pub proof fn law_links_are_taken(db: Database, task: u128, tags: Seq<TagView>, known: Seq<TagView>)
    requires
        insertable(db, tags, known),
    ensures
        db.run(link_plan(task, tags, known)) is Some,
    decreases tags.len(),
{
    let plan = link_plan(task, tags, known);
    if tags.len() > 0 {
        let tag = tags[0];
        let rest = tags.drop_first();
        let fresh = inserted_tags(tags, known);
        match named(known, tag.name) {
            Some(id) => {
                let linked = Database { task_tags: db.task_tags.insert((task, id)), ..db };
                assert(plan[0] == StatementView::InsertTaskTag(task, id));
                assert(plan.drop_first() =~= link_plan(task, rest, known));
                assert(db.apply(plan[0]) == Some(linked));
                law_links_are_taken(linked, task, rest, known);
            },
            None => {
                let longer = known.push(tag);
                let tail = link_plan(task, rest, longer);
                let later = inserted_tags(rest, longer);
                assert(fresh[0] == tag);
                assert forall|i: int| 0 <= i < later.len() implies later[i] == fresh[i + 1] by {}
                assert(plan[0] == StatementView::InsertTag(tag));
                assert(plan.drop_first()[0] == StatementView::InsertTaskTag(task, tag.id));
                assert(plan.drop_first().drop_first() =~= tail);
                let tagged = Database { tags: db.tags.insert(tag.id, tag.name), ..db };
                let linked = Database {
                    task_tags: tagged.task_tags.insert((task, tag.id)),
                    ..tagged
                };
                assert(db.apply(plan[0]) == Some(tagged));
                assert(tagged.apply(plan.drop_first()[0]) == Some(linked));
                assert(tagged.run(plan.drop_first()) == linked.run(tail));
                assert forall|i: int| 0 <= i < later.len() implies !linked.tags.contains_key(
                    (#[trigger] later[i]).id,
                ) by {
                    assert(later[i] == fresh[i + 1]);
                    assert(fresh[0].id != fresh[i + 1].id);
                }
                assert forall|i: int, j: int| 0 <= i < j < later.len() implies (#[trigger] later[i]).id
                    != (#[trigger] later[j]).id by {
                    assert(later[i] == fresh[i + 1]);
                    assert(later[j] == fresh[j + 1]);
                }
                law_links_are_taken(linked, task, rest, longer);
            },
        }
    }
}

/// Linking a task to tags keeps tag names unique: a name that the store has
/// is linked under the stored tag, and a name that it lacks gets one new tag.
/// The store takes the plan whenever each tag that gets inserted has an id
/// that is neither in the store nor repeated.
/// So two tasks that name the same tag share one row of the tags table.
/// Afterwards the task is linked to a tag of each of the names, and what the
/// store held before is still there.
pub proof fn law_tag_names_stay_unique(
    db: Database,
    task: u128,
    tags: Seq<TagView>,
    known: Seq<TagView>,
)
    requires
        db.tag_names_unique(),
        reflects(db, known, tags),
    ensures
        insertable(db, tags, known) ==> db.run(link_plan(task, tags, known)) is Some,
        db.run(link_plan(task, tags, known)) matches Some(after) ==> {
            &&& after.tag_names_unique()
            &&& forall|j: int|
                0 <= j < tags.len() ==> linked_by_name(after, task, (#[trigger] tags[j]).name)
            &&& forall|id: u128| #[trigger]
                db.tags.contains_key(id) ==> after.tags.contains_key(id) && after.tags[id]
                    == db.tags[id]
            &&& db.task_tags.subset_of(after.task_tags)
        },
    decreases tags.len(),
{
    if insertable(db, tags, known) {
        law_links_are_taken(db, task, tags, known);
    }
    let plan = link_plan(task, tags, known);
    if tags.len() > 0 && db.run(plan) is Some {
        let tag = tags[0];
        let rest = tags.drop_first();
        let after = db.run(plan)->0;
        lemma_named(known, tag.name);
        match named(known, tag.name) {
            Some(id) => {
                let linked = Database { task_tags: db.task_tags.insert((task, id)), ..db };
                let tail = link_plan(task, rest, known);
                assert(plan[0] == StatementView::InsertTaskTag(task, id));
                assert(plan.drop_first() =~= tail);
                assert(db.apply(plan[0]) == Some(linked));
                assert forall|j: int|
                    0 <= j < rest.len() && linked.tag_named((#[trigger] rest[j]).name) implies named(
                    known,
                    rest[j].name,
                ) is Some by {
                    assert(rest[j] == tags[j + 1]);
                    let witness = choose|w: u128| #[trigger]
                        linked.tags.contains_key(w) && linked.tags[w] == rest[j].name;
                    assert(db.tags.contains_key(witness));
                }
                law_tag_names_stay_unique(linked, task, rest, known);
                let i = choose|i: int|
                    0 <= i < known.len() && (#[trigger] known[i]).name == tag.name && known[i].id
                        == id;
                assert(db.tags.contains_key(known[i].id));
                assert(after.tags.contains_key(id) && after.tags[id] == tag.name);
                assert(linked.task_tags.contains((task, id)));
                assert forall|j: int| 0 <= j < tags.len() implies linked_by_name(
                    after,
                    task,
                    (#[trigger] tags[j]).name,
                ) by {
                    if j > 0 {
                        assert(tags[j] == rest[j - 1]);
                    }
                }
            },
            None => {
                let tail = link_plan(task, rest, known.push(tag));
                assert(plan[0] == StatementView::InsertTag(tag));
                assert(plan.drop_first()[0] == StatementView::InsertTaskTag(task, tag.id));
                assert(plan.drop_first().drop_first() =~= tail);
                let tagged = Database { tags: db.tags.insert(tag.id, tag.name), ..db };
                let linked = Database {
                    task_tags: tagged.task_tags.insert((task, tag.id)),
                    ..tagged
                };
                assert(db.apply(plan[0]) == Some(tagged));
                assert(tagged.apply(plan.drop_first()[0]) == Some(linked));
                assert(tagged.run(plan.drop_first()) == linked.run(tail));
                assert(!db.tag_named(tag.name)) by {
                    if db.tag_named(tag.name) {
                        assert(tags[0].name == tag.name);
                    }
                }
                assert(linked.tag_names_unique()) by {
                    assert forall|a: u128, b: u128|
                        #![trigger linked.tags.contains_key(a), linked.tags.contains_key(b)]
                        linked.tags.contains_key(a) && linked.tags.contains_key(b)
                            && linked.tags[a] == linked.tags[b] implies a == b by {
                        if a != tag.id {
                            assert(db.tags.contains_key(a));
                        }
                        if b != tag.id {
                            assert(db.tags.contains_key(b));
                        }
                    }
                }
                let longer = known.push(tag);
                assert forall|i: int| 0 <= i < longer.len() implies linked.tags.contains_key(
                    (#[trigger] longer[i]).id,
                ) && linked.tags[longer[i].id] == longer[i].name by {
                    if i < known.len() {
                        assert(longer[i] == known[i]);
                        assert(db.tags.contains_key(known[i].id));
                    }
                }
                assert forall|j: int|
                    0 <= j < rest.len() && linked.tag_named((#[trigger] rest[j]).name) implies named(
                    longer,
                    rest[j].name,
                ) is Some by {
                    assert(rest[j] == tags[j + 1]);
                    lemma_named_push(known, tag, rest[j].name);
                    let witness = choose|w: u128| #[trigger]
                        linked.tags.contains_key(w) && linked.tags[w] == rest[j].name;
                    if witness != tag.id {
                        assert(db.tags.contains_key(witness));
                        assert(db.tag_named(tags[j + 1].name));
                    }
                }
                law_tag_names_stay_unique(linked, task, rest, longer);
                assert(linked.tags.contains_key(tag.id));
                assert(after.tags.contains_key(tag.id) && after.tags[tag.id] == tag.name);
                assert(linked.task_tags.contains((task, tag.id)));
                assert forall|j: int| 0 <= j < tags.len() implies linked_by_name(
                    after,
                    task,
                    (#[trigger] tags[j]).name,
                ) by {
                    if j > 0 {
                        assert(tags[j] == rest[j - 1]);
                    }
                }
                assert forall|id: u128| #[trigger] db.tags.contains_key(id) implies after.tags.contains_key(
                    id,
                ) && after.tags[id] == db.tags[id] by {
                    assert(linked.tags.contains_key(id));
                }
            },
        }
    }
}

/// A plan leaves the store either as every statement of it left it, or, if
/// the store refused one of them, untouched.
pub proof fn law_commit_is_all_or_nothing(db: Database, plan: Seq<StatementView>)
    ensures
        db.run(plan) matches Some(after) ==> db.commit(plan) == after,
        db.run(plan) is None ==> db.commit(plan) == db,
{
}

/// A taken username is refused with `UsernameExists`, whatever the other
/// fields are.
pub proof fn law_taken_username_is_refused(
    holder: u128,
    email: Option<Seq<char>>,
    phone: Option<Seq<char>>,
    email_matches: Option<bool>,
    phone_matches: Option<bool>,
)
    ensures
        refusal(
            Ok::<Option<u128>, StorageFailure>(Some(holder)),
            email,
            phone,
            email_matches,
            phone_matches,
        ) == Some(UserError::UsernameExists),
{
}

/// A registration with neither email nor phone, under a free username, is
/// refused with `MissingFields`.
pub proof fn law_missing_contact_is_refused(
    email_matches: Option<bool>,
    phone_matches: Option<bool>,
)
    ensures
        refusal(
            Ok::<Option<u128>, StorageFailure>(None),
            None,
            None,
            email_matches,
            phone_matches,
        ) == Some(UserError::MissingFields),
{
}

/// A registration under a free username is refused with `BadEmail` if the
/// email does not match its pattern or is longer than its limit, and, the
/// email being fine or absent, with `BadPhone` if the phone does not match
/// its pattern or is longer than its limit.
pub proof fn law_malformed_contact_is_refused(
    email: Option<Seq<char>>,
    phone: Option<Seq<char>>,
    email_matches: Option<bool>,
    phone_matches: Option<bool>,
)
    ensures
        email matches Some(address) && (email_matches != Some(true) || byte_length(address)
            > EMAIL_LIMIT) ==> refusal(
            Ok::<Option<u128>, StorageFailure>(None),
            email,
            phone,
            email_matches,
            phone_matches,
        ) == Some(UserError::BadEmail),
        (email matches Some(address) ==> email_matches == Some(true) && byte_length(address)
            <= EMAIL_LIMIT) && (phone matches Some(number) && (phone_matches != Some(true)
            || byte_length(number) > PHONE_LIMIT)) ==> refusal(
            Ok::<Option<u128>, StorageFailure>(None),
            email,
            phone,
            email_matches,
            phone_matches,
        ) == Some(UserError::BadPhone),
{
}

/// A token whose session has run out authorizes nobody, not even the user
/// whom it belongs to.
pub proof fn law_expired_token_authorizes_nobody(session: Session, user_id: u128, now: i64)
    requires
        now >= session.expiration_time,
    ensures
        authorization(Some(session.auth_token), user_id, Some(session), now) == Err::<
            (),
            AuthorizationError,
        >(AuthorizationError::TokenExpired),
{
}

/// A login with a verifier other than the stored one fails with
/// `BadCredentials`; it yields no plan, so no session is stored.
pub proof fn law_wrong_verifier_opens_no_session(
    found: User,
    password_hash: Seq<char>,
    token: u128,
    now: i64,
    result: Result<(User, Vec<Statement>), UserError>,
)
    requires
        found.password_hash@ != password_hash,
        login_outcome(
            found.username@,
            password_hash,
            Ok::<Option<User>, StorageFailure>(Some(found)),
            token,
            now,
            result,
        ),
    ensures
        result == Err::<(User, Vec<Statement>), UserError>(UserError::BadCredentials),
{
}

/// Ending a session leaves no session under the token, so the token is no
/// longer in the store; ending it again changes nothing.
pub proof fn law_logout_is_idempotent(db: Database, token: u128, now: i64)
    ensures
        db.run(seq![StatementView::DeleteSession(token)]) matches Some(after) && {
            &&& after.session_of(token) is None
            &&& validity(Some(token), after.session_of(token), now) == Err::<
                (),
                AuthorizationError,
            >(AuthorizationError::TokenNotInDatabase)
            &&& after.run(seq![StatementView::DeleteSession(token)]) == Some(after)
        },
{
    let plan = seq![StatementView::DeleteSession(token)];
    let after = db.apply(plan[0])->0;
    assert(plan.drop_first() =~= Seq::<StatementView>::empty());
    assert(after.run(plan.drop_first()) == Some(after));
    let again = after.apply(plan[0])->0;
    assert(again.sessions =~= after.sessions);
    assert(again == after);
    assert(again.run(plan.drop_first()) == Some(again));
}

/// Grading a multiple-choice answer looks at the set of picks only: two
/// selections with the same members get the same verdict, and the correct
/// options in any order, such as 2, 1, 0, are correct.
pub proof fn law_grading_ignores_order(left: Seq<u32>, right: Seq<u32>)
    requires
        left.to_set() == right.to_set(),
    ensures
        picked_correctly(left) == picked_correctly(right),
        picked_correctly(seq![2u32, 1u32, 0u32]),
{
    let picks = seq![2u32, 1u32, 0u32];
    assert forall|pick: u32| picks.to_set().contains(pick) == correct_choices().to_set().contains(
        pick,
    ) by {
        assert(picks[0] == 2 && picks[1] == 1 && picks[2] == 0);
        assert(correct_choices()[0] == 0 && correct_choices()[1] == 1 && correct_choices()[2]
            == 2);
    }
    assert(picks.to_set() =~= correct_choices().to_set());
}

/// The store takes the plan that stores a task whenever the id of the task
/// is new and each tag that gets inserted has an id that is neither in the
/// store nor repeated. The task is there afterwards with its row, linked to a
/// tag of each of the names of its tags, and tag names are still unique.
pub proof fn law_created_task_is_stored(db: Database, task: TaskView, known: Seq<TagView>)
    requires
        db.tag_names_unique(),
        reflects(db, known, task.tags),
    ensures
        !db.tasks.contains_key(task.row.id) && insertable(db, task.tags, known) ==> db.run(
            crate::task::creation_plan(task, known),
        ) is Some,
        db.run(crate::task::creation_plan(task, known)) matches Some(after) ==> {
            &&& after.tasks == db.tasks.insert(task.row.id, task.row)
            &&& !db.tasks.contains_key(task.row.id)
            &&& after.tag_names_unique()
            &&& forall|j: int|
                0 <= j < task.tags.len() ==> linked_by_name(
                    after,
                    task.row.id,
                    (#[trigger] task.tags[j]).name,
                )
        },
{
    let plan = crate::task::creation_plan(task, known);
    let links = link_plan(task.row.id, task.tags, known);
    if !db.tasks.contains_key(task.row.id) && insertable(db, task.tags, known) {
        let stored = Database { tasks: db.tasks.insert(task.row.id, task.row), ..db };
        assert(plan[0] == StatementView::InsertTask(task.row));
        assert(plan.drop_first() =~= links);
        assert(db.apply(plan[0]) == Some(stored));
        law_links_are_taken(stored, task.row.id, task.tags, known);
    }
    if db.run(plan) is Some {
        assert(plan[0] == StatementView::InsertTask(task.row));
        assert(plan.drop_first() =~= links);
        let stored = Database { tasks: db.tasks.insert(task.row.id, task.row), ..db };
        assert(db.apply(plan[0]) == Some(stored));
        assert forall|j: int|
            0 <= j < task.tags.len() && stored.tag_named((#[trigger] task.tags[j]).name) implies named(
            known,
            task.tags[j].name,
        ) is Some by {
            let witness = choose|w: u128| #[trigger]
                stored.tags.contains_key(w) && stored.tags[w] == task.tags[j].name;
            assert(db.tags.contains_key(witness));
        }
        law_tag_names_stay_unique(stored, task.row.id, task.tags, known);
        lemma_links_keep_tasks(stored, task.row.id, task.tags, known);
    }
}

/// Linking a task to tags changes the tags and their links only.
pub proof fn lemma_links_keep_tasks(
    db: Database,
    task: u128,
    tags: Seq<TagView>,
    known: Seq<TagView>,
)
    ensures
        db.run(link_plan(task, tags, known)) matches Some(after) ==> {
            &&& after.tasks == db.tasks
            &&& after.users == db.users
            &&& after.progress == db.progress
            &&& after.friends == db.friends
            &&& after.sessions == db.sessions
            &&& after.answers == db.answers
        },
    decreases tags.len(),
{
    let plan = link_plan(task, tags, known);
    if tags.len() > 0 && db.run(plan) is Some {
        let tag = tags[0];
        let rest = tags.drop_first();
        match named(known, tag.name) {
            Some(id) => {
                let linked = Database { task_tags: db.task_tags.insert((task, id)), ..db };
                assert(plan[0] == StatementView::InsertTaskTag(task, id));
                assert(plan.drop_first() =~= link_plan(task, rest, known));
                assert(db.apply(plan[0]) == Some(linked));
                lemma_links_keep_tasks(linked, task, rest, known);
            },
            None => {
                let tail = link_plan(task, rest, known.push(tag));
                assert(plan[0] == StatementView::InsertTag(tag));
                assert(plan.drop_first()[0] == StatementView::InsertTaskTag(task, tag.id));
                assert(plan.drop_first().drop_first() =~= tail);
                let tagged = Database { tags: db.tags.insert(tag.id, tag.name), ..db };
                let linked = Database {
                    task_tags: tagged.task_tags.insert((task, tag.id)),
                    ..tagged
                };
                assert(db.apply(plan[0]) == Some(tagged));
                assert(tagged.apply(plan.drop_first()[0]) == Some(linked));
                assert(tagged.run(plan.drop_first()) == linked.run(tail));
                lemma_links_keep_tasks(linked, task, rest, known.push(tag));
            },
        }
    }
}

/// Removing a task removes its row and its links to tags, and nothing else:
/// the tags themselves stay.
pub proof fn law_deleted_task_is_gone(db: Database, id: u128)
    ensures
        db.run(crate::task::deletion_plan(id)) matches Some(after) && {
            &&& after.tasks == db.tasks.remove(id)
            &&& forall|tag: u128| !after.task_tags.contains((id, tag))
            &&& forall|other: u128, tag: u128|
                other != id ==> after.task_tags.contains((other, tag)) == db.task_tags.contains(
                    (other, tag),
                )
            &&& after.tags == db.tags
            &&& after.tags_of(id) == Set::<TagView>::empty()
        },
{
    let plan = crate::task::deletion_plan(id);
    let unlinked = db.apply(plan[0])->0;
    let after = unlinked.apply(plan.drop_first()[0])->0;
    assert(plan.drop_first().drop_first() =~= Seq::<StatementView>::empty());
    assert(after.run(plan.drop_first().drop_first()) == Some(after));
    assert(unlinked.run(plan.drop_first()) == Some(after));
    assert(db.run(plan) == Some(after));
    assert(after.tags_of(id) =~= Set::<TagView>::empty());
}

/// An answer that is stored under an id that the store does not hold yet is
/// there afterwards as it was stored; writing another over it replaces it;
/// removing it leaves none under its id.
pub proof fn law_answer_is_stored_replaced_and_removed(
    db: Database,
    answer: AnswerView,
    changed: AnswerView,
)
    requires
        !db.answers.contains_key(answer.id),
        changed.id == answer.id,
        changed != answer,
    ensures
        db.run(seq![StatementView::InsertAnswer(answer)]) matches Some(stored) && {
            &&& stored.answers == db.answers.insert(answer.id, answer)
            &&& stored.run(crate::answer::update_plan(answer, answer)) == Some(stored)
            &&& stored.run(crate::answer::update_plan(changed, answer)) matches Some(replaced)
                && {
                &&& replaced.answers == db.answers.insert(answer.id, changed)
                &&& replaced.run(seq![StatementView::DeleteAnswer(answer.id)]) matches Some(
                    removed,
                ) && removed.answers == db.answers
            }
        },
{
    let insert = seq![StatementView::InsertAnswer(answer)];
    let stored = db.apply(insert[0])->0;
    assert(insert.drop_first() =~= Seq::<StatementView>::empty());
    assert(stored.run(insert.drop_first()) == Some(stored));
    let update = crate::answer::update_plan(changed, answer);
    let replaced = stored.apply(update[0])->0;
    assert(update.drop_first() =~= Seq::<StatementView>::empty());
    assert(replaced.run(update.drop_first()) == Some(replaced));
    assert(replaced.answers =~= db.answers.insert(answer.id, changed));
    let delete = seq![StatementView::DeleteAnswer(answer.id)];
    let removed = replaced.apply(delete[0])->0;
    assert(delete.drop_first() =~= Seq::<StatementView>::empty());
    assert(removed.run(delete.drop_first()) == Some(removed));
    assert(removed.answers =~= db.answers);
}

/// The links of a task to each of `tags`.
pub open spec fn tag_links(task: u128, tags: Seq<TagView>) -> Set<(u128, u128)> {
    Set::new(
        |link: (u128, u128)|
            link.0 == task && exists|i: int| 0 <= i < tags.len() && (#[trigger] tags[i]).id == link.1,
    )
}

/// Unlinking a task from tags takes exactly those links out of the store.
pub proof fn lemma_unlink_plan_run(db: Database, task: u128, tags: Seq<TagView>)
    ensures
        db.run(unlink_plan(task, tags)) == Some(
            Database { task_tags: db.task_tags.difference(tag_links(task, tags)), ..db },
        ),
    decreases tags.len(),
{
    let plan = unlink_plan(task, tags);
    if tags.len() == 0 {
        assert(db.task_tags.difference(tag_links(task, tags)) =~= db.task_tags);
    } else {
        let rest = tags.drop_first();
        let next = Database { task_tags: db.task_tags.remove((task, tags[0].id)), ..db };
        assert(plan[0] == StatementView::DeleteTaskTag(task, tags[0].id));
        assert(plan.drop_first() =~= unlink_plan(task, rest));
        lemma_unlink_plan_run(next, task, rest);
        assert forall|link: (u128, u128)|
            next.task_tags.difference(tag_links(task, rest)).contains(link)
                == db.task_tags.difference(tag_links(task, tags)).contains(link) by {
            if tag_links(task, rest).contains(link) {
                let i = choose|i: int| 0 <= i < rest.len() && (#[trigger] rest[i]).id == link.1;
                assert(tags[i + 1] == rest[i]);
            }
            if tag_links(task, tags).contains(link) {
                let i = choose|i: int| 0 <= i < tags.len() && (#[trigger] tags[i]).id == link.1;
                if i > 0 {
                    assert(rest[i - 1] == tags[i]);
                }
            }
        }
        assert(next.task_tags.difference(tag_links(task, rest)) =~= db.task_tags.difference(
            tag_links(task, tags),
        ));
    }
}

/// The store takes the plan that updates a task whenever each tag that gets
/// inserted has an id that is neither in the store nor repeated. After an
/// update the row of the task is the new one and the task is linked
/// to a tag of each of the names of its tags: those it kept are still linked,
/// those it gained are linked under the stored tag of that name or under a
/// new one. Tag names stay unique.
pub proof fn law_task_update_links_every_tag(
    db: Database,
    task: TaskView,
    persisted: TaskView,
    known: Seq<TagView>,
)
    requires
        db.tag_names_unique(),
        db.tasks.contains_key(task.row.id),
        persisted.row == db.tasks[task.row.id],
        forall|i: int|
            0 <= i < persisted.tags.len() ==> db.task_tags.contains(
                (task.row.id, (#[trigger] persisted.tags[i]).id),
            ) && db.tags.contains_key(persisted.tags[i].id) && db.tags[persisted.tags[i].id]
                == persisted.tags[i].name,
        reflects(db, known, missing(task.tags, persisted.tags)),
    ensures
        insertable(db, missing(task.tags, persisted.tags), known) ==> db.run(
            crate::task::update_plan(task, persisted, known),
        ) is Some,
        db.run(crate::task::update_plan(task, persisted, known)) matches Some(after) ==> {
            &&& after.tasks == db.tasks.insert(task.row.id, task.row)
            &&& after.tag_names_unique()
            &&& forall|j: int|
                0 <= j < task.tags.len() ==> linked_by_name(
                    after,
                    task.row.id,
                    (#[trigger] task.tags[j]).name,
                )
        },
{
    let id = task.row.id;
    let plan = crate::task::update_plan(task, persisted, known);
    if insertable(db, missing(task.tags, persisted.tags), known) && !same_task(task, persisted) {
        let gone = missing(persisted.tags, task.tags);
        let gained = missing(task.tags, persisted.tags);
        let head = seq![StatementView::UpdateTask(task.row)];
        let written = Database { tasks: db.tasks.insert(id, task.row), ..db };
        assert(db.apply(head[0]) == Some(written));
        assert(head.drop_first() =~= Seq::<StatementView>::empty());
        assert(written.run(head.drop_first()) == Some(written));
        assert(db.run(head) == Some(written));
        lemma_run_joined(db, head, unlink_plan(id, gone));
        lemma_unlink_plan_run(written, id, gone);
        let unlinked = Database {
            task_tags: written.task_tags.difference(tag_links(id, gone)),
            ..written
        };
        lemma_run_joined(db, head + unlink_plan(id, gone), link_plan(id, gained, known));
        law_links_are_taken(unlinked, id, gained, known);
    }
    if db.run(plan) is Some {
        let after = db.run(plan)->0;
        let to_remove = missing(persisted.tags, task.tags);
        let to_add = missing(task.tags, persisted.tags);
        lemma_missing_is_difference(persisted.tags, task.tags);
        lemma_missing_is_difference(task.tags, persisted.tags);
        if same_task(task, persisted) {
            assert(db.tasks.insert(id, task.row) =~= db.tasks);
            assert forall|j: int| 0 <= j < task.tags.len() implies linked_by_name(
                db,
                id,
                (#[trigger] task.tags[j]).name,
            ) by {
                assert(task.tags.to_set().contains(task.tags[j]));
                assert(persisted.tags.contains(task.tags[j]));
                let i = choose|i: int|
                    0 <= i < persisted.tags.len() && persisted.tags[i] == task.tags[j];
                assert(db.tags.contains_key(persisted.tags[i].id));
            }
        } else {
            let head = seq![StatementView::UpdateTask(task.row)];
            let written = Database { tasks: db.tasks.insert(id, task.row), ..db };
            assert(db.apply(head[0]) == Some(written));
            assert(head.drop_first() =~= Seq::<StatementView>::empty());
            assert(written.run(head.drop_first()) == Some(written));
            assert(db.run(head) == Some(written));
            lemma_run_joined(db, head, unlink_plan(id, to_remove));
            lemma_unlink_plan_run(written, id, to_remove);
            let unlinked = Database {
                task_tags: written.task_tags.difference(tag_links(id, to_remove)),
                ..written
            };
            lemma_run_joined(db, head + unlink_plan(id, to_remove), link_plan(id, to_add, known));
            assert(unlinked.run(link_plan(id, to_add, known)) == Some(after));
            assert forall|j: int|
                0 <= j < to_add.len() && unlinked.tag_named((#[trigger] to_add[j]).name) implies named(
                known,
                to_add[j].name,
            ) is Some by {
                let witness = choose|w: u128| #[trigger]
                    unlinked.tags.contains_key(w) && unlinked.tags[w] == to_add[j].name;
                assert(db.tags.contains_key(witness));
            }
            law_tag_names_stay_unique(unlinked, id, to_add, known);
            lemma_links_keep_tasks(unlinked, id, to_add, known);
            assert forall|j: int| 0 <= j < task.tags.len() implies linked_by_name(
                after,
                id,
                (#[trigger] task.tags[j]).name,
            ) by {
                let tag = task.tags[j];
                assert(task.tags.contains(tag));
                if persisted.tags.contains(tag) {
                    let i = choose|i: int| 0 <= i < persisted.tags.len() && persisted.tags[i] == tag;
                    assert(db.task_tags.contains((id, persisted.tags[i].id)));
                    assert(db.tags.contains_key(tag.id) && db.tags[tag.id] == tag.name);
                    if tag_links(id, to_remove).contains((id, tag.id)) {
                        let k = choose|k: int|
                            0 <= k < to_remove.len() && (#[trigger] to_remove[k]).id == tag.id;
                        assert(to_remove.contains(to_remove[k]));
                        assert(persisted.tags.contains(to_remove[k]));
                        let m = choose|m: int|
                            0 <= m < persisted.tags.len() && persisted.tags[m] == to_remove[k];
                        assert(db.tags[persisted.tags[m].id] == persisted.tags[m].name);
                        assert(to_remove[k] == tag);
                        assert(false);
                    }
                    assert(unlinked.task_tags.contains((id, tag.id)));
                    assert(after.tags.contains_key(tag.id) && after.tags[tag.id] == tag.name);
                    assert(after.task_tags.contains((id, tag.id)));
                } else {
                    assert(to_add.contains(tag));
                    let k = choose|k: int| 0 <= k < to_add.len() && to_add[k] == tag;
                    assert(linked_by_name(after, id, to_add[k].name));
                }
            }
        }
    }
}

} // verus!

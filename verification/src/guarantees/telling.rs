//! Who is told of what.

use vstd::prelude::*;

use crate::clock::Timestamp;
use crate::domain::verdict_on;
use crate::entity::conversation_member::{self, Role};
use crate::entity::{conversation, message};
use crate::error::AppError;
use crate::flow::{ActionOf, ActionSpec, Env, Event, Flow, Step};
use crate::guarantees::access::access_result;
use crate::guarantees::groups::law_groups_are_handed_over_by_the_owner;
use crate::guarantees::reading::law_read_marks_move_without_an_answer;
use crate::guarantees::sending::{law_messages_are_sent, sent};
use crate::ids::Id;
use crate::json::{json_of, Json};
use crate::realtime::commands::{Command, CommandOf};
use crate::realtime::dialogue::{dialogue_start, read_text, typing_text, Dialogue};
use crate::realtime::protocol::event_text;
use crate::repo::sending::{sending_start, InsertMessage};
use crate::repo::NewMessage;
use crate::routes::conversations::{CreateConversation, Listing, ListingSpec};
use crate::routes::dto::{is_other, message_json, others_of, users_of};
use crate::routes::groups::{
    dissolve_group_start, dissolved_text, hand_over_start, handed_over_text, ChangeSettings,
    DissolveGroup, HandOver,
};
use crate::routes::members::{
    mute_start, muted_text, role_start, role_text, AddMembers, ListMembers, MuteMember,
    RemoveMember, SetRole, SetSpeak,
};
use crate::routes::messages::{
    recall_message_start, recalled_text, requested_message, send_message_start, speech_verdict,
    ListMessages, MarkRead, MessageReceipts, Recall, SendMessage,
};
use crate::routes::{
    created_or_ok, MuteRequest, ReplySpec, RoleRequest, SendMessageRequest, TransferRequest,
};
use crate::service::{announcement, create_message_start, CreateMessage, MESSAGE_CREATED};
use crate::store::{in_conversation, law_actions_keep_the_keys, outcome, Store};

verus! {

/// The texts that a request has pushed on its way, each with the users it goes to.
pub open spec fn pushed<F: Flow>(
    step: Step<F::V, ActionSpec, <F::Output as View>::V>,
    answers: Seq<(Env, Event)>,
) -> Seq<(Seq<Id>, Seq<char>)>
    decreases answers.len(),
{
    match step {
        Step::Ask(state, action) => if answers.len() > 0 {
            let rest = pushed::<F>(
                F::step(state, answers[0].0, answers[0].1),
                answers.drop_first(),
            );
            match action {
                ActionOf::Push { user_ids, text } => seq![(user_ids, text)] + rest,
                _ => rest,
            }
        } else {
            seq![]
        },
        Step::Done(_) => seq![],
    }
}

/// The announcements that a request makes on its way, each with the time it is made for.
pub open spec fn announced<F: Flow>(
    step: Step<F::V, ActionSpec, <F::Output as View>::V>,
    answers: Seq<(Env, Event)>,
) -> Seq<(Seq<char>, Json, Timestamp)>
    decreases answers.len(),
{
    match step {
        Step::Ask(state, action) => if answers.len() > 0 {
            let rest = announced::<F>(
                F::step(state, answers[0].0, answers[0].1),
                answers.drop_first(),
            );
            match action {
                ActionOf::Announce { topic, payload, at } => seq![(topic, payload, at)] + rest,
                _ => rest,
            }
        } else {
            seq![]
        },
        Step::Done(_) => seq![],
    }
}

/// Whether the users are the active members of a conversation, each once.
pub open spec fn are_members(store: Store, users: Seq<Id>, conversation_id: Id) -> bool {
    users.no_duplicates() && forall|user_id: Id| #[trigger]
        users.contains(user_id) <==> store.is_active(conversation_id, user_id)
}

/// Whether the users are the active members of a conversation but for one, each once.
pub open spec fn are_other_members(
    store: Store,
    users: Seq<Id>,
    conversation_id: Id,
    but: Id,
) -> bool {
    users.no_duplicates() && forall|user_id: Id| #[trigger]
        users.contains(user_id) <==> store.is_active(conversation_id, user_id) && user_id != but
}

proof fn lemma_users_of(store: Store, rows: Seq<conversation_member::Model>, conversation_id: Id)
    requires
        store.keyed(),
        store.lists_members(rows, in_conversation(conversation_id)),
    ensures
        are_members(store, users_of(rows), conversation_id),
{
    let users = users_of(rows);
    assert forall|i: int, j: int|
        0 <= i < users.len() && 0 <= j < users.len() && i != j implies users[i] != users[j] by {
        assert(rows.contains(rows[i]) && rows.contains(rows[j]));
        assert(store.has_active(rows[i]) && store.has_active(rows[j]));
    }
    assert forall|user_id: Id| #[trigger] users.contains(user_id) <==> store.is_active(
        conversation_id,
        user_id,
    ) by {
        if users.contains(user_id) {
            let i = choose|i: int| 0 <= i < users.len() && users[i] == user_id;
            assert(rows.contains(rows[i]));
            assert(store.has_active(rows[i]));
        }
        if store.is_active(conversation_id, user_id) {
            let row = store.members[(conversation_id, user_id)];
            assert(store.has_active(row));
            assert(rows.contains(row));
            let i = choose|i: int| 0 <= i < rows.len() && rows[i] == row;
            assert(users[i] == user_id);
        }
    }
}

/// Whoever lists the members of a conversation while nobody joins or leaves lists its members.
proof fn lemma_lists_are_members(store: Store, conversation_id: Id)
    requires
        store.keyed(),
    ensures
        forall|then: Store, rows: Seq<conversation_member::Model>| #[trigger]
            then.lists_members(rows, in_conversation(conversation_id)) && then.members
                == store.members ==> are_members(store, users_of(rows), conversation_id),
{
    assert forall|then: Store, rows: Seq<conversation_member::Model>| #[trigger]
        then.lists_members(rows, in_conversation(conversation_id)) && then.members
            == store.members implies are_members(store, users_of(rows), conversation_id) by {
        assert forall|row: conversation_member::Model| #[trigger]
            store.has_active(row) <==> then.has_active(row) by {}
        lemma_users_of(store, rows, conversation_id);
    }
}

proof fn lemma_others_of(
    store: Store,
    rows: Seq<conversation_member::Model>,
    conversation_id: Id,
    but: Id,
)
    requires
        store.keyed(),
        store.lists_members(rows, in_conversation(conversation_id)),
    ensures
        are_other_members(store, others_of(rows, but), conversation_id, but),
{
    lemma_users_of(store, rows, conversation_id);
    let users = users_of(rows);
    let others = users.filter(is_other(but));
    lemma_filter_keeps_distinct(users, but);
    assert forall|user_id: Id| #[trigger] others.contains(user_id) <==> store.is_active(
        conversation_id,
        user_id,
    ) && user_id != but by {
        if others.contains(user_id) {
            let i = choose|i: int| 0 <= i < others.len() && others[i] == user_id;
            users.lemma_filter_pred(is_other(but), i);
            users.lemma_filter_contains_rev(is_other(but), user_id);
        }
        if store.is_active(conversation_id, user_id) && user_id != but {
            assert(users.contains(user_id));
            let i = choose|i: int| 0 <= i < users.len() && users[i] == user_id;
            users.lemma_filter_contains(is_other(but), i);
        }
    }
}

proof fn lemma_filter_keeps_distinct(users: Seq<Id>, but: Id)
    requires
        users.no_duplicates(),
    ensures
        users.filter(is_other(but)).no_duplicates(),
    decreases users.len(),
{
    let other = is_other(but);
    if users.len() == 0 {
        reveal(Seq::filter);
    } else {
        let head = users.drop_last();
        let last = users.last();
        lemma_filter_keeps_distinct(head, but);
        assert(users == head.push(last));
        head.lemma_filter_push(last, other);
        assert(!head.filter(other).contains(last)) by {
            if head.filter(other).contains(last) {
                head.lemma_filter_contains_rev(other, last);
                let i = choose|i: int| 0 <= i < head.len() && head[i] == last;
                assert(users[i] == users[users.len() - 1]);
            }
        }
    }
}

/// Whether one text, and nothing else, is pushed, to the active members of a conversation.
pub open spec fn tells_members(
    pushes: Seq<(Seq<Id>, Seq<char>)>,
    store: Store,
    conversation_id: Id,
    text: Seq<char>,
) -> bool {
    pushes.len() == 1 && pushes[0].1 == text && are_members(store, pushes[0].0, conversation_id)
}

/// Whether one text, and nothing else, is pushed, to the active members of a conversation but for
/// one.
pub open spec fn tells_other_members(
    pushes: Seq<(Seq<Id>, Seq<char>)>,
    store: Store,
    conversation_id: Id,
    but: Id,
    text: Seq<char>,
) -> bool {
    pushes.len() == 1 && pushes[0].1 == text && are_other_members(
        store,
        pushes[0].0,
        conversation_id,
        but,
    )
}

/// Whether one text, and nothing else, is pushed, to one user.
pub open spec fn tells_one(
    pushes: Seq<(Seq<Id>, Seq<char>)>,
    user_id: Id,
    text: Seq<char>,
) -> bool {
    pushes == seq![(seq![user_id], text)]
}

/// Whether a step neither pushes nor announces anything.
pub open spec fn is_quiet<S, T>(step: Step<S, ActionSpec, T>) -> bool {
    step matches Step::Ask(_, action) ==> !(action is Push) && !(action is Announce)
}

/// Nobody is told when somebody looks something up, moves their read mark by a request, joins,
/// leaves, may speak, changes the settings of a group or creates a conversation.
pub proof fn law_other_requests_tell_nobody(
    env: Env,
    event: Event,
    listing: ListingSpec,
    create: CreateConversation,
    messages: ListMessages,
    read: MarkRead,
    receipts: MessageReceipts,
    list: ListMembers,
    add: AddMembers,
    remove: RemoveMember,
    speak: SetSpeak,
    settings: ChangeSettings,
)
    ensures
        is_quiet(Listing::step(listing, env, event)),
        is_quiet(CreateConversation::step(create, env, event)),
        is_quiet(ListMessages::step(messages, env, event)),
        is_quiet(MarkRead::step(read, env, event)),
        is_quiet(MessageReceipts::step(receipts, env, event)),
        is_quiet(ListMembers::step(list, env, event)),
        is_quiet(AddMembers::step(add, env, event)),
        is_quiet(RemoveMember::step(remove, env, event)),
        is_quiet(SetSpeak::step(speak, env, event)),
        is_quiet(ChangeSettings::step(settings, env, event)),
{
}

/// All members are told of a recalled message, also where it was recalled before; nobody is told
/// of an attempt that is refused.
pub proof fn law_members_are_told_of_recalls(
    store: Store,
    conversation_id: Id,
    user_id: Id,
    message_id: Id,
    answers: Seq<(Env, Event)>,
)
    requires
        store.keyed(),
    ensures
        ({
            let start = recall_message_start(user_id, conversation_id, message_id);
            let pushes = pushed::<Recall>(start, answers);
            outcome::<Recall>(start, store, answers) matches Some((_, result)) ==> if result is Ok {
                tells_members(
                    pushes,
                    store,
                    conversation_id,
                    recalled_text(conversation_id, message_id),
                )
            } else {
                pushes.len() == 0
            }
        }),
{
    reveal_with_fuel(outcome, 8);
    reveal_with_fuel(pushed, 8);
    lemma_lists_are_members(store, conversation_id);
}

/// All members are told of a new owner; nobody is told of an attempt that is refused or fails.
pub proof fn law_members_are_told_of_a_new_owner(
    store: Store,
    conversation_id: Id,
    user_id: Id,
    input: TransferRequest,
    env: Env,
    answers: Seq<(Env, Event)>,
)
    requires
        store.keyed(),
    ensures
        ({
            let start = hand_over_start(user_id, conversation_id, input, env);
            let pushes = pushed::<HandOver>(start, answers);
            outcome::<HandOver>(start, store, answers) matches Some((end, result))
                ==> if result is Ok {
                tells_members(
                    pushes,
                    end,
                    conversation_id,
                    handed_over_text(conversation_id, input.user_id),
                )
            } else {
                pushes.len() == 0
            }
        }),
{
    reveal_with_fuel(outcome, 11);
    reveal_with_fuel(pushed, 11);
    law_groups_are_handed_over_by_the_owner(store, conversation_id, user_id, input, env, answers);
    let start = hand_over_start(user_id, conversation_id, input, env);
    if outcome::<HandOver>(start, store, answers) is Some {
        let (end, result) = outcome::<HandOver>(start, store, answers)->0;
        assert(end.keyed()) by {
            lemma_outcomes_are_keyed::<HandOver>(start, store, answers);
        }
        lemma_lists_are_members(end, conversation_id);
    }
}

/// However a request ends, the rows stand under their keys.
proof fn lemma_outcomes_are_keyed<F: Flow>(
    step: Step<F::V, ActionSpec, <F::Output as View>::V>,
    store: Store,
    answers: Seq<(Env, Event)>,
)
    requires
        store.keyed(),
    ensures
        outcome::<F>(step, store, answers) matches Some((end, _)) ==> end.keyed(),
    decreases answers.len(),
{
    match step {
        Step::Ask(state, action) => {
            if answers.len() > 0 && store.admits(action, answers[0].1) {
                law_actions_keep_the_keys(store, action, answers[0].1);
                lemma_outcomes_are_keyed::<F>(
                    F::step(state, answers[0].0, answers[0].1),
                    store.after(action),
                    answers.drop_first(),
                );
            }
        },
        Step::Done(_) => {},
    }
}

/// Those who were members are told of the end of a group; nobody is told of an attempt that is
/// refused.
pub proof fn law_members_are_told_of_the_end(
    store: Store,
    conversation_id: Id,
    user_id: Id,
    answers: Seq<(Env, Event)>,
)
    requires
        store.keyed(),
    ensures
        ({
            let start = dissolve_group_start(user_id, conversation_id);
            let pushes = pushed::<DissolveGroup>(start, answers);
            outcome::<DissolveGroup>(start, store, answers) matches Some((_, result))
                ==> if result is Ok {
                tells_members(pushes, store, conversation_id, dissolved_text(conversation_id))
            } else {
                pushes.len() == 0
            }
        }),
{
    reveal_with_fuel(outcome, 9);
    reveal_with_fuel(pushed, 9);
    lemma_lists_are_members(store, conversation_id);
}

/// A member who is muted, or may speak again, is told, and nobody else; nobody is told of an
/// attempt that is refused.
pub proof fn law_members_are_told_of_a_mute(
    store: Store,
    conversation_id: Id,
    user_id: Id,
    target_id: Id,
    input: MuteRequest,
    answers: Seq<(Env, Event)>,
)
    ensures
        ({
            let start = mute_start(user_id, conversation_id, target_id, input);
            let pushes = pushed::<MuteMember>(start, answers);
            outcome::<MuteMember>(start, store, answers) matches Some((_, result))
                ==> if result is Ok {
                tells_one(
                    pushes,
                    target_id,
                    muted_text(conversation_id, target_id, input.muted_until),
                )
            } else {
                pushes.len() == 0
            }
        }),
{
    reveal_with_fuel(outcome, 7);
    reveal_with_fuel(pushed, 7);
}

/// A member whose role changes is told, and nobody else; nobody is told of an attempt that is
/// refused.
pub proof fn law_members_are_told_of_their_role(
    store: Store,
    conversation_id: Id,
    user_id: Id,
    target_id: Id,
    input: RoleRequest,
    answers: Seq<(Env, Event)>,
)
    ensures
        ({
            let start = role_start(user_id, conversation_id, target_id, input);
            let pushes = pushed::<SetRole>(start, answers);
            outcome::<SetRole>(start, store, answers) matches Some((_, result))
                ==> if result is Ok {
                tells_one(pushes, target_id, role_text(conversation_id, Role::of(input.role)))
            } else {
                pushes.len() == 0
            }
        }),
{
    reveal_with_fuel(outcome, 8);
    reveal_with_fuel(pushed, 8);
}

/// The other members are told how far somebody has read, with the sequence number they gave;
/// nobody is told where somebody is no member.
pub proof fn law_the_others_are_told_of_reading(
    store: Store,
    user_id: Id,
    conversation_id: Id,
    seq: i64,
    env: Env,
    answers: Seq<(Env, Event)>,
)
    requires
        store.keyed(),
    ensures
        ({
            let start = dialogue_start(user_id, CommandOf::Read { conversation_id, seq }, env);
            let pushes = pushed::<Dialogue>(start, answers);
            outcome::<Dialogue>(start, store, answers) is Some ==> if store.is_active(
                conversation_id,
                user_id,
            ) {
                tells_other_members(
                    pushes,
                    store,
                    conversation_id,
                    user_id,
                    read_text(conversation_id, user_id, seq),
                )
            } else {
                pushes.len() == 0
            }
        }),
{
    reveal_with_fuel(outcome, 6);
    reveal_with_fuel(pushed, 6);
    let start = dialogue_start(user_id, CommandOf::Read { conversation_id, seq }, env);
    lemma_lists_are_others(store, conversation_id, user_id);
    if outcome::<Dialogue>(start, store, answers) is Some {
        let (end, _) = outcome::<Dialogue>(start, store, answers)->0;
        lemma_outcomes_are_keyed::<Dialogue>(start, store, answers);
        law_read_marks_move_without_an_answer(
            store,
            user_id,
            conversation_id,
            seq,
            env,
            answers,
        );
        lemma_lists_are_others(end, conversation_id, user_id);
        assert forall|other: Id| #[trigger]
            end.is_active(conversation_id, other) <==> store.is_active(conversation_id, other) by {}
    }
}

/// Whoever lists the members of a conversation while nobody joins or leaves lists, but for one
/// user, its other members.
proof fn lemma_lists_are_others(store: Store, conversation_id: Id, but: Id)
    requires
        store.keyed(),
    ensures
        forall|then: Store, rows: Seq<conversation_member::Model>| #[trigger]
            then.lists_members(rows, in_conversation(conversation_id)) && then.members
                == store.members ==> are_other_members(
                store,
                others_of(rows, but),
                conversation_id,
                but,
            ),
{
    assert forall|then: Store, rows: Seq<conversation_member::Model>| #[trigger]
        then.lists_members(rows, in_conversation(conversation_id)) && then.members
            == store.members implies are_other_members(
        store,
        others_of(rows, but),
        conversation_id,
        but,
    ) by {
        assert forall|row: conversation_member::Model| #[trigger]
            store.has_active(row) <==> then.has_active(row) by {}
        lemma_others_of(store, rows, conversation_id, but);
    }
}

/// The members of a conversation are told of somebody typing, but for that one.
pub proof fn law_the_others_are_told_of_typing(
    store: Store,
    user_id: Id,
    conversation_id: Id,
    started: bool,
    env: Env,
    answers: Seq<(Env, Event)>,
)
    requires
        store.keyed(),
    ensures
        ({
            let start = dialogue_start(
                user_id,
                CommandOf::Typing { conversation_id, started },
                env,
            );
            outcome::<Dialogue>(start, store, answers) is Some ==> tells_other_members(
                pushed::<Dialogue>(start, answers),
                store,
                conversation_id,
                user_id,
                typing_text(conversation_id, user_id, started),
            )
        }),
{
    reveal_with_fuel(outcome, 4);
    reveal_with_fuel(pushed, 4);
    lemma_lists_are_others(store, conversation_id, user_id);
}

/// What the members of a conversation are told of a message.
pub open spec fn message_text(row: message::Model) -> Seq<char> {
    event_text("message"@, message_json(row))
}

proof fn lemma_storing_pushes_nothing(state: CreateMessage, env: Env, event: Event)
    ensures
        CreateMessage::step(state, env, event) matches Step::Ask(_, action) ==> !(action is Push),
{
}

/// What is pushed on the way of a message that is sent over HTTP, and what it ends with.
proof fn lemma_send_pushes(
    store: Store,
    conversation_id: Id,
    step: Step<CreateMessage, ActionSpec, (message::Model, bool)>,
    answers: Seq<(Env, Event)>,
) -> (k: nat)
    requires
        store.keyed(),
        step matches Step::Ask(_, action) ==> !(action is Push),
    ensures
        ({
            let start = SendMessage::creating(conversation_id, step);
            let pushes = pushed::<SendMessage>(start, answers);
            outcome::<SendMessage>(start, store, answers) matches Some((end, result)) ==> k
                <= answers.len() && (outcome::<CreateMessage>(
                step,
                store,
                answers.take(k as int),
            ) matches Some((end_created, created)) && end_created == end && match created {
                Err(e) => result == Err::<ReplySpec, AppError>(e) && pushes.len() == 0,
                Ok((row, is_new)) => result == Ok::<ReplySpec, AppError>(
                    created_or_ok(is_new, message_json(row)),
                ) && if is_new {
                    tells_members(pushes, end, conversation_id, message_text(row))
                } else {
                    pushes.len() == 0
                },
            })
        }),
    decreases answers.len(),
{
    match step {
        Step::Done(result) => {
            reveal_with_fuel(outcome, 4);
            reveal_with_fuel(pushed, 4);
            lemma_lists_are_members(store, conversation_id);
            0
        },
        Step::Ask(state, action) => {
            if answers.len() > 0 && store.admits(action, answers[0].1) {
                let rest = answers.drop_first();
                law_actions_keep_the_keys(store, action, answers[0].1);
                lemma_storing_pushes_nothing(state, answers[0].0, answers[0].1);
                let k = lemma_send_pushes(
                    store.after(action),
                    conversation_id,
                    CreateMessage::step(state, answers[0].0, answers[0].1),
                    rest,
                );
                if k <= rest.len() {
                    assert(answers.take(k as int + 1).drop_first() == rest.take(k as int));
                    assert(answers.take(k as int + 1)[0] == answers[0]);
                }
                k + 1
            } else {
                0
            }
        },
    }
}

/// All members, the sender among them, are told of a new message that is sent over HTTP; nobody is
/// told of one that was there before, or of one that is refused.
pub proof fn law_members_are_told_of_new_messages(
    store: Store,
    conversation_id: Id,
    user_id: Id,
    input: SendMessageRequest,
    env: Env,
    answers: Seq<(Env, Event)>,
)
    requires
        store.keyed(),
    ensures
        ({
            let start = send_message_start(user_id, conversation_id, input, env);
            let pushes = pushed::<SendMessage>(start, answers);
            outcome::<SendMessage>(start, store, answers) matches Some((end, result))
                ==> match result {
                Err(_) => pushes.len() == 0,
                Ok(reply) => exists|row: message::Model, is_new: bool|
                    #![trigger created_or_ok(is_new, message_json(row))]
                    end.has_message(row) && reply == created_or_ok(is_new, message_json(row))
                        && if is_new {
                        tells_members(pushes, end, conversation_id, message_text(row))
                    } else {
                        pushes.len() == 0
                    },
            }
        }),
{
    reveal_with_fuel(outcome, 3);
    reveal_with_fuel(pushed, 3);
    let new = requested_message(user_id, conversation_id, input);
    let rest = answers.drop_first().drop_first();
    let found = access_result(store, conversation_id, user_id);
    if found is Ok && speech_verdict(found->Ok_0, answers[1].0.now) is Ok {
        let step = create_message_start(new, answers[1].0);
        let k = lemma_send_pushes(store, conversation_id, step, rest);
        law_messages_are_sent(store, new, answers[1].0, rest.take(k as int));
    }
}

/// What is pushed on the way of a message that is sent over a connection.
proof fn lemma_dialogue_pushes(
    store: Store,
    request_id: Option<String>,
    client_msg_id: Option<String>,
    conversation_id: Id,
    step: Step<CreateMessage, ActionSpec, (message::Model, bool)>,
    answers: Seq<(Env, Event)>,
) -> (k: nat)
    requires
        store.keyed(),
        step matches Step::Ask(_, action) ==> !(action is Push),
    ensures
        ({
            let start = Dialogue::sending(request_id, client_msg_id, conversation_id, step);
            let pushes = pushed::<Dialogue>(start, answers);
            outcome::<Dialogue>(start, store, answers) matches Some((end, result)) ==> k
                <= answers.len() && (outcome::<CreateMessage>(
                step,
                store,
                answers.take(k as int),
            ) matches Some((end_created, created)) && end_created == end && match created {
                Err(_) => pushes.len() == 0,
                Ok((row, _)) => tells_members(pushes, end, conversation_id, message_text(row)),
            })
        }),
    decreases answers.len(),
{
    match step {
        Step::Done(result) => {
            reveal_with_fuel(outcome, 4);
            reveal_with_fuel(pushed, 4);
            lemma_lists_are_members(store, conversation_id);
            0
        },
        Step::Ask(state, action) => {
            if answers.len() > 0 && store.admits(action, answers[0].1) {
                let rest = answers.drop_first();
                law_actions_keep_the_keys(store, action, answers[0].1);
                lemma_storing_pushes_nothing(state, answers[0].0, answers[0].1);
                let k = lemma_dialogue_pushes(
                    store.after(action),
                    request_id,
                    client_msg_id,
                    conversation_id,
                    CreateMessage::step(state, answers[0].0, answers[0].1),
                    rest,
                );
                if k <= rest.len() {
                    assert(answers.take(k as int + 1).drop_first() == rest.take(k as int));
                    assert(answers.take(k as int + 1)[0] == answers[0]);
                }
                k + 1
            } else {
                0
            }
        },
    }
}

/// All members, the sender among them, are told of a message that is sent over a connection, also
/// where it was there before; nobody is told of one that is refused.
pub proof fn law_members_are_told_of_messages_from_connections(
    store: Store,
    user_id: Id,
    command: Command,
    env: Env,
    answers: Seq<(Env, Event)>,
)
    requires
        store.keyed(),
        command is Send,
    ensures
        ({
            let start = dialogue_start(user_id, command, env);
            let pushes = pushed::<Dialogue>(start, answers);
            let new = NewMessage {
                conversation_id: command->Send_conversation_id,
                sender_id: user_id,
                kind: command->kind,
                content: command->content,
                reply_to_id: command->reply_to_id,
                client_msg_id: command->client_msg_id,
            };
            outcome::<Dialogue>(start, store, answers) matches Some((end, _)) ==> exists|
                created: Result<(message::Model, bool), AppError>,
            | #[trigger]
                sent(store, new, end, created) && match created {
                    Err(_) => pushes.len() == 0,
                    Ok((row, _)) => tells_members(
                        pushes,
                        end,
                        new.conversation_id,
                        message_text(row),
                    ),
                }
        }),
{
    let new = NewMessage {
        conversation_id: command->Send_conversation_id,
        sender_id: user_id,
        kind: command->kind,
        content: command->content,
        reply_to_id: command->reply_to_id,
        client_msg_id: command->client_msg_id,
    };
    let k = lemma_dialogue_pushes(
        store,
        command->Send_request_id,
        command->client_msg_id,
        command->Send_conversation_id,
        create_message_start(new, env),
        answers,
    );
    law_messages_are_sent(store, new, env, answers.take(k as int));
}

/// What is announced while a message is stored: nothing before the end, and then a new message
/// where there is a bus.
proof fn lemma_storing_announces(
    store: Store,
    new: NewMessage,
    conversation: conversation::Model,
    now: Timestamp,
    bus: bool,
    step: Step<InsertMessage, ActionSpec, (message::Model, bool)>,
    answers: Seq<(Env, Event)>,
)
    requires
        step matches Step::Ask(_, action) ==> !(action is Announce),
        forall|i: int| 0 <= i < answers.len() ==> (#[trigger] answers[i]).0.bus == bus,
    ensures
        ({
            let start = CreateMessage::storing(
                conversation,
                new.conversation_id,
                new.sender_id,
                now,
                bus,
                step,
            );
            outcome::<CreateMessage>(start, store, answers) matches Some((end, result))
                ==> is_announced(
                announced::<CreateMessage>(start, answers),
                end,
                new,
                conversation,
                bus,
                now,
                result,
            )
        }),
    decreases answers.len(),
{
    match step {
        Step::Done(result) => {
            reveal_with_fuel(outcome, 4);
            reveal_with_fuel(announced, 4);
        },
        Step::Ask(state, action) => {
            if answers.len() > 0 && store.admits(action, answers[0].1) {
                let rest = answers.drop_first();
                assert forall|i: int| 0 <= i < rest.len() implies (#[trigger] rest[i]).0.bus
                    == bus by {
                    assert(rest[i] == answers[i + 1]);
                }
                assert(answers[0].0.bus == bus);
                lemma_storing_announces(
                    store.after(action),
                    new,
                    conversation,
                    now,
                    bus,
                    InsertMessage::step(state, answers[0].0, answers[0].1),
                    rest,
                );
            }
        },
    }
}

/// Whether what is announced is a new message, where there is a bus, to the other members of its
/// conversation and with the time it was sent at, and nothing otherwise.
pub open spec fn is_announced(
    announcements: Seq<(Seq<char>, Json, Timestamp)>,
    end: Store,
    new: NewMessage,
    conversation: conversation::Model,
    bus: bool,
    at: Timestamp,
    result: Result<(message::Model, bool), AppError>,
) -> bool {
    if bus && result is Ok && result->Ok_0.1 {
        exists|members: Seq<conversation_member::Model>| #[trigger]
            end.lists_members(members, in_conversation(new.conversation_id)) && announcements
                == seq![
                (
                    MESSAGE_CREATED@,
                    announcement(
                        conversation,
                        new.conversation_id,
                        new.sender_id,
                        result->Ok_0.0,
                        members,
                    ),
                    at,
                ),
            ]
    } else {
        announcements.len() == 0
    }
}

/// A new message is announced once, where there is a bus; nothing else is ever announced: not a
/// message that was there before, and not one that is refused.
pub proof fn law_new_messages_are_announced(
    store: Store,
    new: NewMessage,
    env: Env,
    bus: bool,
    answers: Seq<(Env, Event)>,
)
    requires
        env.bus == bus,
        forall|i: int| 0 <= i < answers.len() ==> (#[trigger] answers[i]).0.bus == bus,
    ensures
        ({
            let start = create_message_start(new, env);
            outcome::<CreateMessage>(start, store, answers) matches Some((end, result))
                ==> is_announced(
                announced::<CreateMessage>(start, answers),
                end,
                new,
                store.conversations[new.conversation_id],
                bus,
                if new.reply_to_id is Some {
                    answers[2].0.now
                } else {
                    answers[1].0.now
                },
                result,
            )
        }),
{
    reveal_with_fuel(outcome, 4);
    reveal_with_fuel(announced, 4);
    let rest = answers.drop_first().drop_first();
    if verdict_on(new.kind@, json_of(new.content)) is Ok && access_result(
        store,
        new.conversation_id,
        new.sender_id,
    ) is Ok && answers.len() >= 2 {
        let conversation = store.conversations[new.conversation_id];
        assert forall|i: int| 0 <= i < rest.len() implies (#[trigger] rest[i]).0.bus == bus by {
            assert(rest[i] == answers[i + 2]);
        }
        assert(answers[0].0.bus == bus && answers[1].0.bus == bus);
        if new.reply_to_id is Some {
            let env2 = rest[0].0;
            let tail = rest.drop_first();
            if rest.len() > 0 {
                assert(env2.bus == bus);
                assert forall|i: int| 0 <= i < tail.len() implies (#[trigger] tail[i]).0.bus
                    == bus by {
                    assert(tail[i] == rest[i + 1]);
                }
                lemma_storing_announces(
                    store,
                    new,
                    conversation,
                    env2.now,
                    bus,
                    sending_start(new, env2.now),
                    tail,
                );
            }
        } else {
            let env1 = answers[1].0;
            lemma_storing_announces(
                store,
                new,
                conversation,
                env1.now,
                bus,
                sending_start(new, env1.now),
                rest,
            );
        }
    }
}

} // verus!

//! Listing the conversations of a user.

use vstd::prelude::*;

use crate::entity::conversation_member;
use crate::flow::{Action, ActionOf, ActionSpec, Env, Event, Flow, Step};
use crate::ids::Id;
use crate::repo::ConversationWithMember;

verus! {

/// When a conversation last changed.
pub open spec fn changed_at(row: ConversationWithMember) -> int {
    row.conversation.updated_at.total()
}

/// A row put behind every row that changed at the same time or later.
pub open spec fn place_latest(
    rows: Seq<ConversationWithMember>,
    row: ConversationWithMember,
) -> Seq<ConversationWithMember>
    decreases rows.len(),
{
    if rows.len() == 0 || changed_at(rows.last()) >= changed_at(row) {
        rows.push(row)
    } else {
        place_latest(rows.drop_last(), row).push(rows.last())
    }
}

/// The rows by the time of their last change, the latest first; rows that changed at the same
/// time keep their order.
pub open spec fn latest_first(rows: Seq<ConversationWithMember>) -> Seq<ConversationWithMember>
    decreases rows.len(),
{
    if rows.len() == 0 {
        rows
    } else {
        place_latest(latest_first(rows.drop_last()), rows.last())
    }
}

fn insert_latest(rows: Vec<ConversationWithMember>, row: ConversationWithMember) -> (r: Vec<
    ConversationWithMember,
>)
    ensures
        r@ == place_latest(rows@, row),
{
    let mut sorted = rows;
    let mut at: usize = sorted.len();
    assert(sorted@.take(at as int) + sorted@.skip(at as int) == sorted@);
    assert(sorted@.take(at as int) == sorted@);
    assert(place_latest(sorted@, row) == place_latest(sorted@.take(at as int), row)
        + sorted@.skip(at as int));
    while at > 0 && row.conversation.updated_at.after(sorted[at - 1].conversation.updated_at)
        invariant
            at <= sorted@.len(),
            sorted@ == rows@,
            place_latest(rows@, row) == place_latest(sorted@.take(at as int), row) + sorted@.skip(
                at as int,
            ),
        decreases at,
    {
        let ghost head = sorted@.take(at as int);
        at = at - 1;
        proof {
            assert(head.drop_last() == sorted@.take(at as int));
            assert(place_latest(head, row) == place_latest(head.drop_last(), row).push(
                head.last(),
            ));
            assert(sorted@.skip(at as int) == seq![head.last()] + sorted@.skip(at + 1));
        }
    }
    proof {
        let head = sorted@.take(at as int);
        if at > 0 {
            assert(head.last() == sorted@[at - 1]);
        }
        assert(place_latest(head, row) == head.push(row));
        assert(sorted@.insert(at as int, row) == head.push(row) + sorted@.skip(at as int));
    }
    sorted.insert(at, row);
    sorted
}

fn sort_latest_first(rows: Vec<ConversationWithMember>) -> (r: Vec<ConversationWithMember>)
    ensures
        r@ == latest_first(rows@),
{
    let mut rest = rows;
    let mut sorted: Vec<ConversationWithMember> = Vec::new();
    let ghost mut done: int = 0;
    while rest.len() > 0
        invariant
            0 <= done <= rows@.len(),
            rest@ == rows@.skip(done),
            sorted@ == latest_first(rows@.take(done)),
        decreases rest@.len(),
    {
        let row = rest.remove(0);
        proof {
            assert(rows@.take(done + 1).drop_last() == rows@.take(done));
            assert(rest@ == rows@.skip(done + 1));
            done = done + 1;
        }
        sorted = insert_latest(sorted, row);
    }
    assert(rows@.take(done) == rows@);
    sorted
}

/// Lists the conversations of a user, over the representation of memberships and of rows.
#[derive(Debug)]
pub enum ListConversationsOf<Members, Rows> {
    /// Waiting for the memberships.
    Memberships,
    /// Waiting for the conversation of one membership; those in `pending` come after it.
    Conversation { member: conversation_member::Model, pending: Members, rows: Rows },
}

/// Lists the conversations of a user.
pub type ListConversations = ListConversationsOf<
    Vec<conversation_member::Model>,
    Vec<ConversationWithMember>,
>;

/// A state of listing the conversations of a user, by its contents.
pub type ListConversationsSpec = ListConversationsOf<
    Seq<conversation_member::Model>,
    Seq<ConversationWithMember>,
>;

impl View for ListConversationsOf<
    Vec<conversation_member::Model>,
    Vec<ConversationWithMember>,
> {
    type V = ListConversationsSpec;

    open spec fn view(&self) -> ListConversationsSpec {
        match *self {
            ListConversationsOf::Memberships => ListConversationsOf::Memberships,
            ListConversationsOf::Conversation { member, pending, rows } =>
                ListConversationsOf::Conversation { member, pending: pending@, rows: rows@ },
        }
    }
}

/// First step of listing the conversations of a user.
pub open spec fn listing_start(user_id: Id) -> Step<
    ListConversationsSpec,
    ActionSpec,
    Seq<ConversationWithMember>,
> {
    Step::Ask(ListConversationsOf::Memberships, ActionOf::MembershipsOf { user_id })
}

/// Starts to list the conversations of a user, the latest changed first. A membership whose
/// conversation is gone is left out.
pub fn list_conversations(user_id: Id) -> (r: Step<
    ListConversations,
    Action,
    Vec<ConversationWithMember>,
>)
    ensures
        r@ == listing_start(user_id),
{
    Step::Ask(ListConversationsOf::Memberships, ActionOf::MembershipsOf { user_id })
}

/// The step that looks up the next conversation, or ends where none is left.
pub open spec fn listing_next(
    pending: Seq<conversation_member::Model>,
    rows: Seq<ConversationWithMember>,
) -> Step<ListConversationsSpec, ActionSpec, Seq<ConversationWithMember>> {
    if pending.len() == 0 {
        Step::Done(Ok(latest_first(rows)))
    } else {
        Step::Ask(
            ListConversationsOf::Conversation {
                member: pending[0],
                pending: pending.drop_first(),
                rows,
            },
            ActionOf::FindConversation { conversation_id: pending[0].conversation_id },
        )
    }
}

fn look_up_next(
    pending: Vec<conversation_member::Model>,
    rows: Vec<ConversationWithMember>,
) -> (r: Step<ListConversations, Action, Vec<ConversationWithMember>>)
    ensures
        r@ == listing_next(pending@, rows@),
{
    let mut pending = pending;
    if pending.len() == 0 {
        return Step::Done(Ok(sort_latest_first(rows)));
    }
    let ghost before = pending@;
    let member = pending.remove(0);
    assert(pending@ == before.drop_first());
    let conversation_id = member.conversation_id;
    Step::Ask(
        ListConversationsOf::Conversation { member, pending, rows },
        ActionOf::FindConversation { conversation_id },
    )
}

impl Flow for ListConversationsOf<
    Vec<conversation_member::Model>,
    Vec<ConversationWithMember>,
> {
    type Output = Vec<ConversationWithMember>;

    open spec fn step(state: ListConversationsSpec, env: Env, event: Event) -> Step<
        ListConversationsSpec,
        ActionSpec,
        Seq<ConversationWithMember>,
    > {
        match state {
            ListConversationsOf::Memberships => match event.spec_members() {
                Err(e) => Step::Done(Err(e)),
                Ok(members) => listing_next(members@, seq![]),
            },
            ListConversationsOf::Conversation { member, pending, rows } =>
                match event.spec_conversation() {
                Err(e) => Step::Done(Err(e)),
                Ok(None) => listing_next(pending, rows),
                Ok(Some(conversation)) => listing_next(
                    pending,
                    rows.push(ConversationWithMember { conversation, member }),
                ),
            },
        }
    }

    fn next(self, env: Env, event: Event) -> (r: Step<
        ListConversations,
        Action,
        Vec<ConversationWithMember>,
    >)
        ensures
            r@ == ListConversations::step(self@, env, event),
    {
        match self {
            ListConversationsOf::Memberships => match event.members() {
                Err(e) => Step::Done(Err(e)),
                Ok(members) => look_up_next(members, Vec::new()),
            },
            ListConversationsOf::Conversation { member, pending, rows } =>
                match event.conversation() {
                Err(e) => Step::Done(Err(e)),
                Ok(None) => look_up_next(pending, rows),
                Ok(Some(conversation)) => {
                    let mut rows = rows;
                    rows.push(ConversationWithMember { conversation, member });
                    look_up_next(pending, rows)
                },
            },
        }
    }
}

/// The rows that changed at a given time.
pub open spec fn changed_then(at: int) -> spec_fn(ConversationWithMember) -> bool {
    |row: ConversationWithMember| changed_at(row) == at
}

/// A list of conversations is ordered by the time of the last change, the latest first; it holds
/// just the rows it was made of; and rows that changed at the same time keep their order.
pub proof fn law_latest_first_is_a_stable_sort(rows: Seq<ConversationWithMember>)
    ensures
        forall|i: int, j: int|
            0 <= i < j < rows.len() ==> latest_first(rows)[i].conversation.updated_at.total()
                >= latest_first(rows)[j].conversation.updated_at.total(),
        latest_first(rows).len() == rows.len(),
        latest_first(rows).to_multiset() == rows.to_multiset(),
        forall|at: int|
            latest_first(rows).filter(#[trigger] changed_then(at)) == rows.filter(
                changed_then(at),
            ),
    decreases rows.len(),
{
    if rows.len() > 0 {
        let head = rows.drop_last();
        let sorted = latest_first(head);
        law_latest_first_is_a_stable_sort(head);
        lemma_place_latest(sorted, rows.last());
        assert(rows == head.push(rows.last()));
        head.to_multiset_ensures();
        assert forall|at: int|
            latest_first(rows).filter(#[trigger] changed_then(at)) == rows.filter(
                changed_then(at),
            ) by {
            sorted.lemma_filter_push(rows.last(), changed_then(at));
            head.lemma_filter_push(rows.last(), changed_then(at));
        }
    }
}

proof fn lemma_place_latest(rows: Seq<ConversationWithMember>, row: ConversationWithMember)
    requires
        forall|i: int, j: int|
            0 <= i < j < rows.len() ==> changed_at(rows[i]) >= changed_at(rows[j]),
    ensures
        place_latest(rows, row).len() == rows.len() + 1,
        forall|i: int, j: int|
            0 <= i < j <= rows.len() ==> changed_at(place_latest(rows, row)[i]) >= changed_at(
                place_latest(rows, row)[j],
            ),
        place_latest(rows, row).to_multiset() == rows.to_multiset().insert(row),
        forall|at: int|
            place_latest(rows, row).filter(#[trigger] changed_then(at)) == rows.push(row).filter(
                changed_then(at),
            ),
    decreases rows.len(),
{
    rows.to_multiset_ensures();
    if rows.len() > 0 && changed_at(rows.last()) < changed_at(row) {
        let head = rows.drop_last();
        let last = rows.last();
        let placed = place_latest(head, row);
        lemma_place_latest(head, row);
        lemma_place_latest_bound(head, row, changed_at(last));
        placed.to_multiset_ensures();
        head.to_multiset_ensures();
        assert(rows == head.push(last));
        assert(place_latest(rows, row).to_multiset() == rows.to_multiset().insert(row));
        assert forall|at: int|
            place_latest(rows, row).filter(#[trigger] changed_then(at)) == rows.push(row).filter(
                changed_then(at),
            ) by {
            placed.lemma_filter_push(last, changed_then(at));
            head.lemma_filter_push(row, changed_then(at));
            head.lemma_filter_push(last, changed_then(at));
            rows.lemma_filter_push(row, changed_then(at));
        }
    }
}

proof fn lemma_place_latest_bound(
    rows: Seq<ConversationWithMember>,
    row: ConversationWithMember,
    bound: int,
)
    requires
        changed_at(row) >= bound,
        forall|i: int| 0 <= i < rows.len() ==> changed_at(rows[i]) >= bound,
    ensures
        forall|i: int|
            0 <= i < place_latest(rows, row).len() ==> changed_at(place_latest(rows, row)[i])
                >= bound,
    decreases rows.len(),
{
    if rows.len() > 0 && changed_at(rows.last()) < changed_at(row) {
        lemma_place_latest_bound(rows.drop_last(), row, bound);
        assert(place_latest(rows, row) == place_latest(rows.drop_last(), row).push(rows.last()));
        assert(changed_at(rows[rows.len() - 1]) >= bound);
    }
}

} // verus!

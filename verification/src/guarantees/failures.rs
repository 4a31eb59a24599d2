//! What becomes of a request when an action fails.

use vstd::prelude::*;

use crate::entity::message;
use crate::error::AppError;
use crate::flow::{ActionSpec, Env, Event, Flow, Step};
use crate::json::json_printed;
use crate::realtime::broadcast::Broadcast;
use crate::realtime::dialogue::{acknowledgement, Dialogue};
use crate::realtime::protocol::error_json;
use crate::repo::creation::{CreateDirect, CreateGroup};
use crate::repo::listing::{ListConversations, ListConversationsSpec};
use crate::repo::membership::{Access, ChangeMember, Join, UpdateLastRead};
use crate::repo::ownership::{Dissolve, TransferOwner};
use crate::repo::sending::InsertMessage;
use crate::routes::conversations::{CreateConversation, Listing, ListingSpec};
use crate::routes::groups::{ChangeSettings, DissolveGroup, GroupAdmin, HandOver};
use crate::routes::members::{
    AddMembers, ListMembers, MuteMember, RemoveMember, SetRole, SetSpeak,
};
use crate::routes::messages::{ListMessages, MarkRead, MessageReceipts, Recall, SendMessage};
use crate::service::{CreateMessage, ReadReceipts, RecallMessage};
use crate::text::text_of;

verus! {

/// Whether a step is that the request ends with an error.
pub open spec fn ends_with<S, T>(step: Step<S, ActionSpec, T>, error: AppError) -> bool {
    step == Step::<S, ActionSpec, T>::Done(Err(error))
}

/// A request for data that fails ends what asked for it with its error.
pub proof fn law_failures_are_passed_on(
    access: Access,
    join: Join,
    update: UpdateLastRead,
    change: ChangeMember,
    direct: CreateDirect,
    group: CreateGroup,
    listing: ListConversationsSpec,
    insert: InsertMessage,
    transfer: TransferOwner,
    dissolve: Dissolve,
    recall: RecallMessage,
    receipts: ReadReceipts,
    env: Env,
    error: AppError,
)
    ensures
        ends_with(Access::step(access, env, Event::Failed(error)), error),
        ends_with(Join::step(join, env, Event::Failed(error)), error),
        ends_with(UpdateLastRead::step(update, env, Event::Failed(error)), error),
        ends_with(ChangeMember::step(change, env, Event::Failed(error)), error),
        ends_with(CreateDirect::step(direct, env, Event::Failed(error)), error),
        ends_with(CreateGroup::step(group, env, Event::Failed(error)), error),
        ends_with(ListConversations::step(listing, env, Event::Failed(error)), error),
        ends_with(InsertMessage::step(insert, env, Event::Failed(error)), error),
        ends_with(TransferOwner::step(transfer, env, Event::Failed(error)), error),
        ends_with(Dissolve::step(dissolve, env, Event::Failed(error)), error),
        ends_with(RecallMessage::step(recall, env, Event::Failed(error)), error),
        ends_with(ReadReceipts::step(receipts, env, Event::Failed(error)), error),
{
}

/// A message that was stored is not lost to a failure of telling others about it: an announcement
/// that fails still ends with the message, and so does a broadcast whose members cannot be read.
pub proof fn law_telling_does_not_fail(
    create: CreateMessage,
    broadcast: Broadcast,
    env: Env,
    error: AppError,
)
    ensures
        create is Announced ==> CreateMessage::step(create, env, Event::Failed(error)) == Step::<
            CreateMessage,
            ActionSpec,
            (message::Model, bool),
        >::Done(Ok((create->Announced_row, true))),
        Broadcast::step(broadcast, env, Event::Failed(error)) matches Step::Done(result)
            && result is Ok,
        broadcast matches Broadcast::Members { row } ==> Broadcast::step(
            broadcast,
            env,
            Event::Failed(error),
        ) == Step::<Broadcast, ActionSpec, message::Model>::Done(Ok(row)),
        broadcast matches Broadcast::Pushed { row } ==> Broadcast::step(
            broadcast,
            env,
            Event::Failed(error),
        ) == Step::<Broadcast, ActionSpec, message::Model>::Done(Ok(row)),
{
}

/// A message that cannot be checked, stored or prepared for its announcement is not sent: sending
/// ends with what failed.
pub proof fn law_failures_end_sending(create: CreateMessage, env: Env, error: AppError)
    requires
        !(create is Announced),
    ensures
        ends_with(CreateMessage::step(create, env, Event::Failed(error)), error),
{
}

/// A request about a conversation whose data cannot be read or written ends with what failed.
pub proof fn law_failures_end_requests(
    listing: ListingSpec,
    create: CreateConversation,
    messages: ListMessages,
    send: SendMessage,
    read: MarkRead,
    recall: Recall,
    receipts: MessageReceipts,
    env: Env,
    error: AppError,
)
    ensures
        ends_with(Listing::step(listing, env, Event::Failed(error)), error),
        ends_with(CreateConversation::step(create, env, Event::Failed(error)), error),
        ends_with(ListMessages::step(messages, env, Event::Failed(error)), error),
        send is Access ==> ends_with(SendMessage::step(send, env, Event::Failed(error)), error),
        send matches SendMessage::Create { create, .. } ==> (!(create is Announced) ==> ends_with(
            SendMessage::step(send, env, Event::Failed(error)),
            error,
        )),
        ends_with(MarkRead::step(read, env, Event::Failed(error)), error),
        !(recall is Pushed) ==> ends_with(Recall::step(recall, env, Event::Failed(error)), error),
        ends_with(MessageReceipts::step(receipts, env, Event::Failed(error)), error),
{
}

/// A request about the members of a conversation whose data cannot be read or written ends with
/// what failed.
pub proof fn law_failures_end_requests_about_members(
    list: ListMembers,
    add: AddMembers,
    remove: RemoveMember,
    mute: MuteMember,
    speak: SetSpeak,
    role: SetRole,
    env: Env,
    error: AppError,
)
    ensures
        ends_with(ListMembers::step(list, env, Event::Failed(error)), error),
        ends_with(AddMembers::step(add, env, Event::Failed(error)), error),
        ends_with(RemoveMember::step(remove, env, Event::Failed(error)), error),
        !(mute is Pushed) ==> ends_with(MuteMember::step(mute, env, Event::Failed(error)), error),
        ends_with(SetSpeak::step(speak, env, Event::Failed(error)), error),
        !(role is Pushed) ==> ends_with(SetRole::step(role, env, Event::Failed(error)), error),
{
}

/// A request about a group whose data cannot be read or written ends with what failed.
pub proof fn law_failures_end_requests_about_groups(
    admin: GroupAdmin,
    settings: ChangeSettings,
    hand_over: HandOver,
    dissolve: DissolveGroup,
    env: Env,
    error: AppError,
)
    ensures
        ends_with(GroupAdmin::step(admin, env, Event::Failed(error)), error),
        ends_with(ChangeSettings::step(settings, env, Event::Failed(error)), error),
        !(hand_over is Pushed) ==> ends_with(
            HandOver::step(hand_over, env, Event::Failed(error)),
            error,
        ),
        !(dissolve is Pushed) ==> ends_with(
            DissolveGroup::step(dissolve, env, Event::Failed(error)),
            error,
        ),
{
}

/// A request that has pushed what there was to tell is answered as it would have been, whatever
/// became of the push.
pub proof fn law_pushing_does_not_fail(
    recall: Recall,
    mute: MuteMember,
    role: SetRole,
    hand_over: HandOver,
    dissolve: DissolveGroup,
    env: Env,
    error: AppError,
)
    ensures
        recall is Pushed ==> Recall::step(recall, env, Event::Failed(error)) == Recall::step(
            recall,
            env,
            Event::Done,
        ),
        mute is Pushed ==> MuteMember::step(mute, env, Event::Failed(error)) == MuteMember::step(
            mute,
            env,
            Event::Done,
        ),
        role is Pushed ==> SetRole::step(role, env, Event::Failed(error)) == SetRole::step(
            role,
            env,
            Event::Done,
        ),
        hand_over is Pushed ==> HandOver::step(hand_over, env, Event::Failed(error))
            == HandOver::step(hand_over, env, Event::Done),
        dissolve is Pushed ==> DissolveGroup::step(dissolve, env, Event::Failed(error))
            == DissolveGroup::step(dissolve, env, Event::Done),
{
}

/// A client whose message could not be sent is answered with what failed, under the identifier it
/// gave the request; one whose message was sent is told so even where the members could not be
/// told. A read mark or a note on typing that fails is passed over in silence.
pub proof fn law_clients_are_told_of_failures(dialogue: Dialogue, env: Env, error: AppError)
    ensures
        dialogue matches Dialogue::Send { request_id, create, .. } ==> (!(create is Announced)
            ==> Dialogue::step(dialogue, env, Event::Failed(error)) == Step::<
            Dialogue,
            ActionSpec,
            Option<Seq<char>>,
        >::Done(
            Ok(
                Some(
                    json_printed(
                        error_json(text_of(request_id), error.spec_code(), error.spec_message()),
                    ),
                ),
            ),
        )),
        dialogue matches Dialogue::Broadcast { request_id, client_msg_id, broadcast }
            ==> Dialogue::step(dialogue, env, Event::Failed(error)) == Step::<
            Dialogue,
            ActionSpec,
            Option<Seq<char>>,
        >::Done(
            Ok(
                Some(
                    acknowledgement(
                        text_of(request_id),
                        text_of(client_msg_id),
                        match broadcast {
                            Broadcast::Members { row } => row,
                            Broadcast::Pushed { row } => row,
                        },
                    ),
                ),
            ),
        ),
        !(dialogue is Send) && !(dialogue is Broadcast) ==> Dialogue::step(
            dialogue,
            env,
            Event::Failed(error),
        ) == Step::<Dialogue, ActionSpec, Option<Seq<char>>>::Done(Ok(None)),
{
}

} // verus!

use vstd::prelude::*;

use crate::clock::{utc_now_timestamp, UtcInstant};
use crate::identifier::Identifier;
use crate::stream_types::StreamMessage;

verus! {

/// A user's answer to an invitation, stamped with the time it was made.
#[derive(Debug)]
pub struct InvitationResponse {
    invitation_id: Identifier,
    responder_user_id: Identifier,
    kind: InvitationResponseKind,
    ts_utc: i64,
}

impl InvitationResponse {
    pub closed spec fn spec_invitation_id(&self) -> Identifier {
        self.invitation_id
    }

    pub closed spec fn spec_user_id(&self) -> Identifier {
        self.responder_user_id
    }

    pub closed spec fn spec_kind(&self) -> InvitationResponseKind {
        self.kind
    }

    pub closed spec fn spec_ts(&self) -> i64 {
        self.ts_utc
    }

    /// An answer made now.
    pub fn new(invitation_uuid: Identifier, user_id: Identifier, kind: InvitationResponseKind) -> (r: Self)
        ensures
            r.spec_invitation_id() == invitation_uuid,
            r.spec_user_id() == user_id,
            r.spec_kind() == kind,
    {
        InvitationResponse {
            invitation_id: invitation_uuid,
            responder_user_id: user_id,
            kind,
            ts_utc: utc_now_timestamp(),
        }
    }

    pub fn user_id(&self) -> (r: Identifier)
        ensures
            r == self.spec_user_id(),
    {
        self.responder_user_id
    }

    pub fn invitation_id(&self) -> (r: Identifier)
        ensures
            r == self.spec_invitation_id(),
    {
        self.invitation_id
    }

    /// When the answer was made, to the second.
    pub fn get_timestamp(&self) -> (r: UtcInstant)
        ensures
            r.spec_secs() == self.spec_ts(),
            r.spec_nanos() == 0,
    {
        UtcInstant::from_timestamp(self.ts_utc)
    }

    pub fn invitation_response_kind(&self) -> (r: InvitationResponseKind)
        ensures
            r == self.spec_kind(),
    {
        self.kind
    }
}

#[derive(Debug, Clone, Copy, PartialEq, Eq, Structural)]
pub enum InvitationResponseKind {
    Accepted,
    Refused,
}

/// An invitation addressed to a peer by their user name.
#[derive(Debug)]
pub struct PeerInvitationByTextHandle {
    emitting_user_id: Identifier,
    peer_username_handle: String,
}

impl PeerInvitationByTextHandle {
    pub closed spec fn spec_emitting_user_id(&self) -> Identifier {
        self.emitting_user_id
    }

    pub closed spec fn spec_peer_username_handle(&self) -> Seq<char> {
        self.peer_username_handle@
    }

    pub fn new(emitting_user_id: Identifier, peer_username_handle: &str) -> (r: Self)
        ensures
            r.spec_emitting_user_id() == emitting_user_id,
            r.spec_peer_username_handle() == peer_username_handle@,
    {
        PeerInvitationByTextHandle {
            emitting_user_id,
            peer_username_handle: peer_username_handle.to_owned(),
        }
    }

    pub fn get_emitting_user_id(&self) -> (r: Identifier)
        ensures
            r == self.spec_emitting_user_id(),
    {
        self.emitting_user_id
    }

    pub fn get_peer_username_handle(&self) -> (r: &str)
        ensures
            r@ == self.spec_peer_username_handle(),
    {
        self.peer_username_handle.as_str()
    }
}

#[derive(Debug, Clone, Copy, PartialEq, Eq, Structural)]
pub enum InvitationOrientation {
    AsSender,
    AsReceiver,
}

/// An invitation on its way from its emitter to its receiver, stamped with
/// the second it was made.
pub struct InvitationMessage {
    invitation_orientation: InvitationOrientation,
    invitation_id: Identifier,
    emitter_id: Identifier,
    emitter_name: String,
    receiver_id: Identifier,
    ts: i64,
}

impl InvitationMessage {
    pub closed spec fn spec_orientation(&self) -> InvitationOrientation {
        self.invitation_orientation
    }

    pub closed spec fn spec_invitation_id(&self) -> Identifier {
        self.invitation_id
    }

    pub closed spec fn spec_emitter_id(&self) -> Identifier {
        self.emitter_id
    }

    pub closed spec fn spec_emitter_name(&self) -> Seq<char> {
        self.emitter_name@
    }

    pub closed spec fn spec_receiver_id(&self) -> Identifier {
        self.receiver_id
    }

    pub fn new_for_sender(
        invitation_id: Identifier,
        emitter_id: Identifier,
        emitter_name: &str,
        receiver_id: Identifier,
    ) -> (r: Self)
        ensures
            r.spec_orientation() == InvitationOrientation::AsSender,
            r.spec_invitation_id() == invitation_id,
            r.spec_emitter_id() == emitter_id,
            r.spec_emitter_name() == emitter_name@,
            r.spec_receiver_id() == receiver_id,
    {
        InvitationMessage {
            invitation_orientation: InvitationOrientation::AsSender,
            invitation_id,
            emitter_id,
            emitter_name: emitter_name.to_owned(),
            receiver_id,
            ts: utc_now_timestamp(),
        }
    }

    /// The receiver's copy of an invitation; it is marked as seen from the
    /// sender's side, as the sender's copy is.
    pub fn new_for_receiver(
        invitation_id: Identifier,
        emitter_id: Identifier,
        emitter_name: &str,
        receiver_id: Identifier,
    ) -> (r: Self)
        ensures
            r.spec_orientation() == InvitationOrientation::AsSender,
            r.spec_invitation_id() == invitation_id,
            r.spec_emitter_id() == emitter_id,
            r.spec_emitter_name() == emitter_name@,
            r.spec_receiver_id() == receiver_id,
    {
        InvitationMessage {
            invitation_orientation: InvitationOrientation::AsSender,
            invitation_id,
            emitter_id,
            emitter_name: emitter_name.to_owned(),
            receiver_id,
            ts: utc_now_timestamp(),
        }
    }

    pub fn dest_id(&self) -> (r: Identifier)
        ensures
            r == self.spec_receiver_id(),
    {
        self.receiver_id
    }

    pub fn emitter_id(&self) -> (r: Identifier)
        ensures
            r == self.spec_emitter_id(),
    {
        self.emitter_id
    }

    /// The stream message that carries this invitation, under a fresh
    /// request id: the emitter's name stands for both users.
    pub fn into_stream_message(self) -> (r: StreamMessage)
        ensures
            StreamMessage::is_invitation_request(
                r,
                self.spec_invitation_id(),
                self.spec_emitter_id(),
                self.spec_emitter_name(),
                self.spec_emitter_name(),
                self.spec_receiver_id(),
            ),
    {
        let invitee_name = self.emitter_name.clone();
        StreamMessage::InvitationRequest {
            req_id: Identifier::now_v7(),
            invitation_message_id: self.invitation_id,
            inviter_id: self.emitter_id,
            inviter_name: self.emitter_name,
            invitee_name,
            invitee_id: self.receiver_id,
            ts: self.ts,
        }
    }
}

} // verus!

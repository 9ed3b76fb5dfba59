use vstd::prelude::*;

use crate::clock::utc_now_timestamp;
use crate::display_context_types::DisplayContext;
use crate::identifier::Identifier;

verus! {

/// The user a stream session belongs to.
#[derive(Clone, Copy, Debug)]
pub struct UserStreamSessionInfo {
    user_id: Identifier,
}

impl UserStreamSessionInfo {
    pub closed spec fn spec_user_id(&self) -> Identifier {
        self.user_id
    }

    pub fn new(user_id: Identifier) -> (r: Self)
        ensures
            r.spec_user_id() == user_id,
    {
        UserStreamSessionInfo { user_id }
    }

    pub fn user_id(&self) -> (r: Identifier)
        ensures
            r == self.spec_user_id(),
    {
        self.user_id
    }
}

/// A message pushed on a user's stream. Each carries a fresh request id so
/// that the client can confirm it; times are UTC seconds.
#[derive(Debug, Clone)]
pub enum StreamMessage {
    InvitationRequest {
        req_id: Identifier,
        invitation_message_id: Identifier,
        inviter_id: Identifier,
        inviter_name: String,
        invitee_name: String,
        invitee_id: Identifier,
        ts: i64,
    },
    InvitationResponse {
        req_id: Identifier,
        invitation_message_id: Identifier,
        inviter_id: Identifier,
        invited_id: Identifier,
        inviter_friend_reg_version: Option<u64>,
        invitee_friend_reg_version: Option<u64>,
        invitation_accepted: bool,
        first_common_display_context: Option<DisplayContext>,
        ts: i64,
    },
    RemovedNotification { req_id: Identifier, peer_id: Identifier, removed_notification_id: Identifier },
    ContactRequest { req_id: Identifier, peer_id: Identifier, ts: i64 },
    NewSessionVersionAvailable { req_id: Identifier, peer_id: Identifier },
}

/// The request id of a stream message, returned to the caller that sends it.
#[derive(Clone, Copy, Debug)]
pub struct StreamMessageId {
    req_id: Identifier,
}

impl StreamMessageId {
    pub closed spec fn spec_req_id(&self) -> Identifier {
        self.req_id
    }

    pub fn req_id(&self) -> (r: Identifier)
        ensures
            r == self.spec_req_id(),
    {
        self.req_id
    }
}

impl StreamMessage {
    /// The request id, whatever the variant.
    pub open spec fn spec_request_id(self) -> Identifier {
        match self {
            StreamMessage::InvitationRequest { req_id, .. } => req_id,
            StreamMessage::InvitationResponse { req_id, .. } => req_id,
            StreamMessage::RemovedNotification { req_id, .. } => req_id,
            StreamMessage::ContactRequest { req_id, .. } => req_id,
            StreamMessage::NewSessionVersionAvailable { req_id, .. } => req_id,
        }
    }

    /// The other user the message is about: the invitee of a request, the
    /// inviter of a response, the peer otherwise.
    pub open spec fn spec_peer_id(self) -> Identifier {
        match self {
            StreamMessage::InvitationRequest { invitee_id, .. } => invitee_id,
            StreamMessage::InvitationResponse { inviter_id, .. } => inviter_id,
            StreamMessage::RemovedNotification { peer_id, .. } => peer_id,
            StreamMessage::ContactRequest { peer_id, .. } => peer_id,
            StreamMessage::NewSessionVersionAvailable { peer_id, .. } => peer_id,
        }
    }

    /// Whether `m` is an invitation request with these fields.
    pub open spec fn is_invitation_request(
        m: StreamMessage,
        invitation_message_id: Identifier,
        inviter_id: Identifier,
        inviter_name: Seq<char>,
        invitee_name: Seq<char>,
        invitee_id: Identifier,
    ) -> bool {
        match m {
            StreamMessage::InvitationRequest {
                invitation_message_id: im,
                inviter_id: ii,
                inviter_name: iname,
                invitee_name: ename,
                invitee_id: ei,
                ..
            } => im == invitation_message_id && ii == inviter_id && iname@ == inviter_name
                && ename@ == invitee_name && ei == invitee_id,
            _ => false,
        }
    }

    /// Whether `m` is an invitation response with these fields.
    pub open spec fn is_invitation_response(
        m: StreamMessage,
        invitation_message_id: Identifier,
        inviter_id: Identifier,
        invited_id: Identifier,
        inviter_friend_reg_version: Option<u64>,
        invitee_friend_reg_version: Option<u64>,
        invitation_accepted: bool,
        first_common_display_context: Option<DisplayContext>,
    ) -> bool {
        match m {
            StreamMessage::InvitationResponse {
                invitation_message_id: im,
                inviter_id: ii,
                invited_id: ei,
                inviter_friend_reg_version: iv,
                invitee_friend_reg_version: ev,
                invitation_accepted: acc,
                first_common_display_context: dc,
                ..
            } => im == invitation_message_id && ii == inviter_id && ei == invited_id
                && iv == inviter_friend_reg_version && ev == invitee_friend_reg_version
                && acc == invitation_accepted && dc == first_common_display_context,
            _ => false,
        }
    }

    pub fn new_session_version_available(peer_id: Identifier) -> (r: Self)
        ensures
            r is NewSessionVersionAvailable,
            r.spec_peer_id() == peer_id,
    {
        StreamMessage::NewSessionVersionAvailable { req_id: Identifier::now_v7(), peer_id }
    }

    pub fn new_removed_notification(peer_id: Identifier, removed_notification_id: Identifier) -> (r: Self)
        ensures
            r is RemovedNotification,
            r.spec_peer_id() == peer_id,
            r->removed_notification_id == removed_notification_id,
    {
        StreamMessage::RemovedNotification {
            req_id: Identifier::now_v7(),
            peer_id,
            removed_notification_id,
        }
    }

    /// An accepted invitation, with the first context the two users share.
    pub fn new_invitation_response_confirmation(
        invitation_message_id: Identifier,
        inviter_id: Identifier,
        invited_id: Identifier,
        first_common_display_context: DisplayContext,
        invitee_friend_reg_version: Option<u64>,
        inviter_friend_reg_version: Option<u64>,
    ) -> (r: Self)
        ensures
            Self::is_invitation_response(
                r,
                invitation_message_id,
                inviter_id,
                invited_id,
                inviter_friend_reg_version,
                invitee_friend_reg_version,
                true,
                Some(first_common_display_context),
            ),
    {
        StreamMessage::InvitationResponse {
            req_id: Identifier::now_v7(),
            invitation_message_id,
            inviter_id,
            invited_id,
            inviter_friend_reg_version,
            invitee_friend_reg_version,
            invitation_accepted: true,
            first_common_display_context: Some(first_common_display_context),
            ts: utc_now_timestamp(),
        }
    }

    /// A refused invitation: no shared context, no versions.
    pub fn new_invitation_response_refused(
        invitation_message_id: Identifier,
        inviter_id: Identifier,
        invited_id: Identifier,
    ) -> (r: Self)
        ensures
            Self::is_invitation_response(
                r,
                invitation_message_id,
                inviter_id,
                invited_id,
                None,
                None,
                false,
                None,
            ),
    {
        StreamMessage::InvitationResponse {
            req_id: Identifier::now_v7(),
            invitation_message_id,
            inviter_id,
            invited_id,
            inviter_friend_reg_version: None,
            invitee_friend_reg_version: None,
            invitation_accepted: false,
            first_common_display_context: None,
            ts: utc_now_timestamp(),
        }
    }

    pub fn new_contact_request(peer_id: Identifier) -> (r: (StreamMessageId, Self))
        ensures
            r.1 is ContactRequest,
            r.1.spec_peer_id() == peer_id,
            r.0.spec_req_id() == r.1.spec_request_id(),
    {
        let req_id = Identifier::now_v7();
        (
            StreamMessageId { req_id },
            StreamMessage::ContactRequest { req_id, peer_id, ts: utc_now_timestamp() },
        )
    }

    /// The request as the sender's stream shows it: the emitter's name
    /// stands for both users.
    pub fn new_invitation_request_for_sender(
        invitation_message_id: Identifier,
        emitter_id: Identifier,
        emitter_name: &str,
        dest_id: Identifier,
    ) -> (r: (StreamMessageId, Self))
        ensures
            Self::is_invitation_request(
                r.1,
                invitation_message_id,
                emitter_id,
                emitter_name@,
                emitter_name@,
                dest_id,
            ),
            r.0.spec_req_id() == r.1.spec_request_id(),
    {
        let req_id = Identifier::now_v7();
        (
            StreamMessageId { req_id },
            StreamMessage::InvitationRequest {
                req_id,
                invitation_message_id,
                inviter_id: emitter_id,
                inviter_name: emitter_name.to_owned(),
                invitee_name: emitter_name.to_owned(),
                invitee_id: dest_id,
                ts: utc_now_timestamp(),
            },
        )
    }

    pub fn new_invitation_request_for_receiver(
        invitation_message_id: Identifier,
        inviter_id: Identifier,
        inviter_name: &str,
        invitee_name: &str,
        invitee_id: Identifier,
    ) -> (r: (StreamMessageId, Self))
        ensures
            Self::is_invitation_request(
                r.1,
                invitation_message_id,
                inviter_id,
                inviter_name@,
                invitee_name@,
                invitee_id,
            ),
            r.0.spec_req_id() == r.1.spec_request_id(),
    {
        let req_id = Identifier::now_v7();
        (
            StreamMessageId { req_id },
            StreamMessage::InvitationRequest {
                req_id,
                invitation_message_id,
                inviter_id,
                inviter_name: inviter_name.to_owned(),
                invitee_name: invitee_name.to_owned(),
                invitee_id,
                ts: utc_now_timestamp(),
            },
        )
    }

    pub fn get_request_id(&self) -> (r: Identifier)
        ensures
            r == self.spec_request_id(),
    {
        match self {
            StreamMessage::ContactRequest { req_id, .. } => *req_id,
            StreamMessage::InvitationRequest { req_id, .. } => *req_id,
            StreamMessage::InvitationResponse { req_id, .. } => *req_id,
            StreamMessage::RemovedNotification { req_id, .. } => *req_id,
            StreamMessage::NewSessionVersionAvailable { req_id, .. } => *req_id,
        }
    }

    /// The other user the message is about; never the user whose stream
    /// carries it.
    pub fn get_peer_id(&self) -> (r: Identifier)
        ensures
            r == self.spec_peer_id(),
    {
        match self {
            StreamMessage::RemovedNotification { peer_id, .. } => *peer_id,
            StreamMessage::ContactRequest { peer_id, .. } => *peer_id,
            StreamMessage::InvitationRequest { invitee_id, .. } => *invitee_id,
            StreamMessage::InvitationResponse { inviter_id, .. } => *inviter_id,
            StreamMessage::NewSessionVersionAvailable { peer_id, .. } => *peer_id,
        }
    }
}

} // verus!

use vstd::prelude::*;

use crate::clock::UtcInstant;
use crate::identifier::Identifier;
use crate::text::str_equals;

verus! {

/// A notification passed between server nodes.
#[derive(Debug)]
pub struct NotifAccrossNodes {
    notification_id: Identifier,
    creation_ts: i64,
    kind: NotifAcrossKind,
}

/// What a notification is about.
#[derive(Debug, Clone)]
pub enum NotifAcrossKind {
    NewInvitation {
        direction: String,
        invitation_uuid: Identifier,
        inviter_id: Identifier,
        inviter_name: String,
        invitee_name: String,
        invitee_id: Identifier,
        ts: i64,
        accepted: String,
    },
    NewRessourceAvailable {
        notification_uuid: Identifier,
        emitter_id: Identifier,
        recipient_id: Identifier,
        emitter_name: String,
        recipient_name: String,
        ts: i64,
    },
}

impl NotifAccrossNodes {
    pub closed spec fn spec_notification_id(&self) -> Identifier {
        self.notification_id
    }

    pub closed spec fn spec_creation_ts(&self) -> i64 {
        self.creation_ts
    }

    pub closed spec fn spec_kind(&self) -> NotifAcrossKind {
        self.kind
    }

    pub fn new(notification_id: Identifier, creation_ts: UtcInstant, kind: NotifAcrossKind) -> (r: Self)
        ensures
            r.spec_notification_id() == notification_id,
            r.spec_creation_ts() == creation_ts.spec_secs(),
            r.spec_kind() == kind,
    {
        NotifAccrossNodes { notification_id, creation_ts: creation_ts.timestamp(), kind }
    }

    pub fn get_notification_id(&self) -> (r: Identifier)
        ensures
            r == self.spec_notification_id(),
    {
        self.notification_id
    }

    /// The creation time, to the second.
    pub fn creation_ts(&self) -> (r: UtcInstant)
        ensures
            r.spec_secs() == self.spec_creation_ts(),
            r.spec_nanos() == 0,
    {
        UtcInstant::from_timestamp(self.creation_ts)
    }

    pub fn kind(&self) -> (r: &NotifAcrossKind)
        ensures
            *r == self.spec_kind(),
    {
        &self.kind
    }
}

/// The accepted values of an invitation's acceptation status.
pub open spec fn is_acceptation_status(s: Seq<char>) -> bool {
    s == "pending"@ || s == "accepted"@ || s == "refused"@
}

/// The accepted values of an invitation's direction.
pub open spec fn is_direction(s: Seq<char>) -> bool {
    s == "incoming"@ || s == "outgoing"@
}

/// Whether `k` is an invitation notification with these fields.
pub open spec fn is_invitation_notif(
    k: NotifAcrossKind,
    direction: Seq<char>,
    invitation_uuid: Identifier,
    inviter_id: Identifier,
    inviter_name: Seq<char>,
    invitee_name: Seq<char>,
    invitee_id: Identifier,
    ts: i64,
    accepted: Seq<char>,
) -> bool {
    match k {
        NotifAcrossKind::NewInvitation {
            direction: d,
            invitation_uuid: iu,
            inviter_id: ii,
            inviter_name: iname,
            invitee_name: ename,
            invitee_id: ei,
            ts: t,
            accepted: acc,
        } => d@ == direction && iu == invitation_uuid && ii == inviter_id && iname@ == inviter_name
            && ename@ == invitee_name && ei == invitee_id && t == ts && acc@ == accepted,
        NotifAcrossKind::NewRessourceAvailable { .. } => false,
    }
}

/// Whether `k` is a resource notification with these fields.
pub open spec fn is_ressource_available_notif(
    k: NotifAcrossKind,
    notification_uuid: Identifier,
    emitter_id: Identifier,
    emitter_name: Seq<char>,
    recipient_name: Seq<char>,
    recipient_id: Identifier,
    ts: i64,
) -> bool {
    match k {
        NotifAcrossKind::NewRessourceAvailable {
            notification_uuid: nu,
            emitter_id: ei,
            recipient_id: ri,
            emitter_name: en,
            recipient_name: rn,
            ts: t,
        } => nu == notification_uuid && ei == emitter_id && ri == recipient_id && en@ == emitter_name
            && rn@ == recipient_name && t == ts,
        NotifAcrossKind::NewInvitation { .. } => false,
    }
}

/// Accepts `pending`, `accepted` and `refused`.
pub fn check_contract_on_accepted(accepted: &str) -> (r: Result<(), String>)
    ensures
        r is Ok <==> is_acceptation_status(accepted@),
{
    if str_equals(accepted, "pending") || str_equals(accepted, "accepted") || str_equals(accepted, "refused") {
        Ok(())
    } else {
        Err("check contract on accepted error : Wrong value".to_owned())
    }
}

/// Accepts `incoming` and `outgoing`.
pub fn check_contract_on_direction(direction: &str) -> (r: Result<(), String>)
    ensures
        r is Ok <==> is_direction(direction@),
{
    if str_equals(direction, "incoming") || str_equals(direction, "outgoing") {
        Ok(())
    } else {
        Err("check contract on direction error : Wrong value".to_owned())
    }
}

impl NotifAcrossKind {
    /// An invitation notification; refused unless the direction and the
    /// acceptation status are among the accepted values.
    pub fn new_invitation_notif(
        direction: &str,
        invitation_uuid: Identifier,
        inviter_id: Identifier,
        inviter_name: &str,
        invitee_name: &str,
        invitee_id: Identifier,
        timestamp: UtcInstant,
        accepted: &str,
    ) -> (r: Result<Self, String>)
        ensures
            r is Ok <==> is_direction(direction@) && is_acceptation_status(accepted@),
            r is Ok ==> is_invitation_notif(
                r->Ok_0,
                direction@,
                invitation_uuid,
                inviter_id,
                inviter_name@,
                invitee_name@,
                invitee_id,
                timestamp.spec_secs(),
                accepted@,
            ),
    {
        check_contract_on_direction(direction)?;
        check_contract_on_accepted(accepted)?;
        Ok(
            NotifAcrossKind::NewInvitation {
                direction: direction.to_owned(),
                invitation_uuid,
                inviter_id,
                inviter_name: inviter_name.to_owned(),
                invitee_name: invitee_name.to_owned(),
                invitee_id,
                ts: timestamp.timestamp(),
                accepted: accepted.to_owned(),
            },
        )
    }

    pub fn new_ressource_available_notification(
        notification_uuid: Identifier,
        emitter_id: Identifier,
        emitter_name: &str,
        recipient_name: &str,
        recipient_id: Identifier,
        timestamp: UtcInstant,
    ) -> (r: Self)
        ensures
            is_ressource_available_notif(
                r,
                notification_uuid,
                emitter_id,
                emitter_name@,
                recipient_name@,
                recipient_id,
                timestamp.spec_secs(),
            ),
    {
        NotifAcrossKind::NewRessourceAvailable {
            notification_uuid,
            emitter_id,
            recipient_id,
            emitter_name: emitter_name.to_owned(),
            recipient_name: recipient_name.to_owned(),
            ts: timestamp.timestamp(),
        }
    }

    /// The direction of an invitation; `no_direction` otherwise.
    pub fn get_direction(&self) -> (r: &str)
        ensures
            r@ == match self {
                NotifAcrossKind::NewInvitation { direction, .. } => direction@,
                NotifAcrossKind::NewRessourceAvailable { .. } => "no_direction"@,
            },
    {
        match self {
            NotifAcrossKind::NewInvitation { direction, .. } => direction.as_str(),
            NotifAcrossKind::NewRessourceAvailable { .. } => "no_direction",
        }
    }

    /// The inviter, or the emitter of the resource.
    pub fn get_emitter_id(&self) -> (r: Identifier)
        ensures
            r == match self {
                NotifAcrossKind::NewInvitation { inviter_id, .. } => *inviter_id,
                NotifAcrossKind::NewRessourceAvailable { emitter_id, .. } => *emitter_id,
            },
    {
        match self {
            NotifAcrossKind::NewInvitation { inviter_id, .. } => *inviter_id,
            NotifAcrossKind::NewRessourceAvailable { emitter_id, .. } => *emitter_id,
        }
    }

    /// The invitee, or the recipient of the resource.
    pub fn get_recipient_id(&self) -> (r: Identifier)
        ensures
            r == match self {
                NotifAcrossKind::NewInvitation { invitee_id, .. } => *invitee_id,
                NotifAcrossKind::NewRessourceAvailable { recipient_id, .. } => *recipient_id,
            },
    {
        match self {
            NotifAcrossKind::NewInvitation { invitee_id, .. } => *invitee_id,
            NotifAcrossKind::NewRessourceAvailable { recipient_id, .. } => *recipient_id,
        }
    }

    /// The invitation's id, or the notification's.
    pub fn get_notification_id(&self) -> (r: Identifier)
        ensures
            r == match self {
                NotifAcrossKind::NewInvitation { invitation_uuid, .. } => *invitation_uuid,
                NotifAcrossKind::NewRessourceAvailable { notification_uuid, .. } => *notification_uuid,
            },
    {
        match self {
            NotifAcrossKind::NewInvitation { invitation_uuid, .. } => *invitation_uuid,
            NotifAcrossKind::NewRessourceAvailable { notification_uuid, .. } => *notification_uuid,
        }
    }

    /// The inviter's name, or the emitter's.
    pub fn get_emitter_name(&self) -> (r: &str)
        ensures
            r@ == match self {
                NotifAcrossKind::NewInvitation { inviter_name, .. } => inviter_name@,
                NotifAcrossKind::NewRessourceAvailable { emitter_name, .. } => emitter_name@,
            },
    {
        match self {
            NotifAcrossKind::NewInvitation { inviter_name, .. } => inviter_name.as_str(),
            NotifAcrossKind::NewRessourceAvailable { emitter_name, .. } => emitter_name.as_str(),
        }
    }

    /// The invitee's name, or the recipient's.
    pub fn get_recipient_name(&self) -> (r: &str)
        ensures
            r@ == match self {
                NotifAcrossKind::NewInvitation { invitee_name, .. } => invitee_name@,
                NotifAcrossKind::NewRessourceAvailable { recipient_name, .. } => recipient_name@,
            },
    {
        match self {
            NotifAcrossKind::NewInvitation { invitee_name, .. } => invitee_name.as_str(),
            NotifAcrossKind::NewRessourceAvailable { recipient_name, .. } => recipient_name.as_str(),
        }
    }

    /// The acceptation status of an invitation; `get_acceptation_status`
    /// otherwise.
    pub fn get_acceptation_status(&self) -> (r: &str)
        ensures
            r@ == match self {
                NotifAcrossKind::NewInvitation { accepted, .. } => accepted@,
                NotifAcrossKind::NewRessourceAvailable { .. } => "get_acceptation_status"@,
            },
    {
        match self {
            NotifAcrossKind::NewInvitation { accepted, .. } => accepted.as_str(),
            NotifAcrossKind::NewRessourceAvailable { .. } => "get_acceptation_status",
        }
    }

    /// The time of the event, to the second.
    pub fn get_timestamp(&self) -> (r: UtcInstant)
        ensures
            r.spec_nanos() == 0,
            r.spec_secs() == match self {
                NotifAcrossKind::NewInvitation { ts, .. } => *ts,
                NotifAcrossKind::NewRessourceAvailable { ts, .. } => *ts,
            },
    {
        match self {
            NotifAcrossKind::NewInvitation { ts, .. } => UtcInstant::from_timestamp(*ts),
            NotifAcrossKind::NewRessourceAvailable { ts, .. } => UtcInstant::from_timestamp(*ts),
        }
    }
}

} // verus!

use bincode::de::Decoder;
use bincode::enc::Encoder;
use bincode::error::{DecodeError, EncodeError};
use bincode::{Decode, Encode};
use faces_common_types::invitation::{InvitationResponse, InvitationResponseKind};
use faces_common_types::Identifier;
use uuid::Uuid;

/// The wire layout of an invitation answer: two identifiers, the kind as a
/// variant index, the UTC seconds.
struct WireInvitationResponse {
    invitation_id: [u8; 16],
    responder_user_id: [u8; 16],
    kind: u32,
    ts_utc: i64,
}

impl Encode for WireInvitationResponse {
    fn encode<E: Encoder>(&self, encoder: &mut E) -> Result<(), EncodeError> {
        self.invitation_id.encode(encoder)?;
        self.responder_user_id.encode(encoder)?;
        self.kind.encode(encoder)?;
        self.ts_utc.encode(encoder)
    }
}

impl<Context> Decode<Context> for WireInvitationResponse {
    fn decode<D: Decoder<Context = Context>>(decoder: &mut D) -> Result<Self, DecodeError> {
        Ok(WireInvitationResponse {
            invitation_id: Decode::decode(decoder)?,
            responder_user_id: Decode::decode(decoder)?,
            kind: Decode::decode(decoder)?,
            ts_utc: Decode::decode(decoder)?,
        })
    }
}

fn to_wire(r: &InvitationResponse) -> WireInvitationResponse {
    WireInvitationResponse {
        invitation_id: r.invitation_id().into_bytes(),
        responder_user_id: r.user_id().into_bytes(),
        kind: match r.invitation_response_kind() {
            InvitationResponseKind::Accepted => 0,
            InvitationResponseKind::Refused => 1,
        },
        ts_utc: r.get_timestamp().timestamp(),
    }
}

#[test]
fn invitation_response_end_to_end() {
    let user = Uuid::now_v7();
    let invitation_uuid = Uuid::now_v7();
    let new_invitation = InvitationResponse::new(
        Identifier::from_bytes(invitation_uuid.into_bytes()),
        Identifier::from_bytes(user.into_bytes()),
        InvitationResponseKind::Accepted,
    );

    let Ok(encoded) = bincode::encode_to_vec(to_wire(&new_invitation), bincode::config::standard())
    else {
        panic!("encoding failed");
    };

    let Ok((decoded, _)) = bincode::decode_from_slice::<WireInvitationResponse, _>(
        &encoded,
        bincode::config::standard(),
    ) else {
        panic!("decoding failed");
    };

    let decoded_uuid = Uuid::from_bytes(decoded.responder_user_id);

    assert!(user == decoded_uuid);
    assert_eq!(decoded.invitation_id, invitation_uuid.into_bytes());
    assert_eq!(decoded.kind, 0);
}

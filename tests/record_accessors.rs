use faces_common_types::clock::UtcInstant;
use faces_common_types::context_sync::LastClientContextVersion;
use faces_common_types::context_version::LastPulledUserSessionVersionAndContextVersions;
use faces_common_types::db_data_types::PeerContextParticipation;
use faces_common_types::fcm_token_types::FcmToken;
use faces_common_types::friendships_types::{FriendContact, FriendRegisterDelta};
use faces_common_types::invitation::PeerInvitationByTextHandle;
use faces_common_types::notifications_types::{NotifAccrossNodes, NotifAcrossKind};
use faces_common_types::refresh_cred::{JwtToken, NewGeneratedAuthTokens, RefreshToken};
use faces_common_types::signin::SigninResponseData;
use faces_common_types::signup::SignupResponseData;
use faces_common_types::stream_types::UserStreamSessionInfo;
use faces_common_types::{
    AnimVariableContext, AnimationRefToFetch, FetchAnimationToSyncWithItsContexts,
    FetchAnimationToSyncWithoutContext, Identifier, ServerContextVersion, SigninData, SignupData,
    SyncNewAnimResponse, UserContextKind, UserDisplayContext, UserPeersInfos,
};

fn id(n: u8) -> Identifier {
    Identifier::from_bytes([n; 16])
}

#[test]
fn server_context_version_fields() {
    let v = ServerContextVersion::new(id(1), 5, 9);
    assert_eq!((v.context_id(), v.context_version(), v.user_session_version()), (id(1), 5, 9));
}

#[test]
fn pull_state_fields() {
    let p = LastPulledUserSessionVersionAndContextVersions::new(id(1), 4, vec![(id(2), 3)], 25);
    assert_eq!(p.user_id(), id(1));
    assert_eq!(p.last_pulled_user_session_version(), 4);
    assert_eq!(p.max_descriptor_amount(), 25);
    assert_eq!(p.context_with_last_version(), vec![(id(2), 3)]);
}

#[test]
fn animation_records_fields() {
    let c = AnimVariableContext::new(id(1), id(2), 3, 4, 0, 65535);
    assert_eq!(c.pos(), [0, 65535]);
    assert_eq!((c.anim_id(), c.context_id()), (id(1), id(2)));
    assert_eq!((c.context_version(), c.variable_context_version()), (3, 4));
    let mut f = FetchAnimationToSyncWithItsContexts::new(vec![7, 8], vec![c]);
    assert_eq!(f.animation_raw_bytes(), &[7, 8]);
    assert_eq!(f.animation_variable_context().len(), 1);
    assert_eq!(f.take_raw_bytes(), vec![7, 8]);
    assert!(f.animation_raw_bytes().is_empty());
    let mut g = FetchAnimationToSyncWithoutContext::new(vec![1], id(6));
    assert_eq!(g.anim_id(), id(6));
    assert_eq!(g.take_raw_bytes(), vec![1]);
    assert!(g.animation_raw_bytes().is_empty());
    assert_eq!(SyncNewAnimResponse::new_with_code(201).code(), 201);
    let r = AnimationRefToFetch::new(id(1), id(2), id(3));
    assert_eq!((r.anim_id(), r.context_id(), r.user_id()), (id(1), id(2), id(3)));
}

#[test]
fn client_context_version_fields() {
    let v = LastClientContextVersion::new(id(4), 11);
    assert_eq!((v.context_id(), v.context_version()), (id(4), 11));
}

#[test]
fn user_records_fields() {
    let at = UtcInstant::new(1_600_000_000, 123);
    let d = UserDisplayContext::new(id(1), id(2), UserContextKind::Experiment, at);
    assert_eq!((d.context_id(), d.author_id()), (id(1), id(2)));
    assert_eq!(d.context_kind(), UserContextKind::Experiment);
    assert_eq!(d.create_at(), at);
    let peer = UserPeersInfos::new(id(3), "carol".to_string(), at, vec![PeerContextParticipation::new(id(1))]);
    let mut s = SigninResponseData::new("dan", id(5), at, "jwt".to_string(), vec![d], vec![peer]);
    assert_eq!((s.id(), s.username(), s.jwt()), (id(5), "dan", "jwt"));
    assert_eq!(s.user_creation_ts(), at);
    assert_eq!(s.take_user_display_contexts().len(), 1);
    assert!(s.take_user_display_contexts().is_empty());
    assert_eq!(s.user_peer_infos().len(), 1);
    assert!(s.user_peer_infos().is_empty());
    let u = SignupResponseData::new("eve", id(6), at, "t".to_string(), id(7), UtcInstant::new(1, 0));
    assert_eq!((u.id(), u.username(), u.jwt()), (id(6), "eve", "t"));
    assert_eq!(u.first_experiment_display_context_id(), id(7));
    assert_eq!(u.user_creation_ts(), at);
    assert_eq!(u.experiment_display_context_creation_ts().timestamp(), 1);
    let si = SigninData::new("a".to_string(), "b".to_string());
    assert_eq!((si.username(), si.password()), ("a", "b"));
    let su = SignupData::new("c".to_string(), "d".to_string());
    assert_eq!((su.username(), su.password()), ("c", "d"));
    assert_eq!(UserStreamSessionInfo::new(id(8)).user_id(), id(8));
}

#[test]
fn token_records_fields() {
    assert_eq!(RefreshToken::new("r".to_string()).token(), "r");
    assert_eq!(JwtToken::new("j".to_string()).token(), "j");
    let t = NewGeneratedAuthTokens::new("r2".to_string(), "j2".to_string());
    assert_eq!((t.refresh_token(), t.jwt()), ("r2", "j2"));
    let f = FcmToken::new(id(1), "tok".to_string(), id(2));
    assert_eq!((f.user_id(), f.fcm_token(), f.device_id()), (id(1), "tok", id(2)));
}

#[test]
fn friendship_records_fields() {
    let mut c = FriendContact::new("fay".to_string(), id(3));
    assert_eq!((c.username(), c.user_id()), ("fay", id(3)));
    assert_eq!(c.take_username(), "fay");
    assert_eq!(c.username(), "");
    let mut d = FriendRegisterDelta::new(vec![c], 12);
    assert_eq!(d.get_pulled_version(), 12);
    assert_eq!(d.take_collection().len(), 1);
    assert!(d.take_collection().is_empty());
}

#[test]
fn invitation_handle_and_node_notification_fields() {
    let h = PeerInvitationByTextHandle::new(id(1), "@gus");
    assert_eq!((h.get_emitting_user_id(), h.get_peer_username_handle()), (id(1), "@gus"));
    let kind = NotifAcrossKind::new_ressource_available_notification(
        id(2), id(3), "a", "b", id(4), UtcInstant::new(50, 0),
    );
    let n = NotifAccrossNodes::new(id(9), UtcInstant::new(77, 500), kind);
    assert_eq!(n.get_notification_id(), id(9));
    assert_eq!(n.creation_ts().timestamp(), 77);
    assert_eq!(n.kind().get_notification_id(), id(2));
}

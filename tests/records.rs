use faces_common_types::clock::UtcInstant;
use faces_common_types::context_ressources::{ContextRessourcesMetaDelta, RessourceItem};
use faces_common_types::context_sync::PulledContextVersionWithAnimationDelta;
use faces_common_types::display_context_types::{DisplayContext, DisplayContextKind};
use faces_common_types::faces_network_errors::FNtwrkCommonTypesErrors;
use faces_common_types::invitation::{InvitationMessage, InvitationResponse, InvitationResponseKind};
use faces_common_types::notifications_types::{
    check_contract_on_accepted, check_contract_on_direction, NotifAcrossKind,
};
use faces_common_types::ressources_descriptors::{RessourcesDescriptors, RessourcesDescriptorsKind};
use faces_common_types::stream_types::StreamMessage;
use faces_common_types::{
    Identifier, SyncNewAnim, ToUserContextKind, UserContextKind,
};

fn id(n: u8) -> Identifier {
    Identifier::from_bytes([n; 16])
}

#[test]
fn identifier_bytes_round_trip() {
    let mut b = [0u8; 16];
    for (i, x) in b.iter_mut().enumerate() {
        *x = i as u8;
    }
    assert_eq!(Identifier::from_bytes(b).into_bytes(), b);
    assert_eq!(id(3), id(3));
    assert_ne!(id(3), id(4));
}

#[test]
fn fresh_identifiers_differ() {
    assert_ne!(Identifier::now_v7(), Identifier::now_v7());
}

#[test]
fn catalog_keeps_insertion_order_and_duplicates() {
    let mut c = RessourcesDescriptors::new_empty();
    c.add_ressource_descriptor(RessourcesDescriptorsKind::new_animation_descriptor(id(1)));
    c.extend_ressource_descriptor(&[
        RessourcesDescriptorsKind::new_animation_descriptor(id(2)),
        RessourcesDescriptorsKind::new_animation_descriptor(id(1)),
    ]);
    assert_eq!(c.len(), 3);
    for _ in 0..2 {
        let mut it = c.iter();
        let mut seen = vec![];
        while let Some(d) = it.next() {
            seen.push(RessourcesDescriptorsKind::from(d).get_id());
        }
        assert_eq!(seen, vec![id(1), id(2), id(1)]);
        assert!(it.next().is_none());
    }
}

#[test]
fn context_ressources_iterate_in_order() {
    let mut m = ContextRessourcesMetaDelta::default();
    assert!(m.iter().next().is_none());
    m.extend_ressources(&[
        RessourceItem::new_animation_ressource(id(5)),
        RessourceItem::new_animation_ressource(id(6)),
    ]);
    let mut it = m.iter();
    assert_eq!(it.next().map(|r| r.get_ressource_id()), Some(id(5)));
    assert_eq!(it.next().map(|r| r.get_ressource_id()), Some(id(6)));
    assert!(it.next().is_none());
}

#[test]
fn retain_participants_drops_listed_users() {
    let c = DisplayContext::new_multiple_participants(
        id(9),
        vec![id(1), id(2), id(3), id(2)],
        4,
        UtcInstant::new(1_700_000_000, 5),
        UtcInstant::new(1_700_000_100, 0),
    );
    assert_eq!(c.retain_participants_by_ids(&[id(2)]), vec![id(1), id(3)]);
    assert_eq!(c.retain_participants_by_ids(&[]), vec![id(1), id(2), id(3), id(2)]);
    assert_eq!(c.participants(), vec![id(1), id(2), id(3), id(2)]);
    assert_eq!(c.kind(), DisplayContextKind::Conversation);
    assert_eq!(c.version(), 4);
    assert_eq!(c.created_at().timestamp(), 1_700_000_000);
    assert_eq!(c.created_at().timestamp_subsec_nanos(), 0);
    assert_eq!(c.updated_at().timestamp(), 1_700_000_100);
}

#[test]
fn user_context_kind_parses_known_names() {
    assert!(matches!("experiment".to_user_context_kind(), Ok(UserContextKind::Experiment)));
    assert!(matches!("conversation".to_user_context_kind(), Ok(UserContextKind::Conversation)));
    match "solo".to_user_context_kind() {
        Err(FNtwrkCommonTypesErrors::ParsingFailure(m)) => {
            assert_eq!(m, "Failed to parse user context kind str from db [solo]")
        }
        _ => panic!("expected a parsing failure"),
    }
}

#[test]
fn invitation_notification_checks_direction_and_status() {
    let ts = UtcInstant::new(100, 0);
    assert!(check_contract_on_direction("incoming").is_ok());
    assert!(check_contract_on_direction("outgoing").is_ok());
    assert!(check_contract_on_direction("sideways").is_err());
    assert!(check_contract_on_accepted("pending").is_ok());
    assert!(check_contract_on_accepted("refused").is_ok());
    assert!(check_contract_on_accepted("maybe").is_err());
    let n = NotifAcrossKind::new_invitation_notif(
        "incoming", id(1), id(2), "ann", "bob", id(3), ts, "accepted",
    );
    let n = match n {
        Ok(n) => n,
        Err(_) => panic!("valid invitation"),
    };
    assert_eq!(n.get_direction(), "incoming");
    assert_eq!(n.get_emitter_name(), "ann");
    assert_eq!(n.get_recipient_name(), "bob");
    assert_eq!(n.get_emitter_id(), id(2));
    assert_eq!(n.get_recipient_id(), id(3));
    assert_eq!(n.get_notification_id(), id(1));
    assert_eq!(n.get_acceptation_status(), "accepted");
    assert_eq!(n.get_timestamp().timestamp(), 100);
    assert!(NotifAcrossKind::new_invitation_notif(
        "up", id(1), id(2), "ann", "bob", id(3), ts, "accepted"
    )
    .is_err());
    assert!(NotifAcrossKind::new_invitation_notif(
        "incoming", id(1), id(2), "ann", "bob", id(3), ts, "yes"
    )
    .is_err());
}

#[test]
fn ressource_notification_has_default_texts() {
    let n = NotifAcrossKind::new_ressource_available_notification(
        id(1), id(2), "ann", "bob", id(3), UtcInstant::new(7, 9),
    );
    assert_eq!(n.get_direction(), "no_direction");
    assert_eq!(n.get_acceptation_status(), "get_acceptation_status");
    assert_eq!(n.get_emitter_id(), id(2));
    assert_eq!(n.get_recipient_id(), id(3));
    assert_eq!(n.get_timestamp().timestamp(), 7);
}

#[test]
fn stream_messages_carry_their_request_id() {
    let (mid, m) = StreamMessage::new_contact_request(id(4));
    assert_eq!(mid.req_id(), m.get_request_id());
    assert_eq!(m.get_peer_id(), id(4));
    let (mid, m) = StreamMessage::new_invitation_request_for_receiver(id(1), id(2), "a", "b", id(3));
    assert_eq!(mid.req_id(), m.get_request_id());
    assert_eq!(m.get_peer_id(), id(3));
    let m = StreamMessage::new_invitation_response_refused(id(1), id(2), id(3));
    assert_eq!(m.get_peer_id(), id(2));
    let m = InvitationMessage::new_for_sender(id(1), id(2), "ann", id(3)).into_stream_message();
    assert_eq!(m.get_peer_id(), id(3));
}

#[test]
fn invitation_response_keeps_its_fields() {
    let r = InvitationResponse::new(id(1), id(2), InvitationResponseKind::Refused);
    assert_eq!(r.invitation_id(), id(1));
    assert_eq!(r.user_id(), id(2));
    assert!(matches!(r.invitation_response_kind(), InvitationResponseKind::Refused));
    assert!(r.get_timestamp().timestamp() > 0);
}

#[test]
fn animation_delta_distinguishes_up_to_date() {
    let up = PulledContextVersionWithAnimationDelta::new(id(1), None);
    assert!(up.get_animation_delta_ids_coll().is_none());
    let d = PulledContextVersionWithAnimationDelta::new(id(1), Some(&[id(2), id(3)]));
    assert_eq!(d.get_animation_delta_ids_coll(), Some(vec![id(2), id(3)]));
    assert_eq!(d.context_id(), id(1));
}

#[test]
fn sync_new_anim_gives_its_data_once() {
    let mut a = SyncNewAnim::new(id(1), id(2), vec![1, 2, 3], 24, 640, 480);
    assert_eq!(a.data_len(), 3);
    assert_eq!(a.as_slice(), &[1, 2, 3]);
    assert_eq!(a.take_data(), vec![1, 2, 3]);
    assert_eq!(a.data_len(), 0);
    assert_eq!((a.fps(), a.frame_width(), a.frame_height()), (24, 640, 480));
}

#[test]
fn parsing_failure_text_quotes_its_detail() {
    let e = FNtwrkCommonTypesErrors::ParsingFailure("bad".to_string());
    assert_eq!(e.to_string(), "FNtwrkCommonTypesErrors : ParsingFailure [\"bad\"]");
}

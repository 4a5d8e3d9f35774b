use mikado::{
    get_current_user, reconcile_fetched, CallOutcome, CardConfiguration, GameProperties,
    GeneralConfiguration, PendingFlags, PropNode, PropValue, RemoteChart, RemotePb,
    RemoteSnapshot, ResponsePlan, RewriteKind, Session,
};

fn switches(inject: bool, export_class: bool) -> GeneralConfiguration {
    GeneralConfiguration { enable: true, export_class, inject_cloud_pbs: inject, timeout: 3000 }
}

fn open_cards() -> CardConfiguration {
    CardConfiguration { whitelist: vec![] }
}

fn event(id: &str) -> PropNode {
    PropNode::with_nodes(
        "info",
        vec![PropNode::with_value("event_id", PropValue::Str(id.to_string()))],
    )
}

fn common_response() -> PropNode {
    PropNode::with_nodes(
        "response",
        vec![PropNode::with_nodes(
            "game",
            vec![PropNode::with_nodes(
                "event",
                vec![event("CLOUD_LINK_ENABLE"), event("OTHER_EVENT"), event("CLOUD_LINK_ENABLE")],
            )],
        )],
    )
}

fn load_response() -> PropNode {
    PropNode::with_nodes(
        "response",
        vec![PropNode::with_nodes(
            "game",
            vec![
                PropNode::with_value("code", PropValue::S8(0)),
                PropNode::with_nodes("cloud", vec![PropNode::with_value("relation", PropValue::S8(0))]),
                PropNode::with_value("name", PropValue::Str("PLAYER".to_string())),
            ],
        )],
    )
}

fn music_response() -> PropNode {
    let fields = vec![10, 0, 5, 5, 5, 5, 5, 5, 5, 5, 5, 5, 5, 5, 5, 5, 5, 999, 2, 7, 0];
    PropNode::with_nodes(
        "response",
        vec![PropNode::with_nodes(
            "game",
            vec![PropNode::with_nodes(
                "music",
                vec![PropNode::with_nodes(
                    "info",
                    vec![PropNode::with_value("param", PropValue::U32Array(fields))],
                )],
            )],
        )],
    )
}

fn inquire(session: &mut Session, card: &str) {
    let r = session.on_call_completed(&switches(true, false), "cardmng", "inquire", Some(card.to_string()));
    assert_eq!(r, CallOutcome::Ignore);
}

fn event_ids(tree: &PropNode) -> Vec<String> {
    tree.children[0].children[0]
        .children
        .iter()
        .map(|info| match &info.children[0].value {
            Some(PropValue::Str(s)) => s.clone(),
            _ => panic!("event without id"),
        })
        .collect()
}

#[test]
fn common_rewrite_fires_once() {
    let mut session = Session::new();
    let r = session.on_call_completed(&switches(true, false), "game", "sv6_common", None);
    assert_eq!(r, CallOutcome::Ignore);
    assert_eq!(session.pending, PendingFlags { common: true, load: false, load_music: false });
    let tree = match session.plan_response(&open_cards(), Some(common_response())) {
        ResponsePlan::Rewrite { kind: RewriteKind::Common, tree } => tree,
        _ => panic!("expected a common rewrite"),
    };
    assert_eq!(event_ids(&tree), vec!["OTHER_EVENT".to_string(), "CLOUD_LINK_ENABLE".to_string()]);
    let original = vec![0xA0, 0x42, 1, 2, 3];
    let out = session.finish_response(RewriteKind::Common, original.clone(), Some(vec![9, 9]));
    assert_eq!(out, vec![9, 9]);
    assert_eq!(session.pending, PendingFlags { common: false, load: false, load_music: false });
    assert!(matches!(
        session.plan_response(&open_cards(), Some(common_response())),
        ResponsePlan::PassThrough
    ));
}

#[test]
fn failed_encoding_keeps_flag_and_bytes() {
    let mut session = Session::new();
    session.on_call_completed(&switches(true, false), "game", "sv6_common", None);
    let original = vec![1, 2, 3];
    let out = session.finish_response(RewriteKind::Common, original.clone(), None);
    assert_eq!(out, original);
    assert!(session.pending.common);
}

#[test]
fn shape_mismatch_keeps_flag() {
    let mut session = Session::new();
    session.on_call_completed(&switches(true, false), "game", "sv6_common", None);
    assert!(matches!(session.plan_response(&open_cards(), Some(load_response())), ResponsePlan::PassThrough));
    assert!(matches!(session.plan_response(&open_cards(), None), ResponsePlan::PassThrough));
    assert!(session.pending.common);
}

#[test]
fn load_rewrite_replaces_cloud_node() {
    let mut session = Session::new();
    inquire(&mut session, "E004000000000001");
    session.on_call_completed(&switches(true, false), "game", "sv6_load", None);
    assert!(session.pending.load);
    let tree = match session.plan_response(&open_cards(), Some(load_response())) {
        ResponsePlan::Rewrite { kind: RewriteKind::Load, tree } => tree,
        _ => panic!("expected a load rewrite"),
    };
    let game = &tree.children[0];
    let keys: Vec<&str> = game.children.iter().map(|c| c.key.as_str()).collect();
    assert_eq!(keys, vec!["code", "name", "cloud"]);
    let cloud = &game.children[2];
    assert_eq!(cloud.children.len(), 1);
    assert_eq!(cloud.children[0].key, "relation");
    assert!(matches!(cloud.children[0].value, Some(PropValue::S8(1))));
}

#[test]
fn load_rewrite_needs_whitelisted_card() {
    let mut session = Session::new();
    session.on_call_completed(&switches(true, false), "game", "sv6_load", None);
    assert!(matches!(session.plan_response(&open_cards(), Some(load_response())), ResponsePlan::PassThrough));
    inquire(&mut session, "E004000000000001");
    let cards = CardConfiguration { whitelist: vec!["E004000000000002".to_string()] };
    assert!(matches!(session.plan_response(&cards, Some(load_response())), ResponsePlan::PassThrough));
    let cards = CardConfiguration { whitelist: vec!["E004000000000001".to_string()] };
    assert!(matches!(
        session.plan_response(&cards, Some(load_response())),
        ResponsePlan::Rewrite { kind: RewriteKind::Load, .. }
    ));
}

#[test]
fn music_response_goes_to_reconciliation() {
    let mut session = Session::new();
    inquire(&mut session, "E004000000000001");
    session.on_call_completed(&switches(true, false), "game", "sv6_load_m", None);
    let music = match session.plan_response(&open_cards(), Some(music_response())) {
        ResponsePlan::Reconcile { music } => music,
        _ => panic!("expected a reconciliation"),
    };
    assert_eq!(music.key, "music");
    let game = GameProperties::from_fingerprint("KFC", "J", "A", "A", "2024010100");
    assert!(reconcile_fetched(&music, None, &game).is_none());
    let snapshot = RemoteSnapshot {
        charts: vec![RemoteChart { chart_id: "abc".to_string(), song_id: Some(10), difficulty: Some("NOV".to_string()) }],
        pbs: vec![RemotePb { chart_id: "abc".to_string(), score: 1234567, lamp: Some("CLEAR".to_string()), grade: 3 }],
    };
    let tree = reconcile_fetched(&music, Some(snapshot), &game).unwrap();
    match &tree.children[0].children[0].children[0].children[0].value {
        Some(PropValue::U32Array(v)) => assert_eq!(&v[17..20], &[1234567, 2, 4]),
        _ => panic!("row without fields"),
    }
    let out = session.finish_response(RewriteKind::LoadMusic, vec![1], Some(vec![2]));
    assert_eq!(out, vec![2]);
    assert!(!session.pending.load_music);
}

#[test]
fn flags_need_injection_switch() {
    let mut session = Session::new();
    for method in ["sv6_common", "sv6_load", "sv6_load_m"] {
        session.on_call_completed(&switches(false, false), "game", method, None);
    }
    assert_eq!(session.pending, PendingFlags { common: false, load: false, load_music: false });
    for method in ["sv6_common", "sv6_load", "sv6_load_m", "sv6_other"] {
        session.on_call_completed(&switches(true, false), "game", method, None);
    }
    assert_eq!(session.pending, PendingFlags { common: true, load: true, load_music: true });
}

#[test]
fn save_calls_ask_for_submission() {
    let mut session = Session::new();
    assert_eq!(session.on_call_completed(&switches(false, false), "game", "sv6_save_m", None), CallOutcome::SubmitScores);
    assert_eq!(session.on_call_completed(&switches(false, false), "game", "sv6_save", None), CallOutcome::Ignore);
    assert_eq!(session.on_call_completed(&switches(false, true), "game", "sv6_save", None), CallOutcome::SubmitSave);
    assert_eq!(session.on_call_completed(&switches(false, true), "cardmng", "sv6_save_m", None), CallOutcome::Ignore);
    assert_eq!(session.on_call_completed(&switches(false, true), "other", "sv6_save_m", None), CallOutcome::Ignore);
    assert_eq!(session.pending, PendingFlags { common: false, load: false, load_music: false });
}

#[test]
fn master_switch_off_ignores_everything() {
    let mut session = Session::new();
    let off = GeneralConfiguration { enable: false, export_class: true, inject_cloud_pbs: true, timeout: 0 };
    assert_eq!(session.on_call_completed(&off, "game", "sv6_save_m", None), CallOutcome::Ignore);
    session.on_call_completed(&off, "game", "sv6_common", None);
    session.on_call_completed(&off, "cardmng", "inquire", Some("E0".to_string()));
    assert!(!session.pending.common);
    assert_eq!(get_current_user(&session), None);
}

#[test]
fn card_inquiry_overwrites_card() {
    let mut session = Session::new();
    inquire(&mut session, "AAAA");
    assert_eq!(get_current_user(&session), Some("AAAA".to_string()));
    inquire(&mut session, "BBBB");
    assert_eq!(get_current_user(&session), Some("BBBB".to_string()));
    session.on_call_completed(&switches(true, false), "cardmng", "inquire", None);
    assert_eq!(get_current_user(&session), Some("BBBB".to_string()));
    session.on_call_completed(&switches(true, false), "cardmng", "authpass", Some("CCCC".to_string()));
    assert_eq!(get_current_user(&session), Some("BBBB".to_string()));
}

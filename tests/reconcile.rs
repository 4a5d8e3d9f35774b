use mikado::{
    map_grade, map_lamp, process_pbs, GameProperties, PropNode, PropValue, RemoteChart, RemotePb,
    RemoteSnapshot, RowError, Score,
};

fn row(fields: Vec<u32>) -> PropNode {
    PropNode::with_nodes(
        "info",
        vec![PropNode::with_value("param", PropValue::U32Array(fields))],
    )
}

fn music(rows: Vec<PropNode>) -> PropNode {
    PropNode::with_nodes("music", rows)
}

fn chart(id: &str, song: u32, difficulty: &str) -> RemoteChart {
    RemoteChart {
        chart_id: id.to_string(),
        song_id: Some(song),
        difficulty: Some(difficulty.to_string()),
    }
}

fn pb(id: &str, score: u64, lamp: &str, grade: u64) -> RemotePb {
    RemotePb {
        chart_id: id.to_string(),
        score,
        lamp: Some(lamp.to_string()),
        grade,
    }
}

fn old_game() -> GameProperties {
    GameProperties::from_fingerprint("KFC", "J", "A", "A", "2024010100")
}

fn new_game() -> GameProperties {
    GameProperties::from_fingerprint("KFC", "J", "A", "A", "2025042200")
}

fn rows_of(tree: &PropNode) -> Vec<Vec<u32>> {
    let game = &tree.children[0];
    let music = &game.children[0];
    music
        .children
        .iter()
        .map(|r| match &r.children[0].value {
            Some(PropValue::U32Array(v)) => v.clone(),
            _ => panic!("row without fields"),
        })
        .collect()
}

fn local_row() -> Vec<u32> {
    vec![10, 0, 5, 5, 5, 5, 5, 5, 5, 5, 5, 5, 5, 5, 5, 5, 5, 999, 2, 7, 0]
}

#[test]
fn merge_updates_cloud_triplet_end_to_end() {
    let snapshot = RemoteSnapshot {
        charts: vec![chart("abc", 10, "NOV")],
        pbs: vec![pb("abc", 1234567, "CLEAR", 3)],
    };
    let out = process_pbs(&music(vec![row(local_row())]), &snapshot, &old_game()).unwrap();
    let rows = rows_of(&out.response);
    assert_eq!(rows.len(), 1);
    let mut expected = local_row();
    expected[17] = 1234567;
    expected[18] = 2;
    expected[19] = 4;
    assert_eq!(rows[0], expected);
    assert!(out.unresolved.is_empty());
    assert!(out.excluded.is_empty());
    assert_eq!(out.response.key, "response");
    assert_eq!(out.response.children[0].key, "game");
    assert_eq!(out.response.children[0].children[0].key, "music");
}

#[test]
fn top_tier_lamp_downgraded_without_support() {
    let snapshot = RemoteSnapshot {
        charts: vec![chart("abc", 10, "NOV")],
        pbs: vec![pb("abc", 9000000, "MAXXIVE CLEAR", 5)],
    };
    let out = process_pbs(&music(vec![row(local_row())]), &snapshot, &old_game()).unwrap();
    assert_eq!(rows_of(&out.response)[0][18], 3);
    let out = process_pbs(&music(vec![row(local_row())]), &snapshot, &new_game()).unwrap();
    assert_eq!(rows_of(&out.response)[0][18], 6);
}

#[test]
fn lamp_tokens_map_to_their_values() {
    let tokens = [
        ("FAILED", 1),
        ("CLEAR", 2),
        ("EXCESSIVE CLEAR", 3),
        ("ULTIMATE CHAIN", 4),
        ("PERFECT ULTIMATE CHAIN", 5),
        ("MAXXIVE CLEAR", 6),
    ];
    for (token, value) in tokens {
        assert_eq!(map_lamp(&Some(token.to_string()), true), value);
        let downgraded = if value == 6 { 3 } else { value };
        assert_eq!(map_lamp(&Some(token.to_string()), false), downgraded);
    }
    assert_eq!(map_lamp(&Some("HARD CLEAR".to_string()), true), 0);
    assert_eq!(map_lamp(&None, true), 0);
}

#[test]
fn grade_is_one_more_capped_at_ten() {
    assert_eq!(map_grade(0), 1);
    assert_eq!(map_grade(3), 4);
    assert_eq!(map_grade(8), 9);
    assert_eq!(map_grade(9), 10);
    assert_eq!(map_grade(10), 10);
    assert_eq!(map_grade(u64::MAX), 10);
}

#[test]
fn row_without_personal_best_is_unchanged() {
    let other: Vec<u32> = (0..21).map(|i| match i { 0 => 77, 1 => 1, _ => i * 3 + 300 }).collect();
    let snapshot = RemoteSnapshot {
        charts: vec![chart("abc", 10, "NOV")],
        pbs: vec![pb("abc", 1, "CLEAR", 0)],
    };
    let out = process_pbs(
        &music(vec![row(other.clone()), row(local_row())]),
        &snapshot,
        &old_game(),
    )
    .unwrap();
    let rows = rows_of(&out.response);
    assert_eq!(rows.len(), 2);
    assert_eq!(rows[0], other);
}

#[test]
fn remote_only_chart_gets_new_row() {
    let snapshot = RemoteSnapshot {
        charts: vec![chart("xyz", 1500, "EXH")],
        pbs: vec![pb("xyz", 9876543, "ULTIMATE CHAIN", 12)],
    };
    let out = process_pbs(&music(vec![row(local_row())]), &snapshot, &old_game()).unwrap();
    let rows = rows_of(&out.response);
    assert_eq!(rows.len(), 2);
    assert_eq!(rows[0], local_row());
    let mut expected = vec![0u32; 21];
    expected[0] = 1500;
    expected[1] = 2;
    expected[17] = 9876543;
    expected[18] = 4;
    expected[19] = 10;
    assert_eq!(rows[1], expected);
}

#[test]
fn later_personal_best_of_a_chart_wins() {
    let snapshot = RemoteSnapshot {
        charts: vec![chart("xyz", 3, "ADV")],
        pbs: vec![pb("xyz", 100, "CLEAR", 1), pb("xyz", 200, "FAILED", 2)],
    };
    let out = process_pbs(&music(vec![]), &snapshot, &old_game()).unwrap();
    let rows = rows_of(&out.response);
    assert_eq!(rows.len(), 1);
    assert_eq!(rows[0][0], 3);
    assert_eq!(rows[0][1], 1);
    assert_eq!(rows[0][17], 200);
    assert_eq!(rows[0][18], 1);
    assert_eq!(rows[0][19], 3);
}

#[test]
fn unresolved_chart_is_skipped_and_reported() {
    let snapshot = RemoteSnapshot {
        charts: vec![chart("abc", 10, "NOV")],
        pbs: vec![pb("nope", 5, "CLEAR", 1), pb("abc", 6, "CLEAR", 1)],
    };
    let out = process_pbs(&music(vec![row(local_row())]), &snapshot, &old_game()).unwrap();
    assert_eq!(out.unresolved, vec!["nope".to_string()]);
    let rows = rows_of(&out.response);
    assert_eq!(rows.len(), 1);
    assert_eq!(rows[0][17], 6);
}

#[test]
fn incomplete_chart_is_excluded_and_reported() {
    let snapshot = RemoteSnapshot {
        charts: vec![
            RemoteChart { chart_id: "a".to_string(), song_id: None, difficulty: Some("NOV".to_string()) },
            RemoteChart { chart_id: "b".to_string(), song_id: Some(4), difficulty: None },
        ],
        pbs: vec![pb("a", 5, "CLEAR", 1), pb("b", 5, "CLEAR", 1)],
    };
    let out = process_pbs(&music(vec![]), &snapshot, &old_game()).unwrap();
    assert_eq!(out.excluded, vec!["a".to_string(), "b".to_string()]);
    assert_eq!(out.unresolved, vec!["a".to_string(), "b".to_string()]);
    assert!(rows_of(&out.response).is_empty());
}

#[test]
fn unknown_difficulty_token_reads_as_three() {
    let snapshot = RemoteSnapshot {
        charts: vec![chart("g", 8, "GRV")],
        pbs: vec![pb("g", 1, "CLEAR", 0)],
    };
    let out = process_pbs(&music(vec![]), &snapshot, &old_game()).unwrap();
    assert_eq!(rows_of(&out.response)[0][1], 3);
}

#[test]
fn score_wider_than_a_field_is_truncated() {
    let snapshot = RemoteSnapshot {
        charts: vec![chart("abc", 10, "NOV")],
        pbs: vec![pb("abc", (1u64 << 32) + 5, "CLEAR", 0)],
    };
    let out = process_pbs(&music(vec![]), &snapshot, &old_game()).unwrap();
    assert_eq!(rows_of(&out.response)[0][17], 5);
}

#[test]
fn row_errors_are_reported() {
    let snapshot = RemoteSnapshot { charts: vec![], pbs: vec![] };
    let no_param = music(vec![PropNode::with_nodes("info", vec![])]);
    assert!(matches!(process_pbs(&no_param, &snapshot, &old_game()), Err(RowError::MissingParam)));
    let no_value = music(vec![PropNode::with_nodes("info", vec![PropNode::with_nodes("param", vec![])])]);
    assert!(matches!(process_pbs(&no_value, &snapshot, &old_game()), Err(RowError::MissingValue)));
    let short = music(vec![row(vec![1, 2, 3])]);
    assert!(matches!(process_pbs(&short, &snapshot, &old_game()), Err(RowError::TooShort)));
    let mut wide = local_row();
    wide[1] = 256;
    assert!(matches!(process_pbs(&music(vec![row(wide)]), &snapshot, &old_game()), Err(RowError::BadDifficulty)));
}

#[test]
fn rows_of_other_value_types_are_skipped() {
    let snapshot = RemoteSnapshot { charts: vec![], pbs: vec![] };
    let other = music(vec![PropNode::with_nodes(
        "info",
        vec![PropNode::with_value("param", PropValue::S8(4))],
    )]);
    let out = process_pbs(&other, &snapshot, &old_game()).unwrap();
    assert!(rows_of(&out.response).is_empty());
}

#[test]
fn duplicate_local_rows_keep_the_last() {
    let mut second = local_row();
    second[2] = 42;
    let snapshot = RemoteSnapshot { charts: vec![], pbs: vec![] };
    let out = process_pbs(&music(vec![row(local_row()), row(second.clone())]), &snapshot, &old_game()).unwrap();
    assert_eq!(rows_of(&out.response), vec![second]);
}

#[test]
fn score_row_accessors() {
    let mut s = Score::from_cloud(100, 2, 4);
    assert_eq!(s.to_property()[17], 100);
    *s.cloud_score_mut() = 7;
    *s.cloud_clear_mut() = 5;
    *s.cloud_grade_mut() = 9;
    let fields = s.to_property();
    assert_eq!(fields.len(), 21);
    assert_eq!(&fields[17..20], &[7, 5, 9]);
    assert!(Score::from_slice(&[1; 20]).is_err());
    let long: Vec<u32> = (0..25).collect();
    assert_eq!(Score::from_slice(&long).unwrap().to_property(), (0..21).collect::<Vec<u32>>());
}

#[test]
fn emitted_rows_name_their_chart() {
    let snapshot = RemoteSnapshot {
        charts: vec![chart("a", 7, "MXM"), chart("b", 10, "NOV")],
        pbs: vec![pb("a", 1, "CLEAR", 0), pb("b", 2, "CLEAR", 0)],
    };
    let out = process_pbs(&music(vec![row(local_row())]), &snapshot, &old_game()).unwrap();
    let rows = rows_of(&out.response);
    assert_eq!(rows.len(), 2);
    for (r, (chart, _)) in rows.iter().zip(out.table.entries.iter()) {
        assert_eq!(r[0], chart.song_id);
        assert_eq!(r[1], chart.difficulty as u32);
    }
    assert_eq!((rows[1][0], rows[1][1]), (7, 4));
}

use mikado::{
    process_course, process_save, process_scores, CardConfiguration, Difficulty, GameSave,
    GameScores, ImportMeta, SkillLevel, SkipReason, TachiLamp, Track,
};

fn track() -> Track {
    Track {
        music_id: 1234,
        music_type: 4,
        score: 9_950_000,
        ex_score: 0,
        clear_type: 3,
        max_chain: 1500,
        critical: 1400,
        near: 90,
        error: 10,
        effective_rate: 8550,
        gauge_type: 0,
        judge: [30, 0, 0, 0, 0, 0, 60],
    }
}

#[test]
fn scores_become_import_records() {
    let cards = CardConfiguration { whitelist: vec![] };
    let mut second = track();
    second.ex_score = 3000;
    second.clear_type = 9;
    second.music_type = 7;
    let scores = GameScores { ref_id: Some("REF".to_string()), tracks: vec![track(), second] };
    let import = process_scores(&cards, &Some("CARD".to_string()), &scores, 1_700_000_000_000).unwrap();
    assert!(import.classes.is_none());
    assert_eq!(import.meta.game, "sdvx");
    assert_eq!(import.meta.play_type, "Single");
    assert_eq!(import.meta.service, "Mikado");
    assert_eq!(import.scores.len(), 2);
    let s = &import.scores[0];
    assert_eq!(s.score, 9_950_000);
    assert_eq!(s.lamp, TachiLamp::ExcessiveClear);
    assert_eq!(s.match_type, "sdvxInGameID");
    assert_eq!(s.identifier, 1234);
    assert_eq!(s.difficulty, Difficulty::Maximum);
    assert_eq!(s.time_achieved, 1_700_000_000_000);
    assert_eq!((s.judgements.critical, s.judgements.near, s.judgements.miss), (1400, 90, 10));
    assert_eq!((s.hit_meta.fast, s.hit_meta.slow, s.hit_meta.max_combo), (30, 60, 1500));
    assert_eq!(s.hit_meta.ex_score, None);
    assert_eq!(s.hit_meta.effective_rate, 8550);
    let t = &import.scores[1];
    assert_eq!(t.hit_meta.ex_score, Some(3000));
    assert_eq!(t.lamp, TachiLamp::Failed);
    assert_eq!(t.difficulty, Difficulty::Novice);
}

#[test]
fn scores_are_skipped_for_guests_and_strangers() {
    let cards = CardConfiguration { whitelist: vec!["CARD".to_string()] };
    let guest = GameScores { ref_id: None, tracks: vec![track()] };
    assert!(matches!(process_scores(&cards, &Some("CARD".to_string()), &guest, 0), Err(SkipReason::Guest)));
    let scores = GameScores { ref_id: Some("REF".to_string()), tracks: vec![track()] };
    assert!(matches!(process_scores(&cards, &None, &scores, 0), Err(SkipReason::NoCard)));
    assert!(matches!(process_scores(&cards, &Some("OTHER".to_string()), &scores, 0), Err(SkipReason::NotWhitelisted)));
    assert!(process_scores(&cards, &Some("CARD".to_string()), &scores, 0).is_ok());
}

#[test]
fn save_becomes_class_update() {
    let save = GameSave { ref_id: Some("REF".to_string()), skill_level: 12 };
    let import = process_save(&Some("CARD".to_string()), &save).unwrap();
    assert_eq!(import.classes.unwrap().dan, SkillLevel::Infinite);
    assert!(import.scores.is_empty());
    let odd = GameSave { ref_id: Some("REF".to_string()), skill_level: 40 };
    assert_eq!(process_save(&Some("CARD".to_string()), &odd).unwrap().classes.unwrap().dan, SkillLevel::First);
    let guest = GameSave { ref_id: None, skill_level: 3 };
    assert!(matches!(process_save(&Some("CARD".to_string()), &guest), Err(SkipReason::Guest)));
    assert!(matches!(process_save(&None, &save), Err(SkipReason::NoCard)));
}

#[test]
fn course_becomes_class_update_for_whitelisted_card() {
    let cards = CardConfiguration { whitelist: vec!["CARD".to_string()] };
    let course = GameSave { ref_id: Some("CARD".to_string()), skill_level: 5 };
    assert_eq!(process_course(&cards, &course).unwrap().classes.unwrap().dan, SkillLevel::Fifth);
    let stranger = GameSave { ref_id: Some("OTHER".to_string()), skill_level: 5 };
    assert!(matches!(process_course(&cards, &stranger), Err(SkipReason::NotWhitelisted)));
    let guest = GameSave { ref_id: None, skill_level: 5 };
    assert!(matches!(process_course(&cards, &guest), Err(SkipReason::Guest)));
}

#[test]
fn default_meta_is_standard() {
    let m = ImportMeta::default();
    assert_eq!((m.game.as_str(), m.play_type.as_str(), m.service.as_str()), ("sdvx", "Single", "Mikado"));
}

use mikado::{
    decimal_string, default_timeout, default_true, get_profile, parse_u64, pbs_url, CardConfiguration,
    Configuration, GameProperties, GeneralConfiguration, NotSupportedReason, TachiConfiguration,
};

#[test]
fn fingerprint_derives_features() {
    let p = GameProperties::from_fingerprint("KFC", "J", "G", "A", "2025062401");
    assert_eq!(p.model(), "KFC");
    assert_eq!(p.dest(), "J");
    assert_eq!(p.spec(), "G");
    assert_eq!(p.revision(), "A");
    assert_eq!(p.ext(), 2025062401);
    assert!(p.is_valkyrie());
    assert!(p.has_maxxive_support());
    assert!(p.has_ultimate_support());
    assert!(p.supports_advanced_lamp_tier());
    assert!(p.is_supported_configuration());
    let q = GameProperties::from_fingerprint("KFC", "J", "F", "A", "2025042199");
    assert!(!q.is_valkyrie());
    assert!(!q.has_maxxive_support());
    assert!(!q.supports_advanced_lamp_tier());
    let r = GameProperties::from_fingerprint("KFC", "J", "H", "A", "2025042200");
    assert!(r.is_valkyrie());
    assert!(r.has_maxxive_support());
    assert!(!r.has_ultimate_support());
}

#[test]
fn unreadable_version_reads_as_zero() {
    let p = GameProperties::from_fingerprint("KFC", "J", "A", "A", "20250x");
    assert_eq!(p.ext(), 0);
    assert!(matches!(p.is_not_supported(), Some(NotSupportedReason::TooOld(0))));
    let u = GameProperties::unknown();
    assert_eq!(u.ext(), 0);
    assert!(!u.is_supported_configuration());
}

#[test]
fn unsupported_reasons() {
    let wrong = GameProperties::from_fingerprint("LDJ", "J", "A", "A", "2025010100");
    match wrong.is_not_supported() {
        Some(NotSupportedReason::WrongModel(m)) => assert_eq!(m, "LDJ"),
        _ => panic!("expected a wrong model"),
    }
    let omni = GameProperties::from_fingerprint("KFC", "O", "A", "A", "2025010100");
    assert!(matches!(omni.is_not_supported(), Some(NotSupportedReason::OmnimixDetected)));
    let plus = GameProperties::from_fingerprint("KFC", "X", "A", "A", "2025010100");
    assert!(matches!(plus.is_not_supported(), Some(NotSupportedReason::OmnimixDetected)));
    let old = GameProperties::from_fingerprint("KFC", "J", "A", "A", "2022082999");
    assert!(matches!(old.is_not_supported(), Some(NotSupportedReason::TooOld(2022082999))));
    let ok = GameProperties::from_fingerprint("KFC", "J", "A", "A", "2022083000");
    assert!(ok.is_not_supported().is_none());
    assert!(ok.is_supported_configuration());
}

#[test]
fn decimal_parsing_follows_std() {
    for s in ["", "+", "-1", "12a", " 1", "18446744073709551616", "99999999999999999999999"] {
        assert_eq!(parse_u64(s), s.parse::<u64>().ok(), "{s}");
    }
    for s in ["0", "+12", "007", "2025042200", "18446744073709551615"] {
        assert_eq!(parse_u64(s), s.parse::<u64>().ok(), "{s}");
    }
    assert_eq!(parse_u64("+12"), Some(12));
    assert_eq!(parse_u64("18446744073709551615"), Some(u64::MAX));
    assert_eq!(parse_u64("18446744073709551616"), None);
}

#[test]
fn pbs_url_fills_the_user() {
    let url = pbs_url("https://kamai.tachi.ac/api/v1/users/{}/games/sdvx/Single/pbs/all", "42");
    assert_eq!(url.unwrap(), "https://kamai.tachi.ac/api/v1/users/42/games/sdvx/Single/pbs/all");
    assert_eq!(pbs_url("https://example.org/pbs", "42").unwrap(), "https://example.org/pbs");
}

fn config(whitelist: Vec<&str>, key: Option<&str>) -> Configuration {
    Configuration {
        general: GeneralConfiguration { enable: default_true(), export_class: false, inject_cloud_pbs: false, timeout: default_timeout() },
        cards: CardConfiguration { whitelist: whitelist.into_iter().map(|s| s.to_string()).collect() },
        tachi: TachiConfiguration {
            base_url: "https://kamai.tachi.ac/".to_string(),
            status: "/api/v1/status".to_string(),
            import: "/ir/direct-manual/import".to_string(),
            pbs: "/api/v1/users/{}/games/sdvx/Single/pbs/all".to_string(),
            api_key: key.map(|s| s.to_string()),
        },
    }
}

#[test]
fn profiles_follow_whitelist_and_key() {
    let c = config(vec![], Some("KEY"));
    let p = get_profile(&c, "ANY").unwrap();
    assert_eq!(p.name, "default");
    assert_eq!(p.api_key, "KEY");
    assert!(p.cards.is_empty());
    let c = config(vec!["A", "B"], Some("KEY"));
    assert_eq!(get_profile(&c, "B").unwrap().cards, vec!["A".to_string(), "B".to_string()]);
    assert!(get_profile(&c, "C").is_none());
    let c = config(vec![], None);
    assert!(get_profile(&c, "A").is_none());
}

#[test]
fn timeout_is_capped() {
    let c = config(vec![], None);
    assert!(c.general.enable);
    assert_eq!(c.general.timeout, 3000);
    assert_eq!(c.general.request_timeout(), 3000);
    let g = GeneralConfiguration { enable: true, export_class: false, inject_cloud_pbs: false, timeout: 60000 };
    assert_eq!(g.request_timeout(), 10000);
    assert!(c.cards.is_card_whitelisted(&Some("X".to_string())));
    assert!(!c.cards.is_card_whitelisted(&None));
}

#[test]
fn reasons_and_descriptions_read_as_text() {
    let wrong = GameProperties::from_fingerprint("LDJ", "J", "A", "A", "2025010100");
    assert_eq!(wrong.is_not_supported().unwrap().message(), "Game model 'LDJ' is not related to chicken");
    let omni = GameProperties::from_fingerprint("KFC", "O", "A", "A", "2025010100");
    assert_eq!(omni.is_not_supported().unwrap().message(), "Omnimix/Plus detected");
    let old = GameProperties::from_fingerprint("KFC", "J", "A", "A", "2021010100");
    assert_eq!(old.is_not_supported().unwrap().message(), "Game version '2021010100' is too old");
    let p = GameProperties::from_fingerprint("KFC", "J", "H", "B", "2025062401");
    assert_eq!(p.describe(), "KFC:J:H:B:2025062401 (Valkyrie) (Maxxive support) (Ultimate support)");
    let q = GameProperties::from_fingerprint("KFC", "J", "A", "B", "2024010100");
    assert_eq!(q.describe(), "KFC:J:A:B:2024010100");
    assert_eq!(decimal_string(0), "0");
    assert_eq!(decimal_string(u64::MAX), u64::MAX.to_string());
}

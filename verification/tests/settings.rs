use modbot::config::{env_i64, parse_i64, Config, EnvError};

#[test]
fn parse_matches_std() {
    let samples = [
        "0", "42", "-42", "+42", "", "-", "+", "--1", "+-1", " 1", "1 ", "12a", "٣",
        "9223372036854775807", "9223372036854775808", "-9223372036854775808",
        "-9223372036854775809", "00000000000000000000000000000000000000001", "-0",
        "99999999999999999999999999", "1_000", "0x10",
    ];
    for s in samples {
        assert_eq!(parse_i64(s), s.parse::<i64>().ok(), "{:?}", s);
    }
}

#[test]
fn env_i64_reads_numbers() {
    assert!(matches!(env_i64("OWNER_ID", Some("123456".to_string())), Ok(123456)));
    assert!(matches!(env_i64("ACTION_LIMIT", Some("-3".to_string())), Ok(-3)));
}

#[test]
fn env_i64_names_a_missing_variable() {
    match env_i64("OWNER_CHAT", None) {
        Err(EnvError::NotSet(name)) => assert_eq!(name, "OWNER_CHAT"),
        _ => panic!("expected NotSet"),
    }
}

#[test]
fn env_i64_names_a_bad_number() {
    match env_i64("REQUIRED_VOTES", Some("five".to_string())) {
        Err(EnvError::NotNumber(name)) => assert_eq!(name, "REQUIRED_VOTES"),
        _ => panic!("expected NotNumber"),
    }
}

#[test]
fn written_numbers_read_back() {
    for n in [0i64, 1, -1, i64::MIN, i64::MAX, 987654321] {
        assert_eq!(parse_i64(&modbot::text::decimal_i64(n)), Some(n));
    }
}

#[test]
fn config_holds_settings() {
    let c = Config {
        telegram_api_key: "key".to_string(),
        db_url: "sqlite://bot.db".to_string(),
        owner_id: 1,
        owner_chat: -100,
        required_votes: 3,
        action_limit: 5,
        action_period_hours: 6,
    };
    assert_eq!(c.action_limit, 5);
    assert_eq!(c.db_url, "sqlite://bot.db");
}

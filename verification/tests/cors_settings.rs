use web_project::cors::{configured_origins, origin_is_listed, origin_to_allow, CORS};
use web_project::rate_limiter::RateLimiterConfig;
use web_project::settings::{
    contains_key, group_settings, password_policy, public_settings, rate_limiter_config,
    setting_bool, setting_i32, setting_u64, settings_to_reload, SettingResponse, SettingsReload,
    UpdateSettingsRequest,
};

#[test]
fn test_origin_to_allow() {
    assert_eq!(origin_to_allow("*", Some("https://a.example")), "https://a.example");
    assert_eq!(origin_to_allow("*", None), "*");
    let list = "https://a.example, https://b.example ,https://c.example";
    assert_eq!(origin_to_allow(list, Some("https://b.example")), "https://b.example");
    assert_eq!(origin_to_allow(list, Some("https://c.example")), "https://c.example");
    assert_eq!(origin_to_allow(list, Some("https://d.example")), list);
    assert_eq!(origin_to_allow(list, None), list);
    assert_eq!(origin_to_allow("http://localhost:5173", Some("http://localhost:5173")), "http://localhost:5173");
    assert_eq!(origin_to_allow("http://localhost:5173", Some("http://evil")), "http://localhost:5173");
}

#[test]
fn test_origin_lists() {
    assert!(origin_is_listed("a,b,c", "a"));
    assert!(origin_is_listed("a,b,c", "b"));
    assert!(origin_is_listed("a,b,c", "c"));
    assert!(!origin_is_listed("a,b,c", "a,b"));
    assert!(!origin_is_listed("a,b,c", "d"));
    assert!(!origin_is_listed("ab", "a"));
    assert!(origin_is_listed(" a ,\tb\n", "b"));
    assert!(origin_is_listed("a,,b", ""));
    assert!(origin_is_listed("", ""));
    assert!(origin_is_listed("a,", ""));
    assert!(origin_is_listed(",a", ""));
    assert!(!origin_is_listed("a", ""));
    assert!(!origin_is_listed("a b", "a"));
    assert!(origin_is_listed("ñ, é", "é"));
}

#[test]
fn test_cors_headers() {
    let headers = CORS.headers("*", Some("https://a.example"));
    let pairs: Vec<(&str, &str)> = headers.iter().map(|(n, v)| (n.as_str(), v.as_str())).collect();
    assert_eq!(
        pairs,
        vec![
            ("Access-Control-Allow-Origin", "https://a.example"),
            ("Access-Control-Allow-Methods", "GET, POST, PUT, DELETE, OPTIONS"),
            ("Access-Control-Allow-Headers", "Content-Type, Authorization"),
            ("Access-Control-Allow-Credentials", "true"),
        ]
    );
    assert_eq!(configured_origins(None), "http://localhost:5173");
    assert_eq!(configured_origins(Some("*".to_string())), "*");
}

fn setting(key: &str, category: &str) -> SettingResponse {
    SettingResponse {
        key: key.to_string(),
        value: "1".to_string(),
        description: Some(format!("sobre {}", key)),
        category: category.to_string(),
    }
}

#[test]
fn test_group_settings() {
    let settings = vec![
        setting("a", "security"),
        setting("b", "audit"),
        setting("c", "otra"),
        setting("d", "security"),
        setting("e", "session"),
        setting("f", "password"),
        setting("g", "Security"),
        setting("h", "password"),
    ];
    let grouped = group_settings(&settings);
    let keys = |v: &Vec<SettingResponse>| v.iter().map(|s| s.key.clone()).collect::<Vec<String>>();
    assert_eq!(keys(&grouped.security), vec!["a", "d"]);
    assert_eq!(keys(&grouped.session), vec!["e"]);
    assert_eq!(keys(&grouped.password), vec!["f", "h"]);
    assert_eq!(keys(&grouped.audit), vec!["b"]);
    assert_eq!(grouped.security[1].description.as_deref(), Some("sobre d"));
    assert_eq!(grouped.security[1].value, "1");
    assert_eq!(grouped.security[1].category, "security");
    let empty = group_settings(&Vec::new());
    assert!(empty.security.is_empty() && empty.session.is_empty());
}

#[test]
fn test_setting_values() {
    for text in ["true", "True", "TRUE", "tRuE", "1"] {
        assert!(setting_bool(Some(text), false), "{}", text);
    }
    for text in ["false", "0", "", "yes", " true", "11", "truth"] {
        assert!(!setting_bool(Some(text), true), "{}", text);
    }
    assert!(setting_bool(None, true));
    assert!(!setting_bool(None, false));
    assert_eq!(setting_i32(Some("42"), 7), 42);
    assert_eq!(setting_i32(Some("-42"), 7), -42);
    assert_eq!(setting_i32(Some("+5"), 7), 5);
    assert_eq!(setting_i32(Some("4.2"), 7), 7);
    assert_eq!(setting_i32(Some(""), 7), 7);
    assert_eq!(setting_i32(Some("2147483648"), 7), 7);
    assert_eq!(setting_i32(None, 7), 7);
    assert_eq!(setting_u64(Some("18446744073709551615"), 1), u64::MAX);
    assert_eq!(setting_u64(Some("-1"), 1), 1);
    assert_eq!(setting_u64(None, 9), 9);
    assert_eq!(public_settings(None).session_timeout_minutes, 30);
    assert_eq!(public_settings(Some("45")).session_timeout_minutes, 45);
    assert_eq!(public_settings(Some("x")).session_timeout_minutes, 30);
}

#[test]
fn test_settings_to_reload() {
    let keys = |items: &[&str]| items.iter().map(|s| s.to_string()).collect::<Vec<String>>();
    let none = SettingsReload { ip_validation: false, rate_limiter: false, password_policy: false, audit_log_ip: false };
    assert_eq!(settings_to_reload(&keys(&[])), none);
    assert_eq!(settings_to_reload(&keys(&["session_timeout_minutes"])), none);
    assert_eq!(
        settings_to_reload(&keys(&["require_ip_validation"])),
        SettingsReload { ip_validation: true, ..none }
    );
    for key in ["max_login_attempts", "block_duration_minutes", "attempt_window_minutes"] {
        assert_eq!(settings_to_reload(&keys(&["x", key])), SettingsReload { rate_limiter: true, ..none });
    }
    for key in [
        "password_min_length",
        "password_require_uppercase",
        "password_require_lowercase",
        "password_require_special",
    ] {
        assert_eq!(settings_to_reload(&keys(&[key])), SettingsReload { password_policy: true, ..none });
    }
    assert_eq!(
        settings_to_reload(&keys(&["audit_log_ip", "max_login_attempts"])),
        SettingsReload { rate_limiter: true, audit_log_ip: true, ..none }
    );
    let request = UpdateSettingsRequest {
        settings: vec![
            ("audit_log_ip".to_string(), "false".to_string()),
            ("session_timeout_minutes".to_string(), "15".to_string()),
        ],
    };
    assert_eq!(request.updated_keys(), vec!["audit_log_ip", "session_timeout_minutes"]);
    assert_eq!(request.reload(), SettingsReload { audit_log_ip: true, ..none });
    assert!(contains_key(&keys(&["a", "b"]), "b"));
    assert!(!contains_key(&keys(&["a", "b"]), "B"));
}

#[test]
fn test_limits_from_settings() {
    assert_eq!(
        rate_limiter_config(5, 5, 1),
        RateLimiterConfig { max_attempts: 5, block_duration_secs: 300, attempt_window_secs: 60 }
    );
    assert_eq!(
        rate_limiter_config(-1, -1, 0),
        RateLimiterConfig {
            max_attempts: u32::MAX,
            block_duration_secs: u64::MAX - 59,
            attempt_window_secs: 0
        }
    );
    let policy = password_policy(10, true, false, true);
    assert_eq!(policy.min_length, 10);
    assert_eq!(policy.max_length, 128);
    assert!(policy.require_uppercase && !policy.require_lowercase && policy.require_special);
    assert_eq!(password_policy(-1, true, true, true).min_length, usize::MAX);
    assert_eq!(password_policy(-2, true, true, true).min_length, usize::MAX - 1);
    assert_eq!(password_policy(0, true, true, true).min_length, 0);
}

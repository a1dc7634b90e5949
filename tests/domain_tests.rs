use rust_admin::products::{decode_images, encode_images};
use rust_admin::errors::{DomainError, ValidationErrorBuilder};
use rust_admin::ids::{same_entity, EntityBase, UserId};
use rust_admin::models::EventMetadata;
use rust_admin::money::{Currency, Money};
use rust_admin::settings::{
    security_settings_entries, settings_from_rows, system_settings_entries, ui_settings_entries,
    SecuritySettings, SettingEntry, SystemSettings, UISettings,
};

#[test]
fn should_generate_different_ids() {
    let id1: UserId = UserId::generate();
    let id2: UserId = UserId::generate();
    assert!(id1 != id2);
    assert_eq!(id1.value().len(), 36);
    assert!(UserId::from_string(id1.to_string()).is_ok());
}

#[test]
fn should_create_id_from_valid_uuid() {
    let uuid_str = "550e8400-e29b-41d4-a716-446655440000";
    let id = UserId::from_string(uuid_str.to_string());
    assert!(id.is_ok());
    assert_eq!(id.unwrap().value(), uuid_str);
}

#[test]
fn should_reject_empty_id() {
    let id = UserId::from_string("".to_string());
    assert!(id.is_err());
}

#[test]
fn should_reject_invalid_uuid() {
    let id = UserId::from_string("invalid-uuid".to_string());
    assert!(id.is_err());
}

#[test]
fn blank_id_is_refused_as_empty() {
    assert_eq!(UserId::from_string("   ".to_string()).err(), Some(DomainError::InvalidId("ID不能为空".to_string())));
    assert_eq!(UserId::from_string("x".to_string()).err(), Some(DomainError::InvalidId("无效的ID格式".to_string())));
}

#[test]
fn entities_compare_by_id() {
    let a = EntityBase::new(UserId::from_string("550e8400-e29b-41d4-a716-446655440000".to_string()).unwrap());
    let b = EntityBase::new(UserId::from_string("550e8400-e29b-41d4-a716-446655440000".to_string()).unwrap());
    let c = EntityBase::new(UserId::generate());
    assert!(same_entity(&a, &b));
    assert!(!same_entity(&a, &c));
    assert_eq!(a.id.to_string(), "550e8400-e29b-41d4-a716-446655440000");
}

#[test]
fn should_add_same_currency() {
    let m1 = Money::from_cents(1050, Currency::CNY).unwrap();
    let m2 = Money::from_cents(525, Currency::CNY).unwrap();
    let result = m1.add(&m2).unwrap();
    assert_eq!(result.amount_cents(), 1575);
}

#[test]
fn should_fail_add_different_currency() {
    let m1 = Money::from_cents(1000, Currency::CNY).unwrap();
    let m2 = Money::from_cents(500, Currency::USD).unwrap();
    let result = m1.add(&m2);
    assert!(result.is_err());
}

#[test]
fn should_compare_amounts() {
    let m1 = Money::from_cents(1000, Currency::CNY).unwrap();
    let m2 = Money::from_cents(500, Currency::CNY).unwrap();
    assert!(m1.is_greater_than(&m2).unwrap());
    assert!(m2.is_less_than(&m1).unwrap());
}

#[test]
fn money_bounds_and_subtraction() {
    assert!(matches!(Money::from_cents(-1, Currency::CNY), Err(DomainError::InvalidMoney(_))));
    assert!(Money::from_cents(100_000_000_000, Currency::EUR).is_ok());
    assert!(Money::from_cents(100_000_000_001, Currency::EUR).is_err());
    let m1 = Money::from_cents(1000, Currency::JPY).unwrap();
    let m2 = Money::from_cents(300, Currency::JPY).unwrap();
    assert_eq!(m1.subtract(&m2).unwrap().amount_cents(), 700);
    assert!(m2.subtract(&m1).is_err());
    let z = Money::zero(Currency::USD);
    assert!(z.is_zero());
    assert!(!z.is_positive());
    assert_eq!(*z.currency(), Currency::USD);
    assert!(m1.is_greater_than(&z).is_err());
}

#[test]
fn validation_builder_joins_messages() {
    let b = ValidationErrorBuilder::new();
    assert!(b.is_valid());
    assert_eq!(b.build(), Ok(()));
    let mut b = ValidationErrorBuilder::default();
    b.add_error("name is empty".to_string());
    b.add_error_if(false, "skipped".to_string());
    b.add_error_if(true, "email is invalid".to_string());
    assert!(!b.is_valid());
    assert_eq!(b.build(), Err(DomainError::Validation("name is empty; email is invalid".to_string())));
}

#[test]
fn event_metadata_default_source() {
    let m = EventMetadata::default();
    assert_eq!(m.source, "rust-admin");
    assert!(m.correlation_id.is_none());
}

fn row(k: &str, v: &str) -> SettingEntry {
    SettingEntry { key: k.to_string(), value: v.to_string() }
}

#[test]
fn settings_defaults_when_empty() {
    let s = settings_from_rows(&Vec::new());
    assert_eq!(s.system.system_name, "Rust Admin");
    assert_eq!(s.system.system_version, "1.0.0");
    assert_eq!(s.ui.theme_color, "#1890ff");
    assert_eq!(s.ui.language, "zh-CN");
    assert_eq!(s.ui.page_size, 10);
    assert_eq!(s.security, SecuritySettings { max_login_attempts: 5, lockout_duration: 300, reset_attempts_after: 3600 });
}

#[test]
fn settings_read_last_value_and_parse_numbers() {
    let rows = vec![
        row("page_size", "20"),
        row("system_name", "Shop"),
        row("max_login_attempts", "3"),
        row("lockout_duration", "abc"),
        row("reset_attempts_after", "-7"),
        row("system_name", "Shop 2"),
        row("unknown", "x"),
    ];
    let s = settings_from_rows(&rows);
    assert_eq!(s.ui.page_size, 20);
    assert_eq!(s.system.system_name, "Shop 2");
    assert_eq!(s.security.max_login_attempts, 3);
    assert_eq!(s.security.lockout_duration, 300);
    assert_eq!(s.security.reset_attempts_after, -7);
    let p = s.security.to_policy();
    assert_eq!(p.max_attempts, 3);
    assert_eq!(p.lockout_duration, 300);
    assert_eq!(p.reset_attempts_after, 3600);
}

#[test]
fn settings_entries_round_trip() {
    let sec = SecuritySettings { max_login_attempts: 7, lockout_duration: -60, reset_attempts_after: 120 };
    let rows = security_settings_entries(&sec);
    assert_eq!(rows[1].value, "-60");
    assert_eq!(settings_from_rows(&rows).security, sec);
    let ui = UISettings { theme_color: "#000".to_string(), language: "en".to_string(), page_size: 25 };
    let rows = ui_settings_entries(&ui);
    assert_eq!(rows[2].key, "page_size");
    assert_eq!(rows[2].value, "25");
    let sys = SystemSettings { system_name: "A".to_string(), system_description: "B".to_string(), system_version: "2".to_string() };
    let rows = system_settings_entries(&sys);
    let back = settings_from_rows(&rows);
    assert_eq!(back.system.system_name, "A");
    assert_eq!(back.system.system_description, "B");
    assert_eq!(back.system.system_version, "2");
}

#[test]
fn domain_error_text() {
    assert_eq!(DomainError::NotFound("user 3".to_string()).to_text(), "未找到: user 3");
    assert_eq!(DomainError::Validation("bad".to_string()).to_text(), "验证错误: bad");
}

#[test]
fn images_round_trip_in_order() {
    let images = vec!["b.png".to_string(), "a \"quoted\".jpg".to_string(), "c.gif".to_string()];
    let stored = encode_images(&images);
    assert_eq!(stored, r#"["b.png","a \"quoted\".jpg","c.gif"]"#);
    assert_eq!(decode_images(&stored), images);
    assert_eq!(encode_images(&Vec::new()), "[]");
    assert!(decode_images("not json").is_empty());
}

#[test]
fn page_size_parsing_follows_integer_rules() {
    let cases: [(&str, i32); 10] = [
        ("+5", 5),
        ("-", 10),
        ("+", 10),
        ("", 10),
        ("2147483647", 2147483647),
        ("2147483648", 10),
        ("-2147483648", -2147483648),
        ("12a", 10),
        (" 5", 10),
        ("007", 7),
    ];
    for (text, expected) in cases {
        let s = settings_from_rows(&vec![row("page_size", text)]);
        assert_eq!(s.ui.page_size, expected, "page_size {:?}", text);
        assert_eq!(text.parse::<i32>().unwrap_or(10), expected);
    }
    let ui = UISettings { theme_color: "x".to_string(), language: "y".to_string(), page_size: i32::MIN };
    assert_eq!(ui_settings_entries(&ui)[2].value, i32::MIN.to_string());
    let ui = UISettings { theme_color: "x".to_string(), language: "y".to_string(), page_size: 0 };
    assert_eq!(ui_settings_entries(&ui)[2].value, "0");
}

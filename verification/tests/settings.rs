use escpos_lib::settings::parse_user_id;
use escpos_lib::{Role, Settings, User, UserLookup};

fn role(name: &str, max_print_len: usize, minutes_between_prints: usize) -> Role {
    Role { name: name.to_string(), max_print_len, minutes_between_prints }
}

fn user(id: &str, role: &str) -> User {
    User { id: id.to_string(), role: role.to_string() }
}

fn sample() -> Settings {
    Settings {
        roles: vec![role("admin", usize::MAX, 0), role("user", 200, 3600), role("user", 1, 1)],
        users: vec![
            user("17", "user"),
            user("-4", "admin"),
            user("+17", "admin"),
            user("99", "ghost"),
            user("not a number", "user"),
            user("5", "user"),
        ],
    }
}

#[test]
fn default_settings_hold_two_roles_and_one_administrator() {
    let settings = Settings::create_default();
    assert_eq!(
        settings.roles,
        vec![role("admin", usize::MAX, 0), role("user", 200, 3600)]
    );
    assert_eq!(settings.users, vec![user("228223333", "admin")]);
}

#[test]
fn default_administrator_is_found() {
    let settings = Settings::create_default();
    assert_eq!(settings.find_user(228223333), UserLookup::Found(0));
    assert_eq!(settings.get_user(228223333), Some(&user("228223333", "admin")));
    assert_eq!(settings.get_role(228223333), Some(&role("admin", usize::MAX, 0)));
}

#[test]
fn unknown_id_in_default_settings() {
    let settings = Settings::create_default();
    assert_eq!(settings.find_user(1), UserLookup::Missing);
    assert_eq!(settings.get_user(1), None);
    assert_eq!(settings.get_role(1), None);
}

#[test]
fn the_first_user_with_the_id_wins() {
    let settings = sample();
    assert_eq!(settings.find_user(17), UserLookup::Found(0));
    assert_eq!(settings.get_user(17), Some(&user("17", "user")));
}

#[test]
fn the_first_role_with_the_name_wins() {
    let settings = sample();
    assert_eq!(settings.get_role(17), Some(&role("user", 200, 3600)));
}

#[test]
fn negative_ids_can_be_looked_up() {
    let settings = sample();
    assert_eq!(settings.find_user(-4), UserLookup::Found(1));
    assert_eq!(settings.get_role(-4), Some(&role("admin", usize::MAX, 0)));
}

#[test]
fn a_user_whose_role_does_not_exist_has_none() {
    let settings = sample();
    assert_eq!(settings.get_user(99), Some(&user("99", "ghost")));
    assert_eq!(settings.get_role(99), None);
}

#[test]
fn the_search_stops_at_an_id_that_is_no_number() {
    let settings = sample();
    assert_eq!(settings.find_user(5), UserLookup::Unreadable(4));
    assert_eq!(settings.find_user(123_456), UserLookup::Unreadable(4));
}

#[test]
fn a_faulty_id_behind_the_match_does_no_harm() {
    let settings = sample();
    assert_eq!(settings.find_user(99), UserLookup::Found(3));
}

#[test]
fn empty_settings_know_nobody() {
    let settings = Settings { roles: Vec::new(), users: Vec::new() };
    assert_eq!(settings.find_user(0), UserLookup::Missing);
    assert_eq!(settings.get_user(0), None);
    assert_eq!(settings.get_role(0), None);
}

#[test]
fn ids_are_read_as_signed_decimal() {
    assert_eq!(parse_user_id("0"), Some(0));
    assert_eq!(parse_user_id("228223333"), Some(228_223_333));
    assert_eq!(parse_user_id("-1"), Some(-1));
    assert_eq!(parse_user_id("+7"), Some(7));
    assert_eq!(parse_user_id("-0"), Some(0));
    assert_eq!(parse_user_id("007"), Some(7));
    assert_eq!(parse_user_id("9223372036854775807"), Some(i64::MAX));
    assert_eq!(parse_user_id("-9223372036854775808"), Some(i64::MIN));
    assert_eq!(parse_user_id("00000000000000000000000000012"), Some(12));
}

#[test]
fn what_is_no_number_is_no_id() {
    assert_eq!(parse_user_id(""), None);
    assert_eq!(parse_user_id("+"), None);
    assert_eq!(parse_user_id("-"), None);
    assert_eq!(parse_user_id("--1"), None);
    assert_eq!(parse_user_id("+-1"), None);
    assert_eq!(parse_user_id("1-"), None);
    assert_eq!(parse_user_id(" 1"), None);
    assert_eq!(parse_user_id("1 "), None);
    assert_eq!(parse_user_id("1_000"), None);
    assert_eq!(parse_user_id("12a"), None);
    assert_eq!(parse_user_id("0x10"), None);
    assert_eq!(parse_user_id("1.0"), None);
    assert_eq!(parse_user_id("١٢٣"), None);
    assert_eq!(parse_user_id("9223372036854775808"), None);
    assert_eq!(parse_user_id("-9223372036854775809"), None);
    assert_eq!(parse_user_id("99999999999999999999"), None);
    assert_eq!(parse_user_id("184467440737095516160"), None);
    assert_eq!(parse_user_id("92233720368547758070"), None);
}

#[test]
fn ids_are_read_as_the_standard_library_reads_them() {
    let mut samples: Vec<String> = vec![
        "".into(),
        "+".into(),
        "-".into(),
        "+0".into(),
        "-0".into(),
        "+-0".into(),
        "0".into(),
        "00".into(),
        "-00".into(),
        "5".into(),
        "a".into(),
        "5a".into(),
        "a5".into(),
        " 5".into(),
        "5 ".into(),
        "5\n".into(),
        "٥".into(),
        "５".into(),
        "/".into(),
        ":".into(),
        "1/".into(),
        "1:".into(),
        "9223372036854775806".into(),
        "9223372036854775807".into(),
        "9223372036854775808".into(),
        "9223372036854775809".into(),
        "+9223372036854775807".into(),
        "+9223372036854775808".into(),
        "-9223372036854775807".into(),
        "-9223372036854775808".into(),
        "-9223372036854775809".into(),
        "18446744073709551615".into(),
        "18446744073709551616".into(),
        "18446744073709551617".into(),
        "27670116110564327424".into(),
        "36893488147419103232".into(),
        "0000000000000000000000000000009223372036854775807".into(),
        "0000000000000000000000000000009223372036854775808".into(),
        "-0000000000000000000000000000009223372036854775808".into(),
        "-0000000000000000000000000000009223372036854775809".into(),
        "100000000000000000000000000000000000000000".into(),
    ];
    for number in [0i64, 1, -1, 9, 10, -10, 99, 100, 255, 256, 65_535, 1 << 31, -(1 << 31), 1 << 62] {
        samples.push(number.to_string());
        samples.push(format!("+{}", number));
        samples.push(format!("{}0", number));
        samples.push(format!("{}9", number));
    }
    for exponent in 0..64u32 {
        let power = 1u64 << exponent;
        samples.push(power.to_string());
        samples.push(format!("-{}", power));
        samples.push((power - 1).to_string());
    }
    for sample in &samples {
        assert_eq!(parse_user_id(sample), sample.parse::<i64>().ok(), "{:?}", sample);
    }
}

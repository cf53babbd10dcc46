use pender::auth::{
    generate_token, get_claims, hash_password, logged_in, password_matches, token_claims,
    ClaimsError, LoginData, RegisterData, ResetCodeData, TokenError, UserStruct,
};
use pender::hash_format::is_readable_hash;
use pender::cities::{CityNames, CityTable};
use pender::config::{AwsConfig, Config, DatabaseConfig, SmtpConfig};
use pender::forms::{
    check_login, check_reset_code, complete_login, edit_profile, edit_profile_body, login, login_body,
    new_user_row, register_body, register_check, register_stored, reset_code_body, reset_request,
    reset_request_body, EditProfileOutcome, LoginCheck, LoginOutcome, RegisterOutcome, ResetCodeOutcome,
    ResetRequestOutcome, ACCOUNT_CREATED_BODY, CODE_NOT_SENT_BODY, CODE_SENT_BODY, EMAIL_IN_USE_BODY,
    EMAIL_NOT_FOUND_BODY, FILL_IN_FORM_BODY, LOGIN_OK_BODY, PASSWORD_RESET_BODY, PROFILE_FAILED_BODY,
    PROFILE_SAVED_BODY, REGISTER_FAILED_BODY, RESET_EMAIL_NOT_FOUND_BODY, WRONG_CODE_BODY, WRONG_PASSWORD_BODY,
};

fn s(x: &str) -> String {
    x.to_string()
}

fn config() -> Config {
    Config {
        database: DatabaseConfig {
            username: s("u"),
            password: s("p"),
            host: s("h"),
            port: 1,
            db_name: s("d"),
        },
        smtp: SmtpConfig { username: s("m"), password: s("p") },
        tide_secret: s("a very secret key"),
        port: s("8080"),
        aws: AwsConfig { access_key_id: s("k"), secret_access_key: s("s") },
        enviorement: s("local"),
    }
}

fn cities() -> CityTable {
    CityTable {
        languages: vec![
            CityNames { lang: s("GEO"), names: vec![(s("tbilisi"), s("თბილისი"))] },
            CityNames { lang: s("ENG"), names: vec![(s("tbilisi"), s("Tbilisi"))] },
        ],
    }
}

fn user(stored_password: String) -> UserStruct {
    UserStruct {
        id: s("42"),
        email: s("nino@example.ge"),
        name: s("Nino"),
        phone: s("555"),
        city: s("tbilisi"),
        facebook: s("nino.fb"),
        password: stored_password,
    }
}

fn sorted_claims(c: &mut Vec<(String, String)>) -> Vec<(String, String)> {
    c.sort();
    c.clone()
}

#[test]
fn hashed_password_verifies() {
    let h = hash_password(&s("hunter2"));
    assert!(h.starts_with("$2b$"));
    assert_ne!(h, "hunter2");
    assert!(password_matches(&s("hunter2"), &h));
    assert!(!password_matches(&s("hunter3"), &h));
    assert!(!password_matches(&s("hunter2"), &s("not a hash")));
}

#[test]
fn login_with_the_registered_password() {
    let h = hash_password(&s("pa55"));
    let u = user(h);
    let form = LoginData { email: s("nino@example.ge"), password: s("pa55") };
    let out = login(&config(), &form, Some(&u), &s("ENG"), &cities());
    let token = match &out {
        LoginOutcome::LoggedIn(t) => t.clone(),
        other => panic!("unexpected {:?}", other),
    };
    assert_eq!(login_body(&out), Some(LOGIN_OK_BODY));
    assert_eq!(token.split('.').count(), 3);
    let mut read = match get_claims(&config(), Some(&token)) {
        Ok(c) => c,
        Err(_) => panic!("token not read back"),
    };
    let mut expected = token_claims(&u, &s("Tbilisi"));
    assert_eq!(sorted_claims(&mut read), sorted_claims(&mut expected));
    assert!(logged_in(Some(&read)));
}

#[test]
fn login_failures() {
    let h = hash_password(&s("right"));
    let u = user(h);
    let wrong = LoginData { email: s("nino@example.ge"), password: s("wrong") };
    let out = login(&config(), &wrong, Some(&u), &s("ENG"), &cities());
    assert_eq!(out, LoginOutcome::WrongPassword);
    assert_eq!(login_body(&out), Some(WRONG_PASSWORD_BODY));
    let out = login(&config(), &wrong, None, &s("ENG"), &cities());
    assert_eq!(out, LoginOutcome::EmailNotFound);
    assert_eq!(login_body(&out), Some(EMAIL_NOT_FOUND_BODY));
    let right = LoginData { email: s("nino@example.ge"), password: s("right") };
    let out = login(&config(), &right, Some(&u), &s("RUS"), &cities());
    assert_eq!(out, LoginOutcome::UnknownCity);
    assert_eq!(login_body(&out), None);
}

#[test]
fn token_needs_a_known_city() {
    let u = user(s("x"));
    match generate_token(&config(), &u, &s("GEO"), &cities()) {
        Ok(t) => assert_eq!(t.split('.').count(), 3),
        Err(_) => panic!("no token"),
    }
    let mut stranger = user(s("x"));
    stranger.city = s("kutaisi");
    assert!(matches!(generate_token(&config(), &stranger, &s("GEO"), &cities()), Err(TokenError::UnknownCity)));
}

#[test]
fn claims_of_a_session() {
    let c = config();
    match get_claims(&c, None) {
        Ok(v) => assert!(v.is_empty()),
        Err(_) => panic!("no cookie must give no claims"),
    }
    assert!(matches!(get_claims(&c, Some(&s("garbage"))), Err(ClaimsError::InvalidToken)));
    let u = user(s("x"));
    let token = match generate_token(&c, &u, &s("GEO"), &cities()) {
        Ok(t) => t,
        Err(_) => panic!("no token"),
    };
    let mut other = config();
    other.tide_secret = s("another key");
    assert!(matches!(get_claims(&other, Some(&token)), Err(ClaimsError::InvalidToken)));
}

#[test]
fn logged_in_needs_claims() {
    assert!(!logged_in(Some(&Vec::new())));
    assert!(logged_in(Some(&vec![(s("id"), s("1"))])));
    assert!(logged_in(None));
}

#[test]
fn registration_answers() {
    let mut form = RegisterData {
        email: s("a@b.c"),
        name: s("A"),
        phone: s("1"),
        city: s("tbilisi"),
        facebook: s(""),
        password: s("pw"),
    };
    assert_eq!(register_check(true, &form), Some(RegisterOutcome::EmailInUse));
    assert_eq!(register_check(false, &form), None);
    form.password = s("");
    assert_eq!(register_check(false, &form), Some(RegisterOutcome::EmptyPassword));
    assert_eq!(register_check(true, &form), Some(RegisterOutcome::EmailInUse));
    assert_eq!(register_stored(true), RegisterOutcome::Created);
    assert_eq!(register_stored(false), RegisterOutcome::Failed);
    assert_eq!(register_body(&RegisterOutcome::Created), ACCOUNT_CREATED_BODY);
    assert_eq!(register_body(&RegisterOutcome::EmailInUse), EMAIL_IN_USE_BODY);
    assert_eq!(register_body(&RegisterOutcome::EmptyPassword), FILL_IN_FORM_BODY);
    assert_eq!(register_body(&RegisterOutcome::Failed), REGISTER_FAILED_BODY);
    assert!(ACCOUNT_CREATED_BODY.contains("Account created!"));
}

#[test]
fn profile_edit_answers() {
    let u = user(s("x"));
    let out = edit_profile(&config(), &u, false, &s("ENG"), &cities());
    assert_eq!(out, EditProfileOutcome::Failed);
    assert_eq!(edit_profile_body(&out), Some(PROFILE_FAILED_BODY));
    let out = edit_profile(&config(), &u, true, &s("ENG"), &cities());
    let expected = generate_token(&config(), &u, &s("ENG"), &cities()).ok().unwrap();
    assert_eq!(out, EditProfileOutcome::Saved(expected));
    assert_eq!(edit_profile_body(&out), Some(PROFILE_SAVED_BODY));
    let out = edit_profile(&config(), &u, true, &s("FRA"), &cities());
    assert_eq!(out, EditProfileOutcome::UnknownCity);
    assert_eq!(edit_profile_body(&out), None);
}

#[test]
fn reset_answers() {
    assert_eq!(reset_request(false, true), ResetRequestOutcome::EmailNotFound);
    assert_eq!(reset_request(true, true), ResetRequestOutcome::CodeSent);
    assert_eq!(reset_request(true, false), ResetRequestOutcome::SendFailed);
    assert_eq!(reset_request_body(&ResetRequestOutcome::EmailNotFound), RESET_EMAIL_NOT_FOUND_BODY);
    assert_eq!(reset_request_body(&ResetRequestOutcome::CodeSent), CODE_SENT_BODY);
    assert_eq!(reset_request_body(&ResetRequestOutcome::SendFailed), CODE_NOT_SENT_BODY);
    let form = ResetCodeData { code: s("1234"), password: s("new") };
    assert_eq!(check_reset_code(&s("1234"), &form), ResetCodeOutcome::Accepted);
    assert_eq!(check_reset_code(&s("4321"), &form), ResetCodeOutcome::WrongCode);
    assert_eq!(check_reset_code(&s("01234"), &form), ResetCodeOutcome::WrongCode);
    assert_eq!(reset_code_body(&ResetCodeOutcome::Accepted), (PASSWORD_RESET_BODY, Some("/login")));
    assert_eq!(reset_code_body(&ResetCodeOutcome::WrongCode), (WRONG_CODE_BODY, None));
}

#[test]
fn issued_reset_code_is_accepted_back() {
    let code = pender::ids::new_reset_code();
    let form = ResetCodeData { code: code.clone(), password: s("new password") };
    assert_eq!(check_reset_code(&code, &form), ResetCodeOutcome::Accepted);
}

#[test]
fn decimal_read_back() {
    for n in [0u64, 9, 10, 99, 100, 123456, 18446744073709551615] {
        assert_eq!(pender::text::u64_to_decimal(n).parse::<u64>().unwrap(), n);
    }
}

#[test]
fn token_claims_contents() {
    let u = user(s("x"));
    let c = token_claims(&u, &s("Tbilisi"));
    assert_eq!(
        c,
        vec![
            (s("id"), s("42")),
            (s("email"), s("nino@example.ge")),
            (s("name"), s("Nino")),
            (s("phone"), s("555")),
            (s("city"), s("Tbilisi")),
            (s("city_value"), s("tbilisi")),
            (s("facebook"), s("nino.fb")),
        ]
    );
}

#[test]
fn readable_hashes() {
    let bcrypt = hash_password(&s("x"));
    assert!(bcrypt.starts_with("$2b$10$"));
    assert_eq!(bcrypt.chars().count(), 60);
    assert!(is_readable_hash(&bcrypt));
    assert!(is_readable_hash(&s("")));
    // DES: only the first two characters are decoded.
    assert!(!is_readable_hash(&s("\nabc")));
    assert!(!is_readable_hash(&s("a\nbc")));
    assert!(!is_readable_hash(&s("a\u{80}bc")));
    assert!(is_readable_hash(&s("ab\nc")));
    assert!(is_readable_hash(&s("ab\u{80}c")));
    assert!(is_readable_hash(&s("!\nbc")));
    assert!(is_readable_hash(&s("a\u{81}bc")));
    // bcrypt: the 22 salt characters after `$2b$NN$` are decoded.
    let mut salt_nl = s("$2b$10$abc\ndefghijklmnopqrstu");
    salt_nl.push_str("0123456789012345678901234567890");
    assert!(!is_readable_hash(&salt_nl));
    let mut checksum_nl = s("$2b$10$abcdefghijklmnopqrstuv");
    checksum_nl.push_str("0123456789\n12345678901234567890");
    assert!(is_readable_hash(&checksum_nl));
    assert!(is_readable_hash(&s("$2b$10$\tabc")));
    assert!(is_readable_hash(&s("$2b$03$\tbcdefghijklmnopqrstuvwxyz")));
    assert!(!is_readable_hash(&s("$2y$31$\tbcdefghijklmnopqrstuvwxyz")));
    // BSDi: four characters of rounds, then four of salt.
    assert!(!is_readable_hash(&s("_\n...abcd")));
    assert!(!is_readable_hash(&s("_...1\nxyz")));
    assert!(is_readable_hash(&s("_....\nxyz")));
    assert!(is_readable_hash(&s("_...1\nxy")));
    // MD5, SHA-2 and SHA-1 decode their salt fields.
    assert!(!is_readable_hash(&s("$1$ab\tcd$xyz")));
    assert!(is_readable_hash(&s("$1$abcdefgh\t$xyz")));
    assert!(!is_readable_hash(&s("$6$ab\tcd$xyz")));
    assert!(!is_readable_hash(&s("$5$rounds=5000$ab\u{80}$xyz")));
    assert!(is_readable_hash(&s("$5$rounds=x$ab\t$xyz")));
    assert!(!is_readable_hash(&s("$sha1$+7$ab\n$xyz")));
    assert!(is_readable_hash(&s("$sha1$0$ab\n$xyz")));
    assert!(is_readable_hash(&s("$sha1$99999999999$ab\n$xyz")));
    assert!(is_readable_hash(&s("$7$ab\n$xyz")));
}

#[test]
fn readable_hashes_are_read() {
    for h in [
        "",
        "ab\nc",
        "ab\u{80}c",
        "!\nbc",
        "$2b$10$\tabc",
        "$2b$03$\tbcdefghijklmnopqrstuvwxyz",
        "_....\nxyz",
        "_...1\nxy",
        "$1$abcdefgh\t$xyz",
        "$5$rounds=x$ab\t$xyz",
        "$sha1$0$ab\n$xyz",
        "$7$ab\n$xyz",
    ] {
        let h = s(h);
        assert!(is_readable_hash(&h));
        assert!(!password_matches(&s("pw"), &h));
    }
    let mut checksum_nl = s("$2b$10$abcdefghijklmnopqrstuv");
    checksum_nl.push_str("0123456789\n12345678901234567890");
    assert!(!password_matches(&s("pw"), &checksum_nl));
}

#[test]
fn login_check_stages() {
    let u = user(hash_password(&s("secret")));
    let right = LoginData { email: s("nino@example.ge"), password: s("secret") };
    let wrong = LoginData { email: s("nino@example.ge"), password: s("Secret") };
    assert_eq!(check_login(&right, Some(&u)), LoginCheck::Accepted);
    assert_eq!(check_login(&wrong, Some(&u)), LoginCheck::WrongPassword);
    assert_eq!(check_login(&right, None), LoginCheck::EmailNotFound);
    let out = complete_login(&config(), &u, &s("GEO"), &cities());
    let expected = generate_token(&config(), &u, &s("GEO"), &cities()).ok().unwrap();
    assert_eq!(out, LoginOutcome::LoggedIn(expected));
    assert_eq!(complete_login(&config(), &u, &s("DEU"), &cities()), LoginOutcome::UnknownCity);
}

#[test]
fn same_inputs_same_token() {
    let u = user(s("x"));
    let a = generate_token(&config(), &u, &s("ENG"), &cities()).ok().unwrap();
    let b = generate_token(&config(), &u, &s("ENG"), &cities()).ok().unwrap();
    assert_eq!(a, b);
    let c = generate_token(&config(), &u, &s("GEO"), &cities()).ok().unwrap();
    assert_ne!(a, c);
}

#[test]
fn register_then_login() {
    let form = RegisterData {
        email: s("gio@example.ge"),
        name: s("Gio"),
        phone: s("599"),
        city: s("tbilisi"),
        facebook: s("gio.fb"),
        password: s("correct horse"),
    };
    let row = new_user_row(s("6f1c"), &form);
    assert_eq!(row.id, "6f1c");
    assert_eq!(row.email, form.email);
    assert_eq!(row.name, form.name);
    assert_eq!(row.phone, form.phone);
    assert_eq!(row.city, form.city);
    assert_eq!(row.facebook, form.facebook);
    assert_ne!(row.password, form.password);
    assert!(is_readable_hash(&row.password));
    let good = LoginData { email: s("gio@example.ge"), password: s("correct horse") };
    let out = login(&config(), &good, Some(&row), &s("ENG"), &cities());
    let expected = generate_token(&config(), &row, &s("ENG"), &cities()).ok().unwrap();
    assert_eq!(out, LoginOutcome::LoggedIn(expected));
    let bad = LoginData { email: s("gio@example.ge"), password: s("battery staple") };
    assert_eq!(login(&config(), &bad, Some(&row), &s("ENG"), &cities()), LoginOutcome::WrongPassword);
}

//! What the account forms answer: login, registration, profile edit,
//! password-reset request and reset-code confirmation.

use vstd::prelude::*;
use crate::auth::{
    LoginData, RegisterData, ResetCodeData, TokenError, UserStruct, generate_token, hash_password,
    login_token_spec, password_matches, unix_password_matches,
};
use crate::hash_format::{bcrypt_shape, hash_readable};
use crate::cities::{CityTable, city_name};
use crate::config::Config;

verus! {

/// Answer to a successful login.
pub const LOGIN_OK_BODY: &'static str = r#"
            <p class='success'>
                <i class="fa-solid fa-circle-check"></i>
                Logged in!
            </p>
            "#;

/// Answer to a wrong password.
pub const WRONG_PASSWORD_BODY: &'static str = r#"
                <p class='error'>
                    <i class="fa-solid fa-circle-exclamation"></i>
                    Wrong password
                </p>
                "#;

/// Answer to an unknown email address.
pub const EMAIL_NOT_FOUND_BODY: &'static str = r#"
                <p class='error'>
                    <i class="fa-solid fa-circle-exclamation"></i>
                    Email address not found
                </p>
                "#;

/// What a login attempt comes to.
#[derive(Debug, PartialEq, Eq)]
pub enum LoginOutcome {
    /// The password matches: the session token to set as the `_jwt` cookie.
    LoggedIn(String),
    WrongPassword,
    EmailNotFound,
    /// The password matches but the user's city has no display name.
    UnknownCity,
}

/// The first stage of a login: is there a user, and does the password match.
#[derive(Debug, PartialEq, Eq, Structural)]
pub enum LoginCheck {
    EmailNotFound,
    WrongPassword,
    Accepted,
}

/// A login answer in terms of views.
pub enum LoginAnswer {
    LoggedIn(Seq<char>),
    WrongPassword,
    EmailNotFound,
    UnknownCity,
}

/// The answer a login gets: no user with that email; a password that does
/// not match the stored hash; a city without display name; otherwise the
/// login token made for the user with the site secret.
pub open spec fn login_spec(
    secret: Seq<char>,
    password: Seq<char>,
    found: Option<UserStruct>,
    lang: Seq<char>,
    cities: CityTable,
) -> LoginAnswer {
    match found {
        None => LoginAnswer::EmailNotFound,
        Some(u) => if !unix_password_matches(password, u.password@) {
            LoginAnswer::WrongPassword
        } else {
            match city_name(cities, lang, u.city@) {
                None => LoginAnswer::UnknownCity,
                Some(city) => LoginAnswer::LoggedIn(login_token_spec(secret, u, city)),
            }
        },
    }
}

/// The answer of a login outcome, in terms of views.
pub open spec fn login_answer(o: LoginOutcome) -> LoginAnswer {
    match o {
        LoginOutcome::LoggedIn(t) => LoginAnswer::LoggedIn(t@),
        LoginOutcome::WrongPassword => LoginAnswer::WrongPassword,
        LoginOutcome::EmailNotFound => LoginAnswer::EmailNotFound,
        LoginOutcome::UnknownCity => LoginAnswer::UnknownCity,
    }
}

/// The first stage of a login, given the user found by the form's email.
pub fn check_login(form: &LoginData, found: Option<&UserStruct>) -> (r: LoginCheck)
    requires
        found matches Some(u) ==> hash_readable(u.password@),
    ensures
        r == match found {
            None => LoginCheck::EmailNotFound,
            Some(u) => if unix_password_matches(form.password@, u.password@) {
                LoginCheck::Accepted
            } else {
                LoginCheck::WrongPassword
            },
        },
{
    match found {
        None => LoginCheck::EmailNotFound,
        Some(user) => if password_matches(&form.password, &user.password) {
            LoginCheck::Accepted
        } else {
            LoginCheck::WrongPassword
        },
    }
}

/// The login answer once the password matched, from the token made for
/// the user.
pub fn login_with_token(token: Result<String, TokenError>) -> (r: LoginOutcome)
    ensures
        r == match token {
            Ok(t) => LoginOutcome::LoggedIn(t),
            Err(TokenError::UnknownCity) => LoginOutcome::UnknownCity,
        },
{
    match token {
        Ok(t) => LoginOutcome::LoggedIn(t),
        Err(TokenError::UnknownCity) => LoginOutcome::UnknownCity,
    }
}

/// The second stage of a login whose password matched: the token for the
/// user, or `UnknownCity`.
pub fn complete_login(config: &Config, user: &UserStruct, lang: &String, cities: &CityTable) -> (r: LoginOutcome)
    ensures
        login_answer(r) == match city_name(*cities, lang@, user.city@) {
            None => LoginAnswer::UnknownCity,
            Some(city) => LoginAnswer::LoggedIn(login_token_spec(config.tide_secret@, *user, city)),
        },
{
    login_with_token(generate_token(config, user, lang, cities))
}

/// The login of `form`, given the user found by its email (if any), the
/// session language and the city table.  The stored hash must be one that
/// pwhash can read.
pub fn login(config: &Config, form: &LoginData, found: Option<&UserStruct>, lang: &String, cities: &CityTable)
    -> (r: LoginOutcome)
    requires
        found matches Some(u) ==> hash_readable(u.password@),
    ensures
        login_answer(r) == login_spec(
            config.tide_secret@,
            form.password@,
            match found { Some(u) => Some(*u), None => None },
            lang@,
            *cities,
        ),
{
    match check_login(form, found) {
        LoginCheck::EmailNotFound => LoginOutcome::EmailNotFound,
        LoginCheck::WrongPassword => LoginOutcome::WrongPassword,
        LoginCheck::Accepted => {
            let user = found.unwrap();
            complete_login(config, user, lang, cities)
        },
    }
}

/// The answer text of a login outcome; none where the request fails.
pub fn login_body(o: &LoginOutcome) -> (b: Option<&'static str>)
    ensures
        b == match o {
            LoginOutcome::LoggedIn(_) => Some(LOGIN_OK_BODY),
            LoginOutcome::WrongPassword => Some(WRONG_PASSWORD_BODY),
            LoginOutcome::EmailNotFound => Some(EMAIL_NOT_FOUND_BODY),
            LoginOutcome::UnknownCity => None,
        },
{
    match o {
        LoginOutcome::LoggedIn(_) => Some(LOGIN_OK_BODY),
        LoginOutcome::WrongPassword => Some(WRONG_PASSWORD_BODY),
        LoginOutcome::EmailNotFound => Some(EMAIL_NOT_FOUND_BODY),
        LoginOutcome::UnknownCity => None,
    }
}

/// Who logs in: a login is answered `EmailNotFound` exactly when no user
/// was found; a found user whose stored hash does not match the password
/// is answered `WrongPassword`, whatever the session language and city
/// table; a matching password is answered with the login token made for
/// that user when the city has a display name, and `UnknownCity` otherwise.
pub proof fn login_answers(
    secret: Seq<char>,
    password: Seq<char>,
    found: Option<UserStruct>,
    lang: Seq<char>,
    cities: CityTable,
)
    ensures
        login_spec(secret, password, found, lang, cities) is EmailNotFound <==> found is None,
        found is Some && !unix_password_matches(password, found->0.password@)
            ==> login_spec(secret, password, found, lang, cities) is WrongPassword,
        found is Some && unix_password_matches(password, found->0.password@)
            && city_name(cities, lang, found->0.city@) is Some
            ==> login_spec(secret, password, found, lang, cities) == LoginAnswer::LoggedIn(
                login_token_spec(secret, found->0, city_name(cities, lang, found->0.city@)->0),
            ),
        found is Some && unix_password_matches(password, found->0.password@)
            && city_name(cities, lang, found->0.city@) is None
            ==> login_spec(secret, password, found, lang, cities) is UnknownCity,
        login_spec(secret, password, found, lang, cities) is LoggedIn
            ==> found is Some && unix_password_matches(password, found->0.password@),
{
}

/// Registering and then logging in: a user row stored from a registration
/// form (as `new_user_row` makes it: the form's email and city, and a hash
/// that matches the form's password) is logged in by that password when the
/// city has a display name in the session language, and gets the token
/// made for that row.
pub proof fn registered_user_logs_in(
    secret: Seq<char>,
    form: RegisterData,
    stored: UserStruct,
    lang: Seq<char>,
    cities: CityTable,
)
    requires
        unix_password_matches(form.password@, stored.password@),
        stored.email@ == form.email@,
        stored.city@ == form.city@,
        city_name(cities, lang, form.city@) is Some,
    ensures
        login_spec(secret, form.password@, Some(stored), lang, cities) == LoginAnswer::LoggedIn(
            login_token_spec(secret, stored, city_name(cities, lang, form.city@)->0),
        ),
{
}

} // verus!

verus! {

/// Answer to a completed registration.
pub const ACCOUNT_CREATED_BODY: &'static str = "\n            <p class='success'>\n                Account created!\n            </p>\n            ";

/// Answer to a registration with an email that is taken.
pub const EMAIL_IN_USE_BODY: &'static str = "\n            <p class='error'>\n                Email already in use\n            </p>\n            ";

/// Answer to a registration without password.
pub const FILL_IN_FORM_BODY: &'static str = "\n            <p class='error'>\n                Fill in the form\n            </p>\n            ";

/// Answer to a registration the database refused.
pub const REGISTER_FAILED_BODY: &'static str = "\n            <p class='error'>\n                Failed to register user\n            </p>\n            ";

/// Answer to a saved profile.
pub const PROFILE_SAVED_BODY: &'static str = "\n                <i class=\"fa-solid fa-circle-check\"></i>\n                Saved!\n            ";

/// Answer to a profile the database refused.
pub const PROFILE_FAILED_BODY: &'static str = "\n                <i class=\"fa-solid fa-circle-exclamation\"></i>\n                Failed To save.\n            ";

/// Answer to a reset request for an unknown email.
pub const RESET_EMAIL_NOT_FOUND_BODY: &'static str = "<p class='error'>Email not found</p>";

/// Answer to a reset request whose code was mailed.
pub const CODE_SENT_BODY: &'static str = "<p class='success'>Code Sent!</p>";

/// Answer to a reset request whose mail failed.
pub const CODE_NOT_SENT_BODY: &'static str = "<p class='error'>Couldn't send code</p>";

/// Answer to a confirmed reset code.
pub const PASSWORD_RESET_BODY: &'static str = "<p class='success'>Password reset!</p>";

/// Answer to a wrong reset code.
pub const WRONG_CODE_BODY: &'static str = "<p class='error'>Wrong code!</p>";

/// What a registration comes to.
#[derive(Debug, PartialEq, Eq, Structural)]
pub enum RegisterOutcome {
    Created,
    EmailInUse,
    EmptyPassword,
    Failed,
}

/// The answer to a registration before anything is stored: a taken email
/// first, then an empty password; `None` when the account can be stored.
pub fn register_check(email_taken: bool, form: &RegisterData) -> (r: Option<RegisterOutcome>)
    ensures
        email_taken ==> r == Some(RegisterOutcome::EmailInUse),
        !email_taken && form.password@.len() == 0 ==> r == Some(RegisterOutcome::EmptyPassword),
        !email_taken && form.password@.len() != 0 ==> r is None,
{
    if email_taken {
        Some(RegisterOutcome::EmailInUse)
    } else if form.password.as_str().is_empty() {
        Some(RegisterOutcome::EmptyPassword)
    } else {
        None
    }
}

/// The user row a registration stores: the given id, the form's fields,
/// and in place of the password a bcrypt hash of it (`$2b$10$` and 53
/// hash64 characters), one that `password_matches` reads and accepts for
/// that password; it differs from the password unless the password itself
/// has that shape.
pub fn new_user_row(id: String, form: &RegisterData) -> (u: UserStruct)
    ensures
        u.id@ == id@,
        u.email@ == form.email@,
        u.name@ == form.name@,
        u.phone@ == form.phone@,
        u.city@ == form.city@,
        u.facebook@ == form.facebook@,
        unix_password_matches(form.password@, u.password@),
        bcrypt_shape(u.password@),
        hash_readable(u.password@),
        !bcrypt_shape(form.password@) ==> u.password@ != form.password@,
{
    UserStruct {
        id,
        email: form.email.clone(),
        name: form.name.clone(),
        phone: form.phone.clone(),
        city: form.city.clone(),
        facebook: form.facebook.clone(),
        password: hash_password(&form.password),
    }
}

/// The answer once the account row was (or was not) stored.
pub fn register_stored(stored: bool) -> (r: RegisterOutcome)
    ensures
        r == (if stored { RegisterOutcome::Created } else { RegisterOutcome::Failed }),
{
    if stored { RegisterOutcome::Created } else { RegisterOutcome::Failed }
}

/// The answer text of a registration outcome.
pub fn register_body(o: &RegisterOutcome) -> (b: &'static str)
    ensures
        b == match o {
            RegisterOutcome::Created => ACCOUNT_CREATED_BODY,
            RegisterOutcome::EmailInUse => EMAIL_IN_USE_BODY,
            RegisterOutcome::EmptyPassword => FILL_IN_FORM_BODY,
            RegisterOutcome::Failed => REGISTER_FAILED_BODY,
        },
{
    match o {
        RegisterOutcome::Created => ACCOUNT_CREATED_BODY,
        RegisterOutcome::EmailInUse => EMAIL_IN_USE_BODY,
        RegisterOutcome::EmptyPassword => FILL_IN_FORM_BODY,
        RegisterOutcome::Failed => REGISTER_FAILED_BODY,
    }
}

/// What a profile edit comes to.
#[derive(Debug, PartialEq, Eq)]
pub enum EditProfileOutcome {
    /// Stored; the refreshed session token to set as the `_jwt` cookie.
    Saved(String),
    Failed,
    /// Stored, but the new city has no display name.
    UnknownCity,
}

/// The answer to a profile edit, given whether the database stored it: a
/// refused update fails; otherwise a fresh token is made from the edited
/// profile.
pub fn edit_profile(config: &Config, user: &UserStruct, stored: bool, lang: &String, cities: &CityTable)
    -> (r: EditProfileOutcome)
    ensures
        !stored ==> r == EditProfileOutcome::Failed,
        stored ==> match city_name(*cities, lang@, user.city@) {
            None => r == EditProfileOutcome::UnknownCity,
            Some(city) => r matches EditProfileOutcome::Saved(t)
                && t@ == login_token_spec(config.tide_secret@, *user, city),
        },
{
    if !stored {
        return EditProfileOutcome::Failed;
    }
    edit_with_token(generate_token(config, user, lang, cities))
}

/// The answer to a stored profile edit, from the token made for the edited
/// profile.
pub fn edit_with_token(token: Result<String, TokenError>) -> (r: EditProfileOutcome)
    ensures
        r == match token {
            Ok(t) => EditProfileOutcome::Saved(t),
            Err(TokenError::UnknownCity) => EditProfileOutcome::UnknownCity,
        },
{
    match token {
        Ok(t) => EditProfileOutcome::Saved(t),
        Err(TokenError::UnknownCity) => EditProfileOutcome::UnknownCity,
    }
}

/// The answer text of a profile edit; none where the request fails.
pub fn edit_profile_body(o: &EditProfileOutcome) -> (b: Option<&'static str>)
    ensures
        b == match o {
            EditProfileOutcome::Saved(_) => Some(PROFILE_SAVED_BODY),
            EditProfileOutcome::Failed => Some(PROFILE_FAILED_BODY),
            EditProfileOutcome::UnknownCity => None,
        },
{
    match o {
        EditProfileOutcome::Saved(_) => Some(PROFILE_SAVED_BODY),
        EditProfileOutcome::Failed => Some(PROFILE_FAILED_BODY),
        EditProfileOutcome::UnknownCity => None,
    }
}

/// What a password-reset request comes to.
#[derive(Debug, PartialEq, Eq, Structural)]
pub enum ResetRequestOutcome {
    EmailNotFound,
    CodeSent,
    SendFailed,
}

/// The answer to a reset request: unknown email first, then whether the
/// mail with the code went out.
pub fn reset_request(user_found: bool, mail_sent: bool) -> (r: ResetRequestOutcome)
    ensures
        r == (if !user_found {
            ResetRequestOutcome::EmailNotFound
        } else if mail_sent {
            ResetRequestOutcome::CodeSent
        } else {
            ResetRequestOutcome::SendFailed
        }),
{
    if !user_found {
        ResetRequestOutcome::EmailNotFound
    } else if mail_sent {
        ResetRequestOutcome::CodeSent
    } else {
        ResetRequestOutcome::SendFailed
    }
}

/// The answer text of a reset request.
pub fn reset_request_body(o: &ResetRequestOutcome) -> (b: &'static str)
    ensures
        b == match o {
            ResetRequestOutcome::EmailNotFound => RESET_EMAIL_NOT_FOUND_BODY,
            ResetRequestOutcome::CodeSent => CODE_SENT_BODY,
            ResetRequestOutcome::SendFailed => CODE_NOT_SENT_BODY,
        },
{
    match o {
        ResetRequestOutcome::EmailNotFound => RESET_EMAIL_NOT_FOUND_BODY,
        ResetRequestOutcome::CodeSent => CODE_SENT_BODY,
        ResetRequestOutcome::SendFailed => CODE_NOT_SENT_BODY,
    }
}

/// What a reset-code confirmation comes to.
#[derive(Debug, PartialEq, Eq, Structural)]
pub enum ResetCodeOutcome {
    /// The code matches: the new password is to be stored for the session's email.
    Accepted,
    WrongCode,
}

/// The answer to a reset-code confirmation: the submitted code must equal
/// the one kept in the session.
pub open spec fn reset_code_spec(stored_code: Seq<char>, submitted: Seq<char>) -> ResetCodeOutcome {
    if stored_code == submitted {
        ResetCodeOutcome::Accepted
    } else {
        ResetCodeOutcome::WrongCode
    }
}

/// Checks a submitted reset code against the one kept in the session (the
/// session must hold a code and an email: without them no reset was
/// requested, and the request fails before this check).
pub fn check_reset_code(stored_code: &String, form: &ResetCodeData) -> (r: ResetCodeOutcome)
    ensures
        r == reset_code_spec(stored_code@, form.code@),
{
    if *stored_code == form.code {
        ResetCodeOutcome::Accepted
    } else {
        ResetCodeOutcome::WrongCode
    }
}

/// The answer text of a reset-code confirmation, and where the page goes
/// next.
pub fn reset_code_body(o: &ResetCodeOutcome) -> (b: (&'static str, Option<&'static str>))
    ensures
        b == match o {
            ResetCodeOutcome::Accepted => (PASSWORD_RESET_BODY, Some("/login")),
            ResetCodeOutcome::WrongCode => (WRONG_CODE_BODY, None),
        },
{
    match o {
        ResetCodeOutcome::Accepted => (PASSWORD_RESET_BODY, Some("/login")),
        ResetCodeOutcome::WrongCode => (WRONG_CODE_BODY, None),
    }
}

/// A reset code that was issued and kept in the session, submitted back
/// unchanged, is accepted.
pub proof fn issued_reset_code_is_accepted(code: Seq<char>)
    ensures
        reset_code_spec(code, code) == ResetCodeOutcome::Accepted,
{
}

/// A reset code is accepted exactly when it is the code kept in the
/// session; any other code is wrong.
pub proof fn reset_code_accepted_iff_equal(stored_code: Seq<char>, submitted: Seq<char>)
    ensures
        reset_code_spec(stored_code, submitted) == ResetCodeOutcome::Accepted <==> stored_code == submitted,
        stored_code != submitted ==> reset_code_spec(stored_code, submitted) == ResetCodeOutcome::WrongCode,
{
}

} // verus!

//! Accounts and sessions: password hashing and checking, the signed login
//! token and its claims, and what the login, registration, profile and
//! password-reset forms answer.

use vstd::prelude::*;
use crate::cities::{CityTable, city_name};
use crate::config::Config;
use crate::hash_format::{bcrypt_shape, bcrypt_shape_readable, hash_readable};
use jwt::{SignWithKey, VerifyWithKey};

verus! {

/// The login form.
pub struct LoginData {
    pub email: String,
    pub password: String,
}

/// The password-reset request form.
pub struct ResetData {
    pub email: String,
}

/// The form that confirms a reset code and sets the new password.
pub struct ResetCodeData {
    pub code: String,
    pub password: String,
}

/// The registration form.
pub struct RegisterData {
    pub email: String,
    pub name: String,
    pub phone: String,
    pub city: String,
    pub facebook: String,
    pub password: String,
}

/// A user row, also the profile form.
pub struct UserStruct {
    pub id: String,
    pub email: String,
    pub name: String,
    pub phone: String,
    pub city: String,
    pub facebook: String,
    pub password: String,
}

// ---------------------------------------------------------------------
// Passwords

/// Whether `pwhash::unix::verify` accepts `pass` against the stored hash.
pub uninterp spec fn unix_password_matches(pass: Seq<char>, hash: Seq<char>) -> bool;

/// `pwhash::unix::verify`: the result is `unix_password_matches` of the
/// password and the stored hash (the hash format is recognised from its
/// prefix).  Its salt and rounds decoders panic on a character below
/// U+0020 or equal to U+0080 when they reach one; `hash_readable` says
/// that none does, and `requires` rules the other hashes out.
#[verifier::external_body]
fn unix_verify(pass: &str, hash: &str) -> (b: bool)
    requires
        hash_readable(hash@),
    ensures
        b == unix_password_matches(pass@, hash@),
{
    pwhash::unix::verify(pass, hash)
}

/// `pwhash::bcrypt::hash` with a fresh random salt.  It always returns a
/// hash (`gen_salt_bytes` returns nothing and `do_bcrypt` always succeeds;
/// a failing system random source panics inside `rand_core` instead).
/// Which hash is not named (the salt is random); it is `$2b$10$` followed
/// by the 22 hash64 characters of the salt and the 31 of the checksum, and
/// `pwhash::unix::verify` accepts it for the same password, as the crate
/// recomputes the hash from the salt and cost the string carries.
#[verifier::external_body]
fn bcrypt_hash(pass: &str) -> (r: Option<String>)
    ensures
        r is Some,
        r matches Some(h) ==> unix_password_matches(pass@, h@) && bcrypt_shape(h@),
{
    pwhash::bcrypt::hash(pass).ok()
}

/// Hashes a password for storage (bcrypt, random salt, cost 10); the hash
/// is one that `password_matches` reads and accepts for the same password,
/// and it differs from the password unless the password has its shape.
pub fn hash_password(password: &String) -> (h: String)
    ensures
        unix_password_matches(password@, h@),
        bcrypt_shape(h@),
        hash_readable(h@),
        !bcrypt_shape(password@) ==> h@ != password@,
{
    let h = bcrypt_hash(password.as_str()).unwrap();
    proof {
        bcrypt_shape_readable(h@);
    }
    h
}

/// Whether `password` matches the stored hash.
pub fn password_matches(password: &String, stored: &String) -> (b: bool)
    requires
        hash_readable(stored@),
    ensures
        b == unix_password_matches(password@, stored@),
{
    unix_verify(password.as_str(), stored.as_str())
}

// ---------------------------------------------------------------------
// Claims and tokens

/// The views of a list of string pairs.
pub open spec fn pairs_view(v: Seq<(String, String)>) -> Seq<(Seq<char>, Seq<char>)> {
    v.map_values(|p: (String, String)| (p.0@, p.1@))
}

/// The map a list of pairs builds when inserted in order (a later pair
/// replaces an earlier one with the same key).
pub open spec fn claims_map(c: Seq<(Seq<char>, Seq<char>)>) -> Map<Seq<char>, Seq<char>>
    decreases c.len(),
{
    if c.len() == 0 {
        Map::empty()
    } else {
        claims_map(c.drop_last()).insert(c.last().0, c.last().1)
    }
}

/// The signed token (JWT, HMAC-SHA256) that `jwt` produces for the claims
/// map with the given secret.
pub uninterp spec fn hs256_token(secret: Seq<char>, claims: Map<Seq<char>, Seq<char>>) -> Seq<char>;

/// The claims that `jwt` reads from a token with the given secret, or
/// `None` when the token is malformed or its signature does not match.
pub uninterp spec fn hs256_claims(secret: Seq<char>, token: Seq<char>) -> Option<Map<Seq<char>, Seq<char>>>;

/// No key occurs twice among the pairs.
pub open spec fn distinct_keys(c: Seq<(Seq<char>, Seq<char>)>) -> bool {
    forall|i: int, j: int| 0 <= i < j < c.len() ==> #[trigger] c[i].0 != #[trigger] c[j].0
}

/// Signs the claims, put in a `BTreeMap` (so that only the map matters; the
/// keys are distinct, so no pair is dropped), with an HMAC-SHA256 key made
/// from the secret, through `jwt`'s `sign_with_key`.  It always returns a
/// token: `Hmac::new_from_slice` accepts a key of any length, the header's
/// algorithm is taken from the key, and serialising a map of strings and
/// MAC-signing it cannot fail.  The token is `hs256_token` of the secret
/// and the claims map.
#[verifier::external_body]
fn sign_hs256(secret: &str, claims: &Vec<(String, String)>) -> (r: Option<String>)
    requires
        distinct_keys(pairs_view(claims@)),
    ensures
        r is Some,
        r matches Some(t) ==> t@ == hs256_token(secret@, claims_map(pairs_view(claims@))),
{
    let key = <hmac::Hmac<sha2::Sha256> as hmac::Mac>::new_from_slice(secret.as_bytes()).ok()?;
    let map: std::collections::BTreeMap<&str, &str> = claims.iter().map(|p| (p.0.as_str(), p.1.as_str())).collect();
    map.sign_with_key(&key).ok()
}

/// The claims map of a read result.
pub open spec fn read_claims_map(r: Option<Vec<(String, String)>>) -> Option<Map<Seq<char>, Seq<char>>> {
    match r {
        Some(c) => Some(claims_map(pairs_view(c@))),
        None => None,
    }
}

/// When `token` is the token signed with `secret` over some claims, the
/// read result is exactly that claims map.
pub open spec fn reads_back_signed_claims(
    secret: Seq<char>,
    token: Seq<char>,
    read: Option<Map<Seq<char>, Seq<char>>>,
) -> bool {
    forall|c: Seq<(Seq<char>, Seq<char>)>|
        token == #[trigger] hs256_token(secret, claims_map(c)) ==> read == Some(claims_map(c))
}

/// Reads the claims of a token through `jwt`'s `verify_with_key` into a
/// `BTreeMap<String, String>` with an HMAC-SHA256 key made from the secret.
/// The result is `hs256_claims` of the secret and the token (the order in
/// which the pairs come out is not stated).  A token that `sign_hs256` made with the same
/// secret gives back exactly the map it was made from: the JSON claims are
/// decoded from what was encoded and the MAC is recomputed with the same key.
#[verifier::external_body]
fn verify_hs256(secret: &str, token: &str) -> (r: Option<Vec<(String, String)>>)
    ensures
        read_claims_map(r) == hs256_claims(secret@, token@),
        reads_back_signed_claims(secret@, token@, read_claims_map(r)),
{
    let key = <hmac::Hmac<sha2::Sha256> as hmac::Mac>::new_from_slice(secret.as_bytes()).ok()?;
    let claims: std::collections::BTreeMap<String, String> = token.verify_with_key(&key).ok()?;
    Some(claims.into_iter().collect())
}

/// The claims put in the login token, in the order they are inserted:
/// id, email, name, phone, the city's display name, the city key, facebook.
pub open spec fn token_claims_spec(user: UserStruct, city: Seq<char>) -> Seq<(Seq<char>, Seq<char>)> {
    seq![
        ("id"@, user.id@),
        ("email"@, user.email@),
        ("name"@, user.name@),
        ("phone"@, user.phone@),
        ("city"@, city),
        ("city_value"@, user.city@),
        ("facebook"@, user.facebook@),
    ]
}

/// Why a login token could not be made.
#[derive(Debug, PartialEq, Eq, Structural)]
pub enum TokenError {
    /// The user's city (or the language) is not in the city table.
    UnknownCity,
}

/// The login token for `user` whose city shows as `city`: the seven
/// claims signed with the site secret.
pub open spec fn login_token_spec(secret: Seq<char>, user: UserStruct, city: Seq<char>) -> Seq<char> {
    hs256_token(secret, claims_map(token_claims_spec(user, city)))
}

/// The keys of the login token's claims are all different.
pub proof fn token_claim_keys_distinct(user: UserStruct, city: Seq<char>)
    ensures
        distinct_keys(token_claims_spec(user, city)),
{
    reveal_strlit("id");
    reveal_strlit("email");
    reveal_strlit("name");
    reveal_strlit("phone");
    reveal_strlit("city");
    reveal_strlit("city_value");
    reveal_strlit("facebook");
    let c = token_claims_spec(user, city);
    assert forall|i: int, j: int| 0 <= i < j < c.len() implies #[trigger] c[i].0 != #[trigger] c[j].0 by {
        let a = c[i].0;
        let b = c[j].0;
        if a.len() == b.len() {
            assert(a[0] != b[0]);
        }
    }
}

/// The claims of the login token for `user`, whose city displays as `city`.
pub fn token_claims(user: &UserStruct, city: &String) -> (c: Vec<(String, String)>)
    ensures
        pairs_view(c@) == token_claims_spec(*user, city@),
{
    let mut c: Vec<(String, String)> = Vec::new();
    c.push((String::from_str("id"), user.id.clone()));
    c.push((String::from_str("email"), user.email.clone()));
    c.push((String::from_str("name"), user.name.clone()));
    c.push((String::from_str("phone"), user.phone.clone()));
    c.push((String::from_str("city"), city.clone()));
    c.push((String::from_str("city_value"), user.city.clone()));
    c.push((String::from_str("facebook"), user.facebook.clone()));
    assert(pairs_view(c@) =~= token_claims_spec(*user, city@));
    c
}

/// Makes the login token for `user`: the city key is shown in language
/// `lang` through the city table, and the claims are signed with the site
/// secret.  A missing language or city is `UnknownCity`.
pub fn generate_token(config: &Config, user: &UserStruct, lang: &String, cities: &CityTable)
    -> (r: Result<String, TokenError>)
    ensures
        match city_name(*cities, lang@, user.city@) {
            None => r == Err::<String, TokenError>(TokenError::UnknownCity),
            Some(city) => r matches Ok(t) && t@ == login_token_spec(config.tide_secret@, *user, city),
        },
{
    match cities.display_name(lang, &user.city) {
        None => Err(TokenError::UnknownCity),
        Some(city) => {
            let claims = token_claims(user, &city);
            proof {
                token_claim_keys_distinct(*user, city@);
            }
            Ok(sign_hs256(config.tide_secret.as_str(), &claims).unwrap())
        },
    }
}

/// The session cookie holds a token that is malformed or not signed with
/// the site secret.
pub enum ClaimsError {
    InvalidToken,
}

/// The claims of the session: none without a token cookie, otherwise the
/// claims the token carries when it is signed with the site secret.
pub fn get_claims(config: &Config, cookie: Option<&String>) -> (r: Result<Vec<(String, String)>, ClaimsError>)
    ensures
        cookie is None ==> (r matches Ok(c) && c@.len() == 0),
        cookie matches Some(t) ==> read_claims_map(r.ok()) == hs256_claims(config.tide_secret@, t@),
        cookie matches Some(t) ==> reads_back_signed_claims(config.tide_secret@, t@, read_claims_map(r.ok())),
{
    match cookie {
        None => Ok(Vec::new()),
        Some(t) => match verify_hs256(config.tide_secret.as_str(), t.as_str()) {
            Some(c) => Ok(c),
            None => Err(ClaimsError::InvalidToken),
        },
    }
}

/// Logged in unless the context holds claims and they are empty.
pub open spec fn logged_in_spec(claims: Option<Seq<(String, String)>>) -> bool {
    !(claims matches Some(c) && c.len() == 0)
}

/// Whether the page context shows a logged-in user.
pub fn logged_in(claims: Option<&Vec<(String, String)>>) -> (b: bool)
    ensures
        b == logged_in_spec(match claims { Some(c) => Some(c@), None => None }),
{
    match claims {
        Some(c) => c.len() != 0,
        None => true,
    }
}

} // verus!

verus! {

/// Claims read back from a login token (the same map as the claims the
/// token was made from) show a logged-in user.
pub proof fn issued_claims_log_in(read: Seq<(String, String)>, user: UserStruct, city: Seq<char>)
    requires
        claims_map(pairs_view(read)) == claims_map(token_claims_spec(user, city)),
    ensures
        logged_in_spec(Some(read)),
{
    let c = token_claims_spec(user, city);
    assert(claims_map(c) == claims_map(c.drop_last()).insert(c.last().0, c.last().1));
    assert(claims_map(c).dom().contains("facebook"@));
    if read.len() == 0 {
        assert(pairs_view(read).len() == 0);
        assert(claims_map(pairs_view(read)) == Map::<Seq<char>, Seq<char>>::empty());
    }
}

} // verus!

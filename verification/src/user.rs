//! Users, and the list of them that the node keeps in memory.

use vstd::prelude::*;
use crate::utils::{id_text, is_random_id, new_id, parse_id, spec_parse_id};

verus! {

/// The error type of `jsonwebtoken`.
#[verifier::external_type_specification]
#[verifier::external_body]
pub struct ExJwtError(jsonwebtoken::errors::Error);

/// The token for the subject `sub` that expires at `exp`, signed with
/// `secret` by HMAC with SHA-256.
pub uninterp spec fn spec_jwt(sub: u128, exp: usize, secret: Seq<u8>) -> Seq<char>;

/// `jsonwebtoken::encode` with the algorithm HS256, on the claims `sub` (the
/// identifier as text) and `exp`: it succeeds (the key is a secret, which
/// is what the algorithm takes, and neither the claims nor the signing can
/// fail), and the token depends on the claims and the secret alone.
#[verifier::external_body]
fn jwt_encode(sub: u128, exp: usize, secret: &[u8]) -> (r: Result<
    String,
    jsonwebtoken::errors::Error,
>)
    ensures
        r is Ok,
        r matches Ok(token) ==> token@ == spec_jwt(sub, exp, secret@),
{
    let mut claims = serde_json::Map::new();
    claims.insert("sub".to_string(), uuid::Uuid::from_u128(sub).to_string().into());
    claims.insert("exp".to_string(), exp.into());
    jsonwebtoken::encode(
        &jsonwebtoken::Header::new(jsonwebtoken::Algorithm::HS256),
        &claims,
        &jsonwebtoken::EncodingKey::from_secret(secret),
    )
}

/// `jsonwebtoken::decode` with the algorithm HS256, as far as the subject:
/// the text of the claim `sub` of a token that is signed with `secret` and
/// has not expired. Whether a token has expired depends on the time; what
/// its subject is does not: a token that `jwt_encode` made for a subject
/// names that subject, if it still names anyone.
#[verifier::external_body]
fn jwt_subject(token: &str, secret: &[u8]) -> (subject: Option<String>)
    ensures
        forall|sub: u128, exp: usize|
            token@ == #[trigger] spec_jwt(sub, exp, secret@) ==> subject is None || subject->0@
                == id_text(sub),
{
    jsonwebtoken::decode::<serde_json::Value>(
        token,
        &jsonwebtoken::DecodingKey::from_secret(secret),
        &jsonwebtoken::Validation::new(jsonwebtoken::Algorithm::HS256),
    ).ok().and_then(|data| data.claims.get("sub").and_then(|s| s.as_str()).map(|s| s.to_owned()))
}

/// `chrono::Utc::now` as seconds since the epoch.
#[verifier::external_body]
fn now_timestamp() -> (now: i64) {
    chrono::Utc::now().timestamp()
}

/// The secret that tokens are signed with.
pub open spec fn signing_key() -> Seq<u8> {
    "secret"@.map_values(|c: char| c as u8)
}

/// The secret that tokens are signed with.
pub fn secret() -> (key: Vec<u8>)
    ensures
        key@ == signing_key(),
{
    proof {
        reveal_strlit("secret");
    }
    let mut key: Vec<u8> = Vec::new();
    key.push(115);
    key.push(101);
    key.push(99);
    key.push(114);
    key.push(101);
    key.push(116);
    assert(key@ =~= signing_key());
    key
}

/// Whether `token` is a token for the user `user_id`, whenever it expires.
pub open spec fn is_token_for(token: Seq<char>, user_id: u128) -> bool {
    exists|exp: usize| token == #[trigger] spec_jwt(user_id, exp, signing_key())
}

/// Whether `r` is what making a user at the time `now` can give: a user of
/// a random identity with the token that is issued for it at that time, or
/// the error that says why no token was issued.
pub open spec fn detached(r: Result<UserWithToken, TokenError>, now: i64) -> bool {
    match r {
        Ok(made) => is_random_id(made.user_id) && issued(
            Ok::<String, TokenError>(made.token),
            made.user_id,
            now,
        ),
        Err(e) => issued(Err::<String, TokenError>(e), 0, now),
    }
}

/// Why no token was issued.
#[derive(Clone, Copy, Debug, PartialEq, Eq, Structural)]
pub enum TokenError {
    /// The time at which the token would expire cannot be written down.
    Expiry,
    /// The token could not be signed.
    Encoding,
}

/// How long a token is good for, in seconds: thirty days.
pub const TOKEN_LIFETIME_SECS: i64 = 2_592_000;

/// A user of the node.
#[derive(Debug)]
pub struct User {
    pub id: u128,
    /// The tokens that were issued to the user.
    pub jwts: Vec<String>,
}

pub struct UserView {
    pub id: u128,
    pub jwts: Seq<Seq<char>>,
}

/// The texts of a list of tokens.
pub open spec fn tokens_view(tokens: Seq<String>) -> Seq<Seq<char>> {
    tokens.map_values(|t: String| t@)
}

impl View for User {
    type V = UserView;

    open spec fn view(&self) -> UserView {
        UserView { id: self.id, jwts: tokens_view(self.jwts@) }
    }
}

/// A copy of a list of tokens.
pub fn clone_tokens(tokens: &Vec<String>) -> (copy: Vec<String>)
    ensures
        tokens_view(copy@) == tokens_view(tokens@),
{
    let mut copy: Vec<String> = Vec::new();
    let mut i: usize = 0;
    while i < tokens.len()
        invariant
            0 <= i <= tokens@.len(),
            copy@.len() == i,
            forall|k: int| 0 <= k < i ==> (#[trigger] copy@[k])@ == tokens@[k]@,
        decreases tokens@.len() - i,
    {
        copy.push(tokens[i].clone());
        i = i + 1;
    }
    assert(tokens_view(copy@) =~= tokens_view(tokens@));
    copy
}

impl Clone for User {
    fn clone(&self) -> (copy: User)
        ensures
            copy@ == self@,
    {
        User { id: self.id, jwts: clone_tokens(&self.jwts) }
    }
}

/// A new user with the token that was issued to it.
#[derive(Debug)]
pub struct UserWithToken {
    pub user_id: u128,
    pub token: String,
}

/// The views of a list of users.
pub open spec fn users_view(users: Seq<User>) -> Seq<UserView> {
    users.map_values(|u: User| u@)
}

/// The place of the first user of the identity `id`; the length of the
/// list where there is none.
pub open spec fn place_of(users: Seq<UserView>, id: u128) -> int
    decreases users.len(),
{
    if users.len() == 0 {
        0
    } else if users.first().id == id {
        0
    } else {
        1 + place_of(users.drop_first(), id)
    }
}

/// `place_of` is the place of a user of that identity that no other one
/// precedes, or the length of the list where it holds none.
pub proof fn lemma_place_of(users: Seq<UserView>, id: u128)
    ensures
        0 <= place_of(users, id) <= users.len(),
        place_of(users, id) < users.len() ==> users[place_of(users, id)].id == id,
        forall|k: int| 0 <= k < place_of(users, id) ==> (#[trigger] users[k]).id != id,
    decreases users.len(),
{
    if users.len() > 0 && users.first().id != id {
        let rest = users.drop_first();
        lemma_place_of(rest, id);
        assert forall|k: int| 0 <= k < place_of(users, id) implies (#[trigger] users[k]).id
            != id by {
            if k > 0 {
                assert(rest[k - 1] == users[k]);
            }
        }
    }
}

/// The first user of the identity `id`; `None` where there is none.
pub open spec fn user_of(users: Seq<UserView>, id: u128) -> Option<UserView> {
    if place_of(users, id) < users.len() {
        Some(users[place_of(users, id)])
    } else {
        None
    }
}

/// The list after the tokens of the user `id` were read from the store:
/// the first user of that identity has them now; where there was none, a
/// user with them was added at the end.
pub open spec fn synced(users: Seq<UserView>, id: u128, jwts: Seq<Seq<char>>) -> Seq<UserView> {
    if place_of(users, id) < users.len() {
        users.update(place_of(users, id), UserView { id, jwts })
    } else {
        users.push(UserView { id, jwts })
    }
}

/// When a token that is issued at the time `now` expires, in seconds since
/// the epoch; `None` where that time cannot be written down.
pub open spec fn spec_token_expiry(now: i64) -> Option<usize> {
    if 0 <= now + TOKEN_LIFETIME_SECS <= i64::MAX && now + TOKEN_LIFETIME_SECS <= usize::MAX {
        Some((now + TOKEN_LIFETIME_SECS) as usize)
    } else {
        None
    }
}

/// When a token that is issued at the time `now` expires.
pub fn token_expiry(now: i64) -> (expiry: Option<usize>)
    ensures
        expiry == spec_token_expiry(now),
{
    if now > i64::MAX - TOKEN_LIFETIME_SECS {
        return None;
    }
    let at: i64 = now + TOKEN_LIFETIME_SECS;
    if at < 0 {
        return None;
    }
    if at as u64 > usize::MAX as u64 {
        return None;
    }
    Some(at as usize)
}

/// Whether `r` is what issuing a token for the user `user_id` at the time
/// `now` gives: the token for that user that expires after the lifetime of
/// a token, wherever the time of its expiry can be written down, and the
/// error that says so where it cannot.
pub open spec fn issued(r: Result<String, TokenError>, user_id: u128, now: i64) -> bool {
    match r {
        Ok(token) => spec_token_expiry(now) matches Some(exp) && token@ == spec_jwt(
            user_id,
            exp,
            signing_key(),
        ),
        Err(TokenError::Expiry) => spec_token_expiry(now) is None,
        Err(TokenError::Encoding) => false,
    }
}

/// The token for the user `user_id` that is issued at the time `now`: it
/// expires after the lifetime of a token.
pub fn issue_token(user_id: u128, now: i64) -> (r: Result<String, TokenError>)
    ensures
        issued(r, user_id, now),
{
    let exp = match token_expiry(now) {
        Some(exp) => exp,
        None => {
            return Err(TokenError::Expiry);
        },
    };
    let key = secret();
    match jwt_encode(user_id, exp, key.as_slice()) {
        Ok(token) => Ok(token),
        Err(_) => Err(TokenError::Encoding),
    }
}

/// The subject of a token, where `subject` is the text of its claim `sub`,
/// or `None` for a token that is not valid: the identifier that the text
/// stands for.
pub fn subject_id(subject: Option<String>) -> (id: Option<u128>)
    ensures
        id == match subject {
            Some(text) => spec_parse_id(text@),
            None => None,
        },
        forall|u: u128| subject is Some && subject->0@ == #[trigger] id_text(u) ==> id == Some(u),
{
    match subject {
        Some(text) => parse_id(text.as_str()),
        None => None,
    }
}

/// The subject of `token`; `None` for a token that is not valid now. A
/// token that was issued for a user names that user and no other, for as
/// long as it names anyone.
pub fn token_subject(token: &str) -> (id: Option<u128>)
    ensures
        id is Some ==> exists|text: Seq<char>| #[trigger] spec_parse_id(text) == id,
        forall|user_id: u128| #[trigger]
            is_token_for(token@, user_id) ==> id is None || id == Some(user_id),
{
    let key = secret();
    subject_id(jwt_subject(token, key.as_slice()))
}

/// The users that the node keeps in memory.
pub struct UserManager {
    pub users: Vec<User>,
}

impl View for UserManager {
    type V = Seq<UserView>;

    open spec fn view(&self) -> Seq<UserView> {
        users_view(self.users@)
    }
}

impl UserManager {
    /// The manager of the users that the store holds.
    pub fn new(users: Vec<User>) -> (manager: UserManager)
        ensures
            manager@ == users_view(users@),
    {
        UserManager { users }
    }

    fn find(&self, user_id: u128) -> (place: usize)
        ensures
            place == place_of(self@, user_id),
            place <= self.users@.len(),
    {
        let n = self.users.len();
        let mut i: usize = 0;
        assert(self@.skip(0) =~= self@);
        while i < n
            invariant
                n == self.users@.len(),
                0 <= i <= n,
                place_of(self@, user_id) == i + place_of(self@.skip(i as int), user_id),
            decreases n - i,
        {
            let ghost rest = self@.skip(i as int);
            assert(rest.first() == self.users@[i as int]@);
            assert(rest.drop_first() =~= self@.skip(i + 1));
            if self.users[i].id == user_id {
                return i;
            }
            i = i + 1;
        }
        assert(self@.skip(n as int) =~= Seq::<UserView>::empty());
        n
    }

    /// The user of the identity `user_id`.
    pub fn get_user(&self, user_id: u128) -> (user: Option<User>)
        ensures
            match user {
                Some(u) => user_of(self@, user_id) == Some(u@),
                None => user_of(self@, user_id) is None,
            },
    {
        let place = self.find(user_id);
        if place < self.users.len() {
            Some(self.users[place].clone())
        } else {
            None
        }
    }

    /// The user that a token stands for, where `subject` is the subject of
    /// the token, or `None` for a token that is not valid.
    pub fn user_from_jwt(&self, subject: Option<u128>) -> (user: Option<User>)
        ensures
            match user {
                Some(u) => subject is Some && user_of(self@, subject->0) == Some(u@),
                None => subject is None || user_of(self@, subject->0) is None,
            },
    {
        match subject {
            Some(id) => self.get_user(id),
            None => None,
        }
    }

    /// The user that `token` stands for; `None` for a token that is not
    /// valid now, or that stands for no user of the list.
    ///
    /// The user that is found is the first one of its identity in the
    /// list; and for a token that was issued for a user, nobody is found
    /// but that user.
    pub fn user_from_token(&self, token: &str) -> (user: Option<User>)
        ensures
            user matches Some(u) ==> user_of(self@, u.id) == Some(u@),
            forall|user_id: u128| #[trigger]
                is_token_for(token@, user_id) ==> match user {
                    Some(u) => u.id == user_id && user_of(self@, user_id) == Some(u@),
                    None => true,
                },
    {
        let subject = token_subject(token);
        let user = self.user_from_jwt(subject);
        proof {
            if subject is Some {
                lemma_place_of(self@, subject->0);
            }
        }
        user
    }

    /// A token for the user `user_id`, issued now: what `issue_token`
    /// gives for the time that the clock shows.
    pub fn generate_jwt(&self, user_id: u128) -> (r: Result<String, TokenError>)
        ensures
            exists|now: i64| #[trigger] issued(r, user_id, now),
            r matches Ok(token) ==> is_token_for(token@, user_id),
    {
        let now = now_timestamp();
        let r = issue_token(user_id, now);
        assert(issued(r, user_id, now));
        r
    }

    /// A new user with a token, under a fresh identity. The list does not
    /// hold the user before its tokens are taken over from the store.
    ///
    /// The identity is drawn at random, and the token is what
    /// `issue_token` gives for that identity and the time that the clock
    /// shows; where no token is issued, no user is made.
    pub fn create_detached(&self) -> (r: Result<UserWithToken, TokenError>)
        ensures
            exists|now: i64| #[trigger] detached(r, now),
            r matches Ok(made) ==> is_token_for(made.token@, made.user_id),
    {
        let user_id = new_id();
        let now = now_timestamp();
        let r = match issue_token(user_id, now) {
            Ok(token) => Ok(UserWithToken { user_id, token }),
            Err(e) => Err(e),
        };
        assert(detached(r, now));
        assert(r matches Ok(made) ==> made.token@ == spec_jwt(
            made.user_id,
            spec_token_expiry(now)->0,
            signing_key(),
        ));
        r
    }

    /// Takes over the tokens of the user `id` as the store holds them now.
    pub fn sync_user_from_db(&mut self, id: u128, jwts: Vec<String>)
        ensures
            final(self)@ == synced(old(self)@, id, tokens_view(jwts@)),
    {
        let place = self.find(id);
        let user = User { id, jwts };
        if place < self.users.len() {
            self.users.set(place, user);
            assert(self@ =~= synced(old(self)@, id, tokens_view(jwts@)));
        } else {
            self.users.push(user);
            assert(self@ =~= synced(old(self)@, id, tokens_view(jwts@)));
        }
    }
}

} // verus!

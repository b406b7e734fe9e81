//! Authentication with the block engine: the signed challenge, the tokens and
//! when they are renewed.

use crate::solana;
use crate::solana::{keypair_pubkey, keypair_sign, pubkey_to_text, Keypair, Signature};
use crate::text::{join2, join3};
use crate::time::UtcTime;
use vstd::prelude::*;
use vstd::string::*;

verus! {

/// The header that carries the token.
pub const AUTHORIZATION_HEADER: &'static str = "authorization";

/// A token is renewed when it lasts less than this, in seconds.
pub const RENEW_BEFORE_SECS: i64 = 300;

/// How long to sleep when no token needs renewal, in seconds.
pub const REFRESH_PAUSE_SECS: u64 = 60;

/// A moment as the block engine writes it: seconds since the start of 1970 and
/// nanoseconds to add.
#[derive(Clone, Copy, Debug, PartialEq, Eq, Structural)]
pub struct Timestamp {
    pub seconds: i64,
    pub nanos: i32,
}

impl Timestamp {
    /// The moment as a count of nanoseconds since the start of 1970.
    pub open spec fn as_nanos(self) -> int {
        self.seconds * 1_000_000_000 + self.nanos
    }
}

/// A token of the block engine.
#[derive(Debug)]
pub struct Token {
    pub value: String,
    pub expires_at: Option<Timestamp>,
}

/// What the block engine is told to get tokens.
#[derive(Debug)]
pub struct ChallengeAnswer {
    pub challenge: String,
    pub client_pubkey: Vec<u8>,
    pub signed_challenge: Vec<u8>,
}

/// The text that is signed: the key's address, a dash and the challenge.
pub open spec fn challenge_text(secret: Seq<u8>, challenge: Seq<char>) -> Seq<char> {
    solana::address_text(solana::ed25519_public(secret)) + "-"@ + challenge
}

/// The bytes of an array of 32.
fn key_bytes(bytes: &[u8; 32]) -> (out: Vec<u8>)
    ensures
        out@ == bytes@,
{
    let mut out: Vec<u8> = Vec::new();
    for i in 0..32usize
        invariant
            out@ == bytes@.take(i as int),
    {
        out.push(bytes[i]);
        assert(bytes@.take(i + 1) =~= bytes@.take(i as int).push(bytes@[i as int]));
    }
    assert(bytes@.take(32) =~= bytes@);
    out
}

/// The bytes of a signature.
fn signature_bytes(signature: &Signature) -> (out: Vec<u8>)
    ensures
        out@ == signature@,
{
    let mut out: Vec<u8> = Vec::new();
    for i in 0..64usize
        invariant
            out@ == signature.bytes@.take(i as int),
    {
        out.push(signature.bytes[i]);
        assert(signature.bytes@.take(i + 1) =~= signature.bytes@.take(i as int).push(
            signature.bytes@[i as int],
        ));
    }
    assert(signature.bytes@.take(64) =~= signature.bytes@);
    out
}

/// The public key that asks for a challenge.
pub fn challenge_pubkey(keypair: &Keypair) -> (key: Vec<u8>)
    ensures
        key@ == solana::ed25519_public(keypair@),
{
    key_bytes(&keypair_pubkey(keypair).bytes)
}

/// Whether an answer is that of a key pair to a challenge.
pub open spec fn is_answer(
    answer: ChallengeAnswer,
    secret: Seq<u8>,
    challenge: Seq<char>,
) -> bool {
    &&& answer.challenge@ == challenge_text(secret, challenge)
    &&& answer.client_pubkey@ == solana::ed25519_public(secret)
    &&& answer.signed_challenge@ == solana::ed25519_signature(
        secret,
        vstd::utf8::encode_utf8(challenge_text(secret, challenge)),
    )
}

/// The answer to a challenge, signed by the key pair.
pub fn answer_challenge(keypair: &Keypair, challenge: &str) -> (answer: ChallengeAnswer)
    ensures
        is_answer(answer, keypair@, challenge@),
{
    let key = keypair_pubkey(keypair);
    let address = pubkey_to_text(&key);
    let challenge = join3(address.as_str(), "-", challenge);
    let message = challenge.as_str().as_bytes_vec();
    let signature = keypair_sign(keypair, &message);
    ChallengeAnswer {
        challenge,
        client_pubkey: key_bytes(&key.bytes),
        signed_challenge: signature_bytes(&signature),
    }
}

/// What is missing in the block engine's reply.
#[derive(Clone, Copy, Debug, PartialEq, Eq, Structural)]
pub enum AuthError {
    MissingAccessToken,
    MissingRefreshToken,
}

impl AuthError {
    pub fn message(&self) -> (message: &'static str)
        ensures
            message@ == match *self {
                AuthError::MissingAccessToken => "Jito auth response missing access token"@,
                AuthError::MissingRefreshToken => "Jito auth response missing refresh token"@,
            },
    {
        match self {
            AuthError::MissingAccessToken => "Jito auth response missing access token",
            AuthError::MissingRefreshToken => "Jito auth response missing refresh token",
        }
    }
}

/// The access token and the refresh token of a reply, which needs both.
pub fn auth_tokens(access: Option<Token>, refresh: Option<Token>) -> (out: Result<
    (Token, Token),
    AuthError,
>)
    ensures
        match out {
            Ok(pair) => access == Some(pair.0) && refresh == Some(pair.1),
            Err(AuthError::MissingAccessToken) => access is None,
            Err(AuthError::MissingRefreshToken) => access is Some && refresh is None,
        },
{
    match access {
        None => Err(AuthError::MissingAccessToken),
        Some(access) => match refresh {
            None => Err(AuthError::MissingRefreshToken),
            Some(refresh) => Ok((access, refresh)),
        },
    }
}

/// Whether a token that expires at the given moment is to be renewed. One
/// without a moment counts as expired at the start of 1970.
pub open spec fn expires_soon(expires_at: Option<Timestamp>, now: UtcTime) -> bool {
    let end = match expires_at {
        Some(at) => at.as_nanos(),
        None => 0,
    };
    end - now.as_nanos() < RENEW_BEFORE_SECS * 1_000_000_000
}

/// Whether a token that expires at the given moment is to be renewed.
pub fn is_expiring(expires_at: &Option<Timestamp>, now: UtcTime) -> (soon: bool)
    ensures
        soon == expires_soon(*expires_at, now),
{
    let end: i128 = match expires_at {
        Some(at) => at.seconds as i128 * 1_000_000_000i128 + at.nanos as i128,
        None => 0,
    };
    let start: i128 = now.secs as i128 * 1_000_000_000i128 + now.nanos as i128;
    end - start < RENEW_BEFORE_SECS as i128 * 1_000_000_000i128
}

/// What the renewal loop does next.
#[derive(Clone, Copy, Debug, PartialEq, Eq, Structural)]
pub enum RefreshPlan {
    /// Answer a new challenge: the refresh token ends soon.
    Reauthenticate,
    /// Ask for a new access token: only the access token ends soon.
    RefreshAccess,
    /// Sleep: both last.
    Sleep,
}

/// What the renewal loop does next, by when the tokens expire.
pub open spec fn renewal(
    refresh: Option<Timestamp>,
    access: Timestamp,
    now: UtcTime,
) -> RefreshPlan {
    if expires_soon(refresh, now) {
        RefreshPlan::Reauthenticate
    } else if expires_soon(Some(access), now) {
        RefreshPlan::RefreshAccess
    } else {
        RefreshPlan::Sleep
    }
}

/// The tokens that the renewal loop holds.
#[derive(Debug)]
pub struct AuthSession {
    pub bearer: String,
    pub refresh: Token,
    pub access_expires_at: Timestamp,
}

impl AuthSession {
    /// The session after an authentication; there is none to renew where the
    /// access token does not say when it expires.
    pub fn start(access: &Token, refresh: Token) -> (session: Option<AuthSession>)
        ensures
            match session {
                Some(s) => {
                    &&& access.expires_at == Some(s.access_expires_at)
                    &&& s.bearer@ == access.value@
                    &&& s.refresh == refresh
                },
                None => access.expires_at is None,
            },
    {
        match access.expires_at {
            Some(at) => Some(
                AuthSession { bearer: access.value.clone(), refresh, access_expires_at: at },
            ),
            None => None,
        }
    }

    /// What the renewal loop does next.
    pub fn plan(&self, now: UtcTime) -> (plan: RefreshPlan)
        ensures
            plan == renewal(self.refresh.expires_at, self.access_expires_at, now),
    {
        let access_soon = is_expiring(&Some(self.access_expires_at), now);
        let refresh_soon = is_expiring(&self.refresh.expires_at, now);
        if refresh_soon {
            RefreshPlan::Reauthenticate
        } else if access_soon {
            RefreshPlan::RefreshAccess
        } else {
            RefreshPlan::Sleep
        }
    }

    /// Whether a session is another with the tokens that came.
    pub open spec fn renewed(
        self,
        access: Option<Token>,
        refresh: Option<Token>,
        after: AuthSession,
    ) -> bool {
        &&& after.refresh == match refresh {
            Some(token) => token,
            None => self.refresh,
        }
        &&& after.bearer == match access {
            Some(token) => token.value,
            None => self.bearer,
        }
        &&& after.access_expires_at == match access {
            Some(token) => match token.expires_at {
                Some(at) => at,
                None => self.access_expires_at,
            },
            None => self.access_expires_at,
        }
    }

    /// Takes over an access token. One without an expiry keeps the old one.
    fn take_access(&mut self, access: Token)
        ensures
            final(self).bearer == access.value,
            final(self).access_expires_at == match access.expires_at {
                Some(at) => at,
                None => old(self).access_expires_at,
            },
            final(self).refresh == old(self).refresh,
    {
        self.bearer = access.value;
        match access.expires_at {
            Some(at) => {
                self.access_expires_at = at;
            },
            None => {},
        }
    }

    /// A new authentication succeeded.
    pub fn reauthenticated(&mut self, access: Token, refresh: Token)
        ensures
            old(self).renewed(Some(access), Some(refresh), *final(self)),
    {
        self.take_access(access);
        self.refresh = refresh;
    }

    /// A refresh was answered, with or without a token.
    pub fn refreshed(&mut self, access: Option<Token>)
        ensures
            old(self).renewed(access, None, *final(self)),
    {
        match access {
            Some(token) => self.take_access(token),
            None => {},
        }
    }
}

/// A token that expires late enough needs no renewal, and needs one again once
/// the moment comes near.
pub proof fn renewal_follows_expiry(expires_at: Timestamp, now: UtcTime)
    ensures
        expires_soon(Some(expires_at), now) <==> expires_at.as_nanos() < now.as_nanos()
            + RENEW_BEFORE_SECS * 1_000_000_000,
        0 <= now.as_nanos() ==> expires_soon(None, now),
{
}

/// What is said of a token that no header can carry.
pub const INVALID_TOKEN: &'static str = "invalid Jito auth token";

/// The header that carries a token.
pub open spec fn bearer_header(token: Seq<char>) -> Seq<char> {
    "Bearer "@ + token
}

/// Whether a header can carry a text: it holds no control character but the tab.
pub open spec fn is_header_text(words: Seq<char>) -> bool {
    forall|i: int|
        0 <= i < words.len() ==> {
            let n = #[trigger] words[i] as u32;
            n == 9 || (n >= 32 && n != 127)
        }
}

/// What tonic reports of a text that is no header value.
#[verifier::external_type_specification]
#[verifier::external_body]
pub struct ExInvalidMetadataValue(tonic::metadata::errors::InvalidMetadataValue);

/// `MetadataValue::from_str` of tonic for ASCII metadata: it takes a text whose
/// bytes are 32 or more and not 127, or a tab; all bytes of characters beyond
/// ASCII are 128 or more.
#[verifier::external_body]
fn check_header(value: &str) -> (out: Result<(), tonic::metadata::errors::InvalidMetadataValue>)
    ensures
        out is Ok == is_header_text(value@),
{
    match value.parse::<tonic::metadata::MetadataValue<tonic::metadata::Ascii>>() {
        Ok(_) => Ok(()),
        Err(err) => Err(err),
    }
}

/// Adds the token to the requests of the client.
#[derive(Clone, Debug)]
pub struct ClientInterceptor {
    pub token: String,
}

impl ClientInterceptor {
    pub fn new(access: &Token) -> (interceptor: ClientInterceptor)
        ensures
            interceptor.token@ == access.value@,
    {
        ClientInterceptor { token: access.value.clone() }
    }

    /// The value of the authorization header of a request; there is none without
    /// a token.
    pub fn call(&self) -> (out: Result<Option<String>, &'static str>)
        ensures
            match out {
                Ok(None) => self.token@.len() == 0,
                Ok(Some(value)) => {
                    &&& self.token@.len() > 0
                    &&& value@ == bearer_header(self.token@)
                    &&& is_header_text(value@)
                },
                Err(message) => {
                    &&& self.token@.len() > 0
                    &&& !is_header_text(bearer_header(self.token@))
                    &&& message@ == INVALID_TOKEN@
                },
            },
    {
        if self.token.as_str().is_empty() {
            return Ok(None);
        }
        let header = join2("Bearer ", self.token.as_str());
        match check_header(header.as_str()) {
            Ok(_) => Ok(Some(header)),
            Err(_) => Err(INVALID_TOKEN),
        }
    }
}

/// The moment at which a token expires, in nanoseconds since the start of 1970.
pub open spec fn expiry_nanos(at: Timestamp) -> int {
    at.seconds * 1_000_000_000 + at.nanos
}

/// The loop answers a new challenge where the refresh token lasts less than five
/// minutes or does not say how long; else it asks for a new access token where
/// that lasts less than five minutes; else it sleeps.
pub proof fn tokens_are_renewed_five_minutes_early(
    refresh: Option<Timestamp>,
    access: Timestamp,
    now: UtcTime,
)
    requires
        now.secs >= 0,
    ensures
        ({
            let end = now.secs * 1_000_000_000 + now.nanos + 300_000_000_000;
            let refresh_ends = refresh is None || expiry_nanos(refresh->0) < end;
            let access_ends = expiry_nanos(access) < end;
            &&& refresh_ends ==> renewal(refresh, access, now) == RefreshPlan::Reauthenticate
            &&& !refresh_ends && access_ends ==> renewal(refresh, access, now)
                == RefreshPlan::RefreshAccess
            &&& !refresh_ends && !access_ends ==> renewal(refresh, access, now)
                == RefreshPlan::Sleep
            &&& REFRESH_PAUSE_SECS == 60
        }),
{
}

/// Tokens that came take the place of the old ones; what did not come stays, and
/// so does the expiry of an access token that does not name one.
pub proof fn tokens_are_taken_over(
    before: AuthSession,
    access: Option<Token>,
    refresh: Option<Token>,
    after: AuthSession,
)
    requires
        before.renewed(access, refresh, after),
    ensures
        access matches Some(token) ==> after.bearer == token.value && (token.expires_at is Some
            ==> after.access_expires_at == token.expires_at->0) && (token.expires_at is None
            ==> after.access_expires_at == before.access_expires_at),
        access is None ==> after.bearer == before.bearer && after.access_expires_at
            == before.access_expires_at,
        refresh matches Some(token) ==> after.refresh == token,
        refresh is None ==> after.refresh == before.refresh,
{
}

/// A challenge is signed behind the address of the key that signs it.
pub proof fn challenges_are_bound_to_the_key(secret: Seq<u8>, challenge: Seq<char>)
    ensures
        ({
            let address = solana::address_text(solana::ed25519_public(secret));
            let signed = challenge_text(secret, challenge);
            &&& signed.len() == address.len() + 1 + challenge.len()
            &&& signed.take(address.len() as int) == address
            &&& signed[address.len() as int] == '-'
            &&& signed.skip(address.len() as int + 1) == challenge
        }),
{
    reveal_strlit("-");
    let address = solana::address_text(solana::ed25519_public(secret));
    let signed = challenge_text(secret, challenge);
    assert(signed.take(address.len() as int) =~= address);
    assert(signed.skip(address.len() as int + 1) =~= challenge);
}

/// A token is carried behind the word for a bearer.
pub proof fn headers_carry_the_token(token: Seq<char>)
    ensures
        bearer_header(token).len() == 7 + token.len(),
        bearer_header(token).take(7) == "Bearer "@,
        bearer_header(token).skip(7) == token,
{
    reveal_strlit("Bearer ");
    assert(bearer_header(token).take(7) =~= "Bearer "@);
    assert(bearer_header(token).skip(7) =~= token);
}

/// An answer holds the text that it signs: the address of the key, a hyphen and
/// the challenge.
pub proof fn answers_are_signed_as_sent(
    answer: ChallengeAnswer,
    secret: Seq<u8>,
    challenge: Seq<char>,
)
    requires
        is_answer(answer, secret, challenge),
    ensures
        answer.challenge@ == solana::address_text(solana::ed25519_public(secret)) + "-"@ + challenge,
        answer.client_pubkey@ == solana::ed25519_public(secret),
        answer.signed_challenge@ == solana::ed25519_signature(
            secret,
            vstd::utf8::encode_utf8(answer.challenge@),
        ),
{
}

/// A header carries every printed ASCII character, the tab and what lies beyond
/// ASCII, and no other control character; one that it cannot carry spoils a text.
pub proof fn headers_carry_no_control_characters(words: Seq<char>, i: int)
    requires
        0 <= i < words.len(),
        is_header_text(words),
    ensures
        words[i] != '\n' && words[i] != '\r',
        (words[i] as u32) < 32 ==> words[i] as u32 == 9,
        words[i] as u32 != 127,
        forall|c: char|
            c == '\t' || ' ' <= c <= '~' || (c as u32) >= 128 ==> is_header_text(
                #[trigger] words.push(c),
            ),
{
    assert forall|c: char|
        c == '\t' || ' ' <= c <= '~' || (c as u32) >= 128 implies is_header_text(
        #[trigger] words.push(c),
    ) by {
        let more = words.push(c);
        assert forall|k: int| 0 <= k < more.len() implies ({
            let n = #[trigger] more[k] as u32;
            n == 9 || (n >= 32 && n != 127)
        }) by {
            if k < words.len() {
                assert(more[k] == words[k]);
            }
        }
    }
}

} // verus!

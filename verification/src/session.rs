//! Session authority: time-bounded session tokens.
//!
//! A token binds one principal to one device for a window of time and
//! carries an HMAC-SHA256 signature over its body under a secret that only
//! the server holds. A token goes through `Issued -> Valid -> {Expired |
//! Revoked}` and is never changed once issued. The clock and the store of
//! revocations are the caller's: the time is handed in, in seconds since
//! the Unix epoch.

use crate::entropy::os_random;
use crate::error::{AuthError, IssueError};
use chrono::TimeDelta;
use jsonwebtoken::{Algorithm, DecodingKey, EncodingKey};
use uuid::Builder;
use vstd::bytes::{
    spec_u128_from_le_bytes, spec_u128_to_le_bytes, spec_u64_to_le_bytes, u128_to_le_bytes,
    u64_to_le_bytes,
};
use vstd::prelude::*;

verus! {

/// The number of days for which a session is valid unless the caller says
/// otherwise.
pub const DEFAULT_SESSION_DAYS: u32 = 30;

/// Length in bytes of a token's body.
pub const TOKEN_BODY_LEN: usize = 64;

/// The HS256 signature of a message under a secret, as text: what
/// `jsonwebtoken::crypto::sign` computes with `Algorithm::HS256`.
pub uninterp spec fn hs256_signature(secret: Seq<u8>, message: Seq<u8>) -> Seq<char>;

/// The version 4 identifier made of 16 random bytes: the bytes read as one
/// big-endian number, with the four version bits set to 4 and the two
/// variant bits set to binary 10.
pub open spec fn uuid_v4_of(random: Seq<u8>) -> u128 {
    (spec_u128_from_le_bytes(random.reverse()) & !0x0000_0000_0000_f000_c000_0000_0000_0000u128)
        | 0x0000_0000_0000_4000_8000_0000_0000_0000u128
}

/// Trusted: `jsonwebtoken::crypto::sign` with `Algorithm::HS256`, and
/// `EncodingKey::from_secret` around it.
///
/// The result depends on the secret and the message alone and is named
/// `hs256_signature`. For the HMAC algorithms the function's source has no
/// failing path.
#[verifier::external_body]
fn hs256_sign(secret: &[u8], message: &[u8]) -> (signature: String)
    ensures
        signature@ == hs256_signature(secret@, message@),
{
    jsonwebtoken::crypto::sign(message, &EncodingKey::from_secret(secret), Algorithm::HS256)
        .expect("HS256 signing has no failing path")
}

/// Trusted: `jsonwebtoken::crypto::verify` with `Algorithm::HS256`, and
/// `DecodingKey::from_secret` around it.
///
/// For the HMAC algorithms the function signs the message again and
/// compares the two signatures in constant time, so the answer is whether
/// the given text is the signature of the message.
#[verifier::external_body]
fn hs256_verify(secret: &[u8], message: &[u8], signature: &str) -> (accepted: bool)
    ensures
        accepted == (signature@ == hs256_signature(secret@, message@)),
{
    jsonwebtoken::crypto::verify(
        signature,
        message,
        &DecodingKey::from_secret(secret),
        Algorithm::HS256,
    ).unwrap_or(false)
}

/// Trusted: `uuid::Builder::from_random_bytes`, with `Builder::into_uuid`
/// and `Uuid::as_u128` around it.
///
/// The builder keeps the bytes but for the version and variant bits, which
/// it sets, and `as_u128` reads the 16 bytes as a big-endian number.
#[verifier::external_body]
fn uuid_v4_from(random: [u8; 16]) -> (id: u128)
    ensures
        id == uuid_v4_of(random@),
{
    Builder::from_random_bytes(random).into_uuid().as_u128()
}

/// Trusted: `chrono::TimeDelta::try_days` followed by
/// `TimeDelta::num_seconds`.
///
/// A day has 86 400 seconds. `try_days` refuses only what lies beyond
/// `i64::MAX` milliseconds, which no 32-bit number of days reaches.
#[verifier::external_body]
fn seconds_of_days(days: u32) -> (seconds: Option<i64>)
    ensures
        seconds == Some((days * 86_400) as i64),
{
    match TimeDelta::try_days(i64::from(days)) {
        Some(delta) => Some(delta.num_seconds()),
        None => None,
    }
}

/// The principal and the device to which a session is bound.
#[derive(Debug, Clone, Copy, PartialEq, Eq, Structural)]
pub struct SessionBinding {
    pub principal_id: u128,
    pub device_id: u128,
}

/// What a [`SessionToken`] holds.
pub struct TokenView {
    pub id: u128,
    pub principal_id: u128,
    pub device_id: u128,
    pub issued_at: u64,
    pub expires_at: u64,
    pub signature: Seq<char>,
}

impl TokenView {
    /// The 64 bytes over which a token is signed: the three identifiers,
    /// then the two times, each little-endian at its full width.
    pub open spec fn body(self) -> Seq<u8> {
        spec_u128_to_le_bytes(self.id) + spec_u128_to_le_bytes(self.principal_id)
            + spec_u128_to_le_bytes(self.device_id) + spec_u64_to_le_bytes(self.issued_at)
            + spec_u64_to_le_bytes(self.expires_at)
    }

    /// The pair to which the token is bound.
    pub open spec fn binding(self) -> SessionBinding {
        SessionBinding { principal_id: self.principal_id, device_id: self.device_id }
    }

    /// True when the token's signature is the one that the secret gives to
    /// the token's body.
    pub open spec fn signed_by(self, secret: Seq<u8>) -> bool {
        self.signature == hs256_signature(secret, self.body())
    }
}

/// The token that an authority with the given secret issues: bound to the
/// pair, valid from `now` for `window` seconds, and signed.
pub open spec fn issued_token(
    secret: Seq<u8>,
    id: u128,
    principal_id: u128,
    device_id: u128,
    now: u64,
    window: u64,
) -> TokenView {
    let unsigned = TokenView {
        id,
        principal_id,
        device_id,
        issued_at: now,
        expires_at: (now + window) as u64,
        signature: Seq::<char>::empty(),
    };
    TokenView { signature: hs256_signature(secret, unsigned.body()), ..unsigned }
}

/// True when a token can be issued at `now` for `window` seconds: the
/// window is not empty and its end is a time that can be written down.
pub open spec fn issuable(now: u64, window: u64) -> bool {
    window > 0 && now + window <= u64::MAX
}

/// The decision on a presented token: a signature that does not verify is
/// `Invalid`; else a time at or past the expiry is `Expired`; else a
/// revocation is `Revoked`; else the token's binding is returned.
pub open spec fn validation_outcome(secret: Seq<u8>, token: TokenView, now: u64, revoked: bool) -> Result<
    SessionBinding,
    AuthError,
> {
    if !token.signed_by(secret) {
        Err(AuthError::Invalid)
    } else if now >= token.expires_at {
        Err(AuthError::Expired)
    } else if revoked {
        Err(AuthError::Revoked)
    } else {
        Ok(token.binding())
    }
}

/// Proof that a principal authenticated from a device within a window of
/// time. A token cannot be changed once it exists.
#[derive(Debug, Clone, PartialEq, Eq)]
pub struct SessionToken {
    id: u128,
    principal_id: u128,
    device_id: u128,
    issued_at: u64,
    expires_at: u64,
    signature: String,
}

impl View for SessionToken {
    type V = TokenView;

    closed spec fn view(&self) -> TokenView {
        TokenView {
            id: self.id,
            principal_id: self.principal_id,
            device_id: self.device_id,
            issued_at: self.issued_at,
            expires_at: self.expires_at,
            signature: self.signature@,
        }
    }
}

impl SessionToken {
    /// Puts a token together from its parts, as they were presented or
    /// stored. Nothing is checked here: validation decides.
    pub fn from_parts(
        id: u128,
        principal_id: u128,
        device_id: u128,
        issued_at: u64,
        expires_at: u64,
        signature: String,
    ) -> (token: SessionToken)
        ensures
            token@ == (TokenView {
                id,
                principal_id,
                device_id,
                issued_at,
                expires_at,
                signature: signature@,
            }),
    {
        SessionToken { id, principal_id, device_id, issued_at, expires_at, signature }
    }

    /// The token's own identifier, under which it is stored and revoked.
    pub fn id(&self) -> (id: u128)
        ensures
            id == self@.id,
    {
        self.id
    }

    /// The principal to which the token is bound.
    pub fn principal_id(&self) -> (id: u128)
        ensures
            id == self@.principal_id,
    {
        self.principal_id
    }

    /// The device to which the token is bound.
    pub fn device_id(&self) -> (id: u128)
        ensures
            id == self@.device_id,
    {
        self.device_id
    }

    /// The time of issue, in seconds since the Unix epoch.
    pub fn issued_at(&self) -> (time: u64)
        ensures
            time == self@.issued_at,
    {
        self.issued_at
    }

    /// The first second at which the token is no longer accepted.
    pub fn expires_at(&self) -> (time: u64)
        ensures
            time == self@.expires_at,
    {
        self.expires_at
    }

    /// The signature over the body, as text.
    pub fn signature(&self) -> (signature: &str)
        ensures
            signature@ == self@.signature,
    {
        self.signature.as_str()
    }

    /// The 64 bytes over which the token is signed.
    pub fn body(&self) -> (body: Vec<u8>)
        ensures
            body@ == self@.body(),
    {
        token_body_bytes(self.id, self.principal_id, self.device_id, self.issued_at, self.expires_at)
    }
}

fn token_body_bytes(id: u128, principal_id: u128, device_id: u128, issued_at: u64, expires_at: u64) -> (body:
    Vec<u8>)
    ensures
        body@ == (TokenView {
            id,
            principal_id,
            device_id,
            issued_at,
            expires_at,
            signature: Seq::<char>::empty(),
        }).body(),
{
    let mut body = u128_to_le_bytes(id);
    let mut part = u128_to_le_bytes(principal_id);
    body.append(&mut part);
    let mut part = u128_to_le_bytes(device_id);
    body.append(&mut part);
    let mut part = u64_to_le_bytes(issued_at);
    body.append(&mut part);
    let mut part = u64_to_le_bytes(expires_at);
    body.append(&mut part);
    body
}

/// The set of token identifiers that were explicitly revoked.
pub struct RevocationList {
    revoked: Vec<u128>,
}

impl View for RevocationList {
    type V = Set<u128>;

    closed spec fn view(&self) -> Set<u128> {
        self.revoked@.to_set()
    }
}

impl RevocationList {
    /// A list on which nothing is revoked.
    pub fn new() -> (list: RevocationList)
        ensures
            list@ == Set::<u128>::empty(),
    {
        let list = RevocationList { revoked: Vec::new() };
        assert(list.revoked@.to_set() =~= Set::<u128>::empty());
        list
    }

    /// True when the token with this identifier was revoked.
    pub fn is_revoked(&self, token_id: u128) -> (revoked: bool)
        ensures
            revoked == self@.contains(token_id),
    {
        let mut i: usize = 0;
        while i < self.revoked.len()
            invariant
                i <= self.revoked@.len(),
                forall|j: int| 0 <= j < i ==> self.revoked@[j] != token_id,
            decreases self.revoked@.len() - i,
        {
            if self.revoked[i] == token_id {
                return true;
            }
            i += 1;
        }
        false
    }

    /// Revokes the token with this identifier. Every identifier that was
    /// revoked before stays revoked.
    pub fn revoke(&mut self, token_id: u128)
        ensures
            final(self)@ == old(self)@.insert(token_id),
    {
        if !self.is_revoked(token_id) {
            self.revoked.push(token_id);
            assert(self.revoked@.to_set() =~= old(self).revoked@.to_set().insert(token_id)) by {
                assert forall|x: u128|
                    self.revoked@.to_set().contains(x) <==> old(self).revoked@.to_set().insert(
                        token_id,
                    ).contains(x) by {
                    if self.revoked@.contains(x) {
                        let k = choose|k: int| 0 <= k < self.revoked@.len() && self.revoked@[k] == x;
                        if k < old(self).revoked@.len() {
                            assert(old(self).revoked@[k] == x);
                        }
                    }
                    if old(self).revoked@.contains(x) {
                        let k = choose|k: int|
                            0 <= k < old(self).revoked@.len() && old(self).revoked@[k] == x;
                        assert(self.revoked@[k] == x);
                    }
                    if x == token_id {
                        assert(self.revoked@[self.revoked@.len() - 1] == x);
                    }
                }
            }
        } else {
            assert(self@ =~= old(self)@.insert(token_id));
        }
    }
}

/// The holder of the server's signing secret. The secret is set once, when
/// the authority is made, and never changes.
pub struct SessionAuthority {
    secret: Vec<u8>,
}

impl View for SessionAuthority {
    type V = Seq<u8>;

    closed spec fn view(&self) -> Seq<u8> {
        self.secret@
    }
}

impl SessionAuthority {
    /// An authority that signs with the given secret.
    pub fn new(secret: Vec<u8>) -> (authority: SessionAuthority)
        ensures
            authority@ == secret@,
    {
        SessionAuthority { secret }
    }

    /// Issues the token with the given identifier, bound to the pair, valid
    /// from `now` for `window` seconds. To be called only once the
    /// credential check has succeeded.
    ///
    /// Succeeds exactly where the token is issuable; any other window is
    /// refused.
    pub fn issue_with_id(
        &self,
        id: u128,
        principal_id: u128,
        device_id: u128,
        now: u64,
        window: u64,
    ) -> (res: Result<SessionToken, IssueError>)
        ensures
            issuable(now, window) ==> (res matches Ok(token) && token@ == issued_token(
                self@,
                id,
                principal_id,
                device_id,
                now,
                window,
            )),
            !issuable(now, window) ==> res == Err::<SessionToken, IssueError>(
                IssueError::WindowRefused,
            ),
    {
        if window == 0 || window > u64::MAX - now {
            return Err(IssueError::WindowRefused);
        }
        let expires_at = now + window;
        let body = token_body_bytes(id, principal_id, device_id, now, expires_at);
        let signature = hs256_sign(self.secret.as_slice(), body.as_slice());
        Ok(SessionToken { id, principal_id, device_id, issued_at: now, expires_at, signature })
    }

    /// Issues a token with a fresh random identifier. See
    /// [`SessionAuthority::issue_with_id`].
    ///
    /// A window that is not issuable is refused before any entropy is
    /// drawn. Otherwise the only failure is that the entropy source is
    /// unavailable, and a token that comes back is the issued token of the
    /// version 4 identifier that was drawn.
    pub fn issue(&self, principal_id: u128, device_id: u128, now: u64, window: u64) -> (res: Result<
        SessionToken,
        IssueError,
    >)
        ensures
            !issuable(now, window) ==> res == Err::<SessionToken, IssueError>(
                IssueError::WindowRefused,
            ),
            issuable(now, window) ==> (res matches Err(e) ==> e == IssueError::EntropyUnavailable),
            res matches Ok(token) ==> token@ == issued_token(
                self@,
                token@.id,
                principal_id,
                device_id,
                now,
                window,
            ),
            res matches Ok(token) ==> exists|random: Seq<u8>|
                random.len() == 16 && token@.id == #[trigger] uuid_v4_of(random),
    {
        if window == 0 || window > u64::MAX - now {
            return Err(IssueError::WindowRefused);
        }
        match os_random::<16>() {
            Some(random) => {
                self.issue_with_id(token_id_of(random), principal_id, device_id, now, window)
            },
            None => Err(IssueError::EntropyUnavailable),
        }
    }

    /// Decides on a presented token at the time `now`, given whether the
    /// store marks the token as revoked. On success the caller learns the
    /// principal and the device for which it may act.
    pub fn validate(&self, token: &SessionToken, now: u64, revoked: bool) -> (res: Result<
        SessionBinding,
        AuthError,
    >)
        ensures
            res == validation_outcome(self@, token@, now, revoked),
    {
        let body = token.body();
        if !hs256_verify(self.secret.as_slice(), body.as_slice(), token.signature.as_str()) {
            return Err(AuthError::Invalid);
        }
        if now >= token.expires_at {
            return Err(AuthError::Expired);
        }
        if revoked {
            return Err(AuthError::Revoked);
        }
        Ok(SessionBinding { principal_id: token.principal_id, device_id: token.device_id })
    }
}

/// The token identifier that is made of 16 random bytes: a version 4
/// identifier.
pub fn token_id_of(random: [u8; 16]) -> (id: u128)
    ensures
        id == uuid_v4_of(random@),
{
    uuid_v4_from(random)
}

/// The length in seconds of a window of the given number of days.
pub fn window_of_days(days: u32) -> (seconds: u64)
    ensures
        seconds == days * 86_400,
{
    match seconds_of_days(days) {
        Some(seconds) => seconds as u64,
        None => 0,
    }
}

/// Issues a session token for the default window of 30 days. See
/// [`SessionAuthority::issue`].
pub fn issue_session(authority: &SessionAuthority, principal_id: u128, device_id: u128, now: u64) -> (res:
    Result<SessionToken, IssueError>)
    ensures
        !issuable(now, (DEFAULT_SESSION_DAYS * 86_400) as u64) ==> res == Err::<
            SessionToken,
            IssueError,
        >(IssueError::WindowRefused),
        issuable(now, (DEFAULT_SESSION_DAYS * 86_400) as u64) ==> (res matches Err(e) ==> e
            == IssueError::EntropyUnavailable),
        res matches Ok(token) ==> token@ == issued_token(
            authority@,
            token@.id,
            principal_id,
            device_id,
            now,
            (DEFAULT_SESSION_DAYS * 86_400) as u64,
        ),
        res matches Ok(token) ==> exists|random: Seq<u8>|
            random.len() == 16 && token@.id == #[trigger] uuid_v4_of(random),
{
    authority.issue(principal_id, device_id, now, window_of_days(DEFAULT_SESSION_DAYS))
}

/// Decides on a presented token at the time `now`, against a list of
/// revocations. See [`SessionAuthority::validate`].
pub fn validate_session(
    authority: &SessionAuthority,
    token: &SessionToken,
    now: u64,
    revocations: &RevocationList,
) -> (res: Result<SessionBinding, AuthError>)
    ensures
        res == validation_outcome(authority@, token@, now, revocations@.contains(token@.id)),
{
    let revoked = revocations.is_revoked(token.id());
    authority.validate(token, now, revoked)
}

/// The life of a token. A token is valid at the moment of its issue. From
/// its expiry on it is rejected as `Expired`, whether or not it was
/// revoked. Before its expiry it is rejected as `Revoked` as soon as it is
/// revoked.
pub proof fn law_session_lifecycle(
    secret: Seq<u8>,
    id: u128,
    principal_id: u128,
    device_id: u128,
    now: u64,
    window: u64,
    later: u64,
    revoked: bool,
)
    requires
        issuable(now, window),
    ensures
        ({
            let token = issued_token(secret, id, principal_id, device_id, now, window);
            &&& validation_outcome(secret, token, now, false) == Ok::<SessionBinding, AuthError>(
                SessionBinding { principal_id, device_id },
            )
            &&& later >= now + window ==> validation_outcome(secret, token, later, revoked) == Err::<
                SessionBinding,
                AuthError,
            >(AuthError::Expired)
            &&& later < now + window ==> validation_outcome(secret, token, later, true) == Err::<
                SessionBinding,
                AuthError,
            >(AuthError::Revoked)
            &&& later < now + window ==> validation_outcome(secret, token, later, false) == Ok::<
                SessionBinding,
                AuthError,
            >(SessionBinding { principal_id, device_id })
        }),
{
}

/// Revocation takes effect at once: against a list to which a token's
/// identifier was added, a token that is signed and not yet expired is
/// rejected as `Revoked`.
pub proof fn law_revocation_is_immediate(
    secret: Seq<u8>,
    token: TokenView,
    now: u64,
    revocations: Set<u128>,
)
    requires
        token.signed_by(secret),
        now < token.expires_at,
    ensures
        validation_outcome(secret, token, now, revocations.insert(token.id).contains(token.id))
            == Err::<SessionBinding, AuthError>(AuthError::Revoked),
{
}

} // verus!

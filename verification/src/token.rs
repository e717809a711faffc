//! The token issuer: mints a signed token for an authentication context and
//! reads a presented token back.
//!
//! A token is a text in three parts, one after the other: the number of
//! characters of the payload, the payload, and the signature of the payload.
//! The payload holds the expiration instant and the fields of the context,
//! in the layout of [`crate::codec`]. It holds nothing else: no credential
//! ever enters a token.
//!
//! Instants are seconds since the epoch. A token is good until its
//! expiration instant and no longer: read at that instant it has expired.
//! The signature is checked before anything in the payload is looked at.
use crate::codec::{
    items_fit, lemma_take_list, lemma_take_option, lemma_take_text, lemma_take_word, list_field,
    option_field, read_list, read_option, read_text, read_word, take_list, take_option,
    take_text, take_word, text_field, word_text, write_list, write_option, write_text,
    write_word,
};
use crate::context::{AuthContext, AuthContextView};
use crate::error::TokenFault;
use crate::text::chars_of;
use vstd::prelude::*;
use vstd::string::*;

verus! {

/// The error type of `jsonwebtoken`, carried through and never looked into.
#[verifier::external_type_specification]
#[verifier::external_body]
pub struct ExSignatureError(jsonwebtoken::errors::Error);

/// The signature that `jsonwebtoken::crypto::sign` computes for a message
/// under a secret with the algorithm HS256: the HMAC-SHA256 of the message's
/// bytes, in unpadded URL-safe base64.
pub uninterp spec fn hs256_signature(secret: Seq<u8>, message: Seq<char>) -> Seq<char>;

/// Signs `message` under `secret`. Calls `jsonwebtoken::crypto::sign` with
/// the algorithm HS256 on the UTF-8 bytes of the message. For this algorithm
/// the call always returns `Ok`; the text returned is a function of the
/// secret and the message alone.
#[verifier::external_body]
fn sign_hs256(secret: &[u8], message: &str) -> (r: Result<String, jsonwebtoken::errors::Error>)
    ensures
        r is Ok,
        r matches Ok(signature) ==> signature@ == hs256_signature(secret@, message@),
{
    jsonwebtoken::crypto::sign(
        message.as_bytes(),
        &jsonwebtoken::EncodingKey::from_secret(secret),
        jsonwebtoken::Algorithm::HS256,
    )
}

/// Checks `signature` against `message` under `secret`. Calls
/// `jsonwebtoken::crypto::verify` with the algorithm HS256, which signs the
/// message again and compares the two signatures in constant time. For this
/// algorithm the call always returns `Ok`, and `Ok(true)` exactly when the
/// signature presented is the one that signing gives.
#[verifier::external_body]
fn verify_hs256(signature: &str, secret: &[u8], message: &str) -> (r: Result<
    bool,
    jsonwebtoken::errors::Error,
>)
    ensures
        r is Ok,
        r matches Ok(genuine) ==> genuine == (signature@ == hs256_signature(secret@, message@)),
{
    jsonwebtoken::crypto::verify(
        signature,
        message.as_bytes(),
        &jsonwebtoken::DecodingKey::from_secret(secret),
        jsonwebtoken::Algorithm::HS256,
    )
}

/// The number written for a privilege level: the level moved up by 2^31, so
/// that it is never negative.
pub open spec fn level_code(level: i32) -> u64 {
    (level + 0x8000_0000) as u64
}

/// The number written for a flag.
pub open spec fn flag_code(flag: bool) -> u64 {
    if flag {
        1
    } else {
        0
    }
}

/// The payload for a context that expires at `expires_at`.
pub open spec fn claims_text(context: AuthContextView, expires_at: u64) -> Seq<char> {
    word_text(expires_at) + text_field(context.user_id) + text_field(context.username)
        + option_field(context.domain_id) + list_field(context.org_ids) + list_field(
        context.role_ids,
    ) + word_text(level_code(context.effective_level)) + word_text(flag_code(context.is_admin))
}

/// Reads a payload: the context and its expiration instant. `None` if the
/// text is not a payload from its first character to its last.
pub open spec fn take_claims(s: Seq<char>) -> Option<(AuthContextView, u64)> {
    match take_word(s) {
        Some((expires_at, s1)) => match take_text(s1) {
            Some((user_id, s2)) => match take_text(s2) {
                Some((username, s3)) => match take_option(s3) {
                    Some((domain_id, s4)) => match take_list(s4) {
                        Some((org_ids, s5)) => match take_list(s5) {
                            Some((role_ids, s6)) => match take_word(s6) {
                                Some((level, s7)) => match take_word(s7) {
                                    Some((flag, s8)) => if level < 0x1_0000_0000 && flag <= 1
                                        && s8.len() == 0 {
                                        Some(
                                            (
                                                AuthContextView {
                                                    user_id,
                                                    username,
                                                    domain_id,
                                                    org_ids,
                                                    role_ids,
                                                    effective_level: (level - 0x8000_0000) as i32,
                                                    is_admin: flag == 1,
                                                },
                                                expires_at,
                                            ),
                                        )
                                    } else {
                                        None
                                    },
                                    None => None,
                                },
                                None => None,
                            },
                            None => None,
                        },
                        None => None,
                    },
                    None => None,
                },
                None => None,
            },
            None => None,
        },
        None => None,
    }
}

/// Whether every length in the context can be written as a number. It holds
/// of every context that a program holds in memory.
pub open spec fn encodable(context: AuthContextView) -> bool {
    &&& context.user_id.len() <= u64::MAX
    &&& context.username.len() <= u64::MAX
    &&& (context.domain_id matches Some(d) ==> d.len() <= u64::MAX)
    &&& items_fit(context.org_ids)
    &&& items_fit(context.role_ids)
}

/// Whether a token can be written for the context: every length in it, and
/// the length of the payload, can be written as a number. It holds of every
/// context and payload that a program holds in memory.
pub open spec fn mintable(context: AuthContextView, expires_at: u64) -> bool {
    &&& encodable(context)
    &&& claims_text(context, expires_at).len() <= u64::MAX
}

/// Reading a payload that was written gives the context and the expiration
/// instant back.
pub proof fn lemma_claims_round_trip(context: AuthContextView, expires_at: u64)
    requires
        encodable(context),
    ensures
        take_claims(claims_text(context, expires_at)) == Some((context, expires_at)),
{
    let f8 = word_text(flag_code(context.is_admin));
    let f7 = word_text(level_code(context.effective_level));
    let f6 = list_field(context.role_ids);
    let f5 = list_field(context.org_ids);
    let f4 = option_field(context.domain_id);
    let f3 = text_field(context.username);
    let f2 = text_field(context.user_id);
    let f1 = word_text(expires_at);
    let s8 = Seq::<char>::empty();
    let s7 = f8 + s8;
    let s6 = f7 + s7;
    let s5 = f6 + s6;
    let s4 = f5 + s5;
    let s3 = f4 + s4;
    let s2 = f3 + s3;
    let s1 = f2 + s2;
    let s0 = f1 + s1;
    assert(claims_text(context, expires_at) == s0) by {
        lemma_fields_nest(f1, f2, f3, f4, f5, f6, f7, f8);
    }
    assert(take_word(s0) == Some((expires_at, s1))) by {
        lemma_take_word(expires_at, s1);
    }
    assert(take_text(s1) == Some((context.user_id, s2))) by {
        lemma_take_text(context.user_id, s2);
    }
    assert(take_text(s2) == Some((context.username, s3))) by {
        lemma_take_text(context.username, s3);
    }
    assert(take_option(s3) == Some((context.domain_id, s4))) by {
        lemma_take_option(context.domain_id, s4);
    }
    assert(take_list(s4) == Some((context.org_ids, s5))) by {
        lemma_take_list(context.org_ids, s5);
    }
    assert(take_list(s5) == Some((context.role_ids, s6))) by {
        lemma_take_list(context.role_ids, s6);
    }
    assert(take_word(s6) == Some((level_code(context.effective_level), s7))) by {
        lemma_take_word(level_code(context.effective_level), s7);
    }
    assert(take_word(s7) == Some((flag_code(context.is_admin), s8))) by {
        lemma_take_word(flag_code(context.is_admin), s8);
    }
    lemma_claims_from_parts(
        s0,
        s1,
        s2,
        s3,
        s4,
        s5,
        s6,
        s7,
        s8,
        context,
        expires_at,
    );
}

/// Eight texts joined from the left are the same joined from the right.
proof fn lemma_fields_nest(
    f1: Seq<char>,
    f2: Seq<char>,
    f3: Seq<char>,
    f4: Seq<char>,
    f5: Seq<char>,
    f6: Seq<char>,
    f7: Seq<char>,
    f8: Seq<char>,
)
    ensures
        f1 + f2 + f3 + f4 + f5 + f6 + f7 + f8 == f1 + (f2 + (f3 + (f4 + (f5 + (f6 + (f7 + (f8
            + Seq::<char>::empty()))))))),
{
    let s7 = f8 + Seq::<char>::empty();
    let s6 = f7 + s7;
    let s5 = f6 + s6;
    let s4 = f5 + s5;
    let s3 = f4 + s4;
    let s2 = f3 + s3;
    let s1 = f2 + s2;
    assert(s7 =~= f8);
    assert(s6 =~= f7 + f8);
    assert(s5 =~= f6 + f7 + f8);
    assert(s4 =~= f5 + f6 + f7 + f8);
    assert(s3 =~= f4 + f5 + f6 + f7 + f8);
    assert(s2 =~= f3 + f4 + f5 + f6 + f7 + f8);
    assert(s1 =~= f2 + f3 + f4 + f5 + f6 + f7 + f8);
    assert(f1 + s1 =~= f1 + f2 + f3 + f4 + f5 + f6 + f7 + f8);
}

/// What reading a payload gives, from what reading each of its fields gives.
proof fn lemma_claims_from_parts(
    s0: Seq<char>,
    s1: Seq<char>,
    s2: Seq<char>,
    s3: Seq<char>,
    s4: Seq<char>,
    s5: Seq<char>,
    s6: Seq<char>,
    s7: Seq<char>,
    s8: Seq<char>,
    context: AuthContextView,
    expires_at: u64,
)
    requires
        take_word(s0) == Some((expires_at, s1)),
        take_text(s1) == Some((context.user_id, s2)),
        take_text(s2) == Some((context.username, s3)),
        take_option(s3) == Some((context.domain_id, s4)),
        take_list(s4) == Some((context.org_ids, s5)),
        take_list(s5) == Some((context.role_ids, s6)),
        take_word(s6) == Some((level_code(context.effective_level), s7)),
        take_word(s7) == Some((flag_code(context.is_admin), s8)),
        s8.len() == 0,
    ensures
        take_claims(s0) == Some((context, expires_at)),
{
}

/// The token for a payload and its signature.
pub open spec fn sealed_text(payload: Seq<char>, signature: Seq<char>) -> Seq<char> {
    text_field(payload) + signature
}

/// The token that an issuer with `secret` mints for a context that expires
/// at `expires_at`.
pub open spec fn token_text(secret: Seq<u8>, context: AuthContextView, expires_at: u64) -> Seq<
    char,
> {
    let payload = claims_text(context, expires_at);
    sealed_text(payload, hs256_signature(secret, payload))
}

/// What a payload gives at the instant `now`, once its signature has been
/// checked: `genuine` says whether the signature was the issuer's.
pub open spec fn accepted(payload: Seq<char>, genuine: bool, now: u64) -> Result<
    AuthContextView,
    TokenFault,
> {
    if !genuine {
        Err(TokenFault::BadSignature)
    } else {
        match take_claims(payload) {
            None => Err(TokenFault::Malformed),
            Some((context, expires_at)) => if expires_at <= now {
                Err(TokenFault::Expired)
            } else {
                Ok(context)
            },
        }
    }
}

/// What an issuer with `secret` reads from `token` at the instant `now`.
pub open spec fn read_token(secret: Seq<u8>, token: Seq<char>, now: u64) -> Result<
    AuthContextView,
    TokenFault,
> {
    match take_text(token) {
        None => Err(TokenFault::Malformed),
        Some((payload, signature)) => accepted(
            payload,
            signature == hs256_signature(secret, payload),
            now,
        ),
    }
}

/// Writes the payload for a context that expires at `expires_at`.
pub fn encode_claims(context: &AuthContext, expires_at: u64) -> (payload: String)
    ensures
        payload@ == claims_text(context.deep_view(), expires_at),
        encodable(context.deep_view()),
{
    let mut out = String::new();
    write_word(&mut out, expires_at);
    write_text(&mut out, context.user_id.as_str());
    write_text(&mut out, context.username.as_str());
    write_option(&mut out, &context.domain_id);
    write_list(&mut out, &context.org_ids);
    write_list(&mut out, &context.role_ids);
    let level: i64 = context.effective_level as i64 + 0x8000_0000;
    write_word(&mut out, level as u64);
    write_word(
        &mut out,
        if context.is_admin {
            1
        } else {
            0
        },
    );
    assert(out@ =~= claims_text(context.deep_view(), expires_at));
    out
}

/// Reads a payload.
pub fn decode_claims(payload: &str) -> (r: Option<(AuthContext, u64)>)
    ensures
        match r {
            Some((context, expires_at)) => take_claims(payload@) == Some(
                (context.deep_view(), expires_at),
            ),
            None => take_claims(payload@) is None,
        },
{
    let chars = chars_of(payload);
    assert(chars@.skip(0) =~= payload@);
    let (expires_at, pos1) = match read_word(&chars, 0) {
        Some(found) => found,
        None => return None,
    };
    let (user_id, pos2) = match read_text(&chars, pos1) {
        Some(found) => found,
        None => return None,
    };
    let (username, pos3) = match read_text(&chars, pos2) {
        Some(found) => found,
        None => return None,
    };
    let (domain_id, pos4) = match read_option(&chars, pos3) {
        Some(found) => found,
        None => return None,
    };
    let (org_ids, pos5) = match read_list(&chars, pos4) {
        Some(found) => found,
        None => return None,
    };
    let (role_ids, pos6) = match read_list(&chars, pos5) {
        Some(found) => found,
        None => return None,
    };
    let (level, pos7) = match read_word(&chars, pos6) {
        Some(found) => found,
        None => return None,
    };
    let (flag, pos8) = match read_word(&chars, pos7) {
        Some(found) => found,
        None => return None,
    };
    if level >= 0x1_0000_0000 || flag > 1 || pos8 != chars.len() {
        return None;
    }
    let effective_level: i32 = (level as i64 - 0x8000_0000) as i32;
    let context = AuthContext {
        user_id,
        username,
        domain_id,
        org_ids,
        role_ids,
        effective_level,
        is_admin: flag == 1,
    };
    Some((context, expires_at))
}

/// Puts a payload and its signature together into a token.
pub fn seal(payload: &str, signature: &str) -> (token: String)
    ensures
        token@ == sealed_text(payload@, signature@),
        payload@.len() <= u64::MAX,
{
    let mut token = String::new();
    write_text(&mut token, payload);
    token.append(signature);
    assert(token@ =~= sealed_text(payload@, signature@));
    token
}

/// Takes a token apart into its payload and its signature.
pub fn unseal(token: &str) -> (r: Option<(String, String)>)
    ensures
        match r {
            Some((payload, signature)) => take_text(token@) == Some((payload@, signature@)),
            None => take_text(token@) is None,
        },
{
    let chars = chars_of(token);
    assert(chars@.skip(0) =~= token@);
    match read_text(&chars, 0) {
        Some((payload, next)) => {
            let signature = crate::text::string_of(&chars, next, chars.len());
            assert(chars@.skip(next as int) =~= chars@.subrange(next as int, chars.len() as int));
            Some((payload, signature))
        },
        None => None,
    }
}

/// Reads the payload of a token whose signature has been checked; `genuine`
/// says whether the signature was the issuer's. A payload whose signature was
/// not the issuer's is not looked at.
pub fn accept(payload: &str, genuine: bool, now: u64) -> (r: Result<AuthContext, TokenFault>)
    ensures
        match r {
            Ok(context) => accepted(payload@, genuine, now) == Ok::<AuthContextView, TokenFault>(
                context.deep_view(),
            ),
            Err(fault) => accepted(payload@, genuine, now) == Err::<AuthContextView, TokenFault>(
                fault,
            ),
        },
{
    if !genuine {
        return Err(TokenFault::BadSignature);
    }
    match decode_claims(payload) {
        None => Err(TokenFault::Malformed),
        Some((context, expires_at)) => {
            if expires_at <= now {
                Err(TokenFault::Expired)
            } else {
                Ok(context)
            }
        },
    }
}

/// The issuer of tokens: the secret that signs them and the number of
/// seconds for which a token is good.
pub struct TokenIssuer {
    pub secret: Vec<u8>,
    pub lifetime: u64,
}

impl TokenIssuer {
    /// An issuer that signs with `secret` and whose tokens last `lifetime`
    /// seconds.
    pub fn new(secret: Vec<u8>, lifetime: u64) -> (issuer: TokenIssuer)
        ensures
            issuer.secret@ == secret@,
            issuer.lifetime == lifetime,
    {
        TokenIssuer { secret, lifetime }
    }

    /// The instant at which a token minted at `now` expires.
    pub open spec fn expiry(&self, now: u64) -> int {
        now + self.lifetime
    }

    /// What [`TokenIssuer::mint`] returns for a context at the instant `now`.
    pub open spec fn minted(&self, context: AuthContextView, now: u64) -> Result<
        Seq<char>,
        TokenFault,
    > {
        if self.expiry(now) <= u64::MAX {
            Ok(token_text(self.secret@, context, self.expiry(now) as u64))
        } else {
            Err(TokenFault::LifetimeOverflow)
        }
    }

    /// Mints the token for `context` at the instant `now`, in seconds since
    /// the epoch. It fails only if the expiration instant cannot be
    /// represented.
    pub fn mint(&self, context: &AuthContext, now: u64) -> (r: Result<String, TokenFault>)
        ensures
            r is Ok ==> mintable(context.deep_view(), self.expiry(now) as u64),
            match r {
                Ok(token) => self.minted(context.deep_view(), now) == Ok::<Seq<char>, TokenFault>(
                    token@,
                ),
                Err(fault) => self.minted(context.deep_view(), now) == Err::<
                    Seq<char>,
                    TokenFault,
                >(fault),
            },
    {
        if now > u64::MAX - self.lifetime {
            return Err(TokenFault::LifetimeOverflow);
        }
        let payload = encode_claims(context, now + self.lifetime);
        match sign_hs256(self.secret.as_slice(), payload.as_str()) {
            Ok(signature) => Ok(seal(payload.as_str(), signature.as_str())),
            Err(_) => Err(TokenFault::SignerFailed),
        }
    }

    /// Reads `token` at the instant `now`, in seconds since the epoch. The
    /// signature is checked first; the payload of a token that fails the
    /// check is not looked at.
    pub fn parse(&self, token: &str, now: u64) -> (r: Result<AuthContext, TokenFault>)
        ensures
            match r {
                Ok(context) => read_token(self.secret@, token@, now) == Ok::<
                    AuthContextView,
                    TokenFault,
                >(context.deep_view()),
                Err(fault) => read_token(self.secret@, token@, now) == Err::<
                    AuthContextView,
                    TokenFault,
                >(fault),
            },
    {
        match unseal(token) {
            None => Err(TokenFault::Malformed),
            Some((payload, signature)) => {
                match verify_hs256(
                    signature.as_str(),
                    self.secret.as_slice(),
                    payload.as_str(),
                ) {
                    Ok(genuine) => accept(payload.as_str(), genuine, now),
                    Err(_) => Err(TokenFault::SignerFailed),
                }
            },
        }
    }
}

/// A token that an issuer minted for a context gives that context back,
/// whole and unchanged, whenever the same issuer reads it before the token
/// expires.
pub proof fn law_token_round_trip(
    issuer: TokenIssuer,
    context: AuthContextView,
    minted_at: u64,
    read_at: u64,
)
    requires
        issuer.expiry(minted_at) <= u64::MAX,
        mintable(context, issuer.expiry(minted_at) as u64),
        read_at < issuer.expiry(minted_at),
    ensures
        issuer.minted(context, minted_at) is Ok,
        read_token(issuer.secret@, issuer.minted(context, minted_at)->Ok_0, read_at) == Ok::<
            AuthContextView,
            TokenFault,
        >(context),
{
    let expires_at = issuer.expiry(minted_at) as u64;
    let payload = claims_text(context, expires_at);
    let signature = hs256_signature(issuer.secret@, payload);
    lemma_take_text(payload, signature);
    lemma_claims_round_trip(context, expires_at);
}

/// A token whose signature is not the one that the issuer's secret gives for
/// its payload is refused as forged, whatever the payload says and whenever
/// it is read.
pub proof fn law_altered_signature_fails(
    secret: Seq<u8>,
    payload: Seq<char>,
    signature: Seq<char>,
    now: u64,
)
    requires
        payload.len() <= u64::MAX,
        signature != hs256_signature(secret, payload),
    ensures
        read_token(secret, sealed_text(payload, signature), now) == Err::<
            AuthContextView,
            TokenFault,
        >(TokenFault::BadSignature),
{
    lemma_take_text(payload, signature);
}

} // verus!

//! Access tokens: asking for them, reading the answer, and keeping them.

use crate::clock::{later_by, seconds_from, LATEST};
use crate::query::pair_texts;
use crate::spotify::model::TokenResponse;
use crate::spotify::state::{CachesView, SpotifyCaches, TokenCacheEntry, TokenView};
use crate::text::{contains, decimal, joined, occurs, shortened, snippet, to_decimal};
use vstd::prelude::*;
use vstd::string::*;
use vstd::utf8::encode_utf8;

verus! {

/// Tokens are replaced this many seconds before they expire.
pub const TOKEN_EXPIRY_SAFETY_MARGIN_SECS: u64 = 60;

/// The symbol of six bits in the standard Base64 alphabet.
pub open spec fn base64_symbol(n: int) -> char {
    if n < 26 {
        ((65 + n) as u8) as char
    } else if n < 52 {
        ((97 + n - 26) as u8) as char
    } else if n < 62 {
        ((48 + n - 52) as u8) as char
    } else if n == 62 {
        '+'
    } else {
        '/'
    }
}

/// The byte at a position, zero behind the end.
pub open spec fn byte_or_zero(bytes: Seq<u8>, i: int) -> int {
    if i < bytes.len() {
        bytes[i] as int
    } else {
        0
    }
}

/// The character at one of the four places that three bytes are written in:
/// padding where the bytes do not reach.
pub open spec fn base64_char(bytes: Seq<u8>, group: int, place: int) -> char {
    let at = 3 * group;
    let bits = byte_or_zero(bytes, at) * 65536 + byte_or_zero(bytes, at + 1) * 256 + byte_or_zero(
        bytes,
        at + 2,
    );
    if place == 0 {
        base64_symbol(bits / 262144)
    } else if place == 1 {
        base64_symbol(bits / 4096 % 64)
    } else if at + place > bytes.len() {
        '='
    } else if place == 2 {
        base64_symbol(bits / 64 % 64)
    } else {
        base64_symbol(bits % 64)
    }
}

/// Bytes in Base64, with padding.
pub open spec fn base64_text(bytes: Seq<u8>) -> Seq<char> {
    Seq::new(((bytes.len() + 2) / 3 * 4) as nat, |k: int| base64_char(bytes, k / 4, k % 4))
}

/// `base64::engine::general_purpose::STANDARD.encode`: the bytes of a text in
/// Base64, with the standard alphabet and padding.
#[verifier::external_body]
fn base64_encode(text: &str) -> (r: String)
    ensures
        r@ == base64_text(encode_utf8(text@)),
{
    base64::Engine::encode(&base64::engine::general_purpose::STANDARD, text)
}

/// The credentials of the app, as the token endpoint wants them.
pub open spec fn basic_credentials(client_id: Seq<char>, client_secret: Seq<char>) -> Seq<char> {
    "Basic "@ + base64_text(encode_utf8(client_id + ":"@ + client_secret))
}

/// The `Authorization` header of a request for a token.
pub fn basic_authorization(client_id: &str, client_secret: &str) -> (r: String)
    ensures
        r@ == basic_credentials(client_id@, client_secret@),
{
    let mut pair = joined(client_id, ":");
    pair.append(client_secret);
    joined("Basic ", base64_encode(pair.as_str()).as_str())
}

/// A failure of the token endpoint means that the refresh token itself is dead.
pub open spec fn is_revoked(body: Seq<char>) -> bool {
    occurs("invalid_grant"@, body)
}

/// True when a token-endpoint failure means the refresh token itself is dead
/// (revoked, or the user withdrew the app's access) rather than something
/// transient. Spotify signals this with OAuth's `invalid_grant`.
pub fn is_revoked_grant(body: &str) -> (r: bool)
    ensures
        r == is_revoked(body@),
{
    contains(body, "invalid_grant")
}

/// The credentials that are set for Spotify: those of the app, and the refresh token.
pub struct Credentials {
    pub client_id: Option<String>,
    pub client_secret: Option<String>,
    pub refresh_token: Option<String>,
}

/// What happened last while a token was asked for.
pub enum TokenEvent {
    /// A token is to be asked for.
    Start(Credentials),
    /// The form of the request could not be made.
    FormFailed(String),
    /// The token endpoint was not reached.
    Unreachable(String),
    /// It answered with a status.
    Answered { status: u16 },
    /// The body of a refusal was read, as far as it could be.
    Refused { status: u16, body: Option<String> },
    /// The body of a grant was parsed.
    Granted(Result<TokenResponse, String>),
}

/// A request for a token: a form that is posted.
pub struct TokenRequest {
    pub url: String,
    pub authorization: String,
    pub content_type: String,
    pub form: Vec<(String, String)>,
}

/// The model of [`TokenRequest`].
#[verifier::ext_equal]
pub struct TokenRequestView {
    pub url: Seq<char>,
    pub authorization: Seq<char>,
    pub content_type: Seq<char>,
    pub form: Seq<(Seq<char>, Seq<char>)>,
}

impl View for TokenRequest {
    type V = TokenRequestView;

    open spec fn view(&self) -> TokenRequestView {
        TokenRequestView {
            url: self.url@,
            authorization: self.authorization@,
            content_type: self.content_type@,
            form: pair_texts(self.form@),
        }
    }
}

/// What is to be done next: in the end, a token and its lifetime in seconds.
pub enum TokenStep {
    /// Post the form.
    Send(TokenRequest),
    /// Read the body of a refusal.
    ReadRefusal { status: u16 },
    /// Parse the body of a grant.
    ParseGrant,
    Done(Result<(String, u64), String>),
}

/// The model of [`TokenStep`].
#[verifier::ext_equal]
pub enum TokenStepView {
    Send(TokenRequestView),
    ReadRefusal { status: u16 },
    ParseGrant,
    Done(Result<(Seq<char>, u64), Seq<char>>),
}

impl View for TokenStep {
    type V = TokenStepView;

    open spec fn view(&self) -> TokenStepView {
        match *self {
            TokenStep::Send(request) => TokenStepView::Send(request@),
            TokenStep::ReadRefusal { status } => TokenStepView::ReadRefusal { status },
            TokenStep::ParseGrant => TokenStepView::ParseGrant,
            TokenStep::Done(r) => TokenStepView::Done(grant_view(r)),
        }
    }
}

/// The outcome of asking for a token, in its models.
pub open spec fn grant_view(r: Result<(String, u64), String>) -> Result<
    (Seq<char>, u64),
    Seq<char>,
> {
    match r {
        Ok((token, lifetime)) => Ok((token@, lifetime)),
        Err(e) => Err(e@),
    }
}

/// A status of success.
pub open spec fn is_success(status: u16) -> bool {
    200 <= status < 300
}

/// What is said of a refusal of the token endpoint.
pub open spec fn refusal_message(status: u16, body: Seq<char>) -> Seq<char> {
    if is_revoked(body) {
        "Refresh token is no longer valid (HTTP "@ + decimal(status as nat) + " - "@ + shortened(
            body,
            300,
        ) + "). This needs a human: re-run `python3 spotify_reauth.py --write-env` as the account owner and restart the service."@
    } else {
        "Token refresh failed: HTTP "@ + decimal(status as nat) + " - "@ + shortened(body, 500)
    }
}

/// The body of a refusal, or that it is unknown.
pub open spec fn body_or_unknown(body: Option<String>) -> Seq<char> {
    match body {
        Some(text) => text@,
        None => "Unknown error"@,
    }
}

/// The request that exchanges a refresh token.
pub open spec fn exchange(
    client_id: Seq<char>,
    client_secret: Seq<char>,
    refresh_token: Seq<char>,
) -> TokenRequestView {
    TokenRequestView {
        url: "https://accounts.spotify.com/api/token"@,
        authorization: basic_credentials(client_id, client_secret),
        content_type: "application/x-www-form-urlencoded"@,
        form: seq![
            ("grant_type"@, "refresh_token"@),
            ("refresh_token"@, refresh_token),
        ],
    }
}

/// What is to be done behind each event of asking for a token.
pub open spec fn token_step(event: TokenEvent) -> TokenStepView {
    match event {
        TokenEvent::Start(credentials) => match (
            credentials.client_id,
            credentials.client_secret,
            credentials.refresh_token,
        ) {
            (Some(client_id), Some(client_secret), Some(refresh_token)) => TokenStepView::Send(
                exchange(client_id@, client_secret@, refresh_token@),
            ),
            (None, _, _) => TokenStepView::Done(Err("SPOTIFY_CLIENT_ID must be set."@)),
            (_, None, _) => TokenStepView::Done(Err("SPOTIFY_CLIENT_SECRET must be set."@)),
            _ => TokenStepView::Done(Err("SPOTIFY_REFRESH_TOKEN must be set."@)),
        },
        TokenEvent::FormFailed(e) => TokenStepView::Done(
            Err("Failed to create request body: "@ + e@),
        ),
        TokenEvent::Unreachable(e) => TokenStepView::Done(
            Err("Failed to reach accounts.spotify.com: "@ + e@),
        ),
        TokenEvent::Answered { status } => if is_success(status) {
            TokenStepView::ParseGrant
        } else {
            TokenStepView::ReadRefusal { status }
        },
        TokenEvent::Refused { status, body } => TokenStepView::Done(
            Err(refusal_message(status, body_or_unknown(body))),
        ),
        TokenEvent::Granted(Ok(grant)) => TokenStepView::Done(
            Ok(
                (
                    grant.access_token@,
                    match grant.expires_in {
                        Some(secs) => secs,
                        None => 3600,
                    },
                ),
            ),
        ),
        TokenEvent::Granted(Err(e)) => TokenStepView::Done(
            Err("Token refresh returned unparseable JSON: "@ + e@),
        ),
    }
}

fn describe_refusal(status: u16, body: &str) -> (r: String)
    ensures
        r@ == refusal_message(status, body@),
{
    let status_text = to_decimal(status as u64);
    if is_revoked_grant(body) {
        let mut message = joined("Refresh token is no longer valid (HTTP ", status_text.as_str());
        message.append(" - ");
        message.append(snippet(body, 300).as_str());
        message.append(
            "). This needs a human: re-run `python3 spotify_reauth.py --write-env` as the account owner and restart the service.",
        );
        message
    } else {
        let mut message = joined("Token refresh failed: HTTP ", status_text.as_str());
        message.append(" - ");
        message.append(snippet(body, 500).as_str());
        message
    }
}

fn make_exchange(client_id: &str, client_secret: &str, refresh_token: String) -> (r: TokenRequest)
    ensures
        r@ == exchange(client_id@, client_secret@, refresh_token@),
{
    let mut form: Vec<(String, String)> = Vec::new();
    form.push(("grant_type".to_owned(), "refresh_token".to_owned()));
    form.push(("refresh_token".to_owned(), refresh_token));
    assert(pair_texts(form@) =~= seq![
        ("grant_type"@, "refresh_token"@),
        ("refresh_token"@, refresh_token@),
    ]);
    TokenRequest {
        url: "https://accounts.spotify.com/api/token".to_owned(),
        authorization: basic_authorization(client_id, client_secret),
        content_type: "application/x-www-form-urlencoded".to_owned(),
        form,
    }
}

/// Takes a request for a new token from what happened last to what is to be done
/// next. Errors carry the status and the body, so that the cause is visible.
pub fn request_new_token(event: TokenEvent) -> (r: TokenStep)
    ensures
        r@ == token_step(event),
{
    match event {
        TokenEvent::Start(credentials) => match (
            credentials.client_id,
            credentials.client_secret,
            credentials.refresh_token,
        ) {
            (Some(client_id), Some(client_secret), Some(refresh_token)) => TokenStep::Send(
                make_exchange(client_id.as_str(), client_secret.as_str(), refresh_token),
            ),
            (None, _, _) => TokenStep::Done(Err("SPOTIFY_CLIENT_ID must be set.".to_owned())),
            (_, None, _) => TokenStep::Done(Err("SPOTIFY_CLIENT_SECRET must be set.".to_owned())),
            _ => TokenStep::Done(Err("SPOTIFY_REFRESH_TOKEN must be set.".to_owned())),
        },
        TokenEvent::FormFailed(e) => TokenStep::Done(
            Err(joined("Failed to create request body: ", e.as_str())),
        ),
        TokenEvent::Unreachable(e) => TokenStep::Done(
            Err(joined("Failed to reach accounts.spotify.com: ", e.as_str())),
        ),
        TokenEvent::Answered { status } => {
            if 200 <= status && status < 300 {
                TokenStep::ParseGrant
            } else {
                TokenStep::ReadRefusal { status }
            }
        },
        TokenEvent::Refused { status, body } => {
            let text = match body {
                Some(text) => text,
                None => "Unknown error".to_owned(),
            };
            TokenStep::Done(Err(describe_refusal(status, text.as_str())))
        },
        TokenEvent::Granted(Ok(grant)) => {
            let lifetime: u64 = match grant.expires_in {
                Some(secs) => secs,
                None => 3600,
            };
            TokenStep::Done(Ok((grant.access_token, lifetime)))
        },
        TokenEvent::Granted(Err(e)) => TokenStep::Done(
            Err(joined("Token refresh returned unparseable JSON: ", e.as_str())),
        ),
    }
}

/// How long a token is used that expires in so many seconds: a minute less, but at
/// least half a minute.
pub open spec fn used_for(expires_in: nat) -> nat {
    if expires_in >= 90 {
        (expires_in - 60) as nat
    } else {
        30
    }
}

/// The token that is still of use.
pub open spec fn usable_token(caches: CachesView, now: nat) -> Option<Seq<char>> {
    match caches.token {
        Some(entry) => if now < entry.expires_at {
            Some(entry.access_token)
        } else {
            None
        },
        None => None,
    }
}

/// The caches with a new token.
pub open spec fn with_token(
    caches: CachesView,
    token: Seq<char>,
    expires_in: nat,
    now: nat,
) -> CachesView {
    CachesView {
        token: Some(
            TokenView { access_token: token, expires_at: later_by(now, used_for(expires_in)) },
        ),
        ..caches
    }
}

/// What happened last while a token was needed.
pub enum AccessEvent {
    /// It is needed now.
    Start,
    /// A new one was asked for.
    Requested(Result<(String, u64), String>),
}

/// What is to be done next.
pub enum AccessStep {
    /// Ask for a new token.
    RequestToken,
    Done(Result<String, String>),
}

/// Gives the cached token, or takes a new one in.
pub fn get_access_token(caches: &mut SpotifyCaches, now: u128, event: AccessEvent) -> (r: AccessStep)
    requires
        now <= LATEST,
    ensures
        match event {
            AccessEvent::Start => {
                &&& final(caches)@ == old(caches)@
                &&& match usable_token(old(caches)@, now as nat) {
                    Some(token) => r matches AccessStep::Done(Ok(t)) && t@ == token,
                    None => r is RequestToken,
                }
            },
            AccessEvent::Requested(Ok((token, expires_in))) => {
                &&& final(caches)@ == with_token(
                    old(caches)@,
                    token@,
                    expires_in as nat,
                    now as nat,
                )
                &&& r matches AccessStep::Done(Ok(t)) && t@ == token@
            },
            AccessEvent::Requested(Err(e)) => {
                &&& final(caches)@ == old(caches)@
                &&& r == AccessStep::Done(Err(e))
            },
        },
{
    match event {
        AccessEvent::Start => {
            if let Some(entry) = &caches.token {
                if now < entry.expires_at {
                    return AccessStep::Done(Ok(entry.access_token.clone()));
                }
            }
            AccessStep::RequestToken
        },
        AccessEvent::Requested(Ok((token, expires_in))) => {
            let margin: u64 = if expires_in >= TOKEN_EXPIRY_SAFETY_MARGIN_SECS {
                expires_in - TOKEN_EXPIRY_SAFETY_MARGIN_SECS
            } else {
                0
            };
            let lifetime: u64 = if margin >= 30 {
                margin
            } else {
                30
            };
            caches.token = Some(
                TokenCacheEntry {
                    access_token: token.clone(),
                    expires_at: seconds_from(now, lifetime),
                },
            );
            AccessStep::Done(Ok(token))
        },
        AccessEvent::Requested(Err(e)) => AccessStep::Done(Err(e)),
    }
}

/// A new token is used until a minute before it expires, and for half a minute at
/// least; not longer.
pub proof fn tokens_are_reused(
    caches: CachesView,
    token: Seq<char>,
    expires_in: nat,
    granted_at: nat,
    now: nat,
)
    ensures
        usable_token(with_token(caches, token, expires_in, granted_at), now) == (if now
            < granted_at + used_for(expires_in) * 1_000_000_000 {
            Some(token)
        } else {
            None
        }),
        expires_in >= 90 ==> used_for(expires_in) + 60 == expires_in,
        used_for(expires_in) >= 30,
{
}

/// A forgotten token is not used again.
pub proof fn invalidated_tokens_are_not_used(caches: CachesView, now: nat)
    ensures
        usable_token(crate::spotify::state::without_token(caches), now) is None,
{
}

/// A token of a given lifetime is used from when it was granted for a minute less than
/// that, or for half a minute where that would be shorter.
pub proof fn tokens_are_used_for_their_time(
    caches: CachesView,
    token: Seq<char>,
    expires_in: nat,
    granted_at: nat,
    age: nat,
)
    ensures
        age < 30 * 1_000_000_000 ==> usable_token(
            with_token(caches, token, expires_in, granted_at),
            granted_at + age,
        ) == Some(token),
        age >= 30 * 1_000_000_000 ==> (usable_token(
            with_token(caches, token, expires_in, granted_at),
            granted_at + age,
        ) == Some(token) <==> age + 60 * 1_000_000_000 < expires_in * 1_000_000_000),
        usable_token(with_token(caches, token, expires_in, granted_at), granted_at + age) is Some
            ==> usable_token(with_token(caches, token, expires_in, granted_at), granted_at + age)
            == Some(token),
{
}

/// To keep a token changes nothing else that is remembered.
pub proof fn keeping_a_token_changes_nothing_else(
    caches: CachesView,
    token: Seq<char>,
    expires_in: nat,
    now: nat,
)
    ensures
        with_token(caches, token, expires_in, now).tracks == caches.tracks,
        with_token(caches, token, expires_in, now).genres == caches.genres,
        with_token(caches, token, expires_in, now).disabled_until == caches.disabled_until,
        usable_token((CachesView { token: None, ..caches }), now) is None,
{
}

/// A request for a token is sent exactly if the three credentials are there, and then
/// it carries them: the refresh token in its form, the others in its header.
pub proof fn requests_carry_the_credentials(credentials: Credentials)
    ensures
        token_step(TokenEvent::Start(credentials)) is Send <==> credentials.client_id is Some
            && credentials.client_secret is Some && credentials.refresh_token is Some,
        token_step(TokenEvent::Start(credentials)) matches TokenStepView::Send(request) ==> {
            &&& request.form.len() == 2
            &&& request.form[0] == ("grant_type"@, "refresh_token"@)
            &&& request.form[1] == ("refresh_token"@, credentials.refresh_token->0@)
            &&& request.authorization == "Basic "@ + base64_text(
                encode_utf8(credentials.client_id->0@ + ":"@ + credentials.client_secret->0@),
            )
            &&& request.url == "https://accounts.spotify.com/api/token"@
            &&& request.content_type == "application/x-www-form-urlencoded"@
        },
        token_step(TokenEvent::Start(credentials)) !is Send ==> (token_step(
            TokenEvent::Start(credentials),
        ) matches TokenStepView::Done(Err(_))),
{
}

/// An answer of success is parsed, and gives the token and the lifetime in it, an hour
/// where it names none; of any other answer the body is read, and gives an error.
pub proof fn answers_give_a_token_or_an_error(
    status: u16,
    grant: TokenResponse,
    error: String,
    body: Option<String>,
)
    ensures
        200 <= status <= 299 ==> token_step(TokenEvent::Answered { status })
            == TokenStepView::ParseGrant,
        !(200 <= status <= 299) ==> token_step(TokenEvent::Answered { status }) == (
        TokenStepView::ReadRefusal { status }),
        grant.expires_in matches Some(secs) ==> token_step(TokenEvent::Granted(Ok(grant)))
            == TokenStepView::Done(Ok((grant.access_token@, secs))),
        grant.expires_in is None ==> token_step(TokenEvent::Granted(Ok(grant)))
            == TokenStepView::Done(Ok((grant.access_token@, 3600))),
        token_step(TokenEvent::Granted(Err(error))) == TokenStepView::Done(
            Err("Token refresh returned unparseable JSON: "@ + error@),
        ),
        token_step(TokenEvent::FormFailed(error)) == TokenStepView::Done(
            Err("Failed to create request body: "@ + error@),
        ),
        token_step(TokenEvent::Unreachable(error)) == TokenStepView::Done(
            Err("Failed to reach accounts.spotify.com: "@ + error@),
        ),
        token_step(TokenEvent::Refused { status, body }) matches TokenStepView::Done(Err(_)),
{
}

/// A refusal whose body names `invalid_grant`, wherever it stands, is told as a refresh
/// token that is no longer valid; any other as a failure. Both tell the status and the
/// beginning of the body.
pub proof fn refusals_are_told(status: u16, front: Seq<char>, back: Seq<char>, body: Seq<char>)
    ensures
        is_revoked(front + "invalid_grant"@ + back),
        is_revoked(body) ==> refusal_message(status, body)
            == "Refresh token is no longer valid (HTTP "@ + decimal(status as nat) + " - "@
            + shortened(body, 300)
            + "). This needs a human: re-run `python3 spotify_reauth.py --write-env` as the account owner and restart the service."@,
        !is_revoked(body) ==> refusal_message(status, body) == "Token refresh failed: HTTP "@
            + decimal(status as nat) + " - "@ + shortened(body, 500),
        is_revoked(body) ==> exists|a: Seq<char>, b: Seq<char>|
            body == #[trigger] (a + "invalid_grant"@ + b),
{
    crate::text::parts_occur(front, "invalid_grant"@, back);
    if is_revoked(body) {
        crate::text::what_occurs_is_a_part("invalid_grant"@, body);
    }
}

} // verus!

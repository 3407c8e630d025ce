//! HTTP Basic credentials and the access decision made on every request.
use vstd::prelude::*;
use crate::permissions::{Action, allowed, has_permission, tag_view};
use crate::state::{User, UserView};
use crate::text::{pair_view, seq_starts_with, split_at_sole, split_sole, str_starts_with};
use crate::users::{UserStore, credentials_match};

verus! {

/// The bytes that standard base64 text decodes to, or `None` where it is
/// not valid base64.
pub uninterp spec fn base64_decoded(text: Seq<char>) -> Option<Seq<u8>>;

/// The text that bytes decode to as UTF-8, or `None` where they are not
/// valid UTF-8.
pub uninterp spec fn utf8_decoded(bytes: Seq<u8>) -> Option<Seq<char>>;

/// Relies on base64's `Engine::decode` with the standard alphabet and
/// padding (`BASE64_STANDARD`).
#[verifier::external_body]
fn decode_base64(text: &str) -> (r: Option<Vec<u8>>)
    ensures
        match r {
            Some(b) => base64_decoded(text@) == Some(b@),
            None => base64_decoded(text@) is None,
        },
{
    base64::Engine::decode(&base64::prelude::BASE64_STANDARD, text).ok()
}

/// Relies on std's `String::from_utf8`.
#[verifier::external_body]
fn decode_utf8(bytes: Vec<u8>) -> (r: Option<String>)
    ensures
        match r {
            Some(s) => utf8_decoded(bytes@) == Some(s@),
            None => utf8_decoded(bytes@) is None,
        },
{
    String::from_utf8(bytes).ok()
}

/// `s` with every leading repetition of `p` removed.
pub open spec fn trim_start_all(s: Seq<char>, p: Seq<char>) -> Seq<char>
    decreases s.len(),
{
    if p.len() > 0 && seq_starts_with(s, p) {
        trim_start_all(s.skip(p.len() as int), p)
    } else {
        s
    }
}

/// The scheme prefix of a Basic authorization value.
pub open spec fn basic_prefix() -> Seq<char> {
    "Basic "@
}

/// The credentials that an authorization header value carries.
pub open spec fn header_credentials(value: Seq<char>) -> Option<(Seq<char>, Seq<char>)> {
    match base64_decoded(trim_start_all(value, basic_prefix())) {
        Some(bytes) => match utf8_decoded(bytes) {
            Some(text) => split_sole(text, ':'),
            None => None,
        },
        None => None,
    }
}

/// Splits decoded `user:password` text at its only colon; text with no
/// colon or more than one is refused.
pub fn credentials_from_text(text: &str) -> (r: Option<(String, String)>)
    ensures
        pair_view(r) == split_sole(text@, ':'),
{
    split_at_sole(text, ':')
}

/// `s` with every leading repetition of `Basic ` removed.
fn trim_basic(s: &str) -> (r: &str)
    ensures
        r@ == trim_start_all(s@, basic_prefix()),
{
    proof {
        reveal_strlit("Basic ");
    }
    let mut rest = s;
    while str_starts_with(rest, "Basic ")
        invariant
            trim_start_all(rest@, basic_prefix()) == trim_start_all(s@, basic_prefix()),
            basic_prefix().len() == 6,
        decreases rest@.len(),
    {
        let n = rest.unicode_len();
        rest = rest.substring_char(6, n);
    }
    rest
}

/// The user name and password that an `Authorization: Basic ...` value
/// carries: base64 of UTF-8 `user:password` with exactly one colon.
pub fn parse_basic_credentials(value: &str) -> (r: Option<(String, String)>)
    ensures
        pair_view(r) == header_credentials(value@),
{
    let encoded = trim_basic(value);
    let bytes = match decode_base64(encoded) {
        Some(b) => b,
        None => return None,
    };
    let text = match decode_utf8(bytes) {
        Some(t) => t,
        None => return None,
    };
    credentials_from_text(text.as_str())
}

/// What a request may do.
#[derive(Debug)]
pub enum AccessDecision {
    /// The credentials name this user, who holds the permission.
    Allowed(User),
    /// No credentials, or none that match a user: 401.
    Unauthorized,
    /// A known user without the permission: 403.
    Forbidden,
}

/// The first user whose credentials match, if any.
pub open spec fn first_match(users: Seq<UserView>, creds: (Seq<char>, Seq<char>)) -> Option<
    UserView,
> {
    if exists|i: int| 0 <= i < users.len() && credentials_match(#[trigger] users[i], creds.0, creds.1) {
        let i = choose|i: int|
            0 <= i < users.len() && credentials_match(#[trigger] users[i], creds.0, creds.1)
                && forall|j: int| 0 <= j < i ==> !credentials_match(#[trigger] users[j], creds.0, creds.1);
        Some(users[i])
    } else {
        None
    }
}

/// The decision for credentials `creds` (if any were given) on a request.
pub open spec fn decision(
    users: Seq<UserView>,
    creds: Option<(Seq<char>, Seq<char>)>,
    repository: Seq<char>,
    tag: Option<Seq<char>>,
    action: Action,
) -> Option<Option<UserView>> {
    match creds {
        None => None,
        Some(c) => match first_match(users, c) {
            None => None,
            Some(u) => if allowed(u, repository, tag, action) {
                Some(Some(u))
            } else {
                Some(None)
            },
        },
    }
}

/// The spec form of a decision: `None` for 401, `Some(None)` for 403, and
/// `Some(Some(user))` for an allowed request.
pub open spec fn decision_view(d: AccessDecision) -> Option<Option<UserView>> {
    match d {
        AccessDecision::Unauthorized => None,
        AccessDecision::Forbidden => Some(None),
        AccessDecision::Allowed(u) => Some(Some(u@)),
    }
}

impl AccessDecision {
    /// The HTTP status of a refusal; 200 for an allowed request.
    pub fn status_code(&self) -> (r: u16)
        ensures
            r == match *self {
                AccessDecision::Allowed(_) => 200u16,
                AccessDecision::Unauthorized => 401u16,
                AccessDecision::Forbidden => 403u16,
            },
    {
        match self {
            AccessDecision::Allowed(_) => 200,
            AccessDecision::Unauthorized => 401,
            AccessDecision::Forbidden => 403,
        }
    }
}

/// The user that the credentials (if any) name in `store`.
pub fn authenticate_user(store: &UserStore, credentials: Option<(String, String)>) -> (r: Option<
    User,
>)
    ensures
        match pair_view(credentials) {
            None => r is None,
            Some(c) => match r {
                Some(u) => first_match(store@, c) == Some(u@),
                None => first_match(store@, c) is None,
            },
        },
{
    let (username, password) = match credentials {
        Some(c) => c,
        None => return None,
    };
    let ghost creds = (username@, password@);
    let found = store.authenticate(username.as_str(), password.as_str());
    proof {
        if found is Some {
            let user = found->0;
            let i = choose|i: int|
                0 <= i < store@.len() && credentials_match(#[trigger] store@[i], creds.0, creds.1)
                    && user@ == store@[i] && forall|j: int|
                    0 <= j < i ==> !credentials_match(#[trigger] store@[j], creds.0, creds.1);
            let k = choose|k: int|
                0 <= k < store@.len() && credentials_match(#[trigger] store@[k], creds.0, creds.1)
                    && forall|j: int| 0 <= j < k ==> !credentials_match(#[trigger] store@[j], creds.0, creds.1);
            if i < k {
                assert(!credentials_match(store@[i], creds.0, creds.1));
            } else if k < i {
                assert(!credentials_match(store@[k], creds.0, creds.1));
            }
        }
    }
    found
}

/// Authenticates the credentials against `store`, then checks `action` on
/// `repository` (and `tag`, where the operation names one).
pub fn check_permission(
    store: &UserStore,
    credentials: Option<(String, String)>,
    repository: &str,
    tag: Option<&str>,
    action: Action,
) -> (r: AccessDecision)
    ensures
        decision_view(r) == decision(store@, pair_view(credentials), repository@, tag_view(tag), action),
{
    match authenticate_user(store, credentials) {
        None => AccessDecision::Unauthorized,
        Some(user) => {
            if has_permission(&user, repository, tag, action) {
                AccessDecision::Allowed(user)
            } else {
                AccessDecision::Forbidden
            }
        },
    }
}

/// Missing or unknown credentials are answered 401; a known user without
/// the permission is answered 403; otherwise the request is allowed.
pub proof fn lemma_access_outcomes(
    users: Seq<UserView>,
    creds: (Seq<char>, Seq<char>),
    repository: Seq<char>,
    tag: Option<Seq<char>>,
    action: Action,
)
    ensures
        decision(users, None, repository, tag, action) is None,
        first_match(users, creds) is None ==> decision(users, Some(creds), repository, tag, action)
            is None,
        forall|u: UserView|
            first_match(users, creds) == Some(u) ==> decision(
                users,
                Some(creds),
                repository,
                tag,
                action,
            ) == if allowed(u, repository, tag, action) {
                Some(Some(u))
            } else {
                Some(None::<UserView>)
            },
{
}

} // verus!

//! The authentication crumb: when it must be fetched again, which of the
//! two ways of fetching it is tried, and how an answer is judged.

use vstd::prelude::*;
use vstd::string::*;
use crate::error::YahooError;
use crate::client::requests::{param, params_view};
use crate::text::{contains, spec_contains, spec_trim, trim};

verus! {

/// The browser identity sent with every authentication request.
pub const USER_AGENT: &'static str = "Mozilla/5.0 (Windows NT 10.0; Win64; x64) AppleWebKit/537.36 (KHTML, like Gecko) Chrome/122.0.0.0 Safari/537.36";

/// The page visited first on the basic path, to receive session cookies.
pub const BASIC_COOKIE_URL: &'static str = "https://fc.yahoo.com";

/// Where the basic path asks for the crumb.
pub const BASIC_CRUMB_URL: &'static str = "https://query1.finance.yahoo.com/v1/test/getcrumb";

/// The consent page read on the consent path.
pub const CONSENT_PAGE_URL: &'static str = "https://guce.yahoo.com/consent";

/// Where the consent path asks for the crumb.
pub const CSRF_CRUMB_URL: &'static str = "https://query2.finance.yahoo.com/v1/test/getcrumb";

/// The pattern whose first group is the CSRF token of the consent form.
pub const CSRF_TOKEN_PATTERN: &'static str = "name=\"csrfToken\"[^>]*value=\"([^\"]+)\"";

/// The pattern whose first group is the session id of the consent form.
pub const SESSION_ID_PATTERN: &'static str = "name=\"sessionId\"[^>]*value=\"([^\"]+)\"";

/// A cached crumb is used for at most this many seconds.
pub const MIN_REFRESH_INTERVAL_SECS: i64 = 30;

/// How a crumb is obtained: straight from the crumb endpoint, or after
/// passing through the consent form.
#[derive(Debug, Clone, Copy, PartialEq, Eq, Structural)]
pub enum CookieStrategy {
    Basic,
    Csrf,
}

impl CookieStrategy {
    /// The other strategy.
    pub open spec fn spec_flipped(self) -> CookieStrategy {
        match self {
            CookieStrategy::Basic => CookieStrategy::Csrf,
            CookieStrategy::Csrf => CookieStrategy::Basic,
        }
    }

    /// The other strategy.
    pub fn flipped(self) -> (s: CookieStrategy)
        ensures
            s == self.spec_flipped(),
    {
        match self {
            CookieStrategy::Basic => CookieStrategy::Csrf,
            CookieStrategy::Csrf => CookieStrategy::Basic,
        }
    }
}

impl Default for CookieStrategy {
    fn default() -> (s: CookieStrategy)
        ensures
            s == CookieStrategy::Basic,
    {
        CookieStrategy::Basic
    }
}

/// What the authentication manager remembers: the crumb, when it was
/// obtained (Unix time in milliseconds) and the strategy that obtained it.
pub struct AuthState {
    pub crumb: Option<String>,
    pub last_update_ms: Option<i64>,
    pub strategy: CookieStrategy,
}

impl AuthState {
    /// Nothing obtained yet; the basic strategy comes first.
    pub fn new() -> (s: AuthState)
        ensures
            s.crumb is None,
            s.last_update_ms is None,
            s.strategy == CookieStrategy::Basic,
    {
        AuthState { crumb: None, last_update_ms: None, strategy: CookieStrategy::default() }
    }

    /// A crumb must be fetched before use: there is none, or it is more than
    /// `MIN_REFRESH_INTERVAL_SECS` whole seconds old.
    pub open spec fn spec_needs_refresh(self, now_ms: i64) -> bool {
        ||| self.crumb is None
        ||| self.last_update_ms is None
        ||| now_ms - self.last_update_ms->0 >= (MIN_REFRESH_INTERVAL_SECS + 1) * 1000
    }

    /// Whether a crumb must be fetched before use at time `now_ms`.
    pub fn needs_refresh(&self, now_ms: i64) -> (r: bool)
        ensures
            r == self.spec_needs_refresh(now_ms),
    {
        match (&self.crumb, self.last_update_ms) {
            (Some(_), Some(last)) => {
                let age: i128 = now_ms as i128 - last as i128;
                age >= ((MIN_REFRESH_INTERVAL_SECS + 1) * 1000) as i128
            },
            _ => true,
        }
    }

    /// Keeps a freshly obtained crumb, with its time and strategy.
    pub fn record_refresh(&mut self, crumb: String, now_ms: i64, strategy: CookieStrategy)
        ensures
            final(self).crumb matches Some(c) && c@ == crumb@,
            final(self).last_update_ms == Some(now_ms),
            final(self).strategy == strategy,
    {
        self.crumb = Some(crumb);
        self.last_update_ms = Some(now_ms);
        self.strategy = strategy;
    }

    /// Switches to the other strategy and forgets the crumb, so that the
    /// next use fetches one the other way.
    pub fn switch_strategy(&mut self)
        ensures
            final(self).strategy == old(self).strategy.spec_flipped(),
            final(self).crumb is None,
            final(self).last_update_ms is None,
    {
        self.strategy = self.strategy.flipped();
        self.crumb = None;
        self.last_update_ms = None;
    }

    /// The crumb to use, or an authentication error when there is none.
    pub fn current_crumb(&self) -> (r: Result<String, YahooError>)
        ensures
            match self.crumb {
                Some(c) => r matches Ok(s) && s@ == c@,
                None => r matches Err(YahooError::AuthFailed(m)) && m@ == "No crumb available"@,
            },
    {
        match &self.crumb {
            Some(c) => Ok(c.clone()),
            None => Err(YahooError::AuthFailed("No crumb available".to_owned())),
        }
    }
}

/// The attempts of one refresh: the strategy in force is tried first, and
/// after a failure the other one, once.
pub struct RefreshAttempts {
    pub next: CookieStrategy,
    pub tried: u8,
    pub last_error: Option<YahooError>,
}

impl RefreshAttempts {
    /// Attempts that start with `strategy`.
    pub fn start(strategy: CookieStrategy) -> (a: RefreshAttempts)
        ensures
            a.next == strategy,
            a.tried == 0,
            a.last_error is None,
    {
        RefreshAttempts { next: strategy, tried: 0, last_error: None }
    }

    /// The strategy to try now, or nothing once two attempts have failed.
    pub fn next_strategy(&self) -> (r: Option<CookieStrategy>)
        ensures
            self.tried < 2 ==> r == Some(self.next),
            self.tried >= 2 ==> r is None,
    {
        if self.tried < 2 {
            Some(self.next)
        } else {
            None
        }
    }

    /// Notes that the attempt with `next` failed with `err`: the other
    /// strategy is next.
    pub fn record_failure(&mut self, err: YahooError)
        requires
            old(self).tried < 2,
        ensures
            final(self).tried == old(self).tried + 1,
            final(self).next == old(self).next.spec_flipped(),
            final(self).last_error == Some(err),
    {
        self.tried = self.tried + 1;
        self.next = self.next.flipped();
        self.last_error = Some(err);
    }

    /// The error a refresh ends with when no attempt succeeded: that of the
    /// last attempt.
    pub fn into_error(self) -> (e: YahooError)
        ensures
            match self.last_error {
                Some(l) => e == l,
                None => e matches YahooError::AuthFailed(m) && m@
                    == "Failed to obtain Yahoo crumb with all strategies"@,
            },
    {
        match self.last_error {
            Some(e) => e,
            None => YahooError::AuthFailed(
                "Failed to obtain Yahoo crumb with all strategies".to_owned(),
            ),
        }
    }
}

/// A crumb answer is usable: not empty, and neither an HTML page nor a
/// refusal.
pub open spec fn spec_is_valid_crumb(c: Seq<char>) -> bool {
    &&& c.len() > 0
    &&& !spec_contains(c, "<html"@)
    &&& !spec_contains(c, "Unauthorized"@)
    &&& !spec_contains(c, "Too Many Requests"@)
}

/// Whether a crumb answer is usable.
pub fn is_valid_crumb(crumb: &str) -> (r: bool)
    ensures
        r == spec_is_valid_crumb(crumb@),
{
    crumb.unicode_len() > 0 && !contains(crumb, "<html") && !contains(crumb, "Unauthorized")
        && !contains(crumb, "Too Many Requests")
}

/// The message for an unusable crumb answer on each path.
pub open spec fn spec_invalid_crumb_message(strategy: CookieStrategy) -> Seq<char> {
    match strategy {
        CookieStrategy::Basic => "Invalid crumb from query1 endpoint"@,
        CookieStrategy::Csrf => "Invalid crumb from query2 endpoint"@,
    }
}

/// Judges the body of a crumb answer obtained with `strategy`: the trimmed
/// text when it is usable, an authentication error otherwise.
pub fn accept_crumb(body: &str, strategy: CookieStrategy) -> (r: Result<String, YahooError>)
    ensures
        spec_is_valid_crumb(spec_trim(body@)) ==> (r matches Ok(c) && c@ == spec_trim(body@)),
        !spec_is_valid_crumb(spec_trim(body@)) ==> (r matches Err(YahooError::AuthFailed(m)) && m@
            == spec_invalid_crumb_message(strategy)),
{
    let t = trim(body);
    if is_valid_crumb(t) {
        Ok(t.to_owned())
    } else {
        match strategy {
            CookieStrategy::Basic => Err(
                YahooError::AuthFailed("Invalid crumb from query1 endpoint".to_owned()),
            ),
            CookieStrategy::Csrf => Err(
                YahooError::AuthFailed("Invalid crumb from query2 endpoint".to_owned()),
            ),
        }
    }
}

/// What `regex` gives as the first capture group of the leftmost match of
/// `pattern` in `text` (nothing when the pattern does not compile, does
/// not match, or its first group takes no part in the match).
pub uninterp spec fn spec_regex_first_group(pattern: Seq<char>, text: Seq<char>) -> Option<Seq<char>>;

/// Compiles `pattern` with `regex::Regex::new` and returns the text of the
/// first group of `captures(text)`; the result is named by
/// `spec_regex_first_group` and nothing more is claimed.
#[verifier::external_body]
fn regex_first_group(pattern: &str, text: &str) -> (r: Option<String>)
    ensures
        match r {
            Some(s) => spec_regex_first_group(pattern@, text@) == Some(s@),
            None => spec_regex_first_group(pattern@, text@) is None,
        },
{
    regex::Regex::new(pattern).ok().and_then(
        |re| re.captures(text).and_then(|c| c.get(1)).map(|m| m.as_str().to_string()),
    )
}

/// Reads the CSRF token and the session id off the consent page; both are
/// needed, else authentication fails.
pub fn consent_tokens(html: &str) -> (r: Result<(String, String), YahooError>)
    ensures
        match (
            spec_regex_first_group(CSRF_TOKEN_PATTERN@, html@),
            spec_regex_first_group(SESSION_ID_PATTERN@, html@),
        ) {
            (Some(c), Some(s)) => r matches Ok((tc, ts)) && tc@ == c && ts@ == s,
            _ => r matches Err(YahooError::AuthFailed(m)) && m@
                == "Failed to extract CSRF token or session id from consent page"@,
        },
{
    let csrf = regex_first_group(CSRF_TOKEN_PATTERN, html);
    let session = regex_first_group(SESSION_ID_PATTERN, html);
    match (csrf, session) {
        (Some(c), Some(s)) => Ok((c, s)),
        _ => Err(
            YahooError::AuthFailed(
                "Failed to extract CSRF token or session id from consent page".to_owned(),
            ),
        ),
    }
}

/// The fields of the consent form that accepts the defaults.
pub open spec fn spec_consent_form(session_id: Seq<char>, csrf_token: Seq<char>) -> Seq<(Seq<char>, Seq<char>)> {
    seq![
        ("agree"@, "agree"@),
        ("consentUUID"@, "default"@),
        ("sessionId"@, session_id),
        ("csrfToken"@, csrf_token),
        ("originalDoneUrl"@, "https://finance.yahoo.com/"@),
        ("namespace"@, "yahoo"@),
    ]
}

/// The consent form, posted and then repeated as the query of the
/// copy-consent request.
pub fn consent_form(session_id: &str, csrf_token: &str) -> (form: Vec<(String, String)>)
    ensures
        params_view(form@) == spec_consent_form(
            session_id@,
            csrf_token@,
        ),
{
    let mut form: Vec<(String, String)> = Vec::new();
    form.push(param("agree", "agree"));
    form.push(param("consentUUID", "default"));
    form.push(param("sessionId", session_id));
    form.push(param("csrfToken", csrf_token));
    form.push(param("originalDoneUrl", "https://finance.yahoo.com/"));
    form.push(param("namespace", "yahoo"));
    assert(params_view(form@) =~= spec_consent_form(
        session_id@,
        csrf_token@,
    ));
    form
}

/// Where the consent form is posted.
pub fn collect_consent_url(session_id: &str) -> (url: String)
    ensures
        url@ == "https://consent.yahoo.com/v2/collectConsent?sessionId="@ + session_id@,
{
    let mut url = "https://consent.yahoo.com/v2/collectConsent?sessionId=".to_owned();
    url.append(session_id);
    url
}

/// Where the consent is copied to the finance domain.
pub fn copy_consent_url(session_id: &str) -> (url: String)
    ensures
        url@ == "https://guce.yahoo.com/copyConsent?sessionId="@ + session_id@,
{
    let mut url = "https://guce.yahoo.com/copyConsent?sessionId=".to_owned();
    url.append(session_id);
    url
}

/// A refresh tries the strategy in force and then the other one: the two
/// strategies differ, and flipping twice comes back to the first.
pub proof fn law_refresh_alternates_strategies(s: CookieStrategy)
    ensures
        s.spec_flipped() != s,
        s.spec_flipped().spec_flipped() == s,
{
}

/// A crumb obtained at `t` is reused until 31 seconds have passed (more
/// than 30 whole seconds), and fetched again from then on.
pub proof fn law_crumb_reused_within_interval(state: AuthState, t: i64, now: i64)
    requires
        state.crumb is Some,
        state.last_update_ms == Some(t),
    ensures
        !state.spec_needs_refresh(now) <==> now - t < 31_000,
{
}

/// After the strategy is switched, the next use fetches a new crumb,
/// whatever the time.
pub proof fn law_switch_forces_refresh(state: AuthState, now: i64)
    requires
        state.crumb is None,
    ensures
        state.spec_needs_refresh(now),
{
}

} // verus!

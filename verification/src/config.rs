//! Service configuration: assembling a [`Config`] from optionally-present
//! environment values, with the documented development defaults.
//!
//! Reading the environment is the caller's job; the library only decides
//! what each absent value defaults to and how the port text is parsed.

use vstd::prelude::*;

use crate::errors::AppError;
use crate::executor::or_default;

verus! {

/// Everything the service needs to start.
#[derive(Debug)]
pub struct Config {
    pub database_url: String,
    pub port: u16,
    pub jwt_secret: String,
    pub google_client_id: String,
    pub google_client_secret: String,
    pub google_redirect_uri: String,
    pub frontend_url: String,
}

/// Ghost counterpart of [`Config`].
pub ghost struct ConfigView {
    pub database_url: Seq<char>,
    pub port: u16,
    pub jwt_secret: Seq<char>,
    pub google_client_id: Seq<char>,
    pub google_client_secret: Seq<char>,
    pub google_redirect_uri: Seq<char>,
    pub frontend_url: Seq<char>,
}

impl View for Config {
    type V = ConfigView;

    open spec fn view(&self) -> ConfigView {
        ConfigView {
            database_url: self.database_url.deep_view(),
            port: self.port,
            jwt_secret: self.jwt_secret.deep_view(),
            google_client_id: self.google_client_id.deep_view(),
            google_client_secret: self.google_client_secret.deep_view(),
            google_redirect_uri: self.google_redirect_uri.deep_view(),
            frontend_url: self.frontend_url.deep_view(),
        }
    }
}

/// Whether the character is a decimal digit.
pub open spec fn is_dec_digit(c: char) -> bool {
    48 <= c as u32 && c as u32 <= 57
}

/// Whether the text is a well-formed decimal numeral: nonempty, digits
/// only.
pub open spec fn is_dec_numeral(s: Seq<char>) -> bool {
    s.len() > 0 && forall|i: int| 0 <= i < s.len() ==> is_dec_digit(#[trigger] s[i])
}

/// The value of a decimal numeral.
pub open spec fn dec_val(s: Seq<char>) -> int
    decreases s.len(),
{
    if s.len() == 0 {
        0
    } else {
        dec_val(s.drop_last()) * 10 + (s.last() as u32 - 48)
    }
}

/// Parse a decimal port number: accepted exactly when the text is a plain
/// decimal numeral whose value fits in a port.
pub fn parse_port(s: &str) -> (r: Option<u16>)
    ensures
        (match r {
            Some(p) => is_dec_numeral(s@) && dec_val(s@) == p,
            None => !is_dec_numeral(s@) || dec_val(s@) > u16::MAX,
        }),
{
    let n = s.unicode_len();
    if n == 0 {
        return None;
    }
    let mut value: u32 = 0;
    let mut i: usize = 0;
    while i < n
        invariant
            n == s@.len(),
            0 < n,
            i <= n,
            forall|j: int| 0 <= j < i ==> is_dec_digit(#[trigger] s@[j]),
            value == dec_val(s@.take(i as int)),
            value <= 0xffff,
        decreases n - i,
    {
        let c = s.get_char(i);
        let code = c as u32;
        if code < 48 || code > 57 {
            return None;
        }
        let next = value * 10 + (code - 48);
        proof {
            assert(s@.take(i as int + 1).drop_last() =~= s@.take(i as int));
            assert(s@.take(i as int + 1).last() == s@[i as int]);
        }
        if next > 0xffff {
            proof {
                if is_dec_numeral(s@) {
                    lemma_dec_val_monotonic(s@, i as int + 1);
                }
            }
            return None;
        }
        value = next;
        i = i + 1;
    }
    proof {
        assert(s@.take(n as int) =~= s@);
    }
    Some(value as u16)
}

/// A digit string's value is not negative.
proof fn lemma_dec_val_nonneg(s: Seq<char>)
    requires
        forall|i: int| 0 <= i < s.len() ==> is_dec_digit(#[trigger] s[i]),
    ensures
        dec_val(s) >= 0,
    decreases s.len(),
{
    if s.len() > 0 {
        assert(forall|i: int|
            0 <= i < s.drop_last().len() ==> is_dec_digit(#[trigger] s.drop_last()[i]));
        lemma_dec_val_nonneg(s.drop_last());
    }
}

/// A numeral's value is at least the value of any of its prefixes.
proof fn lemma_dec_val_monotonic(s: Seq<char>, k: int)
    requires
        0 <= k <= s.len(),
        forall|i: int| 0 <= i < s.len() ==> is_dec_digit(#[trigger] s[i]),
    ensures
        dec_val(s) >= dec_val(s.take(k)),
    decreases s.len() - k,
{
    if k < s.len() {
        lemma_dec_val_monotonic(s, k + 1);
        assert(forall|i: int|
            0 <= i < s.take(k).len() ==> is_dec_digit(#[trigger] s.take(k)[i]));
        lemma_dec_val_nonneg(s.take(k));
        assert(s.take(k + 1).drop_last() =~= s.take(k));
        assert(is_dec_digit(s.take(k + 1).last()));
        assert(dec_val(s.take(k + 1)) == dec_val(s.take(k)) * 10 + (s.take(k + 1).last() as u32
            - 48));
    } else {
        assert(s.take(k) =~= s);
    }
}

/// Copy the given value, or the default text when it is absent.
fn value_or(v: Option<String>, d: &str) -> (r: String)
    ensures
        r@ == or_default(v.deep_view(), d@),
{
    match v {
        Some(s) => s,
        None => String::from_str(d),
    }
}

impl Config {
    /// Assemble a configuration from optionally-present environment values,
    /// substituting the development defaults for absent ones.  Refused only
    /// when the port text does not parse as a port number.
    pub fn from_parts(
        database_url: Option<String>,
        port: Option<String>,
        jwt_secret: Option<String>,
        google_client_id: Option<String>,
        google_client_secret: Option<String>,
        google_redirect_uri: Option<String>,
        frontend_url: Option<String>,
    ) -> (r: Result<Config, AppError>)
        ensures
            ({
                let port_text = or_default(port.deep_view(), "3001"@);
                match r {
                    Ok(c) => is_dec_numeral(port_text) && dec_val(port_text) == c.port && c@.port
                        == c.port && c@.database_url == or_default(
                        database_url.deep_view(),
                        "postgresql://localhost/focusflow"@,
                    ) && c@.jwt_secret == or_default(
                        jwt_secret.deep_view(),
                        "focusflow-dev-jwt-secret-key-2024-change-in-production-make-it-long-and-secure"@,
                    ) && c@.google_client_id == or_default(
                        google_client_id.deep_view(),
                        "demo-client-id.apps.googleusercontent.com"@,
                    ) && c@.google_client_secret == or_default(
                        google_client_secret.deep_view(),
                        "demo-client-secret"@,
                    ) && c@.google_redirect_uri == or_default(
                        google_redirect_uri.deep_view(),
                        "http://localhost:3001/auth/google/callback"@,
                    ) && c@.frontend_url == or_default(
                        frontend_url.deep_view(),
                        "http://localhost:5173"@,
                    ),
                    Err(e) => (!is_dec_numeral(port_text) || dec_val(port_text) > u16::MAX) && e@
                        is Internal,
                }
            }),
    {
        let port_text = value_or(port, "3001");
        let port_num = match parse_port(port_text.as_str()) {
            Some(p) => p,
            None => {
                return Err(AppError::Internal(String::from_str("invalid port number")));
            },
        };
        Ok(
            Config {
                database_url: value_or(database_url, "postgresql://localhost/focusflow"),
                port: port_num,
                jwt_secret: value_or(
                    jwt_secret,
                    "focusflow-dev-jwt-secret-key-2024-change-in-production-make-it-long-and-secure",
                ),
                google_client_id: value_or(
                    google_client_id,
                    "demo-client-id.apps.googleusercontent.com",
                ),
                google_client_secret: value_or(google_client_secret, "demo-client-secret"),
                google_redirect_uri: value_or(
                    google_redirect_uri,
                    "http://localhost:3001/auth/google/callback",
                ),
                frontend_url: value_or(frontend_url, "http://localhost:5173"),
            },
        )
    }
}

} // verus!

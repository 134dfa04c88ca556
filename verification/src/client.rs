use vstd::prelude::*;

use secrecy::ExposeSecret;

use crate::error::{ExaError, ExaErrorV};

verus! {

/// The API key, kept behind secrecy's redacting holder so that it is wiped
/// on drop and never shows in debug output.
#[verifier::external_body]
#[derive(Debug)]
pub struct ApiKey {
    inner: secrecy::SecretString,
}

/// The characters a held API key consists of.
pub uninterp spec fn secret_chars(s: ApiKey) -> Seq<char>;

/// Relies on `secrecy::Secret::new`: the holder keeps exactly the given
/// string.
#[verifier::external_body]
fn new_secret(s: String) -> (r: ApiKey)
    ensures
        secret_chars(r) == s@,
{
    ApiKey { inner: secrecy::SecretString::new(s) }
}

/// Relies on `secrecy::ExposeSecret::expose_secret`: hands back the held
/// string.
#[verifier::external_body]
fn expose_secret_string(s: &ApiKey) -> (r: String)
    ensures
        r@ == secret_chars(*s),
{
    s.inner.expose_secret().clone()
}

/// A configured client: the API key and the base URL every endpoint path is
/// appended to. The key is only ever disclosed as an authentication header
/// value; building a client performs no network work.
#[derive(Debug)]
pub struct Exa {
    pub api_key: ApiKey,
    pub base_url: String,
}

/// Model of `Exa`: the key's characters and the base URL.
pub struct ExaV {
    pub api_key: Seq<char>,
    pub base_url: Seq<char>,
}

impl View for Exa {
    type V = ExaV;

    open spec fn view(&self) -> ExaV {
        ExaV { api_key: secret_chars(self.api_key), base_url: self.base_url@ }
    }
}

/// Collects a client's configuration before it is built. The API key is
/// resolved once, at `build`: an explicit key wins, a key taken from the
/// environment stands in where no explicit one was given, and with neither
/// the build fails.
#[derive(Debug)]
pub struct ExaBuilder {
    pub api_key: Option<ApiKey>,
    pub base_url: Option<String>,
    pub env_api_key: Option<ApiKey>,
}

/// Model of `ExaBuilder`.
pub struct ExaBuilderV {
    pub api_key: Option<Seq<char>>,
    pub base_url: Option<Seq<char>>,
    pub env_api_key: Option<Seq<char>>,
}

impl View for ExaBuilder {
    type V = ExaBuilderV;

    open spec fn view(&self) -> ExaBuilderV {
        ExaBuilderV {
            api_key: match self.api_key {
                Some(k) => Some(secret_chars(k)),
                None => None,
            },
            base_url: match self.base_url {
                Some(u) => Some(u@),
                None => None,
            },
            env_api_key: match self.env_api_key {
                Some(k) => Some(secret_chars(k)),
                None => None,
            },
        }
    }
}

/// The key a finished builder resolves to, if any: the explicit key first,
/// else the one taken from the environment.
pub open spec fn resolved_key(b: ExaBuilderV) -> Option<Seq<char>> {
    match b.api_key {
        Some(k) => Some(k),
        None => b.env_api_key,
    }
}

/// The base URL a finished builder resolves to: the override, or the
/// service's public endpoint.
pub open spec fn resolved_base_url(b: ExaBuilderV) -> Seq<char> {
    match b.base_url {
        Some(u) => u,
        None => crate::BASE_URL@,
    }
}

impl Exa {
    /// Starts a builder with nothing configured.
    pub fn builder() -> (r: ExaBuilder)
        ensures
            r@.api_key is None,
            r@.base_url is None,
            r@.env_api_key is None,
    {
        ExaBuilder { api_key: None, base_url: None, env_api_key: None }
    }

    /// The full URL of an endpoint: the base URL with the path appended.
    pub fn endpoint_url(&self, path: &str) -> (r: String)
        ensures
            r@ == self@.base_url + path@,
    {
        let mut out = self.base_url.clone();
        out.append(path);
        out
    }

    /// The value sent under the `x-api-key` header: the raw key, with no
    /// scheme prefix. This is the one place the key leaves the client.
    pub fn auth_header_value(&self) -> (r: String)
        ensures
            r@ == self@.api_key,
    {
        expose_secret_string(&self.api_key)
    }
}

impl ExaBuilder {
    /// Sets the explicit API key; it takes precedence over any key taken
    /// from the environment.
    pub fn api_key(self, api_key: String) -> (r: Self)
        ensures
            r@.api_key == Some(api_key@),
            r@.base_url == self@.base_url,
            r@.env_api_key == self@.env_api_key,
    {
        ExaBuilder { api_key: Some(new_secret(api_key)), ..self }
    }

    /// Sets the base URL, in place of the service's public endpoint.
    pub fn base_url(self, base_url: String) -> (r: Self)
        ensures
            r@.base_url == Some(base_url@),
            r@.api_key == self@.api_key,
            r@.env_api_key == self@.env_api_key,
    {
        ExaBuilder { base_url: Some(base_url), ..self }
    }

    /// Hands the builder the key found in the environment, if any; the caller
    /// reads the `EXA_API_KEY` variable once and passes what it found.
    pub fn env_api_key(self, value: Option<String>) -> (r: Self)
        ensures
            r@.env_api_key == match value {
                Some(v) => Some(v@),
                None => None::<Seq<char>>,
            },
            r@.api_key == self@.api_key,
            r@.base_url == self@.base_url,
    {
        match value {
            Some(v) => ExaBuilder { env_api_key: Some(new_secret(v)), ..self },
            None => ExaBuilder { env_api_key: None, ..self },
        }
    }

    /// Resolves the configuration into a client. Fails, with nothing built,
    /// exactly when no key was given from either source.
    pub fn build(self) -> (r: Result<Exa, ExaError>)
        ensures
            resolved_key(self@) matches Some(k) ==> (r matches Ok(c) && c@.api_key == k
                && c@.base_url == resolved_base_url(self@)),
            resolved_key(self@) is None ==> (r matches Err(e) && e@
                == ExaErrorV::MissingCredential),
    {
        let key = match self.api_key {
            Some(k) => k,
            None => match self.env_api_key {
                Some(k) => k,
                None => {
                    return Err(ExaError::MissingCredential);
                },
            },
        };
        let base_url = match self.base_url {
            Some(u) => u,
            None => String::from_str(crate::BASE_URL),
        };
        Ok(Exa { api_key: key, base_url })
    }
}

/// Everything app-side transport needs to perform one call: where to POST,
/// what to put under `x-api-key`, and the JSON body.
#[derive(Debug)]
pub struct WireRequest {
    pub url: String,
    pub header_value: String,
    pub body: String,
}

} // verus!

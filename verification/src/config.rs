//! Configuration: partial configurations come from sources such as
//! the environment or a file; merging and building them — with
//! defaults for what may be absent and errors for what may not — is
//! decided here.  Reading files and environment variables stays
//! outside the library.

use vstd::prelude::*;

verus! {

/// Custom CSS text served with the login surface.
#[derive(Debug)]
pub struct CustomCss(pub String);

impl CustomCss {
    /// The CSS text.
    pub fn as_str(&self) -> (r: &str)
        ensures
            r@ == self.0@,
    {
        self.0.as_str()
    }
}

/// Why a configuration could not be built.
#[derive(Clone, Copy, Debug, PartialEq, Eq, Structural)]
pub enum ConfigError {
    /// No port to listen on was given.
    MissingPort,
    /// No upstream address was given.
    MissingUpstream,
    /// No database URL was given.
    MissingDatabaseUrl,
}

/// The gateway's runtime configuration.
#[derive(Debug)]
pub struct SharpConfig {
    /// The address to listen on.
    pub address: String,
    /// The port to listen on.
    pub port: u16,
    /// `host:port` of the protected upstream service.
    pub upstream: String,
    /// Where the store persists its data.
    pub database_url: String,
    /// Paths that bypass authentication.
    pub exceptions: Vec<String>,
    /// Custom CSS for the login surface.
    pub custom_css: Option<CustomCss>,
    /// Where a successful login or registration redirects.
    pub redirect_url: String,
}

/// A partial configuration as one source provides it; `None` marks a
/// value the source did not give.
pub struct SharpConfigBuilder {
    pub address: Option<String>,
    pub port: Option<u16>,
    pub upstream: Option<String>,
    pub database_url: Option<String>,
    pub exceptions: Option<Vec<String>>,
    /// The CSS text itself, already read from wherever it lives.
    pub custom_css: Option<String>,
    pub redirect_url: Option<String>,
}

/// The first required value that `b` misses, in the order the
/// builder reports them, if any.
pub open spec fn spec_build_err(b: SharpConfigBuilder) -> Option<ConfigError> {
    if b.port is None {
        Some(ConfigError::MissingPort)
    } else if b.upstream is None {
        Some(ConfigError::MissingUpstream)
    } else if b.database_url is None {
        Some(ConfigError::MissingDatabaseUrl)
    } else {
        None
    }
}

/// The default exemption list, as spec-level text.
pub open spec fn spec_default_exceptions() -> Seq<Seq<char>> {
    seq!["/favicon.ico"@, "/robots.txt"@, "/sitemap.xml"@]
}

/// How a built configuration relates to its builder: required values
/// taken as given, absent optional values replaced by their
/// defaults.
pub open spec fn spec_config_matches(b: SharpConfigBuilder, c: SharpConfig) -> bool {
    &&& Some(c.port) == b.port
    &&& Some(c.upstream) == b.upstream
    &&& Some(c.database_url) == b.database_url
    &&& c.address@ == (match b.address {
        Some(a) => a@,
        None => "127.0.0.1"@,
    })
    &&& c.exceptions.deep_view() == (match b.exceptions {
        Some(e) => e.deep_view(),
        None => spec_default_exceptions(),
    })
    &&& (match (b.custom_css, c.custom_css) {
        (Some(s), Some(cc)) => cc.0 == s,
        (None, None) => true,
        _ => false,
    })
    &&& c.redirect_url@ == (match b.redirect_url {
        Some(u) => u@,
        None => "/"@,
    })
}

/// A builder with every value the main source gave, and the
/// fallback's value wherever the main source gave none.
pub open spec fn spec_merge(
    main: SharpConfigBuilder,
    fallback: SharpConfigBuilder,
) -> SharpConfigBuilder {
    SharpConfigBuilder {
        address: if main.address is Some {
            main.address
        } else {
            fallback.address
        },
        port: if main.port is Some {
            main.port
        } else {
            fallback.port
        },
        upstream: if main.upstream is Some {
            main.upstream
        } else {
            fallback.upstream
        },
        database_url: if main.database_url is Some {
            main.database_url
        } else {
            fallback.database_url
        },
        exceptions: if main.exceptions is Some {
            main.exceptions
        } else {
            fallback.exceptions
        },
        custom_css: if main.custom_css is Some {
            main.custom_css
        } else {
            fallback.custom_css
        },
        redirect_url: if main.redirect_url is Some {
            main.redirect_url
        } else {
            fallback.redirect_url
        },
    }
}

/// The default exemption list: well-known files every crawler and
/// browser may fetch without authentication.
pub fn default_exceptions() -> (r: Vec<String>)
    ensures
        r.deep_view() == spec_default_exceptions(),
{
    let mut v: Vec<String> = Vec::new();
    v.push(String::from_str("/favicon.ico"));
    v.push(String::from_str("/robots.txt"));
    v.push(String::from_str("/sitemap.xml"));
    proof {
        assert(v.deep_view() =~= spec_default_exceptions());
    }
    v
}

/// Copy a vector of strings element by element.
fn clone_string_vec(v: &Vec<String>) -> (r: Vec<String>)
    ensures
        r@ == v@,
{
    let mut out: Vec<String> = Vec::new();
    let n = v.len();
    let mut i: usize = 0;
    while i < n
        invariant
            i <= n,
            n == v.len(),
            out@ == v@.take(i as int),
        decreases n - i,
    {
        out.push(v[i].clone());
        proof {
            assert(out@ =~= v@.take(i as int + 1));
        }
        i += 1;
    }
    proof {
        assert(out@ =~= v@);
    }
    out
}

/// Copy an optional string.
fn clone_opt_string(s: &Option<String>) -> (r: Option<String>)
    ensures
        r == s,
{
    match s {
        Some(v) => Some(v.clone()),
        None => None,
    }
}

impl SharpConfigBuilder {
    /// A builder with no value at all.
    pub fn empty() -> (r: SharpConfigBuilder)
        ensures
            r.address is None,
            r.port is None,
            r.upstream is None,
            r.database_url is None,
            r.exceptions is None,
            r.custom_css is None,
            r.redirect_url is None,
    {
        SharpConfigBuilder {
            address: None,
            port: None,
            upstream: None,
            database_url: None,
            exceptions: None,
            custom_css: None,
            redirect_url: None,
        }
    }

    /// Fill every value this builder misses from `fallback`; values
    /// this builder has take precedence.
    pub fn merge(&mut self, fallback: SharpConfigBuilder)
        ensures
            *final(self) == spec_merge(*old(self), fallback),
    {
        if self.address.is_none() {
            self.address = fallback.address;
        }
        if self.port.is_none() {
            self.port = fallback.port;
        }
        if self.upstream.is_none() {
            self.upstream = fallback.upstream;
        }
        if self.database_url.is_none() {
            self.database_url = fallback.database_url;
        }
        if self.exceptions.is_none() {
            self.exceptions = fallback.exceptions;
        }
        if self.custom_css.is_none() {
            self.custom_css = fallback.custom_css;
        }
        if self.redirect_url.is_none() {
            self.redirect_url = fallback.redirect_url;
        }
    }

    /// Build the configuration: required values must be present,
    /// absent optional values get their defaults.
    pub fn build(&self) -> (r: Result<SharpConfig, ConfigError>)
        ensures
            match r {
                Ok(c) => spec_build_err(*self) is None && spec_config_matches(*self, c),
                Err(e) => spec_build_err(*self) == Some(e),
            },
    {
        let port = match &self.port {
            Some(p) => *p,
            None => {
                return Err(ConfigError::MissingPort);
            },
        };
        let upstream = match &self.upstream {
            Some(u) => u.clone(),
            None => {
                return Err(ConfigError::MissingUpstream);
            },
        };
        let database_url = match &self.database_url {
            Some(d) => d.clone(),
            None => {
                return Err(ConfigError::MissingDatabaseUrl);
            },
        };
        let address = match &self.address {
            Some(a) => a.clone(),
            None => String::from_str("127.0.0.1"),
        };
        let exceptions = match &self.exceptions {
            Some(e) => clone_string_vec(e),
            None => default_exceptions(),
        };
        let custom_css = match &self.custom_css {
            Some(s) => Some(CustomCss(s.clone())),
            None => None,
        };
        let redirect_url = match &self.redirect_url {
            Some(u) => u.clone(),
            None => String::from_str("/"),
        };
        Ok(
            SharpConfig {
                address,
                port,
                upstream,
                database_url,
                exceptions,
                custom_css,
                redirect_url,
            },
        )
    }
}

/// Build the configuration a single source gave.
pub fn read_config(builder: SharpConfigBuilder) -> (r: Result<SharpConfig, ConfigError>)
    ensures
        match r {
            Ok(c) => spec_build_err(builder) is None && spec_config_matches(builder, c),
            Err(e) => spec_build_err(builder) == Some(e),
        },
{
    builder.build()
}

/// Build the main source's configuration; where it misses required
/// values, fill them from the fallback source and build again.
pub fn read_config_with_fallback(
    main: SharpConfigBuilder,
    fallback: SharpConfigBuilder,
) -> (r: Result<SharpConfig, ConfigError>)
    ensures
        spec_build_err(main) is None ==> match r {
            Ok(c) => spec_config_matches(main, c),
            Err(_) => false,
        },
        spec_build_err(main) is Some ==> ({
            let merged = spec_merge(main, fallback);
            match r {
                Ok(c) => spec_build_err(merged) is None && spec_config_matches(merged, c),
                Err(e) => spec_build_err(merged) == Some(e),
            }
        }),
{
    let mut main = main;
    match main.build() {
        Ok(c) => Ok(c),
        Err(_) => {
            main.merge(fallback);
            main.build()
        },
    }
}

} // verus!

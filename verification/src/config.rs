//! Application configuration: the settings read from environment variables,
//! how each variable is interpreted, and the secret-free debug rendering.

use vstd::prelude::*;
use vstd::string::*;

use crate::text::{
    concat2, decimal, is_blank, is_blank_spec, lemma_trim_blank, owned, parse_u16, parse_u16_spec,
    split_on, split_spec, str_eq, trim_spec, u64_to_decimal, views,
};

verus! {

/// The lowercase mapping of a string as `str::to_lowercase` computes it.
pub uninterp spec fn lowercase_of(s: Seq<char>) -> Seq<char>;

/// `str::to_lowercase`. Its result is named by `lowercase_of`; the one fact
/// stated of it is that a string made only of the letters `a` to `z` is its
/// own lowercase. The full Unicode case tables are not stated here.
#[verifier::external_body]
fn to_lowercase(s: &str) -> (r: String)
    ensures
        r@ == lowercase_of(s@),
        (forall|i: int|
            0 <= i < s@.len() ==> 'a' as u32 <= #[trigger] s@[i] as u32 <= 'z' as u32) ==> r@
            == s@,
{
    s.to_lowercase()
}

/// A string made only of the letters `a` to `z`.
pub open spec fn lowercase_letters(s: Seq<char>) -> bool {
    forall|i: int| 0 <= i < s.len() ==> 'a' as u32 <= #[trigger] s[i] as u32 <= 'z' as u32
}

/// Application environment.
#[derive(Debug, Clone, Copy, PartialEq, Eq, Structural)]
pub enum Environment {
    Development,
    Staging,
    Production,
}

impl Environment {
    /// The canonical name of the environment (its display form).
    pub open spec fn name(self) -> Seq<char> {
        match self {
            Environment::Development => "development"@,
            Environment::Staging => "staging"@,
            Environment::Production => "production"@,
        }
    }

    /// The environment that an already lowercased name denotes, with the
    /// short aliases `dev`, `stage` and `prod`.
    pub open spec fn from_lowercase_spec(l: Seq<char>) -> Option<Environment> {
        if l == "development"@ || l == "dev"@ {
            Some(Environment::Development)
        } else if l == "staging"@ || l == "stage"@ {
            Some(Environment::Staging)
        } else if l == "production"@ || l == "prod"@ {
            Some(Environment::Production)
        } else {
            None
        }
    }

    /// The display name of every environment is made of lowercase letters
    /// and names that environment, so parsing an environment's display form
    /// gives the environment back.
    pub proof fn names_read_back(e: Environment)
        ensures
            lowercase_letters(e.name()),
            Self::from_lowercase_spec(e.name()) == Some(e),
    {
        reveal_strlit("development");
        reveal_strlit("staging");
        reveal_strlit("production");
        reveal_strlit("dev");
        reveal_strlit("stage");
        reveal_strlit("prod");
        assert("staging"@[0] != "development"@[0]);
        assert("staging"@[0] != "dev"@[0]);
        assert("production"@[0] != "development"@[0]);
        assert("production"@[0] != "dev"@[0]);
        assert("production"@[0] != "staging"@[0]);
        assert("production"@[0] != "stage"@[0]);
    }

    /// The display form: `development`, `staging` or `production`.
    pub fn to_string(&self) -> (r: String)
        ensures
            r@ == self.name(),
    {
        match self {
            Environment::Development => owned("development"),
            Environment::Staging => owned("staging"),
            Environment::Production => owned("production"),
        }
    }

    /// Interprets an already lowercased environment name.
    pub fn from_lowercase(l: &str, raw: &str) -> (r: Result<Environment, SettingsError>)
        ensures
            match Self::from_lowercase_spec(l@) {
                Some(e) => r == Ok::<Environment, SettingsError>(e),
                None => r matches Err(SettingsError::InvalidValue(m)) && m@ == "Invalid environment: "@
                    + raw@,
            },
    {
        if str_eq(l, "development") || str_eq(l, "dev") {
            Ok(Environment::Development)
        } else if str_eq(l, "staging") || str_eq(l, "stage") {
            Ok(Environment::Staging)
        } else if str_eq(l, "production") || str_eq(l, "prod") {
            Ok(Environment::Production)
        } else {
            Err(SettingsError::InvalidValue(concat2("Invalid environment: ", raw)))
        }
    }

    /// Parses an environment name, ignoring case.
    pub fn parse(s: &str) -> (r: Result<Environment, SettingsError>)
        ensures
            match Self::from_lowercase_spec(lowercase_of(s@)) {
                Some(e) => r == Ok::<Environment, SettingsError>(e),
                None => r matches Err(SettingsError::InvalidValue(m)) && m@ == "Invalid environment: "@
                    + s@,
            },
            lowercase_letters(s@) ==> match Self::from_lowercase_spec(s@) {
                Some(e) => r == Ok::<Environment, SettingsError>(e),
                None => r is Err,
            },
    {
        let l = to_lowercase(s);
        Self::from_lowercase(l.as_str(), s)
    }
}

impl Default for Environment {
    fn default() -> (r: Environment)
        ensures
            r == Environment::Development,
    {
        Environment::Development
    }
}

impl std::str::FromStr for Environment {
    type Err = SettingsError;

    fn from_str(s: &str) -> (r: Result<Environment, SettingsError>)
        ensures
            match Environment::from_lowercase_spec(lowercase_of(s@)) {
                Some(e) => r == Ok::<Environment, SettingsError>(e),
                None => r matches Err(SettingsError::InvalidValue(m)) && m@ == "Invalid environment: "@
                    + s@,
            },
            lowercase_letters(s@) ==> match Environment::from_lowercase_spec(s@) {
                Some(e) => r == Ok::<Environment, SettingsError>(e),
                None => r is Err,
            },
    {
        Environment::parse(s)
    }
}

/// Configuration errors.
#[derive(Debug)]
pub enum SettingsError {
    MissingEnvVar(String),
    InvalidValue(String),
}

impl SettingsError {
    /// The error message.
    pub open spec fn message(&self) -> Seq<char> {
        match self {
            SettingsError::MissingEnvVar(v) => "Missing required environment variable: "@ + v@,
            SettingsError::InvalidValue(v) => "Invalid configuration value: "@ + v@,
        }
    }

    /// The error message (its display form).
    pub fn to_string(&self) -> (r: String)
        ensures
            r@ == self.message(),
    {
        match self {
            SettingsError::MissingEnvVar(v) => concat2(
                "Missing required environment variable: ",
                v.as_str(),
            ),
            SettingsError::InvalidValue(v) => concat2("Invalid configuration value: ", v.as_str()),
        }
    }
}

/// Server configuration.
#[derive(Debug, Clone)]
pub struct ServerConfig {
    pub host: String,
    pub port: u16,
}

impl Default for ServerConfig {
    fn default() -> (r: ServerConfig)
        ensures
            r.host@ == "0.0.0.0"@,
            r.port == 8000,
    {
        ServerConfig { host: owned("0.0.0.0"), port: 8000 }
    }
}

/// CORS configuration.
#[derive(Debug, Clone)]
pub struct CorsConfig {
    pub origins: Vec<String>,
}

impl Default for CorsConfig {
    fn default() -> (r: CorsConfig)
        ensures
            views(r.origins@) == seq!["http://localhost:3000"@],
    {
        let mut origins: Vec<String> = Vec::new();
        origins.push(owned("http://localhost:3000"));
        assert(views(origins@) =~= seq!["http://localhost:3000"@]);
        CorsConfig { origins }
    }
}

/// Supabase configuration.
#[derive(Clone)]
pub struct SupabaseConfig {
    pub url: String,
    pub service_key: String,
    pub anon_key: Option<String>,
    pub jwt_secret: Option<String>,
}

/// LLM provider configuration.
#[derive(Clone)]
pub struct LlmConfig {
    pub openai_api_key: Option<String>,
    pub anthropic_api_key: Option<String>,
}

/// An optional key counts as configured when it is present and not blank.
pub open spec fn key_configured(k: Option<String>) -> bool {
    k matches Some(s) && !is_blank_spec(s@)
}

fn configured(k: &Option<String>) -> (r: bool)
    ensures
        r == key_configured(*k),
{
    match k {
        Some(s) => !is_blank(s.as_str()),
        None => false,
    }
}

impl LlmConfig {
    /// Whether an OpenAI key is configured (present and not blank).
    pub fn has_openai(&self) -> (r: bool)
        ensures
            r == key_configured(self.openai_api_key),
    {
        configured(&self.openai_api_key)
    }

    /// Whether an Anthropic key is configured (present and not blank).
    pub fn has_anthropic(&self) -> (r: bool)
        ensures
            r == key_configured(self.anthropic_api_key),
    {
        configured(&self.anthropic_api_key)
    }
}

impl Default for LlmConfig {
    fn default() -> (r: LlmConfig)
        ensures
            r.openai_api_key is None,
            r.anthropic_api_key is None,
    {
        LlmConfig { openai_api_key: None, anthropic_api_key: None }
    }
}

/// Qdrant vector database configuration.
#[derive(Clone)]
pub struct QdrantConfig {
    pub url: Option<String>,
    pub api_key: Option<String>,
    pub collection_name: String,
}

impl Default for QdrantConfig {
    fn default() -> (r: QdrantConfig)
        ensures
            r.url is None,
            r.api_key is None,
            r.collection_name@ == "default_collection"@,
    {
        QdrantConfig { url: None, api_key: None, collection_name: owned("default_collection") }
    }
}

/// Application settings.
#[derive(Clone)]
pub struct Settings {
    pub environment: Environment,
    pub server: ServerConfig,
    pub cors: CorsConfig,
    pub supabase: SupabaseConfig,
    pub llm: LlmConfig,
    pub qdrant: QdrantConfig,
}

/// The raw values of the environment variables that configure the service,
/// `None` where a variable is unset (or not valid Unicode).
pub struct EnvVars {
    pub environment: Option<String>,
    pub host: Option<String>,
    pub port: Option<String>,
    pub cors_origins: Option<String>,
    pub supabase_url: Option<String>,
    pub supabase_service_key: Option<String>,
    pub supabase_anon_key: Option<String>,
    pub supabase_jwt_secret: Option<String>,
    pub openai_api_key: Option<String>,
    pub anthropic_api_key: Option<String>,
    pub qdrant_url: Option<String>,
    pub qdrant_api_key: Option<String>,
    pub qdrant_collection_name: Option<String>,
}

/// The character sequence of an optional string.
pub open spec fn opt_view(o: Option<String>) -> Option<Seq<char>> {
    match o {
        Some(s) => Some(s@),
        None => None,
    }
}

/// The value of a variable, or `default` when it is unset.
pub open spec fn or_default(o: Option<String>, default: Seq<char>) -> Seq<char> {
    match o {
        Some(s) => s@,
        None => default,
    }
}

/// `ENVIRONMENT`: an unset or unrecognised value means development.
pub open spec fn environment_setting(o: Option<String>) -> Environment {
    match o {
        Some(s) => match Environment::from_lowercase_spec(lowercase_of(s@)) {
            Some(e) => e,
            None => Environment::Development,
        },
        None => Environment::Development,
    }
}

/// The environment loaded from `ENVIRONMENT` is the one its value names,
/// ignoring case (aliases included); an unset or unrecognised value gives
/// development.
pub proof fn environment_setting_follows_name(o: Option<String>, e: Environment)
    ensures
        o matches Some(s) && Environment::from_lowercase_spec(lowercase_of(s@)) == Some(e)
            ==> environment_setting(o) == e,
        o matches Some(s) && Environment::from_lowercase_spec(lowercase_of(s@)) is None
            ==> environment_setting(o) == Environment::Development,
        o is None ==> environment_setting(o) == Environment::Development,
{
}

/// The non-empty, trimmed pieces, in order.
pub open spec fn trimmed_nonempty(parts: Seq<Seq<char>>) -> Seq<Seq<char>>
    decreases parts.len(),
{
    if parts.len() == 0 {
        Seq::<Seq<char>>::empty()
    } else {
        let r = trimmed_nonempty(parts.drop_last());
        let t = trim_spec(parts.last());
        if t.len() > 0 {
            r.push(t)
        } else {
            r
        }
    }
}

/// `CORS_ORIGINS`: the comma-separated origins, each trimmed, empty ones dropped.
pub open spec fn origins_setting(raw: Seq<char>) -> Seq<Seq<char>> {
    trimmed_nonempty(split_spec(raw, ','))
}

/// An API key variable: trimmed, and absent when nothing is left.
pub open spec fn api_key_setting(o: Option<String>) -> Option<Seq<char>> {
    match o {
        Some(s) => if trim_spec(s@).len() > 0 {
            Some(trim_spec(s@))
        } else {
            None
        },
        None => None,
    }
}

/// An optional variable where the empty value counts as unset.
pub open spec fn nonempty_setting(o: Option<String>) -> Option<Seq<char>> {
    match o {
        Some(s) => if s@.len() > 0 {
            Some(s@)
        } else {
            None
        },
        None => None,
    }
}

/// The port text: `PORT`, or `8000` when unset.
pub open spec fn port_text(o: Option<String>) -> Seq<char> {
    or_default(o, "8000"@)
}

/// Whether the variables yield settings: the port parses and both required
/// Supabase variables are present.
pub open spec fn settings_loadable(v: EnvVars) -> bool {
    &&& parse_u16_spec(port_text(v.port)) is Some
    &&& v.supabase_url is Some
    &&& v.supabase_service_key is Some
}

/// `st` holds exactly the settings that the variables `v` describe.
pub open spec fn settings_from(v: EnvVars, st: Settings) -> bool {
    &&& st.environment == environment_setting(v.environment)
    &&& st.server.host@ == or_default(v.host, "0.0.0.0"@)
    &&& Some(st.server.port) == parse_u16_spec(port_text(v.port))
    &&& views(st.cors.origins@) == origins_setting(or_default(v.cors_origins, "http://localhost:3000"@))
    &&& Some(st.supabase.url@) == opt_view(v.supabase_url)
    &&& Some(st.supabase.service_key@) == opt_view(v.supabase_service_key)
    &&& opt_view(st.supabase.anon_key) == opt_view(v.supabase_anon_key)
    &&& opt_view(st.supabase.jwt_secret) == opt_view(v.supabase_jwt_secret)
    &&& opt_view(st.llm.openai_api_key) == api_key_setting(v.openai_api_key)
    &&& opt_view(st.llm.anthropic_api_key) == api_key_setting(v.anthropic_api_key)
    &&& opt_view(st.qdrant.url) == nonempty_setting(v.qdrant_url)
    &&& opt_view(st.qdrant.api_key) == nonempty_setting(v.qdrant_api_key)
    &&& st.qdrant.collection_name@ == or_default(v.qdrant_collection_name, "default_collection"@)
}

fn value_or(o: Option<String>, default: &str) -> (r: String)
    ensures
        r@ == or_default(o, default@),
{
    match o {
        Some(s) => s,
        None => owned(default),
    }
}

fn api_key_value(o: Option<String>) -> (r: Option<String>)
    ensures
        opt_view(r) == api_key_setting(o),
{
    match o {
        Some(s) => {
            let t = s.as_str().trim();
            if t.is_empty() {
                None
            } else {
                Some(owned(t))
            }
        },
        None => None,
    }
}

fn nonempty_value(o: Option<String>) -> (r: Option<String>)
    ensures
        opt_view(r) == nonempty_setting(o),
{
    match o {
        Some(s) => {
            if s.as_str().is_empty() {
                None
            } else {
                Some(s)
            }
        },
        None => None,
    }
}

/// Splits the `CORS_ORIGINS` value into trimmed, non-empty origins.
pub fn parse_origins(raw: &str) -> (r: Vec<String>)
    ensures
        views(r@) == origins_setting(raw@),
{
    let parts = split_on(raw, ',');
    let n = parts.len();
    let mut out: Vec<String> = Vec::new();
    assert(views(out@) =~= trimmed_nonempty(views(parts@).subrange(0, 0)));
    for i in 0..n
        invariant
            n == parts@.len(),
            views(parts@) == split_spec(raw@, ','),
            views(out@) == trimmed_nonempty(views(parts@).subrange(0, i as int)),
    {
        let ghost pv = views(parts@);
        assert(pv.subrange(0, i + 1).drop_last() =~= pv.subrange(0, i as int));
        assert(pv.subrange(0, i + 1).last() == parts@[i as int]@);
        let t = parts[i].as_str().trim();
        if !t.is_empty() {
            let ghost before = views(out@);
            out.push(owned(t));
            assert(views(out@) =~= before.push(t@));
        }
    }
    assert(views(parts@).subrange(0, n as int) =~= views(parts@));
    out
}

impl Settings {
    /// Builds the settings from the raw environment variables.
    ///
    /// `PORT` is checked first (an unparsable port is `InvalidValue("PORT")`),
    /// then `SUPABASE_URL` and `SUPABASE_SERVICE_KEY`, which are required.
    pub fn from_vars(v: EnvVars) -> (r: Result<Settings, SettingsError>)
        ensures
            r is Ok <==> settings_loadable(v),
            r matches Ok(st) ==> settings_from(v, st),
            r matches Ok(st) ==> (v.environment matches Some(s) ==> (
            Environment::from_lowercase_spec(lowercase_of(s@)) matches Some(e) ==> st.environment
                == e)),
            r matches Ok(st) ==> (v.environment matches Some(s) ==> (
            Environment::from_lowercase_spec(lowercase_of(s@)) is None ==> st.environment
                == Environment::Development)),
            r matches Ok(st) ==> (v.environment matches Some(s) ==> (lowercase_letters(s@) ==> (
            Environment::from_lowercase_spec(s@) matches Some(e) ==> st.environment == e))),
            r matches Ok(st) ==> (v.environment is None ==> st.environment
                == Environment::Development),
            r matches Ok(st) ==> (v.host is None ==> st.server.host@ == "0.0.0.0"@),
            r matches Ok(st) ==> (v.host matches Some(h) ==> st.server.host@ == h@),
            r matches Ok(st) ==> (v.supabase_url matches Some(u) ==> st.supabase.url@ == u@),
            r matches Ok(st) ==> (v.supabase_service_key matches Some(k) ==> st.supabase.service_key@
                == k@),
            r matches Ok(st) ==> (v.qdrant_collection_name is None ==> st.qdrant.collection_name@
                == "default_collection"@),
            r matches Ok(st) ==> (v.cors_origins is None ==> views(st.cors.origins@)
                == origins_setting("http://localhost:3000"@)),
            r matches Err(e) ==> if parse_u16_spec(port_text(v.port)) is None {
                e matches SettingsError::InvalidValue(m) && m@ == "PORT"@
            } else if v.supabase_url is None {
                e matches SettingsError::MissingEnvVar(m) && m@ == "SUPABASE_URL"@
            } else {
                e matches SettingsError::MissingEnvVar(m) && m@ == "SUPABASE_SERVICE_KEY"@
            },
    {
        let ghost g = v;
        let EnvVars {
            environment,
            host,
            port,
            cors_origins,
            supabase_url,
            supabase_service_key,
            supabase_anon_key,
            supabase_jwt_secret,
            openai_api_key,
            anthropic_api_key,
            qdrant_url,
            qdrant_api_key,
            qdrant_collection_name,
        } = v;
        let environment = match environment {
            Some(s) => match Environment::parse(s.as_str()) {
                Ok(e) => e,
                Err(_) => Environment::Development,
            },
            None => Environment::Development,
        };
        let port_value = value_or(port, "8000");
        let port = match parse_u16(port_value.as_str()) {
            Some(p) => p,
            None => {
                return Err(SettingsError::InvalidValue(owned("PORT")));
            },
        };
        let server = ServerConfig { host: value_or(host, "0.0.0.0"), port };
        let raw_origins = value_or(cors_origins, "http://localhost:3000");
        let cors = CorsConfig { origins: parse_origins(raw_origins.as_str()) };
        let url = match supabase_url {
            Some(u) => u,
            None => {
                return Err(SettingsError::MissingEnvVar(owned("SUPABASE_URL")));
            },
        };
        let service_key = match supabase_service_key {
            Some(k) => k,
            None => {
                return Err(SettingsError::MissingEnvVar(owned("SUPABASE_SERVICE_KEY")));
            },
        };
        let supabase = SupabaseConfig {
            url,
            service_key,
            anon_key: supabase_anon_key,
            jwt_secret: supabase_jwt_secret,
        };
        let llm = LlmConfig {
            openai_api_key: api_key_value(openai_api_key),
            anthropic_api_key: api_key_value(anthropic_api_key),
        };
        let qdrant = QdrantConfig {
            url: nonempty_value(qdrant_url),
            api_key: nonempty_value(qdrant_api_key),
            collection_name: value_or(qdrant_collection_name, "default_collection"),
        };
        Ok(Settings { environment, server, cors, supabase, llm, qdrant })
    }
}

/// An API key read from the environment counts as configured exactly when
/// the variable was set to something other than white space: the value kept
/// in the settings is then never blank, and a blank one is never kept.
pub proof fn loaded_api_key_configured(v: Option<String>, kept: Option<String>)
    requires
        opt_view(kept) == api_key_setting(v),
    ensures
        key_configured(kept) <==> (v matches Some(s) && !is_blank_spec(s@)),
        key_configured(kept) <==> kept is Some,
{
    if let Some(s) = v {
        lemma_trim_blank(s@);
        if let Some(k) = kept {
            lemma_trim_blank(s@);
            assert(k@ == trim_spec(s@));
        }
    }
}

/// The `Debug` text of a string (quoted, with escapes) as `str` writes it.
pub uninterp spec fn debug_quoted_of(s: Seq<char>) -> Seq<char>;

/// `format!("{s:?}")`: the `Debug` text of a string. Its escaping rules are
/// not stated; the result is named by `debug_quoted_of`.
#[verifier::external_body]
fn debug_quoted(s: &str) -> (r: String)
    ensures
        r@ == debug_quoted_of(s@),
{
    format!("{s:?}")
}

/// The `Debug` text of an optional string.
pub open spec fn option_debug(o: Option<Seq<char>>) -> Seq<char> {
    match o {
        Some(s) => "Some("@ + debug_quoted_of(s) + ")"@,
        None => "None"@,
    }
}

/// The text shown for a secret: whether one is there, never what it is.
pub open spec fn redacted_debug(present: bool) -> Seq<char> {
    if present {
        "Some(\"<REDACTED>\")"@
    } else {
        "None"@
    }
}

/// The `Debug` texts of the items of a list, separated by `, `.
pub open spec fn list_items_debug(items: Seq<Seq<char>>) -> Seq<char>
    decreases items.len(),
{
    if items.len() == 0 {
        Seq::empty()
    } else if items.len() == 1 {
        debug_quoted_of(items[0])
    } else {
        list_items_debug(items.drop_last()) + ", "@ + debug_quoted_of(items.last())
    }
}

/// The `Debug` text of an environment.
pub open spec fn environment_debug(e: Environment) -> Seq<char> {
    match e {
        Environment::Development => "Development"@,
        Environment::Staging => "Staging"@,
        Environment::Production => "Production"@,
    }
}

fn append_option_debug(out: &mut String, o: &Option<String>)
    ensures
        final(out)@ == old(out)@ + option_debug(opt_view(*o)),
{
    match o {
        Some(s) => {
            out.append("Some(");
            let q = debug_quoted(s.as_str());
            out.append(q.as_str());
            out.append(")");
        },
        None => out.append("None"),
    }
}

fn append_redacted(out: &mut String, present: bool)
    ensures
        final(out)@ == old(out)@ + redacted_debug(present),
{
    if present {
        out.append("Some(\"<REDACTED>\")");
    } else {
        out.append("None");
    }
}

impl ServerConfig {
    /// The `Debug` text of the server configuration.
    pub open spec fn debug_text(&self) -> Seq<char> {
        "ServerConfig { host: "@ + debug_quoted_of(self.host@) + ", port: "@ + decimal(
            self.port as nat,
        ) + " }"@
    }

    /// The `Debug` text of the server configuration.
    pub fn debug_string(&self) -> (r: String)
        ensures
            r@ == self.debug_text(),
    {
        let mut out = String::new();
        out.append("ServerConfig { host: ");
        let host = debug_quoted(self.host.as_str());
        out.append(host.as_str());
        out.append(", port: ");
        let port = u64_to_decimal(self.port as u64);
        out.append(port.as_str());
        out.append(" }");
        out
    }
}

impl CorsConfig {
    /// The `Debug` text of the CORS configuration.
    pub open spec fn debug_text(&self) -> Seq<char> {
        "CorsConfig { origins: ["@ + list_items_debug(views(self.origins@)) + "] }"@
    }

    /// The `Debug` text of the CORS configuration.
    pub fn debug_string(&self) -> (r: String)
        ensures
            r@ == self.debug_text(),
    {
        let mut out = String::new();
        out.append("CorsConfig { origins: [");
        let ghost start = out@;
        let n = self.origins.len();
        for i in 0..n
            invariant
                n == self.origins@.len(),
                out@ == start + list_items_debug(views(self.origins@).take(i as int)),
        {
            let ghost items = views(self.origins@).take(i + 1);
            assert(items.drop_last() =~= views(self.origins@).take(i as int));
            if i > 0 {
                out.append(", ");
            }
            let q = debug_quoted(self.origins[i].as_str());
            out.append(q.as_str());
            assert(out@ =~= start + list_items_debug(items));
        }
        assert(views(self.origins@).take(n as int) =~= views(self.origins@));
        out.append("] }");
        out
    }
}

impl SupabaseConfig {
    /// The `Debug` text of the Supabase configuration: the URL, and for each
    /// key only whether it is set.
    pub open spec fn debug_text(&self) -> Seq<char> {
        "SupabaseConfig { url: "@ + debug_quoted_of(self.url@)
            + ", service_key: \"<REDACTED>\", anon_key: "@ + redacted_debug(self.anon_key is Some)
            + ", jwt_secret: "@ + redacted_debug(self.jwt_secret is Some) + " }"@
    }

    /// The `Debug` text of the Supabase configuration, secrets withheld.
    pub fn debug_string(&self) -> (r: String)
        ensures
            r@ == self.debug_text(),
    {
        let mut out = String::new();
        out.append("SupabaseConfig { url: ");
        let url = debug_quoted(self.url.as_str());
        out.append(url.as_str());
        out.append(", service_key: \"<REDACTED>\", anon_key: ");
        append_redacted(&mut out, self.anon_key.is_some());
        out.append(", jwt_secret: ");
        append_redacted(&mut out, self.jwt_secret.is_some());
        out.append(" }");
        out
    }
}

impl LlmConfig {
    /// The `Debug` text of the LLM configuration: for each key only whether
    /// it is configured (present and not blank).
    pub open spec fn debug_text(&self) -> Seq<char> {
        "LlmConfig { openai_api_key: "@ + redacted_debug(key_configured(self.openai_api_key))
            + ", anthropic_api_key: "@ + redacted_debug(key_configured(self.anthropic_api_key))
            + " }"@
    }

    /// The `Debug` text of the LLM configuration, keys withheld.
    pub fn debug_string(&self) -> (r: String)
        ensures
            r@ == self.debug_text(),
    {
        let mut out = String::new();
        out.append("LlmConfig { openai_api_key: ");
        append_redacted(&mut out, configured(&self.openai_api_key));
        out.append(", anthropic_api_key: ");
        append_redacted(&mut out, configured(&self.anthropic_api_key));
        out.append(" }");
        out
    }
}

impl QdrantConfig {
    /// The `Debug` text of the Qdrant configuration: the URL, whether an API
    /// key is set, and the collection name.
    pub open spec fn debug_text(&self) -> Seq<char> {
        "QdrantConfig { url: "@ + option_debug(opt_view(self.url)) + ", api_key: "@
            + redacted_debug(self.api_key is Some) + ", collection_name: "@ + debug_quoted_of(
            self.collection_name@,
        ) + " }"@
    }

    /// The `Debug` text of the Qdrant configuration, the API key withheld.
    pub fn debug_string(&self) -> (r: String)
        ensures
            r@ == self.debug_text(),
    {
        let mut out = String::new();
        out.append("QdrantConfig { url: ");
        append_option_debug(&mut out, &self.url);
        out.append(", api_key: ");
        append_redacted(&mut out, self.api_key.is_some());
        out.append(", collection_name: ");
        let name = debug_quoted(self.collection_name.as_str());
        out.append(name.as_str());
        out.append(" }");
        out
    }
}

impl Settings {
    /// The `Debug` text of the settings.
    pub open spec fn debug_text(&self) -> Seq<char> {
        "Settings { environment: "@ + environment_debug(self.environment) + ", server: "@
            + self.server.debug_text() + ", cors: "@ + self.cors.debug_text() + ", supabase: "@
            + self.supabase.debug_text() + ", llm: "@ + self.llm.debug_text() + ", qdrant: "@
            + self.qdrant.debug_text() + " }"@
    }

    /// The `Debug` text of the settings, with every secret withheld.
    pub fn debug_string(&self) -> (r: String)
        ensures
            r@ == self.debug_text(),
    {
        let mut out = String::new();
        out.append("Settings { environment: ");
        match self.environment {
            Environment::Development => out.append("Development"),
            Environment::Staging => out.append("Staging"),
            Environment::Production => out.append("Production"),
        }
        out.append(", server: ");
        let part = self.server.debug_string();
        out.append(part.as_str());
        out.append(", cors: ");
        let part = self.cors.debug_string();
        out.append(part.as_str());
        out.append(", supabase: ");
        let part = self.supabase.debug_string();
        out.append(part.as_str());
        out.append(", llm: ");
        let part = self.llm.debug_string();
        out.append(part.as_str());
        out.append(", qdrant: ");
        let part = self.qdrant.debug_string();
        out.append(part.as_str());
        out.append(" }");
        out
    }
}

/// Two settings that differ at most in their secrets: the values of the
/// Supabase keys, of the LLM keys (beyond whether each is configured) and of
/// the Qdrant API key (beyond whether it is set).
pub open spec fn same_apart_from_secrets(a: Settings, b: Settings) -> bool {
    &&& a.environment == b.environment
    &&& a.server.host@ == b.server.host@
    &&& a.server.port == b.server.port
    &&& views(a.cors.origins@) == views(b.cors.origins@)
    &&& a.supabase.url@ == b.supabase.url@
    &&& (a.supabase.anon_key is Some) == (b.supabase.anon_key is Some)
    &&& (a.supabase.jwt_secret is Some) == (b.supabase.jwt_secret is Some)
    &&& key_configured(a.llm.openai_api_key) == key_configured(b.llm.openai_api_key)
    &&& key_configured(a.llm.anthropic_api_key) == key_configured(b.llm.anthropic_api_key)
    &&& opt_view(a.qdrant.url) == opt_view(b.qdrant.url)
    &&& (a.qdrant.api_key is Some) == (b.qdrant.api_key is Some)
    &&& a.qdrant.collection_name@ == b.qdrant.collection_name@
}

/// The debug text of the settings does not depend on any secret: settings
/// that differ only in their secrets print the same, so no secret can be
/// read from it.
pub proof fn debug_text_hides_secrets(a: Settings, b: Settings)
    requires
        same_apart_from_secrets(a, b),
    ensures
        a.debug_text() == b.debug_text(),
{
}

} // verus!

//! User and project settings: defaults, migration, the models offered, where
//! the API key is kept, and which setting wins. Reading and writing the JSON
//! files and the environment is the caller's part; the keychain is reached
//! through the `keyring` crate.
use vstd::prelude::*;

use crate::order::texts;
use crate::protocol::{opt_view, owned};
use crate::provider::{detect_provider, provider_of, ProviderKind};
use crate::text::{chars_of, opt_text, trim, trim_chars, trim_string};

verus! {

/// The version of the user settings file that this code writes.
pub const SETTINGS_VERSION: u32 = 1;

/// The API base URL used when none is set.
pub const DEFAULT_BASE_URL: &'static str = "https://api.x.ai/v1";

/// The model used when none is set.
pub const DEFAULT_MODEL: &'static str = "grok-code-fast-1";

/// The keychain service under which the API key is stored.
pub const KEYRING_SERVICE: &'static str = "grok-build";

/// The keychain account under which the API key is stored.
pub const KEYRING_ACCOUNT: &'static str = "xai_api_key";

/// The models offered when the user settings list none.
pub open spec fn default_models_spec() -> Seq<Seq<char>> {
    seq![
        "grok-4-1-fast-reasoning"@, "grok-4-1-fast-non-reasoning"@, "grok-4-fast-reasoning"@,
        "grok-4-fast-non-reasoning"@, "grok-4"@, "grok-4-latest"@, "grok-code-fast-1"@, "grok-3"@,
        "grok-3-latest"@, "grok-3-fast"@, "grok-3-mini"@, "grok-3-mini-fast"@,
    ]
}

/// The models offered when the user settings list none.
pub fn default_models() -> (r: Vec<String>)
    ensures
        texts(r@) == default_models_spec(),
{
    let names: Vec<&'static str> = vec![
        "grok-4-1-fast-reasoning", "grok-4-1-fast-non-reasoning", "grok-4-fast-reasoning",
        "grok-4-fast-non-reasoning", "grok-4", "grok-4-latest", "grok-code-fast-1", "grok-3",
        "grok-3-latest", "grok-3-fast", "grok-3-mini", "grok-3-mini-fast",
    ];
    let ghost views = names@.map_values(|s: &'static str| s@);
    assert(views =~= default_models_spec());
    let mut out: Vec<String> = Vec::new();
    let mut i: usize = 0;
    while i < names.len()
        invariant
            i <= names.len(),
            views == names@.map_values(|s: &'static str| s@),
            texts(out@) == views.take(i as int),
        decreases names.len() - i,
    {
        let ghost before = texts(out@);
        out.push(owned(names[i]));
        assert(texts(out@) =~= before.push(views[i as int]));
        assert(views.take(i + 1) =~= views.take(i as int).push(views[i as int]));
        i += 1;
    }
    assert(views.take(names.len() as int) =~= views);
    out
}

/// Where the API key is kept.
#[derive(Debug, Clone, Copy, PartialEq, Eq, Structural)]
pub enum ApiKeyStorageMode {
    Keychain,
    Plaintext,
}

/// Where a new API key ended up.
#[derive(Debug, Clone, Copy, PartialEq, Eq, Structural)]
pub enum ApiKeySaveLocation {
    Keychain,
    /// The keychain refused it, so it is kept in memory for this run only.
    SessionOnly,
    Plaintext,
}

impl ApiKeyStorageMode {
    /// The name of the mode in the settings file.
    pub fn as_str(self) -> (r: &'static str)
        ensures
            r@ == (match self {
                ApiKeyStorageMode::Keychain => "keychain"@,
                ApiKeyStorageMode::Plaintext => "plaintext"@,
            }),
    {
        match self {
            ApiKeyStorageMode::Keychain => "keychain",
            ApiKeyStorageMode::Plaintext => "plaintext",
        }
    }
}

/// The user settings (`~/.grok/user-settings.json`).
#[derive(Debug, Clone)]
pub struct UserSettings {
    pub api_key: Option<String>,
    pub base_url: Option<String>,
    pub default_model: Option<String>,
    pub models: Option<Vec<String>>,
    pub api_key_storage: Option<ApiKeyStorageMode>,
    pub settings_version: Option<u32>,
}

/// The project settings (`.grok/settings.json` in the working directory).
#[derive(Debug, Clone)]
pub struct ProjectSettings {
    pub model: Option<String>,
}

/// The view of an optional list of strings.
pub open spec fn opt_texts(v: Option<Vec<String>>) -> Option<Seq<Seq<char>>> {
    match v {
        Some(l) => Some(texts(l@)),
        None => None,
    }
}

impl UserSettings {
    /// Empty user settings, as a missing file reads.
    pub fn empty() -> (r: UserSettings)
        ensures
            r.api_key is None,
            r.base_url is None,
            r.default_model is None,
            r.models is None,
            r.api_key_storage is None,
            r.settings_version is None,
    {
        UserSettings {
            api_key: None,
            base_url: None,
            default_model: None,
            models: None,
            api_key_storage: None,
            settings_version: None,
        }
    }
}

impl ProjectSettings {
    /// Empty project settings, as a missing file reads.
    pub fn empty() -> (r: ProjectSettings)
        ensures
            r.model is None,
    {
        ProjectSettings { model: None }
    }
}

/// The settings after filling in defaults: what is set stays, the base URL,
/// model, model list and storage mode get their defaults when unset. The key
/// and the version are not touched.
pub open spec fn with_defaults(old_s: UserSettings, new_s: UserSettings) -> bool {
    &&& opt_view(new_s.api_key) == opt_view(old_s.api_key)
    &&& opt_view(new_s.base_url) == (match old_s.base_url {
        Some(u) => Some(u@),
        None => Some(DEFAULT_BASE_URL@),
    })
    &&& opt_view(new_s.default_model) == (match old_s.default_model {
        Some(m) => Some(m@),
        None => Some(DEFAULT_MODEL@),
    })
    &&& opt_texts(new_s.models) == (match old_s.models {
        Some(l) => Some(texts(l@)),
        None => Some(default_models_spec()),
    })
    &&& new_s.api_key_storage == (match old_s.api_key_storage {
        Some(m) => Some(m),
        None => Some(ApiKeyStorageMode::Keychain),
    })
}

/// Fills in the defaults of unset user settings (see `with_defaults`).
fn fill_user_defaults(settings: &mut UserSettings)
    ensures
        with_defaults(*old(settings), *final(settings)),
        final(settings).settings_version == old(settings).settings_version,
{
    if settings.base_url.is_none() {
        settings.base_url = Some(owned(DEFAULT_BASE_URL));
    }
    if settings.default_model.is_none() {
        settings.default_model = Some(owned(DEFAULT_MODEL));
    }
    if settings.models.is_none() {
        settings.models = Some(default_models());
    }
    if settings.api_key_storage.is_none() {
        settings.api_key_storage = Some(ApiKeyStorageMode::Keychain);
    }
}

/// Whether user settings written by an older version need migrating.
pub fn needs_migration(settings: &UserSettings) -> (r: bool)
    ensures
        r == (match settings.settings_version {
            Some(v) => v < SETTINGS_VERSION,
            None => true,
        }),
{
    match settings.settings_version {
        Some(v) => v < SETTINGS_VERSION,
        None => true,
    }
}

/// Brings user settings to the current version: the defaults are filled in
/// (see `with_defaults`) and the version is set.
pub fn migrate_user_settings(settings: &mut UserSettings)
    ensures
        with_defaults(*old(settings), *final(settings)),
        final(settings).settings_version == Some(SETTINGS_VERSION),
{
    fill_user_defaults(settings);
    settings.settings_version = Some(SETTINGS_VERSION);
}

/// Which settings files need writing after a change.
#[derive(Debug, Clone, Copy, PartialEq, Eq, Structural)]
pub struct SettingsWrites {
    pub user: bool,
    pub project: bool,
}

/// The settings of the user and of the project, with the files they live in.
#[derive(Debug, Clone)]
pub struct SettingsManager {
    pub user_settings_path: String,
    pub project_settings_path: String,
    pub user_settings: UserSettings,
    pub project_settings: ProjectSettings,
    /// A key the keychain refused in this run: kept in memory, never written.
    pub session_api_key: Option<String>,
}

/// The API-key variables of the environment.
#[derive(Debug, Clone)]
pub struct ApiKeyEnv {
    /// `GROK_API_KEY`.
    pub grok: Option<String>,
    /// `XAI_API_KEY`.
    pub xai: Option<String>,
    /// `OPENAI_API_KEY`.
    pub openai: Option<String>,
}

/// The first of three values that is set and not blank.
pub open spec fn first_filled(a: Option<Seq<char>>, b: Option<Seq<char>>, c: Option<Seq<char>>) -> Option<Seq<char>> {
    if a matches Some(k) && filled(k) {
        a
    } else if b matches Some(k) && filled(k) {
        b
    } else if c matches Some(k) && filled(k) {
        c
    } else {
        None
    }
}

/// The key the environment gives for a provider: the first set and non-blank
/// of `GROK_API_KEY`, `XAI_API_KEY`, `OPENAI_API_KEY` for xAI, and of
/// `GROK_API_KEY`, `OPENAI_API_KEY`, `XAI_API_KEY` for other providers.
pub open spec fn env_key_for(provider: ProviderKind, env: ApiKeyEnv) -> Option<Seq<char>> {
    if provider == ProviderKind::Xai {
        first_filled(opt_view(env.grok), opt_view(env.xai), opt_view(env.openai))
    } else {
        first_filled(opt_view(env.grok), opt_view(env.openai), opt_view(env.xai))
    }
}

/// The API key is kept in the keychain (the default).
pub open spec fn keychain_mode(s: UserSettings) -> bool {
    s.api_key_storage != Some(ApiKeyStorageMode::Plaintext)
}

/// `s` is not blank.
pub open spec fn filled(s: Seq<char>) -> bool {
    trim(s).len() > 0
}

/// The API key in use: the environment's key for the provider, else a
/// non-blank key kept in memory in this run, else in the keychain mode a
/// non-blank key from the keychain, and in the plaintext mode the key in the
/// settings file.
pub open spec fn api_key_choice(
    env_key: Option<Seq<char>>,
    session_key: Option<Seq<char>>,
    keychain_mode: bool,
    keychain_key: Option<Seq<char>>,
    file_key: Option<Seq<char>>,
) -> Option<Seq<char>> {
    if env_key is Some {
        env_key
    } else if session_key matches Some(k) && filled(k) {
        session_key
    } else if keychain_mode {
        if keychain_key matches Some(k) && filled(k) {
            keychain_key
        } else {
            None
        }
    } else {
        file_key
    }
}

/// Whether a text is not blank.
fn is_filled(s: &str) -> (r: bool)
    ensures
        r == filled(s@),
{
    let cs = chars_of(s);
    let t = trim_chars(cs.as_slice());
    t.len() > 0
}

/// A copy of an optional string.
fn copy_opt(s: &Option<String>) -> (r: Option<String>)
    ensures
        opt_view(r) == opt_view(*s),
{
    match s {
        Some(v) => Some(v.clone()),
        None => None,
    }
}

/// Stores the API key in the keychain with `keyring`
/// (`Entry::new(service, account)` then `set_password`), saying whether that
/// worked. The keychain is an outside service: nothing is claimed of the outcome.
#[verifier::external_body]
fn store_api_key_in_keychain(service: &str, account: &str, api_key: &str) -> (stored: bool) {
    match keyring::Entry::new(service, account) {
        Ok(entry) => entry.set_password(api_key).is_ok(),
        Err(_) => false,
    }
}

/// Reads the API key from the keychain with `keyring` (`Entry::new` then
/// `get_password`): the key, nothing when there is no entry, or the error's
/// message. The keychain is an outside service: nothing is claimed of the outcome.
#[verifier::external_body]
fn load_api_key_from_keychain(service: &str, account: &str) -> (r: Result<Option<String>, String>) {
    match keyring::Entry::new(service, account) {
        Ok(entry) => match entry.get_password() {
            Ok(value) => Ok(Some(value)),
            Err(keyring::Error::NoEntry) => Ok(None),
            Err(err) => Err(err.to_string()),
        },
        Err(err) => Err(err.to_string()),
    }
}

/// Whether the keychain gives back `api_key` when read (with `keyring`).
fn keychain_reads_back(api_key: &str) -> (r: bool) {
    match load_api_key_from_keychain(KEYRING_SERVICE, KEYRING_ACCOUNT) {
        Ok(Some(k)) => crate::text::chars_eq(chars_of(k.as_str()).as_slice(), chars_of(api_key).as_slice()),
        _ => false,
    }
}

impl SettingsManager {
    /// Settings read from the two files (empty settings where a file is missing).
    pub fn from_parts(
        user_settings_path: String,
        project_settings_path: String,
        user_settings: UserSettings,
        project_settings: ProjectSettings,
    ) -> (r: SettingsManager)
        ensures
            r.user_settings_path == user_settings_path,
            r.project_settings_path == project_settings_path,
            r.user_settings == user_settings,
            r.project_settings == project_settings,
            r.session_api_key is None,
    {
        SettingsManager { user_settings_path, project_settings_path, user_settings, project_settings, session_api_key: None }
    }

    /// First run: when the user file is missing, the user settings get the
    /// current version and their defaults; when the project file is missing, the
    /// project model defaults. Says which files to write.
    pub fn ensure_default_files(&mut self, user_file_exists: bool, project_file_exists: bool) -> (w:
        SettingsWrites)
        ensures
            w.user == !user_file_exists,
            w.project == !project_file_exists,
            final(self).user_settings_path == old(self).user_settings_path,
            final(self).project_settings_path == old(self).project_settings_path,
            user_file_exists ==> final(self).user_settings == old(self).user_settings,
            !user_file_exists ==> with_defaults(old(self).user_settings, final(self).user_settings)
                && final(self).user_settings.settings_version == Some(SETTINGS_VERSION),
            project_file_exists ==> final(self).project_settings == old(self).project_settings,
            !project_file_exists ==> opt_view(final(self).project_settings.model) == (match old(
                self,
            ).project_settings.model {
                Some(m) => Some(m@),
                None => Some(DEFAULT_MODEL@),
            }),
    {
        if !user_file_exists {
            self.user_settings.settings_version = Some(SETTINGS_VERSION);
            fill_user_defaults(&mut self.user_settings);
        }
        if !project_file_exists {
            if self.project_settings.model.is_none() {
                self.project_settings.model = Some(owned(DEFAULT_MODEL));
            }
        }
        SettingsWrites { user: !user_file_exists, project: !project_file_exists }
    }

    /// Where the API key is kept (the keychain unless set otherwise).
    pub fn get_api_key_storage_mode(&self) -> (r: ApiKeyStorageMode)
        ensures
            r == (match self.user_settings.api_key_storage {
                Some(m) => m,
                None => ApiKeyStorageMode::Keychain,
            }),
    {
        match self.user_settings.api_key_storage {
            Some(m) => m,
            None => ApiKeyStorageMode::Keychain,
        }
    }

    /// The models offered: the configured list (or the default one), each
    /// trimmed, the blank ones left out.
    pub fn get_available_models(&self) -> (r: Vec<String>)
        ensures
            texts(r@) == (match self.user_settings.models {
                Some(l) => texts(l@),
                None => default_models_spec(),
            }).map_values(|m: Seq<char>| trim(m)).filter(|m: Seq<char>| m.len() > 0),
    {
        let list = match &self.user_settings.models {
            Some(l) => l.clone(),
            None => default_models(),
        };
        let ghost src = texts(list@);
        let ghost mapped = src.map_values(|m: Seq<char>| trim(m));
        let ghost keep = |m: Seq<char>| m.len() > 0;
        assert(src == (match self.user_settings.models {
            Some(l) => texts(l@),
            None => default_models_spec(),
        }));
        let mut out: Vec<String> = Vec::new();
        let mut i: usize = 0;
        while i < list.len()
            invariant
                i <= list.len(),
                src == texts(list@),
                mapped == src.map_values(|m: Seq<char>| trim(m)),
                keep == (|m: Seq<char>| m.len() > 0),
                texts(out@) == mapped.take(i as int).filter(keep),
            decreases list.len() - i,
        {
            let m = trim_string(list[i].as_str());
            let ghost before = texts(out@);
            proof {
                assert(mapped.take(i + 1).drop_last() =~= mapped.take(i as int));
                assert(mapped[i as int] == m@);
                reveal_with_fuel(Seq::filter, 1);
            }
            if !m.as_str().is_empty() {
                out.push(m);
                assert(texts(out@) =~= before.push(mapped[i as int]));
            }
            assert(texts(out@) =~= mapped.take(i + 1).filter(keep));
            i += 1;
        }
        assert(mapped.take(list.len() as int) =~= mapped);
        out
    }

    /// Sets the project's model.
    pub fn update_project_model(&mut self, model: &str)
        ensures
            opt_view(final(self).project_settings.model) == Some(model@),
            final(self).user_settings == old(self).user_settings,
    {
        self.project_settings.model = Some(owned(model));
    }

    /// Sets the API base URL in the user settings.
    pub fn update_user_base_url(&mut self, base_url: &str)
        ensures
            opt_view(final(self).user_settings.base_url) == Some(base_url@),
            opt_view(final(self).user_settings.api_key) == opt_view(old(self).user_settings.api_key),
            final(self).user_settings.api_key_storage == old(self).user_settings.api_key_storage,
            final(self).project_settings == old(self).project_settings,
    {
        self.user_settings.base_url = Some(owned(base_url));
    }

    /// The API base URL: `GROK_BASE_URL` when set, else the configured one, else
    /// the default.
    pub fn get_base_url(&self, env_base_url: Option<&str>) -> (r: String)
        ensures
            r@ == (match env_base_url {
                Some(e) => e@,
                None => match self.user_settings.base_url {
                    Some(u) => u@,
                    None => DEFAULT_BASE_URL@,
                },
            }),
    {
        match env_base_url {
            Some(e) => owned(e),
            None => match &self.user_settings.base_url {
                Some(u) => u.clone(),
                None => owned(DEFAULT_BASE_URL),
            },
        }
    }

    /// The model in use: the project's, else `GROK_MODEL`, else the user's
    /// default, else the built-in default.
    pub fn get_current_model(&self, env_model: Option<&str>) -> (r: String)
        ensures
            r@ == (match self.project_settings.model {
                Some(m) => m@,
                None => match env_model {
                    Some(e) => e@,
                    None => match self.user_settings.default_model {
                        Some(d) => d@,
                        None => DEFAULT_MODEL@,
                    },
                },
            }),
    {
        match &self.project_settings.model {
            Some(m) => m.clone(),
            None => match env_model {
                Some(e) => owned(e),
                None => match &self.user_settings.default_model {
                    Some(d) => d.clone(),
                    None => owned(DEFAULT_MODEL),
                },
            },
        }
    }

    /// The environment's key for the provider of `base_url` (see `env_key_for`).
    pub fn env_api_key(base_url: &str, env: &ApiKeyEnv) -> (r: Option<String>)
        ensures
            opt_view(r) == env_key_for(provider_of(base_url@), *env),
    {
        let (a, b, c) = if detect_provider(base_url) == ProviderKind::Xai {
            (&env.grok, &env.xai, &env.openai)
        } else {
            (&env.grok, &env.openai, &env.xai)
        };
        if let Some(k) = a {
            if is_filled(k.as_str()) {
                return Some(k.clone());
            }
        }
        if let Some(k) = b {
            if is_filled(k.as_str()) {
                return Some(k.clone());
            }
        }
        if let Some(k) = c {
            if is_filled(k.as_str()) {
                return Some(k.clone());
            }
        }
        None
    }

    /// The API key in use for the provider of `base_url`, given the environment
    /// and what the keychain gave (see `api_key_choice`).
    pub fn choose_api_key(&self, base_url: &str, env: &ApiKeyEnv, keychain_key: Option<String>) -> (r: Option<
        String,
    >)
        ensures
            opt_view(r) == api_key_choice(
                env_key_for(provider_of(base_url@), *env),
                opt_view(self.session_api_key),
                keychain_mode(self.user_settings),
                opt_view(keychain_key),
                opt_view(self.user_settings.api_key),
            ),
    {
        let from_env = Self::env_api_key(base_url, env);
        if from_env.is_some() {
            return from_env;
        }
        if let Some(k) = &self.session_api_key {
            if is_filled(k.as_str()) {
                return Some(k.clone());
            }
        }
        if self.get_api_key_storage_mode() == ApiKeyStorageMode::Keychain {
            if let Some(k) = &keychain_key {
                if is_filled(k.as_str()) {
                    return keychain_key;
                }
            }
            return None;
        }
        copy_opt(&self.user_settings.api_key)
    }

    /// The API key in use for the provider of `base_url` (see `api_key_choice`),
    /// reading the keychain with `keyring` in the keychain mode.
    pub fn get_api_key(&self, base_url: &str, env: &ApiKeyEnv) -> (r: Option<String>)
        ensures
            exists|keychain_key: Option<Seq<char>>|
                opt_view(r) == #[trigger] api_key_choice(
                    env_key_for(provider_of(base_url@), *env),
                    opt_view(self.session_api_key),
                    keychain_mode(self.user_settings),
                    keychain_key,
                    opt_view(self.user_settings.api_key),
                ),
            !keychain_mode(self.user_settings) ==> opt_view(r) == api_key_choice(
                env_key_for(provider_of(base_url@), *env),
                opt_view(self.session_api_key),
                false,
                None,
                opt_view(self.user_settings.api_key),
            ),
    {
        let keychain_key = if self.get_api_key_storage_mode() == ApiKeyStorageMode::Keychain {
            match load_api_key_from_keychain(KEYRING_SERVICE, KEYRING_ACCOUNT) {
                Ok(k) => k,
                Err(_) => None,
            }
        } else {
            None
        };
        self.choose_api_key(base_url, env, keychain_key)
    }

    /// Records a new API key, given whether the keychain took it: in the keychain
    /// mode a stored key leaves the file without a key, and a refused one is kept
    /// in memory for this run only, never in the file; in the plaintext mode it
    /// goes to the file. Says where it went.
    pub fn record_api_key(&mut self, api_key: &str, stored_in_keychain: bool) -> (r: ApiKeySaveLocation)
        ensures
            final(self).user_settings.api_key_storage == old(self).user_settings.api_key_storage,
            final(self).project_settings == old(self).project_settings,
            old(self).user_settings.api_key_storage != Some(ApiKeyStorageMode::Plaintext) ==> (if stored_in_keychain {
                &&& r == ApiKeySaveLocation::Keychain
                &&& final(self).user_settings == (UserSettings { api_key: None, ..old(self).user_settings })
                &&& final(self).session_api_key == old(self).session_api_key
            } else {
                &&& r == ApiKeySaveLocation::SessionOnly
                &&& final(self).user_settings == old(self).user_settings
                &&& opt_view(final(self).session_api_key) == Some(api_key@)
            }),
            old(self).user_settings.api_key_storage == Some(ApiKeyStorageMode::Plaintext) ==> {
                &&& r == ApiKeySaveLocation::Plaintext
                &&& opt_view(final(self).user_settings.api_key) == Some(api_key@)
                &&& final(self).session_api_key == old(self).session_api_key
            },
    {
        match self.get_api_key_storage_mode() {
            ApiKeyStorageMode::Keychain => {
                if stored_in_keychain {
                    self.user_settings.api_key = None;
                    ApiKeySaveLocation::Keychain
                } else {
                    self.session_api_key = Some(owned(api_key));
                    ApiKeySaveLocation::SessionOnly
                }
            },
            ApiKeyStorageMode::Plaintext => {
                self.user_settings.api_key = Some(owned(api_key));
                ApiKeySaveLocation::Plaintext
            },
        }
    }

    /// Sets a new API key: in the keychain mode it is offered to the keychain
    /// first (with `keyring`) and counts as stored there only when it reads
    /// back. Says where it went (see `record_api_key`); the
    /// user settings are to be written afterwards.
    pub fn update_user_api_key(&mut self, api_key: &str) -> (r: ApiKeySaveLocation)
        ensures
            final(self).project_settings == old(self).project_settings,
            old(self).user_settings.api_key_storage == Some(ApiKeyStorageMode::Plaintext) ==> r
                == ApiKeySaveLocation::Plaintext && opt_view(final(self).user_settings.api_key)
                == Some(api_key@),
            old(self).user_settings.api_key_storage != Some(ApiKeyStorageMode::Plaintext) ==> (r
                == ApiKeySaveLocation::Keychain && final(self).user_settings == (UserSettings {
                api_key: None,
                ..old(self).user_settings
            })) || (r == ApiKeySaveLocation::SessionOnly && final(self).user_settings == old(
                self,
            ).user_settings && opt_view(final(self).session_api_key) == Some(api_key@)),
    {
        let stored = if self.get_api_key_storage_mode() == ApiKeyStorageMode::Keychain {
            store_api_key_in_keychain(KEYRING_SERVICE, KEYRING_ACCOUNT, api_key) && keychain_reads_back(api_key)
        } else {
            false
        };
        self.record_api_key(api_key, stored)
    }

    /// Moves a key kept in the settings file to the keychain, given whether the
    /// keychain took it: nothing happens unless the keychain mode is on and the
    /// file holds a key; a stored key leaves the file. Says whether the user
    /// settings changed.
    pub fn record_key_migration(&mut self, stored_in_keychain: bool) -> (changed: bool)
        ensures
            changed == (old(self).user_settings.api_key_storage != Some(ApiKeyStorageMode::Plaintext)
                && old(self).user_settings.api_key is Some && stored_in_keychain),
            changed ==> final(self).user_settings == (UserSettings { api_key: None, ..old(self).user_settings }),
            !changed ==> final(self).user_settings == old(self).user_settings,
            final(self).user_settings.api_key_storage == old(self).user_settings.api_key_storage,
            final(self).project_settings == old(self).project_settings,
    {
        if self.get_api_key_storage_mode() != ApiKeyStorageMode::Keychain {
            return false;
        }
        if self.user_settings.api_key.is_none() || !stored_in_keychain {
            return false;
        }
        self.user_settings.api_key = None;
        true
    }

    /// Moves a key kept in the settings file to the keychain (with `keyring`),
    /// when the keychain mode is on (see `record_key_migration`).
    pub fn maybe_migrate_plaintext_api_key_to_keychain(&mut self) -> (changed: bool)
        ensures
            changed ==> old(self).user_settings.api_key_storage != Some(ApiKeyStorageMode::Plaintext)
                && old(self).user_settings.api_key is Some,
            changed ==> final(self).user_settings == (UserSettings { api_key: None, ..old(self).user_settings }),
            !changed ==> final(self).user_settings == old(self).user_settings,
            final(self).user_settings.api_key_storage == old(self).user_settings.api_key_storage,
            final(self).project_settings == old(self).project_settings,
    {
        if self.get_api_key_storage_mode() != ApiKeyStorageMode::Keychain {
            return false;
        }
        let stored = match &self.user_settings.api_key {
            Some(k) => store_api_key_in_keychain(KEYRING_SERVICE, KEYRING_ACCOUNT, k.as_str()),
            None => false,
        };
        self.record_key_migration(stored)
    }

    /// Switches where the API key is kept, given the key the keychain holds: to
    /// the keychain, the file's key is moved there when the keychain took it; to
    /// plaintext, the keychain's key is copied into the file when the file has none.
    pub fn record_storage_mode(
        &mut self,
        mode: ApiKeyStorageMode,
        stored_in_keychain: bool,
        keychain_key: Option<String>,
    )
        ensures
            final(self).user_settings.api_key_storage == Some(mode),
            final(self).project_settings == old(self).project_settings,
            mode == ApiKeyStorageMode::Keychain ==> opt_view(final(self).user_settings.api_key) == (
            if old(self).user_settings.api_key is Some && stored_in_keychain {
                None
            } else {
                opt_view(old(self).user_settings.api_key)
            }),
            mode == ApiKeyStorageMode::Plaintext ==> opt_view(final(self).user_settings.api_key) == (
            if old(self).user_settings.api_key is None {
                opt_view(keychain_key)
            } else {
                opt_view(old(self).user_settings.api_key)
            }),
    {
        self.user_settings.api_key_storage = Some(mode);
        match mode {
            ApiKeyStorageMode::Keychain => {
                self.record_key_migration(stored_in_keychain);
            },
            ApiKeyStorageMode::Plaintext => {
                if self.user_settings.api_key.is_none() {
                    self.user_settings.api_key = keychain_key;
                }
            },
        }
    }

    /// Switches where the API key is kept, reaching the keychain with `keyring`
    /// as `record_storage_mode` describes; the user settings are to be written
    /// afterwards.
    pub fn update_api_key_storage_mode(&mut self, mode: ApiKeyStorageMode)
        ensures
            final(self).user_settings.api_key_storage == Some(mode),
            final(self).project_settings == old(self).project_settings,
            mode == ApiKeyStorageMode::Keychain ==> (final(self).user_settings.api_key is None
                || opt_view(final(self).user_settings.api_key) == opt_view(
                old(self).user_settings.api_key,
            )),
            mode == ApiKeyStorageMode::Plaintext && old(self).user_settings.api_key is Some ==> opt_view(
                final(self).user_settings.api_key,
            ) == opt_view(old(self).user_settings.api_key),
    {
        match mode {
            ApiKeyStorageMode::Keychain => {
                let stored = match &self.user_settings.api_key {
                    Some(k) => store_api_key_in_keychain(KEYRING_SERVICE, KEYRING_ACCOUNT, k.as_str()),
                    None => false,
                };
                self.record_storage_mode(mode, stored, None);
            },
            ApiKeyStorageMode::Plaintext => {
                let from_keychain = if self.user_settings.api_key.is_none() {
                    match load_api_key_from_keychain(KEYRING_SERVICE, KEYRING_ACCOUNT) {
                        Ok(k) => k,
                        Err(_) => None,
                    }
                } else {
                    None
                };
                self.record_storage_mode(mode, false, from_keychain);
            },
        }
    }
}


/// Filling in the defaults a second time changes nothing: migrating settings
/// that were migrated already leaves every field as it was.
pub proof fn law_defaults_are_idempotent(a: UserSettings, b: UserSettings, c: UserSettings)
    requires
        with_defaults(a, b),
        with_defaults(b, c),
    ensures
        opt_view(c.api_key) == opt_view(b.api_key),
        opt_view(c.base_url) == opt_view(b.base_url),
        opt_view(c.default_model) == opt_view(b.default_model),
        opt_texts(c.models) == opt_texts(b.models),
        c.api_key_storage == b.api_key_storage,
{
}

/// In the plaintext mode a key that was recorded is the key in use, unless the
/// environment gives one for the provider; the keychain plays no part.
pub proof fn law_plaintext_key_is_read_back(
    after: UserSettings,
    key: Seq<char>,
    session_key: Option<Seq<char>>,
    keychain_key: Option<Seq<char>>,
)
    requires
        after.api_key_storage == Some(ApiKeyStorageMode::Plaintext),
        opt_view(after.api_key) == Some(key),
        !(session_key matches Some(k) && filled(k)),
    ensures
        api_key_choice(None, session_key, keychain_mode(after), keychain_key, opt_view(after.api_key)) == Some(key),
{
}

/// In the keychain mode no key is ever taken from the settings file: the key in
/// use is the keychain's when it is not blank, and none otherwise (when neither
/// the environment nor this run gives one).
pub proof fn law_keychain_key_is_read_back(after: UserSettings, key: Seq<char>, file_key: Option<Seq<char>>)
    requires
        after.api_key_storage != Some(ApiKeyStorageMode::Plaintext),
        filled(key),
    ensures
        api_key_choice(None, None, keychain_mode(after), Some(key), file_key) == Some(key),
        api_key_choice(None, None, keychain_mode(after), None, file_key) is None,
{
}

/// A key the keychain refused in the keychain mode is the key in use for the
/// rest of the run, though no file holds it.
pub proof fn law_refused_key_is_kept_for_the_run(after: UserSettings, key: Seq<char>, keychain_key: Option<Seq<char>>)
    requires
        after.api_key_storage != Some(ApiKeyStorageMode::Plaintext),
        filled(key),
    ensures
        api_key_choice(None, Some(key), keychain_mode(after), keychain_key, opt_view(after.api_key)) == Some(key),
{
}

/// For xAI the environment is searched in the order `GROK_API_KEY`,
/// `XAI_API_KEY`, `OPENAI_API_KEY`, for other providers `GROK_API_KEY`,
/// `OPENAI_API_KEY`, `XAI_API_KEY`; and the environment's key wins over every
/// stored one.
pub proof fn law_env_key_order(env: ApiKeyEnv, session_key: Option<Seq<char>>, kc: bool, keychain_key: Option<
    Seq<char>,
>, file_key: Option<Seq<char>>)
    requires
        !(opt_view(env.grok) matches Some(k) && filled(k)),
        opt_view(env.xai) matches Some(k) && filled(k),
        opt_view(env.openai) matches Some(k) && filled(k),
    ensures
        env_key_for(ProviderKind::Xai, env) == opt_view(env.xai),
        env_key_for(ProviderKind::Compatible, env) == opt_view(env.openai),
        api_key_choice(env_key_for(ProviderKind::Xai, env), session_key, kc, keychain_key, file_key) == opt_view(
            env.xai,
        ),
{
}

} // verus!

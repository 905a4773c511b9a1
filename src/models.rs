//! Configuration, AI provider selection and article metadata.

use vstd::prelude::*;

use crate::accounts::{names_of, AccountMap, WeChatAccount};
use crate::error::Error;
use crate::text::{clone_opt, is_blank, blank, str_eq};

verus! {

/// The AI backend chosen for cover generation, with its key and an optional
/// endpoint override.
#[derive(Debug, PartialEq)]
pub enum AiProvider {
    OpenAI { api_key: String, base_url: Option<String> },
    Gemini { api_key: String, base_url: Option<String> },
}

impl Clone for AiProvider {
    fn clone(&self) -> (r: Self)
        ensures
            r == *self,
    {
        match self {
            AiProvider::OpenAI { api_key, base_url } => AiProvider::OpenAI {
                api_key: api_key.clone(),
                base_url: clone_opt(base_url),
            },
            AiProvider::Gemini { api_key, base_url } => AiProvider::Gemini {
                api_key: api_key.clone(),
                base_url: clone_opt(base_url),
            },
        }
    }
}

impl AiProvider {
    /// The key of either variant.
    pub open spec fn key(&self) -> String {
        match self {
            AiProvider::OpenAI { api_key, .. } => *api_key,
            AiProvider::Gemini { api_key, .. } => *api_key,
        }
    }

    pub fn openai(api_key: String) -> (r: Self)
        ensures
            r == (AiProvider::OpenAI { api_key, base_url: None }),
    {
        AiProvider::OpenAI { api_key, base_url: None }
    }

    pub fn gemini(api_key: String) -> (r: Self)
        ensures
            r == (AiProvider::Gemini { api_key, base_url: None }),
    {
        AiProvider::Gemini { api_key, base_url: None }
    }

    pub fn api_key(&self) -> (r: &str)
        ensures
            r@ == self.key()@,
    {
        match self {
            AiProvider::OpenAI { api_key, .. } => api_key.as_str(),
            AiProvider::Gemini { api_key, .. } => api_key.as_str(),
        }
    }

    /// Display name of the backend.
    pub fn name(&self) -> (r: &'static str)
        ensures
            self is OpenAI ==> r@ == "OpenAI"@,
            self is Gemini ==> r@ == "Gemini"@,
    {
        match self {
            AiProvider::OpenAI { .. } => "OpenAI",
            AiProvider::Gemini { .. } => "Gemini",
        }
    }
}

/// The AI provider block of a configuration file.
#[derive(Debug)]
pub struct AiProviderConfig {
    /// `openai` or `gemini`, in any letter case.
    pub provider: String,
    pub api_key: String,
    pub base_url: Option<String>,
}

/// Global settings of a configuration file.
#[derive(Debug)]
pub struct GlobalSettings {
    pub verbose: Option<bool>,
    pub default_theme: Option<String>,
    pub default_code_highlighter: Option<String>,
}

/// The content of a multi-account configuration file.
#[derive(Debug)]
pub struct ConfigFile {
    pub accounts: AccountMap,
    pub default_account: Option<String>,
    pub ai_provider: Option<AiProviderConfig>,
    pub settings: Option<GlobalSettings>,
}

/// The runtime configuration: the active account, every known account, and
/// the AI provider used for covers, if any.
#[derive(Debug)]
pub struct Config {
    pub wechat_account: WeChatAccount,
    pub available_accounts: AccountMap,
    pub ai_provider: Option<AiProvider>,
    pub verbose: bool,
    pub config_file_path: Option<String>,
}

/// Lower-case form of a text, as `str::to_lowercase` gives it.
pub uninterp spec fn lower_of(s: Seq<char>) -> Seq<char>;

/// Relies on `str::to_lowercase`: the lower-case mapping of each character,
/// which depends on the characters alone.
#[verifier::external_body]
fn lowercase(s: &str) -> (r: String)
    ensures
        r@ == lower_of(s@),
{
    s.to_lowercase()
}

/// The provider that an environment selector (already lower-cased) picks:
/// `gemini` takes the Gemini key, anything else the OpenAI key; no key, no
/// provider.
pub open spec fn env_provider_spec(
    lowered: Seq<char>,
    openai_key: Option<String>,
    gemini_key: Option<String>,
) -> Option<AiProvider> {
    if lowered == "gemini"@ {
        match gemini_key {
            Some(k) => Some(AiProvider::Gemini { api_key: k, base_url: None }),
            None => None,
        }
    } else {
        match openai_key {
            Some(k) => Some(AiProvider::OpenAI { api_key: k, base_url: None }),
            None => None,
        }
    }
}

/// The provider that a configuration file's block (its name already
/// lower-cased) describes.
pub open spec fn file_provider_spec(lowered: Seq<char>, cfg: AiProviderConfig) -> Result<
    AiProvider,
    Error,
> {
    if lowered == "openai"@ {
        Ok(AiProvider::OpenAI { api_key: cfg.api_key, base_url: cfg.base_url })
    } else if lowered == "gemini"@ {
        Ok(AiProvider::Gemini { api_key: cfg.api_key, base_url: cfg.base_url })
    } else {
        Err(Error::UnsupportedProvider { name: cfg.provider })
    }
}

/// The first problem with the credentials of a sequence of accounts.
pub open spec fn account_fault(s: Seq<(String, WeChatAccount)>) -> Option<Error>
    decreases s.len(),
{
    if s.len() == 0 {
        None
    } else if blank(s[0].1.app_id@) {
        Some(Error::EmptyAppId { account: s[0].0 })
    } else if blank(s[0].1.app_secret@) {
        Some(Error::EmptyAppSecret { account: s[0].0 })
    } else {
        account_fault(s.drop_first())
    }
}

/// The name of the account that a configuration file selects: the requested
/// one, else the file's default, else the first declared.
pub open spec fn selected_name(
    requested: Option<Seq<char>>,
    default_account: Option<String>,
    accounts: Seq<(String, WeChatAccount)>,
) -> Seq<char> {
    match requested {
        Some(n) => n,
        None => match default_account {
            Some(d) => d@,
            None => accounts[0].0@,
        },
    }
}

impl Config {
    /// What `validate` reports, if anything.
    pub open spec fn validation_fault(&self) -> Option<Error> {
        if self.available_accounts@.len() == 0 {
            Some(Error::EmptyAccountSet)
        } else if blank(self.wechat_account.app_id@) {
            Some(Error::EmptyAppId { account: self.wechat_account.name })
        } else if blank(self.wechat_account.app_secret@) {
            Some(Error::EmptyAppSecret { account: self.wechat_account.name })
        } else {
            account_fault(self.available_accounts@)
        }
    }

    /// A configuration with one account, named `main`.
    pub fn new(
        wechat_app_id: String,
        wechat_app_secret: String,
        ai_provider: Option<AiProvider>,
        verbose: bool,
    ) -> (r: Self)
        ensures
            r.wechat_account.name@ == "main"@,
            r.wechat_account.app_id == wechat_app_id,
            r.wechat_account.app_secret == wechat_app_secret,
            r.wechat_account.description matches Some(d) && d@ == "Main account"@,
            r.available_accounts@ == seq![(r.wechat_account.name, r.wechat_account)],
            r.ai_provider == ai_provider,
            r.verbose == verbose,
            r.config_file_path is None,
    {
        let account = WeChatAccount {
            name: String::from_str("main"),
            app_id: wechat_app_id,
            app_secret: wechat_app_secret,
            description: Some(String::from_str("Main account")),
        };
        let mut available_accounts = AccountMap::new();
        available_accounts.insert(account.name.clone(), account.clone());
        assert(available_accounts@ =~= seq![(account.name, account)]);
        Config {
            wechat_account: account,
            available_accounts,
            ai_provider,
            verbose,
            config_file_path: None,
        }
    }

    /// A configuration over the given accounts, with `default_account_name`
    /// active; fails when no account has that name.
    pub fn new_with_accounts(
        accounts: AccountMap,
        default_account_name: &str,
        ai_provider: Option<AiProvider>,
        verbose: bool,
    ) -> (r: Result<Self, Error>)
        ensures
            accounts.lookup(default_account_name@) is None ==> (r matches Err(
                Error::AccountNotFound { name, available },
            ) && name@ == default_account_name@ && available@.map_values(|s: String| s@)
                == names_of(accounts@)),
            accounts.lookup(default_account_name@) matches Some(a) ==> (r matches Ok(c)
                && c.wechat_account == a && c.available_accounts@ == accounts@ && c.ai_provider
                == ai_provider && c.verbose == verbose && c.config_file_path is None),
    {
        match accounts.get(default_account_name) {
            Some(a) => {
                let account = a.clone();
                Ok(Config {
                    wechat_account: account,
                    available_accounts: accounts,
                    ai_provider,
                    verbose,
                    config_file_path: None,
                })
            },
            None => Err(
                Error::AccountNotFound {
                    name: String::from_str(default_account_name),
                    available: accounts.names(),
                },
            ),
        }
    }

    /// A single-account configuration whose optional key selects OpenAI.
    pub fn new_with_openai_key(
        wechat_app_id: String,
        wechat_app_secret: String,
        openai_api_key: Option<String>,
        verbose: bool,
    ) -> (r: Self)
        ensures
            r.wechat_account.app_id == wechat_app_id,
            r.wechat_account.app_secret == wechat_app_secret,
            r.ai_provider == (match openai_api_key {
                Some(k) => Some(AiProvider::OpenAI { api_key: k, base_url: None }),
                None => None,
            }),
            r.verbose == verbose,
    {
        let ai_provider = match openai_api_key {
            Some(k) => Some(AiProvider::openai(k)),
            None => None,
        };
        Config::new(wechat_app_id, wechat_app_secret, ai_provider, verbose)
    }

    /// The same configuration with the verbose flag set to `verbose`.
    pub fn with_verbose(self, verbose: bool) -> (r: Self)
        ensures
            r == (Config { verbose, ..self }),
    {
        let mut c = self;
        c.verbose = verbose;
        c
    }

    /// Every known account, in declaration order.
    pub fn list_accounts(&self) -> (r: Vec<&WeChatAccount>)
        ensures
            r@.len() == self.available_accounts@.len(),
            forall|j: int|
                0 <= j < r@.len() ==> *r@[j] == #[trigger] self.available_accounts@[j].1,
    {
        self.available_accounts.accounts()
    }

    /// Makes the account named `account_name` the active one; fails, changing
    /// nothing, when there is no such account.
    pub fn switch_account(&mut self, account_name: &str) -> (r: Result<(), Error>)
        ensures
            old(self).available_accounts.lookup(account_name@) matches Some(a) ==> (r is Ok
                && final(self).wechat_account == a),
            old(self).available_accounts.lookup(account_name@) is None ==> (r matches Err(
                Error::AccountNotFound { name, available },
            ) && name@ == account_name@ && available@.map_values(|s: String| s@) == names_of(
                old(self).available_accounts@,
            ) && final(self).wechat_account == old(self).wechat_account),
            final(self).available_accounts@ == old(self).available_accounts@,
            final(self).ai_provider == old(self).ai_provider,
            final(self).verbose == old(self).verbose,
            final(self).config_file_path == old(self).config_file_path,
    {
        let found = match self.available_accounts.get(account_name) {
            Some(a) => Some(a.clone()),
            None => None,
        };
        match found {
            Some(a) => {
                self.wechat_account = a;
                Ok(())
            },
            None => Err(
                Error::AccountNotFound {
                    name: String::from_str(account_name),
                    available: self.available_accounts.names(),
                },
            ),
        }
    }

    /// Checks that an account is configured and that no account, the active
    /// one first, has an empty or whitespace-only credential.
    pub fn validate(&self) -> (r: Result<(), Error>)
        ensures
            self.validation_fault() is None ==> r is Ok,
            self.validation_fault() matches Some(e) ==> r == Err::<(), Error>(e),
    {
        if self.available_accounts.is_empty() {
            return Err(Error::EmptyAccountSet);
        }
        if is_blank(self.wechat_account.app_id.as_str()) {
            return Err(Error::EmptyAppId { account: self.wechat_account.name.clone() });
        }
        if is_blank(self.wechat_account.app_secret.as_str()) {
            return Err(Error::EmptyAppSecret { account: self.wechat_account.name.clone() });
        }
        let accounts = self.available_accounts.accounts();
        let names = self.available_accounts.names();
        let ghost all = self.available_accounts@;
        let mut i: usize = 0;
        assert(all.subrange(0, all.len() as int) =~= all);
        while i < accounts.len()
            invariant
                accounts@.len() == all.len(),
                names@.len() == all.len(),
                forall|j: int| 0 <= j < all.len() ==> *accounts@[j] == #[trigger] all[j].1,
                forall|j: int| 0 <= j < all.len() ==> names@[j] == #[trigger] all[j].0,
                i <= all.len(),
                account_fault(all) == account_fault(all.subrange(i as int, all.len() as int)),
                self.validation_fault() == account_fault(all),
            decreases all.len() - i,
        {
            let ghost rest = all.subrange(i as int, all.len() as int);
            assert(rest.drop_first() =~= all.subrange(i + 1, all.len() as int));
            assert(rest[0] == all[i as int]);
            if is_blank(accounts[i].app_id.as_str()) {
                return Err(Error::EmptyAppId { account: names[i].clone() });
            }
            if is_blank(accounts[i].app_secret.as_str()) {
                return Err(Error::EmptyAppSecret { account: names[i].clone() });
            }
            i = i + 1;
        }
        Ok(())
    }
}

/// The provider named by an environment selector that is already in lower
/// case: `gemini` takes the Gemini key, any other name the OpenAI key.
pub fn provider_for_selector(
    lowered: &str,
    openai_key: Option<String>,
    gemini_key: Option<String>,
) -> (r: Option<AiProvider>)
    ensures
        r == env_provider_spec(lowered@, openai_key, gemini_key),
{
    if str_eq(lowered, "gemini") {
        match gemini_key {
            Some(k) => Some(AiProvider::gemini(k)),
            None => None,
        }
    } else {
        match openai_key {
            Some(k) => Some(AiProvider::openai(k)),
            None => None,
        }
    }
}

/// The provider that the environment's selector and keys describe; the
/// selector defaults to `openai` and is compared without regard to case.
pub fn provider_from_env_values(
    selector: Option<String>,
    openai_key: Option<String>,
    gemini_key: Option<String>,
) -> (r: Option<AiProvider>)
    ensures
        selector matches Some(s) ==> r == env_provider_spec(lower_of(s@), openai_key, gemini_key),
        selector is None ==> r == env_provider_spec(lower_of("openai"@), openai_key, gemini_key),
{
    let lowered = match selector {
        Some(s) => lowercase(s.as_str()),
        None => lowercase("openai"),
    };
    provider_for_selector(lowered.as_str(), openai_key, gemini_key)
}

/// The provider of a configuration file's block whose name is already in
/// lower case; any name but `openai` and `gemini` is refused.
pub fn provider_for_config(lowered: &str, cfg: AiProviderConfig) -> (r: Result<AiProvider, Error>)
    ensures
        r == file_provider_spec(lowered@, cfg),
{
    if str_eq(lowered, "openai") {
        Ok(AiProvider::OpenAI { api_key: cfg.api_key, base_url: cfg.base_url })
    } else if str_eq(lowered, "gemini") {
        Ok(AiProvider::Gemini { api_key: cfg.api_key, base_url: cfg.base_url })
    } else {
        Err(Error::UnsupportedProvider { name: cfg.provider })
    }
}

impl Config {
    /// The configuration that environment values describe: both credentials
    /// are required, the account is named `default`, and the provider comes
    /// from the selector and key variables.
    pub fn from_env_values(
        app_id: Option<String>,
        app_secret: Option<String>,
        selector: Option<String>,
        openai_key: Option<String>,
        gemini_key: Option<String>,
    ) -> (r: Result<Self, Error>)
        ensures
            app_id is None ==> (r matches Err(Error::MissingEnvVar { var }) && var@
                == "WECHAT_APP_ID"@),
            app_id is Some && app_secret is None ==> (r matches Err(Error::MissingEnvVar { var })
                && var@ == "WECHAT_APP_SECRET"@),
            app_id matches Some(id) ==> (app_secret matches Some(secret) ==> (r matches Ok(c)
                && c.wechat_account.name@ == "default"@ && c.wechat_account.app_id == id
                && c.wechat_account.app_secret == secret && c.available_accounts@ == seq![
                (c.wechat_account.name, c.wechat_account)] && c.ai_provider == env_provider_spec(
                lower_of(
                    match selector {
                        Some(s) => s@,
                        None => "openai"@,
                    },
                ),
                openai_key,
                gemini_key,
            ) && !c.verbose && c.config_file_path is None)),
    {
        let id = match app_id {
            Some(v) => v,
            None => {
                return Err(Error::MissingEnvVar { var: String::from_str("WECHAT_APP_ID") });
            },
        };
        let secret = match app_secret {
            Some(v) => v,
            None => {
                return Err(Error::MissingEnvVar { var: String::from_str("WECHAT_APP_SECRET") });
            },
        };
        let account = WeChatAccount {
            name: String::from_str("default"),
            app_id: id,
            app_secret: secret,
            description: Some(String::from_str("Default account from environment variables")),
        };
        let mut available_accounts = AccountMap::new();
        available_accounts.insert(account.name.clone(), account.clone());
        assert(available_accounts@ =~= seq![(account.name, account)]);
        let ai_provider = provider_from_env_values(selector, openai_key, gemini_key);
        Ok(Config {
            wechat_account: account,
            available_accounts,
            ai_provider,
            verbose: false,
            config_file_path: None,
        })
    }

    /// The configuration that a configuration file describes. The account is
    /// the requested one, else the file's default, else the first declared;
    /// the provider is the file's, else `env_provider`.
    pub fn from_config_file(
        file: ConfigFile,
        requested_account: Option<&str>,
        env_provider: Option<AiProvider>,
        path: String,
    ) -> (r: Result<Self, Error>)
        ensures
            file.accounts@.len() == 0 ==> r == Err::<Config, Error>(Error::EmptyAccountSet),
            file.accounts@.len() > 0 ==> ({
                let name = selected_name(
                    match requested_account {
                        Some(n) => Some(n@),
                        None => None,
                    },
                    file.default_account,
                    file.accounts@,
                );
                &&& file.accounts.lookup(name) is None ==> (r matches Err(
                    Error::AccountNotFound { name: n, available },
                ) && n@ == name && available@.map_values(|s: String| s@) == names_of(
                    file.accounts@,
                ))
                &&& file.accounts.lookup(name) matches Some(a) ==> (match file.ai_provider {
                    Some(cfg) => match file_provider_spec(lower_of(cfg.provider@), cfg) {
                        Err(e) => r == Err::<Config, Error>(e),
                        Ok(p) => r matches Ok(c) && c.ai_provider == Some(p),
                    },
                    None => r matches Ok(c) && c.ai_provider == env_provider,
                })
                &&& requested_account is None && file.default_account is None ==> file.accounts.lookup(
                    file.accounts@[0].0@,
                ) == Some(file.accounts@[0].1)
                &&& requested_account is None && file.default_account is None ==> (r matches Ok(c)
                    ==> c.wechat_account == file.accounts@[0].1)
                &&& r matches Ok(c) ==> c.wechat_account == file.accounts.lookup(name)->0
                    && c.available_accounts@ == file.accounts@ && c.verbose == (match file.settings {
                    Some(s) => s.verbose == Some(true),
                    None => false,
                }) && c.config_file_path == Some(path)
            }),
    {
        if file.accounts.is_empty() {
            return Err(Error::EmptyAccountSet);
        }
        proof {
            file.accounts.lemma_lookup_at(0);
        }
        let selected: String = match requested_account {
            Some(n) => String::from_str(n),
            None => match &file.default_account {
                Some(d) => d.clone(),
                None => match file.accounts.first() {
                    Some(e) => e.0.clone(),
                    None => String::new(),
                },
            },
        };
        let account = match file.accounts.get(selected.as_str()) {
            Some(a) => a.clone(),
            None => {
                return Err(
                    Error::AccountNotFound { name: selected, available: file.accounts.names() },
                );
            },
        };
        let verbose = match &file.settings {
            Some(s) => match s.verbose {
                Some(v) => v,
                None => false,
            },
            None => false,
        };
        let ai_provider = match file.ai_provider {
            Some(cfg) => {
                let lowered = lowercase(cfg.provider.as_str());
                match provider_for_config(lowered.as_str(), cfg) {
                    Ok(p) => Some(p),
                    Err(e) => {
                        return Err(e);
                    },
                }
            },
            None => env_provider,
        };
        Ok(Config {
            wechat_account: account,
            available_accounts: file.accounts,
            ai_provider,
            verbose,
            config_file_path: Some(path),
        })
    }
}

/// The provider that command-line options select: `gemini` takes Gemini,
/// any other name (by default `openai`) OpenAI; the key is the given one,
/// else the selected provider's environment key.
pub open spec fn override_spec(
    provider: Option<Seq<char>>,
    api_key: Option<String>,
    env_openai_key: Option<String>,
    env_gemini_key: Option<String>,
) -> Option<AiProvider> {
    let gemini = provider == Some("gemini"@);
    let key = match api_key {
        Some(k) => Some(k),
        None => if gemini {
            env_gemini_key
        } else {
            env_openai_key
        },
    };
    match key {
        Some(k) => Some(
            if gemini {
                AiProvider::Gemini { api_key: k, base_url: None }
            } else {
                AiProvider::OpenAI { api_key: k, base_url: None }
            },
        ),
        None => None,
    }
}

impl Config {
    /// Applies command-line overrides: a provider name or key replaces the
    /// AI provider (failing when no key can be found for it), `verbose`
    /// turns verbose output on; the result is then validated.
    pub fn apply_overrides(
        self,
        provider: Option<&str>,
        api_key: Option<String>,
        env_openai_key: Option<String>,
        env_gemini_key: Option<String>,
        verbose: bool,
    ) -> (r: Result<Self, Error>)
        ensures
            ({
                let pv = match provider {
                    Some(p) => Some(p@),
                    None => None,
                };
                let chosen = if provider is Some || api_key is Some {
                    override_spec(pv, api_key, env_openai_key, env_gemini_key)
                } else {
                    self.ai_provider
                };
                let out = Config {
                    ai_provider: chosen,
                    verbose: self.verbose || verbose,
                    ..self
                };
                &&& (provider is Some || api_key is Some) && chosen is None ==> (r matches Err(
                    Error::MissingEnvVar { var },
                ) && (if pv == Some("gemini"@) {
                    var@ == "GEMINI_API_KEY"@
                } else {
                    var@ == "OPENAI_API_KEY"@
                }))
                &&& !((provider is Some || api_key is Some) && chosen is None) ==> (match out.validation_fault() {
                    Some(e) => r == Err::<Config, Error>(e),
                    None => r == Ok::<Config, Error>(out),
                })
            }),
    {
        let mut c = self;
        if provider.is_some() || api_key.is_some() {
            let gemini = match provider {
                Some(p) => str_eq(p, "gemini"),
                None => false,
            };
            let key = match api_key {
                Some(k) => Some(k),
                None => if gemini {
                    env_gemini_key
                } else {
                    env_openai_key
                },
            };
            let k = match key {
                Some(k) => k,
                None => {
                    let var = if gemini {
                        String::from_str("GEMINI_API_KEY")
                    } else {
                        String::from_str("OPENAI_API_KEY")
                    };
                    return Err(Error::MissingEnvVar { var });
                },
            };
            c.ai_provider = Some(
                if gemini {
                    AiProvider::gemini(k)
                } else {
                    AiProvider::openai(k)
                },
            );
        }
        if verbose {
            c.verbose = true;
        }
        match c.validate() {
            Ok(()) => Ok(c),
            Err(e) => Err(e),
        }
    }
}

/// The article themes that the platform knows.
pub open spec fn theme_names() -> Seq<Seq<char>> {
    seq![
        "default"@,
        "lapis"@,
        "maize"@,
        "orangeheart"@,
        "phycat"@,
        "pie"@,
        "purple"@,
        "rainbow"@,
    ]
}

/// The code highlighters that the platform knows.
pub open spec fn highlighter_names() -> Seq<Seq<char>> {
    seq![
        "github"@,
        "github-dark"@,
        "vscode"@,
        "atom-one-light"@,
        "atom-one-dark"@,
        "solarized-light"@,
        "solarized-dark"@,
        "monokai"@,
        "dracula"@,
        "xcode"@,
    ]
}

/// Whether `x` is one of `names`.
fn one_of(x: &str, names: &[&str]) -> (r: bool)
    ensures
        r == names@.map_values(|s: &str| s@).contains(x@),
{
    let ghost views = names@.map_values(|s: &str| s@);
    let mut i: usize = 0;
    while i < names.len()
        invariant
            i <= names@.len(),
            views == names@.map_values(|s: &str| s@),
            forall|j: int| 0 <= j < i ==> views[j] != x@,
        decreases names@.len() - i,
    {
        if str_eq(names[i], x) {
            assert(views[i as int] == x@);
            return true;
        }
        i = i + 1;
    }
    false
}

/// Whether `theme` is a known theme.
pub fn is_valid_theme(theme: &str) -> (r: bool)
    ensures
        r == theme_names().contains(theme@),
{
    let names: [&str; 8] = [
        "default",
        "lapis",
        "maize",
        "orangeheart",
        "phycat",
        "pie",
        "purple",
        "rainbow",
    ];
    assert(names@.map_values(|s: &str| s@) =~= theme_names());
    one_of(theme, &names)
}

/// Whether `highlighter` is a known code highlighter.
pub fn is_valid_code_highlighter(highlighter: &str) -> (r: bool)
    ensures
        r == highlighter_names().contains(highlighter@),
{
    let names: [&str; 10] = [
        "github",
        "github-dark",
        "vscode",
        "atom-one-light",
        "atom-one-dark",
        "solarized-light",
        "solarized-dark",
        "monokai",
        "dracula",
        "xcode",
    ];
    assert(names@.map_values(|s: &str| s@) =~= highlighter_names());
    one_of(highlighter, &names)
}

} // verus!

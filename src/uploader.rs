//! The uploader's configuration side: the active account and the AI backend
//! derived from the configuration.

use vstd::prelude::*;

use crate::accounts::{names_of, WeChatAccount};
use crate::error::Error;
use crate::models::{AiProvider, Config};
use crate::providers::ProviderConfig;

verus! {

/// The configuration of an uploader and the AI backend it uses for covers.
#[derive(Debug)]
pub struct WxUploader {
    pub config: Config,
    pub ai_client: Option<ProviderConfig>,
}

/// The backend that a configured provider selects.
pub open spec fn backend_of(p: AiProvider) -> ProviderConfig {
    match p {
        AiProvider::OpenAI { api_key, base_url } => ProviderConfig::OpenAI { api_key, base_url },
        AiProvider::Gemini { api_key, base_url } => ProviderConfig::Gemini { api_key, base_url },
    }
}

impl WxUploader {
    /// An uploader for `config`, with the backend its provider selects.
    pub fn from_config(config: Config) -> (r: Self)
        ensures
            r.config == config,
            config.ai_provider matches Some(p) ==> r.ai_client == Some(backend_of(p)),
            config.ai_provider is None ==> r.ai_client is None,
    {
        let ai_client = match &config.ai_provider {
            Some(p) => Some(ProviderConfig::from_provider(p)),
            None => None,
        };
        WxUploader { config, ai_client }
    }

    /// The active account.
    pub fn current_account(&self) -> (r: &WeChatAccount)
        ensures
            *r == self.config.wechat_account,
    {
        &self.config.wechat_account
    }

    /// Every known account, in declaration order.
    pub fn list_accounts(&self) -> (r: Vec<&WeChatAccount>)
        ensures
            r@.len() == self.config.available_accounts@.len(),
            forall|j: int|
                0 <= j < r@.len() ==> *r@[j] == #[trigger] self.config.available_accounts@[j].1,
    {
        self.config.list_accounts()
    }

    /// Makes another account active; the platform client must then be
    /// created anew for it.
    pub fn switch_account(&mut self, account_name: &str) -> (r: Result<(), Error>)
        ensures
            old(self).config.available_accounts.lookup(account_name@) matches Some(a) ==> (r is Ok
                && final(self).config.wechat_account == a),
            old(self).config.available_accounts.lookup(account_name@) is None ==> (r matches Err(
                Error::AccountNotFound { name, available },
            ) && name@ == account_name@ && available@.map_values(|s: String| s@) == names_of(
                old(self).config.available_accounts@,
            ) && final(self).config.wechat_account == old(self).config.wechat_account),
            final(self).config.available_accounts@ == old(self).config.available_accounts@,
            final(self).ai_client == old(self).ai_client,
    {
        self.config.switch_account(account_name)
    }
}

} // verus!

use vstd::prelude::*;
use vstd::utf8::is_ascii_chars;

verus! {

/// The language-model settings.
#[derive(Clone, Debug)]
pub struct ModelConfig {
    pub name: String,
    pub provider: String,
    pub temperature: i32,
    pub api_token: String,
    pub api_group: String,
}

/// The application's settings.
#[derive(Clone, Debug)]
pub struct AppConfig {
    pub wechat_nick: String,
    pub model: ModelConfig,
    pub hot_key: String,
}

/// Who the reply is to be written as.
#[derive(Debug)]
pub struct ReplyConstraints<'a> {
    pub sender_type: &'a str,
    pub sender_name: &'a str,
}

impl<'a> ReplyConstraints<'a> {
    /// Constraints for a reply written by the bot of the given name.
    pub fn new_minimax(bot_name: &'a str) -> (r: Self)
        ensures
            r.sender_type@ == "BOT"@,
            r.sender_name == bot_name,
    {
        ReplyConstraints { sender_type: "BOT", sender_name: bot_name }
    }
}

/// Status part of the model provider's answer.
#[derive(Clone, Debug)]
pub struct ApiResponseBase {
    pub status_code: i32,
    pub status_msg: String,
}

/// The model provider's answer.
#[derive(Clone, Debug)]
pub struct ApiResponse {
    pub reply: String,
    pub base_resp: ApiResponseBase,
}

/// Why a configuration is refused.
#[derive(Clone, Copy, Debug, PartialEq, Eq)]
pub enum ConfigError {
    /// The hot key is not a single ASCII character (one byte), or the
    /// nickname is empty.
    Incomplete,
    /// The temperature is not within 1..=100.
    TemperatureOutOfRange,
    /// The model provider or the model name is empty.
    ModelMissing,
    /// The API group or the API token is empty.
    ApiMissing,
}

impl ConfigError {
    pub open spec fn message_spec(&self) -> Seq<char> {
        match self {
            ConfigError::Incomplete => "配置不完整"@,
            ConfigError::TemperatureOutOfRange => "随机度应介于1-100之间"@,
            ConfigError::ModelMissing => "请填写模型相关配置"@,
            ConfigError::ApiMissing => "请填写模型API相关配置"@,
        }
    }

    /// The fixed text shown to the user for this error.
    pub fn message(&self) -> (r: String)
        ensures
            r@ == self.message_spec(),
    {
        match self {
            ConfigError::Incomplete => String::from_str("配置不完整"),
            ConfigError::TemperatureOutOfRange => String::from_str("随机度应介于1-100之间"),
            ConfigError::ModelMissing => String::from_str("请填写模型相关配置"),
            ConfigError::ApiMissing => String::from_str("请填写模型API相关配置"),
        }
    }
}

/// The checks a configuration must pass before it is stored, in order.
pub open spec fn config_check_spec(c: AppConfig) -> Result<(), ConfigError> {
    if !(c.hot_key@.len() == 1 && is_ascii_chars(c.hot_key@)) || c.wechat_nick@.len() == 0 {
        Err(ConfigError::Incomplete)
    } else if c.model.temperature <= 0 || c.model.temperature > 100 {
        Err(ConfigError::TemperatureOutOfRange)
    } else if c.model.provider@.len() == 0 || c.model.name@.len() == 0 {
        Err(ConfigError::ModelMissing)
    } else if c.model.api_group@.len() == 0 || c.model.api_token@.len() == 0 {
        Err(ConfigError::ApiMissing)
    } else {
        Ok(())
    }
}

/// Checks a configuration before it is stored.
pub fn validate_config(c: &AppConfig) -> (r: Result<(), ConfigError>)
    ensures
        r == config_check_spec(*c),
{
    if !(c.hot_key.as_str().unicode_len() == 1 && c.hot_key.is_ascii())
        || c.wechat_nick.as_str().is_empty() {
        Err(ConfigError::Incomplete)
    } else if c.model.temperature <= 0 || c.model.temperature > 100 {
        Err(ConfigError::TemperatureOutOfRange)
    } else if c.model.provider.as_str().is_empty() || c.model.name.as_str().is_empty() {
        Err(ConfigError::ModelMissing)
    } else if c.model.api_group.as_str().is_empty() || c.model.api_token.as_str().is_empty() {
        Err(ConfigError::ApiMissing)
    } else {
        Ok(())
    }
}

pub open spec fn accelerator_spec(key: Seq<char>) -> Seq<char> {
    "CommandOrControl+Alt+"@ + key
}

/// The global shortcut that the hot key stands for.
pub fn hotkey_accelerator(key: &str) -> (r: String)
    ensures
        r@ == accelerator_spec(key@),
{
    String::from_str("CommandOrControl+Alt+").concat(key)
}

/// When a stored configuration is replaced: the shortcut to unregister and
/// the one to register, if the hot key changed.
pub fn shortcut_change(old_key: &String, new_key: &String) -> (r: Option<(String, String)>)
    ensures
        match r {
            None => old_key@ == new_key@,
            Some((unregister, register)) => old_key@ != new_key@ && unregister@ == accelerator_spec(
                old_key@,
            ) && register@ == accelerator_spec(new_key@),
        },
{
    if old_key.eq(new_key) {
        None
    } else {
        Some((hotkey_accelerator(old_key.as_str()), hotkey_accelerator(new_key.as_str())))
    }
}

} // verus!

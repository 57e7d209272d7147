use chat_assistant::conf::{
    hotkey_accelerator, shortcut_change, validate_config, AppConfig, ConfigError, ModelConfig,
    ReplyConstraints,
};

fn config() -> AppConfig {
    AppConfig {
        wechat_nick: "Ann".to_string(),
        model: ModelConfig {
            name: "abab6-chat".to_string(),
            provider: "minimax".to_string(),
            temperature: 50,
            api_token: "SECRET-REDACTED".to_string(),
            api_group: "123".to_string(),
        },
        hot_key: "R".to_string(),
    }
}

#[test]
fn complete_config_is_accepted() {
    assert_eq!(validate_config(&config()), Ok(()));
    let mut c = config();
    c.model.temperature = 1;
    assert_eq!(validate_config(&c), Ok(()));
    c.model.temperature = 100;
    assert_eq!(validate_config(&c), Ok(()));
}

#[test]
fn hot_key_must_be_one_byte() {
    let mut c = config();
    c.hot_key = "RS".to_string();
    assert_eq!(validate_config(&c), Err(ConfigError::Incomplete));
    c.hot_key = String::new();
    assert_eq!(validate_config(&c), Err(ConfigError::Incomplete));
    c.hot_key = "é".to_string();
    assert_eq!(validate_config(&c), Err(ConfigError::Incomplete));
    let mut c = config();
    c.wechat_nick = String::new();
    assert_eq!(validate_config(&c), Err(ConfigError::Incomplete));
}

#[test]
fn temperature_range_is_checked() {
    let mut c = config();
    c.model.temperature = 0;
    assert_eq!(validate_config(&c), Err(ConfigError::TemperatureOutOfRange));
    c.model.temperature = 101;
    assert_eq!(validate_config(&c), Err(ConfigError::TemperatureOutOfRange));
}

#[test]
fn model_and_api_fields_are_required() {
    let mut c = config();
    c.model.provider = String::new();
    assert_eq!(validate_config(&c), Err(ConfigError::ModelMissing));
    let mut c = config();
    c.model.name = String::new();
    assert_eq!(validate_config(&c), Err(ConfigError::ModelMissing));
    let mut c = config();
    c.model.api_group = String::new();
    assert_eq!(validate_config(&c), Err(ConfigError::ApiMissing));
    let mut c = config();
    c.model.api_token = String::new();
    assert_eq!(validate_config(&c), Err(ConfigError::ApiMissing));
}

#[test]
fn checks_come_in_order() {
    let mut c = config();
    c.hot_key = String::new();
    c.model.temperature = 0;
    c.model.api_token = String::new();
    assert_eq!(validate_config(&c), Err(ConfigError::Incomplete));
}

#[test]
fn config_error_messages() {
    assert_eq!(ConfigError::Incomplete.message(), "配置不完整");
    assert_eq!(ConfigError::TemperatureOutOfRange.message(), "随机度应介于1-100之间");
    assert_eq!(ConfigError::ModelMissing.message(), "请填写模型相关配置");
    assert_eq!(ConfigError::ApiMissing.message(), "请填写模型API相关配置");
}

#[test]
fn accelerators() {
    assert_eq!(hotkey_accelerator("R"), "CommandOrControl+Alt+R");
    assert_eq!(shortcut_change(&"R".to_string(), &"R".to_string()), None);
    assert_eq!(
        shortcut_change(&"R".to_string(), &"T".to_string()),
        Some(("CommandOrControl+Alt+R".to_string(), "CommandOrControl+Alt+T".to_string()))
    );
}

#[test]
fn minimax_constraints() {
    let c = ReplyConstraints::new_minimax("helper");
    assert_eq!(c.sender_type, "BOT");
    assert_eq!(c.sender_name, "helper");
}

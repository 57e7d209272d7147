use chat_assistant::conf::{ApiResponse, ApiResponseBase, AppConfig, ModelConfig};
use chat_assistant::reply::{
    bot_instruction, clean_pieces, closing_request, endpoint_for, interpret_response, plan_request,
    split_suggestions, token_limit, ReplyError, ReplyOutcome, BOT_NAME,
};

fn config(provider: &str, name: &str) -> AppConfig {
    AppConfig {
        wechat_nick: "Ann".to_string(),
        model: ModelConfig {
            name: name.to_string(),
            provider: provider.to_string(),
            temperature: 50,
            api_token: "SECRET-REDACTED".to_string(),
            api_group: "42".to_string(),
        },
        hot_key: "R".to_string(),
    }
}

#[test]
fn plan_for_supported_model() {
    let p = plan_request(&config("MiniMax", "ABAB6-Chat")).unwrap();
    assert_eq!(p.url, "https://api.minimax.chat/v1/text/chatcompletion_pro?GroupId=42");
    assert_eq!(p.model, "abab6-chat");
    assert_eq!(p.max_tokens, 2048);
    assert_eq!(p.instruction, "阅读Ann和别人的对话记录，从Ann的视角产出5条回复。");
    let p = plan_request(&config("minimax", "abab5.5-chat")).unwrap();
    assert_eq!(p.model, "abab5.5-chat");
    assert_eq!(p.max_tokens, 2048);
}

#[test]
fn unsupported_provider_and_model() {
    let e = plan_request(&config("openai", "abab6-chat")).unwrap_err();
    assert_eq!(e, ReplyError::UnsupportedProvider("openai".to_string()));
    assert_eq!(e.message(), "不支持的模型提供商：openai");
    let e = plan_request(&config("minimax", "Big-Model")).unwrap_err();
    assert_eq!(e, ReplyError::UnsupportedModel("Big-Model".to_string()));
    assert_eq!(e.message(), "不支持的模型：Big-Model");
}

#[test]
fn endpoint_and_limit_take_normalised_names() {
    assert_eq!(endpoint_for(&"MINIMAX".to_string(), "g"), Some("https://api.minimax.chat/v1/text/chatcompletion_pro?GroupId=g".to_string()));
    assert_eq!(endpoint_for(&"minimax".to_string(), "g"), None);
    assert_eq!(token_limit(&"abab6-chat".to_string()), Some(2048));
    assert_eq!(token_limit(&"abab5.5-chat".to_string()), Some(2048));
    assert_eq!(token_limit(&"ABAB6-CHAT".to_string()), None);
}

#[test]
fn instruction_and_closing_request() {
    assert_eq!(bot_instruction("Bo"), "阅读Bo和别人的对话记录，从Bo的视角产出5条回复。");
    let c = closing_request(&"Bo".to_string());
    assert_eq!(c.sender_name, "Bo");
    assert_eq!(c.sender_type, "USER");
    assert!(c.text.starts_with("以上是我和其他人的对话记录"));
    assert!(c.text.contains("\n要求："));
    assert_eq!(BOT_NAME, "智能回复助手");
}

fn answer(code: i32, reply: &str) -> ReplyOutcome {
    ReplyOutcome::Answered(ApiResponse {
        reply: reply.to_string(),
        base_resp: ApiResponseBase { status_code: code, status_msg: "msg".to_string() },
    })
}

#[test]
fn responses_are_interpreted() {
    assert_eq!(interpret_response(answer(0, "text")), Ok("text".to_string()));
    assert_eq!(interpret_response(answer(1004, "text")), Err(ReplyError::ProviderRejected));
    assert_eq!(interpret_response(ReplyOutcome::SendFailed), Err(ReplyError::RequestFailed));
    assert_eq!(interpret_response(ReplyOutcome::Unreadable), Err(ReplyError::ResponseUnreadable));
    assert_eq!(ReplyError::ProviderRejected.message(), "获取回复失败，请稍后重试");
    assert_eq!(ReplyError::RequestFailed.message(), "网络请求失败，请稍后重试");
    assert_eq!(ReplyError::ResponseUnreadable.message(), "解析回复内容失败，请稍后重试");
    assert_eq!(ReplyError::NoHistory.message(), "未找到可供分析的聊天记录，无法产出建议");
    assert_eq!(ReplyError::Busy.message(), "请求过于频繁，请稍后重试");
}

#[test]
fn suggestions_are_split_by_line_and_cleaned() {
    let r = split_suggestions("  好的。。\n\n 没问题 \n明天见。").unwrap();
    assert_eq!(r, vec!["好的", "没问题", "明天见"]);
}

#[test]
fn single_line_is_split_by_spaces() {
    let r = split_suggestions("好的。 没问题  明天见\n").unwrap();
    assert_eq!(r, vec!["好的", "没问题", "明天见"]);
}

#[test]
fn blank_lines_give_no_suggestion() {
    assert_eq!(split_suggestions(""), Err(ReplyError::NoSuggestions));
    assert_eq!(split_suggestions("\n\n"), Err(ReplyError::NoSuggestions));
    assert_eq!(ReplyError::NoSuggestions.message(), "未产出有价值的建议，请稍后重试");
}

#[test]
fn whitespace_only_lines_are_kept_trimmed() {
    assert_eq!(split_suggestions(" \n\t").unwrap(), vec!["", ""]);
    assert_eq!(split_suggestions("\u{3000}").unwrap(), vec![""]);
}

#[test]
fn pieces_keep_inner_full_stops() {
    assert_eq!(clean_pieces("a。b。。|c", '|'), vec!["a。b", "c"]);
    assert_eq!(clean_pieces("|", '|'), Vec::<String>::new());
}

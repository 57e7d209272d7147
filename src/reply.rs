use vstd::prelude::*;

use crate::conf::{ApiResponse, AppConfig};
use crate::history::WechatHistory;

verus! {

/// The name of the bot that writes the suggestions.
pub const BOT_NAME: &'static str = "智能回复助手";

/// How many tokens the supported models may generate.
pub const MAX_TOKENS: i32 = 2048;

#[derive(Clone, Debug, PartialEq, Eq)]
pub enum ReplyError {
    /// The provider named in the configuration is not supported.
    UnsupportedProvider(String),
    /// The model named in the configuration is not supported.
    UnsupportedModel(String),
    /// The request could not be sent.
    RequestFailed,
    /// The answer could not be read.
    ResponseUnreadable,
    /// The provider answered with a non-zero status.
    ProviderRejected,
    /// The answer held no suggestion.
    NoSuggestions,
    /// There was no conversation to suggest replies for.
    NoHistory,
    /// Another request holds the configuration.
    Busy,
}

impl ReplyError {
    pub open spec fn message_spec(&self) -> Seq<char> {
        match self {
            ReplyError::UnsupportedProvider(p) => "不支持的模型提供商："@ + p@,
            ReplyError::UnsupportedModel(m) => "不支持的模型："@ + m@,
            ReplyError::RequestFailed => "网络请求失败，请稍后重试"@,
            ReplyError::ResponseUnreadable => "解析回复内容失败，请稍后重试"@,
            ReplyError::ProviderRejected => "获取回复失败，请稍后重试"@,
            ReplyError::NoSuggestions => "未产出有价值的建议，请稍后重试"@,
            ReplyError::NoHistory => "未找到可供分析的聊天记录，无法产出建议"@,
            ReplyError::Busy => "请求过于频繁，请稍后重试"@,
        }
    }

    /// The text shown to the user for this error.
    pub fn message(&self) -> (r: String)
        ensures
            r@ == self.message_spec(),
    {
        match self {
            ReplyError::UnsupportedProvider(p) => String::from_str("不支持的模型提供商：").concat(
                p.as_str(),
            ),
            ReplyError::UnsupportedModel(m) => String::from_str("不支持的模型：").concat(m.as_str()),
            ReplyError::RequestFailed => String::from_str("网络请求失败，请稍后重试"),
            ReplyError::ResponseUnreadable => String::from_str("解析回复内容失败，请稍后重试"),
            ReplyError::ProviderRejected => String::from_str("获取回复失败，请稍后重试"),
            ReplyError::NoSuggestions => String::from_str("未产出有价值的建议，请稍后重试"),
            ReplyError::NoHistory => String::from_str("未找到可供分析的聊天记录，无法产出建议"),
            ReplyError::Busy => String::from_str("请求过于频繁，请稍后重试"),
        }
    }
}

/// What `str::to_uppercase` makes of a text.
pub uninterp spec fn upper_of(s: Seq<char>) -> Seq<char>;

/// What `str::to_lowercase` makes of a text.
pub uninterp spec fn lower_of(s: Seq<char>) -> Seq<char>;

/// Relies on str::to_uppercase: the result depends on the characters alone.
#[verifier::external_body]
fn uppercase(s: &str) -> (r: String)
    ensures
        r@ == upper_of(s@),
{
    s.to_uppercase()
}

/// Relies on str::to_lowercase: the result depends on the characters alone.
#[verifier::external_body]
fn lowercase(s: &str) -> (r: String)
    ensures
        r@ == lower_of(s@),
{
    s.to_lowercase()
}

pub open spec fn endpoint_spec(provider_upper: Seq<char>, group: Seq<char>) -> Option<Seq<char>> {
    if provider_upper == "MINIMAX"@ {
        Some("https://api.minimax.chat/v1/text/chatcompletion_pro?GroupId="@ + group)
    } else {
        None
    }
}

pub open spec fn token_limit_spec(model_lower: Seq<char>) -> Option<i32> {
    if model_lower == "abab6-chat"@ || model_lower == "abab5.5-chat"@ {
        Some(MAX_TOKENS)
    } else {
        None
    }
}

/// The endpoint of a provider, given its name in upper case, for an API group.
pub fn endpoint_for(provider_upper: &String, group: &str) -> (r: Option<String>)
    ensures
        match r {
            Some(u) => endpoint_spec(provider_upper@, group@) == Some(u@),
            None => endpoint_spec(provider_upper@, group@) is None,
        },
{
    let minimax = String::from_str("MINIMAX");
    if provider_upper.eq(&minimax) {
        Some(
            String::from_str("https://api.minimax.chat/v1/text/chatcompletion_pro?GroupId=").concat(
                group,
            ),
        )
    } else {
        None
    }
}

/// The token limit of a model, given its name in lower case.
pub fn token_limit(model_lower: &String) -> (r: Option<i32>)
    ensures
        r == token_limit_spec(model_lower@),
{
    let six = String::from_str("abab6-chat");
    let five = String::from_str("abab5.5-chat");
    if model_lower.eq(&six) || model_lower.eq(&five) {
        Some(MAX_TOKENS)
    } else {
        None
    }
}

pub open spec fn instruction_spec(nick: Seq<char>) -> Seq<char> {
    "阅读"@ + nick + "和别人的对话记录，从"@ + nick + "的视角产出5条回复。"@
}

/// The bot's standing instruction: read the user's conversation and write
/// replies as the user would.
pub fn bot_instruction(nick: &str) -> (r: String)
    ensures
        r@ == instruction_spec(nick@),
{
    String::from_str("阅读").concat(nick).concat("和别人的对话记录，从").concat(nick).concat(
        "的视角产出5条回复。",
    )
}

pub open spec fn closing_text_spec() -> Seq<char> {
    "以上是我和其他人的对话记录，请结合上述记录，产出5条回复建议。\n要求：给出5条不同的回复，有些回复简短一些，有些回复更长。回复不要带序号，不要输出回复建议之外的任何内容，不同的回复之间需要空两行。"@
}

/// The request appended after the conversation, in the user's name.
pub fn closing_request(nick: &String) -> (r: WechatHistory)
    ensures
        r.text@ == closing_text_spec(),
        r.sender_name@ == nick@,
        r.sender_type@ == "USER"@,
{
    WechatHistory {
        text: String::from_str(
            "以上是我和其他人的对话记录，请结合上述记录，产出5条回复建议。\n要求：给出5条不同的回复，有些回复简短一些，有些回复更长。回复不要带序号，不要输出回复建议之外的任何内容，不同的回复之间需要空两行。",
        ),
        sender_name: nick.clone(),
        sender_type: String::from_str("USER"),
    }
}

/// What a request to the model provider is made of, but for the temperature.
#[derive(Clone, Debug)]
pub struct RequestPlan {
    pub url: String,
    pub model: String,
    pub max_tokens: i32,
    pub instruction: String,
}

/// Plans the request for suggestions: the provider decides the endpoint and
/// the model the token limit, each compared case-insensitively.
pub fn plan_request(c: &AppConfig) -> (r: Result<RequestPlan, ReplyError>)
    ensures
        ({
            let url = endpoint_spec(upper_of(c.model.provider@), c.model.api_group@);
            let limit = token_limit_spec(lower_of(c.model.name@));
            match r {
                Ok(p) => url == Some(p.url@) && limit == Some(p.max_tokens) && p.model@ == lower_of(
                    c.model.name@,
                ) && p.instruction@ == instruction_spec(c.wechat_nick@),
                Err(ReplyError::UnsupportedProvider(name)) => url is None && name@
                    == c.model.provider@,
                Err(ReplyError::UnsupportedModel(name)) => url is Some && limit is None && name@
                    == c.model.name@,
                Err(_) => false,
            }
        }),
{
    let provider = uppercase(c.model.provider.as_str());
    let url = match endpoint_for(&provider, c.model.api_group.as_str()) {
        Some(u) => u,
        None => {
            return Err(ReplyError::UnsupportedProvider(c.model.provider.clone()));
        },
    };
    let model = lowercase(c.model.name.as_str());
    let max_tokens = match token_limit(&model) {
        Some(t) => t,
        None => {
            return Err(ReplyError::UnsupportedModel(c.model.name.clone()));
        },
    };
    Ok(RequestPlan { url, model, max_tokens, instruction: bot_instruction(c.wechat_nick.as_str()) })
}

/// How the request to the model provider went.
#[derive(Clone, Debug)]
pub enum ReplyOutcome {
    /// The request could not be sent or got no answer.
    SendFailed,
    /// An answer came but could not be decoded.
    Unreadable,
    /// The decoded answer.
    Answered(ApiResponse),
}

/// The reply text of an answer with status zero; an error otherwise.
pub fn interpret_response(o: ReplyOutcome) -> (r: Result<String, ReplyError>)
    ensures
        match o {
            ReplyOutcome::SendFailed => r == Err::<String, ReplyError>(ReplyError::RequestFailed),
            ReplyOutcome::Unreadable => r == Err::<String, ReplyError>(
                ReplyError::ResponseUnreadable,
            ),
            ReplyOutcome::Answered(a) => if a.base_resp.status_code == 0 {
                r is Ok && r->Ok_0@ == a.reply@
            } else {
                r == Err::<String, ReplyError>(ReplyError::ProviderRejected)
            },
        },
{
    match o {
        ReplyOutcome::SendFailed => Err(ReplyError::RequestFailed),
        ReplyOutcome::Unreadable => Err(ReplyError::ResponseUnreadable),
        ReplyOutcome::Answered(a) => if a.base_resp.status_code == 0 {
            Ok(a.reply)
        } else {
            Err(ReplyError::ProviderRejected)
        },
    }
}

/// The characters of Unicode's White_Space property.
pub open spec fn is_white_space(c: char) -> bool {
    let u = c as u32;
    (0x9 <= u <= 0xD) || u == 0x20 || u == 0x85 || u == 0xA0 || u == 0x1680 || (0x2000 <= u
        <= 0x200A) || u == 0x2028 || u == 0x2029 || u == 0x202F || u == 0x205F || u == 0x3000
}

pub open spec fn trim_start_spec(s: Seq<char>) -> Seq<char>
    decreases s.len(),
{
    if s.len() > 0 && is_white_space(s[0]) {
        trim_start_spec(s.drop_first())
    } else {
        s
    }
}

pub open spec fn trim_end_spec(s: Seq<char>) -> Seq<char>
    decreases s.len(),
{
    if s.len() > 0 && is_white_space(s.last()) {
        trim_end_spec(s.drop_last())
    } else {
        s
    }
}

/// `s` without leading and trailing white space.
pub open spec fn trim_spec(s: Seq<char>) -> Seq<char> {
    trim_end_spec(trim_start_spec(s))
}

/// `s` without the run of `c` at its end.
pub open spec fn strip_trailing(s: Seq<char>, c: char) -> Seq<char>
    decreases s.len(),
{
    if s.len() > 0 && s.last() == c {
        strip_trailing(s.drop_last(), c)
    } else {
        s
    }
}

/// Relies on str::trim: leading and trailing characters with the Unicode
/// White_Space property are removed.
#[verifier::external_body]
fn trim_str(s: &str) -> (r: &str)
    ensures
        r@ == trim_spec(s@),
{
    s.trim()
}

/// Relies on str::trim_end_matches with a `char` pattern: every trailing
/// occurrence of the character is removed.
#[verifier::external_body]
fn trim_end_char(s: &str, c: char) -> (r: &str)
    ensures
        r@ == strip_trailing(s@, c),
{
    s.trim_end_matches(c)
}

/// The pieces of `s` between occurrences of `sep`, as `str::split` gives
/// them: one more than there are separators.
pub open spec fn split_spec(s: Seq<char>, sep: char) -> Seq<Seq<char>>
    decreases s.len(),
{
    if s.len() == 0 {
        seq![Seq::empty()]
    } else {
        let r = split_spec(s.drop_last(), sep);
        if s.last() == sep {
            r.push(Seq::empty())
        } else {
            r.update(r.len() - 1, r.last().push(s.last()))
        }
    }
}

/// A suggestion as it is shown: trimmed, without its closing full stops.
pub open spec fn clean_piece(p: Seq<char>) -> Seq<char> {
    strip_trailing(trim_spec(p), '。')
}

/// The non-empty pieces, cleaned, in order.
pub open spec fn kept_pieces(ps: Seq<Seq<char>>) -> Seq<Seq<char>>
    decreases ps.len(),
{
    if ps.len() == 0 {
        Seq::empty()
    } else {
        let r = kept_pieces(ps.drop_last());
        if ps.last().len() > 0 {
            r.push(clean_piece(ps.last()))
        } else {
            r
        }
    }
}

/// The suggestions in a reply: one per non-empty line; where that gives a
/// single one, one per non-empty space-separated word instead.
pub open spec fn suggestions_spec(message: Seq<char>) -> Result<Seq<Seq<char>>, ReplyError> {
    let lines = kept_pieces(split_spec(message, '\n'));
    if lines.len() == 0 {
        Err(ReplyError::NoSuggestions)
    } else if lines.len() == 1 {
        Ok(kept_pieces(split_spec(message, ' ')))
    } else {
        Ok(lines)
    }
}

pub open spec fn strs(v: Seq<String>) -> Seq<Seq<char>> {
    v.map_values(|x: String| x@)
}

/// Cleans one piece of text for display.
fn clean(piece: &str) -> (r: String)
    ensures
        r@ == clean_piece(piece@),
{
    String::from_str(trim_end_char(trim_str(piece), '。'))
}

/// Splits `s` at `sep` and keeps the non-empty pieces, cleaned.
pub fn clean_pieces(s: &str, sep: char) -> (r: Vec<String>)
    ensures
        strs(r@) == kept_pieces(split_spec(s@, sep)),
{
    let n = s.unicode_len();
    let mut out: Vec<String> = Vec::new();
    let mut start: usize = 0;
    let mut i: usize = 0;
    proof {
        assert(s@.subrange(0, 0) =~= Seq::<char>::empty());
        assert(strs(out@) =~= Seq::<Seq<char>>::empty());
    }
    while i < n
        invariant
            n == s@.len(),
            start <= i <= n,
            split_spec(s@.subrange(0, i as int), sep).len() >= 1,
            split_spec(s@.subrange(0, i as int), sep).last() == s@.subrange(start as int, i as int),
            strs(out@) == kept_pieces(split_spec(s@.subrange(0, i as int), sep).drop_last()),
        decreases n - i,
    {
        let c = s.get_char(i);
        let ghost prefix = s@.subrange(0, i as int);
        let ghost pre = s@.subrange(0, i as int + 1);
        proof {
            assert(pre.drop_last() =~= prefix);
            assert(pre.last() == c);
        }
        if c == sep {
            let piece = s.substring_char(start, i);
            if start < i {
                out.push(clean(piece));
            }
            proof {
                let sp = split_spec(prefix, sep);
                assert(split_spec(pre, sep) == sp.push(Seq::<char>::empty()));
                assert(split_spec(pre, sep).drop_last() =~= sp);
                assert(sp == sp.drop_last().push(sp.last()));
                assert(strs(out@) =~= kept_pieces(sp));
                assert(s@.subrange(i as int + 1, i as int + 1) =~= Seq::<char>::empty());
            }
            start = i + 1;
        } else {
            proof {
                let sp = split_spec(prefix, sep);
                let sp2 = split_spec(pre, sep);
                assert(sp2 == sp.update(sp.len() - 1, sp.last().push(c)));
                assert(sp2.drop_last() =~= sp.drop_last());
                assert(s@.subrange(start as int, i as int + 1) =~= sp.last().push(c));
            }
        }
        i += 1;
    }
    let piece = s.substring_char(start, n);
    if start < n {
        out.push(clean(piece));
    }
    proof {
        assert(s@.subrange(0, n as int) =~= s@);
        let sp = split_spec(s@, sep);
        assert(sp == sp.drop_last().push(sp.last()));
        assert(strs(out@) =~= kept_pieces(sp));
    }
    out
}

pub open spec fn suggestions_view(r: Result<Vec<String>, ReplyError>) -> Result<
    Seq<Seq<char>>,
    ReplyError,
> {
    match r {
        Ok(v) => Ok(strs(v@)),
        Err(e) => Err(e),
    }
}

/// The suggestions in the model's reply, as they are offered to the user.
pub fn split_suggestions(message: &str) -> (r: Result<Vec<String>, ReplyError>)
    ensures
        suggestions_view(r) == suggestions_spec(message@),
{
    let lines = clean_pieces(message, '\n');
    if lines.len() == 0 {
        Err(ReplyError::NoSuggestions)
    } else if lines.len() == 1 {
        Ok(clean_pieces(message, ' '))
    } else {
        Ok(lines)
    }
}

} // verus!

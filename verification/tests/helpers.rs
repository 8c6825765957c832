use chatgpt_client::api::url::{
    api_url, authorization, base_url, model_url, models_url, API_BASE_URL,
};
use chatgpt_client::chat::chat::{ChatGPTResponse, Choice, Message, Usage};
use chatgpt_client::chat::stream::exchange_of_response;
use chatgpt_client::config::{Proxy, ProxyConfig};
use chatgpt_client::export::markdown::{format_user_message, markdown_entry, UserMessageMode};
use chatgpt_client::time::{now, to_unsigned_seconds};

fn forward() -> ProxyConfig {
    ProxyConfig {
        method: "proxy".to_string(),
        proxy: Some(Proxy { protocol: "socks5h://".to_string(), host: "127.0.0.1".to_string(), port: 1086 }),
        reverse_proxy: None,
    }
}

fn reverse() -> ProxyConfig {
    ProxyConfig {
        method: "reverse-proxy".to_string(),
        proxy: None,
        reverse_proxy: Some("https://mirror.example".to_string()),
    }
}

#[test]
fn proxy_config_to_string_gives_the_route_address() {
    assert_eq!(forward().to_string(), "socks5h://127.0.0.1:1086");
    assert_eq!(reverse().to_string(), "https://mirror.example");
    let mut zero = forward();
    zero.proxy.as_mut().unwrap().port = 0;
    assert_eq!(zero.to_string(), "socks5h://127.0.0.1:0");
    zero.proxy.as_mut().unwrap().port = 65535;
    assert_eq!(zero.to_string(), "socks5h://127.0.0.1:65535");
    assert!(forward().is_proxy());
    assert!(!reverse().is_proxy());
    assert!(forward().is_well_formed());
    let mut broken = reverse();
    broken.reverse_proxy = None;
    assert!(!broken.is_well_formed());
}

#[test]
fn base_url_follows_the_route() {
    assert_eq!(base_url(&forward()), "https://api.openai.com");
    assert_eq!(API_BASE_URL, "https://api.openai.com");
    assert_eq!(base_url(&reverse()), "https://mirror.example");
    assert_eq!(api_url(&forward(), "/v1/chat/completions"), "https://api.openai.com/v1/chat/completions");
    assert_eq!(api_url(&reverse(), "/v1/models"), "https://mirror.example/v1/models");
    assert_eq!(models_url(&reverse()), "https://mirror.example/v1/models");
    assert_eq!(model_url(&forward(), "gpt-4"), "https://api.openai.com/v1/models/gpt-4");
    let mut bare = forward();
    bare.proxy = None;
    assert_eq!(base_url(&bare), "https://api.openai.com");
}

#[test]
fn authorization_is_a_bearer_credential() {
    assert_eq!(authorization("sk-test"), "Bearer sk-test");
    assert_eq!(authorization(""), "Bearer ");
}

#[test]
fn format_user_message_as_title() {
    assert_eq!(format_user_message("Hello", UserMessageMode::Title), "## Hello\n");
    assert_eq!(format_user_message("", UserMessageMode::Title), "## \n");
    assert_eq!(format_user_message("a\nb", UserMessageMode::Title), "## a\nb\n");
}

#[test]
fn format_user_message_as_quote() {
    assert_eq!(format_user_message("Hello", UserMessageMode::Quote), "> Hello\n");
    assert_eq!(format_user_message("a\nb", UserMessageMode::Quote), "> a\n> b\n");
    assert_eq!(format_user_message("a\n\nb\n", UserMessageMode::Quote), "> a\n>\n> b\n");
    assert_eq!(format_user_message("", UserMessageMode::Quote), "");
    assert_eq!(format_user_message("\n", UserMessageMode::Quote), ">\n");
    assert_eq!(format_user_message("a\r\nb\r", UserMessageMode::Quote), "> a\n> b\r\n");
    assert_eq!(format_user_message("\r\n", UserMessageMode::Quote), ">\n");
    assert_eq!(format_user_message("你好\n世界", UserMessageMode::Quote), "> 你好\n> 世界\n");
}

#[test]
fn format_user_message_quotes_line_by_line_like_lines() {
    for text in ["x\r\r\ny", "\n\n", "a\rb\n", "tail\n\r", "\r", "one\ntwo\r\n\r\nthree"] {
        let expected: String = text
            .lines()
            .map(|line| if line.is_empty() { ">\n".to_string() } else { format!("> {}\n", line) })
            .collect();
        assert_eq!(format_user_message(text, UserMessageMode::Quote), expected, "{:?}", text);
    }
}

#[test]
fn user_message_mode_from_number() {
    assert_eq!(UserMessageMode::try_from(1), Ok(UserMessageMode::Title));
    assert_eq!(UserMessageMode::try_from(2), Ok(UserMessageMode::Quote));
    assert_eq!(UserMessageMode::try_from(0), Err("Invalid value"));
    assert_eq!(UserMessageMode::try_from(3), Err("Invalid value"));
}

#[test]
fn markdown_entry_for_each_position() {
    let user = Message { role: "user".to_string(), content: "why?".to_string() };
    let assistant = Message { role: "assistant".to_string(), content: "because".to_string() };
    assert_eq!(markdown_entry(1, "Topic", &user, 0).unwrap(), "# Topic\n\n## why?\n\n");
    assert_eq!(markdown_entry(2, "Topic", &user, 0).unwrap(), "# Topic\n\n> why?\n\n");
    assert_eq!(markdown_entry(1, "Topic", &assistant, 0).unwrap(), "# Topic\n\n## because\n\n");
    assert_eq!(markdown_entry(1, "Topic", &user, 10).unwrap(), "\n## why?\n\n");
    assert_eq!(markdown_entry(2, "Topic", &user, 10).unwrap(), "\n> why?\n\n");
    assert_eq!(markdown_entry(2, "Topic", &assistant, 10).unwrap(), "because\n");
    assert_eq!(markdown_entry(3, "Topic", &user, 0), Err("Invalid value"));
    assert_eq!(markdown_entry(0, "Topic", &assistant, 4), Err("Invalid value"));
}

#[test]
fn now_is_a_plausible_time() {
    let t = now().unwrap();
    assert!(t > 1_600_000_000);
    assert!(t < 100_000_000_000);
}

#[test]
fn unsigned_seconds_wrap_before_the_epoch() {
    assert_eq!(to_unsigned_seconds(0), 0);
    assert_eq!(to_unsigned_seconds(1_700_000_000), 1_700_000_000);
    assert_eq!(to_unsigned_seconds(-1), u64::MAX);
    assert_eq!(to_unsigned_seconds(i64::MIN), 1u64 << 63);
    assert_eq!(to_unsigned_seconds(i64::MAX), i64::MAX as u64);
}

#[test]
fn exchange_of_response_pairs_last_message_and_first_choice() {
    let messages = vec![
        Message { role: "system".to_string(), content: "be brief".to_string() },
        Message { role: "user".to_string(), content: "Hello".to_string() },
    ];
    let mut response = ChatGPTResponse {
        id: "1".to_string(),
        object: "chat.completion".to_string(),
        model: "gpt".to_string(),
        created: 99,
        choices: vec![
            Choice { index: 0, message: Message { role: "assistant".to_string(), content: "Hi".to_string() }, finish_reason: "stop".to_string() },
            Choice { index: 1, message: Message { role: "assistant".to_string(), content: "Yo".to_string() }, finish_reason: "stop".to_string() },
        ],
        usage: Usage { prompt_tokens: 1, completion_tokens: 1, total_tokens: 2 },
    };
    let x = exchange_of_response(4, &messages, 50, &response).unwrap();
    assert_eq!(x.topic_id, 4);
    assert_eq!(x.user_text, "Hello");
    assert_eq!(x.created_at, 50);
    assert_eq!(x.reply_text, "Hi");
    assert_eq!(x.reply_time, 99);
    assert!(exchange_of_response(4, &Vec::new(), 50, &response).is_none());
    response.choices.clear();
    assert!(exchange_of_response(4, &messages, 50, &response).is_none());
}

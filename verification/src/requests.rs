//! The two requests of a watch, as plain values: the question put to the
//! tracking service and the message handed to the chat service. Both are sent
//! by POST with a JSON body.

use vstd::prelude::*;
use crate::config::{Config, ConfigView};

verus! {

/// Where the tracking service is asked.
pub const API_ADDRESS: &'static str =
    "https://azure-cn.orangeconnex.com/oc/capricorn-website/website/v1/tracking/traces";

/// The language in which the tracking service is asked to answer.
pub const LANGUAGE: &'static str = "en-US";

/// The question put to the tracking service. The body of the request has
/// `tracking_numbers` as `trackingNumbers` and `language` as `language`.
#[derive(Clone, Debug, PartialEq, Eq)]
pub struct TrackingRequest {
    pub url: String,
    pub tracking_numbers: String,
    pub language: String,
}

/// The question in contracts.
pub struct TrackingRequestView {
    pub url: Seq<char>,
    pub tracking_numbers: Seq<char>,
    pub language: Seq<char>,
}

impl View for TrackingRequest {
    type V = TrackingRequestView;

    open spec fn view(&self) -> TrackingRequestView {
        TrackingRequestView {
            url: self.url@,
            tracking_numbers: self.tracking_numbers@,
            language: self.language@,
        }
    }
}

/// The message handed to the chat service. The body of the request has
/// `chat_id` as `chat_id` and `text` as `text`.
#[derive(Clone, Debug, PartialEq, Eq)]
pub struct ChatRequest {
    pub url: String,
    pub chat_id: String,
    pub text: String,
}

/// The message in contracts.
pub struct ChatRequestView {
    pub url: Seq<char>,
    pub chat_id: Seq<char>,
    pub text: Seq<char>,
}

impl View for ChatRequest {
    type V = ChatRequestView;

    open spec fn view(&self) -> ChatRequestView {
        ChatRequestView { url: self.url@, chat_id: self.chat_id@, text: self.text@ }
    }
}

/// The question about the shipment of the settings.
pub open spec fn tracking_request_of(config: ConfigView) -> TrackingRequestView {
    TrackingRequestView {
        url: API_ADDRESS@,
        tracking_numbers: config.order_id,
        language: LANGUAGE@,
    }
}

/// Where a bot with this credential sends its messages.
pub open spec fn send_message_address(bot_token: Seq<char>) -> Seq<char> {
    "https://api.telegram.org/bot"@ + bot_token + "/sendMessage"@
}

/// The request that sends `text` to the chat of the settings.
pub open spec fn chat_request_of(config: ConfigView, text: Seq<char>) -> ChatRequestView {
    ChatRequestView { url: send_message_address(config.bot_token), chat_id: config.chat_id, text }
}

/// Where a bot with this credential sends its messages.
pub fn send_message_url(bot_token: &str) -> (url: String)
    ensures
        url@ == send_message_address(bot_token@),
{
    let mut url = String::from_str("https://api.telegram.org/bot");
    url.append(bot_token);
    url.append("/sendMessage");
    url
}

/// Makes the question about the shipment of the settings.
pub fn tracking_request(config: &Config) -> (request: TrackingRequest)
    ensures
        request@ == tracking_request_of(config@),
{
    TrackingRequest {
        url: String::from_str(API_ADDRESS),
        tracking_numbers: config.order_id.clone(),
        language: String::from_str(LANGUAGE),
    }
}

/// Makes the request that sends `text` to the chat of the settings.
pub fn chat_request(config: &Config, text: String) -> (request: ChatRequest)
    ensures
        request@ == chat_request_of(config@, text@),
{
    ChatRequest {
        url: send_message_url(config.bot_token.as_str()),
        chat_id: config.chat_id.clone(),
        text,
    }
}

} // verus!

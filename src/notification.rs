//! System notifications: which Telegram chat to address, and the text of
//! the announcements. Sending is left to the caller.
use vstd::prelude::*;

use crate::text::{append, chars_of, string_of};

verus! {

/// The Telegram settings the notifier needs.
pub struct TelegramConfig {
    pub bot_token: String,
    /// Users allowed to talk to the bot; the first one receives system notifications.
    pub allowed_users: Vec<String>,
}

/// One message to send through the Telegram Bot API.
pub struct TelegramMessage {
    /// The `sendMessage` endpoint for the bot.
    pub url: String,
    pub chat_id: String,
    pub text: String,
    /// Always `Markdown`.
    pub parse_mode: String,
}

/// Broadcasts important events (new skills, new tools) to the operator.
pub struct SystemNotifier {
    telegram: Option<TelegramConfig>,
}

/// The `sendMessage` endpoint for a bot token.
pub open spec fn send_message_url(token: Seq<char>) -> Seq<char> {
    "https://api.telegram.org/bot"@ + token + "/sendMessage"@
}

/// The announcement of a newly learned skill.
pub open spec fn new_skill_text(name: Seq<char>) -> Seq<char> {
    "🎓 *Ezra learned a new skill:* `"@ + name + "`"@
}

/// The announcement of a newly enabled tool.
pub open spec fn new_tool_text(name: Seq<char>) -> Seq<char> {
    "🛠️ *New tool available:* `"@ + name + "`"@
}

/// `prefix`, then `middle`, then `suffix`, as one string.
fn framed(prefix: &str, middle: &str, suffix: &str) -> (r: String)
    ensures
        r@ == prefix@ + middle@ + suffix@,
{
    let mut cs = chars_of(prefix);
    append(&mut cs, &chars_of(middle));
    append(&mut cs, &chars_of(suffix));
    string_of(&cs)
}

impl SystemNotifier {
    pub closed spec fn telegram(&self) -> Option<TelegramConfig> {
        self.telegram
    }

    pub fn new(telegram: Option<TelegramConfig>) -> (r: SystemNotifier)
        ensures
            r.telegram() == telegram,
    {
        SystemNotifier { telegram }
    }

    /// The message that delivers `message` to the primary Telegram user, or
    /// `None` when Telegram is not configured, has no bot token, or has no
    /// allowed user to send to.
    pub fn telegram_message(&self, message: &str) -> (r: Option<TelegramMessage>)
        ensures
            r is Some <==> (self.telegram() matches Some(t) && t.bot_token@.len() > 0
                && t.allowed_users@.len() > 0),
            r matches Some(m) ==> self.telegram() matches Some(t) && m.url@ == send_message_url(
                t.bot_token@,
            ) && m.chat_id == t.allowed_users@[0] && m.text@ == message@ && m.parse_mode@
                == "Markdown"@,
    {
        match &self.telegram {
            None => None,
            Some(t) => {
                if t.bot_token.as_str().is_empty() || t.allowed_users.len() == 0 {
                    return None;
                }
                let url = framed("https://api.telegram.org/bot", t.bot_token.as_str(), "/sendMessage");
                Some(
                    TelegramMessage {
                        url,
                        chat_id: t.allowed_users[0].clone(),
                        text: message.to_owned(),
                        parse_mode: "Markdown".to_owned(),
                    },
                )
            },
        }
    }

    /// The announcement of a newly learned skill.
    pub fn new_skill_message(skill_name: &str) -> (r: String)
        ensures
            r@ == new_skill_text(skill_name@),
    {
        framed("🎓 *Ezra learned a new skill:* `", skill_name, "`")
    }

    /// The announcement of a newly enabled tool.
    pub fn new_tool_message(tool_name: &str) -> (r: String)
        ensures
            r@ == new_tool_text(tool_name@),
    {
        framed("🛠️ *New tool available:* `", tool_name, "`")
    }
}

} // verus!

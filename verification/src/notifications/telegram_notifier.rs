//! The chat in which the bot reports and takes commands.
use vstd::prelude::*;
use crate::json;
use crate::json::{Document, JsonTree};
use crate::text;
use crate::types::Config;

verus! {

pub const TELEGRAM_SEND_TIMEOUT_MS: u64 = 10_000;

pub const TELEGRAM_UPDATE_TIMEOUT_MS: u64 = 35_000;

pub const TELEGRAM_POLL_BACKOFF_MS: u64 = 2_000;

pub const TELEGRAM_MAX_MESSAGE_LENGTH: usize = 3_800;

/// How much of a reason is told.
pub const MAX_REASON_LENGTH: usize = 220;

/// A text of at most so many characters, the last three of them dots where it was cut.
pub open spec fn clipped(s: Seq<char>, max_length: int) -> Seq<char> {
    if s.len() <= max_length {
        s
    } else if max_length <= 3 {
        "..."@
    } else {
        s.take(max_length - 3) + "..."@
    }
}

pub fn clip(text: &str, max_length: usize) -> (r: String)
    ensures
        r@ == clipped(text@, max_length as int),
{
    let chars = text::chars_of(text);
    if chars.len() <= max_length {
        return text.to_owned();
    }
    let keep: usize = if max_length > 3 {
        max_length - 3
    } else {
        0
    };
    let mut out = text::text_of(&chars, 0, keep);
    assert(chars@.subrange(0, keep as int) =~= text@.take(keep as int));
    out.append("...");
    assert(keep == 0 ==> out@ =~= "..."@);
    out
}

/// The first word of a message, in lower case.
pub open spec fn command_of(message: Option<Seq<char>>) -> Option<Seq<char>> {
    match message {
        None => None,
        Some(s) => if text::words(s).len() == 0 {
            None
        } else {
            Some(text::lowercase(text::words(s)[0]))
        },
    }
}

pub fn parse_telegram_command(message: &Option<String>) -> (r: Option<String>)
    ensures
        json::text_view(r) == command_of(json::text_view(*message)),
{
    match message {
        None => None,
        Some(s) => {
            let words = text::split_whitespace(s.as_str());
            assert(text::texts(words@).len() == words@.len());
            if words.len() == 0 {
                None
            } else {
                assert(text::texts(words@)[0] == words@[0]@);
                Some(text::lower(words[0].as_str()))
            }
        },
    }
}

// ---------------------------------------------------------------------------
// The notifier
// ---------------------------------------------------------------------------

/// The bot's side of the chat, and whether trading is paused.
pub struct TelegramNotifier {
    pub enabled: bool,
    bot_token: Option<String>,
    chat_id: Option<String>,
    paused: bool,
    listener_started: bool,
}

#[verifier::ext_equal]
pub struct NotifierView {
    pub enabled: bool,
    pub bot_token: Option<Seq<char>>,
    pub chat_id: Option<Seq<char>>,
    pub paused: bool,
    pub listener_started: bool,
}

/// A notifier that does the same, but is paused or not.
pub open spec fn with_pause(n: NotifierView, paused: bool) -> NotifierView {
    NotifierView { paused, ..n }
}

/// The line that gives a reason, where there is one.
pub open spec fn reason_line(reason: Option<Seq<char>>) -> Seq<char> {
    match reason {
        Some(s) => if text::is_blank(s) {
            Seq::empty()
        } else {
            "\nReason: "@ + clipped(s, MAX_REASON_LENGTH as int)
        },
        None => Seq::empty(),
    }
}

/// What is said when trading is paused or taken up again.
pub open spec fn pause_notice(paused: bool, reason: Option<Seq<char>>) -> Seq<char> {
    if paused {
        "[POLYMARKET BOT CONTROL]\nTrading paused (use /resume to continue)."@ + reason_line(reason)
    } else {
        "[POLYMARKET BOT CONTROL]\nTrading resumed."@ + reason_line(reason)
    }
}

/// What a command does to the pause.
pub open spec fn pause_after(command: Option<Seq<char>>, paused: bool) -> bool {
    if command == Some("/pause"@) {
        true
    } else if command == Some("/resume"@) {
        false
    } else {
        paused
    }
}

/// What a command is answered.
pub open spec fn reply_to(command: Option<Seq<char>>, paused: bool) -> Option<Seq<char>> {
    if command == Some("/pause"@) {
        if paused {
            Some("[POLYMARKET BOT CONTROL]\nTrading is already paused."@)
        } else {
            Some("[POLYMARKET BOT CONTROL]\nTrading paused (use /resume to continue)."@)
        }
    } else if command == Some("/resume"@) {
        if paused {
            Some("[POLYMARKET BOT CONTROL]\nTrading resumed."@)
        } else {
            Some("[POLYMARKET BOT CONTROL]\nTrading is already running."@)
        }
    } else if command == Some("/status"@) {
        Some(
            "[POLYMARKET BOT CONTROL]\nTrading status: "@ + (if paused {
                "PAUSED"@
            } else {
                "RUNNING"@
            }) + ".\nCommands: /pause /resume /status"@,
        )
    } else {
        None
    }
}

/// A request to send a message.
pub struct SendRequest {
    pub url: String,
    pub body: String,
}

/// The document of a message.
pub open spec fn message_document(chat_id: Seq<char>, message: Seq<char>) -> JsonTree {
    json::object_tree(
        seq![
            ("chat_id"@, JsonTree::Text(chat_id)),
            ("text"@, JsonTree::Text(clipped(message, TELEGRAM_MAX_MESSAGE_LENGTH as int))),
            ("disable_web_page_preview"@, JsonTree::Bool(true)),
        ],
    )
}

/// The address of one of the chat's methods.
pub open spec fn method_url(token: Seq<char>, method: Seq<char>) -> Seq<char> {
    "https://api.telegram.org/bot"@ + token + "/"@ + method
}

fn url_of_method(token: &str, method: &str) -> (r: String)
    ensures
        r@ == method_url(token@, method@),
{
    let mut out = "https://api.telegram.org/bot".to_owned();
    out.append(token);
    out.append("/");
    out.append(method);
    out
}

/// A message in the chat.
pub struct TelegramMessage {
    pub chat_id: i64,
    pub text: Option<String>,
}

pub struct TelegramUpdate {
    pub update_id: i64,
    pub message: Option<TelegramMessage>,
}

pub struct TelegramGetUpdatesPayload {
    pub ok: bool,
    pub result: Option<Vec<TelegramUpdate>>,
}

/// The command that an update holds for the bot: none where it comes from another chat.
pub open spec fn command_in(update: TelegramUpdate, chat_id: Option<Seq<char>>) -> Option<Seq<char>> {
    match update.message {
        Some(message) => if chat_id == Some(text::decimal_int(message.chat_id as int)) {
            command_of(json::text_view(message.text))
        } else {
            None
        },
        None => None,
    }
}

impl TelegramNotifier {
    pub closed spec fn view(self) -> NotifierView {
        NotifierView {
            enabled: self.enabled,
            bot_token: json::text_view(self.bot_token),
            chat_id: json::text_view(self.chat_id),
            paused: self.paused,
            listener_started: self.listener_started,
        }
    }

    pub fn is_paused(&self) -> (r: bool)
        ensures
            r == self@.paused,
    {
        self.paused
    }

    /// Pauses trading or takes it up again, and says whether that changed anything.
    pub fn set_paused_state(&mut self, paused: bool) -> (r: bool)
        ensures
            r == (old(self)@.paused != paused),
            final(self)@ == with_pause(old(self)@, paused),
    {
        let changed = self.paused != paused;
        self.paused = paused;
        changed
    }

    /// Pauses trading or takes it up again. Where that changed anything, there is something to
    /// say.
    pub fn set_paused(&mut self, paused: bool, reason: Option<&str>) -> (r: Option<String>)
        ensures
            final(self)@ == with_pause(old(self)@, paused),
            match r {
                Some(notice) => old(self)@.paused != paused && notice@ == pause_notice(
                    paused,
                    match reason {
                        Some(s) => Some(s@),
                        None => None,
                    },
                ),
                None => old(self)@.paused == paused,
            },
    {
        if !self.set_paused_state(paused) {
            return None;
        }
        let mut notice = if paused {
            "[POLYMARKET BOT CONTROL]\nTrading paused (use /resume to continue).".to_owned()
        } else {
            "[POLYMARKET BOT CONTROL]\nTrading resumed.".to_owned()
        };
        let ghost start = notice@;
        assert(start + Seq::<char>::empty() =~= start);
        match reason {
            Some(s) => {
                if !text::blank(s) {
                    let mut line = "\nReason: ".to_owned();
                    line.append(clip(s, MAX_REASON_LENGTH).as_str());
                    notice.append(line.as_str());
                }
            },
            None => {},
        }
        Some(notice)
    }

    /// The request that sends a message, where the chat is set up.
    pub fn send(&self, message: &str) -> (r: Option<SendRequest>)
        ensures
            match (self@.bot_token, self@.chat_id) {
                (Some(token), Some(chat_id)) if self@.enabled => r matches Some(request)
                    && request.url@ == method_url(token, "sendMessage"@) && request.body@
                    == json::rendered(message_document(chat_id, message@)),
                _ => r is None,
            },
    {
        if !self.enabled {
            return None;
        }
        let token = match &self.bot_token {
            Some(token) => token.as_str(),
            None => {
                return None;
            },
        };
        let chat_id = match &self.chat_id {
            Some(chat_id) => chat_id.as_str(),
            None => {
                return None;
            },
        };
        let clipped_message = clip(message, TELEGRAM_MAX_MESSAGE_LENGTH);
        let mut m: Vec<(String, Document)> = Vec::new();
        m.push(("chat_id".to_owned(), Document::text(chat_id)));
        m.push(("text".to_owned(), Document::text(clipped_message.as_str())));
        m.push(("disable_web_page_preview".to_owned(), Document::flag(true)));
        assert(json::document_members(m@) =~= seq![
            ("chat_id"@, JsonTree::Text(chat_id@)),
            ("text"@, JsonTree::Text(clipped(message@, TELEGRAM_MAX_MESSAGE_LENGTH as int))),
            ("disable_web_page_preview"@, JsonTree::Bool(true)),
        ]);
        let body = Document::object(m).render();
        Some(SendRequest { url: url_of_method(token, "sendMessage"), body })
    }

    /// The address at which to ask for updates, where the chat is set up.
    pub fn updates_url(&self) -> (r: Option<String>)
        ensures
            match (self@.bot_token, self@.chat_id) {
                (Some(token), Some(_)) if self@.enabled => r matches Some(url) && url@ == method_url(
                    token,
                    "getUpdates"@,
                ),
                _ => r is None,
            },
    {
        if !self.enabled {
            return None;
        }
        match &self.bot_token {
            Some(token) => match &self.chat_id {
                Some(_) => Some(url_of_method(token.as_str(), "getUpdates")),
                None => None,
            },
            None => None,
        }
    }

    /// Whether the listener is to be started: once, where the chat is set up.
    pub fn start_command_listener(&mut self) -> (r: bool)
        ensures
            r == (old(self)@.enabled && !old(self)@.listener_started),
            final(self)@ == (NotifierView {
                listener_started: old(self)@.listener_started || old(self)@.enabled,
                ..old(self)@
            }),
    {
        if !self.enabled || self.listener_started {
            return false;
        }
        self.listener_started = true;
        true
    }

    /// Obeys a command, and answers it.
    pub fn obey(&mut self, command: &Option<String>) -> (r: Option<String>)
        ensures
            final(self)@ == with_pause(
                old(self)@,
                pause_after(json::text_view(*command), old(self)@.paused),
            ),
            json::text_view(r) == reply_to(json::text_view(*command), old(self)@.paused),
    {
        let word = match command {
            Some(word) => word.as_str(),
            None => {
                return None;
            },
        };
        if text::text_eq(word, "/pause") {
            return if self.set_paused_state(true) {
                Some(
                    "[POLYMARKET BOT CONTROL]\nTrading paused (use /resume to continue).".to_owned(),
                )
            } else {
                Some("[POLYMARKET BOT CONTROL]\nTrading is already paused.".to_owned())
            };
        }
        if text::text_eq(word, "/resume") {
            return if self.set_paused_state(false) {
                Some("[POLYMARKET BOT CONTROL]\nTrading resumed.".to_owned())
            } else {
                Some("[POLYMARKET BOT CONTROL]\nTrading is already running.".to_owned())
            };
        }
        if text::text_eq(word, "/status") {
            let mut out = "[POLYMARKET BOT CONTROL]\nTrading status: ".to_owned();
            out.append(
                if self.paused {
                    "PAUSED"
                } else {
                    "RUNNING"
                },
            );
            out.append(".\nCommands: /pause /resume /status");
            return Some(out);
        }
        None
    }
}

pub fn create_telegram_notifier(config: &Config) -> (r: TelegramNotifier)
    ensures
        r@ == (NotifierView {
            enabled: config.telegram_bot_token is Some && config.telegram_chat_id is Some,
            bot_token: json::text_view(config.telegram_bot_token),
            chat_id: json::text_view(config.telegram_chat_id),
            paused: false,
            listener_started: false,
        }),
{
    TelegramNotifier {
        enabled: config.telegram_bot_token.is_some() && config.telegram_chat_id.is_some(),
        bot_token: json::copy_text(&config.telegram_bot_token),
        chat_id: json::copy_text(&config.telegram_chat_id),
        paused: false,
        listener_started: false,
    }
}

// ---------------------------------------------------------------------------
// The listener
// ---------------------------------------------------------------------------

/// How far the listener has read.
#[derive(Clone, Copy)]
pub struct CommandListener {
    /// The first update that has not been seen.
    pub next_update_offset: Option<i64>,
    /// What had piled up before the listener was started has been passed over.
    pub update_offset_primed: bool,
}

/// What a look for updates calls for.
pub enum ListenerAction {
    /// Look again after so many milliseconds.
    BackOff(u64),
    /// Look again at once.
    LookAgain,
    /// Take in these updates, one after the other, and then look again.
    TakeIn(Vec<TelegramUpdate>),
}

/// The updates of an answer.
pub open spec fn updates_of(payload: TelegramGetUpdatesPayload) -> Seq<TelegramUpdate> {
    match payload.result {
        Some(updates) => updates@,
        None => Seq::empty(),
    }
}

/// Whether every update can be followed by another one.
pub open spec fn ids_have_successors(updates: Seq<TelegramUpdate>) -> bool {
    forall|i: int| 0 <= i < updates.len() ==> (#[trigger] updates[i]).update_id < i64::MAX
}

impl CommandListener {
    pub fn new() -> (r: CommandListener)
        ensures
            r == (CommandListener { next_update_offset: None, update_offset_primed: false }),
    {
        CommandListener { next_update_offset: None, update_offset_primed: false }
    }

    /// The parameters of a look for updates.
    pub open spec fn query_of(self) -> Seq<(Seq<char>, Seq<char>)> {
        match self.next_update_offset {
            Some(offset) => seq![
                ("timeout"@, "25"@),
                ("offset"@, text::decimal_int(offset as int)),
            ],
            None => seq![("timeout"@, "25"@)],
        }
    }

    pub fn query(&self) -> (r: Vec<(String, String)>)
        ensures
            text::pairs(r@) == self.query_of(),
    {
        let mut out: Vec<(String, String)> = Vec::new();
        out.push(("timeout".to_owned(), "25".to_owned()));
        assert(text::pairs(out@) =~= seq![("timeout"@, "25"@)]);
        match self.next_update_offset {
            Some(offset) => {
                out.push(("offset".to_owned(), text::decimal_i64(offset)));
                assert(text::pairs(out@) =~= self.query_of());
            },
            None => {},
        }
        out
    }

    /// Takes in the answer to a look for updates: none where there was no answer, or none that
    /// could be read. The first answer only shows where to begin.
    pub fn on_payload(&mut self, payload: Option<TelegramGetUpdatesPayload>) -> (r: ListenerAction)
        requires
            payload matches Some(p) ==> ids_have_successors(updates_of(p)),
        ensures
            match payload {
                Some(p) if p.ok => {
                    let updates = updates_of(p);
                    if !old(self).update_offset_primed && updates.len() > 0 {
                        &&& r is LookAgain
                        &&& *final(self) == (CommandListener {
                            next_update_offset: Some((updates.last().update_id + 1) as i64),
                            update_offset_primed: true,
                        })
                    } else {
                        &&& r matches ListenerAction::TakeIn(v) && v@ == updates
                        &&& *final(self) == (CommandListener {
                            next_update_offset: old(self).next_update_offset,
                            update_offset_primed: true,
                        })
                    }
                },
                _ => *final(self) == *old(self) && r == ListenerAction::BackOff(
                    TELEGRAM_POLL_BACKOFF_MS,
                ),
            },
    {
        let p = match payload {
            Some(p) => p,
            None => {
                return ListenerAction::BackOff(TELEGRAM_POLL_BACKOFF_MS);
            },
        };
        if !p.ok {
            return ListenerAction::BackOff(TELEGRAM_POLL_BACKOFF_MS);
        }
        let updates: Vec<TelegramUpdate> = match p.result {
            Some(updates) => updates,
            None => Vec::new(),
        };
        assert(updates@ =~= updates_of(p));
        if !self.update_offset_primed {
            self.update_offset_primed = true;
            if updates.len() > 0 {
                let last: i64 = updates[updates.len() - 1].update_id;
                self.next_update_offset = Some(last + 1);
                return ListenerAction::LookAgain;
            }
        }
        ListenerAction::TakeIn(updates)
    }

    /// Takes in one update: obeys the command that it holds for the bot, and answers it.
    pub fn on_update(&mut self, notifier: &mut TelegramNotifier, update: &TelegramUpdate) -> (r:
        Option<String>)
        requires
            update.update_id < i64::MAX,
        ensures
            *final(self) == (CommandListener {
                next_update_offset: Some((update.update_id + 1) as i64),
                ..*old(self)
            }),
            ({
                let command = command_in(*update, old(notifier)@.chat_id);
                &&& final(notifier)@ == with_pause(
                    old(notifier)@,
                    pause_after(command, old(notifier)@.paused),
                )
                &&& json::text_view(r) == reply_to(command, old(notifier)@.paused)
            }),
    {
        self.next_update_offset = Some(update.update_id + 1);
        let message = match &update.message {
            Some(message) => message,
            None => {
                return None;
            },
        };
        let chat = text::decimal_i64(message.chat_id);
        let ours = match &notifier.chat_id {
            Some(chat_id) => text::text_eq(chat.as_str(), chat_id.as_str()),
            None => false,
        };
        if !ours {
            return None;
        }
        let command = parse_telegram_command(&message.text);
        notifier.obey(&command)
    }
}

/// A clipped text is never longer than it may be, where it may hold the three dots at all.
pub proof fn clipped_text_fits(s: Seq<char>, max_length: int)
    requires
        max_length >= 3,
    ensures
        clipped(s, max_length).len() <= max_length,
        s.len() <= max_length ==> clipped(s, max_length) == s,
{
    reveal_strlit("...");
}

/// Only `/pause` and `/resume` change whether the bot trades: afterwards it does what the command
/// says, and giving the command again changes nothing.
pub proof fn commands_set_the_pause(command: Option<Seq<char>>, paused: bool)
    ensures
        pause_after(command, pause_after(command, paused)) == pause_after(command, paused),
        command == Some("/pause"@) ==> pause_after(command, paused),
        command == Some("/resume"@) ==> !pause_after(command, paused),
        command != Some("/pause"@) && command != Some("/resume"@) ==> pause_after(command, paused)
            == paused,
{
    reveal_strlit("/pause");
    reveal_strlit("/resume");
    assert("/pause"@.len() != "/resume"@.len());
}

/// What comes from another chat is neither obeyed nor answered.
pub proof fn other_chats_are_ignored(
    update: TelegramUpdate,
    chat_id: Option<Seq<char>>,
    paused: bool,
)
    requires
        update.message matches Some(message) && chat_id != Some(
            text::decimal_int(message.chat_id as int),
        ),
    ensures
        pause_after(command_in(update, chat_id), paused) == paused,
        reply_to(command_in(update, chat_id), paused) is None,
{
}

/// A text that is too long keeps its beginning and ends in three dots; a shorter one is kept whole.
pub proof fn clipped_text_keeps_its_beginning(s: Seq<char>, max_length: int)
    requires
        max_length > 3,
    ensures
        s.len() > max_length ==> {
            let c = clipped(s, max_length);
            &&& c.len() == max_length
            &&& c.take(max_length - 3) == s.take(max_length - 3)
            &&& c[max_length - 3] == '.' && c[max_length - 2] == '.' && c[max_length - 1] == '.'
        },
        s.len() <= max_length ==> clipped(s, max_length) == s,
{
    reveal_strlit("...");
    if s.len() > max_length {
        assert(clipped(s, max_length).take(max_length - 3) =~= s.take(max_length - 3));
    }
}

/// A command is the first word of a message, whatever follows it, and a message without words is
/// none.
pub proof fn command_is_the_first_word(message: Seq<char>, other: Seq<char>)
    ensures
        command_of(None) is None,
        command_of(Some(message)) is None <==> forall|i: int|
            0 <= i < message.len() ==> text::is_white(#[trigger] message[i]),
        command_of(Some(message)) matches Some(c) ==> c == text::lowercase(text::words(message)[0]),
        text::words(message).len() > 0 && text::words(other).len() > 0 && text::words(message)[0]
            == text::words(other)[0] ==> command_of(Some(message)) == command_of(Some(other)),
{
    text::first_word_ends_at_white_space(message);
}

/// Each of the three commands is answered, and nothing else is. The answer tells what the command
/// came to: a pause or a resumption is told where it changes something, and otherwise that it does
/// not; the status says what is so. The answers differ.
pub proof fn commands_are_answered_by_the_state(command: Option<Seq<char>>, paused: bool)
    ensures
        reply_to(command, paused) is Some <==> command == Some("/pause"@) || command == Some(
            "/resume"@,
        ) || command == Some("/status"@),
        reply_to(Some("/pause"@), false) == Some(pause_notice(true, None)),
        reply_to(Some("/resume"@), true) == Some(pause_notice(false, None)),
        reply_to(Some("/pause"@), true) == Some(
            "[POLYMARKET BOT CONTROL]\nTrading is already paused."@,
        ),
        reply_to(Some("/resume"@), false) == Some(
            "[POLYMARKET BOT CONTROL]\nTrading is already running."@,
        ),
        reply_to(Some("/status"@), paused) == Some(
            "[POLYMARKET BOT CONTROL]\nTrading status: "@ + (if paused {
                "PAUSED"@
            } else {
                "RUNNING"@
            }) + ".\nCommands: /pause /resume /status"@,
        ),
{
    reveal_strlit("/pause");
    reveal_strlit("/resume");
    reveal_strlit("/status");
    assert("/pause"@.len() == 6);
    assert("/resume"@.len() == 7);
    assert("/status"@.len() == 7);
    assert("/resume"@[1] != "/status"@[1]);
    assert(pause_notice(true, None)
        =~= "[POLYMARKET BOT CONTROL]\nTrading paused (use /resume to continue)."@);
    assert(pause_notice(false, None) =~= "[POLYMARKET BOT CONTROL]\nTrading resumed."@);
}

/// A reason is told in a line of its own where there is one, and at most 220 characters of it.
pub proof fn reason_is_told_where_there_is_one(paused: bool, reason: Seq<char>)
    ensures
        text::trimmed(reason).len() > 0 && reason.len() <= 220 ==> pause_notice(
            paused,
            Some(reason),
        ) == pause_notice(paused, None) + ("\nReason: "@ + reason),
        text::trimmed(reason).len() == 0 ==> pause_notice(paused, Some(reason)) == pause_notice(
            paused,
            None,
        ),
        pause_notice(paused, Some(reason)).len() <= pause_notice(paused, None).len()
            + "\nReason: "@.len() + 220,
        text::begins_with(
            pause_notice(paused, Some(reason)),
            if paused {
                "[POLYMARKET BOT CONTROL]\nTrading paused (use /resume to continue)."@
            } else {
                "[POLYMARKET BOT CONTROL]\nTrading resumed."@
            },
        ),
{
    clipped_text_fits(reason, 220);
    let start = if paused {
        "[POLYMARKET BOT CONTROL]\nTrading paused (use /resume to continue)."@
    } else {
        "[POLYMARKET BOT CONTROL]\nTrading resumed."@
    };
    assert(pause_notice(paused, None) =~= start);
    assert(pause_notice(paused, Some(reason)).subrange(0, start.len() as int) =~= start);
}

/// A message is sent to the chat with at most 3800 characters, and without a preview.
pub proof fn message_goes_to_the_chat(chat_id: Seq<char>, message: Seq<char>)
    ensures
        ({
            let document = message_document(chat_id, message);
            &&& document.member("chat_id"@) == Some(JsonTree::Text(chat_id))
            &&& document.member("disable_web_page_preview"@) == Some(JsonTree::Bool(true))
            &&& document.member("text"@) matches Some(JsonTree::Text(sent)) && sent.len() <= 3800
                && (message.len() <= 3800 ==> sent == message) && sent.take(
                if message.len() <= 3800 {
                    message.len() as int
                } else {
                    3797
                },
            ) == message.take(
                if message.len() <= 3800 {
                    message.len() as int
                } else {
                    3797
                },
            )
        }),
{
    reveal_strlit("chat_id");
    reveal_strlit("text");
    reveal_strlit("disable_web_page_preview");
    assert("chat_id"@.len() == 7);
    assert("text"@.len() == 4);
    assert("disable_web_page_preview"@.len() == 24);
    clipped_text_keeps_its_beginning(message, 3800);
    let members = seq![
        ("chat_id"@, JsonTree::Text(chat_id)),
        ("text"@, JsonTree::Text(clipped(message, TELEGRAM_MAX_MESSAGE_LENGTH as int))),
        ("disable_web_page_preview"@, JsonTree::Bool(true)),
    ];
    json::members_are_found_by_their_keys(members, 0);
    json::members_are_found_by_their_keys(members, 1);
    json::members_are_found_by_their_keys(members, 2);
}

/// A command from the bot's own chat is the command of its message; a look for updates begins where
/// the last one ended.
pub proof fn own_chat_is_listened_to(update: TelegramUpdate, chat_id: Seq<char>, offset: i64)
    ensures
        update.message is Some && chat_id == text::decimal_int(
            update.message->Some_0.chat_id as int,
        ) ==> command_in(update, Some(chat_id)) == command_of(
            json::text_view(update.message->Some_0.text),
        ),
        command_in(update, None) is None,
        (CommandListener {
            next_update_offset: Some(offset),
            update_offset_primed: true,
        }).query_of().contains(("offset"@, text::decimal_int(offset as int))),
        (CommandListener {
            next_update_offset: Some(offset),
            update_offset_primed: true,
        }).query_of().contains(("timeout"@, "25"@)),
        (CommandListener {
            next_update_offset: None,
            update_offset_primed: false,
        }).query_of() == seq![("timeout"@, "25"@)],
{
    let q = (CommandListener {
        next_update_offset: Some(offset),
        update_offset_primed: true,
    }).query_of();
    assert(q[0] == ("timeout"@, "25"@));
    assert(q[1] == ("offset"@, text::decimal_int(offset as int)));
}

/// The address of a method holds the bot's token and the method; a pause changes nothing but itself.
pub proof fn address_holds_token_and_method(
    token: Seq<char>,
    method: Seq<char>,
    n: NotifierView,
    paused: bool,
)
    ensures
        method_url(token, method) == "https://api.telegram.org/bot"@ + token + "/"@ + method,
        with_pause(n, paused).paused == paused,
        with_pause(n, paused).enabled == n.enabled,
        with_pause(n, paused).bot_token == n.bot_token,
        with_pause(n, paused).chat_id == n.chat_id,
        with_pause(n, paused).listener_started == n.listener_started,
        with_pause(with_pause(n, !paused), paused) == with_pause(n, paused),
{
}

} // verus!

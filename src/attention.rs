//! Decisions on whether an agent attends to content: the checks made before
//! asking a model, and the reading of the model's reply.
use vstd::prelude::*;
use crate::text::{ascii_lower, has_str, has_substring, to_ascii_lower};
use vstd::string::*;

verus! {

pub const HIGH_REWARD_COMMAND: &'static str = "HIGH_REWARD";
pub const MEDIUM_REWARD_COMMAND: &'static str = "MEDIUM_REWARD";
pub const RESPOND_COMMAND: &'static str = "RESPOND";
pub const IGNORE_COMMAND: &'static str = "IGNORE";
pub const STOP_COMMAND: &'static str = "STOP";
pub const TRUE_WORD: &'static str = "true";

/// How to treat a message in a conversation.
#[derive(Debug, PartialEq, Eq, Structural, PartialOrd)]
pub enum AttentionCommand {
    /// Stop responding to the conversation.
    Stop,
    /// Leave the message alone.
    Ignore,
    /// Respond to the message.
    Respond,
}

impl Default for AttentionCommand {
    fn default() -> (r: AttentionCommand)
        ensures
            r == AttentionCommand::Ignore,
    {
        AttentionCommand::Ignore
    }
}

/// How much a piece of content is worth.
#[derive(Debug, PartialEq, Eq, Structural, PartialOrd)]
pub enum ContentQuality {
    Ignore,
    Good,
    Exceptional,
}

impl Default for ContentQuality {
    fn default() -> (r: ContentQuality)
        ensures
            r == ContentQuality::Ignore,
    {
        ContentQuality::Ignore
    }
}

/// The Unicode lowercase form of a string.
pub uninterp spec fn lowercase_of(s: Seq<char>) -> Seq<char>;

/// Relies on `str::to_lowercase`, whose result depends on the characters
/// alone.
#[verifier::external_body]
fn to_lowercase(s: &str) -> (r: String)
    ensures
        r@ == lowercase_of(s@),
{
    s.to_lowercase()
}

/// The quality that a model's reply names; a failed completion is `None`.
pub open spec fn quality_of_reply(reply: Option<Seq<char>>) -> ContentQuality {
    match reply {
        Some(c) => if has_substring(c, HIGH_REWARD_COMMAND@) {
            ContentQuality::Exceptional
        } else if has_substring(c, MEDIUM_REWARD_COMMAND@) {
            ContentQuality::Good
        } else {
            ContentQuality::Ignore
        },
        None => ContentQuality::Ignore,
    }
}

/// The command that a model's reply names; a failed completion is `None`.
pub open spec fn command_of_reply(reply: Option<Seq<char>>) -> AttentionCommand {
    match reply {
        Some(c) => if has_substring(c, RESPOND_COMMAND@) {
            AttentionCommand::Respond
        } else if has_substring(c, STOP_COMMAND@) {
            AttentionCommand::Stop
        } else {
            AttentionCommand::Ignore
        },
        None => AttentionCommand::Ignore,
    }
}

/// Whether a model's reply says yes; a failed completion is `None`.
pub open spec fn yes_of_reply(reply: Option<Seq<char>>) -> bool {
    match reply {
        Some(c) => has_substring(ascii_lower(c), TRUE_WORD@),
        None => false,
    }
}

/// The view of an optional reply.
pub open spec fn reply_view(reply: Option<&str>) -> Option<Seq<char>> {
    match reply {
        Some(c) => Some(c@),
        None => None,
    }
}

/// Attention settings: the phrases that end a conversation and the fewest
/// tokens worth a look for prompts and for content.
#[derive(Debug)]
pub struct Attention {
    pub phrases: Vec<String>,
    pub min_prompt_tokens: usize,
    pub min_content_tokens: usize,
}

impl Attention {
    /// The stop phrases.
    pub open spec fn stop_phrases(&self) -> Seq<Seq<char>> {
        crate::registry::texts(self.phrases@)
    }

    /// Attention with the given stop phrases and thresholds.
    pub fn new(phrases: Vec<String>, min_prompt_tokens: usize, min_content_tokens: usize) -> (r: Attention)
        ensures
            r.stop_phrases() == crate::registry::texts(phrases@),
            r.min_prompt_tokens == min_prompt_tokens,
            r.min_content_tokens == min_content_tokens,
    {
        Attention { phrases, min_prompt_tokens, min_content_tokens }
    }

    /// Whether content of `tokens` tokens is long enough to evaluate.
    pub fn content_worth_evaluating(&self, tokens: usize) -> (r: bool)
        ensures
            r == (tokens >= self.min_content_tokens),
    {
        tokens >= self.min_content_tokens
    }

    /// Whether a prompt of `tokens` tokens is long enough to consider.
    pub fn prompt_worth_considering(&self, tokens: usize) -> (r: bool)
        ensures
            r == (tokens >= self.min_prompt_tokens),
    {
        tokens >= self.min_prompt_tokens
    }

    /// Whether the lowercased `message` holds one of the stop phrases.
    pub fn holds_stop_phrase(&self, message: &str) -> (r: bool)
        ensures
            r == exists|i: int|
                0 <= i < self.stop_phrases().len() && has_substring(
                    lowercase_of(message@),
                    #[trigger] self.stop_phrases()[i],
                ),
    {
        let content = to_lowercase(message);
        let mut i: usize = 0;
        while i < self.phrases.len()
            invariant
                i <= self.phrases@.len(),
                content@ == lowercase_of(message@),
                forall|k: int|
                    0 <= k < i ==> !has_substring(content@, #[trigger] self.stop_phrases()[k]),
            decreases self.phrases@.len() - i,
        {
            assert(self.stop_phrases()[i as int] == self.phrases@[i as int]@);
            if has_str(content.as_str(), self.phrases[i].as_str()) {
                return true;
            }
            i = i + 1;
        }
        false
    }

    /// What to do with a message before asking a model: `Stop` when it holds
    /// a stop phrase, else `Ignore` when it has fewer than the prompt
    /// threshold of tokens, else nothing, and the model decides.
    pub fn reply_precheck(&self, message: &str, tokens: usize) -> (r: Option<AttentionCommand>)
        ensures
            ({
                let stop = exists|i: int|
                    0 <= i < self.stop_phrases().len() && has_substring(
                        lowercase_of(message@),
                        #[trigger] self.stop_phrases()[i],
                    );
                r == if stop {
                    Some(AttentionCommand::Stop)
                } else if tokens < self.min_prompt_tokens {
                    Some(AttentionCommand::Ignore)
                } else {
                    None::<AttentionCommand>
                }
            }),
    {
        if self.holds_stop_phrase(message) {
            Some(AttentionCommand::Stop)
        } else if !self.prompt_worth_considering(tokens) {
            Some(AttentionCommand::Ignore)
        } else {
            None
        }
    }
}

impl Default for Attention {
    /// The usual stop phrases, a prompt threshold of 4 tokens and a content
    /// threshold of 60.
    fn default() -> (r: Attention)
        ensures
            r.stop_phrases() == seq![
                "shut up"@,
                "dont talk"@,
                "silence"@,
                "stop talking"@,
                "be quiet"@,
                "hush"@,
                "wtf"@,
                "stfu"@,
                "stupid bot"@,
                "dumb bot"@,
                "stop responding"@,
                "can you not"@,
                "can you stop"@,
            ],
            r.min_prompt_tokens == 4,
            r.min_content_tokens == 60,
    {
        let mut phrases: Vec<String> = Vec::new();
        phrases.push(String::from_str("shut up"));
        phrases.push(String::from_str("dont talk"));
        phrases.push(String::from_str("silence"));
        phrases.push(String::from_str("stop talking"));
        phrases.push(String::from_str("be quiet"));
        phrases.push(String::from_str("hush"));
        phrases.push(String::from_str("wtf"));
        phrases.push(String::from_str("stfu"));
        phrases.push(String::from_str("stupid bot"));
        phrases.push(String::from_str("dumb bot"));
        phrases.push(String::from_str("stop responding"));
        phrases.push(String::from_str("can you not"));
        phrases.push(String::from_str("can you stop"));
        let r = Attention::new(phrases, 4, 60);
        assert(r.stop_phrases() =~= seq![
            "shut up"@,
            "dont talk"@,
            "silence"@,
            "stop talking"@,
            "be quiet"@,
            "hush"@,
            "wtf"@,
            "stfu"@,
            "stupid bot"@,
            "dumb bot"@,
            "stop responding"@,
            "can you not"@,
            "can you stop"@,
        ]);
        r
    }
}

/// The content quality that a model's reply names; `None` stands for a failed
/// completion, which gives `Ignore`.
pub fn quality_from_reply(reply: Option<&str>) -> (r: ContentQuality)
    ensures
        r == quality_of_reply(reply_view(reply)),
{
    match reply {
        Some(c) => if has_str(c, HIGH_REWARD_COMMAND) {
            ContentQuality::Exceptional
        } else if has_str(c, MEDIUM_REWARD_COMMAND) {
            ContentQuality::Good
        } else {
            ContentQuality::Ignore
        },
        None => ContentQuality::Ignore,
    }
}

/// The attention command that a model's reply names; `None` stands for a
/// failed completion, which gives `Ignore`.
pub fn command_from_reply(reply: Option<&str>) -> (r: AttentionCommand)
    ensures
        r == command_of_reply(reply_view(reply)),
{
    match reply {
        Some(c) => if has_str(c, RESPOND_COMMAND) {
            AttentionCommand::Respond
        } else if has_str(c, STOP_COMMAND) {
            AttentionCommand::Stop
        } else {
            AttentionCommand::Ignore
        },
        None => AttentionCommand::Ignore,
    }
}

/// Whether a model's reply says `true`, in any ASCII case; `None` stands for
/// a failed completion, which gives `false`.
pub fn yes_from_reply(reply: Option<&str>) -> (r: bool)
    ensures
        r == yes_of_reply(reply_view(reply)),
{
    match reply {
        Some(c) => {
            let lower = to_ascii_lower(c);
            has_str(lower.as_str(), TRUE_WORD)
        },
        None => false,
    }
}

} // verus!

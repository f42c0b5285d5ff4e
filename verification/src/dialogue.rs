//! Talking to villagers: who they are, what the language model is told about
//! them, when a conversation opens and closes, and how the model's answer
//! becomes the line shown on screen. Sending the request and reading the
//! answer happen outside this crate; this module decides what is sent and
//! what is shown.

use vstd::prelude::*;
use vstd::string::*;
use crate::keybinds::{Action, Keybinds, keys_contain, contains_key_name};
use crate::text::{is_white_space, trim_end, trim_start, law_trim_removes_only_outer_white_space, same_text, trim_text, trimmed};

verus! {

/// The model that voices the villagers.
pub const MODEL: &'static str = "llama3.2:3b";

/// The line the player opens a conversation with.
pub const GREETING: &'static str = "Hello.";

/// Shown while the villager's answer is on its way.
pub const WAITING_LINE: &'static str = "...";

/// Shown when no answer could be had.
pub const NO_VOICE_LINE: &'static str = "*(can't find their voice)*";

/// Bram's character sheet.
pub const BRAM_PROMPT: &'static str = "You are Bram, a gruff blacksmith in a small frontier village. Suspicious of strangers, loyal once you trust someone, a man of few words, dry humor. Facts you know: a traveler brought you good iron ore last week; your apprentice Doru ran off to join bandits a month ago and it still stings; you don't trust Halvard the merchant who shorts people on weights; the village well is running low. Stay in character. Reply in 1-2 short sentences. Use only these facts; invent nothing.";

/// Senna's character sheet.
pub const SENNA_PROMPT: &'static str = "You are Senna, a warm, curious herbalist and healer in a small frontier village. Open-minded, kind, you like new people and new ideas. Facts you know: you tend the herb patch past the water; healing is slow work; Bram acts sour but once mended your kettle for free; you offer to patch up travelers who get hurt. Stay in character. Reply in 1-2 short sentences. Use only these facts; invent nothing.";

/// The character sheet of any other villager.
pub const VILLAGER_PROMPT: &'static str = "You are a friendly villager. Reply in 1-2 short sentences.";

/// A villager the player can talk to.
#[derive(Clone, Copy, Debug)]
pub struct Talkable {
    pub name: &'static str,
    pub emotion: &'static str,
}

/// The colour family of a portrait, by the speaker's emotion.
#[derive(Clone, Copy, Debug, PartialEq, Eq, Structural)]
pub enum Tone {
    Happy,
    Angry,
    Wary,
    Sad,
    Neutral,
}

/// The tone for an emotion name; any name other than the four known ones is neutral.
pub open spec fn tone_of(emotion: Seq<char>) -> Tone {
    if emotion == "happy"@ {
        Tone::Happy
    } else if emotion == "angry"@ {
        Tone::Angry
    } else if emotion == "wary"@ {
        Tone::Wary
    } else if emotion == "sad"@ {
        Tone::Sad
    } else {
        Tone::Neutral
    }
}

/// The tone for an emotion name (see [`tone_of`]).
pub fn emotion_tone(emotion: &str) -> (r: Tone)
    ensures
        r == tone_of(emotion@),
{
    if same_text(emotion, "happy") {
        Tone::Happy
    } else if same_text(emotion, "angry") {
        Tone::Angry
    } else if same_text(emotion, "wary") {
        Tone::Wary
    } else if same_text(emotion, "sad") {
        Tone::Sad
    } else {
        Tone::Neutral
    }
}

/// The character sheet the model gets for the villager called `name`.
pub open spec fn prompt_for(name: Seq<char>) -> Seq<char> {
    if name == "Bram"@ {
        BRAM_PROMPT@
    } else if name == "Senna"@ {
        SENNA_PROMPT@
    } else {
        VILLAGER_PROMPT@
    }
}

/// The character sheet for the villager called `name` (see [`prompt_for`]).
pub fn system_prompt(name: &str) -> (r: String)
    ensures
        r@ == prompt_for(name@),
{
    if same_text(name, "Bram") {
        String::from_str(BRAM_PROMPT)
    } else if same_text(name, "Senna") {
        String::from_str(SENNA_PROMPT)
    } else {
        String::from_str(VILLAGER_PROMPT)
    }
}

/// What is sent to the model: which model, the character sheet, and the
/// player's line.
#[derive(Debug)]
pub struct ChatRequest {
    pub model: String,
    pub system: String,
    pub user: String,
}

/// The request that asks the villager `name` to answer `player_line`.
pub fn chat_request(name: &str, player_line: &str) -> (r: ChatRequest)
    ensures
        r.model@ == MODEL@,
        r.system@ == prompt_for(name@),
        r.user@ == player_line@,
{
    ChatRequest {
        model: String::from_str(MODEL),
        system: system_prompt(name),
        user: String::from_str(player_line),
    }
}

/// The conversation on screen: whether the dialogue box is open and who speaks.
#[derive(Clone, Copy, Debug)]
pub struct Conversation {
    pub active: bool,
    pub speaker: Talkable,
}

impl Default for Conversation {
    /// No conversation, no speaker (empty name and emotion).
    fn default() -> (r: Conversation)
        ensures
            !r.active,
            r.speaker.name@ == Seq::<char>::empty(),
            r.speaker.emotion@ == Seq::<char>::empty(),
    {
        proof {
            reveal_strlit("");
        }
        Conversation { active: false, speaker: Talkable { name: "", emotion: "" } }
    }
}

impl Conversation {
    /// One frame of talk input. `nearest` is the closest villager within
    /// talking range of the player, if any.
    /// - With the box open, Escape closes it; nothing else happens.
    /// - With the box closed and the talk key just pressed, the nearest
    ///   villager becomes the speaker, the box opens, and the greeting is
    ///   sent to the model: the returned request.
    /// - Otherwise nothing changes.
    pub fn talk_input(
        &mut self,
        binds: &Keybinds,
        just_pressed: &Vec<String>,
        nearest: Option<Talkable>,
    ) -> (r: Option<ChatRequest>)
        ensures
            old(self).active && keys_contain(just_pressed@, "Escape"@) ==> {
                &&& !final(self).active
                &&& final(self).speaker == old(self).speaker
                &&& r is None
            },
            old(self).active && !keys_contain(just_pressed@, "Escape"@) ==> *final(self) == *old(self) && r is None,
            !old(self).active && !(keys_contain(just_pressed@, binds@[Action::Talk]) && nearest is Some) ==> {
                &&& *final(self) == *old(self)
                &&& r is None
            },
            !old(self).active && keys_contain(just_pressed@, binds@[Action::Talk]) && nearest is Some ==> {
                &&& final(self).active
                &&& final(self).speaker == nearest.unwrap()
                &&& r matches Some(req) && req.model@ == MODEL@ && req.system@ == prompt_for(
                    nearest.unwrap().name@,
                ) && req.user@ == GREETING@
            },
    {
        let escape = String::from_str("Escape");
        if self.active && contains_key_name(just_pressed, &escape) {
            self.active = false;
            return None;
        }
        if self.active || !binds.pressed(Action::Talk, just_pressed) {
            return None;
        }
        match nearest {
            Some(t) => {
                self.active = true;
                self.speaker = t;
                Some(chat_request(t.name, GREETING))
            },
            None => None,
        }
    }
}

/// What the JSON text `body` holds at `message.content`: `None` when `body`
/// is not JSON, `Some(None)` when that place holds no string, and
/// `Some(Some(text))` when it holds the string `text`.
pub uninterp spec fn chat_content(body: Seq<u8>) -> Option<Option<Seq<char>>>;

/// Parses the model's answer with `serde_json::from_slice` into a
/// `serde_json::Value` and reads `["message"]["content"]` with `as_str`.
/// Trusted: the result is [`chat_content`] of the bytes; nothing more is
/// stated of JSON parsing.
#[verifier::external_body]
fn read_chat_content(body: &[u8]) -> (r: Option<Option<String>>)
    ensures
        r.deep_view() == chat_content(body@),
{
    match serde_json::from_slice::<serde_json::Value>(body) {
        Ok(v) => Some(v["message"]["content"].as_str().map(String::from)),
        Err(_) => None,
    }
}

/// The line shown for a parsed answer: the content without surrounding
/// white space, `...` when the answer holds no text there, and the
/// no-voice line when the answer could not be parsed.
pub open spec fn reply_for(parsed: Option<Option<Seq<char>>>) -> Seq<char> {
    match parsed {
        None => NO_VOICE_LINE@,
        Some(None) => trimmed(WAITING_LINE@),
        Some(Some(text)) => trimmed(text),
    }
}

/// The line shown for an answer whose content is the text `t` is all of `t`
/// but the white space at its two ends, however long `t` is.
pub proof fn law_reply_is_whole_content_trimmed(t: Seq<char>)
    ensures
        exists|i: int, j: int|
            {
                &&& 0 <= i <= j <= t.len()
                &&& reply_for(Some(Some(t))) == t.subrange(i, j)
                &&& forall|k: int| 0 <= k < i ==> is_white_space(#[trigger] t[k])
                &&& forall|k: int| j <= k < t.len() ==> is_white_space(#[trigger] t[k])
                &&& i < j ==> !is_white_space(t[i]) && !is_white_space(t[j - 1])
            },
{
    law_trim_removes_only_outer_white_space(t);
}

/// An answer that is not JSON shows the no-voice line; one with no text at
/// `message.content` shows `...`.
pub proof fn law_reply_without_content()
    ensures
        reply_for(None) == "*(can't find their voice)*"@,
        reply_for(Some(None)) == "..."@,
{
    reveal_strlit("...");
    let w = "..."@;
    assert(!is_white_space(w[0]) && !is_white_space(w[2]));
    assert(trim_start(w) == w);
    assert(trim_end(w) == w);
}

/// The line shown for an answer already parsed (see [`reply_for`]).
pub fn reply_from_content(parsed: Option<Option<String>>) -> (r: String)
    ensures
        r@ == reply_for(parsed.deep_view()),
{
    match parsed {
        None => String::from_str(NO_VOICE_LINE),
        Some(None) => trim_text(WAITING_LINE),
        Some(Some(text)) => trim_text(text.as_str()),
    }
}

/// The line shown for the model's answer. `body` is the answer's bytes, or
/// `None` when the request or the reading of the answer failed.
pub fn reply_text(body: Option<&[u8]>) -> (r: String)
    ensures
        r@ == match body {
            None => NO_VOICE_LINE@,
            Some(b) => reply_for(chat_content(b@)),
        },
{
    match body {
        None => String::from_str(NO_VOICE_LINE),
        Some(b) => reply_from_content(read_chat_content(b)),
    }
}

} // verus!

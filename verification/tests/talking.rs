use alive::dialogue::{
    chat_request, emotion_tone, reply_from_content, reply_text, system_prompt, Conversation, Talkable, Tone,
    BRAM_PROMPT, GREETING, MODEL, NO_VOICE_LINE, SENNA_PROMPT, VILLAGER_PROMPT,
};
use alive::keybinds::Keybinds;

fn keys(names: &[&str]) -> Vec<String> {
    names.iter().map(|s| s.to_string()).collect()
}

#[test]
fn prompts_by_name() {
    assert_eq!(system_prompt("Bram"), BRAM_PROMPT);
    assert_eq!(system_prompt("Senna"), SENNA_PROMPT);
    assert_eq!(system_prompt("Doru"), VILLAGER_PROMPT);
    assert!(BRAM_PROMPT.starts_with("You are Bram, a gruff blacksmith"));
    assert_eq!(VILLAGER_PROMPT, "You are a friendly villager. Reply in 1-2 short sentences.");
}

#[test]
fn request_for_villager() {
    let r = chat_request("Senna", "Hello.");
    assert_eq!(r.model, "llama3.2:3b");
    assert_eq!(r.model, MODEL);
    assert_eq!(r.system, SENNA_PROMPT);
    assert_eq!(r.user, "Hello.");
}

#[test]
fn emotion_tones() {
    assert_eq!(emotion_tone("happy"), Tone::Happy);
    assert_eq!(emotion_tone("angry"), Tone::Angry);
    assert_eq!(emotion_tone("wary"), Tone::Wary);
    assert_eq!(emotion_tone("sad"), Tone::Sad);
    assert_eq!(emotion_tone("bored"), Tone::Neutral);
}

#[test]
fn talking_opens_and_escape_closes() {
    let b = Keybinds::default();
    let bram = Talkable { name: "Bram", emotion: "wary" };
    let mut c = Conversation::default();
    assert!(!c.active);
    // no villager near: nothing happens
    assert!(c.talk_input(&b, &keys(&["KeyF"]), None).is_none());
    assert!(!c.active);
    // the talk key was not pressed: nothing happens
    assert!(c.talk_input(&b, &keys(&["KeyG"]), Some(bram)).is_none());
    assert!(!c.active);
    let req = c.talk_input(&b, &keys(&["KeyF"]), Some(bram)).unwrap();
    assert!(c.active);
    assert_eq!(c.speaker.name, "Bram");
    assert_eq!(c.speaker.emotion, "wary");
    assert_eq!(req.system, BRAM_PROMPT);
    assert_eq!(req.user, GREETING);
    // while open, talking again does nothing
    assert!(c.talk_input(&b, &keys(&["KeyF"]), Some(bram)).is_none());
    assert!(c.active);
    assert!(c.talk_input(&b, &keys(&["Escape", "KeyF"]), Some(bram)).is_none());
    assert!(!c.active);
    assert_eq!(c.speaker.name, "Bram");
}

#[test]
fn replies_from_the_model() {
    let ok = br#"{"model":"llama3.2:3b","message":{"role":"assistant","content":"  Aye. What do you want?\n"},"done":true}"#;
    assert_eq!(reply_text(Some(ok)), "Aye. What do you want?");
    let no_text = br#"{"message":{"role":"assistant"}}"#;
    assert_eq!(reply_text(Some(no_text)), "...");
    let number = br#"{"message":{"content":5}}"#;
    assert_eq!(reply_text(Some(number)), "...");
    assert_eq!(reply_text(Some(b"not json")), NO_VOICE_LINE);
    assert_eq!(reply_text(None), "*(can't find their voice)*");
    assert_eq!(reply_from_content(Some(Some(" hi ".to_string()))), "hi");
    assert_eq!(reply_from_content(Some(None)), "...");
    assert_eq!(reply_from_content(None), NO_VOICE_LINE);
}

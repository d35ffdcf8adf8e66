use dwight::ai::{DwightAI, DwightResponse};
use dwight::records::DwightMemory;

const FALLBACK_TAIL: &str = "'. I'm always learning and analyzing. Could you provide more context about what you'd like me to help you with regarding audio analysis or security monitoring?";
const AUDIO_TEXT: &str = "I can analyze audio files for speech transcription I detect non-verbal sounds like footsteps, gunshots, car doors I can help you set up triggers for specific sounds or phrases I use advanced signal processing to identify acoustic patterns";
const TRIGGER_TEXT: &str = "I can help you set up custom triggers for sounds or speech patterns. Would you like me to show you how?";
const TRANSCRIBE_TEXT: &str = "I can transcribe audio files using advanced speech recognition. Just upload an audio file and I'll process it for you.";
const LEARNING_TEXT: &str = "I continuously learn from our interactions to better assist you I can analyze my own responses and improve my accuracy over time I store conversation context to provide more personalized assistance";
const HELP_TEXT: &str = "I'm here to help you with audio analysis, transcription, and security monitoring. What would you like me to help you with today?";
const CONTINUITY: &str = "Continuing our discussion about audio analysis...";

fn memory(user_input: &str) -> DwightMemory {
    DwightMemory {
        id: Some(1),
        context: format!("User asked: {}", user_input),
        response: String::from("noted"),
        created_at: String::from("2024-01-01T00:00:00+00:00"),
        user_input: String::from(user_input),
    }
}

fn same(a: &DwightResponse, b: &DwightResponse) -> bool {
    a.message == b.message
        && a.confidence == b.confidence
        && a.context_used == b.context_used
        && a.suggestions == b.suggestions
}

#[test]
fn unmatched_utterance_without_history_is_echoed() {
    let engine = DwightAI::new();
    let reply = engine.generate_response("Hello there", &[]);
    assert!(!reply.context_used);
    assert!(reply.message.contains("Hello there"));
    assert_eq!(reply.message, format!("Interesting input: 'Hello there{}", FALLBACK_TAIL));
    assert_eq!(reply.confidence, 50);
    assert_eq!(
        reply.suggestions,
        vec![
            String::from("Tell me more about your audio needs"),
            String::from("Explain what you're trying to accomplish"),
        ]
    );
}

#[test]
fn echo_keeps_the_utterance_as_typed() {
    let engine = DwightAI::new();
    let reply = engine.generate_response("WhAt Is ThE TiMe?", &[]);
    assert_eq!(reply.message, format!("Interesting input: 'WhAt Is ThE TiMe?{}", FALLBACK_TAIL));
}

#[test]
fn empty_utterance_gets_the_fallback() {
    let engine = DwightAI::new();
    let reply = engine.generate_response("", &[]);
    assert_eq!(reply.message, format!("Interesting input: '{}", FALLBACK_TAIL));
    assert_eq!(reply.confidence, 50);
    assert!(!reply.context_used);
}

#[test]
fn confidence_is_clamped_when_every_rule_fires() {
    let engine = DwightAI::new();
    let history = vec![memory("what is the weather")];
    let reply =
        engine.generate_response("audio trigger transcribe learn help", history.as_slice());
    assert_eq!(reply.confidence, 100);
    assert!(reply.context_used);
    assert_eq!(
        reply.message,
        format!(
            "Excellent question! {} {} {} {} {}",
            AUDIO_TEXT, TRIGGER_TEXT, TRANSCRIBE_TEXT, LEARNING_TEXT, HELP_TEXT
        )
    );
    assert_eq!(
        reply.suggestions,
        vec![
            String::from("Set up sound trigger"),
            String::from("Configure speech trigger"),
            String::from("Upload audio file"),
            String::from("Analyze audio file"),
            String::from("Set up triggers"),
            String::from("Review recordings"),
            String::from("Check system status"),
        ]
    );
}

#[test]
fn confidence_stays_within_bounds_for_many_utterances() {
    let engine = DwightAI::new();
    let history = vec![memory("audio"), memory("sound")];
    let utterances = [
        "",
        "hello",
        "audio",
        "audio sound recording",
        "please help me detect a sound and transcribe it better",
        "ALERT ALERT ALERT",
        "learn improve better assist transcript",
    ];
    for utterance in utterances.iter() {
        let alone = engine.generate_response(utterance, &[]);
        let after = engine.generate_response(utterance, history.as_slice());
        assert!(alone.confidence >= 50 && alone.confidence <= 100);
        assert!(after.confidence >= 60 && after.confidence <= 100);
    }
}

#[test]
fn each_rule_adds_its_own_confidence() {
    let engine = DwightAI::new();
    assert_eq!(engine.generate_response("audio", &[]).confidence, 80);
    assert_eq!(engine.generate_response("trigger", &[]).confidence, 70);
    assert_eq!(engine.generate_response("transcribe", &[]).confidence, 80);
    assert_eq!(engine.generate_response("learn", &[]).confidence, 70);
    assert_eq!(engine.generate_response("help", &[]).confidence, 60);
    assert_eq!(engine.generate_response("audio trigger", &[]).confidence, 100);
    assert_eq!(engine.generate_response("trigger help", &[]).confidence, 80);
    assert_eq!(engine.generate_response("learn help", &[]).confidence, 80);
}

#[test]
fn a_rule_fires_once_however_many_of_its_keywords_occur() {
    let engine = DwightAI::new();
    let reply = engine.generate_response("audio sound recording", &[]);
    assert_eq!(reply.confidence, 80);
    assert_eq!(reply.message, format!("Excellent question! {}", AUDIO_TEXT));
    assert!(reply.suggestions.is_empty());
}

#[test]
fn keywords_match_inside_longer_words() {
    let engine = DwightAI::new();
    let reply = engine.generate_response("soundtrack", &[]);
    assert_eq!(reply.confidence, 80);
    let reply = engine.generate_response("unhelpful", &[]);
    assert_eq!(reply.message, HELP_TEXT);
    let reply = engine.generate_response("transcription", &[]);
    assert_eq!(reply.confidence, 80);
    let reply = engine.generate_response("transcribing", &[]);
    assert_eq!(reply.confidence, 50);
}

#[test]
fn high_confidence_opens_eagerly() {
    let engine = DwightAI::new();
    let reply = engine.generate_response("tell me about audio", &[]);
    assert_eq!(reply.confidence, 80);
    assert!(reply.message.starts_with("Excellent question! "));
    assert!(!reply.message.starts_with("I'm still processing that. "));
}

#[test]
fn confidence_of_seventy_is_not_above_seventy() {
    let engine = DwightAI::new();
    let reply = engine.generate_response("set a trigger", &[]);
    assert_eq!(reply.confidence, 70);
    assert_eq!(reply.message, TRIGGER_TEXT);
    let history = vec![memory("good morning")];
    let reply = engine.generate_response("help", history.as_slice());
    assert_eq!(reply.confidence, 70);
    assert_eq!(reply.message, HELP_TEXT);
}

#[test]
fn no_reply_opens_hesitantly() {
    let engine = DwightAI::new();
    for utterance in ["", "hello", "help", "trigger", "audio"].iter() {
        let reply = engine.generate_response(utterance, &[]);
        assert!(reply.confidence >= 30);
        assert!(!reply.message.starts_with("I'm still processing that. "));
    }
}

#[test]
fn context_used_follows_history_alone() {
    let engine = DwightAI::new();
    let one = vec![memory("")];
    let many = vec![memory("x"), memory("audio"), memory("y"), memory("z")];
    for utterance in ["", "hello", "audio help"].iter() {
        assert!(!engine.generate_response(utterance, &[]).context_used);
        assert!(engine.generate_response(utterance, one.as_slice()).context_used);
        assert!(engine.generate_response(utterance, many.as_slice()).context_used);
    }
}

#[test]
fn history_adds_ten_points() {
    let engine = DwightAI::new();
    let history = vec![memory("good morning")];
    let reply = engine.generate_response("hello", history.as_slice());
    assert_eq!(reply.confidence, 60);
    assert_eq!(reply.message, format!("Interesting input: 'hello{}", FALLBACK_TAIL));
}

#[test]
fn earlier_talk_of_audio_is_continued() {
    let engine = DwightAI::new();
    let history = vec![memory("tell me about audio forensics")];
    let reply = engine.generate_response("hello", history.as_slice());
    assert!(reply.message.contains(CONTINUITY));
    assert_eq!(reply.message, CONTINUITY);
    assert_eq!(reply.confidence, 60);
    assert!(reply.context_used);
    assert!(reply.suggestions.is_empty());
}

#[test]
fn continuity_comes_after_the_rules() {
    let engine = DwightAI::new();
    let history = vec![memory("tell me about audio forensics")];
    let reply = engine.generate_response("help", history.as_slice());
    assert_eq!(reply.message, format!("{} {}", HELP_TEXT, CONTINUITY));
    assert_eq!(reply.confidence, 70);
}

#[test]
fn history_is_read_without_regard_to_case() {
    let engine = DwightAI::new();
    let history = vec![memory("What about AUDIO Forensics?")];
    let reply = engine.generate_response("hello", history.as_slice());
    assert_eq!(reply.message, CONTINUITY);
}

#[test]
fn only_the_first_three_entries_are_searched() {
    let engine = DwightAI::new();
    let late = vec![memory("a"), memory("b"), memory("c"), memory("audio")];
    let reply = engine.generate_response("hello", late.as_slice());
    assert!(!reply.message.contains(CONTINUITY));
    assert_eq!(reply.confidence, 60);
    let third = vec![memory("a"), memory("b"), memory("audio"), memory("d")];
    let reply = engine.generate_response("hello", third.as_slice());
    assert_eq!(reply.message, CONTINUITY);
}

#[test]
fn only_the_user_input_of_an_entry_is_searched() {
    let engine = DwightAI::new();
    let entry = DwightMemory {
        id: None,
        context: String::from("audio"),
        response: String::from("audio"),
        created_at: String::from("audio"),
        user_input: String::from("video"),
    };
    let history = vec![entry];
    let reply = engine.generate_response("hello", history.as_slice());
    assert!(!reply.message.contains(CONTINUITY));
}

#[test]
fn utterance_is_lower_cased_before_matching() {
    let engine = DwightAI::new();
    let reply = engine.generate_response("Tell me about AUDIO", &[]);
    assert_eq!(reply.confidence, 80);
    assert_eq!(reply.message, format!("Excellent question! {}", AUDIO_TEXT));
    let reply = engine.generate_response("HELP", &[]);
    assert_eq!(reply.message, HELP_TEXT);
}

#[test]
fn suggestions_keep_rule_order() {
    let engine = DwightAI::new();
    let reply = engine.generate_response("help me with an alert", &[]);
    assert_eq!(reply.message, format!("Excellent question! {} {}", TRIGGER_TEXT, HELP_TEXT));
    assert_eq!(
        reply.suggestions,
        vec![
            String::from("Set up sound trigger"),
            String::from("Configure speech trigger"),
            String::from("Analyze audio file"),
            String::from("Set up triggers"),
            String::from("Review recordings"),
            String::from("Check system status"),
        ]
    );
}

#[test]
fn transcription_rule_offers_an_upload() {
    let engine = DwightAI::new();
    let reply = engine.generate_response("show me the transcript", &[]);
    assert_eq!(reply.message, format!("Excellent question! {}", TRANSCRIBE_TEXT));
    assert_eq!(reply.suggestions, vec![String::from("Upload audio file")]);
    assert_eq!(reply.confidence, 80);
}

#[test]
fn learning_rule_says_what_is_known_about_learning() {
    let engine = DwightAI::new();
    let reply = engine.generate_response("can you get better?", &[]);
    assert_eq!(reply.message, LEARNING_TEXT);
    assert_eq!(reply.confidence, 70);
}

#[test]
fn same_question_gets_the_same_reply() {
    let engine = DwightAI::new();
    let history = vec![memory("tell me about audio forensics"), memory("thanks")];
    for utterance in ["", "hello", "help me transcribe this recording"].iter() {
        let first = engine.generate_response(utterance, history.as_slice());
        let second = engine.generate_response(utterance, history.as_slice());
        assert!(same(&first, &second));
        let other_engine = DwightAI::new();
        let third = other_engine.generate_response(utterance, history.as_slice());
        assert!(same(&first, &third));
    }
}

#[test]
fn replying_leaves_the_history_as_it_was() {
    let engine = DwightAI::new();
    let history = vec![memory("tell me about audio forensics")];
    let _ = engine.generate_response("hello", history.as_slice());
    assert_eq!(history.len(), 1);
    assert_eq!(history[0].user_input, "tell me about audio forensics");
    assert_eq!(history[0].response, "noted");
}

#[test]
fn compose_reply_takes_the_lowered_text_as_given() {
    let engine = DwightAI::new();
    let reply = engine.compose_reply("Hello", "audio", false, false);
    assert_eq!(reply.message, format!("Excellent question! {}", AUDIO_TEXT));
    let reply = engine.compose_reply("AUDIO", "AUDIO", false, false);
    assert_eq!(reply.message, format!("Interesting input: 'AUDIO{}", FALLBACK_TAIL));
}

#[test]
fn compose_reply_reads_continuing_only_with_history() {
    let engine = DwightAI::new();
    let reply = engine.compose_reply("hello", "hello", false, true);
    assert_eq!(reply.message, format!("Interesting input: 'hello{}", FALLBACK_TAIL));
    assert_eq!(reply.confidence, 50);
    assert!(!reply.context_used);
    let reply = engine.compose_reply("hello", "hello", true, true);
    assert_eq!(reply.message, CONTINUITY);
    assert_eq!(reply.confidence, 60);
    assert!(reply.context_used);
}

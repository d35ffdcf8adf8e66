use dwight::ai_models::{
    conclude_query, dwight_prompt, rag_prompt, uses_rag, AdvancedAI, QueryOutcome,
};
use dwight::text::{chars_of, count_words, decimal_text};

#[test]
fn registry_serves_the_standard_models() {
    let registry = AdvancedAI::new();
    for key in ["llama3-8b", "llama3-70b", "mixtral-8x7b", "mistral-7b"].iter() {
        assert_eq!(
            registry.endpoint_for(key),
            Some(String::from("http://localhost:11434/api/generate"))
        );
    }
}

#[test]
fn unknown_model_is_served_nowhere() {
    let registry = AdvancedAI::new();
    assert_eq!(registry.endpoint_for("gpt"), None);
    assert_eq!(registry.endpoint_for(""), None);
    assert_eq!(registry.endpoint_for("Llama3-8b"), None);
    assert_eq!(registry.endpoint_for("llama3-8b "), None);
}

#[test]
fn available_models_are_the_enabled_ones() {
    let registry = AdvancedAI::new();
    let available = registry.get_available_models();
    let names: Vec<&str> = available.iter().map(|model| model.name.as_str()).collect();
    assert_eq!(names, vec!["Llama 3 8B", "Mixtral 8x7B", "Mistral 7B"]);
    let kinds: Vec<&str> = available.iter().map(|model| model.model_type.as_str()).collect();
    assert_eq!(kinds, vec!["llama", "mixtral", "mistral"]);
    for model in available.iter() {
        assert!(model.enabled);
        assert_eq!(model.local_path, None);
        assert_eq!(
            model.api_endpoint,
            Some(String::from("http://localhost:11434/api/generate"))
        );
    }
}

#[test]
fn answered_query_gives_the_text_that_came() {
    let outcome = QueryOutcome::Answered(Some(String::from("All quiet.")));
    let response = conclude_query("what do you hear", "llama3-8b", outcome, 42);
    assert_eq!(response.text, "All quiet.");
    assert_eq!(response.tokens_used, 4);
    assert_eq!(response.processing_time_ms, 42);
    assert_eq!(response.confidence, 85);
}

#[test]
fn answer_without_text_is_named_as_such() {
    let response = conclude_query("hello", "llama3-8b", QueryOutcome::Answered(None), 0);
    assert_eq!(response.text, "No response");
    assert_eq!(response.tokens_used, 1);
    assert_eq!(response.confidence, 85);
}

#[test]
fn unanswered_query_gives_the_fallback() {
    let response = conclude_query("two words", "mixtral-8x7b", QueryOutcome::Unanswered, 7);
    assert_eq!(
        response.text,
        "Fallback response for: two words\n\nThis is a simulated response from mixtral-8x7b. In a full implementation, this would be processed by the actual AI model."
    );
    assert_eq!(response.tokens_used, 2);
    assert_eq!(response.processing_time_ms, 7);
    assert_eq!(response.confidence, 60);
}

#[test]
fn words_are_counted_as_the_standard_split_counts_them() {
    let texts = [
        "",
        " ",
        "one",
        " one ",
        "one two",
        "one  two\tthree\nfour",
        "\u{a0}no\u{2003}break\u{3000}",
        "tabs\t\tand\r\nlines",
        "a b c d e f g",
    ];
    for text in texts.iter() {
        assert_eq!(count_words(&chars_of(text)), text.split_whitespace().count());
    }
    assert_eq!(count_words(&chars_of("one  two\tthree\nfour")), 4);
    assert_eq!(count_words(&chars_of("   ")), 0);
}

#[test]
fn numbers_are_written_in_decimal() {
    assert_eq!(decimal_text(0), "0");
    assert_eq!(decimal_text(7), "7");
    assert_eq!(decimal_text(10), "10");
    assert_eq!(decimal_text(109), "109");
    assert_eq!(decimal_text(1234567890), "1234567890");
    assert_eq!(decimal_text(usize::MAX), usize::MAX.to_string());
}

#[test]
fn rag_prompt_numbers_the_documents_from_one() {
    let documents = vec![String::from("first"), String::from("second")];
    assert_eq!(
        rag_prompt("why?", &documents),
        "Context documents:\nDocument 1: first\nDocument 2: second\n\nQuery: why?\n\nPlease answer the query based on the provided context."
    );
}

#[test]
fn rag_prompt_without_documents_has_no_document_lines() {
    assert_eq!(
        rag_prompt("why?", &vec![]),
        "Context documents:\n\nQuery: why?\n\nPlease answer the query based on the provided context."
    );
}

#[test]
fn rag_prompt_counts_past_nine() {
    let documents: Vec<String> = (0..12).map(|_| String::from("d")).collect();
    let prompt = rag_prompt("q", &documents);
    assert!(prompt.contains("Document 9: d\nDocument 10: d\nDocument 11: d\nDocument 12: d\n\nQuery: q"));
}

#[test]
fn dwight_prompt_frames_the_input() {
    let prompt = dwight_prompt("Who is there?");
    assert_eq!(
        prompt,
        "You are Dwight, an advanced AI assistant specialized in audio analysis, surveillance, and security systems. You are brilliant, analytical, loyal, and technically proficient. You help users with:\n- Audio transcription and analysis\n- Sound pattern recognition\n- Security monitoring and alerts\n- Forensic audio investigation\n- Real-time audio processing\n\nUser input: Who is there?\n\nRespond as Dwight with technical expertise and helpful guidance:"
    );
}

#[test]
fn rag_is_used_only_when_asked_for_and_possible() {
    assert!(uses_rag(Some(true), true));
    assert!(!uses_rag(Some(true), false));
    assert!(!uses_rag(Some(false), true));
    assert!(!uses_rag(Some(false), false));
    assert!(!uses_rag(None, true));
    assert!(!uses_rag(None, false));
}

use rig_augmented_canvas::errors::RigError;
use rig_augmented_canvas::normalize::{normalize, NodeContent, PromptRequest};
use rig_augmented_canvas::prompts::{flashcards_prompt, questions_prompt};
use rig_augmented_canvas::strings::usize_to_string;
use rig_augmented_canvas::structured::{
    flashcards_from_reply, parse_flashcards_response, parse_questions_response,
    questions_from_reply,
};

fn node(id: &str, content: &str) -> NodeContent {
    NodeContent {
        id: id.to_string(),
        content: content.to_string(),
    }
}

fn multi(nodes: Vec<NodeContent>, prompt: &str, system_prompt: Option<&str>) -> PromptRequest {
    PromptRequest::MultiNode {
        nodes,
        prompt: prompt.to_string(),
        system_prompt: system_prompt.map(|s| s.to_string()),
    }
}

#[test]
fn normalize_single_node_passes_content_through() {
    let req = PromptRequest::SingleNode {
        content: "Summarize X".to_string(),
        system_prompt: Some("Be terse".to_string()),
    };
    let (text, sp) = normalize(req);
    assert_eq!(text, "Summarize X");
    assert_eq!(sp.as_deref(), Some("Be terse"));
}

#[test]
fn normalize_multi_node_layout_and_order() {
    let req = multi(
        vec![node("a", "alpha"), node("b", "beta"), node("c", "gamma")],
        "Combine the notes",
        None,
    );
    let (text, sp) = normalize(req);
    assert_eq!(
        text,
        "Node 1: alpha\n\nNode 2: beta\n\nNode 3: gamma\n\nPrompt: Combine the notes"
    );
    assert!(sp.is_none());
}

#[test]
fn normalize_is_pure_on_identical_input() {
    let build = || multi(vec![node("x", "one"), node("y", "two")], "merge", Some("sys"));
    let (t1, s1) = normalize(build());
    let (t2, s2) = normalize(build());
    assert_eq!(t1, t2);
    assert_eq!(s1, s2);
}

#[test]
fn normalize_ignores_node_ids() {
    let (t1, _) = normalize(multi(vec![node("id-one", "same")], "p", None));
    let (t2, _) = normalize(multi(vec![node("id-two", "same")], "p", None));
    assert_eq!(t1, t2);
    assert!(!t1.contains("id-one"));
}

#[test]
fn normalize_empty_node_list_keeps_only_instruction() {
    let (text, _) = normalize(multi(vec![], "just this", None));
    assert_eq!(text, "Prompt: just this");
}

#[test]
fn decimal_rendering_is_exact() {
    assert_eq!(usize_to_string(0), "0");
    assert_eq!(usize_to_string(7), "7");
    assert_eq!(usize_to_string(10), "10");
    assert_eq!(usize_to_string(12345), "12345");
}

#[test]
fn questions_prompt_embeds_count_zero_verbatim() {
    let p = questions_prompt("the content", 0);
    assert!(p.starts_with("Based on the following content, generate 0 thoughtful questions"));
    assert!(p.contains("\n\nContent: the content\n\nQuestions:"));
}

#[test]
fn questions_prompt_embeds_count_and_content() {
    let p = questions_prompt("cells divide", 5);
    assert_eq!(
        p,
        "Based on the following content, generate 5 thoughtful questions that would help \
         someone understand the material better. Return the response as a JSON object with \
         a 'questions' field containing an array of strings.\n\nContent: cells divide\n\nQuestions:"
    );
}

#[test]
fn flashcards_prompt_defaults_title_to_this_content() {
    let p = flashcards_prompt("notes", None);
    assert!(p.starts_with("Create flashcards for studying this content."));
    let q = flashcards_prompt("notes", Some("Biology"));
    assert!(q.starts_with("Create flashcards for studying Biology."));
    assert!(q.contains("\n\nContent: notes\n\nFlashcards:"));
}

#[test]
fn flashcards_prompt_exact_text() {
    let p = flashcards_prompt("mitosis", Some("Cell Division"));
    assert_eq!(
        p,
        "Create flashcards for studying Cell Division. Each flashcard should have a question \
         on the front and the answer on the back. Return the response as a JSON object with a \
         'filename' field containing a suggested filename (without extension) and a \
         'flashcards' field containing an array of objects, each with 'front' and 'back' \
         fields.\n\nContent: mitosis\n\nFlashcards:"
    );
}

#[test]
fn flashcards_round_trip_exact_text() {
    let raw = "{\"filename\":\"biology\",\"flashcards\":[{\"front\":\"Q\",\"back\":\"A\"}]}";
    let (filename, cards) = parse_flashcards_response(raw).unwrap();
    assert_eq!(filename, "biology");
    assert_eq!(cards.len(), 1);
    assert_eq!(cards[0].front, "Q");
    assert_eq!(cards[0].back, "A");
}

#[test]
fn flashcards_members_in_either_order() {
    let raw = "{ \"flashcards\": [ {\"back\": \"B\", \"front\": \"F\"} ], \"filename\": \"deck\" }";
    let (filename, cards) = parse_flashcards_response(raw).unwrap();
    assert_eq!(filename, "deck");
    assert_eq!(cards.len(), 1);
    assert_eq!(cards[0].front, "F");
    assert_eq!(cards[0].back, "B");
}

#[test]
fn flashcards_empty_array_is_accepted() {
    let raw = "{\"filename\":\"empty\",\"flashcards\":[]}";
    let (filename, cards) = parse_flashcards_response(raw).unwrap();
    assert_eq!(filename, "empty");
    assert!(cards.is_empty());
}

#[test]
fn flashcards_keep_card_order() {
    let raw = "{\"filename\":\"d\",\"flashcards\":[\
               {\"front\":\"f1\",\"back\":\"b1\"},\
               {\"back\":\"b2\",\"front\":\"f2\"},\
               {\"front\":\"f3\",\"back\":\"b3\"}]}";
    let (_, cards) = parse_flashcards_response(raw).unwrap();
    let fronts: Vec<&str> = cards.iter().map(|c| c.front.as_str()).collect();
    let backs: Vec<&str> = cards.iter().map(|c| c.back.as_str()).collect();
    assert_eq!(fronts, vec!["f1", "f2", "f3"]);
    assert_eq!(backs, vec!["b1", "b2", "b3"]);
}

#[test]
fn normalize_indexes_past_nine_use_two_digits() {
    let nodes: Vec<NodeContent> = (0..12).map(|i| node("n", &format!("c{}", i))).collect();
    let (text, _) = normalize(multi(nodes, "p", None));
    assert!(text.contains("Node 10: c9\n\n"));
    assert!(text.contains("Node 12: c11\n\n"));
}

#[test]
fn flashcards_missing_member_is_malformed() {
    let raw = "{\"filename\":\"only\"}";
    let err = parse_flashcards_response(raw).unwrap_err();
    assert!(matches!(err, RigError::MalformedModelOutput { .. }));
}

#[test]
fn questions_parse_happy_path() {
    let raw = "{\"questions\":[\"What is a cell?\",\"Why divide?\"]}";
    let qs = parse_questions_response(raw).unwrap();
    assert_eq!(qs, vec!["What is a cell?", "Why divide?"]);
}

#[test]
fn questions_parse_allows_whitespace() {
    let raw = " \n{ \"questions\" : [ \"a\" , \"b\" ] }\t ";
    let qs = parse_questions_response(raw).unwrap();
    assert_eq!(qs, vec!["a", "b"]);
}

#[test]
fn questions_parse_empty_array() {
    let qs = parse_questions_response("{\"questions\":[]}").unwrap();
    assert!(qs.is_empty());
}

#[test]
fn questions_parse_decodes_escapes() {
    let raw = "{\"questions\":[\"line\\nbreak\",\"quote \\\" and slash \\\\\"]}";
    let qs = parse_questions_response(raw).unwrap();
    assert_eq!(qs, vec!["line\nbreak", "quote \" and slash \\"]);
}

#[test]
fn questions_malformed_json_is_malformed_output_not_provider_call() {
    let raw = "{\"questions\":[\"unterminated\"";
    let err = parse_questions_response(raw).unwrap_err();
    assert!(matches!(err, RigError::MalformedModelOutput { .. }));
    assert!(!matches!(err, RigError::ProviderCall { .. }));
}

#[test]
fn questions_wrong_key_is_malformed() {
    let err = parse_questions_response("{\"answers\":[\"a\"]}").unwrap_err();
    assert!(matches!(err, RigError::MalformedModelOutput { .. }));
}

#[test]
fn questions_trailing_text_is_malformed() {
    let err = parse_questions_response("{\"questions\":[\"a\"]} extra").unwrap_err();
    assert!(matches!(err, RigError::MalformedModelOutput { .. }));
}

#[test]
fn questions_non_string_element_is_malformed() {
    let err = parse_questions_response("{\"questions\":[1]}").unwrap_err();
    assert!(matches!(err, RigError::MalformedModelOutput { .. }));
}

#[test]
fn questions_unknown_escape_is_malformed() {
    let err = parse_questions_response("{\"questions\":[\"bad \\x escape\"]}").unwrap_err();
    assert!(matches!(err, RigError::MalformedModelOutput { .. }));
}

#[test]
fn questions_raw_control_character_is_malformed() {
    let raw = "{\"questions\":[\"tab\there\"]}";
    let err = parse_questions_response(raw).unwrap_err();
    assert!(matches!(err, RigError::MalformedModelOutput { .. }));
}

#[test]
fn questions_empty_input_is_malformed() {
    let err = parse_questions_response("").unwrap_err();
    assert!(matches!(err, RigError::MalformedModelOutput { .. }));
}

#[test]
fn reply_composition_passes_provider_failures_through() {
    let failed: Result<String, RigError> = Err(RigError::ProviderCall {
        message: "upstream timed out".to_string(),
    });
    let err = questions_from_reply(failed).unwrap_err();
    match err {
        RigError::ProviderCall { message } => assert_eq!(message, "upstream timed out"),
        other => panic!("expected ProviderCall, got {:?}", other),
    }
}

#[test]
fn reply_composition_parses_successful_replies() {
    let reply: Result<String, RigError> =
        Ok("{\"filename\":\"deck\",\"flashcards\":[]}".to_string());
    let (filename, cards) = flashcards_from_reply(reply).unwrap();
    assert_eq!(filename, "deck");
    assert!(cards.is_empty());
}

#[test]
fn malformed_output_message_notes_parsing() {
    let err = parse_questions_response("not json").unwrap_err();
    let text = err.message();
    assert!(text.contains("Failed to parse questions response"));
    assert!(text.contains("output was not in the expected shape"));
}

use story_generator::openai::{
    authorization_header, chat_messages, chat_request, chat_request_at, completion_request,
    completion_request_at, first_choice, image_request, role_for, TEMPERATURE_STEPS,
};

fn strings(v: &[&str]) -> Vec<String> {
    v.iter().map(|s| s.to_string()).collect()
}

#[test]
fn roles_alternate_from_the_user() {
    assert_eq!(role_for(0), "user");
    assert_eq!(role_for(1), "assistant");
    assert_eq!(role_for(2), "user");
    assert_eq!(role_for(7), "assistant");
}

#[test]
fn chat_messages_carry_the_conversation() {
    let earlier = strings(&["prompt", "story", "Suggest a title for the story above"]);
    let msgs = chat_messages(&earlier);
    assert_eq!(msgs.len(), 3);
    assert_eq!(msgs[0].role, "user");
    assert_eq!(msgs[0].content, "prompt");
    assert_eq!(msgs[1].role, "assistant");
    assert_eq!(msgs[1].content, "story");
    assert_eq!(msgs[2].role, "user");
    assert_eq!(msgs[2].content, "Suggest a title for the story above");
}

#[test]
fn chat_messages_of_empty_conversation() {
    assert!(chat_messages(&[]).is_empty());
}

#[test]
fn chat_request_at_fixed_temperature() {
    let req = chat_request_at(&strings(&["hello"]), 4);
    assert_eq!(req.model, "gpt-4");
    assert_eq!(req.temperature_tenths, 4);
    assert_eq!(req.messages.len(), 1);
    assert_eq!(req.messages[0].role, "user");
    assert_eq!(req.messages[0].content, "hello");
}

#[test]
fn chat_request_draws_a_temperature_in_range() {
    for _ in 0..200 {
        let req = chat_request(&strings(&["a", "b"]));
        assert!((req.temperature_tenths as usize) < TEMPERATURE_STEPS);
        assert_eq!(req.model, "gpt-4");
        assert_eq!(req.messages[1].role, "assistant");
    }
}

#[test]
fn completion_requests() {
    let req = completion_request_at("tell me", 8);
    assert_eq!(req.model, "text-davinci-003");
    assert_eq!(req.prompt, "tell me");
    assert_eq!(req.temperature_tenths, 8);
    assert_eq!(req.max_tokens, 3500);
    for _ in 0..200 {
        let r = completion_request("x");
        assert!((r.temperature_tenths as usize) < TEMPERATURE_STEPS);
    }
}

#[test]
fn image_request_is_a_square_url() {
    let req = image_request("a castle in the style of fantasy");
    assert_eq!(req.prompt, "a castle in the style of fantasy");
    assert_eq!(req.size, "1024x1024");
    assert_eq!(req.response_format, "url");
}

#[test]
fn bearer_header() {
    assert_eq!(authorization_header("sk-123"), "Bearer sk-123");
    assert_eq!(authorization_header(""), "Bearer ");
}

#[test]
fn first_choice_is_taken() {
    assert_eq!(first_choice(&strings(&["one", "two"])), "one");
}

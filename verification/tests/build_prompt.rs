use baibot::controller::image::{
    build, edit_can_proceed, prompt_for_conversation, revised_prompt_to_show,
    sends_how_to_proceed_guide, Author, Message,
};

struct TestCase {
    original_prompt: &'static str,
    messages: Vec<Message>,
    expected_prompt: &'static str,
}

fn message(author: Author, text: &str) -> Message {
    Message {
        author,
        message_text: text.to_owned(),
    }
}

#[test]
fn test_build_prompt() {
    let test_cases = vec![
        // Simple case
        TestCase {
            original_prompt: "Generate a picture of a cat",
            messages: vec![],
            expected_prompt: "Generate a picture of a cat",
        },
        // Only a single user message
        TestCase {
            original_prompt: "Generate a picture of a dog",
            messages: vec![message(Author::User, "Must be blue")],
            expected_prompt: "Generate a picture of a dog\nOther criteria:\n- Must be blue",
        },
        // Multiple complex user messages dispersed with assistant messages
        TestCase {
            original_prompt: "Generate a picture of an elephant",
            messages: vec![
                message(Author::User, "Must be blue"),
                message(Author::Assistant, "Whatever"),
                message(Author::User, "Must be 3-legged.\nMust be flying."),
            ],
            expected_prompt: "Generate a picture of an elephant\nOther criteria:\n- Must be blue\n- Must be 3-legged.. Must be flying.",
        },
        // "Again" is ignored.
        TestCase {
            original_prompt: "Generate a picture of a grizzly bear",
            messages: vec![
                message(Author::User, "Must be blue"),
                message(Author::Assistant, "Whatever"),
                message(Author::User, "Again"),
                message(Author::User, "again"),
            ],
            expected_prompt: "Generate a picture of a grizzly bear\nOther criteria:\n- Must be blue",
        },
    ];

    for test_case in test_cases {
        let actual_prompt = build(test_case.original_prompt, test_case.messages);

        assert_eq!(actual_prompt, test_case.expected_prompt);
    }
}

#[test]
fn build_prompt_only_assistant_messages_keeps_original() {
    let prompt = build("A cat", vec![message(Author::Assistant, "Sure")]);
    assert_eq!(prompt, "A cat");
}

#[test]
fn build_prompt_again_in_any_case_is_ignored() {
    let prompt = build("A cat", vec![message(Author::User, "AGAIN"), message(Author::User, "aGaIn")]);
    assert_eq!(prompt, "A cat");
}

#[test]
fn build_prompt_replaces_every_line_break() {
    let prompt = build("A", vec![message(Author::User, "x\ny\nz"), message(Author::User, "\n")]);
    assert_eq!(prompt, "A\nOther criteria:\n- x. y. z\n- . ");
}

#[test]
fn conversation_prompt_skips_the_first_message() {
    let conversation = vec![
        Message { author: Author::User, message_text: "image create a cat".to_owned() },
        Message { author: Author::Assistant, message_text: "Here it is".to_owned() },
        Message { author: Author::User, message_text: "Make it orange".to_owned() },
    ];
    assert_eq!(
        prompt_for_conversation("a cat", conversation),
        "a cat\nOther criteria:\n- Make it orange"
    );
    let alone = vec![Message { author: Author::User, message_text: "Make it blue".to_owned() }];
    assert_eq!(prompt_for_conversation("a cat", alone), "a cat");
    assert_eq!(prompt_for_conversation("a cat", vec![]), "a cat");
}

#[test]
fn revised_prompt_is_shown_only_when_it_differs() {
    assert_eq!(revised_prompt_to_show("a cat", None), None);
    assert_eq!(revised_prompt_to_show("a cat", Some("  a cat\n".to_owned())), None);
    assert_eq!(
        revised_prompt_to_show("a cat", Some("a fluffy cat".to_owned())),
        Some("a fluffy cat".to_owned())
    );
}

#[test]
fn image_edit_waits_for_go_and_an_image() {
    let texts = vec!["make it darker".to_owned(), "GO".to_owned()];
    assert!(edit_can_proceed(&texts, 1));
    assert!(!edit_can_proceed(&texts, 0));
    assert!(!edit_can_proceed(&vec!["going".to_owned()], 2));
    assert!(!edit_can_proceed(&vec![], 2));
}

#[test]
fn how_to_proceed_guide_only_for_a_new_thread() {
    assert!(sends_how_to_proceed_guide(1));
    assert!(!sends_how_to_proceed_guide(0));
    assert!(!sends_how_to_proceed_guide(2));
}

#[test]
fn any_number_of_other_messages_leave_the_prompt_alone() {
    let criteria_only = vec![
        message(Author::User, "Must be blue"),
        message(Author::User, "Must fly"),
    ];
    let mixed = vec![
        message(Author::Assistant, "Here"),
        message(Author::User, "again"),
        message(Author::User, "Must be blue"),
        message(Author::Assistant, "Done"),
        message(Author::Assistant, "Done again"),
        message(Author::User, "AGAIN"),
        message(Author::User, "Must fly"),
        message(Author::Assistant, "Bye"),
    ];
    assert_eq!(build("A bird", mixed), build("A bird", criteria_only));
}

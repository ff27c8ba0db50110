use story_generator::prompt::{
    create_image_generation_prompt, create_story_prompt_string, create_title_prompt, StoryDetails,
};

fn details(genre: &str, theme: &str, extra_detail: &str) -> StoryDetails {
    StoryDetails {
        genre: genre.to_string(),
        theme: theme.to_string(),
        extra_detail: extra_detail.to_string(),
    }
}

#[test]
fn test_create_story_prompt_string() {
    let story_details = vec![
        StoryDetails {
            genre: "thriller".to_string(),
            theme: "a secret agent tracking down a smuggler".to_string(),
            extra_detail: String::new(),
        },
        StoryDetails {
            genre: "drama".to_string(),
            theme: "someone inheriting wealth".to_string(),
            extra_detail: "People should smile".to_string(),
        },
        StoryDetails {
            genre: "diddly doo".to_string(),
            theme: "doodely diddely".to_string(),
            extra_detail: "Okayley dokeley".to_string(),
        },
    ];

    let expected_prompts = vec![
        "Write a thriller 800 to 1400 word story about a secret agent tracking down a smuggler. ",
        "Write a drama 800 to 1400 word story about someone inheriting wealth. People should smile",
        "Write a diddly doo 800 to 1400 word story about doodely diddely. Okayley dokeley",
    ];

    let results: Vec<String> = story_details
        .iter()
        .map(|elem| create_story_prompt_string(elem))
        .collect();

    assert_eq!(results, expected_prompts);
}

#[test]
fn test_create_title_prompt() {
    let story_details = vec![
        StoryDetails {
            genre: "comedy".to_string(),
            theme: "a guy".to_string(),
            extra_detail: String::new(),
        },
        StoryDetails {
            genre: "drama".to_string(),
            theme: "family conflicts".to_string(),
            extra_detail: "plsdontincludeme".to_string(),
        },
        StoryDetails {
            genre: "diddly doo".to_string(),
            theme: "doodely diddely".to_string(),
            extra_detail: "Okayley dokeley".to_string(),
        },
    ];

    let expected_prompts = vec![
        "Suggest a title for a comedy about a guy",
        "Suggest a title for a drama about family conflicts",
        "Suggest a title for a diddly doo about doodely diddely",
    ];

    let results: Vec<String> = story_details
        .iter()
        .map(|elem| create_title_prompt(elem))
        .collect();

    assert_eq!(results, expected_prompts);
}

#[test]
fn test_create_image_generation_prompt() {
    let story_details = vec![
        StoryDetails {
            genre: "thriller".to_string(),
            theme: "a secret agent tracking down a smuggler".to_string(),
            extra_detail: String::new(),
        },
        StoryDetails {
            genre: "drama".to_string(),
            theme: "someone inheriting wealth".to_string(),
            extra_detail: "People should smile".to_string(),
        },
        StoryDetails {
            genre: "diddly doo".to_string(),
            theme: "doodely diddely".to_string(),
            extra_detail: "Okayley dokeley".to_string(),
        },
    ];

    let expected_prompts = vec![
        "a secret agent tracking down a smuggler in the style of thriller",
        "someone inheriting wealth in the style of drama",
        "doodely diddely in the style of diddly doo",
    ];

    let results: Vec<String> = story_details
        .iter()
        .map(|elem| create_image_generation_prompt(elem))
        .collect();

    assert_eq!(results, expected_prompts);
}

#[test]
fn story_prompt_with_empty_fields() {
    let d = details("", "", "");
    assert_eq!(create_story_prompt_string(&d), "Write a  800 to 1400 word story about . ");
    assert_eq!(create_title_prompt(&d), "Suggest a title for a  about ");
    assert_eq!(create_image_generation_prompt(&d), " in the style of ");
}

#[test]
fn prompts_keep_non_ascii_text() {
    let d = details("sci-fi", "ein Märchen über Drachen", "Ende gut, alles gut");
    assert_eq!(
        create_story_prompt_string(&d),
        "Write a sci-fi 800 to 1400 word story about ein Märchen über Drachen. Ende gut, alles gut"
    );
    assert_eq!(
        create_image_generation_prompt(&d),
        "ein Märchen über Drachen in the style of sci-fi"
    );
}

use story_generator::config::{GeneratorApp, GeneratorConfig};
use story_generator::plan::{SequelPlan, Step, StoryPlan};
use story_generator::prompt::StoryDetails;

fn strings(v: &[&str]) -> Vec<String> {
    v.iter().map(|s| s.to_string()).collect()
}

fn chat(step: Step) -> Vec<String> {
    match step {
        Step::Chat(m) => m,
        _ => panic!("expected a chat request"),
    }
}

fn image(step: Step) -> String {
    match step {
        Step::Image(p) => p,
        _ => panic!("expected an image request"),
    }
}

fn files(step: Step) -> Vec<(String, String)> {
    match step {
        Step::Write(f) => f.into_iter().map(|f| (f.name, f.contents)).collect(),
        _ => panic!("expected files"),
    }
}

fn pairs(v: &[(&str, &str)]) -> Vec<(String, String)> {
    v.iter().map(|(a, b)| (a.to_string(), b.to_string())).collect()
}

#[test]
fn story_plan_runs_the_whole_conversation() {
    let d = StoryDetails {
        genre: "drama".to_string(),
        theme: "someone inheriting wealth".to_string(),
        extra_detail: "People should smile".to_string(),
    };
    let prompt = "Write a drama 800 to 1400 word story about someone inheriting wealth. People should smile";
    let (mut plan, step) = StoryPlan::start(&d);
    assert_eq!(chat(step), strings(&[prompt]));
    assert!(!plan.is_finished());

    let step = plan.advance("Once upon a time.".to_string());
    assert_eq!(
        chat(step),
        strings(&[prompt, "Once upon a time.", "Suggest a title for the story above"])
    );
    let step = plan.advance("The Will".to_string());
    assert_eq!(
        chat(step),
        strings(&[
            prompt,
            "Once upon a time.",
            "Give a comma seperated list of maximum 3 genres for the story above"
        ])
    );
    let step = plan.advance("Drama, Comedy.".to_string());
    assert_eq!(image(step), "someone inheriting wealth in the style of drama");
    let step = plan.advance("https://img/1.png".to_string());
    assert_eq!(
        files(step),
        pairs(&[
            ("story_text.txt", "Once upon a time."),
            ("story_title.txt", "The Will"),
            ("story_image_url.txt", "https://img/1.png"),
            ("story_genre.txt", "drama, comedy"),
        ])
    );
    assert!(plan.is_finished());
    assert!(matches!(plan.advance("more".to_string()), Step::Done));
    assert!(plan.is_finished());
}

#[test]
fn sequel_plan_runs_the_whole_conversation() {
    let (mut plan, step) = SequelPlan::start("The old story".to_string());
    assert_eq!(
        chat(step),
        strings(&[
            "The old story",
            "",
            "Generate a sequel to the story above. Should be at least 1000 words"
        ])
    );
    let step = plan.advance("The new story".to_string());
    assert_eq!(
        chat(step),
        strings(&["The new story", "", "Suggest a title for the story above"])
    );
    let step = plan.advance("Return".to_string());
    assert_eq!(
        chat(step),
        strings(&[
            "The new story",
            "",
            "Give a comma seperated list of maximum 3 genres for the story above"
        ])
    );
    let step = plan.advance("SCI-FI. Horror.".to_string());
    assert_eq!(image(step), "Return");
    assert!(!plan.is_finished());
    let step = plan.advance("u".to_string());
    assert_eq!(
        files(step),
        pairs(&[
            ("sequel_text.txt", "The new story"),
            ("sequel_title.txt", "Return"),
            ("sequel_image_url.txt", "u"),
            ("sequel_genre.txt", "sci-fi horror"),
        ])
    );
    assert!(plan.is_finished());
    assert!(matches!(plan.advance(String::new()), Step::Done));
}

#[test]
fn config_draws_from_its_lists() {
    let config = GeneratorConfig::new(
        strings(&["thriller", "drama"]),
        strings(&["a heist"]),
        strings(&["", "It rains", "No dialogue"]),
    );
    for _ in 0..100 {
        let d = config.choose_details();
        assert!(config.genres().contains(&d.genre));
        assert_eq!(d.theme, "a heist");
        assert!(config.extra_details().contains(&d.extra_detail));
    }
    let d = config.details_at(1, 0, 2);
    assert_eq!(d.genre, "drama");
    assert_eq!(d.theme, "a heist");
    assert_eq!(d.extra_detail, "No dialogue");
}

#[test]
fn single_entry_lists_always_give_that_entry() {
    let config = GeneratorConfig::new(strings(&["g"]), strings(&["t"]), strings(&["e"]));
    let d = config.choose_details();
    assert_eq!((d.genre.as_str(), d.theme.as_str(), d.extra_detail.as_str()), ("g", "t", "e"));
}

#[test]
fn app_keeps_token_and_config() {
    let config = GeneratorConfig::new(strings(&["g"]), strings(&["t"]), strings(&["e"]));
    let app = GeneratorApp::new("secret".to_string(), config);
    assert_eq!(app.token(), "secret");
    assert_eq!(app.config().genres(), &strings(&["g"]));
    assert_eq!(app.config().themes(), &strings(&["t"]));
    let (d, plan, step) = app.generate();
    assert_eq!(d.genre, "g");
    assert!(!plan.is_finished());
    assert_eq!(chat(step), strings(&["Write a g 800 to 1400 word story about t. e"]));
    let (plan, step) = app.sequelize("old".to_string());
    assert!(!plan.is_finished());
    assert_eq!(chat(step)[0], "old");
}

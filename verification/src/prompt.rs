//! Prompts that are sent to the language and image models.

use vstd::prelude::*;
use vstd::string::*;

verus! {

/// The three ingredients of a story.
pub struct StoryDetails {
    pub genre: String,
    pub theme: String,
    pub extra_detail: String,
}

/// The text of the prompt that asks for a story.
pub open spec fn story_prompt_text(genre: Seq<char>, theme: Seq<char>, extra: Seq<char>) -> Seq<char> {
    "Write a "@ + genre + " 800 to 1400 word story about "@ + theme + ". "@ + extra
}

/// The text of the prompt that asks for a title of a story not yet written.
pub open spec fn title_prompt_text(genre: Seq<char>, theme: Seq<char>) -> Seq<char> {
    "Suggest a title for a "@ + genre + " about "@ + theme
}

/// The text of the prompt that asks for a cover image.
pub open spec fn image_prompt_text(genre: Seq<char>, theme: Seq<char>) -> Seq<char> {
    theme + " in the style of "@ + genre
}

/// Asks for a story of the given genre about the given theme, with the
/// extra detail appended as a sentence of its own.
pub fn create_story_prompt_string(story_details: &StoryDetails) -> (res: String)
    ensures
        res@ == story_prompt_text(
            story_details.genre@,
            story_details.theme@,
            story_details.extra_detail@,
        ),
{
    let mut res = String::from_str("Write a ");
    res.append(story_details.genre.as_str());
    res.append(" 800 to 1400 word story about ");
    res.append(story_details.theme.as_str());
    res.append(". ");
    res.append(story_details.extra_detail.as_str());
    res
}

/// Asks for a title for a story of the given genre and theme; the extra
/// detail plays no part.
pub fn create_title_prompt(story_details: &StoryDetails) -> (res: String)
    ensures
        res@ == title_prompt_text(story_details.genre@, story_details.theme@),
{
    let mut res = String::from_str("Suggest a title for a ");
    res.append(story_details.genre.as_str());
    res.append(" about ");
    res.append(story_details.theme.as_str());
    res
}

/// Asks for a picture of the theme drawn in the style of the genre.
pub fn create_image_generation_prompt(story_details: &StoryDetails) -> (res: String)
    ensures
        res@ == image_prompt_text(story_details.genre@, story_details.theme@),
{
    let mut res = story_details.theme.clone();
    res.append(" in the style of ");
    res.append(story_details.genre.as_str());
    res
}

} // verus!

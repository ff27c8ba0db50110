//! The conversations that make a new story and a sequel, as plans that the
//! caller drives: each plan says what to ask for next, and learns from the
//! answer what to ask for after that. Asking, waiting and writing files are
//! the caller's work.

use vstd::prelude::*;
use vstd::string::*;

use crate::prompt::{
    StoryDetails, create_image_generation_prompt, create_story_prompt_string, image_prompt_text,
    story_prompt_text,
};
use crate::text::{refine_genres, refined_genres_text};

verus! {

/// A file to write: its name and what goes in it.
pub struct OutputFile {
    pub name: String,
    pub contents: String,
}

/// What a plan asks its caller to do next.
pub enum Step {
    /// Send a chat request with this conversation and hand back the reply.
    Chat(Vec<String>),
    /// Send an image generation request with this prompt and hand back the
    /// URL of the picture.
    Image(String),
    /// Write these files.
    Write(Vec<OutputFile>),
    /// Nothing is left to do.
    Done,
}

/// A step with its texts as sequences of characters.
pub enum StepView {
    Chat(Seq<Seq<char>>),
    Image(Seq<char>),
    Write(Seq<(Seq<char>, Seq<char>)>),
    Done,
}

pub open spec fn texts_of(v: Seq<String>) -> Seq<Seq<char>> {
    v.map_values(|s: String| s@)
}

pub open spec fn files_of(v: Seq<OutputFile>) -> Seq<(Seq<char>, Seq<char>)> {
    v.map_values(|f: OutputFile| (f.name@, f.contents@))
}

impl View for Step {
    type V = StepView;

    open spec fn view(&self) -> StepView {
        match self {
            Step::Chat(m) => StepView::Chat(texts_of(m@)),
            Step::Image(p) => StepView::Image(p@),
            Step::Write(f) => StepView::Write(files_of(f@)),
            Step::Done => StepView::Done,
        }
    }
}

/// Where a plan stands: which answer it waits for.
#[derive(Clone, Copy, PartialEq, Eq, Structural)]
pub enum Stage {
    AwaitStory,
    AwaitTitle,
    AwaitGenres,
    AwaitImage,
    Finished,
}

pub open spec fn title_question() -> Seq<char> {
    "Suggest a title for the story above"@
}

pub open spec fn genres_question() -> Seq<char> {
    "Give a comma seperated list of maximum 3 genres for the story above"@
}

pub open spec fn sequel_question() -> Seq<char> {
    "Generate a sequel to the story above. Should be at least 1000 words"@
}

fn title_question_string() -> (res: String)
    ensures
        res@ == title_question(),
{
    String::from_str("Suggest a title for the story above")
}

fn genres_question_string() -> (res: String)
    ensures
        res@ == genres_question(),
{
    String::from_str("Give a comma seperated list of maximum 3 genres for the story above")
}

fn output_file(name: &str, contents: String) -> (res: OutputFile)
    ensures
        res.name@ == name@,
        res.contents@ == contents@,
{
    OutputFile { name: String::from_str(name), contents }
}

// ---------------------------------------------------------------------------
// A new story
// ---------------------------------------------------------------------------

/// What a story plan knows.
pub struct StoryState {
    pub stage: Stage,
    pub story_prompt: Seq<char>,
    pub image_prompt: Seq<char>,
    pub story_text: Seq<char>,
    pub title: Seq<char>,
    pub genres: Seq<char>,
}

/// The plan for a new story: ask for the story, then for its title, then
/// for its genres, then for a cover picture, and write the four results.
pub struct StoryPlan {
    stage: Stage,
    story_prompt: String,
    image_prompt: String,
    story_text: String,
    title: String,
    genres: String,
}

impl View for StoryPlan {
    type V = StoryState;

    closed spec fn view(&self) -> StoryState {
        StoryState {
            stage: self.stage,
            story_prompt: self.story_prompt@,
            image_prompt: self.image_prompt@,
            story_text: self.story_text@,
            title: self.title@,
            genres: self.genres@,
        }
    }
}

/// A story plan's first state and first step.
pub open spec fn story_start(details_genre: Seq<char>, details_theme: Seq<char>, details_extra: Seq<char>) -> (StoryState, StepView) {
    let story_prompt = story_prompt_text(details_genre, details_theme, details_extra);
    let state = StoryState {
        stage: Stage::AwaitStory,
        story_prompt,
        image_prompt: image_prompt_text(details_genre, details_theme),
        story_text: Seq::empty(),
        title: Seq::empty(),
        genres: Seq::empty(),
    };
    (state, StepView::Chat(seq![story_prompt]))
}

/// How a story plan moves on when an answer comes in.
pub open spec fn story_next(s: StoryState, reply: Seq<char>) -> (StoryState, StepView) {
    match s.stage {
        Stage::AwaitStory => (
            StoryState { stage: Stage::AwaitTitle, story_text: reply, ..s },
            StepView::Chat(seq![s.story_prompt, reply, title_question()]),
        ),
        Stage::AwaitTitle => (
            StoryState { stage: Stage::AwaitGenres, title: reply, ..s },
            StepView::Chat(seq![s.story_prompt, s.story_text, genres_question()]),
        ),
        Stage::AwaitGenres => (
            StoryState { stage: Stage::AwaitImage, genres: refined_genres_text(reply), ..s },
            StepView::Image(s.image_prompt),
        ),
        Stage::AwaitImage => (
            StoryState { stage: Stage::Finished, ..s },
            StepView::Write(
                seq![
                    ("story_text.txt"@, s.story_text),
                    ("story_title.txt"@, s.title),
                    ("story_image_url.txt"@, reply),
                    ("story_genre.txt"@, s.genres),
                ],
            ),
        ),
        Stage::Finished => (s, StepView::Done),
    }
}

impl StoryPlan {
    /// Starts a story plan for the given ingredients; its first step asks
    /// for the story.
    pub fn start(details: &StoryDetails) -> (res: (StoryPlan, Step))
        ensures
            res.0@ == story_start(details.genre@, details.theme@, details.extra_detail@).0,
            res.1@ == story_start(details.genre@, details.theme@, details.extra_detail@).1,
    {
        let story_prompt = create_story_prompt_string(details);
        let image_prompt = create_image_generation_prompt(details);
        let mut first: Vec<String> = Vec::new();
        first.push(story_prompt.clone());
        let plan = StoryPlan {
            stage: Stage::AwaitStory,
            story_prompt,
            image_prompt,
            story_text: String::new(),
            title: String::new(),
            genres: String::new(),
        };
        let step = Step::Chat(first);
        assert(texts_of(first@) =~= seq![plan.story_prompt@]);
        (plan, step)
    }

    /// Takes the answer to the last step and says what to do next.
    pub fn advance(&mut self, reply: String) -> (step: Step)
        ensures
            final(self)@ == story_next(old(self)@, reply@).0,
            step@ == story_next(old(self)@, reply@).1,
    {
        match self.stage {
            Stage::AwaitStory => {
                let mut m: Vec<String> = Vec::new();
                m.push(self.story_prompt.clone());
                m.push(reply.clone());
                m.push(title_question_string());
                self.story_text = reply;
                self.stage = Stage::AwaitTitle;
                assert(texts_of(m@) =~= seq![self.story_prompt@, self.story_text@, title_question()]);
                Step::Chat(m)
            },
            Stage::AwaitTitle => {
                let mut m: Vec<String> = Vec::new();
                m.push(self.story_prompt.clone());
                m.push(self.story_text.clone());
                m.push(genres_question_string());
                self.title = reply;
                self.stage = Stage::AwaitGenres;
                assert(texts_of(m@) =~= seq![self.story_prompt@, self.story_text@, genres_question()]);
                Step::Chat(m)
            },
            Stage::AwaitGenres => {
                self.genres = refine_genres(reply.as_str());
                self.stage = Stage::AwaitImage;
                Step::Image(self.image_prompt.clone())
            },
            Stage::AwaitImage => {
                let mut f: Vec<OutputFile> = Vec::new();
                f.push(output_file("story_text.txt", self.story_text.clone()));
                f.push(output_file("story_title.txt", self.title.clone()));
                f.push(output_file("story_image_url.txt", reply));
                f.push(output_file("story_genre.txt", self.genres.clone()));
                self.stage = Stage::Finished;
                assert(files_of(f@) =~= seq![
                    ("story_text.txt"@, self.story_text@),
                    ("story_title.txt"@, self.title@),
                    ("story_image_url.txt"@, reply@),
                    ("story_genre.txt"@, self.genres@),
                ]);
                Step::Write(f)
            },
            Stage::Finished => Step::Done,
        }
    }

    /// The genre list received, after clean-up; empty until it has come in.
    pub fn genres(&self) -> (res: &String)
        ensures
            res@ == self@.genres,
    {
        &self.genres
    }

    /// True once the plan has nothing left to ask for.
    pub fn is_finished(&self) -> (res: bool)
        ensures
            res == (self@.stage == Stage::Finished),
    {
        match self.stage {
            Stage::Finished => true,
            _ => false,
        }
    }
}

// ---------------------------------------------------------------------------
// A sequel
// ---------------------------------------------------------------------------

/// What a sequel plan knows.
pub struct SequelState {
    pub stage: Stage,
    pub sequel_text: Seq<char>,
    pub title: Seq<char>,
    pub genres: Seq<char>,
}

/// The plan for a sequel to a story: ask for the sequel, then for its title,
/// then for its genres, then for a picture of its title, and write the four
/// results. Each question after the first is put to the sequel alone, with
/// an empty reply between.
pub struct SequelPlan {
    stage: Stage,
    sequel_text: String,
    title: String,
    genres: String,
}

impl View for SequelPlan {
    type V = SequelState;

    closed spec fn view(&self) -> SequelState {
        SequelState {
            stage: self.stage,
            sequel_text: self.sequel_text@,
            title: self.title@,
            genres: self.genres@,
        }
    }
}

/// A sequel plan's first state and first step.
pub open spec fn sequel_start(story_text: Seq<char>) -> (SequelState, StepView) {
    let state = SequelState {
        stage: Stage::AwaitStory,
        sequel_text: Seq::empty(),
        title: Seq::empty(),
        genres: Seq::empty(),
    };
    (state, StepView::Chat(seq![story_text, Seq::empty(), sequel_question()]))
}

/// How a sequel plan moves on when an answer comes in.
pub open spec fn sequel_next(s: SequelState, reply: Seq<char>) -> (SequelState, StepView) {
    match s.stage {
        Stage::AwaitStory => (
            SequelState { stage: Stage::AwaitTitle, sequel_text: reply, ..s },
            StepView::Chat(seq![reply, Seq::empty(), title_question()]),
        ),
        Stage::AwaitTitle => (
            SequelState { stage: Stage::AwaitGenres, title: reply, ..s },
            StepView::Chat(seq![s.sequel_text, Seq::empty(), genres_question()]),
        ),
        Stage::AwaitGenres => (
            SequelState { stage: Stage::AwaitImage, genres: refined_genres_text(reply), ..s },
            StepView::Image(s.title),
        ),
        Stage::AwaitImage => (
            SequelState { stage: Stage::Finished, ..s },
            StepView::Write(
                seq![
                    ("sequel_text.txt"@, s.sequel_text),
                    ("sequel_title.txt"@, s.title),
                    ("sequel_image_url.txt"@, reply),
                    ("sequel_genre.txt"@, s.genres),
                ],
            ),
        ),
        Stage::Finished => (s, StepView::Done),
    }
}

impl SequelPlan {
    /// Starts a sequel plan for a story; its first step asks for the sequel.
    pub fn start(story_text: String) -> (res: (SequelPlan, Step))
        ensures
            res.0@ == sequel_start(story_text@).0,
            res.1@ == sequel_start(story_text@).1,
    {
        let mut first: Vec<String> = Vec::new();
        let ghost story = story_text@;
        first.push(story_text);
        first.push(String::new());
        first.push(String::from_str("Generate a sequel to the story above. Should be at least 1000 words"));
        let plan = SequelPlan {
            stage: Stage::AwaitStory,
            sequel_text: String::new(),
            title: String::new(),
            genres: String::new(),
        };
        assert(texts_of(first@) =~= seq![story, Seq::empty(), sequel_question()]);
        (plan, Step::Chat(first))
    }

    /// Takes the answer to the last step and says what to do next.
    pub fn advance(&mut self, reply: String) -> (step: Step)
        ensures
            final(self)@ == sequel_next(old(self)@, reply@).0,
            step@ == sequel_next(old(self)@, reply@).1,
    {
        match self.stage {
            Stage::AwaitStory => {
                let mut m: Vec<String> = Vec::new();
                m.push(reply.clone());
                m.push(String::new());
                m.push(title_question_string());
                self.sequel_text = reply;
                self.stage = Stage::AwaitTitle;
                assert(texts_of(m@) =~= seq![self.sequel_text@, Seq::empty(), title_question()]);
                Step::Chat(m)
            },
            Stage::AwaitTitle => {
                let mut m: Vec<String> = Vec::new();
                m.push(self.sequel_text.clone());
                m.push(String::new());
                m.push(genres_question_string());
                self.title = reply;
                self.stage = Stage::AwaitGenres;
                assert(texts_of(m@) =~= seq![self.sequel_text@, Seq::empty(), genres_question()]);
                Step::Chat(m)
            },
            Stage::AwaitGenres => {
                self.genres = refine_genres(reply.as_str());
                self.stage = Stage::AwaitImage;
                Step::Image(self.title.clone())
            },
            Stage::AwaitImage => {
                let mut f: Vec<OutputFile> = Vec::new();
                f.push(output_file("sequel_text.txt", self.sequel_text.clone()));
                f.push(output_file("sequel_title.txt", self.title.clone()));
                f.push(output_file("sequel_image_url.txt", reply));
                f.push(output_file("sequel_genre.txt", self.genres.clone()));
                self.stage = Stage::Finished;
                assert(files_of(f@) =~= seq![
                    ("sequel_text.txt"@, self.sequel_text@),
                    ("sequel_title.txt"@, self.title@),
                    ("sequel_image_url.txt"@, reply@),
                    ("sequel_genre.txt"@, self.genres@),
                ]);
                Step::Write(f)
            },
            Stage::Finished => Step::Done,
        }
    }

    /// The genre list received, after clean-up; empty until it has come in.
    pub fn genres(&self) -> (res: &String)
        ensures
            res@ == self@.genres,
    {
        &self.genres
    }

    /// True once the plan has nothing left to ask for.
    pub fn is_finished(&self) -> (res: bool)
        ensures
            res == (self@.stage == Stage::Finished),
    {
        match self.stage {
            Stage::Finished => true,
            _ => false,
        }
    }
}

} // verus!

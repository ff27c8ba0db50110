//! The generator's configuration and the random choice of a story's
//! ingredients.

use vstd::prelude::*;
use vstd::string::*;

use crate::plan::{SequelPlan, Step, StoryPlan, sequel_start, story_start};
use crate::prompt::StoryDetails;
use crate::random::{draw_below, drawn_below};

verus! {

/// The lists from which a story's genre, theme and extra detail are drawn.
pub struct GeneratorConfig {
    genres: Vec<String>,
    themes: Vec<String>,
    extra_details: Vec<String>,
}

impl GeneratorConfig {
    pub closed spec fn genre_list(&self) -> Seq<Seq<char>> {
        self.genres@.map_values(|s: String| s@)
    }

    pub closed spec fn theme_list(&self) -> Seq<Seq<char>> {
        self.themes@.map_values(|s: String| s@)
    }

    pub closed spec fn extra_detail_list(&self) -> Seq<Seq<char>> {
        self.extra_details@.map_values(|s: String| s@)
    }

    /// True when every list has something to draw from.
    pub open spec fn can_draw(&self) -> bool {
        &&& self.genre_list().len() > 0
        &&& self.theme_list().len() > 0
        &&& self.extra_detail_list().len() > 0
    }

    pub fn new(genres: Vec<String>, themes: Vec<String>, extra_details: Vec<String>) -> (res: Self)
        ensures
            res.genre_list() == genres@.map_values(|s: String| s@),
            res.theme_list() == themes@.map_values(|s: String| s@),
            res.extra_detail_list() == extra_details@.map_values(|s: String| s@),
    {
        GeneratorConfig { genres, themes, extra_details }
    }

    pub fn genres(&self) -> (res: &Vec<String>)
        ensures
            res@.map_values(|s: String| s@) == self.genre_list(),
    {
        &self.genres
    }

    pub fn themes(&self) -> (res: &Vec<String>)
        ensures
            res@.map_values(|s: String| s@) == self.theme_list(),
    {
        &self.themes
    }

    pub fn extra_details(&self) -> (res: &Vec<String>)
        ensures
            res@.map_values(|s: String| s@) == self.extra_detail_list(),
    {
        &self.extra_details
    }

    /// The ingredients at the given positions of the three lists.
    pub fn details_at(&self, genre: usize, theme: usize, extra_detail: usize) -> (res: StoryDetails)
        requires
            genre < self.genre_list().len(),
            theme < self.theme_list().len(),
            extra_detail < self.extra_detail_list().len(),
        ensures
            res.genre@ == self.genre_list()[genre as int],
            res.theme@ == self.theme_list()[theme as int],
            res.extra_detail@ == self.extra_detail_list()[extra_detail as int],
    {
        StoryDetails {
            genre: self.genres[genre].clone(),
            theme: self.themes[theme].clone(),
            extra_detail: self.extra_details[extra_detail].clone(),
        }
    }

    /// Draws a genre, a theme and an extra detail, each by chance and each
    /// from its own list.
    pub fn choose_details(&self) -> (res: StoryDetails)
        requires
            self.can_draw(),
        ensures
            self.genre_list().contains(res.genre@),
            self.theme_list().contains(res.theme@),
            self.extra_detail_list().contains(res.extra_detail@),
            exists|g: usize|
                #[trigger] drawn_below(self.genre_list().len() as usize, g) && res.genre@
                    == self.genre_list()[g as int],
            exists|t: usize|
                #[trigger] drawn_below(self.theme_list().len() as usize, t) && res.theme@
                    == self.theme_list()[t as int],
            exists|d: usize|
                #[trigger] drawn_below(self.extra_detail_list().len() as usize, d)
                    && res.extra_detail@ == self.extra_detail_list()[d as int],
    {
        let g = draw_below(self.genres.len());
        let t = draw_below(self.themes.len());
        let d = draw_below(self.extra_details.len());
        let res = self.details_at(g, t, d);
        assert(self.genre_list()[g as int] == res.genre@);
        assert(self.theme_list()[t as int] == res.theme@);
        assert(self.extra_detail_list()[d as int] == res.extra_detail@);
        assert(self.genre_list().len() as usize == self.genres.len());
        assert(self.theme_list().len() as usize == self.themes.len());
        assert(self.extra_detail_list().len() as usize == self.extra_details.len());
        assert(drawn_below(self.genre_list().len() as usize, g));
        assert(drawn_below(self.theme_list().len() as usize, t));
        assert(drawn_below(self.extra_detail_list().len() as usize, d));
        res
    }
}

/// The generator: an API token and the configuration to draw stories from.
pub struct GeneratorApp {
    token: String,
    config: GeneratorConfig,
}

impl GeneratorApp {
    pub closed spec fn token_text(&self) -> Seq<char> {
        self.token@
    }

    pub closed spec fn configuration(&self) -> GeneratorConfig {
        self.config
    }

    pub fn new(token: String, config: GeneratorConfig) -> (res: Self)
        ensures
            res.token_text() == token@,
            res.configuration() == config,
    {
        Self { token, config }
    }

    pub fn token(&self) -> (res: &String)
        ensures
            res@ == self.token_text(),
    {
        &self.token
    }

    pub fn config(&self) -> (res: &GeneratorConfig)
        ensures
            *res == self.configuration(),
    {
        &self.config
    }

    /// Draws a story's ingredients from the configuration and starts the
    /// plan that writes the story. Drawing needs every list to be non-empty.
    pub fn generate(&self) -> (res: (StoryDetails, StoryPlan, Step))
        requires
            self.configuration().can_draw(),
        ensures
            self.configuration().genre_list().contains(res.0.genre@),
            self.configuration().theme_list().contains(res.0.theme@),
            self.configuration().extra_detail_list().contains(res.0.extra_detail@),
            exists|g: usize|
                #[trigger] drawn_below(self.configuration().genre_list().len() as usize, g)
                    && res.0.genre@ == self.configuration().genre_list()[g as int],
            exists|t: usize|
                #[trigger] drawn_below(self.configuration().theme_list().len() as usize, t)
                    && res.0.theme@ == self.configuration().theme_list()[t as int],
            exists|d: usize|
                #[trigger] drawn_below(
                    self.configuration().extra_detail_list().len() as usize,
                    d,
                ) && res.0.extra_detail@ == self.configuration().extra_detail_list()[d as int],
            res.1@ == story_start(res.0.genre@, res.0.theme@, res.0.extra_detail@).0,
            res.2@ == story_start(res.0.genre@, res.0.theme@, res.0.extra_detail@).1,
    {
        let details = self.config.choose_details();
        let (plan, step) = StoryPlan::start(&details);
        (details, plan, step)
    }

    /// Starts the plan that writes a sequel to the given story.
    pub fn sequelize(&self, story_text: String) -> (res: (SequelPlan, Step))
        ensures
            res.0@ == sequel_start(story_text@).0,
            res.1@ == sequel_start(story_text@).1,
    {
        SequelPlan::start(story_text)
    }
}

} // verus!

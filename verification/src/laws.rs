//! Properties of the plans and of the text clean-up that hold for every
//! input.

use vstd::prelude::*;

use crate::openai::{ChatMessage, is_conversation, role_text};
use crate::plan::{
    SequelState, Stage, StepView, StoryState, genres_question, sequel_next, sequel_question,
    sequel_start, story_next, story_start, title_question,
};
use crate::prompt::{image_prompt_text, story_prompt_text, title_prompt_text};
use crate::random::drawn_below;
use crate::text::{
    all_ascii, ascii_lower_char, ascii_lowercase, has_no_ascii_upper, is_ascii_upper, lowercase_of,
    refined_genres_text, without_char,
};

verus! {

/// A new story is written in one conversation: the story is asked for with
/// the story prompt; its title and then its genres are asked for with the
/// prompt and the story as history; the cover is drawn from the image
/// prompt; and the files then written hold exactly the story, the title, the
/// picture's URL and the genre list in lower case without full stops, in
/// that order. After that the plan asks for nothing more.
pub proof fn story_conversation(
    genre: Seq<char>,
    theme: Seq<char>,
    extra: Seq<char>,
    story: Seq<char>,
    title: Seq<char>,
    genres: Seq<char>,
    url: Seq<char>,
    later: Seq<char>,
)
    ensures
        ({
            let prompt = story_prompt_text(genre, theme, extra);
            let (s0, a0) = story_start(genre, theme, extra);
            let (s1, a1) = story_next(s0, story);
            let (s2, a2) = story_next(s1, title);
            let (s3, a3) = story_next(s2, genres);
            let (s4, a4) = story_next(s3, url);
            let (s5, a5) = story_next(s4, later);
            &&& a0 == StepView::Chat(seq![prompt])
            &&& a1 == StepView::Chat(seq![prompt, story, title_question()])
            &&& a2 == StepView::Chat(seq![prompt, story, genres_question()])
            &&& a3 == StepView::Image(image_prompt_text(genre, theme))
            &&& a4 == StepView::Write(
                seq![
                    ("story_text.txt"@, story),
                    ("story_title.txt"@, title),
                    ("story_image_url.txt"@, url),
                    ("story_genre.txt"@, refined_genres_text(genres)),
                ],
            )
            &&& s4.stage == Stage::Finished
            &&& s5 == s4
            &&& a5 == StepView::Done
        }),
{
}

/// A sequel is written in one conversation: the sequel is asked for with the
/// old story as history; its title and then its genres are asked for with
/// the sequel alone as history; the picture is drawn from the sequel's
/// title; and the files then written hold exactly the sequel, its title, the
/// picture's URL and the genre list in lower case without full stops. After
/// that the plan asks for nothing more.
pub proof fn sequel_conversation(
    story: Seq<char>,
    sequel: Seq<char>,
    title: Seq<char>,
    genres: Seq<char>,
    url: Seq<char>,
    later: Seq<char>,
)
    ensures
        ({
            let (s0, a0) = sequel_start(story);
            let (s1, a1) = sequel_next(s0, sequel);
            let (s2, a2) = sequel_next(s1, title);
            let (s3, a3) = sequel_next(s2, genres);
            let (s4, a4) = sequel_next(s3, url);
            let (s5, a5) = sequel_next(s4, later);
            &&& a0 == StepView::Chat(seq![story, Seq::empty(), sequel_question()])
            &&& a1 == StepView::Chat(seq![sequel, Seq::empty(), title_question()])
            &&& a2 == StepView::Chat(seq![sequel, Seq::empty(), genres_question()])
            &&& a3 == StepView::Image(title)
            &&& a4 == StepView::Write(
                seq![
                    ("sequel_text.txt"@, sequel),
                    ("sequel_title.txt"@, title),
                    ("sequel_image_url.txt"@, url),
                    ("sequel_genre.txt"@, refined_genres_text(genres)),
                ],
            )
            &&& s4.stage == Stage::Finished
            &&& s5 == s4
            &&& a5 == StepView::Done
        }),
{
}

/// A finished story plan stays as it is and asks for nothing, whatever it is
/// handed.
pub proof fn finished_story_plan_is_inert(s: StoryState, reply: Seq<char>)
    requires
        s.stage == Stage::Finished,
    ensures
        story_next(s, reply) == (s, StepView::Done),
{
}

/// A finished sequel plan stays as it is and asks for nothing, whatever it
/// is handed.
pub proof fn finished_sequel_plan_is_inert(s: SequelState, reply: Seq<char>)
    requires
        s.stage == Stage::Finished,
    ensures
        sequel_next(s, reply) == (s, StepView::Done),
{
}

/// Every plan that is not finished asks for something: its next step is
/// never `Done`.
pub proof fn unfinished_plans_ask(s: StoryState, t: SequelState, reply: Seq<char>)
    requires
        s.stage != Stage::Finished,
        t.stage != Stage::Finished,
    ensures
        story_next(s, reply).1 != StepView::Done,
        sequel_next(t, reply).1 != StepView::Done,
{
}

/// Taking a character out leaves none of it behind, and keeps every other
/// character: what remains is the text with exactly those characters
/// dropped.
pub proof fn without_char_drops_exactly(s: Seq<char>, c: char)
    ensures
        !without_char(s, c).contains(c),
        without_char(s, c).len() <= s.len(),
        forall|x: char| x != c ==> (s.contains(x) <==> without_char(s, c).contains(x)),
    decreases s.len(),
{
    if s.len() > 0 {
        let rest = s.drop_last();
        let wr = without_char(rest, c);
        let w = without_char(s, c);
        without_char_drops_exactly(rest, c);
        assert forall|x: char| x != c implies (s.contains(x) <==> w.contains(x)) by {
            assert(rest.contains(x) <==> wr.contains(x));
            if s.contains(x) {
                let i = choose|i: int| 0 <= i < s.len() && s[i] == x;
                if i < s.len() - 1 {
                    assert(rest[i] == x);
                    assert(rest.contains(x));
                    let j = choose|j: int| 0 <= j < wr.len() && wr[j] == x;
                    assert(w[j] == x);
                } else {
                    assert(w[w.len() - 1] == x);
                }
            }
            if w.contains(x) {
                let j = choose|j: int| 0 <= j < w.len() && w[j] == x;
                if s.last() != c && j == w.len() - 1 {
                    assert(s[s.len() - 1] == x);
                } else {
                    assert(wr[j] == x);
                    assert(wr.contains(x));
                    let k = choose|k: int| 0 <= k < rest.len() && rest[k] == x;
                    assert(s[k] == x);
                }
            }
        }
        if w.contains(c) {
            let j = choose|j: int| 0 <= j < w.len() && w[j] == c;
            if s.last() != c && j == w.len() - 1 {
            } else {
                assert(wr[j] == c);
                assert(wr.contains(c));
            }
        }
    }
}

/// A genre list after clean-up holds no full stop, and holds every other
/// character of the lowercased reply.
pub proof fn refined_genres_have_no_full_stop(raw: Seq<char>)
    ensures
        !refined_genres_text(raw).contains('.'),
        forall|x: char| x != '.' ==> (lowercase_of(raw).contains(x) <==> refined_genres_text(raw).contains(x)),
{
    without_char_drops_exactly(lowercase_of(raw), '.');
}

/// The story prompt is "Write a ", the whole genre, " 800 to 1400 word story
/// about ", the whole theme, ". " and the whole extra detail, in that order:
/// 40 fixed characters plus the three texts, none of them shortened.
pub proof fn story_prompt_holds_every_ingredient(genre: Seq<char>, theme: Seq<char>, extra: Seq<char>)
    ensures
        ({
            let p = story_prompt_text(genre, theme, extra);
            let g = genre.len() as int;
            let t = theme.len() as int;
            let e = extra.len() as int;
            &&& p.len() == 40 + g + t + e
            &&& p.subrange(0, 8) == "Write a "@
            &&& p.subrange(8, 8 + g) == genre
            &&& p.subrange(8 + g, 38 + g) == " 800 to 1400 word story about "@
            &&& p.subrange(38 + g, 38 + g + t) == theme
            &&& p.subrange(38 + g + t, 40 + g + t) == ". "@
            &&& p.subrange(40 + g + t, p.len() as int) == extra
        }),
{
    reveal_strlit("Write a ");
    reveal_strlit(" 800 to 1400 word story about ");
    reveal_strlit(". ");
    let p = story_prompt_text(genre, theme, extra);
    let g = genre.len() as int;
    let t = theme.len() as int;
    assert(p.subrange(0, 8) =~= "Write a "@);
    assert(p.subrange(8, 8 + g) =~= genre);
    assert(p.subrange(8 + g, 38 + g) =~= " 800 to 1400 word story about "@);
    assert(p.subrange(38 + g, 38 + g + t) =~= theme);
    assert(p.subrange(38 + g + t, 40 + g + t) =~= ". "@);
    assert(p.subrange(40 + g + t, p.len() as int) =~= extra);
}

/// The title prompt is "Suggest a title for a ", the whole genre, " about "
/// and the whole theme: 29 fixed characters plus the two texts; the extra
/// detail plays no part.
pub proof fn title_prompt_holds_genre_and_theme(genre: Seq<char>, theme: Seq<char>)
    ensures
        ({
            let p = title_prompt_text(genre, theme);
            let g = genre.len() as int;
            &&& p.len() == 29 + g + theme.len()
            &&& p.subrange(0, 22) == "Suggest a title for a "@
            &&& p.subrange(22, 22 + g) == genre
            &&& p.subrange(22 + g, 29 + g) == " about "@
            &&& p.subrange(29 + g, p.len() as int) == theme
        }),
{
    reveal_strlit("Suggest a title for a ");
    reveal_strlit(" about ");
    let p = title_prompt_text(genre, theme);
    let g = genre.len() as int;
    assert(p.subrange(0, 22) =~= "Suggest a title for a "@);
    assert(p.subrange(22, 22 + g) =~= genre);
    assert(p.subrange(22 + g, 29 + g) =~= " about "@);
    assert(p.subrange(29 + g, p.len() as int) =~= theme);
}

/// The image prompt is the whole theme, " in the style of " and the whole
/// genre, whatever their lengths: 17 fixed characters plus the two texts,
/// and it always ends with the genre.
pub proof fn image_prompt_holds_theme_and_genre(genre: Seq<char>, theme: Seq<char>)
    ensures
        ({
            let p = image_prompt_text(genre, theme);
            let t = theme.len() as int;
            &&& p.len() == t + 17 + genre.len()
            &&& p.subrange(0, t) == theme
            &&& p.subrange(t, t + 17) == " in the style of "@
            &&& p.subrange(t + 17, p.len() as int) == genre
        }),
{
    reveal_strlit(" in the style of ");
    let p = image_prompt_text(genre, theme);
    let t = theme.len() as int;
    assert(p.subrange(0, t) =~= theme);
    assert(p.subrange(t, t + 17) =~= " in the style of "@);
    assert(p.subrange(t + 17, p.len() as int) =~= genre);
}

/// Roles alternate from the user: the message at position `i` is the user's
/// exactly when `i` is even and the assistant's exactly when `i` is odd, so
/// two neighbouring messages never have the same role.
pub proof fn roles_alternate_from_the_user(i: int)
    requires
        0 <= i,
    ensures
        (role_text(i) == "user"@) == (i % 2 == 0),
        (role_text(i) == "assistant"@) == (i % 2 == 1),
        role_text(i) == "user"@ || role_text(i) == "assistant"@,
        role_text(i + 1) != role_text(i),
{
    reveal_strlit("user");
    reveal_strlit("assistant");
    assert("user"@.len() != "assistant"@.len());
}

/// In a conversation built for a chat request, every message at an even
/// position is the user's and every other message the assistant's, and each
/// carries the text at its own position.
pub proof fn conversation_roles(messages: Seq<ChatMessage>, earlier: Seq<String>)
    requires
        is_conversation(messages, earlier),
    ensures
        messages.len() == earlier.len(),
        forall|i: int|
            0 <= i < messages.len() ==> {
                &&& ((#[trigger] messages[i]).role@ == "user"@) == (i % 2 == 0)
                &&& (messages[i].role@ == "assistant"@) == (i % 2 == 1)
                &&& messages[i].content@ == earlier[i]@
            },
{
    assert forall|i: int| 0 <= i < messages.len() implies {
        &&& ((#[trigger] messages[i]).role@ == "user"@) == (i % 2 == 0)
        &&& (messages[i].role@ == "assistant"@) == (i % 2 == 1)
        &&& messages[i].content@ == earlier[i]@
    } by {
        roles_alternate_from_the_user(i);
    }
}

/// Lowercasing ASCII text works character by character and keeps the
/// length: each of `A` to `Z` becomes the letter 32 further on (`a` to `z`),
/// every other character stays, and no capital is left.
pub proof fn ascii_lowercase_maps_each_capital(s: Seq<char>)
    ensures
        ascii_lowercase(s).len() == s.len(),
        forall|i: int|
            0 <= i < s.len() ==> {
                &&& !is_ascii_upper(s[i]) ==> #[trigger] ascii_lowercase(s)[i] == s[i]
                &&& is_ascii_upper(s[i]) ==> ascii_lowercase(s)[i] as u32 == s[i] as u32 + 32
                &&& !is_ascii_upper(ascii_lowercase(s)[i])
            },
        has_no_ascii_upper(ascii_lowercase(s)),
{
    assert forall|i: int| 0 <= i < s.len() implies {
        &&& !is_ascii_upper(s[i]) ==> #[trigger] ascii_lowercase(s)[i] == s[i]
        &&& is_ascii_upper(s[i]) ==> ascii_lowercase(s)[i] as u32 == s[i] as u32 + 32
        &&& !is_ascii_upper(ascii_lowercase(s)[i])
    } by {
        lower_char_facts(s[i]);
    }
}

proof fn lower_char_facts(c: char)
    ensures
        !is_ascii_upper(c) ==> ascii_lower_char(c) == c,
        is_ascii_upper(c) ==> ascii_lower_char(c) as u32 == c as u32 + 32,
        !is_ascii_upper(ascii_lower_char(c)),
        (ascii_lower_char(c) == '.') == (c == '.'),
{
    if is_ascii_upper(c) {
        let x: u32 = ((c as u32) + 32) as u32;
        assert(97 <= x <= 122);
        assert((x as char) as u32 == x);
    }
}

/// Whether or not the text holds full stops, its letters are lowercased the
/// same way: dropping the full stops and then lowercasing gives what
/// lowercasing and then dropping them gives.
pub proof fn lowercasing_ignores_full_stops(s: Seq<char>)
    ensures
        without_char(ascii_lowercase(s), '.') == ascii_lowercase(without_char(s, '.')),
    decreases s.len(),
{
    if s.len() > 0 {
        let rest = s.drop_last();
        lowercasing_ignores_full_stops(rest);
        lower_char_facts(s.last());
        assert(ascii_lowercase(s).drop_last() =~= ascii_lowercase(rest));
        assert(ascii_lowercase(s).last() == ascii_lower_char(s.last()));
        if s.last() != '.' {
            assert(ascii_lowercase(without_char(s, '.')) =~= ascii_lowercase(without_char(rest, '.')).push(
                ascii_lower_char(s.last()),
            ));
        }
    } else {
        assert(ascii_lowercase(s) =~= Seq::<char>::empty());
        assert(ascii_lowercase(without_char(s, '.')) =~= Seq::<char>::empty());
    }
}

/// On ASCII text, the cleaned genre list is fixed by the text alone: no
/// capital and no full stop is left, and every other character stays in its
/// order, whether the reply ended with a full stop or not.
pub proof fn ascii_genres_are_lowercased_without_full_stops(raw: Seq<char>)
    requires
        all_ascii(raw),
        lowercase_of(raw) == ascii_lowercase(raw),
    ensures
        refined_genres_text(raw) == ascii_lowercase(without_char(raw, '.')),
        has_no_ascii_upper(refined_genres_text(raw)),
        !refined_genres_text(raw).contains('.'),
{
    lowercasing_ignores_full_stops(raw);
    ascii_lowercase_maps_each_capital(without_char(raw, '.'));
    without_char_drops_exactly(lowercase_of(raw), '.');
}

/// A drawn ingredient is the entry at a position drawn over its whole list:
/// every outcome of a draw bounded by the list's length is a position of
/// the list, so the entry there is one of the list's entries.
pub proof fn drawn_positions_lie_in_the_list(list: Seq<Seq<char>>, g: usize)
    requires
        list.len() <= usize::MAX,
        drawn_below(list.len() as usize, g),
    ensures
        g < list.len(),
        list.contains(list[g as int]),
{
    crate::random::drawn_below_is_in_range(list.len() as usize, g);
}

} // verus!

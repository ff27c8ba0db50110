//! Clean-up of the free text that the language model sends back.

use vstd::prelude::*;
use vstd::string::*;

verus! {

/// `s` with every occurrence of `c` taken out, the other characters kept in
/// their order.
pub open spec fn without_char(s: Seq<char>, c: char) -> Seq<char>
    decreases s.len(),
{
    if s.len() == 0 {
        Seq::empty()
    } else if s.last() == c {
        without_char(s.drop_last(), c)
    } else {
        without_char(s.drop_last(), c).push(s.last())
    }
}

/// `c` is one of the capital letters `A` to `Z`.
pub open spec fn is_ascii_upper(c: char) -> bool {
    65 <= (c as u32) && (c as u32) <= 90
}

/// `c` in lower case when it is one of `A` to `Z` (`a` to `z`, 32 further
/// on); any other character as it is.
pub open spec fn ascii_lower_char(c: char) -> char {
    if is_ascii_upper(c) {
        ((c as u32) + 32) as char
    } else {
        c
    }
}

/// `s` with each of `A` to `Z` replaced by its small letter, character by
/// character.
pub open spec fn ascii_lowercase(s: Seq<char>) -> Seq<char> {
    s.map_values(|c: char| ascii_lower_char(c))
}

/// Every character of `s` is ASCII.
pub open spec fn all_ascii(s: Seq<char>) -> bool {
    forall|i: int| 0 <= i < s.len() ==> (#[trigger] s[i] as u32) < 128
}

/// No character of `s` is one of `A` to `Z`.
pub open spec fn has_no_ascii_upper(s: Seq<char>) -> bool {
    forall|i: int| 0 <= i < s.len() ==> !is_ascii_upper(#[trigger] s[i])
}

/// What `str::to_lowercase` returns for a string: its lowercase equivalent
/// under the Unicode `Lowercase` property, which depends on the string alone.
pub uninterp spec fn lowercase_of(s: Seq<char>) -> Seq<char>;

/// Calls `str::to_lowercase`. Its result is named; of it the contract states
/// two facts of the Unicode case mapping: no character's lowercase form holds
/// a capital `A` to `Z`, and on ASCII text the mapping is the ASCII one, each
/// of `A` to `Z` becoming its small letter and every other character staying
/// as it is. What it does to other capitals is left to the name.
#[verifier::external_body]
fn to_lowercase(s: &str) -> (res: String)
    ensures
        res@ == lowercase_of(s@),
        has_no_ascii_upper(res@),
        all_ascii(s@) ==> res@ == ascii_lowercase(s@),
{
    s.to_lowercase()
}

/// Calls `String::push`, which appends one character.
#[verifier::external_body]
fn push_char(s: &mut String, c: char)
    ensures
        final(s)@ == old(s)@.push(c),
{
    s.push(c)
}

/// Copies `s` without any `c` in it.
pub fn remove_char(s: &str, c: char) -> (res: String)
    ensures
        res@ == without_char(s@, c),
{
    let mut res = String::new();
    for ch in it: s.chars()
        invariant
            it.seq() == s@,
            res@ == without_char(s@.take(it.index() as int), c),
    {
        assert(s@.take(it.index() + 1).drop_last() == s@.take(it.index() as int));
        if ch != c {
            push_char(&mut res, ch);
        }
    }
    assert(s@.take(s@.len() as int) == s@);
    res
}

/// The genre list as the model wrote it, in lower case and with every
/// full stop removed.
pub open spec fn refined_genres_text(raw: Seq<char>) -> Seq<char> {
    without_char(lowercase_of(raw), '.')
}

/// Everything left after taking `c` out of `s` comes from `s` and is not `c`.
pub proof fn without_char_keeps_only_from(s: Seq<char>, c: char)
    ensures
        without_char(s, c).len() <= s.len(),
        forall|j: int|
            0 <= j < without_char(s, c).len() ==> {
                &&& s.contains(#[trigger] without_char(s, c)[j])
                &&& without_char(s, c)[j] != c
            },
    decreases s.len(),
{
    if s.len() > 0 {
        let rest = s.drop_last();
        let w = without_char(s, c);
        let wr = without_char(rest, c);
        without_char_keeps_only_from(rest, c);
        assert forall|j: int| 0 <= j < w.len() implies {
            &&& s.contains(#[trigger] w[j])
            &&& w[j] != c
        } by {
            if s.last() != c && j == w.len() - 1 {
                assert(s[s.len() - 1] == w[j]);
            } else {
                assert(w[j] == wr[j]);
                assert(rest.contains(wr[j]));
                let k = choose|k: int| 0 <= k < rest.len() && rest[k] == wr[j];
                assert(s[k] == w[j]);
            }
        }
    }
}

/// Normalises a genre list that the language model wrote: lower case, no
/// full stops. The result holds no full stop and no capital `A` to `Z`; on
/// ASCII text it is the text with each capital made small and each full
/// stop dropped, whether or not there was a full stop to drop.
pub fn refine_genres(raw: &str) -> (res: String)
    ensures
        res@ == refined_genres_text(raw@),
        !res@.contains('.'),
        has_no_ascii_upper(res@),
        all_ascii(raw@) ==> res@ == without_char(ascii_lowercase(raw@), '.'),
{
    let lower = to_lowercase(raw);
    let res = remove_char(lower.as_str(), '.');
    proof {
        without_char_keeps_only_from(lower@, '.');
        if res@.contains('.') {
            let j = choose|j: int| 0 <= j < res@.len() && res@[j] == '.';
            assert(res@[j] != '.');
        }
        assert forall|j: int| 0 <= j < res@.len() implies !is_ascii_upper(#[trigger] res@[j]) by {
            assert(lower@.contains(res@[j]));
            let k = choose|k: int| 0 <= k < lower@.len() && lower@[k] == res@[j];
            assert(!is_ascii_upper(lower@[k]));
        }
    }
    res
}

} // verus!

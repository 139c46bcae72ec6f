//! The word list shared by every session: membership decides whether a
//! submission is a real word, and each round's hint letters are sampled
//! from a random entry.

use vstd::prelude::*;

use crate::text::{contains_at, contains_seq, contains_substring};

verus! {

/// The character sequence that lower-casing yields.
pub uninterp spec fn lower_of(s: Seq<char>) -> Seq<char>;

/// Relies on str::to_lowercase: the result depends on the input's
/// characters alone.
#[verifier::external_body]
pub(crate) fn to_lower(s: &str) -> (r: String)
    ensures
        r@ == lower_of(s@),
{
    s.to_lowercase()
}

/// Relies on rand::random_range: a uniform draw below `bound`. It panics
/// only on an empty range, which the precondition rules out.
#[verifier::external_body]
fn random_below(bound: usize) -> (r: usize)
    requires
        1 <= bound,
    ensures
        r < bound,
{
    rand::random_range(0..bound)
}

/// `h` can serve as a hint under the word list `lex`: two or three
/// characters cut out of one of its entries.
pub open spec fn valid_hint(lex: Seq<Seq<char>>, h: Seq<char>) -> bool {
    &&& 2 <= h.len() <= 3
    &&& exists|i: int| 0 <= i < lex.len() && contains_seq(#[trigger] lex[i], h)
}

/// The read-only dictionary, lower-cased at construction.
pub struct Lexicon {
    words: Vec<String>,
}

impl View for Lexicon {
    type V = Seq<Seq<char>>;

    closed spec fn view(&self) -> Seq<Seq<char>> {
        self.words@.map_values(|w: String| w@)
    }
}

impl Lexicon {
    /// Every entry can yield a hint: the list is non-empty and each word
    /// has at least two characters.
    pub open spec fn wf(&self) -> bool {
        &&& self@.len() > 0
        &&& forall|i: int| 0 <= i < self@.len() ==> (#[trigger] self@[i]).len() >= 2
    }

    /// Lower-cases every line and builds the lexicon. Yields nothing when
    /// the input is empty or any lower-cased line is shorter than two
    /// characters: such a list could not serve every hint request.
    pub fn new(lines: Vec<String>) -> (r: Option<Lexicon>)
        ensures
            r matches Some(l) ==> {
                &&& l.wf()
                &&& l@.len() == lines@.len()
                &&& forall|i: int|
                    0 <= i < lines@.len() ==> #[trigger] l@[i] == lower_of(lines@[i]@)
            },
            r is None <==> (lines@.len() == 0 || exists|i: int|
                0 <= i < lines@.len() && lower_of(#[trigger] lines@[i]@).len() < 2),
    {
        if lines.len() == 0 {
            return None;
        }
        let mut words: Vec<String> = Vec::new();
        let mut i: usize = 0;
        while i < lines.len()
            invariant
                0 <= i <= lines@.len(),
                words@.len() == i,
                forall|j: int| 0 <= j < i ==> (#[trigger] words@[j])@ == lower_of(lines@[j]@),
                forall|j: int| 0 <= j < i ==> (#[trigger] words@[j])@.len() >= 2,
            decreases lines@.len() - i,
        {
            let lw = to_lower(lines[i].as_str());
            if lw.as_str().unicode_len() < 2 {
                return None;
            }
            words.push(lw);
            i += 1;
        }
        let lex = Lexicon { words };
        proof {
            assert forall|j: int| 0 <= j < lines@.len() implies #[trigger] lex@[j] == lower_of(
                lines@[j]@,
            ) by {
                assert(lex.words@[j]@ == lower_of(lines@[j]@));
            }
            assert forall|j: int| 0 <= j < lines@.len() implies lower_of(
                #[trigger] lines@[j]@,
            ).len() >= 2 by {
                assert(lex.words@[j]@.len() >= 2);
                assert(lex@[j] == lex.words@[j]@);
            }
        }
        Some(lex)
    }

    /// Exact membership: true if and only if `word` is one of the entries.
    pub fn contains(&self, word: &String) -> (r: bool)
        ensures
            r == self@.contains(word@),
    {
        let mut i: usize = 0;
        while i < self.words.len()
            invariant
                0 <= i <= self.words@.len(),
                forall|j: int| 0 <= j < i ==> (#[trigger] self.words@[j])@ != word@,
            decreases self.words@.len() - i,
        {
            if self.words[i] == *word {
                proof {
                    assert(self@[i as int] == word@);
                }
                return true;
            }
            i += 1;
        }
        proof {
            assert forall|j: int| 0 <= j < self@.len() implies #[trigger] self@[j] != word@ by {
                assert(self@[j] == self.words@[j]@);
            }
        }
        false
    }

    /// How many words the lexicon holds.
    pub fn len(&self) -> (n: usize)
        ensures
            n == self@.len(),
    {
        self.words.len()
    }
}

/// A fresh round hint: two or three consecutive characters cut out of a
/// randomly drawn dictionary entry at a random offset.
pub fn generate_hint_letters(lexicon: &Lexicon) -> (h: String)
    requires
        lexicon.wf(),
    ensures
        valid_hint(lexicon@, h@),
{
    let idx = random_below(lexicon.words.len());
    let w = &lexicon.words[idx];
    proof {
        assert(lexicon@[idx as int] == w@);
    }
    let n = w.as_str().unicode_len();
    let cap: usize = if n >= 3 {
        3
    } else {
        2
    };
    let hlen = 2 + random_below(cap - 1);
    let start = random_below(n - hlen + 1);
    let piece = w.as_str().substring_char(start, start + hlen);
    let h = piece.to_owned();
    proof {
        assert(w@.subrange(start as int, start as int + h@.len() as int) == h@);
        assert(contains_at(lexicon@[idx as int], h@, start as int));
        assert(contains_seq(lexicon@[idx as int], h@));
    }
    h
}

/// The round's acceptance test: the lower-cased guess is a dictionary
/// word and carries the lower-cased hint as a substring.
pub fn is_valid_guess(lexicon: &Lexicon, word: &str, hint: &str) -> (r: bool)
    ensures
        r == (lexicon@.contains(lower_of(word@)) && contains_seq(
            lower_of(word@),
            lower_of(hint@),
        )),
{
    let lw = to_lower(word);
    let lh = to_lower(hint);
    lexicon.contains(&lw) && contains_substring(lw.as_str(), lh.as_str())
}

} // verus!

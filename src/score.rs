//! The score of the current game, the best score so far, and the text in
//! which the best score is kept between runs.

use vstd::prelude::*;

verus! {

/// Whether byte `b` is an ASCII decimal digit.
pub open spec fn is_digit(b: u8) -> bool {
    48 <= b <= 57
}

/// The number that the decimal digits `d` spell, most significant first.
pub open spec fn decimal_value(d: Seq<u8>) -> nat
    decreases d.len(),
{
    if d.len() == 0 {
        0
    } else {
        decimal_value(d.drop_last()) * 10 + (d.last() - 48) as nat
    }
}

/// The digits of `text` after an optional leading `+`.
pub open spec fn unsigned_digits(text: Seq<u8>) -> Seq<u8> {
    if text.len() > 0 && text[0] == 43 {
        text.drop_first()
    } else {
        text
    }
}

/// What reading `text` as an unsigned 32-bit decimal number gives: an
/// optional `+` and at least one digit, nothing else, and no more than
/// `u32::MAX`.
pub open spec fn saved_value(text: Seq<u8>) -> Option<u32> {
    let d = unsigned_digits(text);
    if d.len() > 0 && (forall|i: int| 0 <= i < d.len() ==> is_digit(#[trigger] d[i]))
        && decimal_value(d) <= u32::MAX {
        Some(decimal_value(d) as u32)
    } else {
        None
    }
}

proof fn lemma_prefix_value_below(d: Seq<u8>, i: int)
    requires
        0 <= i <= d.len(),
        forall|j: int| 0 <= j < d.len() ==> is_digit(#[trigger] d[j]),
    ensures
        decimal_value(d.take(i)) <= decimal_value(d),
    decreases d.len(),
{
    if i < d.len() {
        let p = d.drop_last();
        assert forall|j: int| 0 <= j < p.len() implies is_digit(#[trigger] p[j]) by {
            assert(p[j] == d[j]);
        };
        lemma_prefix_value_below(p, i);
        assert(p.take(i) == d.take(i));
    } else {
        assert(d.take(i) == d);
    }
}

/// Reads a best score saved as text: an optional `+` and decimal digits
/// whose value fits in a `u32`. Anything else gives `None`.
pub fn parse_high_score(text: &Vec<u8>) -> (r: Option<u32>)
    ensures
        r == saved_value(text@),
{
    let n = text.len();
    let start: usize = if n > 0 && text[0] == 43 { 1 } else { 0 };
    let ghost d = unsigned_digits(text@);
    assert(d == text@.subrange(start as int, n as int));
    if start >= n {
        return None;
    }
    let mut i: usize = start;
    while i < n
        invariant
            start <= i <= n,
            n == text@.len(),
            d == text@.subrange(start as int, n as int),
            d == unsigned_digits(text@),
            forall|j: int| 0 <= j < i - start ==> is_digit(#[trigger] d[j]),
        decreases n - i,
    {
        if text[i] < 48 || text[i] > 57 {
            assert(!is_digit(d[i - start]));
            return None;
        }
        i = i + 1;
    }
    let mut value: u64 = 0;
    let mut k: usize = start;
    while k < n
        invariant
            start <= k <= n,
            n == text@.len(),
            d == text@.subrange(start as int, n as int),
            d == unsigned_digits(text@),
            forall|j: int| 0 <= j < d.len() ==> is_digit(#[trigger] d[j]),
            value == decimal_value(d.take(k - start)),
            value <= u32::MAX,
        decreases n - k,
    {
        let ghost m = k - start;
        assert(d.take(m + 1).drop_last() == d.take(m));
        assert(d.take(m + 1).last() == text@[k as int]);
        value = value * 10 + (text[k] - 48) as u64;
        assert(value == decimal_value(d.take(m + 1)));
        if value > 4294967295 {
            proof {
                lemma_prefix_value_below(d, m + 1);
            }
            return None;
        }
        k = k + 1;
    }
    assert(d.take(d.len() as int) == d);
    Some(value as u32)
}

/// The score of the game in progress and the best score so far.
#[derive(Clone, Copy, Debug, PartialEq, Eq, Structural)]
pub struct ScoreManager {
    pub score: u32,
    pub high_score: u32,
}

impl ScoreManager {
    /// No points yet, with `high_score` as the best so far.
    pub fn new(high_score: u32) -> (r: ScoreManager)
        ensures
            r.score == 0,
            r.high_score == high_score,
    {
        ScoreManager { score: 0, high_score }
    }

    /// Starts from the saved text `text`; a text that does not read as a
    /// score counts as a best score of 0.
    pub fn from_saved(text: &Vec<u8>) -> (r: ScoreManager)
        ensures
            r.score == 0,
            r.high_score == (match saved_value(text@) {
                Some(v) => v,
                None => 0,
            }),
    {
        let high_score = match parse_high_score(text) {
            Some(v) => v,
            None => 0,
        };
        ScoreManager { score: 0, high_score }
    }

    /// One more food eaten; the count stops at `u32::MAX`.
    pub fn add_point(&mut self)
        ensures
            final(self).score == old(self).score.saturating_add(1),
            final(self).high_score == old(self).high_score,
    {
        self.score = self.score.saturating_add(1);
    }

    /// Ends a game: the best score takes the score if it is higher, and
    /// the score goes back to 0.
    pub fn sync(&mut self)
        ensures
            final(self).high_score == if old(self).score > old(self).high_score {
                old(self).score
            } else {
                old(self).high_score
            },
            final(self).score == 0,
    {
        if self.score > self.high_score {
            self.high_score = self.score;
        }
        self.score = 0;
    }
}

} // verus!

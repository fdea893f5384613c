//! The quote bank: a fixed, ordered, immutable list of love quotes, and
//! the uniform-random selector over it.
//!
//! Selection never fails: an empty bank (impossible for the bank built by
//! [`QuoteBank::new`], whose length is 10) or an out-of-range index falls
//! back to a fixed quote instead.

use vstd::prelude::*;

verus! {

/// The fixed list of quotes the service hands out, in order.
pub open spec fn quote_bank() -> Seq<Seq<char>> {
    seq![
        "You are the reason I believe in love."@,
        "Every love story is beautiful, but ours is my favorite."@,
        "In all the world, there is no heart for me like yours."@,
        "I love you more than yesterday, less than tomorrow."@,
        "You had me at hello."@,
        "To love and be loved is to feel the sun from both sides."@,
        "My heart is, and always will be, yours."@,
        "I wish I could turn back the clock. I'd find you sooner and love you longer."@,
        "You are my today and all of my tomorrows."@,
        "I fell in love the way you fall asleep: slowly, and then all at once."@,
    ]
}

/// What the selector returns when it has nothing to select from.
pub open spec fn fallback_quote() -> Seq<char> {
    "I love you!"@
}

/// The quote selected for index `i`: the `i`-th quote when `i` is in
/// range, the fallback otherwise (in particular when the bank is empty).
pub open spec fn selected_quote(bank: Seq<Seq<char>>, i: int) -> Seq<char> {
    if 0 <= i < bank.len() {
        bank[i]
    } else {
        fallback_quote()
    }
}

/// A well-formed pool: at least one quote, and no quote empty. The bank
/// built at startup satisfies it; selection tolerates even a pool that
/// does not.
pub open spec fn populated(bank: Seq<Seq<char>>) -> bool {
    bank.len() >= 1 && forall|i: int| 0 <= i < bank.len() ==> bank[i].len() > 0
}

/// An immutable, ordered bank of quotes.
pub struct QuoteBank {
    quotes: Vec<String>,
}

impl View for QuoteBank {
    type V = Seq<Seq<char>>;

    closed spec fn view(&self) -> Seq<Seq<char>> {
        Seq::new(self.quotes@.len(), |i: int| self.quotes@[i]@)
    }
}

/// Relies on `rand::rngs::ThreadRng` and `rand::Rng::gen_range`: for a
/// non-empty range `0..n` the draw returns an index inside the range.
/// Nothing more is claimed of the draw: it depends on the thread's
/// random-number generator.
#[verifier::external_body]
fn random_index(n: usize) -> (r: usize)
    requires
        n > 0,
    ensures
        r < n,
{
    rand::Rng::gen_range(&mut rand::thread_rng(), 0..n)
}

impl QuoteBank {
    /// Builds the bank with the service's fixed quotes. This is the only
    /// bank the service ever serves from; it is never mutated afterwards.
    pub fn new() -> (bank: QuoteBank)
        ensures
            bank@ == quote_bank(),
            bank@.len() == 10,
            populated(bank@),
    {
        let mut quotes: Vec<String> = Vec::new();
        quotes.push("You are the reason I believe in love.".to_owned());
        quotes.push("Every love story is beautiful, but ours is my favorite.".to_owned());
        quotes.push("In all the world, there is no heart for me like yours.".to_owned());
        quotes.push("I love you more than yesterday, less than tomorrow.".to_owned());
        quotes.push("You had me at hello.".to_owned());
        quotes.push("To love and be loved is to feel the sun from both sides.".to_owned());
        quotes.push("My heart is, and always will be, yours.".to_owned());
        quotes.push(
            "I wish I could turn back the clock. I'd find you sooner and love you longer.".to_owned(),
        );
        quotes.push("You are my today and all of my tomorrows.".to_owned());
        quotes.push(
            "I fell in love the way you fall asleep: slowly, and then all at once.".to_owned(),
        );
        let bank = QuoteBank { quotes };
        proof {
            assert(bank@ =~= quote_bank());
            reveal_strlit("You are the reason I believe in love.");
            reveal_strlit("Every love story is beautiful, but ours is my favorite.");
            reveal_strlit("In all the world, there is no heart for me like yours.");
            reveal_strlit("I love you more than yesterday, less than tomorrow.");
            reveal_strlit("You had me at hello.");
            reveal_strlit("To love and be loved is to feel the sun from both sides.");
            reveal_strlit("My heart is, and always will be, yours.");
            reveal_strlit(
                "I wish I could turn back the clock. I'd find you sooner and love you longer.",
            );
            reveal_strlit("You are my today and all of my tomorrows.");
            reveal_strlit("I fell in love the way you fall asleep: slowly, and then all at once.");
            assert(populated(bank@));
        }
        bank
    }

    /// Builds a bank from an arbitrary list of quotes, so that a caller
    /// (or a test) can substitute its own pool, including an empty one.
    pub fn from_quotes(quotes: Vec<String>) -> (bank: QuoteBank)
        ensures
            bank@.len() == quotes@.len(),
            forall|i: int| 0 <= i < quotes@.len() ==> bank@[i] == quotes@[i]@,
    {
        QuoteBank { quotes }
    }

    /// How many quotes the bank holds.
    pub fn len(&self) -> (n: usize)
        ensures
            n == self@.len(),
    {
        self.quotes.len()
    }

    /// The quote at index `i`, or the fallback when `i` is out of range;
    /// never an error.
    pub fn pick_at(&self, i: usize) -> (quote: String)
        ensures
            quote@ == selected_quote(self@, i as int),
    {
        if i < self.quotes.len() {
            self.quotes[i].clone()
        } else {
            "I love you!".to_owned()
        }
    }

    /// Draws one quote uniformly at random; on an empty bank it returns
    /// the fallback instead of failing.
    pub fn pick(&self) -> (quote: String)
        ensures
            self@.len() > 0 ==> self@.contains(quote@),
            self@.len() == 0 ==> quote@ == fallback_quote(),
    {
        let n = self.quotes.len();
        if n == 0 {
            "I love you!".to_owned()
        } else {
            let i = random_index(n);
            let quote = self.pick_at(i);
            proof {
                assert(self@[i as int] == quote@);
            }
            quote
        }
    }
}

} // verus!

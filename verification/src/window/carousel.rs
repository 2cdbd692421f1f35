//! The carousel: an ordered list of single-text candidates, one of which is
//! selected, shown a page at a time with the selected one first.

use crate::frontend::{lemma_explode, PredicateView};
use crate::text::{decimal, join};
use vstd::prelude::*;

verus! {

/// The candidates in display order, the position of the selected one, and
/// how many are shown at once.
pub struct Carousel {
    pub predicates: Seq<PredicateView>,
    pub current_index: nat,
    pub page_size: nat,
}

/// Whether each of `predicates` has exactly one text, and that text is not empty.
pub open spec fn all_single(predicates: Seq<PredicateView>) -> bool {
    forall|i: int| 0 <= i < predicates.len() ==> (#[trigger] predicates[i]).is_single()
}

impl Carousel {
    /// Every stored candidate has exactly one, non-empty text, and the
    /// selection lies in the list; in an empty list it is zero.
    pub open spec fn well_formed(self) -> bool {
        &&& all_single(self.predicates)
        &&& (self.current_index == 0 || self.current_index < self.predicates.len())
    }

    /// The carousel with no candidates.
    pub open spec fn empty(page_size: nat) -> Carousel {
        Carousel { predicates: Seq::empty(), current_index: 0, page_size }
    }

    /// The number of candidates.
    pub open spec fn len(self) -> nat {
        self.predicates.len()
    }

    /// The carousel after `predicate` came in: one candidate more for each
    /// of its non-empty texts, at the end.
    pub open spec fn add_predicate(self, predicate: PredicateView) -> Carousel {
        Carousel { predicates: self.predicates + predicate.explode(), ..self }
    }

    /// The carousel emptied; the page size stays.
    pub open spec fn clear(self) -> Carousel {
        Carousel::empty(self.page_size)
    }

    /// The carousel showing `page_size` candidates at once.
    pub open spec fn set_page_size(self, page_size: nat) -> Carousel {
        Carousel { page_size, ..self }
    }

    /// The selection moved one place on, from the last place to the first.
    pub open spec fn select_next(self) -> Carousel {
        if self.len() == 0 {
            self
        } else {
            Carousel { current_index: (self.current_index + 1) % self.len(), ..self }
        }
    }

    /// The selection moved one place back, from the first place to the last.
    pub open spec fn select_previous(self) -> Carousel {
        if self.len() == 0 {
            self
        } else {
            Carousel {
                current_index: ((self.current_index + self.len() - 1) % (self.len() as int)) as nat,
                ..self
            }
        }
    }

    /// The selection moved `steps` places on.
    pub open spec fn select_next_times(self, steps: nat) -> Carousel
        decreases steps,
    {
        if steps == 0 {
            self
        } else {
            self.select_next_times((steps - 1) as nat).select_next()
        }
    }

    /// The selected candidate, if there is any candidate.
    pub open spec fn selected(self) -> Option<PredicateView> {
        if self.current_index < self.len() {
            Some(self.predicates[self.current_index as int])
        } else {
            None
        }
    }

    /// How many candidates a page shows: the page size, or all of them where
    /// there are fewer.
    pub open spec fn visible(self) -> nat {
        if self.page_size < self.len() {
            self.page_size
        } else {
            self.len()
        }
    }

    /// Each candidate with its position in the list, counted from zero.
    pub open spec fn numbered(self) -> Seq<(int, PredicateView)> {
        Seq::new(self.len(), |i: int| (i, self.predicates[i]))
    }

    /// The page: out of the list written twice in a row, the `visible()`
    /// entries that start at the selection. Past the end of the list the
    /// page goes on with its beginning.
    pub open spec fn window(self) -> Seq<(int, PredicateView)> {
        (self.numbered() + self.numbered()).subrange(
            self.current_index as int,
            (self.current_index + self.visible()) as int,
        )
    }

    /// How one entry of the page is written: its position counted from one,
    /// its text, and after a tilde what is left to type.
    pub open spec fn line(entry: (int, PredicateView)) -> Seq<char> {
        decimal((entry.0 + 1) as nat) + ". "@ + entry.1.texts[0] + " ~"@ + entry.1.remaining_code
    }

    /// The lines of the page.
    pub open spec fn lines(self) -> Seq<Seq<char>> {
        self.window().map_values(|entry: (int, PredicateView)| Self::line(entry))
    }

    /// The page as one text, a line per entry.
    pub open spec fn text(self) -> Seq<char> {
        join(self.lines(), "\n"@)
    }

    /// The position in the list of the entry at place `k` of the page.
    pub open spec fn place(self, k: int) -> int {
        (self.current_index + k) % (self.len() as int)
    }
}

/// Taking in a candidate keeps a carousel well formed: what was there stays
/// in place, the selection stays, and one single-text entry per non-empty
/// text of the candidate follows.
pub proof fn lemma_add_predicate(c: Carousel, predicate: PredicateView)
    requires
        c.well_formed(),
    ensures
        c.add_predicate(predicate).well_formed(),
        c.add_predicate(predicate).current_index == c.current_index,
        c.add_predicate(predicate).page_size == c.page_size,
        c.add_predicate(predicate).len() == c.len() + predicate.explode().len(),
        c.add_predicate(predicate).predicates.take(c.len() as int) == c.predicates,
        c.add_predicate(predicate).predicates.skip(c.len() as int) == predicate.explode(),
{
    lemma_explode(predicate);
    let after = c.add_predicate(predicate).predicates;
    assert forall|i: int| 0 <= i < after.len() implies (#[trigger] after[i]).is_single() by {
        if i >= c.len() {
            assert(after[i] == predicate.explode()[i - c.len()]);
        }
    }
    assert(after.take(c.len() as int) =~= c.predicates);
    assert(after.skip(c.len() as int) =~= predicate.explode());
}

/// The first single-text candidate that an empty carousel takes in is the
/// selected one.
pub proof fn lemma_first_predicate_selected(page_size: nat, predicate: PredicateView)
    requires
        predicate.is_single(),
    ensures
        Carousel::empty(page_size).selected() is None,
        Carousel::empty(page_size).add_predicate(predicate).selected() == Some(predicate),
{
    let variant = |text: Seq<char>| predicate.variant(text);
    assert(predicate.texts =~= seq![predicate.texts[0]]);
    Seq::lemma_filter_map_singleton(predicate.texts[0], variant);
    assert(predicate.with_text(predicate.texts[0]) == predicate);
    assert(Carousel::empty(page_size).add_predicate(predicate).predicates =~= seq![predicate]);
}

/// Clearing leaves a well-formed carousel with no candidate and the
/// selection at zero, whatever it held.
pub proof fn lemma_clear(c: Carousel)
    ensures
        c.clear().well_formed(),
        c.clear().len() == 0,
        c.clear().current_index == 0,
        c.clear().page_size == c.page_size,
        c.clear().selected() is None,
        c.clear().text() == Seq::<char>::empty(),
{
    assert(c.clear().window() =~= Seq::empty());
    assert(c.clear().lines() =~= Seq::empty());
}

/// Moving the selection keeps a carousel well formed.
pub proof fn lemma_select_well_formed(c: Carousel)
    requires
        c.well_formed(),
    ensures
        c.select_next().well_formed(),
        c.select_previous().well_formed(),
        c.select_next().predicates == c.predicates,
        c.select_previous().predicates == c.predicates,
{
}

/// Place `k` of the page holds the candidate `k` places after the selected
/// one, counting round the list.
pub proof fn lemma_window_entry(c: Carousel, k: int)
    requires
        c.well_formed(),
        0 <= k < c.visible(),
    ensures
        c.window().len() == c.visible(),
        0 <= c.place(k) < c.len(),
        c.window()[k] == (c.place(k), c.predicates[c.place(k)]),
        c.place(k) == if c.current_index + k < c.len() {
            c.current_index + k
        } else {
            c.current_index + k - c.len()
        },
{
    let n = c.len() as int;
    let i = c.current_index + k;
    if i < n {
        assert(i % n == i) by (nonlinear_arith)
            requires
                0 <= i < n,
        ;
    } else {
        assert(i % n == i - n) by (nonlinear_arith)
            requires
                n <= i < 2 * n,
        ;
    }
}

/// After `steps` moves on, the selection is `steps` places further, counting
/// round the list.
pub proof fn lemma_select_next_times(c: Carousel, steps: nat)
    requires
        c.well_formed(),
        c.len() > 0,
    ensures
        c.select_next_times(steps) == (Carousel {
            current_index: (c.current_index + steps) % c.len(),
            ..c
        }),
    decreases steps,
{
    let n = c.len() as int;
    let i = c.current_index as int;
    if steps == 0 {
        assert(i % n == i) by (nonlinear_arith)
            requires
                0 <= i < n,
        ;
    } else {
        lemma_select_next_times(c, (steps - 1) as nat);
        let s = steps as int;
        assert(((i + s - 1) % n + 1) % n == (i + s) % n) by (nonlinear_arith)
            requires
                n > 0,
                i >= 0,
                s >= 1,
        ;
    }
}

/// Going once round the list brings the selection back: in a carousel of
/// `n > 0` candidates, `n` moves on leave it as it was.
pub proof fn lemma_select_next_cycle(c: Carousel)
    requires
        c.well_formed(),
        c.len() > 0,
    ensures
        c.select_next_times(c.len()) == c,
{
    lemma_select_next_times(c, c.len());
    let n = c.len() as int;
    let i = c.current_index as int;
    assert((i + n) % n == i) by (nonlinear_arith)
        requires
            0 <= i < n,
    ;
}

/// From the first place one move back selects the last candidate, and from
/// the last place one move on selects the first.
pub proof fn lemma_select_wraps(c: Carousel)
    requires
        c.well_formed(),
        c.len() > 0,
    ensures
        c.current_index == 0 ==> c.select_previous().selected() == Some(c.predicates.last()),
        c.current_index > 0 ==> c.select_previous().current_index == c.current_index - 1,
        c.current_index == c.len() - 1 ==> c.select_next().selected() == Some(
            c.predicates.first(),
        ),
        c.current_index < c.len() - 1 ==> c.select_next().current_index == c.current_index + 1,
{
    let n = c.len() as int;
    let i = c.current_index as int;
    if i == 0 {
        assert((i + n - 1) % n == n - 1) by (nonlinear_arith)
            requires
                i == 0,
                n > 0,
        ;
    } else {
        assert((i + n - 1) % n == i - 1) by (nonlinear_arith)
            requires
                0 < i < n,
        ;
    }
    if i == n - 1 {
        assert((i + 1) % n == 0) by (nonlinear_arith)
            requires
                i + 1 == n,
                n > 0,
        ;
    } else {
        assert((i + 1) % n == i + 1) by (nonlinear_arith)
            requires
                0 <= i,
                i + 1 < n,
        ;
    }
}

/// One move back and then one move on leave the carousel as it was, empty or not.
pub proof fn lemma_previous_then_next(c: Carousel)
    requires
        c.well_formed(),
    ensures
        c.select_previous().select_next() == c,
{
    if c.len() > 0 {
        let n = c.len() as int;
        let i = c.current_index as int;
        assert(((i + n - 1) % n + 1) % n == i) by (nonlinear_arith)
            requires
                0 <= i < n,
        ;
    }
}

/// One move on and then one move back leave the carousel as it was, empty or not.
pub proof fn lemma_next_then_previous(c: Carousel)
    requires
        c.well_formed(),
    ensures
        c.select_next().select_previous() == c,
{
    if c.len() > 0 {
        let n = c.len() as int;
        let i = c.current_index as int;
        assert(((i + 1) % n + n - 1) % n == i) by (nonlinear_arith)
            requires
                0 <= i < n,
        ;
    }
}

} // verus!

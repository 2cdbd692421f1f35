//! The vocabulary of the command channel between the engine and the overlay.

use vstd::prelude::*;

verus! {

/// A candidate completion: the code that produces it, the part of that code
/// still to be typed, and the texts it may be written as.
#[derive(Debug, PartialEq, Eq)]
pub struct Predicate {
    pub code: String,
    pub remaining_code: String,
    pub texts: Vec<String>,
    pub can_commit: bool,
}

/// What a [`Predicate`] holds, as sequences of characters.
pub struct PredicateView {
    pub code: Seq<char>,
    pub remaining_code: Seq<char>,
    pub texts: Seq<Seq<char>>,
    pub can_commit: bool,
}

impl PredicateView {
    /// The same candidate written as `text` alone.
    pub open spec fn with_text(self, text: Seq<char>) -> PredicateView {
        PredicateView { texts: seq![text], ..self }
    }

    /// Whether the candidate has exactly one text and that text is not empty.
    pub open spec fn is_single(self) -> bool {
        self.texts.len() == 1 && self.texts[0].len() > 0
    }

    /// The candidate for `text`, or nothing where `text` is empty.
    pub open spec fn variant(self, text: Seq<char>) -> Option<PredicateView> {
        if text.len() > 0 {
            Some(self.with_text(text))
        } else {
            None
        }
    }

    /// One single-text candidate per non-empty text, in the order of `texts`.
    pub open spec fn explode(self) -> Seq<PredicateView> {
        self.texts.filter_map(|text: Seq<char>| self.variant(text))
    }
}

/// Every entry that a candidate explodes into is that candidate written as
/// one of its non-empty texts: it has the candidate's code, remaining code
/// and commit flag, and exactly one text, which is not empty. There are as
/// many entries as non-empty texts, in the order of the texts.
pub proof fn lemma_explode(predicate: PredicateView)
    ensures
        predicate.explode() == predicate.texts.filter(|text: Seq<char>| text.len() > 0).map_values(
            |text: Seq<char>| predicate.with_text(text),
        ),
        forall|i: int|
            0 <= i < predicate.explode().len() ==> {
                let entry = #[trigger] predicate.explode()[i];
                &&& entry.code == predicate.code
                &&& entry.remaining_code == predicate.remaining_code
                &&& entry.can_commit == predicate.can_commit
                &&& entry.is_single()
                &&& predicate.texts.contains(entry.texts[0])
            },
{
    lemma_explode_texts(predicate, predicate.texts);
    let kept = predicate.texts.filter(|text: Seq<char>| text.len() > 0);
    assert forall|i: int| 0 <= i < predicate.explode().len() implies {
        let entry = #[trigger] predicate.explode()[i];
        &&& entry.is_single()
        &&& predicate.texts.contains(entry.texts[0])
    } by {
        predicate.texts.lemma_filter_pred(|text: Seq<char>| text.len() > 0, i);
        predicate.texts.lemma_filter_contains_rev(|text: Seq<char>| text.len() > 0, kept[i]);
    }
}

/// What `lemma_explode` says of the texts, for any run of texts.
proof fn lemma_explode_texts(predicate: PredicateView, texts: Seq<Seq<char>>)
    ensures
        texts.filter_map(|text: Seq<char>| predicate.variant(text)) == texts.filter(
            |text: Seq<char>| text.len() > 0,
        ).map_values(|text: Seq<char>| predicate.with_text(text)),
    decreases texts.len(),
{
    reveal(Seq::filter);
    let variant = |text: Seq<char>| predicate.variant(text);
    let kept = |text: Seq<char>| text.len() > 0;
    let single = |text: Seq<char>| predicate.with_text(text);
    if texts.len() > 0 {
        lemma_explode_texts(predicate, texts.drop_last());
        assert(texts.filter_map(variant) =~= texts.filter(kept).map_values(single));
    } else {
        assert(texts.filter_map(variant) =~= texts.filter(kept).map_values(single));
    }
}

impl View for Predicate {
    type V = PredicateView;

    open spec fn view(&self) -> PredicateView {
        PredicateView {
            code: self.code@,
            remaining_code: self.remaining_code@,
            texts: self.texts.deep_view(),
            can_commit: self.can_commit,
        }
    }
}

impl Predicate {
    /// A copy of this candidate written as `text` alone.
    pub fn with_text(&self, text: &String) -> (r: Predicate)
        ensures
            r@ == self@.with_text(text@),
    {
        let mut texts: Vec<String> = Vec::new();
        texts.push(text.clone());
        let r = Predicate {
            code: self.code.clone(),
            remaining_code: self.remaining_code.clone(),
            texts,
            can_commit: self.can_commit,
        };
        assert(r.texts.deep_view() =~= seq![text@]);
        r
    }

}

impl Default for Predicate {
    fn default() -> (r: Predicate)
        ensures
            r@ == (PredicateView {
                code: Seq::empty(),
                remaining_code: Seq::empty(),
                texts: Seq::empty(),
                can_commit: false,
            }),
    {
        let r = Predicate {
            code: String::new(),
            remaining_code: String::new(),
            texts: Vec::new(),
            can_commit: false,
        };
        assert(r.texts.deep_view() =~= Seq::<Seq<char>>::empty());
        r
    }
}

impl Clone for Predicate {
    fn clone(&self) -> (r: Predicate)
        ensures
            r@ == self@,
    {
        let mut texts: Vec<String> = Vec::new();
        let mut i: usize = 0;
        while i < self.texts.len()
            invariant
                i <= self.texts.len(),
                texts.len() == i,
                forall|j: int| 0 <= j < i ==> texts[j]@ == self.texts[j]@,
            decreases self.texts.len() - i,
        {
            texts.push(self.texts[i].clone());
            i += 1;
        }
        assert(texts.deep_view() =~= self.texts.deep_view());
        Predicate {
            code: self.code.clone(),
            remaining_code: self.remaining_code.clone(),
            texts,
            can_commit: self.can_commit,
        }
    }
}

/// A message of the command channel. The engine sends all but `NoPredicate`;
/// the overlay answers with `Predicate`, `NoPredicate`, `State`, `NOP` or `End`.
#[derive(Debug, PartialEq, Eq)]
pub enum Command {
    /// The size of the screen, width first.
    ScreenSize((u64, u64)),
    /// Where the overlay is to stand, in whole pixels from the left and from the top.
    Position((u64, u64)),
    /// The text being composed.
    InputText(String),
    /// How many candidates a page shows.
    PageSize(usize),
    /// Whether the engine is idle.
    State(bool),
    /// A candidate: one more to show, or in an answer the selected one.
    Predicate(Predicate),
    /// The answer where no candidate is selected.
    NoPredicate,
    /// Show the current state.
    Update,
    /// Forget the candidates and the text being composed.
    Clear,
    /// Select the candidate before the selected one.
    SelectPreviousPredicate,
    /// Select the candidate after the selected one.
    SelectNextPredicate,
    /// Ask for the selected candidate.
    SelectedPredicate,
    /// Nothing to do; the answer says whether the idle state changed.
    NOP,
    /// End the conversation.
    End,
}

/// What a [`Command`] holds.
pub enum CommandView {
    ScreenSize((u64, u64)),
    Position((u64, u64)),
    InputText(Seq<char>),
    PageSize(usize),
    State(bool),
    Predicate(PredicateView),
    NoPredicate,
    Update,
    Clear,
    SelectPreviousPredicate,
    SelectNextPredicate,
    SelectedPredicate,
    NOP,
    End,
}

impl View for Command {
    type V = CommandView;

    open spec fn view(&self) -> CommandView {
        match self {
            Command::ScreenSize(size) => CommandView::ScreenSize(*size),
            Command::Position(position) => CommandView::Position(*position),
            Command::InputText(text) => CommandView::InputText(text@),
            Command::PageSize(size) => CommandView::PageSize(*size),
            Command::State(state) => CommandView::State(*state),
            Command::Predicate(predicate) => CommandView::Predicate(predicate@),
            Command::NoPredicate => CommandView::NoPredicate,
            Command::Update => CommandView::Update,
            Command::Clear => CommandView::Clear,
            Command::SelectPreviousPredicate => CommandView::SelectPreviousPredicate,
            Command::SelectNextPredicate => CommandView::SelectNextPredicate,
            Command::SelectedPredicate => CommandView::SelectedPredicate,
            Command::NOP => CommandView::NOP,
            Command::End => CommandView::End,
        }
    }
}

impl Clone for Command {
    fn clone(&self) -> (r: Command)
        ensures
            r@ == self@,
    {
        match self {
            Command::ScreenSize(size) => Command::ScreenSize(*size),
            Command::Position(position) => Command::Position(*position),
            Command::InputText(text) => Command::InputText(text.clone()),
            Command::PageSize(size) => Command::PageSize(*size),
            Command::State(state) => Command::State(*state),
            Command::Predicate(predicate) => Command::Predicate(predicate.clone()),
            Command::NoPredicate => Command::NoPredicate,
            Command::Update => Command::Update,
            Command::Clear => Command::Clear,
            Command::SelectPreviousPredicate => Command::SelectPreviousPredicate,
            Command::SelectNextPredicate => Command::SelectNextPredicate,
            Command::SelectedPredicate => Command::SelectedPredicate,
            Command::NOP => Command::NOP,
            Command::End => Command::End,
        }
    }
}

} // verus!

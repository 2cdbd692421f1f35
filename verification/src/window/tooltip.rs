//! The overlay that follows the cursor: the text being composed above a page
//! of candidates.

use crate::config::{SectionThemeView, Theme};
use crate::frontend::{Predicate, PredicateView};
use crate::rstk_ext::{Style, StyleView};
use crate::text::{decimal_string, join_strings};
use crate::window::carousel::{all_single, lemma_window_entry, Carousel};
use vstd::prelude::*;

verus! {

/// What the overlay's two labels show.
#[derive(Debug, PartialEq, Eq)]
pub struct Rendering {
    /// The label under the cursor: the text being composed.
    pub cursor: String,
    /// The label below it: the page of candidates, a line each.
    pub predicates: String,
}

/// What a [`Rendering`] holds, as sequences of characters.
pub struct RenderingView {
    pub cursor: Seq<char>,
    pub predicates: Seq<char>,
}

impl View for Rendering {
    type V = RenderingView;

    open spec fn view(&self) -> RenderingView {
        RenderingView { cursor: self.cursor@, predicates: self.predicates@ }
    }
}

/// The state of the overlay.
pub struct ToolTipView {
    /// The style of the label that shows the text being composed.
    pub header_style: StyleView,
    /// The style of the label that shows the candidates.
    pub body_style: StyleView,
    pub carousel: Carousel,
    /// The text being composed.
    pub input_text: Seq<char>,
}

impl ToolTipView {
    /// What the two labels show in this state.
    pub open spec fn rendering(self) -> RenderingView {
        RenderingView { cursor: self.input_text, predicates: self.carousel.text() }
    }
}

/// The style called `name` with the colours and font of `section`.
pub open spec fn section_style(name: Seq<char>, section: SectionThemeView) -> StyleView {
    StyleView {
        name,
        background: section.background,
        foreground: section.foreground,
        font_size: section.font.size,
        font_family: section.font.family,
        font_weight: section.font.weight,
    }
}

/// What each of `predicates` holds.
pub open spec fn predicate_views(predicates: Seq<Predicate>) -> Seq<PredicateView> {
    predicates.map_values(|predicate: Predicate| predicate@)
}

/// The overlay: its two styles, the candidates with the selected one, the
/// page size and the text being composed.
#[derive(Debug)]
pub struct ToolTip {
    header_style: Style,
    body_style: Style,
    predicates: Vec<Predicate>,
    current_predicate_id: usize,
    page_size: usize,
    input: String,
}

impl View for ToolTip {
    type V = ToolTipView;

    closed spec fn view(&self) -> ToolTipView {
        ToolTipView {
            header_style: self.header_style@,
            body_style: self.body_style@,
            carousel: Carousel {
                predicates: predicate_views(self.predicates@),
                current_index: self.current_predicate_id as nat,
                page_size: self.page_size as nat,
            },
            input_text: self.input@,
        }
    }
}

impl ToolTip {
    /// What holds of every overlay: its carousel is well formed.
    #[verifier::type_invariant]
    pub open spec fn valid(&self) -> bool {
        self@.carousel.well_formed()
    }

    /// An overlay styled by `theme`, with no candidate, a page size of zero
    /// and nothing composed.
    pub fn new(theme: Theme) -> (tooltip: ToolTip)
        ensures
            tooltip@ == (ToolTipView {
                header_style: section_style("header.predicates.TLabel"@, theme@.header),
                body_style: section_style("body.predicates.TLabel"@, theme@.body),
                carousel: Carousel::empty(0),
                input_text: Seq::empty(),
            }),
            tooltip@.carousel.well_formed(),
    {
        let header_style = Style {
            name: "header.predicates.TLabel",
            background: theme.header.background,
            foreground: theme.header.foreground,
            font_size: theme.header.font.size,
            font_family: theme.header.font.family,
            font_weight: theme.header.font.weight,
        };
        let body_style = Style {
            name: "body.predicates.TLabel",
            background: theme.body.background,
            foreground: theme.body.foreground,
            font_size: theme.body.font.size,
            font_family: theme.body.font.family,
            font_weight: theme.body.font.weight,
        };
        let tooltip = ToolTip {
            header_style,
            body_style,
            predicates: Vec::new(),
            current_predicate_id: 0,
            page_size: 0,
            input: String::new(),
        };
        assert(predicate_views(tooltip.predicates@) =~= Seq::empty());
        tooltip
    }

    /// The styles of the two labels, header first, for the caller to register.
    pub fn build_theme(&self) -> (styles: Vec<Style>)
        ensures
            styles.len() == 2,
            styles[0]@ == self@.header_style,
            styles[1]@ == self@.body_style,
    {
        let mut styles: Vec<Style> = Vec::new();
        styles.push(self.header_style.clone());
        styles.push(self.body_style.clone());
        styles
    }

    /// Replaces the text being composed.
    pub fn set_input_text(&mut self, text: String)
        ensures
            final(self)@ == (ToolTipView { input_text: text@, ..old(self)@ }),
            final(self)@.carousel.well_formed(),
    {
        proof {
            use_type_invariant(&*self);
        }
        self.input = text;
    }

    /// Sets how many candidates a page shows.
    pub fn set_page_size(&mut self, size: usize)
        ensures
            final(self)@ == (ToolTipView {
                carousel: old(self)@.carousel.set_page_size(size as nat),
                ..old(self)@
            }),
            final(self)@.carousel.well_formed(),
    {
        proof {
            use_type_invariant(&*self);
        }
        self.page_size = size;
    }

    /// Takes in a candidate: one entry is added at the end for each of its
    /// non-empty texts, in their order, with that text alone.
    pub fn add_predicate(&mut self, predicate: Predicate)
        ensures
            final(self)@ == (ToolTipView {
                carousel: old(self)@.carousel.add_predicate(predicate@),
                ..old(self)@
            }),
            final(self)@.carousel.well_formed(),
    {
        proof {
            use_type_invariant(&*self);
        }
        let ghost view = predicate@;
        let ghost variant = |text: Seq<char>| view.variant(text);
        let ghost before = self@.carousel.predicates;
        // The list is taken out while it grows, so that the overlay is valid
        // at every step; the selection is set aside with it.
        let current = self.current_predicate_id;
        self.current_predicate_id = 0;
        let mut predicates: Vec<Predicate> = Vec::new();
        std::mem::swap(&mut self.predicates, &mut predicates);
        let mut i: usize = 0;
        while i < predicate.texts.len()
            invariant
                i <= predicate.texts.len(),
                view == predicate@,
                variant == |text: Seq<char>| view.variant(text),
                predicate_views(predicates@) == before + view.texts.take(i as int).filter_map(
                    variant,
                ),
                all_single(predicate_views(predicates@)),
            decreases predicate.texts.len() - i,
        {
            proof {
                view.texts.lemma_filter_map_take_succ(variant, i as int);
            }
            let text = &predicate.texts[i];
            assert(text@ == view.texts[i as int]);
            if !text.as_str().is_empty() {
                let entry = predicate.with_text(text);
                assert(predicate_views(predicates@.push(entry)) =~= predicate_views(
                    predicates@,
                ).push(entry@));
                predicates.push(entry);
            }
            i += 1;
        }
        assert(view.texts.take(predicate.texts.len() as int) =~= view.texts);
        std::mem::swap(&mut self.predicates, &mut predicates);
        self.current_predicate_id = current;
    }

    /// Forgets the candidates, the selection and the text being composed.
    pub fn clear(&mut self)
        ensures
            final(self)@ == (ToolTipView {
                carousel: old(self)@.carousel.clear(),
                input_text: Seq::empty(),
                ..old(self)@
            }),
            final(self)@.carousel.well_formed(),
    {
        proof {
            use_type_invariant(&*self);
        }
        assert(predicate_views(Seq::<Predicate>::empty()) =~= Seq::empty());
        self.current_predicate_id = 0;
        self.predicates = Vec::new();
        self.input = String::new();
    }

    /// Moves the selection one place back, from the first place to the last.
    /// Returns what the labels then show, or nothing where there is no
    /// candidate: the overlay is then left as it is.
    pub fn select_previous_predicate(&mut self) -> (shown: Option<Rendering>)
        ensures
            final(self)@ == (ToolTipView {
                carousel: old(self)@.carousel.select_previous(),
                ..old(self)@
            }),
            final(self)@.carousel.well_formed(),
            match shown {
                Some(rendering) => old(self)@.carousel.len() > 0 && rendering@ == final(self)@.rendering(),
                None => old(self)@.carousel.len() == 0,
            },
    {
        proof {
            use_type_invariant(&*self);
        }
        if self.predicates.len() == 0 {
            return None;
        }
        let ghost n = self.predicates.len() as int;
        let ghost i = self.current_predicate_id as int;
        if self.current_predicate_id == 0 {
            assert((i + n - 1) % n == n - 1) by (nonlinear_arith)
                requires
                    i == 0,
                    n > 0,
            ;
            self.current_predicate_id = self.predicates.len() - 1;
        } else {
            assert((i + n - 1) % n == i - 1) by (nonlinear_arith)
                requires
                    0 < i < n,
            ;
            self.current_predicate_id = self.current_predicate_id - 1;
        }
        Some(self.update())
    }

    /// Moves the selection one place on, from the last place to the first.
    /// Returns what the labels then show, or nothing where there is no
    /// candidate: the overlay is then left as it is.
    pub fn select_next_predicate(&mut self) -> (shown: Option<Rendering>)
        ensures
            final(self)@ == (ToolTipView {
                carousel: old(self)@.carousel.select_next(),
                ..old(self)@
            }),
            final(self)@.carousel.well_formed(),
            match shown {
                Some(rendering) => old(self)@.carousel.len() > 0 && rendering@ == final(self)@.rendering(),
                None => old(self)@.carousel.len() == 0,
            },
    {
        proof {
            use_type_invariant(&*self);
        }
        if self.predicates.len() == 0 {
            return None;
        }
        let ghost n = self.predicates.len() as int;
        let ghost i = self.current_predicate_id as int;
        if self.current_predicate_id + 1 == self.predicates.len() {
            assert((i + 1) % n == 0) by (nonlinear_arith)
                requires
                    i + 1 == n,
                    n > 0,
            ;
            self.current_predicate_id = 0;
        } else {
            assert((i + 1) % n == i + 1) by (nonlinear_arith)
                requires
                    0 <= i,
                    i + 1 < n,
            ;
            self.current_predicate_id = self.current_predicate_id + 1;
        }
        Some(self.update())
    }

    /// The candidates, in display order.
    pub fn predicates(&self) -> (predicates: &Vec<Predicate>)
        ensures
            predicate_views(predicates@) == self@.carousel.predicates,
            self@.carousel.well_formed(),
    {
        proof {
            use_type_invariant(self);
        }
        &self.predicates
    }

    /// The position of the selected candidate, counted from zero.
    pub fn current_predicate_id(&self) -> (index: usize)
        ensures
            index == self@.carousel.current_index,
    {
        self.current_predicate_id
    }

    /// How many candidates a page shows.
    pub fn page_size(&self) -> (size: usize)
        ensures
            size == self@.carousel.page_size,
    {
        self.page_size
    }

    /// The text being composed.
    pub fn input_text(&self) -> (text: &str)
        ensures
            text@ == self@.input_text,
    {
        self.input.as_str()
    }

    /// The selected candidate, or nothing where there is no candidate.
    pub fn get_selected_predicate(&self) -> (selected: Option<&Predicate>)
        ensures
            self@.carousel.well_formed(),
            match selected {
                Some(predicate) => self@.carousel.selected() == Some(predicate@),
                None => self@.carousel.selected() is None,
            },
    {
        proof {
            use_type_invariant(self);
        }
        if self.current_predicate_id < self.predicates.len() {
            Some(&self.predicates[self.current_predicate_id])
        } else {
            None
        }
    }

    /// What the two labels show: the text being composed, and the page of
    /// candidates that starts at the selected one.
    pub fn update(&self) -> (rendering: Rendering)
        ensures
            self@.carousel.well_formed(),
            rendering@ == self@.rendering(),
    {
        proof {
            use_type_invariant(self);
        }
        let count = self.predicates.len();
        let page_size = if self.page_size < count {
            self.page_size
        } else {
            count
        };
        let ghost carousel = self@.carousel;
        let mut lines: Vec<String> = Vec::new();
        let mut k: usize = 0;
        while k < page_size
            invariant
                carousel == self@.carousel,
                carousel.well_formed(),
                count == self.predicates.len(),
                page_size == carousel.visible(),
                k <= page_size,
                lines.len() == k,
                forall|j: int| 0 <= j < k ==> lines[j]@ == carousel.lines()[j],
            decreases page_size - k,
        {
            proof {
                lemma_window_entry(carousel, k as int);
            }
            let index = if k < count - self.current_predicate_id {
                self.current_predicate_id + k
            } else {
                k - (count - self.current_predicate_id)
            };
            let predicate = &self.predicates[index];
            assert(predicate@ == carousel.predicates[index as int]);
            assert(predicate@.is_single());
            let number = decimal_string((index + 1) as u64);
            let mut line = number;
            line.append(". ");
            line.append(predicate.texts[0].as_str());
            line.append(" ~");
            line.append(predicate.remaining_code.as_str());
            assert(predicate.texts[0]@ == predicate@.texts[0]);
            assert(line@ == Carousel::line(carousel.window()[k as int]));
            lines.push(line);
            k += 1;
        }
        assert(lines.deep_view() =~= carousel.lines()) by {
            if page_size > 0 {
                lemma_window_entry(carousel, 0);
            }
        }
        let predicates = join_strings(&lines, "\n");
        Rendering { cursor: self.input.clone(), predicates }
    }
}

} // verus!

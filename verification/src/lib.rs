//! Controller of an input-method overlay: the command vocabulary exchanged
//! with the engine, the predicate carousel, and the idle/running toggle.
//!
//! Nothing here draws or waits. [`Wish::listen`] takes one command and says
//! what is to be done on the surface and what is to be answered; whoever
//! owns the channel and the widgets runs the loop around it.

pub mod config;
pub mod frontend;
pub mod rstk_ext;
pub mod text;
pub mod window;

pub use config::Config;

use crate::config::ConfigView;
use crate::frontend::{Command, CommandView, PredicateView};
use crate::window::carousel::{
    lemma_add_predicate, lemma_clear, lemma_first_predicate_selected, lemma_next_then_previous,
    lemma_previous_then_next, lemma_select_next_cycle, lemma_select_well_formed, Carousel,
};
use crate::window::idle::{lemma_double_toggle, IdleState, IdleToggle};
use crate::window::toolkit::{Notice, NoticeView, ToolKit};
use crate::window::tooltip::{section_style, Rendering, RenderingView, ToolTip, ToolTipView};
use vstd::prelude::*;

verus! {

/// One thing to do in answer to a command.
#[derive(Debug, PartialEq, Eq)]
pub enum Action {
    /// Send this on the reply channel.
    Reply(Command),
    /// The screen has this size, width first: work out the overlay's offset anew.
    Resize((u64, u64)),
    /// Move the overlay to this position.
    Move((u64, u64)),
    /// Set the texts of the overlay's two labels.
    Render(Rendering),
    /// Give the idle button the look of this state: idle (`true`) or running.
    ShowIdleState(bool),
    /// Destroy the surface.
    Destroy,
}

/// What an [`Action`] holds.
pub enum ActionView {
    Reply(CommandView),
    Resize((u64, u64)),
    Move((u64, u64)),
    Render(RenderingView),
    ShowIdleState(bool),
    Destroy,
}

impl View for Action {
    type V = ActionView;

    open spec fn view(&self) -> ActionView {
        match self {
            Action::Reply(command) => ActionView::Reply(command@),
            Action::Resize(size) => ActionView::Resize(*size),
            Action::Move(position) => ActionView::Move(*position),
            Action::Render(rendering) => ActionView::Render(rendering@),
            Action::ShowIdleState(state) => ActionView::ShowIdleState(*state),
            Action::Destroy => ActionView::Destroy,
        }
    }
}

impl DeepView for Action {
    type V = ActionView;

    open spec fn deep_view(&self) -> ActionView {
        self@
    }
}

/// The answer to one command: what to do, in this order, and whether the
/// command loop ends afterwards.
#[derive(Debug, PartialEq, Eq)]
pub struct Reaction {
    pub actions: Vec<Action>,
    pub finished: bool,
}

/// What a [`Reaction`] holds.
pub struct ReactionView {
    pub actions: Seq<ActionView>,
    pub finished: bool,
}

impl View for Reaction {
    type V = ReactionView;

    open spec fn view(&self) -> ReactionView {
        ReactionView { actions: self.actions.deep_view(), finished: self.finished }
    }
}

/// Why a command was not taken.
#[derive(Clone, Copy, Debug, PartialEq, Eq)]
pub enum WishError {
    /// The command loop was entered before the channel was set up.
    ChannelNotConfigured,
}

impl WishError {
    /// The error in words.
    pub fn message(&self) -> (text: &'static str)
        ensures
            text@ == "you should config the channel first!"@,
    {
        "you should config the channel first!"
    }
}

/// The controller's state.
pub struct WishView {
    pub tooltip: ToolTipView,
    pub toolkit: ConfigView,
    /// Whether the channel is set up.
    pub connected: bool,
}

/// The outcome of one command: the states after it, and the answer.
pub struct Turn {
    pub wish: WishView,
    pub idle: IdleState,
    pub reaction: ReactionView,
}

impl WishView {
    /// The controller for `config`, before the channel is set up: an overlay
    /// in the configured theme, or in the default one, with nothing in it.
    pub open spec fn from_config(config: ConfigView) -> WishView {
        WishView {
            tooltip: ToolTipView {
                header_style: section_style(
                    "header.predicates.TLabel"@,
                    config.theme_or_default().header,
                ),
                body_style: section_style(
                    "body.predicates.TLabel"@,
                    config.theme_or_default().body,
                ),
                carousel: Carousel::empty(0),
                input_text: Seq::empty(),
            },
            toolkit: config,
            connected: false,
        }
    }

    /// This controller with another carousel.
    pub open spec fn with_carousel(self, carousel: Carousel) -> WishView {
        WishView { tooltip: ToolTipView { carousel, ..self.tooltip }, ..self }
    }

    /// The outcome where only the surface is touched or an answer is sent.
    pub open spec fn answer(self, idle: IdleState, actions: Seq<ActionView>) -> Turn {
        Turn { wish: self, idle, reaction: ReactionView { actions, finished: false } }
    }

    /// What the selected candidate is answered with.
    pub open spec fn selection_reply(self) -> CommandView {
        match self.tooltip.carousel.selected() {
            Some(predicate) => CommandView::Predicate(predicate),
            None => CommandView::NoPredicate,
        }
    }

    /// What is shown after the selection moved: the labels anew, or nothing
    /// where there is no candidate.
    pub open spec fn after_selection(self) -> Seq<ActionView> {
        if self.tooltip.carousel.len() > 0 {
            seq![ActionView::Render(self.tooltip.rendering())]
        } else {
            Seq::empty()
        }
    }

    /// The controller after `steps` commands `SelectNextPredicate` in a row.
    pub open spec fn select_next_times(self, idle: IdleState, steps: nat) -> WishView
        decreases steps,
    {
        if steps == 0 {
            self
        } else {
            self.select_next_times(idle, (steps - 1) as nat).react(
                idle,
                CommandView::SelectNextPredicate,
            ).wish
        }
    }

    /// The outcome of `command` on a controller whose channel is set up,
    /// with the idle cell in the state `idle`.
    pub open spec fn react(self, idle: IdleState, command: CommandView) -> Turn {
        match command {
            CommandView::ScreenSize(size) => self.answer(idle, seq![ActionView::Resize(size)]),
            CommandView::Position(position) => self.answer(
                idle,
                seq![ActionView::Move(position)],
            ),
            CommandView::InputText(text) => (WishView {
                tooltip: ToolTipView { input_text: text, ..self.tooltip },
                ..self
            }).answer(idle, Seq::empty()),
            CommandView::PageSize(size) => self.with_carousel(
                self.tooltip.carousel.set_page_size(size as nat),
            ).answer(idle, Seq::empty()),
            CommandView::State(state) => self.answer(
                IdleState::set(state),
                seq![ActionView::ShowIdleState(state)],
            ),
            CommandView::Predicate(predicate) => self.with_carousel(
                self.tooltip.carousel.add_predicate(predicate),
            ).answer(idle, Seq::empty()),
            CommandView::Update => self.answer(
                idle,
                seq![ActionView::Render(self.tooltip.rendering())],
            ),
            CommandView::Clear => (WishView {
                tooltip: ToolTipView {
                    carousel: self.tooltip.carousel.clear(),
                    input_text: Seq::empty(),
                    ..self.tooltip
                },
                ..self
            }).answer(idle, Seq::empty()),
            CommandView::SelectPreviousPredicate => {
                let moved = self.with_carousel(self.tooltip.carousel.select_previous());
                moved.answer(idle, moved.after_selection())
            },
            CommandView::SelectNextPredicate => {
                let moved = self.with_carousel(self.tooltip.carousel.select_next());
                moved.answer(idle, moved.after_selection())
            },
            CommandView::SelectedPredicate => self.answer(
                idle,
                seq![ActionView::Reply(self.selection_reply())],
            ),
            CommandView::NOP => match idle.news() {
                Some(state) => self.answer(
                    idle.poll(),
                    seq![
                        ActionView::ShowIdleState(state),
                        ActionView::Reply(CommandView::State(state)),
                    ],
                ),
                None => self.answer(idle, seq![ActionView::Reply(CommandView::NOP)]),
            },
            CommandView::End => Turn {
                wish: self,
                idle,
                reaction: ReactionView {
                    actions: seq![ActionView::Reply(CommandView::End), ActionView::Destroy],
                    finished: true,
                },
            },
            CommandView::NoPredicate => self.answer(idle, Seq::empty()),
        }
    }
}

/// No command breaks the carousel, and none touches the styles, the
/// toolkit or the channel's set-up.
pub proof fn lemma_react_preserves(wish: WishView, idle: IdleState, command: CommandView)
    requires
        wish.tooltip.carousel.well_formed(),
    ensures
        wish.react(idle, command).wish.tooltip.carousel.well_formed(),
        wish.react(idle, command).wish.tooltip.header_style == wish.tooltip.header_style,
        wish.react(idle, command).wish.tooltip.body_style == wish.tooltip.body_style,
        wish.react(idle, command).wish.toolkit == wish.toolkit,
        wish.react(idle, command).wish.connected == wish.connected,
{
    match command {
        CommandView::Predicate(predicate) => {
            lemma_add_predicate(wish.tooltip.carousel, predicate);
        },
        CommandView::Clear => {
            lemma_clear(wish.tooltip.carousel);
        },
        CommandView::SelectPreviousPredicate => {
            lemma_select_well_formed(wish.tooltip.carousel);
        },
        CommandView::SelectNextPredicate => {
            lemma_select_well_formed(wish.tooltip.carousel);
        },
        _ => {},
    }
}

/// Only `State` and `NOP` touch the idle cell, and `NOP` only confirms what
/// was asked for: the state asked for changes on `State` alone.
pub proof fn lemma_react_idle(wish: WishView, idle: IdleState, command: CommandView)
    ensures
        !(command is State) ==> wish.react(idle, command).idle.requested_state
            == idle.requested_state,
        !(command is State) && !(command is NOP) ==> wish.react(idle, command).idle == idle,
        !wish.react(idle, CommandView::NOP).idle.pending(),
        !idle.pending() ==> wish.react(idle, CommandView::NOP).idle == idle,
{
}

/// A command is answered on the reply channel at most once, and only a
/// query is: `SelectedPredicate` with the candidate or `NoPredicate`, `NOP`
/// with `State` or `NOP`, and `End` with `End`.
pub proof fn lemma_react_replies(wish: WishView, idle: IdleState, command: CommandView)
    ensures
        ({
            let actions = wish.react(idle, command).reaction.actions;
            &&& forall|i: int, j: int|
                0 <= i < actions.len() && 0 <= j < actions.len() && actions[i] is Reply
                    && actions[j] is Reply ==> i == j
            &&& (exists|i: int| 0 <= i < actions.len() && actions[i] is Reply) <==> (command
                is SelectedPredicate || command is NOP || command is End)
            &&& forall|i: int|
                0 <= i < actions.len() ==> match #[trigger] actions[i] {
                    ActionView::Reply(reply) => match command {
                        CommandView::SelectedPredicate => reply is Predicate || reply
                            is NoPredicate,
                        CommandView::NOP => reply == CommandView::State(idle.requested_state)
                            || reply is NOP,
                        _ => command is End && reply is End,
                    },
                    _ => true,
                }
        }),
{
    let actions = wish.react(idle, command).reaction.actions;
    match command {
        CommandView::SelectedPredicate => {
            assert(actions[0] is Reply);
        },
        CommandView::NOP => {
            if idle.pending() {
                assert(actions[1] is Reply);
            } else {
                assert(actions[0] is Reply);
            }
        },
        CommandView::End => {
            assert(actions[0] is Reply);
        },
        _ => {},
    }
}

/// Candidates only ever come in at the end or leave all at once: but for
/// `Clear`, what the carousel held before a command it holds after it, in
/// the same places.
pub proof fn lemma_react_keeps_predicates(wish: WishView, idle: IdleState, command: CommandView)
    requires
        !(command is Clear),
    ensures
        wish.tooltip.carousel.len() <= wish.react(idle, command).wish.tooltip.carousel.len(),
        wish.react(idle, command).wish.tooltip.carousel.predicates.take(
            wish.tooltip.carousel.len() as int,
        ) == wish.tooltip.carousel.predicates,
        !(command is Predicate) ==> wish.react(idle, command).wish.tooltip.carousel.predicates
            == wish.tooltip.carousel.predicates,
{
    let before = wish.tooltip.carousel.predicates;
    let after = wish.react(idle, command).wish.tooltip.carousel.predicates;
    assert(after.take(before.len() as int) =~= before);
}

/// Only `Update` and a move of the selection redraw the overlay: a command
/// that changes what it holds draws nothing by itself.
pub proof fn lemma_react_renders(wish: WishView, idle: IdleState, command: CommandView)
    ensures
        ({
            let turn = wish.react(idle, command);
            forall|i: int|
                0 <= i < turn.reaction.actions.len() ==> match #[trigger] turn.reaction.actions[i] {
                    ActionView::Render(rendering) => (command is Update || command
                        is SelectPreviousPredicate || command is SelectNextPredicate)
                        && rendering == turn.wish.tooltip.rendering(),
                    _ => true,
                }
        }),
{
}

/// The loop ends on `End` and on nothing else.
pub proof fn lemma_react_finished(wish: WishView, idle: IdleState, command: CommandView)
    ensures
        wish.react(idle, command).reaction.finished <==> command is End,
{
}

/// `Clear` leaves no candidate, the selection at zero and no composed text,
/// and `Update` then shows two empty labels.
pub proof fn lemma_react_clear(wish: WishView, idle: IdleState)
    ensures
        wish.react(idle, CommandView::Clear).wish.tooltip.carousel.len() == 0,
        wish.react(idle, CommandView::Clear).wish.tooltip.carousel.current_index == 0,
        wish.react(idle, CommandView::Clear).wish.tooltip.input_text == Seq::<char>::empty(),
        wish.react(idle, CommandView::Clear).wish.react(idle, CommandView::Update).reaction.actions
            == seq![
            ActionView::Render(
                RenderingView { cursor: Seq::empty(), predicates: Seq::empty() },
            ),
        ],
{
    lemma_clear(wish.tooltip.carousel);
}

/// `SelectPreviousPredicate` and then `SelectNextPredicate` leave the
/// controller and the idle cell as they were; so do the two in the other order.
pub proof fn lemma_react_previous_then_next(wish: WishView, idle: IdleState)
    requires
        wish.tooltip.carousel.well_formed(),
    ensures
        wish.react(idle, CommandView::SelectPreviousPredicate).wish.react(
            idle,
            CommandView::SelectNextPredicate,
        ).wish == wish,
        wish.react(idle, CommandView::SelectNextPredicate).wish.react(
            idle,
            CommandView::SelectPreviousPredicate,
        ).wish == wish,
        wish.react(idle, CommandView::SelectPreviousPredicate).idle == idle,
        wish.react(idle, CommandView::SelectNextPredicate).idle == idle,
{
    lemma_previous_then_next(wish.tooltip.carousel);
    lemma_next_then_previous(wish.tooltip.carousel);
}

/// With `n > 0` candidates, `n` commands `SelectNextPredicate` in a row
/// bring the selection back to where it was, and change nothing else.
pub proof fn lemma_react_next_cycle(wish: WishView, idle: IdleState)
    requires
        wish.tooltip.carousel.well_formed(),
        wish.tooltip.carousel.len() > 0,
    ensures
        wish.select_next_times(idle, wish.tooltip.carousel.len()) == wish,
{
    lemma_react_next_times(wish, idle, wish.tooltip.carousel.len());
    lemma_select_next_cycle(wish.tooltip.carousel);
}

/// Commands `SelectNextPredicate` in a row move the carousel's selection
/// and touch nothing else.
proof fn lemma_react_next_times(wish: WishView, idle: IdleState, steps: nat)
    ensures
        wish.select_next_times(idle, steps) == wish.with_carousel(
            wish.tooltip.carousel.select_next_times(steps),
        ),
    decreases steps,
{
    if steps > 0 {
        lemma_react_next_times(wish, idle, (steps - 1) as nat);
    }
}

/// With no candidate, `SelectedPredicate` is answered with `NoPredicate`;
/// after a single-text candidate came into an empty carousel, with that
/// candidate.
pub proof fn lemma_react_selected(wish: WishView, idle: IdleState, predicate: PredicateView)
    requires
        wish.tooltip.carousel.well_formed(),
        wish.tooltip.carousel.len() == 0,
        predicate.is_single(),
    ensures
        wish.react(idle, CommandView::SelectedPredicate).reaction.actions == seq![
            ActionView::Reply(CommandView::NoPredicate),
        ],
        wish.react(idle, CommandView::Predicate(predicate)).wish.react(
            idle,
            CommandView::SelectedPredicate,
        ).reaction.actions == seq![ActionView::Reply(CommandView::Predicate(predicate))],
{
    let carousel = wish.tooltip.carousel;
    assert(carousel.predicates =~= Seq::empty());
    assert(carousel == Carousel::empty(carousel.page_size));
    lemma_first_predicate_selected(carousel.page_size, predicate);
}

/// Two presses of the idle button with no `NOP` between them are not seen:
/// the next `NOP` has the outcome it would have had without them.
pub proof fn lemma_react_double_toggle(wish: WishView, idle: IdleState)
    ensures
        wish.react(idle.toggle().toggle(), CommandView::NOP) == wish.react(
            idle,
            CommandView::NOP,
        ),
{
    lemma_double_toggle(idle);
}

/// One press of the idle button is reported by the next `NOP`, with the
/// state it asked for, and by no `NOP` after that.
pub proof fn lemma_react_toggle(wish: WishView, idle: IdleState)
    requires
        !idle.pending(),
    ensures
        wish.react(idle.toggle(), CommandView::NOP).reaction.actions == seq![
            ActionView::ShowIdleState(!idle.confirmed_state),
            ActionView::Reply(CommandView::State(!idle.confirmed_state)),
        ],
        wish.react(wish.react(idle.toggle(), CommandView::NOP).idle, CommandView::NOP).reaction.actions
            == seq![ActionView::Reply(CommandView::NOP)],
{
}

/// The controller: the overlay, the toolkit, and whether the channel is set up.
#[derive(Debug)]
pub struct Wish {
    tooltip: ToolTip,
    toolkit: ToolKit,
    connected: bool,
}

impl View for Wish {
    type V = WishView;

    closed spec fn view(&self) -> WishView {
        WishView { tooltip: self.tooltip@, toolkit: self.toolkit@, connected: self.connected }
    }
}

impl Wish {
    /// The controller for `config`. Its channel is not set up yet.
    pub fn from_config(config: Config) -> (wish: Wish)
        ensures
            wish@ == WishView::from_config(config@),
            wish@.tooltip.carousel.well_formed(),
    {
        let tooltip = ToolTip::new(config.theme_or_default());
        let toolkit = ToolKit::new(config);
        Wish { tooltip, toolkit, connected: false }
    }

    /// What the box that reports a fatal error says.
    pub fn raise_error(message: &str, detail: &str) -> (notice: Notice)
        ensures
            notice@ == (NoticeView {
                title: "Unexpected Error"@,
                message: message@,
                detail: detail@,
            }),
    {
        Notice {
            title: String::from_str("Unexpected Error"),
            message: String::from_str(message),
            detail: String::from_str(detail),
        }
    }

    /// The overlay.
    pub fn tooltip(&self) -> (tooltip: &ToolTip)
        ensures
            tooltip@ == self@.tooltip,
    {
        &self.tooltip
    }

    /// The toolkit.
    pub fn toolkit(&self) -> (toolkit: &ToolKit)
        ensures
            toolkit@ == self@.toolkit,
    {
        &self.toolkit
    }

    /// Records that the channel is set up: commands are taken from now on.
    pub fn init(&mut self)
        ensures
            final(self)@ == (WishView { connected: true, ..old(self)@ }),
    {
        self.connected = true;
    }

    /// One turn of the command loop. Before the channel is set up the
    /// command is refused and nothing changes. After that, the command is
    /// carried out on the overlay and on the idle cell, and the answer says
    /// what to do on the surface and on the reply channel, as
    /// [`WishView::react`] states.
    pub fn listen(&mut self, idle: &mut IdleToggle, command: Command) -> (result: Result<
        Reaction,
        WishError,
    >)
        ensures
            !old(self)@.connected ==> result == Err::<Reaction, WishError>(
                WishError::ChannelNotConfigured,
            ) && final(self)@ == old(self)@ && final(idle)@ == old(idle)@,
            old(self)@.connected ==> match result {
                Ok(reaction) => (Turn {
                    wish: final(self)@,
                    idle: final(idle)@,
                    reaction: reaction@,
                }) == old(self)@.react(old(idle)@, command@),
                Err(_) => false,
            },
            final(self)@.tooltip.carousel.well_formed(),
    {
        proof {
            use_type_invariant(&self.tooltip);
        }
        if !self.connected {
            return Err(WishError::ChannelNotConfigured);
        }
        let mut actions: Vec<Action> = Vec::new();
        let mut finished = false;
        match command {
            Command::ScreenSize(size) => {
                actions.push(Action::Resize(size));
            },
            Command::Position(position) => {
                actions.push(Action::Move(position));
            },
            Command::InputText(text) => {
                self.tooltip.set_input_text(text);
            },
            Command::PageSize(size) => {
                self.tooltip.set_page_size(size);
            },
            Command::State(state) => {
                idle.set_idle_state(state);
                actions.push(Action::ShowIdleState(state));
            },
            Command::Predicate(predicate) => {
                self.tooltip.add_predicate(predicate);
            },
            Command::Update => {
                actions.push(Action::Render(self.tooltip.update()));
            },
            Command::Clear => {
                self.tooltip.clear();
            },
            Command::SelectPreviousPredicate => {
                if let Some(rendering) = self.tooltip.select_previous_predicate() {
                    actions.push(Action::Render(rendering));
                }
            },
            Command::SelectNextPredicate => {
                if let Some(rendering) = self.tooltip.select_next_predicate() {
                    actions.push(Action::Render(rendering));
                }
            },
            Command::SelectedPredicate => {
                if let Some(predicate) = self.tooltip.get_selected_predicate() {
                    actions.push(Action::Reply(Command::Predicate(predicate.clone())));
                } else {
                    actions.push(Action::Reply(Command::NoPredicate));
                }
            },
            Command::NOP => {
                if let Some(state) = idle.new_idle_state() {
                    actions.push(Action::ShowIdleState(state));
                    actions.push(Action::Reply(Command::State(state)));
                } else {
                    actions.push(Action::Reply(Command::NOP));
                }
            },
            Command::End => {
                actions.push(Action::Reply(Command::End));
                actions.push(Action::Destroy);
                finished = true;
            },
            Command::NoPredicate => {},
        }
        proof {
            use_type_invariant(&self.tooltip);
        }
        let reaction = Reaction { actions, finished };
        assert(reaction@.actions =~= old(self)@.react(old(idle)@, command@).reaction.actions);
        Ok(reaction)
    }
}

} // verus!

//! The countdown screen: a few seconds to get ready before the brew starts,
//! while the recipe is fetched.
use crate::brew_screen::{Recipe, RecipeView};
use crate::settings_screen::{NewSettings, SettingsView};
use vstd::prelude::*;

verus! {

/// The messages the countdown screen reacts to.
#[derive(Debug, Clone)]
pub enum CountdownScreenMessage {
    CountDown,
    FillProgressBar,
}

/// What the countdown screen asks of the application after a message.
#[derive(Debug, Clone)]
pub enum Action {
    Nothing,
    MoveToBrew,
}

/// The state of the countdown screen.
#[derive(Debug)]
pub struct CountdownScreenState {
    value: i32,
    start_value: i32,
    progress_fill: i32,
    settings_cache: NewSettings,
    recipe_cache: Option<Recipe>,
}

/// The mathematical value of a [`CountdownScreenState`].
pub struct CountdownView {
    pub value: i32,
    pub start_value: i32,
    pub progress_fill: i32,
    pub settings: SettingsView,
    pub recipe: Option<RecipeView>,
}

impl View for CountdownScreenState {
    type V = CountdownView;

    closed spec fn view(&self) -> CountdownView {
        CountdownView {
            value: self.value,
            start_value: self.start_value,
            progress_fill: self.progress_fill,
            settings: self.settings_cache@,
            recipe: match self.recipe_cache {
                Some(r) => Some(r@),
                None => None,
            },
        }
    }
}

/// Whether the countdown screen can take `msg` without an overflow.
pub open spec fn countdown_step_defined(s: CountdownView, msg: CountdownScreenMessage) -> bool {
    match msg {
        CountdownScreenMessage::CountDown => s.value > i32::MIN,
        CountdownScreenMessage::FillProgressBar => s.progress_fill < i32::MAX,
    }
}

/// What the countdown screen becomes, and asks for, after `msg`: a tick
/// counts down by one and moves on to the brew once nothing is left.
pub open spec fn countdown_step(s: CountdownView, msg: CountdownScreenMessage) -> (
    CountdownView,
    Action,
) {
    match msg {
        CountdownScreenMessage::CountDown => {
            let v = (s.value - 1) as i32;
            (CountdownView { value: v, ..s }, if v <= 0 {
                Action::MoveToBrew
            } else {
                Action::Nothing
            })
        },
        CountdownScreenMessage::FillProgressBar => (
            CountdownView { progress_fill: (s.progress_fill + 1) as i32, ..s },
            Action::Nothing,
        ),
    }
}

/// The state after `k` ticks of the countdown.
pub open spec fn after_ticks(s: CountdownView, k: nat) -> CountdownView
    decreases k,
{
    if k == 0 {
        s
    } else {
        countdown_step(after_ticks(s, (k - 1) as nat), CountdownScreenMessage::CountDown).0
    }
}

/// Started at `n >= 1`, the countdown asks to move to the brew at the
/// `n`-th tick and at no tick before it.
pub proof fn lemma_countdown_moves_on_at_start_value(s: CountdownView, k: nat)
    requires
        s.value >= 1,
        1 <= k <= s.value,
    ensures
        after_ticks(s, (k - 1) as nat).value == s.value - (k - 1),
        countdown_step(after_ticks(s, (k - 1) as nat), CountdownScreenMessage::CountDown).1
            is MoveToBrew <==> k == s.value,
    decreases k,
{
    if k > 1 {
        lemma_countdown_moves_on_at_start_value(s, (k - 1) as nat);
    }
}

/// No message of the countdown changes the settings or the recipe it carries.
pub proof fn lemma_countdown_keeps_cache(s: CountdownView, msg: CountdownScreenMessage)
    ensures
        countdown_step(s, msg).0.settings == s.settings,
        countdown_step(s, msg).0.recipe == s.recipe,
        countdown_step(s, msg).0.start_value == s.start_value,
{
}

impl CountdownScreenState {
    /// A countdown from `value` that carries the chosen settings.
    pub fn start_with(value: i32, settings: NewSettings) -> (r: Self)
        ensures
            r@ == (CountdownView {
                value,
                start_value: value,
                progress_fill: 0,
                settings: settings@,
                recipe: None,
            }),
    {
        CountdownScreenState {
            value,
            start_value: value,
            progress_fill: 0,
            settings_cache: settings,
            recipe_cache: None,
        }
    }

    pub fn get_settings_cache(&self) -> (r: NewSettings)
        ensures
            r@ == self@.settings,
    {
        self.settings_cache.clone()
    }

    pub fn set_recipe_cache(&mut self, recipe: Recipe)
        ensures
            final(self)@ == (CountdownView { recipe: Some(recipe@), ..old(self)@ }),
    {
        self.recipe_cache = Some(recipe);
    }

    /// The recipe fetched while counting down; it must have arrived.
    pub fn get_recipe_cache(&self) -> (r: Recipe)
        requires
            self@.recipe is Some,
        ensures
            Some(r@) == self@.recipe,
    {
        match &self.recipe_cache {
            Some(r) => r.clone(),
            None => {
                proof {
                    assert(false);
                }
                Recipe::new(String::new(), Vec::new(), Vec::new(), Vec::new(), Vec::new())
            },
        }
    }

    pub fn get_value(&self) -> (r: i32)
        ensures
            r == self@.value,
    {
        self.value
    }

    pub fn get_start_value(&self) -> (r: i32)
        ensures
            r == self@.start_value,
    {
        self.start_value
    }

    pub fn get_progress_fill(&self) -> (r: i32)
        ensures
            r == self@.progress_fill,
    {
        self.progress_fill
    }

    pub fn has_recipe(&self) -> (r: bool)
        ensures
            r == self@.recipe is Some,
    {
        self.recipe_cache.is_some()
    }

    /// Whether `update` can take `message` without an overflow.
    pub fn can_take(&self, message: &CountdownScreenMessage) -> (r: bool)
        ensures
            r == countdown_step_defined(self@, *message),
    {
        match message {
            CountdownScreenMessage::CountDown => self.value > i32::MIN,
            CountdownScreenMessage::FillProgressBar => self.progress_fill < i32::MAX,
        }
    }

    pub fn update(&mut self, message: CountdownScreenMessage) -> (r: Action)
        requires
            countdown_step_defined(old(self)@, message),
        ensures
            (final(self)@, r) == countdown_step(old(self)@, message),
    {
        match message {
            CountdownScreenMessage::CountDown => {
                self.value = self.value - 1;
                if self.value <= 0 {
                    Action::MoveToBrew
                } else {
                    Action::Nothing
                }
            },
            CountdownScreenMessage::FillProgressBar => {
                self.progress_fill = self.progress_fill + 1;
                Action::Nothing
            },
        }
    }
}

} // verus!

//! The brewing device as a whole: which screen is shown, how each message
//! moves between screens, and what the device must fetch from or store in
//! the database next.
use crate::brew_screen::{self, BrewScreenMessage, BrewScreenState, BrewView, Recipe};
use crate::countdown_screen::{self, CountdownScreenMessage, CountdownScreenState, CountdownView};
use crate::default_screen::{
    old_settings_views,
    DefaultScreenMessage,
    DefaultScreenState,
    OldSettings,
    OldSettingsView,
};
use crate::finish_screen::{FinishScreenMessage, FinishScreenState, FinishView};
use crate::settings_screen::{
    self,
    initial_settings,
    lists_exactly,
    name_map,
    NewSettings,
    SettingsScreenMessage,
    SettingsScreenState,
    SettingsScreenView,
    SettingsView,
};
use crate::records::Timepoint;
use std::collections::HashMap;
use vstd::prelude::*;

verus! {

/// How many of the last brews the default screen offers.
pub const LAST_BREWS_SHOWN: i64 = 3;

/// How many seconds the countdown before a brew takes.
pub const COUNTDOWN_SECONDS: i32 = 3;

/// The offset from UTC, in hours, under which the device stores the time of
/// a brew.
pub const OFFSET_TO_UTC: i8 = 1;

/// The time stamp stored for a brew finished at `now_utc`: the reading of
/// the UTC clock, labelled with the offset [`OFFSET_TO_UTC`] and not shifted
/// by it.
pub fn brew_time_point(now_utc: Timepoint) -> (r: (Timepoint, i8))
    ensures
        r == (now_utc, OFFSET_TO_UTC),
{
    (now_utc, OFFSET_TO_UTC)
}

/// What the device stores for a finished brew.
#[derive(Debug)]
pub struct BrewRecord {
    pub water_temp: i32,
    pub grind_size: String,
    pub coffee_weight: i32,
    pub water_weight: i32,
    pub recipe_id: i32,
    pub timepoint: Timepoint,
    pub utc_offset_hours: i8,
}

/// The record of a brew made with `settings` and finished at `now_utc`; a
/// recipe must have been chosen.
pub fn brew_record(settings: &NewSettings, now_utc: Timepoint) -> (r: BrewRecord)
    requires
        settings@.recipe is Some,
    ensures
        r.water_temp == settings@.water_temp,
        r.grind_size@ == settings@.grind_size,
        r.coffee_weight == settings@.coffee_weight,
        r.water_weight == settings@.water_weight,
        r.recipe_id == settings@.recipe->0.id,
        r.timepoint == now_utc,
        r.utc_offset_hours == OFFSET_TO_UTC,
{
    let (timepoint, utc_offset_hours) = brew_time_point(now_utc);
    BrewRecord {
        water_temp: settings.get_water_temp(),
        grind_size: settings.get_grind_size(),
        coffee_weight: settings.get_coffee_weight(),
        water_weight: settings.get_water_weight(),
        recipe_id: settings.get_chosen_recipe().get_id(),
        timepoint,
        utc_offset_hours,
    }
}

/// The screen that is shown, with its state.
#[derive(Debug)]
pub enum Screen {
    DefaultScreen(DefaultScreenState),
    SettingsScreen(SettingsScreenState),
    CountdownScreen(CountdownScreenState),
    BrewScreen(BrewScreenState),
    FinishScreen(FinishScreenState),
}

/// The mathematical value of a [`Screen`].
pub enum ScreenView {
    Default(Seq<OldSettingsView>),
    Settings(SettingsScreenView),
    Countdown(CountdownView),
    Brew(BrewView),
    Finish(FinishView),
}

impl View for Screen {
    type V = ScreenView;

    open spec fn view(&self) -> ScreenView {
        match self {
            Screen::DefaultScreen(d) => ScreenView::Default(d@),
            Screen::SettingsScreen(s) => ScreenView::Settings(s@),
            Screen::CountdownScreen(c) => ScreenView::Countdown(c@),
            Screen::BrewScreen(b) => ScreenView::Brew(b@),
            Screen::FinishScreen(f) => ScreenView::Finish(f@),
        }
    }
}

/// The default screen with no brews on offer.
impl Default for Screen {
    fn default() -> (r: Self)
        ensures
            r@ == ScreenView::Default(Seq::empty()),
    {
        let d = DefaultScreenState { old_brews: Vec::new() };
        assert(d@ =~= Seq::<OldSettingsView>::empty());
        Screen::DefaultScreen(d)
    }
}

/// Everything the device reacts to: the messages of the screens and the
/// answers of the database.
#[derive(Debug)]
pub enum Message {
    DefaultScreen(DefaultScreenMessage),
    SettingsScreen(SettingsScreenMessage),
    CountdownScreen(CountdownScreenMessage),
    BrewScreen(BrewScreenMessage),
    FinishScreen(FinishScreenMessage),
    LoadDefaultScreen(Vec<OldSettings>),
    LoadedDBConnection(Vec<OldSettings>),
    FetchedRecipeNames(HashMap<i32, String>),
    FetchedRecipeDetails(Recipe),
    IdleMessage,
}

/// What the device must do next outside: connect to the database, fetch
/// from it, or store a finished brew in it.
#[derive(Debug)]
pub enum Effect {
    Nothing,
    ConnectDatabase,
    FetchRecipeNames,
    FetchLastBrews(i64),
    FetchRecipeDetails { recipe_id: i32, water_weight: i32 },
    SaveBrew(NewSettings),
}

/// The mathematical value of an [`Effect`].
pub enum EffectView {
    Nothing,
    ConnectDatabase,
    FetchRecipeNames,
    FetchLastBrews(i64),
    FetchRecipeDetails { recipe_id: i32, water_weight: i32 },
    SaveBrew(SettingsView),
}

impl View for Effect {
    type V = EffectView;

    open spec fn view(&self) -> EffectView {
        match self {
            Effect::Nothing => EffectView::Nothing,
            Effect::ConnectDatabase => EffectView::ConnectDatabase,
            Effect::FetchRecipeNames => EffectView::FetchRecipeNames,
            Effect::FetchLastBrews(n) => EffectView::FetchLastBrews(*n),
            Effect::FetchRecipeDetails { recipe_id, water_weight } => EffectView::FetchRecipeDetails {
                recipe_id: *recipe_id,
                water_weight: *water_weight,
            },
            Effect::SaveBrew(s) => EffectView::SaveBrew(s@),
        }
    }
}

/// Which clocks tick on the current screen.
pub struct Timers {
    /// One tick per second that counts the countdown down.
    pub countdown_tick: bool,
    /// One tick per millisecond that fills the countdown's progress bar.
    pub progress_tick: bool,
    /// One tick per second that runs the brew's stopwatch.
    pub brew_tick: bool,
}

/// Whether the device can take `msg` in `s`: the screen it is for must not
/// overflow, a brew can only start with a chosen recipe, and can only begin
/// once its recipe has arrived.
pub open spec fn accepts(s: ScreenView, msg: Message) -> bool {
    match (s, msg) {
        (ScreenView::Settings(st), Message::SettingsScreen(m)) => {
            &&& settings_screen::settings_step_defined(st, m)
            &&& m is RecipeStart ==> st.settings.recipe is Some
        },
        (ScreenView::Countdown(c), Message::CountdownScreen(m)) => {
            &&& countdown_screen::countdown_step_defined(c, m)
            &&& countdown_screen::countdown_step(c, m).1 is MoveToBrew ==> c.recipe is Some
        },
        (ScreenView::Brew(b), Message::BrewScreen(m)) => brew_screen::brew_step_defined(b, m),
        _ => true,
    }
}

/// A settings screen that has chosen nothing yet.
pub open spec fn blank_settings_screen() -> SettingsScreenView {
    SettingsScreenView {
        settings: initial_settings(None, Seq::empty(), None, None, None, Seq::empty()),
        recipe_names: Seq::empty(),
    }
}

/// What the device shows, and must do, after `msg` in `s` (for every
/// message but the arrival of the recipe names, whose order is the map's).
pub open spec fn next(s: ScreenView, msg: Message) -> (ScreenView, EffectView) {
    match msg {
        Message::DefaultScreen(DefaultScreenMessage::ChoseBrew(brew)) => match s {
            ScreenView::Default(_) => (
                ScreenView::Settings(
                    SettingsScreenView {
                        settings: initial_settings(
                            brew.water_temp,
                            brew.grind_size@,
                            brew.coffee_weight,
                            brew.water_weight,
                            brew.recipe_id,
                            brew.recipe_name@,
                        ),
                        recipe_names: Seq::empty(),
                    },
                ),
                EffectView::FetchRecipeNames,
            ),
            _ => (s, EffectView::Nothing),
        },
        Message::SettingsScreen(m) => match s {
            ScreenView::Settings(st) => {
                let (st2, a) = settings_screen::settings_step(st, m);
                match a {
                    settings_screen::Action::Nothing => (
                        ScreenView::Settings(st2),
                        EffectView::Nothing,
                    ),
                    settings_screen::Action::ReturnToDefault => (
                        ScreenView::Settings(st2),
                        EffectView::FetchLastBrews(LAST_BREWS_SHOWN),
                    ),
                    settings_screen::Action::MoveToCountdown => (
                        ScreenView::Countdown(
                            CountdownView {
                                value: COUNTDOWN_SECONDS,
                                start_value: COUNTDOWN_SECONDS,
                                progress_fill: 0,
                                settings: st2.settings,
                                recipe: None,
                            },
                        ),
                        EffectView::FetchRecipeDetails {
                            recipe_id: st2.settings.recipe->0.id,
                            water_weight: st2.settings.water_weight,
                        },
                    ),
                }
            },
            _ => (s, EffectView::Nothing),
        },
        Message::CountdownScreen(m) => match s {
            ScreenView::Countdown(c) => {
                let (c2, a) = countdown_screen::countdown_step(c, m);
                match a {
                    countdown_screen::Action::Nothing => (
                        ScreenView::Countdown(c2),
                        EffectView::Nothing,
                    ),
                    countdown_screen::Action::MoveToBrew => (
                        ScreenView::Brew(
                            BrewView {
                                recipe: c2.recipe->0,
                                settings: c2.settings,
                                cur_time: brew_screen::TimeView { minute: 0, second: 0 },
                                next_target_index: 0,
                            },
                        ),
                        EffectView::Nothing,
                    ),
                }
            },
            _ => (s, EffectView::Nothing),
        },
        Message::BrewScreen(m) => match s {
            ScreenView::Brew(b) => {
                let (b2, a) = brew_screen::brew_step(b, m);
                match a {
                    brew_screen::Action::Nothing => (ScreenView::Brew(b2), EffectView::Nothing),
                    brew_screen::Action::Cancel => (
                        ScreenView::Settings(blank_settings_screen()),
                        EffectView::FetchRecipeNames,
                    ),
                    brew_screen::Action::ToFinishScreen => (
                        ScreenView::Finish(
                            FinishView {
                                finish_time: b2.cur_time,
                                finish_weight: b2.settings.water_weight,
                            },
                        ),
                        EffectView::SaveBrew(b2.settings),
                    ),
                }
            },
            _ => (s, EffectView::Nothing),
        },
        Message::FinishScreen(_) => match s {
            ScreenView::Finish(_) => (s, EffectView::FetchLastBrews(LAST_BREWS_SHOWN)),
            _ => (s, EffectView::Nothing),
        },
        Message::LoadDefaultScreen(olds) => (
            ScreenView::Default(old_settings_views(olds@)),
            EffectView::Nothing,
        ),
        Message::LoadedDBConnection(olds) => match s {
            ScreenView::Default(_) => (
                ScreenView::Default(old_settings_views(olds@)),
                EffectView::Nothing,
            ),
            _ => (s, EffectView::Nothing),
        },
        Message::FetchedRecipeNames(_) => (s, EffectView::Nothing),
        Message::FetchedRecipeDetails(recipe) => match s {
            ScreenView::Countdown(c) => (
                ScreenView::Countdown(CountdownView { recipe: Some(recipe@), ..c }),
                EffectView::Nothing,
            ),
            _ => (s, EffectView::Nothing),
        },
        Message::IdleMessage => (s, EffectView::Nothing),
    }
}

/// The device may go from `pre` to `post`, doing `effect`, on `msg`. When
/// the recipe names arrive, the settings screen lists each of them once,
/// in the order the map hands them out; every other message has exactly
/// one outcome, [`next`].
pub open spec fn transition(pre: ScreenView, msg: Message, post: ScreenView, effect: EffectView) -> bool {
    match msg {
        Message::FetchedRecipeNames(names) => match pre {
            ScreenView::Settings(st) => {
                &&& post matches ScreenView::Settings(st2) && st2.settings == st.settings
                    && lists_exactly(st2.recipe_names, name_map(names@))
                &&& effect == EffectView::Nothing
            },
            _ => post == pre && effect == EffectView::Nothing,
        },
        _ => (post, effect) == next(pre, msg),
    }
}

/// `msg` is meant for one of the screens.
pub open spec fn is_screen_message(msg: Message) -> bool {
    ||| msg is DefaultScreen
    ||| msg is SettingsScreen
    ||| msg is CountdownScreen
    ||| msg is BrewScreen
    ||| msg is FinishScreen
}

/// `msg` is meant for the screen `s` shows.
pub open spec fn addressed_to(s: ScreenView, msg: Message) -> bool {
    ||| (msg is DefaultScreen && s is Default)
    ||| (msg is SettingsScreen && s is Settings)
    ||| (msg is CountdownScreen && s is Countdown)
    ||| (msg is BrewScreen && s is Brew)
    ||| (msg is FinishScreen && s is Finish)
}

/// A message meant for a screen that is not shown changes nothing and asks
/// for nothing; so does the idle message.
pub proof fn lemma_stray_messages_change_nothing(s: ScreenView, msg: Message)
    requires
        (is_screen_message(msg) && !addressed_to(s, msg)) || msg is IdleMessage,
    ensures
        next(s, msg) == (s, EffectView::Nothing),
{
}

/// Choosing a brew on the default screen opens the settings screen with
/// exactly that brew's stored values (the defaults 94 °C, 18 g and 300 g
/// only where the brew has none), no recipes on offer yet, and asks for the
/// recipe names.
pub proof fn lemma_chosen_brew_is_taken_over(olds: Seq<OldSettingsView>, brew: OldSettings)
    ensures
        ({
            let (post, effect) = next(
                ScreenView::Default(olds),
                Message::DefaultScreen(DefaultScreenMessage::ChoseBrew(brew)),
            );
            &&& effect == EffectView::FetchRecipeNames
            &&& post matches ScreenView::Settings(st) && {
                &&& st.recipe_names.len() == 0
                &&& st.settings.water_temp == (match brew.water_temp {
                    Some(v) => v,
                    None => 94i32,
                })
                &&& st.settings.coffee_weight == (match brew.coffee_weight {
                    Some(v) => v,
                    None => 18i32,
                })
                &&& st.settings.water_weight == (match brew.water_weight {
                    Some(v) => v,
                    None => 300i32,
                })
                &&& st.settings.grind_size == brew.grind_size@
                &&& (brew.recipe_id matches Some(id) ==> st.settings.recipe matches Some(c) && c.id
                    == id && c.name == brew.recipe_name@)
                &&& (brew.recipe_id is None ==> st.settings.recipe is None)
            }
        }),
{
}

/// During a countdown or a brew, the settings it started with.
pub open spec fn carries(s: ScreenView, chosen: SettingsView) -> bool {
    match s {
        ScreenView::Countdown(c) => c.settings == chosen,
        ScreenView::Brew(b) => b.settings == chosen,
        _ => true,
    }
}

/// Starting a brew from the settings screen starts the countdown with the
/// chosen settings and fetches the chosen recipe for the chosen water
/// weight.
pub proof fn lemma_start_carries_settings(st: SettingsScreenView)
    requires
        st.settings.recipe is Some,
    ensures
        carries(next(ScreenView::Settings(st), Message::SettingsScreen(SettingsScreenMessage::RecipeStart)).0, st.settings),
        next(ScreenView::Settings(st), Message::SettingsScreen(SettingsScreenMessage::RecipeStart)).0 is Countdown,
        next(ScreenView::Settings(st), Message::SettingsScreen(SettingsScreenMessage::RecipeStart)).1
            == (EffectView::FetchRecipeDetails {
            recipe_id: st.settings.recipe->0.id,
            water_weight: st.settings.water_weight,
        }),
{
}

/// From the countdown on, the settings do not change: every step keeps a
/// countdown or brew on the settings it started with, and the brew that is
/// stored when it finishes has exactly those settings.
pub proof fn lemma_settings_carried_to_storage(
    pre: ScreenView,
    msg: Message,
    post: ScreenView,
    effect: EffectView,
    chosen: SettingsView,
)
    requires
        pre is Countdown || pre is Brew,
        carries(pre, chosen),
        accepts(pre, msg),
        transition(pre, msg, post, effect),
    ensures
        carries(post, chosen),
        effect matches EffectView::SaveBrew(saved) ==> saved == chosen,
{
}

/// The state of the device.
#[derive(Debug)]
pub struct State {
    screen: Screen,
}

impl View for State {
    type V = ScreenView;

    closed spec fn view(&self) -> ScreenView {
        self.screen@
    }
}

fn step(screen: Screen, message: Message) -> (r: (Screen, Effect))
    requires
        accepts(screen@, message),
    ensures
        transition(screen@, message, r.0@, r.1@),
{
    match message {
        Message::DefaultScreen(m) => match screen {
            Screen::DefaultScreen(d) => {
                let mut d = d;
                let res = d.update(m);
                (
                    Screen::SettingsScreen(
                        SettingsScreenState::new(
                            res.water_temp,
                            res.grind_size,
                            res.coffee_weight,
                            res.water_weight,
                            res.recipe_id,
                            res.recipe_name,
                        ),
                    ),
                    Effect::FetchRecipeNames,
                )
            },
            other => (other, Effect::Nothing),
        },
        Message::SettingsScreen(m) => match screen {
            Screen::SettingsScreen(st) => {
                let mut st = st;
                let action = st.update(m);
                match action {
                    settings_screen::Action::Nothing => (
                        Screen::SettingsScreen(st),
                        Effect::Nothing,
                    ),
                    settings_screen::Action::ReturnToDefault => (
                        Screen::SettingsScreen(st),
                        Effect::FetchLastBrews(LAST_BREWS_SHOWN),
                    ),
                    settings_screen::Action::MoveToCountdown => {
                        let recipe_id = st.get_settings().get_chosen_recipe().get_id();
                        let water_weight = st.get_settings().get_water_weight();
                        (
                            Screen::CountdownScreen(
                                CountdownScreenState::start_with(
                                    COUNTDOWN_SECONDS,
                                    st.get_settings(),
                                ),
                            ),
                            Effect::FetchRecipeDetails { recipe_id, water_weight },
                        )
                    },
                }
            },
            other => (other, Effect::Nothing),
        },
        Message::CountdownScreen(m) => match screen {
            Screen::CountdownScreen(c) => {
                let mut c = c;
                let action = c.update(m);
                match action {
                    countdown_screen::Action::Nothing => (
                        Screen::CountdownScreen(c),
                        Effect::Nothing,
                    ),
                    countdown_screen::Action::MoveToBrew => (
                        Screen::BrewScreen(
                            BrewScreenState::new(c.get_recipe_cache(), c.get_settings_cache()),
                        ),
                        Effect::Nothing,
                    ),
                }
            },
            other => (other, Effect::Nothing),
        },
        Message::BrewScreen(m) => match screen {
            Screen::BrewScreen(b) => {
                let mut b = b;
                let action = b.update(m);
                match action {
                    brew_screen::Action::Nothing => (Screen::BrewScreen(b), Effect::Nothing),
                    brew_screen::Action::Cancel => (
                        Screen::SettingsScreen(
                            SettingsScreenState::new(
                                None,
                                String::new(),
                                None,
                                None,
                                None,
                                String::new(),
                            ),
                        ),
                        Effect::FetchRecipeNames,
                    ),
                    brew_screen::Action::ToFinishScreen => {
                        let settings = b.get_settings();
                        (
                            Screen::FinishScreen(
                                FinishScreenState::new(
                                    b.get_cur_time(),
                                    settings.get_water_weight(),
                                ),
                            ),
                            Effect::SaveBrew(settings),
                        )
                    },
                }
            },
            other => (other, Effect::Nothing),
        },
        Message::FinishScreen(_) => match screen {
            Screen::FinishScreen(f) => (
                Screen::FinishScreen(f),
                Effect::FetchLastBrews(LAST_BREWS_SHOWN),
            ),
            other => (other, Effect::Nothing),
        },
        Message::LoadDefaultScreen(old_brews) => (
            Screen::DefaultScreen(DefaultScreenState { old_brews }),
            Effect::Nothing,
        ),
        Message::LoadedDBConnection(old_settings) => match screen {
            Screen::DefaultScreen(d) => {
                let mut d = d;
                d.old_brews = old_settings;
                (Screen::DefaultScreen(d), Effect::Nothing)
            },
            other => (other, Effect::Nothing),
        },
        Message::FetchedRecipeNames(names) => match screen {
            Screen::SettingsScreen(st) => {
                let mut st = st;
                st.set_recipe_names(names);
                (Screen::SettingsScreen(st), Effect::Nothing)
            },
            other => (other, Effect::Nothing),
        },
        Message::FetchedRecipeDetails(recipe) => match screen {
            Screen::CountdownScreen(c) => {
                let mut c = c;
                c.set_recipe_cache(recipe);
                (Screen::CountdownScreen(c), Effect::Nothing)
            },
            other => (other, Effect::Nothing),
        },
        Message::IdleMessage => (screen, Effect::Nothing),
    }
}

impl State {
    /// The device as it starts: the default screen with no brews yet, and
    /// the database still to be connected.
    pub fn new() -> (r: (State, Effect))
        ensures
            r.0@ == ScreenView::Default(Seq::empty()),
            r.1@ == EffectView::ConnectDatabase,
    {
        (State { screen: Screen::default() }, Effect::ConnectDatabase)
    }

    /// The screen that is shown.
    pub fn screen(&self) -> (r: &Screen)
        ensures
            r@ == self@,
    {
        &self.screen
    }

    /// Whether [`State::update`] can take `message` (see [`accepts`]).
    pub fn accepts(&self, message: &Message) -> (r: bool)
        ensures
            r == accepts(self@, *message),
    {
        match (&self.screen, message) {
            (Screen::SettingsScreen(st), Message::SettingsScreen(m)) => {
                st.can_take(m) && match m {
                    SettingsScreenMessage::RecipeStart => st.get_settings().has_recipe(),
                    _ => true,
                }
            },
            (Screen::CountdownScreen(c), Message::CountdownScreen(m)) => {
                c.can_take(m) && match m {
                    CountdownScreenMessage::CountDown => c.get_value() > 1 || c.has_recipe(),
                    _ => true,
                }
            },
            (Screen::BrewScreen(b), Message::BrewScreen(m)) => b.can_take(m),
            _ => true,
        }
    }

    /// Moves the device on by `message`, and says what it must do outside.
    pub fn update(&mut self, message: Message) -> (r: Effect)
        requires
            accepts(old(self)@, message),
        ensures
            transition(old(self)@, message, final(self)@, r@),
    {
        let mut screen = Screen::DefaultScreen(DefaultScreenState { old_brews: Vec::new() });
        std::mem::swap(&mut screen, &mut self.screen);
        let (next_screen, effect) = step(screen, message);
        self.screen = next_screen;
        effect
    }

    /// The clocks that tick on the current screen: the countdown's on the
    /// countdown screen, the stopwatch on the brew screen.
    pub fn timers(&self) -> (r: Timers)
        ensures
            r.countdown_tick == self@ is Countdown,
            r.progress_tick == self@ is Countdown,
            r.brew_tick == self@ is Brew,
    {
        let countdown = match &self.screen {
            Screen::CountdownScreen(_) => true,
            _ => false,
        };
        let brew = match &self.screen {
            Screen::BrewScreen(_) => true,
            _ => false,
        };
        Timers { countdown_tick: countdown, progress_tick: countdown, brew_tick: brew }
    }
}

} // verus!

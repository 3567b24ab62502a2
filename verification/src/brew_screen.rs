//! The brew screen: a stopwatch that runs while the user pours, and the
//! recipe step (time, target weight, note) that is due next.
use crate::settings_screen::{NewSettings, SettingsView};
use crate::text::{decimal, padded2, push_decimal, push_padded2, push_str};
use vstd::prelude::*;

verus! {

/// `a / b` rounded toward zero, as Rust's `/` on integers computes it.
pub open spec fn trunc_div(a: int, b: int) -> int {
    if a >= 0 {
        a / b
    } else {
        -((-a) / b)
    }
}

/// The remainder that goes with [`trunc_div`], as Rust's `%` computes it.
pub open spec fn trunc_rem(a: int, b: int) -> int {
    a - b * trunc_div(a, b)
}

/// A time shown as minutes and seconds.
#[derive(Debug, Clone, Copy, PartialEq, Eq, Structural, PartialOrd, Ord)]
pub struct SimpleTime {
    minute: i32,
    second: i32,
}

/// The mathematical value of a [`SimpleTime`].
pub struct TimeView {
    pub minute: i32,
    pub second: i32,
}

impl TimeView {
    /// The number of seconds the time stands for.
    pub open spec fn total_seconds(self) -> int {
        self.minute * 60 + self.second
    }

    /// Seconds lie in `0..60`.
    pub open spec fn is_normalized(self) -> bool {
        0 <= self.second < 60
    }

    /// `self` comes at or after `other` in the order of (minute, second).
    pub open spec fn at_or_after(self, other: TimeView) -> bool {
        self.minute > other.minute || (self.minute == other.minute && self.second
            >= other.second)
    }

    /// Whether advancing by `seconds` stays within the range of `i32`.
    pub open spec fn can_advance(self, seconds: int) -> bool {
        let s = self.second + seconds;
        &&& i32::MIN <= s <= i32::MAX
        &&& i32::MIN <= self.minute + trunc_div(s, 60) <= i32::MAX
    }

    /// The time after advancing by `seconds`: whole minutes of the new
    /// second count move to the minutes.
    pub open spec fn advanced(self, seconds: int) -> TimeView {
        let s = self.second + seconds;
        TimeView { minute: (self.minute + trunc_div(s, 60)) as i32, second: trunc_rem(s, 60) as i32 }
    }
}

/// A time as the screens show it: minutes, a colon, and the seconds with
/// at least two digits.
pub open spec fn time_text(t: TimeView) -> Seq<char> {
    decimal(t.minute as int) + ":"@ + padded2(t.second as int)
}

impl View for SimpleTime {
    type V = TimeView;

    closed spec fn view(&self) -> TimeView {
        TimeView { minute: self.minute, second: self.second }
    }
}

/// Whole minutes that truncated division moves out of `s` keep the total:
/// `60 * trunc_div(s, 60) + trunc_rem(s, 60) == s`, with the remainder
/// strictly between -60 and 60.
pub proof fn lemma_trunc_div_rem(s: int)
    ensures
        60 * trunc_div(s, 60) + trunc_rem(s, 60) == s,
        -60 < trunc_rem(s, 60) < 60,
        s >= 0 ==> 0 <= trunc_rem(s, 60),
        s >= 0 ==> trunc_div(s, 60) >= 0,
{
}

/// Advancing a time keeps the number of seconds it stands for, plus the
/// seconds added.
pub proof fn lemma_advance_adds_seconds(t: TimeView, seconds: int)
    requires
        t.can_advance(seconds),
    ensures
        t.advanced(seconds).total_seconds() == t.total_seconds() + seconds,
        t.is_normalized() && seconds >= 0 ==> t.advanced(seconds).is_normalized(),
{
    lemma_trunc_div_rem(t.second + seconds);
}

/// On normalized times, the order of (minute, second) is the order of the
/// seconds they stand for.
pub proof fn lemma_order_is_total_seconds(a: TimeView, b: TimeView)
    requires
        a.is_normalized(),
        b.is_normalized(),
    ensures
        a.at_or_after(b) <==> a.total_seconds() >= b.total_seconds(),
{
}

impl SimpleTime {
    pub fn new(minute: i32, second: i32) -> (r: Self)
        ensures
            r@ == (TimeView { minute, second }),
    {
        SimpleTime { minute, second }
    }

    /// Adds `seconds`; whole minutes of the new second count move to the
    /// minutes.
    pub fn advance_by_secs(&mut self, seconds: i32)
        requires
            old(self)@.can_advance(seconds as int),
        ensures
            final(self)@ == old(self)@.advanced(seconds as int),
            final(self)@.total_seconds() == old(self)@.total_seconds() + seconds,
    {
        proof {
            lemma_advance_adds_seconds(self@, seconds as int);
        }
        let new_seconds = self.second + seconds;
        self.minute = self.minute + new_seconds / 60;
        self.second = new_seconds % 60;
    }

    /// Whether advancing by `seconds` stays within the range of `i32`.
    pub fn can_advance(&self, seconds: i32) -> (r: bool)
        ensures
            r == self@.can_advance(seconds as int),
    {
        let s: i64 = self.second as i64 + seconds as i64;
        if s < i32::MIN as i64 || s > i32::MAX as i64 {
            return false;
        }
        let m: i64 = self.minute as i64 + s / 60;
        i32::MIN as i64 <= m && m <= i32::MAX as i64
    }

    /// Whether `self` comes at or after `other`, minutes first.
    pub fn is_at_or_after(&self, other: &SimpleTime) -> (r: bool)
        ensures
            r == self@.at_or_after(other@),
    {
        self.minute > other.minute || (self.minute == other.minute && self.second >= other.second)
    }

    /// Appends the time as the screens show it to `s`.
    pub fn push_text(&self, s: &mut String)
        ensures
            final(s)@ == old(s)@ + time_text(self@),
    {
        push_decimal(s, self.minute as i128);
        push_str(s, ":");
        push_padded2(s, self.second as i64);
        assert(final(s)@ =~= old(s)@ + time_text(self@));
    }

    /// The time as the screens show it.
    pub fn to_text(&self) -> (r: String)
        ensures
            r@ == time_text(self@),
    {
        let mut s = String::new();
        self.push_text(&mut s);
        assert(s@ =~= time_text(self@));
        s
    }

    pub fn get_minute(&self) -> (r: i32)
        ensures
            r == self@.minute,
    {
        self.minute
    }

    pub fn get_second(&self) -> (r: i32)
        ensures
            r == self@.second,
    {
        self.second
    }
}

impl From<(i32, i32)> for SimpleTime {
    fn from(value: (i32, i32)) -> (r: Self) {
        SimpleTime { minute: value.0, second: value.1 }
    }
}

impl vstd::std_specs::convert::FromSpecImpl<(i32, i32)> for SimpleTime {
    open spec fn obeys_from_spec() -> bool {
        true
    }

    closed spec fn from_spec(v: (i32, i32)) -> Self {
        SimpleTime { minute: v.0, second: v.1 }
    }
}

/// A time made from a pair holds the pair's minute and second.
pub proof fn lemma_time_from_pair(v: (i32, i32))
    ensures
        <SimpleTime as vstd::std_specs::convert::FromSpec<(i32, i32)>>::from_spec(v)@
            == (TimeView { minute: v.0, second: v.1 }),
{
}

/// A recipe: for each pour, the time it is due, the target weight and a note.
#[derive(Debug)]
pub struct Recipe {
    name: String,
    times: Vec<SimpleTime>,
    targets: Vec<i32>,
    notes: Vec<String>,
}

/// The mathematical value of a [`Recipe`].
pub struct RecipeView {
    pub name: Seq<char>,
    pub times: Seq<TimeView>,
    pub targets: Seq<i32>,
    pub notes: Seq<Seq<char>>,
}

pub open spec fn string_views(v: Seq<String>) -> Seq<Seq<char>> {
    v.map_values(|s: String| s@)
}

/// The times of a recipe: minute `i` paired with second `i`, as far as
/// both lists go.
pub open spec fn zip_times(minutes: Seq<i32>, seconds: Seq<i32>) -> Seq<TimeView> {
    let n = if minutes.len() <= seconds.len() {
        minutes.len()
    } else {
        seconds.len()
    };
    Seq::new(n, |i: int| TimeView { minute: minutes[i], second: seconds[i] })
}

impl View for Recipe {
    type V = RecipeView;

    closed spec fn view(&self) -> RecipeView {
        RecipeView {
            name: self.name@,
            times: self.times@.map_values(|t: SimpleTime| t@),
            targets: self.targets@,
            notes: string_views(self.notes@),
        }
    }
}

fn clone_strings(v: &Vec<String>) -> (r: Vec<String>)
    ensures
        string_views(r@) == string_views(v@),
{
    let mut r: Vec<String> = Vec::new();
    for i in 0..v.len()
        invariant
            r@.len() == i,
            forall|j: int| 0 <= j < i ==> #[trigger] r@[j]@ == v@[j]@,
    {
        r.push(v[i].clone());
    }
    assert(string_views(r@) =~= string_views(v@));
    r
}

fn copy_times(v: &Vec<SimpleTime>) -> (r: Vec<SimpleTime>)
    ensures
        r@ == v@,
{
    let mut r: Vec<SimpleTime> = Vec::new();
    for i in 0..v.len()
        invariant
            r@.len() == i,
            forall|j: int| 0 <= j < i ==> #[trigger] r@[j] == v@[j],
    {
        r.push(v[i]);
    }
    assert(r@ =~= v@);
    r
}

fn copy_ints(v: &Vec<i32>) -> (r: Vec<i32>)
    ensures
        r@ == v@,
{
    let mut r: Vec<i32> = Vec::new();
    for i in 0..v.len()
        invariant
            r@.len() == i,
            forall|j: int| 0 <= j < i ==> #[trigger] r@[j] == v@[j],
    {
        r.push(v[i]);
    }
    assert(r@ =~= v@);
    r
}

impl Clone for Recipe {
    fn clone(&self) -> (r: Self)
        ensures
            r@ == self@,
    {
        let r = Recipe {
            name: self.name.clone(),
            times: copy_times(&self.times),
            targets: copy_ints(&self.targets),
            notes: clone_strings(&self.notes),
        };
        assert(r@.times =~= self@.times);
        r
    }
}

impl Recipe {
    /// A recipe named `name` whose pours are due at `minutes[i]:seconds[i]`
    /// (as far as both lists go), with the target weights `targets` and the
    /// notes `notes`.
    pub fn new(
        name: String,
        minutes: Vec<i32>,
        seconds: Vec<i32>,
        targets: Vec<i32>,
        notes: Vec<String>,
    ) -> (r: Self)
        ensures
            r@ == (RecipeView {
                name: name@,
                times: zip_times(minutes@, seconds@),
                targets: targets@,
                notes: string_views(notes@),
            }),
    {
        let n = if minutes.len() <= seconds.len() {
            minutes.len()
        } else {
            seconds.len()
        };
        let mut times: Vec<SimpleTime> = Vec::new();
        for i in 0..n
            invariant
                n <= minutes@.len(),
                n <= seconds@.len(),
                times@.len() == i,
                forall|j: int|
                    0 <= j < i ==> #[trigger] times@[j]@ == (TimeView {
                        minute: minutes@[j],
                        second: seconds@[j],
                    }),
        {
            times.push(SimpleTime { minute: minutes[i], second: seconds[i] });
        }
        let r = Recipe { name, times, targets, notes };
        assert(r@.times =~= zip_times(minutes@, seconds@));
        r
    }

    pub fn get_name(&self) -> (r: String)
        ensures
            r@ == self@.name,
    {
        self.name.clone()
    }
}

/// Entry `i` of `s`, or the last entry where `s` has no entry `i`.
pub open spec fn entry_or_last<A>(s: Seq<A>, i: int) -> A {
    if 0 <= i < s.len() {
        s[i]
    } else {
        s.last()
    }
}

/// What the brew screen says about pour `i` (the last one where there is
/// no pour `i`): when, up to what weight, and the note, if there is one.
pub open spec fn pour_text(r: RecipeView, i: int) -> Seq<char> {
    let note = entry_or_last(r.notes, i);
    "Bei "@ + time_text(entry_or_last(r.times, i)) + " auf "@ + decimal(
        entry_or_last(r.targets, i) as int,
    ) + "g"@ + if note.len() == 0 {
        Seq::empty()
    } else {
        " und "@ + note
    }
}

/// The messages the brew screen reacts to.
#[derive(Debug, Clone)]
pub enum BrewScreenMessage {
    CountUp,
    Cancel,
    ShowNextPour,
    FinishBrew,
}

/// What the brew screen asks of the application after a message.
#[derive(Debug, Clone)]
pub enum Action {
    Nothing,
    ToFinishScreen,
    Cancel,
}

/// The state of the brew screen.
#[derive(Debug)]
pub struct BrewScreenState {
    recipe: Recipe,
    settings: NewSettings,
    cur_time: SimpleTime,
    next_target_index: usize,
}

/// The mathematical value of a [`BrewScreenState`].
pub struct BrewView {
    pub recipe: RecipeView,
    pub settings: SettingsView,
    pub cur_time: TimeView,
    pub next_target_index: nat,
}

impl View for BrewScreenState {
    type V = BrewView;

    closed spec fn view(&self) -> BrewView {
        BrewView {
            recipe: self.recipe@,
            settings: self.settings@,
            cur_time: self.cur_time@,
            next_target_index: self.next_target_index as nat,
        }
    }
}

impl BrewScreenState {
    #[verifier::type_invariant]
    closed spec fn index_in_range(self) -> bool {
        self.next_target_index <= self.recipe.targets@.len()
    }
}

/// Whether the brew screen can take `msg`: a tick must not overflow the
/// clock, and the pour it checks must have a time.
pub open spec fn brew_step_defined(s: BrewView, msg: BrewScreenMessage) -> bool {
    match msg {
        BrewScreenMessage::CountUp => {
            &&& s.cur_time.can_advance(1)
            &&& s.next_target_index < s.recipe.targets.len() ==> s.next_target_index
                < s.recipe.times.len()
        },
        _ => true,
    }
}

/// What the brew screen becomes, and asks for, after `msg`.
pub open spec fn brew_step(s: BrewView, msg: BrewScreenMessage) -> (BrewView, Action) {
    match msg {
        BrewScreenMessage::CountUp => {
            let t = s.cur_time.advanced(1);
            let i = s.next_target_index;
            let reached = i < s.recipe.targets.len() && t.at_or_after(s.recipe.times[i as int]);
            (
                BrewView {
                    cur_time: t,
                    next_target_index: if reached {
                        i + 1
                    } else {
                        i
                    },
                    ..s
                },
                Action::Nothing,
            )
        },
        BrewScreenMessage::ShowNextPour => {
            let i = s.next_target_index + 1;
            let n = s.recipe.targets.len();
            (BrewView {
                next_target_index: if i <= n {
                    i
                } else {
                    n
                },
                ..s
            }, Action::Nothing)
        },
        BrewScreenMessage::FinishBrew => (s, Action::ToFinishScreen),
        BrewScreenMessage::Cancel => (s, Action::Cancel),
    }
}

/// No message of the brew screen changes the recipe or the settings; the
/// index of the next pour never goes back and never passes the number of
/// pours.
pub proof fn lemma_brew_step_keeps_recipe(s: BrewView, msg: BrewScreenMessage)
    requires
        s.next_target_index <= s.recipe.targets.len(),
    ensures
        brew_step(s, msg).0.recipe == s.recipe,
        brew_step(s, msg).0.settings == s.settings,
        s.next_target_index <= brew_step(s, msg).0.next_target_index <= s.recipe.targets.len(),
{
}

/// Each tick of the stopwatch adds exactly one second to the brew time,
/// and moves on by at most one pour.
pub proof fn lemma_tick_adds_one_second(s: BrewView)
    requires
        brew_step_defined(s, BrewScreenMessage::CountUp),
    ensures
        brew_step(s, BrewScreenMessage::CountUp).0.cur_time.total_seconds()
            == s.cur_time.total_seconds() + 1,
        brew_step(s, BrewScreenMessage::CountUp).0.next_target_index <= s.next_target_index + 1,
{
    lemma_advance_adds_seconds(s.cur_time, 1);
}

/// A tick moves on to the next pour exactly when the new time has reached
/// that pour's time: minutes first, then seconds; for times whose seconds
/// lie in `0..60` this is the order of the seconds they stand for. Once the
/// clock has passed the due pour's time, that pour is no longer the one due.
pub proof fn lemma_tick_moves_past_reached_pour(s: BrewView)
    requires
        brew_step_defined(s, BrewScreenMessage::CountUp),
        s.next_target_index <= s.recipe.targets.len(),
    ensures
        ({
            let after = brew_step(s, BrewScreenMessage::CountUp).0;
            let i = s.next_target_index;
            let t = after.cur_time;
            &&& i < s.recipe.targets.len() && (t.minute > s.recipe.times[i as int].minute || (
            t.minute == s.recipe.times[i as int].minute && t.second
                >= s.recipe.times[i as int].second)) ==> after.next_target_index == i + 1
            &&& !(i < s.recipe.targets.len() && (t.minute > s.recipe.times[i as int].minute || (
            t.minute == s.recipe.times[i as int].minute && t.second
                >= s.recipe.times[i as int].second))) ==> after.next_target_index == i
            &&& i < s.recipe.targets.len() && s.cur_time.is_normalized()
                && s.recipe.times[i as int].is_normalized() ==> (after.next_target_index == i + 1
                <==> t.minute * 60 + t.second >= s.recipe.times[i as int].minute * 60
                + s.recipe.times[i as int].second)
        }),
{
    lemma_advance_adds_seconds(s.cur_time, 1);
    let i = s.next_target_index;
    if i < s.recipe.targets.len() && s.cur_time.is_normalized()
        && s.recipe.times[i as int].is_normalized() {
        lemma_order_is_total_seconds(
            brew_step(s, BrewScreenMessage::CountUp).0.cur_time,
            s.recipe.times[i as int],
        );
    }
}

/// Whether a text ends with `suffix`.
pub open spec fn ends_with(text: Seq<char>, suffix: Seq<char>) -> bool {
    suffix.len() <= text.len() && text.subrange(text.len() - suffix.len(), text.len() as int)
        == suffix
}

/// The instruction for pour `i` starts with "Bei ", ends with " und "
/// followed by that pour's note when the note is not empty, and with the
/// unit "g" of its target when it is; which pour it is plays no part.
pub proof fn lemma_instruction_ends_with_note(r: RecipeView, i: int)
    requires
        0 <= i < r.notes.len(),
        r.times.len() > 0,
        r.targets.len() > 0,
    ensures
        pour_text(r, i).subrange(0, 4) == "Bei "@,
        r.notes[i].len() > 0 ==> ends_with(pour_text(r, i), " und "@ + r.notes[i]),
        r.notes[i].len() == 0 ==> ends_with(pour_text(r, i), "g"@),
{
    reveal_strlit("Bei ");
    reveal_strlit(" und ");
    reveal_strlit("g");
    let note = r.notes[i];
    let head = "Bei "@ + time_text(entry_or_last(r.times, i)) + " auf "@ + decimal(
        entry_or_last(r.targets, i) as int,
    ) + "g"@;
    assert(entry_or_last(r.notes, i) == note);
    assert(pour_text(r, i).subrange(0, 4) =~= "Bei "@);
    if note.len() > 0 {
        assert(pour_text(r, i) == head + (" und "@ + note));
        assert(pour_text(r, i).subrange(
            pour_text(r, i).len() - (" und "@ + note).len(),
            pour_text(r, i).len() as int,
        ) =~= " und "@ + note);
    } else {
        assert(pour_text(r, i) =~= head);
        assert(pour_text(r, i).subrange(
            pour_text(r, i).len() - 1,
            pour_text(r, i).len() as int,
        ) =~= "g"@);
    }
}

impl BrewScreenState {
    pub fn new(recipe: Recipe, settings: NewSettings) -> (r: BrewScreenState)
        ensures
            r@ == (BrewView {
                recipe: recipe@,
                settings: settings@,
                cur_time: TimeView { minute: 0, second: 0 },
                next_target_index: 0,
            }),
    {
        BrewScreenState {
            recipe,
            settings,
            cur_time: SimpleTime::from((0, 0)),
            next_target_index: 0,
        }
    }

    pub fn get_settings(&self) -> (r: NewSettings)
        ensures
            r@ == self@.settings,
    {
        self.settings.clone()
    }

    pub fn get_cur_time(&self) -> (r: SimpleTime)
        ensures
            r@ == self@.cur_time,
    {
        self.cur_time
    }

    /// The index of the pour shown next never passes the number of pours.
    pub fn get_next_target_index(&self) -> (r: usize)
        ensures
            r == self@.next_target_index,
            r <= self@.recipe.targets.len(),
    {
        proof {
            use_type_invariant(self);
        }
        self.next_target_index
    }

    pub fn get_recipe_name(&self) -> (r: String)
        ensures
            r@ == self@.recipe.name,
    {
        self.recipe.get_name()
    }

    /// Whether the recipe has at least one time, target and note, so that
    /// the screen has a pour to show.
    pub fn has_pours(&self) -> (r: bool)
        ensures
            r == (self@.recipe.times.len() > 0 && self@.recipe.targets.len() > 0
                && self@.recipe.notes.len() > 0),
    {
        self.recipe.times.len() > 0 && self.recipe.targets.len() > 0 && self.recipe.notes.len() > 0
    }

    /// The instruction for the pour that is due next, or for the last pour
    /// once all are done.
    pub fn pour_instruction(&self) -> (r: String)
        requires
            self@.recipe.times.len() > 0,
            self@.recipe.targets.len() > 0,
            self@.recipe.notes.len() > 0,
        ensures
            r@ == pour_text(self@.recipe, self@.next_target_index as int),
    {
        let i = self.next_target_index;
        let time = if i < self.recipe.times.len() {
            self.recipe.times[i]
        } else {
            self.recipe.times[self.recipe.times.len() - 1]
        };
        let target = if i < self.recipe.targets.len() {
            self.recipe.targets[i]
        } else {
            self.recipe.targets[self.recipe.targets.len() - 1]
        };
        let note: &String = if i < self.recipe.notes.len() {
            &self.recipe.notes[i]
        } else {
            &self.recipe.notes[self.recipe.notes.len() - 1]
        };
        let mut s = String::new();
        push_str(&mut s, "Bei ");
        time.push_text(&mut s);
        push_str(&mut s, " auf ");
        push_decimal(&mut s, target as i128);
        push_str(&mut s, "g");
        let ghost before_note = s@;
        if !note.as_str().is_empty() {
            push_str(&mut s, " und ");
            push_str(&mut s, note.as_str());
        }
        proof {
            let r = self@.recipe;
            let idx = self@.next_target_index as int;
            assert(time@ == entry_or_last(r.times, idx));
            assert(note@ == entry_or_last(r.notes, idx));
        }
        assert(s@ =~= pour_text(self@.recipe, self@.next_target_index as int));
        s
    }

    /// Whether the pour that is due is the last one, so that the screen
    /// offers to finish the brew rather than to show the next pour.
    pub fn is_final_pour(&self) -> (r: bool)
        requires
            self@.recipe.targets.len() > 0,
        ensures
            r == (self@.next_target_index >= self@.recipe.targets.len() - 1),
    {
        self.next_target_index >= self.recipe.targets.len() - 1
    }

    /// Whether `update` can take `message`: a tick must not overflow the
    /// clock, and the pour it checks must have a time.
    pub fn can_take(&self, message: &BrewScreenMessage) -> (r: bool)
        ensures
            r == brew_step_defined(self@, *message),
    {
        match message {
            BrewScreenMessage::CountUp => {
                self.cur_time.can_advance(1) && (self.next_target_index
                    >= self.recipe.targets.len() || self.next_target_index
                    < self.recipe.times.len())
            },
            _ => true,
        }
    }

    pub fn update(&mut self, message: BrewScreenMessage) -> (r: Action)
        requires
            brew_step_defined(old(self)@, message),
        ensures
            (final(self)@, r) == brew_step(old(self)@, message),
            final(self)@.next_target_index <= final(self)@.recipe.targets.len(),
    {
        proof {
            use_type_invariant(&*self);
        }
        match message {
            BrewScreenMessage::CountUp => {
                let mut t = self.cur_time;
                t.advance_by_secs(1);
                self.cur_time = t;
                if self.next_target_index < self.recipe.targets.len() {
                    if self.cur_time.is_at_or_after(&self.recipe.times[self.next_target_index]) {
                        self.next_target_index = self.next_target_index + 1;
                    }
                }
                Action::Nothing
            },
            BrewScreenMessage::ShowNextPour => {
                let n = self.recipe.targets.len();
                self.next_target_index = if self.next_target_index < n {
                    self.next_target_index + 1
                } else {
                    n
                };
                Action::Nothing
            },
            BrewScreenMessage::FinishBrew => Action::ToFinishScreen,
            BrewScreenMessage::Cancel => Action::Cancel,
        }
    }
}

} // verus!

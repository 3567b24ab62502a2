//! The settings screen: the user picks water temperature, grind size,
//! coffee and water weight and the recipe to brew.
use std::collections::HashMap;
use vstd::prelude::*;
use std::cmp::Ordering;
use vstd::std_specs::cmp::{PartialEqSpecImpl, PartialOrdSpecImpl};
use vstd::std_specs::iter::IteratorSpec;

verus! {

/// A recipe the user can pick: its database id and its name.
#[derive(Debug)]
pub struct ChoosableRecipe {
    id: i32,
    name: String,
}

/// The mathematical value of a [`ChoosableRecipe`].
pub struct ChoiceView {
    pub id: i32,
    pub name: Seq<char>,
}

impl View for ChoosableRecipe {
    type V = ChoiceView;

    closed spec fn view(&self) -> ChoiceView {
        ChoiceView { id: self.id, name: self.name@ }
    }
}

impl ChoosableRecipe {
    pub fn get_id(&self) -> (r: i32)
        ensures
            r == self@.id,
    {
        self.id
    }

    pub fn get_name(&self) -> (r: String)
        ensures
            r@ == self@.name,
    {
        self.name.clone()
    }
}

impl Clone for ChoosableRecipe {
    fn clone(&self) -> (r: Self)
        ensures
            r@ == self@,
    {
        ChoosableRecipe { id: self.id, name: self.name.clone() }
    }
}

/// Two choices are the same recipe when their ids agree; the name plays no part.
impl PartialEq for ChoosableRecipe {
    fn eq(&self, other: &Self) -> (r: bool) {
        self.id == other.id
    }
}

impl PartialEqSpecImpl for ChoosableRecipe {
    open spec fn obeys_eq_spec() -> bool {
        true
    }

    open spec fn eq_spec(&self, other: &Self) -> bool {
        self@.id == other@.id
    }
}

impl Eq for ChoosableRecipe {
}

/// Choices are ordered by their ids.
impl PartialOrd for ChoosableRecipe {
    fn partial_cmp(&self, other: &Self) -> (r: Option<Ordering>) {
        if self.id < other.id {
            Some(Ordering::Less)
        } else if self.id == other.id {
            Some(Ordering::Equal)
        } else {
            Some(Ordering::Greater)
        }
    }
}

impl PartialOrdSpecImpl for ChoosableRecipe {
    open spec fn obeys_partial_cmp_spec() -> bool {
        true
    }

    open spec fn partial_cmp_spec(&self, other: &Self) -> Option<Ordering> {
        if self@.id < other@.id {
            Some(Ordering::Less)
        } else if self@.id == other@.id {
            Some(Ordering::Equal)
        } else {
            Some(Ordering::Greater)
        }
    }
}

impl From<(i32, String)> for ChoosableRecipe {
    fn from(value: (i32, String)) -> (r: Self) {
        ChoosableRecipe { id: value.0, name: value.1 }
    }
}

impl vstd::std_specs::convert::FromSpecImpl<(i32, String)> for ChoosableRecipe {
    open spec fn obeys_from_spec() -> bool {
        true
    }

    closed spec fn from_spec(v: (i32, String)) -> Self {
        ChoosableRecipe { id: v.0, name: v.1 }
    }
}

/// A choice made from an id and a name holds that id and that name.
pub proof fn lemma_choice_from_pair(v: (i32, String))
    ensures
        <ChoosableRecipe as vstd::std_specs::convert::FromSpec<(i32, String)>>::from_spec(v)@
            == (ChoiceView { id: v.0, name: v.1@ }),
{
}

/// The settings of one brew, as chosen on the settings screen.
#[derive(Debug)]
pub struct NewSettings {
    water_temp: i32,
    grind_size: String,
    coffee_weight: i32,
    water_weight: i32,
    recipe: Option<ChoosableRecipe>,
}

/// The mathematical value of [`NewSettings`].
pub struct SettingsView {
    pub water_temp: i32,
    pub grind_size: Seq<char>,
    pub coffee_weight: i32,
    pub water_weight: i32,
    pub recipe: Option<ChoiceView>,
}

pub open spec fn option_choice_view(o: Option<ChoosableRecipe>) -> Option<ChoiceView> {
    match o {
        Some(c) => Some(c@),
        None => None,
    }
}

impl View for NewSettings {
    type V = SettingsView;

    closed spec fn view(&self) -> SettingsView {
        SettingsView {
            water_temp: self.water_temp,
            grind_size: self.grind_size@,
            coffee_weight: self.coffee_weight,
            water_weight: self.water_weight,
            recipe: option_choice_view(self.recipe),
        }
    }
}

impl NewSettings {
    pub fn get_water_temp(&self) -> (r: i32)
        ensures
            r == self@.water_temp,
    {
        self.water_temp
    }

    pub fn get_grind_size(&self) -> (r: String)
        ensures
            r@ == self@.grind_size,
    {
        self.grind_size.clone()
    }

    pub fn get_coffee_weight(&self) -> (r: i32)
        ensures
            r == self@.coffee_weight,
    {
        self.coffee_weight
    }

    pub fn get_water_weight(&self) -> (r: i32)
        ensures
            r == self@.water_weight,
    {
        self.water_weight
    }

    pub fn has_recipe(&self) -> (r: bool)
        ensures
            r == self@.recipe is Some,
    {
        self.recipe.is_some()
    }

    /// The recipe that was chosen, if one was.
    pub fn chosen_recipe(&self) -> (r: Option<ChoosableRecipe>)
        ensures
            option_choice_view(r) == self@.recipe,
    {
        clone_choice(&self.recipe)
    }

    /// The recipe that was chosen; there must be one.
    pub fn get_chosen_recipe(&self) -> (r: ChoosableRecipe)
        requires
            self@.recipe is Some,
        ensures
            Some(r@) == self@.recipe,
    {
        match &self.recipe {
            Some(c) => c.clone(),
            None => {
                proof {
                    assert(false);
                }
                ChoosableRecipe { id: 0, name: String::new() }
            },
        }
    }
}

fn clone_choice(o: &Option<ChoosableRecipe>) -> (r: Option<ChoosableRecipe>)
    ensures
        option_choice_view(r) == option_choice_view(*o),
{
    match o {
        Some(c) => Some(c.clone()),
        None => None,
    }
}

impl Clone for NewSettings {
    fn clone(&self) -> (r: Self)
        ensures
            r@ == self@,
    {
        NewSettings {
            water_temp: self.water_temp,
            grind_size: self.grind_size.clone(),
            coffee_weight: self.coffee_weight,
            water_weight: self.water_weight,
            recipe: clone_choice(&self.recipe),
        }
    }
}

/// What the settings screen asks of the application after a message.
pub enum Action {
    Nothing,
    ReturnToDefault,
    MoveToCountdown,
}

/// The messages the settings screen reacts to.
#[derive(Debug, Clone)]
pub enum SettingsScreenMessage {
    WaterTempChange(i32),
    GrindSizeChange(String),
    CoffeeWeightChange(i32),
    WaterWeightChange(i32),
    RecipeChosen(ChoosableRecipe),
    RecipeStart,
    BackToDefault,
}

/// The state of the settings screen: the settings so far and the recipes
/// that can be chosen.
#[derive(Debug)]
pub struct SettingsScreenState {
    settings: NewSettings,
    recipe_names: Vec<ChoosableRecipe>,
}

/// The mathematical value of a [`SettingsScreenState`].
pub struct SettingsScreenView {
    pub settings: SettingsView,
    pub recipe_names: Seq<ChoiceView>,
}

impl View for SettingsScreenState {
    type V = SettingsScreenView;

    closed spec fn view(&self) -> SettingsScreenView {
        SettingsScreenView {
            settings: self.settings@,
            recipe_names: self.recipe_names@.map_values(|c: ChoosableRecipe| c@),
        }
    }
}

pub const WATER_TEMP_DEFAULT: i32 = 94;

pub const COFFEE_WEIGHT_DEFAULT: i32 = 18;

pub const WATER_WEIGHT_DEFAULT: i32 = 300;

pub open spec fn or_default(o: Option<i32>, d: i32) -> i32 {
    match o {
        Some(v) => v,
        None => d,
    }
}

/// The settings a fresh settings screen starts from.
pub open spec fn initial_settings(
    water_temp: Option<i32>,
    grind_size: Seq<char>,
    coffee_weight: Option<i32>,
    water_weight: Option<i32>,
    recipe_id: Option<i32>,
    recipe_name: Seq<char>,
) -> SettingsView {
    SettingsView {
        water_temp: or_default(water_temp, WATER_TEMP_DEFAULT),
        grind_size,
        coffee_weight: or_default(coffee_weight, COFFEE_WEIGHT_DEFAULT),
        water_weight: or_default(water_weight, WATER_WEIGHT_DEFAULT),
        recipe: match recipe_id {
            Some(id) => Some(ChoiceView { id, name: recipe_name }),
            None => None,
        },
    }
}

/// `names` lists each entry of `m` once, in some order.
pub open spec fn lists_exactly(names: Seq<ChoiceView>, m: Map<i32, Seq<char>>) -> bool {
    &&& names.len() == m.dom().len()
    &&& forall|i: int|
        0 <= i < names.len() ==> #[trigger] m.contains_key(names[i].id) && m[names[i].id]
            == names[i].name
    &&& forall|i: int, j: int|
        0 <= i < names.len() && 0 <= j < names.len() && i != j ==> names[i].id != names[j].id
    &&& forall|k: i32| #[trigger]
        m.contains_key(k) ==> exists|i: int| 0 <= i < names.len() && names[i].id == k
}

/// The names of a map from recipe ids to recipe names.
pub open spec fn name_map(m: Map<i32, String>) -> Map<i32, Seq<char>> {
    m.map_values(|s: String| s@)
}

/// Whether the settings screen can take `msg` without an arithmetic overflow.
pub open spec fn settings_step_defined(s: SettingsScreenView, msg: SettingsScreenMessage) -> bool {
    match msg {
        SettingsScreenMessage::WaterTempChange(n) => i32::MIN <= s.settings.water_temp + n
            <= i32::MAX,
        SettingsScreenMessage::CoffeeWeightChange(n) => i32::MIN <= s.settings.coffee_weight + n
            <= i32::MAX,
        SettingsScreenMessage::WaterWeightChange(n) => i32::MIN <= s.settings.water_weight + n
            <= i32::MAX,
        _ => true,
    }
}

/// What the settings screen becomes, and asks for, after `msg`.
pub open spec fn settings_step(s: SettingsScreenView, msg: SettingsScreenMessage) -> (
    SettingsScreenView,
    Action,
) {
    let st = s.settings;
    match msg {
        SettingsScreenMessage::WaterTempChange(n) => (
            SettingsScreenView {
                settings: SettingsView { water_temp: (st.water_temp + n) as i32, ..st },
                ..s
            },
            Action::Nothing,
        ),
        SettingsScreenMessage::GrindSizeChange(size) => (
            SettingsScreenView { settings: SettingsView { grind_size: size@, ..st }, ..s },
            Action::Nothing,
        ),
        SettingsScreenMessage::CoffeeWeightChange(n) => (
            SettingsScreenView {
                settings: SettingsView { coffee_weight: (st.coffee_weight + n) as i32, ..st },
                ..s
            },
            Action::Nothing,
        ),
        SettingsScreenMessage::WaterWeightChange(n) => (
            SettingsScreenView {
                settings: SettingsView { water_weight: (st.water_weight + n) as i32, ..st },
                ..s
            },
            Action::Nothing,
        ),
        SettingsScreenMessage::RecipeChosen(c) => (
            SettingsScreenView { settings: SettingsView { recipe: Some(c@), ..st }, ..s },
            Action::Nothing,
        ),
        SettingsScreenMessage::RecipeStart => (s, Action::MoveToCountdown),
        SettingsScreenMessage::BackToDefault => (s, Action::ReturnToDefault),
    }
}

/// A change of a weight or of the temperature is undone by the opposite
/// change: after `+n` and then `-n`, the settings screen is as before.
pub proof fn lemma_change_is_undone(s: SettingsScreenView, n: i32)
    requires
        n > i32::MIN,
    ensures
        settings_step_defined(s, SettingsScreenMessage::WaterTempChange(n)) ==> settings_step(
            settings_step(s, SettingsScreenMessage::WaterTempChange(n)).0,
            SettingsScreenMessage::WaterTempChange((-n) as i32),
        ).0 == s,
        settings_step_defined(s, SettingsScreenMessage::CoffeeWeightChange(n)) ==> settings_step(
            settings_step(s, SettingsScreenMessage::CoffeeWeightChange(n)).0,
            SettingsScreenMessage::CoffeeWeightChange((-n) as i32),
        ).0 == s,
        settings_step_defined(s, SettingsScreenMessage::WaterWeightChange(n)) ==> settings_step(
            settings_step(s, SettingsScreenMessage::WaterWeightChange(n)).0,
            SettingsScreenMessage::WaterWeightChange((-n) as i32),
        ).0 == s,
{
}

/// A change of the temperature, the coffee weight or the water weight by
/// `n` adds exactly `n` to that value and leaves everything else as it is.
pub proof fn lemma_change_adds_exactly(s: SettingsScreenView, n: i32)
    ensures
        settings_step_defined(s, SettingsScreenMessage::WaterTempChange(n)) ==> {
            let after = settings_step(s, SettingsScreenMessage::WaterTempChange(n)).0;
            &&& after.settings.water_temp == s.settings.water_temp + n
            &&& after.settings.coffee_weight == s.settings.coffee_weight
            &&& after.settings.water_weight == s.settings.water_weight
            &&& after.settings.grind_size == s.settings.grind_size
            &&& after.settings.recipe == s.settings.recipe
            &&& after.recipe_names == s.recipe_names
        },
        settings_step_defined(s, SettingsScreenMessage::CoffeeWeightChange(n)) ==> {
            let after = settings_step(s, SettingsScreenMessage::CoffeeWeightChange(n)).0;
            &&& after.settings.coffee_weight == s.settings.coffee_weight + n
            &&& after.settings.water_temp == s.settings.water_temp
            &&& after.settings.water_weight == s.settings.water_weight
            &&& after.settings.grind_size == s.settings.grind_size
            &&& after.settings.recipe == s.settings.recipe
            &&& after.recipe_names == s.recipe_names
        },
        settings_step_defined(s, SettingsScreenMessage::WaterWeightChange(n)) ==> {
            let after = settings_step(s, SettingsScreenMessage::WaterWeightChange(n)).0;
            &&& after.settings.water_weight == s.settings.water_weight + n
            &&& after.settings.water_temp == s.settings.water_temp
            &&& after.settings.coffee_weight == s.settings.coffee_weight
            &&& after.settings.grind_size == s.settings.grind_size
            &&& after.settings.recipe == s.settings.recipe
            &&& after.recipe_names == s.recipe_names
        },
        i32::MIN <= s.settings.water_temp + n <= i32::MAX <==> settings_step_defined(
            s,
            SettingsScreenMessage::WaterTempChange(n),
        ),
        i32::MIN <= s.settings.coffee_weight + n <= i32::MAX <==> settings_step_defined(
            s,
            SettingsScreenMessage::CoffeeWeightChange(n),
        ),
        i32::MIN <= s.settings.water_weight + n <= i32::MAX <==> settings_step_defined(
            s,
            SettingsScreenMessage::WaterWeightChange(n),
        ),
{
}

/// Starting a brew or going back home leaves the settings screen as it is;
/// every message leaves the recipes on offer as they are.
pub proof fn lemma_navigation_keeps_settings(s: SettingsScreenView, msg: SettingsScreenMessage)
    ensures
        settings_step(s, msg).0.recipe_names == s.recipe_names,
        (msg is RecipeStart || msg is BackToDefault) ==> settings_step(s, msg).0 == s,
        msg is RecipeStart <==> settings_step(s, msg).1 is MoveToCountdown,
        msg is BackToDefault <==> settings_step(s, msg).1 is ReturnToDefault,
{
}

impl SettingsScreenState {
    pub fn new(
        water_temp: Option<i32>,
        grind_size: String,
        coffee_weight: Option<i32>,
        water_weight: Option<i32>,
        recipe_id: Option<i32>,
        recipe_name: String,
    ) -> (r: SettingsScreenState)
        ensures
            r@.settings == initial_settings(
                water_temp,
                grind_size@,
                coffee_weight,
                water_weight,
                recipe_id,
                recipe_name@,
            ),
            r@.recipe_names == Seq::<ChoiceView>::empty(),
    {
        let recipe = match recipe_id {
            Some(id) => Some(ChoosableRecipe::from((id, recipe_name))),
            None => None,
        };
        let r = SettingsScreenState {
            settings: NewSettings {
                water_temp: match water_temp {
                    Some(v) => v,
                    None => WATER_TEMP_DEFAULT,
                },
                grind_size: grind_size,
                coffee_weight: match coffee_weight {
                    Some(v) => v,
                    None => COFFEE_WEIGHT_DEFAULT,
                },
                water_weight: match water_weight {
                    Some(v) => v,
                    None => WATER_WEIGHT_DEFAULT,
                },
                recipe,
            },
            recipe_names: Vec::new(),
        };
        assert(r@.recipe_names =~= Seq::<ChoiceView>::empty());
        r
    }

    /// Replaces the recipes on offer by the entries of `names`, in the order
    /// in which the map hands them out.
    pub fn set_recipe_names(&mut self, names: HashMap<i32, String>)
        ensures
            final(self)@.settings == old(self)@.settings,
            lists_exactly(final(self)@.recipe_names, name_map(names@)),
    {
        broadcast use vstd::std_specs::hash::group_hash_axioms;

        let mut list: Vec<ChoosableRecipe> = Vec::new();
        let ghost entries = vstd::std_specs::hash::spec_hash_map_iter(&names).remaining();
        for entry in it: names.iter()
            invariant
                it.seq() == entries,
                entries.no_duplicates(),
                list@.len() == it.index(),
                it.index() <= entries.len(),
                forall|i: int|
                    0 <= i < list@.len() ==> #[trigger] list@[i]@.id == *entries[i].0
                        && list@[i]@.name == (*entries[i].1)@,
        {
            let (k, v) = entry;
            list.push(ChoosableRecipe { id: *k, name: v.clone() });
        }
        proof {
            let m = names@;
            let names_seq = list@.map_values(|c: ChoosableRecipe| c@);
            assert(entries.len() == m.dom().len());
            assert(list@.len() == entries.len());
            assert(name_map(m).dom() =~= m.dom());
            assert forall|i: int| 0 <= i < names_seq.len() implies #[trigger] name_map(
                m,
            ).contains_key(names_seq[i].id) && name_map(m)[names_seq[i].id]
                == names_seq[i].name by {
                assert(list@[i]@.id == *entries[i].0);
                assert(m.contains_key(*entries[i].0));
            }
            assert forall|i: int, j: int|
                0 <= i < names_seq.len() && 0 <= j < names_seq.len() && i != j implies names_seq[i].id
                != names_seq[j].id by {
                assert(list@[i]@.id == *entries[i].0);
                assert(list@[j]@.id == *entries[j].0);
                assert(m.contains_key(*entries[i].0));
                assert(m.contains_key(*entries[j].0));
                if names_seq[i].id == names_seq[j].id {
                    assert(entries[i] == entries[j]);
                }
            }
            assert forall|k: i32| #[trigger] name_map(m).contains_key(k) implies exists|i: int|
                0 <= i < names_seq.len() && names_seq[i].id == k by {
                assert(m.contains_key(k));
                assert(entries.contains((&k, &m[k])));
                let i = choose|i: int| 0 <= i < entries.len() && entries[i] == (&k, &m[k]);
                assert(list@[i]@.id == *entries[i].0);
                assert(names_seq[i].id == k);
            }
        }
        self.recipe_names = list;
    }

    pub fn get_settings(&self) -> (r: NewSettings)
        ensures
            r@ == self@.settings,
    {
        self.settings.clone()
    }

    /// The recipes on offer.
    pub fn get_recipe_names(&self) -> (r: Vec<ChoosableRecipe>)
        ensures
            r@.map_values(|c: ChoosableRecipe| c@) == self@.recipe_names,
    {
        let mut r: Vec<ChoosableRecipe> = Vec::new();
        for i in 0..self.recipe_names.len()
            invariant
                r@.len() == i,
                forall|j: int| 0 <= j < i ==> #[trigger] r@[j]@ == self.recipe_names@[j]@,
        {
            r.push(self.recipe_names[i].clone());
        }
        assert(r@.map_values(|c: ChoosableRecipe| c@) =~= self@.recipe_names);
        r
    }

    /// Whether the screen offers to start the brew: a recipe is chosen and
    /// a grind size is given.
    pub fn can_start(&self) -> (r: bool)
        ensures
            r == (self@.settings.recipe is Some && self@.settings.grind_size.len() > 0),
    {
        self.settings.recipe.is_some() && !self.settings.grind_size.as_str().is_empty()
    }

    /// Whether `update` can take `message` without an overflow.
    pub fn can_take(&self, message: &SettingsScreenMessage) -> (r: bool)
        ensures
            r == settings_step_defined(self@, *message),
    {
        match message {
            SettingsScreenMessage::WaterTempChange(n) => self.settings.water_temp.checked_add(
                *n,
            ).is_some(),
            SettingsScreenMessage::CoffeeWeightChange(n) => self.settings.coffee_weight.checked_add(
                *n,
            ).is_some(),
            SettingsScreenMessage::WaterWeightChange(n) => self.settings.water_weight.checked_add(
                *n,
            ).is_some(),
            _ => true,
        }
    }

    pub fn update(&mut self, message: SettingsScreenMessage) -> (r: Action)
        requires
            settings_step_defined(old(self)@, message),
        ensures
            (final(self)@, r) == settings_step(old(self)@, message),
    {
        match message {
            SettingsScreenMessage::WaterTempChange(num) => self.settings.water_temp =
            self.settings.water_temp + num,
            SettingsScreenMessage::GrindSizeChange(size) => self.settings.grind_size = size,
            SettingsScreenMessage::CoffeeWeightChange(num) => self.settings.coffee_weight =
            self.settings.coffee_weight + num,
            SettingsScreenMessage::WaterWeightChange(num) => self.settings.water_weight =
            self.settings.water_weight + num,
            SettingsScreenMessage::RecipeChosen(choosable) => self.settings.recipe = Some(
                choosable,
            ),
            SettingsScreenMessage::RecipeStart => {
                return Action::MoveToCountdown;
            },
            SettingsScreenMessage::BackToDefault => {
                return Action::ReturnToDefault;
            },
        }
        Action::Nothing
    }
}

} // verus!

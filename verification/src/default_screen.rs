//! The default screen: the last brews, to brew one of them again, or a
//! fresh brew.
use time::OffsetDateTime;
use crate::text::{decimal, push_decimal, push_str};
use vstd::prelude::*;

verus! {

/// The point in time at which a brew was made, as the `time` crate holds it.
#[verifier::external_type_specification]
#[verifier::external_body]
pub struct ExOffsetDateTime(OffsetDateTime);

/// The settings of an earlier brew, as stored in the database.
#[derive(Debug, Clone)]
pub struct OldSettings {
    pub brew_id: Option<i32>,
    pub water_temp: Option<i32>,
    pub grind_size: String,
    pub coffee_weight: Option<i32>,
    pub water_weight: Option<i32>,
    pub notes: String,
    pub recipe_id: Option<i32>,
    pub recipe_name: String,
    pub timepoint: Option<OffsetDateTime>,
}

/// The mathematical value of [`OldSettings`].
pub struct OldSettingsView {
    pub brew_id: Option<i32>,
    pub water_temp: Option<i32>,
    pub grind_size: Seq<char>,
    pub coffee_weight: Option<i32>,
    pub water_weight: Option<i32>,
    pub notes: Seq<char>,
    pub recipe_id: Option<i32>,
    pub recipe_name: Seq<char>,
    pub timepoint: Option<OffsetDateTime>,
}

impl View for OldSettings {
    type V = OldSettingsView;

    open spec fn view(&self) -> OldSettingsView {
        OldSettingsView {
            brew_id: self.brew_id,
            water_temp: self.water_temp,
            grind_size: self.grind_size@,
            coffee_weight: self.coffee_weight,
            water_weight: self.water_weight,
            notes: self.notes@,
            recipe_id: self.recipe_id,
            recipe_name: self.recipe_name@,
            timepoint: self.timepoint,
        }
    }
}

impl OldSettings {
    /// The settings of a fresh brew: nothing chosen yet.
    pub fn new() -> (r: Self)
        ensures
            r@ == (OldSettingsView {
                brew_id: None,
                water_temp: None,
                grind_size: Seq::empty(),
                coffee_weight: None,
                water_weight: None,
                notes: Seq::empty(),
                recipe_id: None,
                recipe_name: Seq::empty(),
                timepoint: None,
            }),
    {
        OldSettings {
            brew_id: None,
            water_temp: None,
            grind_size: String::new(),
            coffee_weight: None,
            water_weight: None,
            notes: String::new(),
            recipe_id: None,
            recipe_name: String::new(),
            timepoint: None,
        }
    }
}

impl OldSettings {
    /// The label of the button that brews these settings again.
    pub fn button_text(&self) -> (r: String)
        ensures
            r@ == "Brew with "@ + decimal(
                match self.coffee_weight {
                    Some(w) => w as int,
                    None => 0,
                },
            ) + "g of coffee"@,
    {
        let weight: i32 = match self.coffee_weight {
            Some(w) => w,
            None => 0,
        };
        let mut s = String::new();
        push_str(&mut s, "Brew with ");
        push_decimal(&mut s, weight as i128);
        push_str(&mut s, "g of coffee");
        assert(s@ =~= "Brew with "@ + decimal(weight as int) + "g of coffee"@);
        s
    }
}

/// The messages the default screen reacts to.
#[derive(Debug, Clone)]
pub enum DefaultScreenMessage {
    ChoseBrew(OldSettings),
}

/// The state of the default screen: the last brews on offer.
#[derive(Debug, Clone)]
pub struct DefaultScreenState {
    pub old_brews: Vec<OldSettings>,
}

pub open spec fn old_settings_views(v: Seq<OldSettings>) -> Seq<OldSettingsView> {
    v.map_values(|o: OldSettings| o@)
}

impl View for DefaultScreenState {
    type V = Seq<OldSettingsView>;

    open spec fn view(&self) -> Seq<OldSettingsView> {
        old_settings_views(self.old_brews@)
    }
}

impl Default for DefaultScreenState {
    fn default() -> (r: Self)
        ensures
            r.old_brews@ == Seq::<OldSettings>::empty(),
    {
        DefaultScreenState { old_brews: Vec::new() }
    }
}

impl DefaultScreenState {
    /// The brew the user chose, to start the settings screen from.
    pub fn update(&mut self, message: DefaultScreenMessage) -> (r: OldSettings)
        ensures
            final(self).old_brews@ == old(self).old_brews@,
            message matches DefaultScreenMessage::ChoseBrew(brew) && r == brew,
    {
        match message {
            DefaultScreenMessage::ChoseBrew(brew) => brew,
        }
    }
}

} // verus!

use brewboard::brew_screen::{self, BrewScreenMessage, BrewScreenState, Recipe, SimpleTime};
use brewboard::countdown_screen::{self, CountdownScreenMessage, CountdownScreenState};
use brewboard::default_screen::{DefaultScreenMessage, DefaultScreenState, OldSettings};
use brewboard::finish_screen::FinishScreenState;
use brewboard::settings_screen::{
    self, ChoosableRecipe, NewSettings, SettingsScreenMessage, SettingsScreenState,
};
use std::collections::HashMap;

fn settings_with_recipe(id: i32, name: &str, grind: &str) -> NewSettings {
    let mut s = SettingsScreenState::new(
        Some(93),
        grind.to_string(),
        Some(15),
        Some(250),
        Some(id),
        name.to_string(),
    );
    let _ = s.update(SettingsScreenMessage::WaterTempChange(0));
    s.get_settings()
}

fn three_pour_recipe() -> Recipe {
    Recipe::new(
        "V60".to_string(),
        vec![0, 0, 1],
        vec![2, 45, 30],
        vec![50, 150, 250],
        vec!["Bloom".to_string(), "".to_string(), "Swirl".to_string()],
    )
}

#[test]
fn simple_time_advance_carries_into_minutes() {
    let mut t = SimpleTime::new(1, 59);
    t.advance_by_secs(1);
    assert_eq!((t.get_minute(), t.get_second()), (2, 0));
    let mut t = SimpleTime::new(0, 30);
    t.advance_by_secs(95);
    assert_eq!((t.get_minute(), t.get_second()), (2, 5));
}

#[test]
fn simple_time_advance_backwards_truncates_toward_zero() {
    let mut t = SimpleTime::new(0, 0);
    t.advance_by_secs(-61);
    assert_eq!((t.get_minute(), t.get_second()), (-1, -1));
    assert_eq!(t.to_text(), "-1:-1");
}

#[test]
fn simple_time_advance_keeps_total_seconds() {
    for (m, s, add) in [(0, 0, 1), (5, 59, 1), (3, 10, 125), (-2, 20, 7), (0, 59, -120)] {
        let mut t = SimpleTime::new(m, s);
        t.advance_by_secs(add);
        assert_eq!(t.get_minute() * 60 + t.get_second(), m * 60 + s + add);
    }
}

#[test]
fn simple_time_text_pads_seconds() {
    assert_eq!(SimpleTime::new(3, 5).to_text(), "3:05");
    assert_eq!(SimpleTime::new(12, 30).to_text(), "12:30");
    assert_eq!(SimpleTime::new(0, 0).to_text(), "0:00");
    assert_eq!(SimpleTime::new(-4, 100).to_text(), "-4:100");
}

#[test]
fn simple_time_from_pair_and_order() {
    let t: SimpleTime = (4, 7).into();
    assert_eq!(t, SimpleTime::new(4, 7));
    assert!(SimpleTime::new(1, 0).is_at_or_after(&SimpleTime::new(0, 59)));
    assert!(SimpleTime::new(1, 5).is_at_or_after(&SimpleTime::new(1, 5)));
    assert!(!SimpleTime::new(1, 4).is_at_or_after(&SimpleTime::new(1, 5)));
    assert!(SimpleTime::new(0, 0).can_advance(1));
    assert!(!SimpleTime::new(0, i32::MAX).can_advance(1));
    assert!(!SimpleTime::new(i32::MAX, 59).can_advance(1));
}

#[test]
fn recipe_new_pairs_minutes_with_seconds() {
    let r = Recipe::new(
        "Short".to_string(),
        vec![0, 1, 2],
        vec![10, 20],
        vec![40, 80, 120],
        vec!["a".to_string(), "b".to_string(), "c".to_string()],
    );
    let mut s = BrewScreenState::new(r, settings_with_recipe(1, "Short", "fine"));
    assert_eq!(s.get_recipe_name(), "Short");
    // two times only: once the second pour is passed, the third has no time
    let _ = s.update(BrewScreenMessage::ShowNextPour);
    let _ = s.update(BrewScreenMessage::ShowNextPour);
    assert_eq!(s.get_next_target_index(), 2);
    assert!(!s.can_take(&BrewScreenMessage::CountUp));
    assert!(s.can_take(&BrewScreenMessage::ShowNextPour));
}

#[test]
fn brew_screen_ticks_and_moves_to_due_pours() {
    let mut s = BrewScreenState::new(three_pour_recipe(), settings_with_recipe(2, "V60", "medium"));
    assert_eq!(s.get_cur_time(), SimpleTime::new(0, 0));
    assert_eq!(s.get_next_target_index(), 0);
    assert!(matches!(s.update(BrewScreenMessage::CountUp), brew_screen::Action::Nothing));
    assert_eq!(s.get_cur_time(), SimpleTime::new(0, 1));
    assert_eq!(s.get_next_target_index(), 0);
    let _ = s.update(BrewScreenMessage::CountUp);
    assert_eq!(s.get_next_target_index(), 1);
    for _ in 0..43 {
        let _ = s.update(BrewScreenMessage::CountUp);
    }
    assert_eq!(s.get_cur_time(), SimpleTime::new(0, 45));
    assert_eq!(s.get_next_target_index(), 2);
    for _ in 0..45 {
        let _ = s.update(BrewScreenMessage::CountUp);
    }
    assert_eq!(s.get_cur_time(), SimpleTime::new(1, 30));
    assert_eq!(s.get_next_target_index(), 3);
    let _ = s.update(BrewScreenMessage::CountUp);
    assert_eq!(s.get_next_target_index(), 3);
}

#[test]
fn brew_screen_next_pour_stops_at_the_last() {
    let mut s = BrewScreenState::new(three_pour_recipe(), settings_with_recipe(2, "V60", "medium"));
    for expected in [1usize, 2, 3, 3, 3] {
        assert!(matches!(s.update(BrewScreenMessage::ShowNextPour), brew_screen::Action::Nothing));
        assert_eq!(s.get_next_target_index(), expected);
    }
    assert!(matches!(s.update(BrewScreenMessage::FinishBrew), brew_screen::Action::ToFinishScreen));
    assert!(matches!(s.update(BrewScreenMessage::Cancel), brew_screen::Action::Cancel));
    assert_eq!(s.get_next_target_index(), 3);
    assert_eq!(s.get_cur_time(), SimpleTime::new(0, 0));
}

#[test]
fn brew_screen_pour_instruction() {
    let mut s = BrewScreenState::new(three_pour_recipe(), settings_with_recipe(2, "V60", "medium"));
    assert_eq!(s.pour_instruction(), "Bei 0:02 auf 50g und Bloom");
    assert!(!s.is_final_pour());
    let _ = s.update(BrewScreenMessage::ShowNextPour);
    assert_eq!(s.pour_instruction(), "Bei 0:45 auf 150g");
    let _ = s.update(BrewScreenMessage::ShowNextPour);
    assert_eq!(s.pour_instruction(), "Bei 1:30 auf 250g und Swirl");
    assert!(s.is_final_pour());
    let _ = s.update(BrewScreenMessage::ShowNextPour);
    assert_eq!(s.pour_instruction(), "Bei 1:30 auf 250g und Swirl");
    assert!(s.is_final_pour());
}

#[test]
fn brew_screen_keeps_settings() {
    let mut s = BrewScreenState::new(three_pour_recipe(), settings_with_recipe(7, "V60", "coarse"));
    let _ = s.update(BrewScreenMessage::CountUp);
    let _ = s.update(BrewScreenMessage::ShowNextPour);
    let settings = s.get_settings();
    assert_eq!(settings.get_water_temp(), 93);
    assert_eq!(settings.get_grind_size(), "coarse");
    assert_eq!(settings.get_coffee_weight(), 15);
    assert_eq!(settings.get_water_weight(), 250);
    assert_eq!(settings.get_chosen_recipe().get_id(), 7);
    assert_eq!(settings.get_chosen_recipe().get_name(), "V60");
}

#[test]
fn countdown_moves_to_brew_at_the_third_tick() {
    let mut c = CountdownScreenState::start_with(3, settings_with_recipe(1, "x", "y"));
    assert!(matches!(c.update(CountdownScreenMessage::CountDown), countdown_screen::Action::Nothing));
    assert_eq!(c.get_value(), 2);
    assert!(matches!(c.update(CountdownScreenMessage::CountDown), countdown_screen::Action::Nothing));
    assert!(matches!(c.update(CountdownScreenMessage::CountDown), countdown_screen::Action::MoveToBrew));
    assert_eq!(c.get_value(), 0);
    assert_eq!(c.get_start_value(), 3);
    assert!(matches!(c.update(CountdownScreenMessage::CountDown), countdown_screen::Action::MoveToBrew));
}

#[test]
fn countdown_progress_and_cache() {
    let mut c = CountdownScreenState::start_with(3, settings_with_recipe(4, "x", "y"));
    assert_eq!(c.get_progress_fill(), 0);
    for _ in 0..5 {
        assert!(matches!(
            c.update(CountdownScreenMessage::FillProgressBar),
            countdown_screen::Action::Nothing
        ));
    }
    assert_eq!(c.get_progress_fill(), 5);
    assert_eq!(c.get_value(), 3);
    assert!(!c.has_recipe());
    c.set_recipe_cache(three_pour_recipe());
    assert!(c.has_recipe());
    assert_eq!(c.get_recipe_cache().get_name(), "V60");
    assert_eq!(c.get_settings_cache().get_chosen_recipe().get_id(), 4);
    let mut low = CountdownScreenState::start_with(i32::MIN, settings_with_recipe(4, "x", "y"));
    assert!(!low.can_take(&CountdownScreenMessage::CountDown));
    assert!(low.can_take(&CountdownScreenMessage::FillProgressBar));
    let _ = low.update(CountdownScreenMessage::FillProgressBar);
}

#[test]
fn settings_screen_defaults() {
    let s = SettingsScreenState::new(None, String::new(), None, None, None, String::new());
    let settings = s.get_settings();
    assert_eq!(settings.get_water_temp(), settings_screen::WATER_TEMP_DEFAULT);
    assert_eq!(settings.get_water_temp(), 94);
    assert_eq!(settings.get_coffee_weight(), 18);
    assert_eq!(settings.get_water_weight(), 300);
    assert_eq!(settings.get_grind_size(), "");
    assert!(!settings.has_recipe());
    assert!(settings.chosen_recipe().is_none());
    assert!(s.get_recipe_names().is_empty());
    assert!(!s.can_start());
}

#[test]
fn settings_screen_changes_and_undo() {
    let mut s = SettingsScreenState::new(Some(90), "5".to_string(), Some(20), Some(320), None, String::new());
    assert!(matches!(s.update(SettingsScreenMessage::WaterTempChange(10)), settings_screen::Action::Nothing));
    assert_eq!(s.get_settings().get_water_temp(), 100);
    let _ = s.update(SettingsScreenMessage::WaterTempChange(-10));
    assert_eq!(s.get_settings().get_water_temp(), 90);
    let _ = s.update(SettingsScreenMessage::CoffeeWeightChange(-5));
    assert_eq!(s.get_settings().get_coffee_weight(), 15);
    let _ = s.update(SettingsScreenMessage::CoffeeWeightChange(5));
    assert_eq!(s.get_settings().get_coffee_weight(), 20);
    let _ = s.update(SettingsScreenMessage::WaterWeightChange(-1));
    assert_eq!(s.get_settings().get_water_weight(), 319);
    let _ = s.update(SettingsScreenMessage::WaterWeightChange(1));
    assert_eq!(s.get_settings().get_water_weight(), 320);
    let _ = s.update(SettingsScreenMessage::GrindSizeChange("7 clicks".to_string()));
    assert_eq!(s.get_settings().get_grind_size(), "7 clicks");
    assert!(!s.can_start());
    let _ = s.update(SettingsScreenMessage::RecipeChosen(ChoosableRecipe::from((3, "Kasuya".to_string()))));
    assert!(s.can_start());
    assert_eq!(s.get_settings().get_chosen_recipe().get_name(), "Kasuya");
    assert!(matches!(s.update(SettingsScreenMessage::RecipeStart), settings_screen::Action::MoveToCountdown));
    assert!(matches!(s.update(SettingsScreenMessage::BackToDefault), settings_screen::Action::ReturnToDefault));
    assert_eq!(s.get_settings().get_water_temp(), 90);
    let _ = s.update(SettingsScreenMessage::GrindSizeChange(String::new()));
    assert!(!s.can_start());
}

#[test]
fn settings_screen_overflow_is_refused() {
    let s = SettingsScreenState::new(Some(i32::MAX), String::new(), None, None, None, String::new());
    assert!(!s.can_take(&SettingsScreenMessage::WaterTempChange(1)));
    assert!(s.can_take(&SettingsScreenMessage::WaterTempChange(-1)));
    assert!(s.can_take(&SettingsScreenMessage::CoffeeWeightChange(1)));
}

#[test]
fn settings_screen_lists_recipe_names_once_each() {
    let mut s = SettingsScreenState::new(None, String::new(), None, None, Some(2), "Two".to_string());
    let mut names = HashMap::new();
    names.insert(1, "One".to_string());
    names.insert(2, "Two".to_string());
    names.insert(5, "Five".to_string());
    s.set_recipe_names(names.clone());
    let listed = s.get_recipe_names();
    assert_eq!(listed.len(), 3);
    let mut pairs: Vec<(i32, String)> = listed.iter().map(|c| (c.get_id(), c.get_name())).collect();
    pairs.sort();
    assert_eq!(pairs, vec![(1, "One".to_string()), (2, "Two".to_string()), (5, "Five".to_string())]);
    assert_eq!(s.get_settings().get_chosen_recipe().get_id(), 2);
    s.set_recipe_names(HashMap::new());
    assert!(s.get_recipe_names().is_empty());
}

#[test]
fn choosable_recipes_compare_by_id() {
    let a = ChoosableRecipe::from((1, "A".to_string()));
    let b = ChoosableRecipe::from((1, "B".to_string()));
    let c = ChoosableRecipe::from((2, "A".to_string()));
    assert!(a == b);
    assert!(a != c);
    assert!(a < c);
    assert_eq!(a.partial_cmp(&b), Some(std::cmp::Ordering::Equal));
    assert_eq!(c.partial_cmp(&a), Some(std::cmp::Ordering::Greater));
    assert_eq!(a.clone().get_name(), "A");
}

#[test]
fn old_settings_new_and_default_screen() {
    let o = OldSettings::new();
    assert_eq!(o.brew_id, None);
    assert_eq!(o.water_temp, None);
    assert_eq!(o.grind_size, "");
    assert_eq!(o.notes, "");
    assert_eq!(o.recipe_name, "");
    assert!(o.timepoint.is_none());
    assert_eq!(o.button_text(), "Brew with 0g of coffee");
    let mut brew = OldSettings::new();
    brew.coffee_weight = Some(18);
    assert_eq!(brew.button_text(), "Brew with 18g of coffee");
    let mut d = DefaultScreenState::default();
    assert!(d.old_brews.is_empty());
    d.old_brews.push(brew.clone());
    let chosen = d.update(DefaultScreenMessage::ChoseBrew(brew));
    assert_eq!(chosen.coffee_weight, Some(18));
    assert_eq!(d.old_brews.len(), 1);
}

#[test]
fn finish_screen_summary() {
    let f = FinishScreenState::new(SimpleTime::new(3, 5), 300);
    assert_eq!(f.summary_text(), "Finished a brew with 300ml of water in 3:05");
    assert_eq!(f.get_finish_weight(), 300);
    assert_eq!(f.get_finish_time(), SimpleTime::new(3, 5));
}

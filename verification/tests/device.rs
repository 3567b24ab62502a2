use brewboard::app::{brew_record, brew_time_point, Effect, Message, Screen, State, OFFSET_TO_UTC};
use brewboard::records::Timepoint;
use brewboard::brew_screen::{BrewScreenMessage, Recipe, SimpleTime};
use brewboard::countdown_screen::CountdownScreenMessage;
use brewboard::default_screen::{DefaultScreenMessage, OldSettings};
use brewboard::finish_screen::FinishScreenMessage;
use brewboard::settings_screen::{ChoosableRecipe, SettingsScreenMessage};
use std::collections::HashMap;

fn step(state: &mut State, message: Message) -> Effect {
    assert!(state.accepts(&message));
    state.update(message)
}

fn recipe() -> Recipe {
    Recipe::new(
        "Hoffmann".to_string(),
        vec![0, 0],
        vec![1, 3],
        vec![60, 250],
        vec!["Bloom".to_string(), String::new()],
    )
}

#[test]
fn device_starts_on_the_default_screen() {
    let (state, effect) = State::new();
    assert!(matches!(effect, Effect::ConnectDatabase));
    assert!(matches!(state.screen(), Screen::DefaultScreen(d) if d.old_brews.is_empty()));
    let t = state.timers();
    assert!(!t.countdown_tick && !t.progress_tick && !t.brew_tick);
    assert!(matches!(Screen::default(), Screen::DefaultScreen(d) if d.old_brews.is_empty()));
}

#[test]
fn device_full_brew() {
    let (mut state, _) = State::new();
    let mut old = OldSettings::new();
    old.coffee_weight = Some(16);
    old.grind_size = "22".to_string();
    old.recipe_id = Some(8);
    old.recipe_name = "Hoffmann".to_string();
    assert!(matches!(step(&mut state, Message::LoadedDBConnection(vec![old.clone()])), Effect::Nothing));
    assert!(matches!(state.screen(), Screen::DefaultScreen(d) if d.old_brews.len() == 1));

    let effect = step(&mut state, Message::DefaultScreen(DefaultScreenMessage::ChoseBrew(old)));
    assert!(matches!(effect, Effect::FetchRecipeNames));
    match state.screen() {
        Screen::SettingsScreen(s) => {
            let settings = s.get_settings();
            assert_eq!(settings.get_coffee_weight(), 16);
            assert_eq!(settings.get_water_temp(), 94);
            assert_eq!(settings.get_water_weight(), 300);
            assert_eq!(settings.get_grind_size(), "22");
            assert_eq!(settings.get_chosen_recipe().get_id(), 8);
        }
        _ => panic!("expected the settings screen"),
    }

    let mut names = HashMap::new();
    names.insert(8, "Hoffmann".to_string());
    names.insert(9, "Rao".to_string());
    assert!(matches!(step(&mut state, Message::FetchedRecipeNames(names)), Effect::Nothing));
    assert!(matches!(state.screen(), Screen::SettingsScreen(s) if s.get_recipe_names().len() == 2));

    let _ = step(&mut state, Message::SettingsScreen(SettingsScreenMessage::WaterWeightChange(-50)));
    let effect = step(&mut state, Message::SettingsScreen(SettingsScreenMessage::RecipeStart));
    assert!(matches!(effect, Effect::FetchRecipeDetails { recipe_id: 8, water_weight: 250 }));
    assert!(matches!(state.screen(), Screen::CountdownScreen(c) if c.get_value() == 3));
    let t = state.timers();
    assert!(t.countdown_tick && t.progress_tick && !t.brew_tick);

    assert!(matches!(step(&mut state, Message::FetchedRecipeDetails(recipe())), Effect::Nothing));
    let _ = step(&mut state, Message::CountdownScreen(CountdownScreenMessage::FillProgressBar));
    let _ = step(&mut state, Message::CountdownScreen(CountdownScreenMessage::CountDown));
    let _ = step(&mut state, Message::CountdownScreen(CountdownScreenMessage::CountDown));
    assert!(matches!(state.screen(), Screen::CountdownScreen(_)));
    let _ = step(&mut state, Message::CountdownScreen(CountdownScreenMessage::CountDown));
    assert!(matches!(state.screen(), Screen::BrewScreen(_)));
    let t = state.timers();
    assert!(!t.countdown_tick && t.brew_tick);

    let _ = step(&mut state, Message::BrewScreen(BrewScreenMessage::CountUp));
    let _ = step(&mut state, Message::BrewScreen(BrewScreenMessage::CountUp));
    match state.screen() {
        Screen::BrewScreen(b) => {
            assert_eq!(b.get_cur_time(), SimpleTime::new(0, 2));
            assert_eq!(b.get_next_target_index(), 1);
            assert_eq!(b.get_settings().get_water_weight(), 250);
        }
        _ => panic!("expected the brew screen"),
    }

    let effect = step(&mut state, Message::BrewScreen(BrewScreenMessage::FinishBrew));
    match effect {
        Effect::SaveBrew(saved) => {
            let now = Timepoint { year: 2025, month: 6, day: 1, hour: 22, minute: 30, second: 15, nanosecond: 9, unix_nanos: 1_748_817_015_000_000_009 };
            let record = brew_record(&saved, now);
            assert_eq!(record.water_weight, 250);
            assert_eq!(record.coffee_weight, 16);
            assert_eq!(record.water_temp, 94);
            assert_eq!(record.grind_size, "22");
            assert_eq!(record.recipe_id, 8);
            assert_eq!(record.timepoint, now);
            assert_eq!(record.utc_offset_hours, 1);
            assert_eq!(brew_time_point(now), (now, OFFSET_TO_UTC));
            assert_eq!(saved.get_water_weight(), 250);
            assert_eq!(saved.get_coffee_weight(), 16);
            assert_eq!(saved.get_chosen_recipe().get_id(), 8);
        }
        _ => panic!("expected the brew to be stored"),
    }
    match state.screen() {
        Screen::FinishScreen(f) => {
            assert_eq!(f.summary_text(), "Finished a brew with 250ml of water in 0:02")
        }
        _ => panic!("expected the finish screen"),
    }

    let effect = step(&mut state, Message::FinishScreen(FinishScreenMessage::BackHome));
    assert!(matches!(effect, Effect::FetchLastBrews(3)));
    assert!(matches!(state.screen(), Screen::FinishScreen(_)));
    let _ = step(&mut state, Message::LoadDefaultScreen(vec![OldSettings::new(), OldSettings::new()]));
    assert!(matches!(state.screen(), Screen::DefaultScreen(d) if d.old_brews.len() == 2));
}

#[test]
fn device_ignores_stray_messages() {
    let (mut state, _) = State::new();
    assert!(matches!(step(&mut state, Message::BrewScreen(BrewScreenMessage::FinishBrew)), Effect::Nothing));
    assert!(matches!(step(&mut state, Message::SettingsScreen(SettingsScreenMessage::RecipeStart)), Effect::Nothing));
    assert!(matches!(step(&mut state, Message::CountdownScreen(CountdownScreenMessage::CountDown)), Effect::Nothing));
    assert!(matches!(step(&mut state, Message::FinishScreen(FinishScreenMessage::BackHome)), Effect::Nothing));
    assert!(matches!(step(&mut state, Message::FetchedRecipeDetails(recipe())), Effect::Nothing));
    assert!(matches!(step(&mut state, Message::FetchedRecipeNames(HashMap::new())), Effect::Nothing));
    assert!(matches!(step(&mut state, Message::IdleMessage), Effect::Nothing));
    assert!(matches!(state.screen(), Screen::DefaultScreen(d) if d.old_brews.is_empty()));
}

#[test]
fn device_refuses_start_without_recipe_and_cancel_goes_back() {
    let (mut state, _) = State::new();
    let _ = step(&mut state, Message::DefaultScreen(DefaultScreenMessage::ChoseBrew(OldSettings::new())));
    assert!(!state.accepts(&Message::SettingsScreen(SettingsScreenMessage::RecipeStart)));
    assert!(matches!(step(&mut state, Message::SettingsScreen(SettingsScreenMessage::BackToDefault)), Effect::FetchLastBrews(3)));
    assert!(matches!(state.screen(), Screen::SettingsScreen(_)));
    let _ = step(&mut state, Message::SettingsScreen(SettingsScreenMessage::RecipeChosen(ChoosableRecipe::from((2, "Rao".to_string())))));
    let _ = step(&mut state, Message::SettingsScreen(SettingsScreenMessage::RecipeStart));
    // the recipe has not arrived: the countdown cannot end yet
    let _ = step(&mut state, Message::CountdownScreen(CountdownScreenMessage::CountDown));
    let _ = step(&mut state, Message::CountdownScreen(CountdownScreenMessage::CountDown));
    assert!(!state.accepts(&Message::CountdownScreen(CountdownScreenMessage::CountDown)));
    assert!(state.accepts(&Message::CountdownScreen(CountdownScreenMessage::FillProgressBar)));
    let _ = step(&mut state, Message::FetchedRecipeDetails(recipe()));
    let _ = step(&mut state, Message::CountdownScreen(CountdownScreenMessage::CountDown));
    assert!(matches!(state.screen(), Screen::BrewScreen(_)));
    let effect = step(&mut state, Message::BrewScreen(BrewScreenMessage::Cancel));
    assert!(matches!(effect, Effect::FetchRecipeNames));
    match state.screen() {
        Screen::SettingsScreen(s) => {
            let settings = s.get_settings();
            assert_eq!(settings.get_water_temp(), 94);
            assert_eq!(settings.get_grind_size(), "");
            assert!(!settings.has_recipe());
        }
        _ => panic!("expected the settings screen"),
    }
}

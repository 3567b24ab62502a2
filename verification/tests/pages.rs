use brewboard::pages::{
    brew_description_page, brew_list_page, brew_notes_edit_page, calculate_recipe_detail_html,
    manual_recipe_page, recipe_description_page, recipe_edit_page, recipe_list_page,
};
use brewboard::records::{
    days_ago, parse_pour_number, timepoint_to_string, NANOS_PER_DAY, BrewDescriptionResult, BrewListResult, DatabaseRecipe,
    ManualRecipe, RecipeListResult, Timepoint,
};
use brewboard::templates::{
    RECIPE_FORM_HEAD,
    RECIPE_FORM_NAME,
    RECIPE_FORM_TABLE,
    HIDDEN_ID_OPEN,
    HIDDEN_ID_CLOSE,
    RECIPE_FORM_ROW_MINUTE,
    RECIPE_FORM_ROW_SECOND,
    RECIPE_FORM_ROW_TARGET,
    RECIPE_FORM_ROW_NOTE,
    RECIPE_FORM_ROW_END,
    RECIPE_FORM_END_OPEN,
    RECIPE_FORM_END_CLOSE,
    SAVE_BUTTON,
    RECIPE_LIST_HEAD,
    RECIPE_LIST_ROW_NAME,
    RECIPE_LIST_ROW_COUNT,
    RECIPE_LIST_ROW_DESCR,
    RECIPE_LIST_ROW_EDIT,
    RECIPE_LIST_ROW_DELETE,
    RECIPE_LIST_ROW_END,
    LIST_END,
    FILTER_OPTION_VALUE,
    FILTER_OPTION_NAME,
    FILTER_OPTION_END,
    BREW_LIST_HEAD,
    BREW_LIST_BODY_OPTIONS,
    BREW_LIST_BODY_REMOVE,
    BREW_LIST_BODY_LIST,
    REMOVE_FILTER_BUTTON,
    BREW_LIST_ROW_TIME,
    BREW_LIST_ROW_AGO,
    BREW_LIST_ROW_NAME,
    BREW_LIST_ROW_DESCR,
    BREW_LIST_ROW_EDIT,
    BREW_LIST_ROW_DELETE,
    BREW_LIST_ROW_END,
    RECIPE_DESCR_HEAD,
    RECIPE_DESCR_TABLE,
    RECIPE_DESCR_ROW_MINUTE,
    RECIPE_DESCR_ROW_SECOND,
    RECIPE_DESCR_ROW_TARGET,
    RECIPE_DESCR_ROW_NOTE,
    RECIPE_DESCR_ROW_END,
    RECIPE_DESCR_END,
    BREW_DESCR_HEAD,
    BREW_DESCR_RECIPE_ID,
    BREW_DESCR_RECIPE_NAME,
    BREW_DESCR_TEMP,
    BREW_DESCR_GRIND,
    BREW_DESCR_WATER,
    BREW_DESCR_COFFEE,
    BREW_DESCR_NOTES,
    BREW_DESCR_END,
    BREW_NOTES_ROW_OPEN,
    BREW_NOTES_ROW_CLOSE,
    NOTES_EDIT_HEAD,
    NOTES_EDIT_TEXT,
    NOTES_EDIT_ID,
    NOTES_EDIT_END,
    EDIT_BUTTON,
};
use brewboard::text::decimal_text;

fn empty_row() -> String {
    [RECIPE_FORM_ROW_MINUTE, RECIPE_FORM_ROW_SECOND, RECIPE_FORM_ROW_TARGET, RECIPE_FORM_ROW_NOTE, RECIPE_FORM_ROW_END].concat()
}

fn timepoint() -> Timepoint {
    Timepoint { year: 2024, month: 3, day: 7, hour: 9, minute: 41, second: 8, nanosecond: 0, unix_nanos: 1_709_804_468_000_000_000 }
}

fn manual() -> ManualRecipe {
    ManualRecipe {
        name: "Tetsu".to_string(),
        minutes: vec![0, 1],
        seconds: vec![5, 30],
        targets: vec![50, 300],
        notes: vec!["Bloom".to_string(), "Stir".to_string()],
    }
}

#[test]
fn decimal_text_writes_integers() {
    assert_eq!(decimal_text(0), "0");
    assert_eq!(decimal_text(7), "7");
    assert_eq!(decimal_text(1234), "1234");
    assert_eq!(decimal_text(-56), "-56");
    assert_eq!(decimal_text(i64::MIN), i64::MIN.to_string());
    assert_eq!(decimal_text(i64::MAX), i64::MAX.to_string());
}

#[test]
fn parse_pour_number_reads_usize_or_gives_one() {
    assert_eq!(parse_pour_number("3"), 3);
    assert_eq!(parse_pour_number("+4"), 4);
    assert_eq!(parse_pour_number("0"), 0);
    assert_eq!(parse_pour_number("007"), 7);
    assert_eq!(parse_pour_number(""), 1);
    assert_eq!(parse_pour_number("+"), 1);
    assert_eq!(parse_pour_number("abc"), 1);
    assert_eq!(parse_pour_number("-1"), 1);
    assert_eq!(parse_pour_number(" 3"), 1);
    assert_eq!(parse_pour_number("3 "), 1);
    assert_eq!(parse_pour_number("99999999999999999999999"), 1);
    assert_eq!(parse_pour_number(&usize::MAX.to_string()), usize::MAX);
    for text in ["12", "+", "", "x1", "18446744073709551616", "٣"] {
        assert_eq!(parse_pour_number(text), text.parse::<usize>().unwrap_or(1));
    }
}

#[test]
fn days_ago_counts_whole_days_toward_zero() {
    assert_eq!(days_ago(NANOS_PER_DAY, 0), 1);
    assert_eq!(days_ago(NANOS_PER_DAY - 1, 0), 0);
    assert_eq!(days_ago(10 * NANOS_PER_DAY + 7, 3 * NANOS_PER_DAY), 7);
    assert_eq!(days_ago(0, NANOS_PER_DAY + 1), -1);
    assert_eq!(days_ago(0, NANOS_PER_DAY - 1), 0);
}

#[test]
fn timepoint_text_is_day_month_year_hour_second() {
    assert_eq!(timepoint_to_string(&timepoint()), "07.03.24, 09:08");
    let t = Timepoint { year: -1905, month: 12, day: 31, hour: 23, minute: 0, second: 59, nanosecond: 5, unix_nanos: 0 };
    assert_eq!(timepoint_to_string(&t), "31.12.05, 23:59");
    let t = Timepoint { year: 2000, month: 1, day: 1, hour: 0, minute: 0, second: 0, nanosecond: 0, unix_nanos: 0 };
    assert_eq!(timepoint_to_string(&t), "01.01.00, 00:00");
}

#[test]
fn new_recipe_form_has_the_asked_rows() {
    let expected = [
        RECIPE_FORM_HEAD,
        RECIPE_FORM_NAME,
        RECIPE_FORM_TABLE,
        &empty_row(),
        &empty_row(),
        RECIPE_FORM_END_OPEN,
        SAVE_BUTTON,
        RECIPE_FORM_END_CLOSE,
    ]
    .concat();
    assert_eq!(manual_recipe_page("2"), expected);
    let one = [
        RECIPE_FORM_HEAD,
        RECIPE_FORM_NAME,
        RECIPE_FORM_TABLE,
        &empty_row(),
        RECIPE_FORM_END_OPEN,
        SAVE_BUTTON,
        RECIPE_FORM_END_CLOSE,
    ]
    .concat();
    assert_eq!(manual_recipe_page("many"), one);
    let none = [RECIPE_FORM_HEAD, RECIPE_FORM_NAME, RECIPE_FORM_TABLE, RECIPE_FORM_END_OPEN, SAVE_BUTTON, RECIPE_FORM_END_CLOSE].concat();
    assert_eq!(manual_recipe_page("0"), none);
}

#[test]
fn edit_recipe_form_is_filled_in() {
    let row = |m: &str, s: &str, t: &str, n: &str| {
        [RECIPE_FORM_ROW_MINUTE, m, RECIPE_FORM_ROW_SECOND, s, RECIPE_FORM_ROW_TARGET, t, RECIPE_FORM_ROW_NOTE, n, RECIPE_FORM_ROW_END].concat()
    };
    let expected = [
        RECIPE_FORM_HEAD,
        HIDDEN_ID_OPEN,
        "12",
        HIDDEN_ID_CLOSE,
        RECIPE_FORM_NAME,
        "Tetsu",
        RECIPE_FORM_TABLE,
        &row("0", "5", "50", "Bloom"),
        &row("1", "30", "300", "Stir"),
        RECIPE_FORM_END_OPEN,
        EDIT_BUTTON,
        RECIPE_FORM_END_CLOSE,
    ]
    .concat();
    assert_eq!(recipe_edit_page(manual(), 12), expected);
    let db: DatabaseRecipe = manual().to_database_recipe(12);
    assert_eq!(db.id, 12);
    assert_eq!(db.name, "Tetsu");
    assert_eq!(db.notes, vec!["Bloom".to_string(), "Stir".to_string()]);
    let partial = calculate_recipe_detail_html(Some(db), 1, "<b>go</b>".to_string());
    assert!(partial.contains(&row("0", "5", "50", "Bloom")));
    assert!(!partial.contains("Stir"));
    assert!(partial.ends_with(&["<b>go</b>", RECIPE_FORM_END_CLOSE].concat()));
}

#[test]
fn recipe_list_shows_counts() {
    let recipes = vec![
        RecipeListResult { id: 3, name: "Rao".to_string(), count: Some(12) },
        RecipeListResult { id: 4, name: "Osmotic".to_string(), count: None },
    ];
    let row = |name: &str, count: &str, id: &str| {
        [RECIPE_LIST_ROW_NAME, name, RECIPE_LIST_ROW_COUNT, count, RECIPE_LIST_ROW_DESCR, id, RECIPE_LIST_ROW_EDIT, id, RECIPE_LIST_ROW_DELETE, id, RECIPE_LIST_ROW_END].concat()
    };
    let expected = [RECIPE_LIST_HEAD, &row("Rao", "12", "3"), &row("Osmotic", "0", "4"), LIST_END].concat();
    assert_eq!(recipe_list_page(&recipes), expected);
    assert_eq!(recipe_list_page(&Vec::new()), [RECIPE_LIST_HEAD, LIST_END].concat());
}

#[test]
fn brew_list_shows_days_and_filter() {
    let earlier = Timepoint { unix_nanos: timepoint().unix_nanos - 3 * NANOS_PER_DAY, ..timepoint() };
    let brews = vec![
        BrewListResult { brew_id: 21, name: "Rao".to_string(), timepoint: timepoint() },
        BrewListResult { brew_id: 20, name: "Rao".to_string(), timepoint: earlier },
    ];
    let now = timepoint().unix_nanos + NANOS_PER_DAY + 5;
    let recipes = vec![RecipeListResult { id: 3, name: "Rao".to_string(), count: Some(2) }];
    let option = [FILTER_OPTION_VALUE, "3", FILTER_OPTION_NAME, "Rao", FILTER_OPTION_END, "\n"].concat();
    let row = |ago: &str, id: &str| {
        [BREW_LIST_ROW_TIME, "07.03.24, 09:08", BREW_LIST_ROW_AGO, ago, BREW_LIST_ROW_NAME, "Rao", BREW_LIST_ROW_DESCR, id, BREW_LIST_ROW_EDIT, id, BREW_LIST_ROW_DELETE, id, BREW_LIST_ROW_END].concat()
    };
    let filtered = [
        BREW_LIST_HEAD,
        BREW_LIST_BODY_OPTIONS,
        &option,
        BREW_LIST_BODY_REMOVE,
        REMOVE_FILTER_BUTTON,
        BREW_LIST_BODY_LIST,
        &row("1 day ", "21"),
        &row("4 days", "20"),
        LIST_END,
    ]
    .concat();
    assert_eq!(brew_list_page(&brews, now, &recipes, Some(3)), filtered);
    let unfiltered = brew_list_page(&brews, timepoint().unix_nanos + NANOS_PER_DAY - 1, &recipes, None);
    assert!(!unfiltered.contains(REMOVE_FILTER_BUTTON));
    assert!(unfiltered.contains(&row("0 days", "21")));
    assert!(unfiltered.contains(&row("3 days", "20")));
    let future = brew_list_page(&brews, timepoint().unix_nanos - 2 * NANOS_PER_DAY, &recipes, None);
    assert!(future.contains(&row("-2 days", "21")));
}

#[test]
fn recipe_description_pads_seconds() {
    let row = |m: &str, s: &str, t: &str, n: &str| {
        [RECIPE_DESCR_ROW_MINUTE, m, RECIPE_DESCR_ROW_SECOND, s, RECIPE_DESCR_ROW_TARGET, t, RECIPE_DESCR_ROW_NOTE, n, RECIPE_DESCR_ROW_END].concat()
    };
    let expected = [
        RECIPE_DESCR_HEAD,
        "Tetsu",
        RECIPE_DESCR_TABLE,
        &row("0", "05", "50", "Bloom"),
        &row("1", "30", "300", "Stir"),
        RECIPE_DESCR_END,
    ]
    .concat();
    assert_eq!(recipe_description_page(&manual()), expected);
    assert!(expected.contains("<td>0:05</td>"));
}

#[test]
fn brew_description_with_and_without_notes() {
    let mut brew = BrewDescriptionResult {
        water_temp: 93,
        grind_size: "24".to_string(),
        coffee_weight: 15,
        water_weight: 250,
        brew_notes: Some("sweet".to_string()),
        timepoint: timepoint(),
        recipe_id: 3,
        recipe_name: "Rao".to_string(),
    };
    let notes_row = [BREW_NOTES_ROW_OPEN, "sweet", BREW_NOTES_ROW_CLOSE].concat();
    let expected = [
        BREW_DESCR_HEAD, "07.03.24, 09:08", BREW_DESCR_RECIPE_ID, "3", BREW_DESCR_RECIPE_NAME, "Rao",
        BREW_DESCR_TEMP, "93", BREW_DESCR_GRIND, "24", BREW_DESCR_WATER, "250", BREW_DESCR_COFFEE,
        "15", BREW_DESCR_NOTES, &notes_row, BREW_DESCR_END,
    ]
    .concat();
    assert_eq!(brew_description_page(&brew), expected);
    assert!(expected.contains("<td>93°C</td>"));
    brew.brew_notes = None;
    assert!(!brew_description_page(&brew).contains("<td>Notes</td>"));
}

#[test]
fn notes_edit_form() {
    let expected = [NOTES_EDIT_HEAD, "07.03.24, 09:08", NOTES_EDIT_TEXT, "too bitter", NOTES_EDIT_ID, "20", NOTES_EDIT_END].concat();
    assert_eq!(brew_notes_edit_page(&timepoint(), Some("too bitter".to_string()), 20), expected);
    let empty = [NOTES_EDIT_HEAD, "07.03.24, 09:08", NOTES_EDIT_TEXT, NOTES_EDIT_ID, "20", NOTES_EDIT_END].concat();
    assert_eq!(brew_notes_edit_page(&timepoint(), None, 20), empty);
}

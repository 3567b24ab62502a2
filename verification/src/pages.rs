//! The web pages of the recipe and brew manager, as text built from the
//! records they show.
use crate::records::{
    days_ago,
    whole_days,
    push_timepoint,
    timepoint_text,
    BrewDescriptionResult,
    BrewListResult,
    BrewListView,
    DatabaseRecipe,
    DbRecipeView,
    ManualRecipe,
    RecipeFormView,
    RecipeListResult,
    RecipeListView,
    Timepoint,
};
use crate::templates::{
    RECIPE_FORM_HEAD,
    RECIPE_FORM_NAME,
    RECIPE_FORM_TABLE,
    HIDDEN_ID_OPEN,
    HIDDEN_ID_CLOSE,
    RECIPE_FORM_ROW_MINUTE,
    RECIPE_FORM_ROW_SECOND,
    RECIPE_FORM_ROW_TARGET,
    RECIPE_FORM_ROW_NOTE,
    RECIPE_FORM_ROW_END,
    RECIPE_FORM_END_OPEN,
    RECIPE_FORM_END_CLOSE,
    SAVE_BUTTON,
    RECIPE_LIST_HEAD,
    RECIPE_LIST_ROW_NAME,
    RECIPE_LIST_ROW_COUNT,
    RECIPE_LIST_ROW_DESCR,
    RECIPE_LIST_ROW_EDIT,
    RECIPE_LIST_ROW_DELETE,
    RECIPE_LIST_ROW_END,
    LIST_END,
    FILTER_OPTION_VALUE,
    FILTER_OPTION_NAME,
    FILTER_OPTION_END,
    BREW_LIST_HEAD,
    BREW_LIST_BODY_OPTIONS,
    BREW_LIST_BODY_REMOVE,
    BREW_LIST_BODY_LIST,
    REMOVE_FILTER_BUTTON,
    BREW_LIST_ROW_TIME,
    BREW_LIST_ROW_AGO,
    BREW_LIST_ROW_NAME,
    BREW_LIST_ROW_DESCR,
    BREW_LIST_ROW_EDIT,
    BREW_LIST_ROW_DELETE,
    BREW_LIST_ROW_END,
    RECIPE_DESCR_HEAD,
    RECIPE_DESCR_TABLE,
    RECIPE_DESCR_ROW_MINUTE,
    RECIPE_DESCR_ROW_SECOND,
    RECIPE_DESCR_ROW_TARGET,
    RECIPE_DESCR_ROW_NOTE,
    RECIPE_DESCR_ROW_END,
    RECIPE_DESCR_END,
    BREW_DESCR_HEAD,
    BREW_DESCR_RECIPE_ID,
    BREW_DESCR_RECIPE_NAME,
    BREW_DESCR_TEMP,
    BREW_DESCR_GRIND,
    BREW_DESCR_WATER,
    BREW_DESCR_COFFEE,
    BREW_DESCR_NOTES,
    BREW_DESCR_END,
    BREW_NOTES_ROW_OPEN,
    BREW_NOTES_ROW_CLOSE,
    NOTES_EDIT_HEAD,
    NOTES_EDIT_TEXT,
    NOTES_EDIT_ID,
    NOTES_EDIT_END,
    EDIT_BUTTON,
};
use crate::text::{decimal, padded2, push_decimal, push_padded2, push_str};
use vstd::prelude::*;

verus! {

/// The pieces `rows`, one after the other.
pub open spec fn joined(rows: Seq<Seq<char>>) -> Seq<char>
    decreases rows.len(),
{
    if rows.len() == 0 {
        Seq::empty()
    } else {
        joined(rows.drop_last()) + rows.last()
    }
}

/// Joining two lists of rows one after the other joins their joinings.
pub proof fn lemma_joined_concat(a: Seq<Seq<char>>, b: Seq<Seq<char>>)
    ensures
        joined(a + b) == joined(a) + joined(b),
    decreases b.len(),
{
    if b.len() == 0 {
        assert(a + b =~= a);
        assert(joined(a) + joined(b) =~= joined(a));
    } else {
        assert((a + b).drop_last() =~= a + b.drop_last());
        lemma_joined_concat(a, b.drop_last());
        assert(joined(a + b) =~= joined(a) + joined(b));
    }
}

/// Row `k` stands in the joining of `rows` right after rows `0..k`.
pub proof fn lemma_joined_has_row(rows: Seq<Seq<char>>, k: int)
    requires
        0 <= k < rows.len(),
    ensures
        joined(rows.take(k)).len() + rows[k].len() <= joined(rows).len(),
        joined(rows).subrange(
            joined(rows.take(k)).len() as int,
            (joined(rows.take(k)).len() + rows[k].len()) as int,
        ) == rows[k],
{
    lemma_joined_take(rows, k);
    assert(rows.take(k + 1) + rows.skip(k + 1) =~= rows);
    lemma_joined_concat(rows.take(k + 1), rows.skip(k + 1));
    let p = joined(rows.take(k));
    assert(joined(rows) == p + rows[k] + joined(rows.skip(k + 1)));
    assert(joined(rows).subrange(p.len() as int, (p.len() + rows[k].len()) as int) =~= rows[k]);
}

/// `piece` stands somewhere in `text`.
pub open spec fn contains_piece(text: Seq<char>, piece: Seq<char>) -> bool {
    exists|o: int|
        0 <= o && o + piece.len() <= text.len() && #[trigger] text.subrange(o, o + piece.len())
            == piece
}

/// Joining the first `i + 1` rows appends row `i` to the first `i`.
pub proof fn lemma_joined_take(rows: Seq<Seq<char>>, i: int)
    requires
        0 <= i < rows.len(),
    ensures
        joined(rows.take(i + 1)) == joined(rows.take(i)) + rows[i],
{
    assert(rows.take(i + 1).drop_last() =~= rows.take(i));
}

// ---------------------------------------------------------------------------
// The form to create or edit a recipe
/// The hidden field that names the recipe being edited.
pub open spec fn hidden_id_text(data: Option<DbRecipeView>) -> Seq<char> {
    match data {
        Some(d) => HIDDEN_ID_OPEN@ + decimal(d.id as int) + HIDDEN_ID_CLOSE@,
        None => Seq::empty(),
    }
}

/// One row of the recipe form: the minute, second, target and note of pour
/// `i`, empty for a new recipe.
pub open spec fn form_row(data: Option<DbRecipeView>, i: int) -> Seq<char> {
    let (minute, second, target, note) = match data {
        Some(d) => (
            decimal(d.minutes[i] as int),
            decimal(d.seconds[i] as int),
            decimal(d.targets[i] as int),
            d.notes[i],
        ),
        None => (Seq::empty(), Seq::empty(), Seq::empty(), Seq::empty()),
    };
    RECIPE_FORM_ROW_MINUTE@ + minute + RECIPE_FORM_ROW_SECOND@ + second + RECIPE_FORM_ROW_TARGET@
        + target + RECIPE_FORM_ROW_NOTE@ + note + RECIPE_FORM_ROW_END@
}

/// The form for a recipe with `pour_number` pours: empty for a new recipe,
/// filled in from `data` for one that is edited, with `final_button` to send
/// it.
pub open spec fn recipe_form_text(
    data: Option<DbRecipeView>,
    pour_number: nat,
    final_button: Seq<char>,
) -> Seq<char> {
    let name = match data {
        Some(d) => d.name,
        None => Seq::empty(),
    };
    RECIPE_FORM_HEAD@ + hidden_id_text(data) + RECIPE_FORM_NAME@ + name + RECIPE_FORM_TABLE@
        + joined(Seq::new(pour_number, |i: int| form_row(data, i))) + RECIPE_FORM_END_OPEN@
        + final_button + RECIPE_FORM_END_CLOSE@
}

pub open spec fn option_recipe_view(data: Option<DatabaseRecipe>) -> Option<DbRecipeView> {
    match data {
        Some(d) => Some(d@),
        None => None,
    }
}

/// `data` has at least `n` entries in each of its lists of pours.
pub open spec fn has_pours(d: DbRecipeView, n: int) -> bool {
    &&& n <= d.minutes.len()
    &&& n <= d.seconds.len()
    &&& n <= d.targets.len()
    &&& n <= d.notes.len()
}

fn push_form_row(s: &mut String, data: &Option<DatabaseRecipe>, i: usize)
    requires
        data matches Some(d) ==> has_pours(d@, i + 1),
    ensures
        final(s)@ == old(s)@ + form_row(option_recipe_view(*data), i as int),
{
    push_str(s, RECIPE_FORM_ROW_MINUTE);
    match data {
        Some(d) => push_decimal(s, d.minutes[i] as i128),
        None => {},
    }
    push_str(s, RECIPE_FORM_ROW_SECOND);
    match data {
        Some(d) => push_decimal(s, d.seconds[i] as i128),
        None => {},
    }
    push_str(s, RECIPE_FORM_ROW_TARGET);
    match data {
        Some(d) => push_decimal(s, d.targets[i] as i128),
        None => {},
    }
    push_str(s, RECIPE_FORM_ROW_NOTE);
    match data {
        Some(d) => push_str(s, d.notes[i].as_str()),
        None => {},
    }
    push_str(s, RECIPE_FORM_ROW_END);
    assert(final(s)@ =~= old(s)@ + form_row(option_recipe_view(*data), i as int));
}

/// The form to create a recipe (`data` is nothing) or to edit one, with
/// `pour_number` rows of pours and `final_button_html` to send it.
pub fn calculate_recipe_detail_html(
    data: Option<DatabaseRecipe>,
    pour_number: usize,
    final_button_html: String,
) -> (r: String)
    requires
        data matches Some(d) ==> has_pours(d@, pour_number as int),
    ensures
        r@ == recipe_form_text(option_recipe_view(data), pour_number as nat, final_button_html@),
{
    let ghost dv = option_recipe_view(data);
    let ghost rows = Seq::new(pour_number as nat, |i: int| form_row(dv, i));
    let mut s = String::new();
    push_str(&mut s, RECIPE_FORM_HEAD);
    match &data {
        Some(d) => {
            push_str(&mut s, HIDDEN_ID_OPEN);
            push_decimal(&mut s, d.id as i128);
            push_str(&mut s, HIDDEN_ID_CLOSE);
        },
        None => {},
    }
    push_str(&mut s, RECIPE_FORM_NAME);
    match &data {
        Some(d) => push_str(&mut s, d.name.as_str()),
        None => {},
    }
    push_str(&mut s, RECIPE_FORM_TABLE);
    let ghost head = s@;
    assert(head =~= RECIPE_FORM_HEAD@ + hidden_id_text(dv) + RECIPE_FORM_NAME@ + (match dv {
        Some(d) => d.name,
        None => Seq::empty(),
    }) + RECIPE_FORM_TABLE@);
    assert(rows.take(0) =~= Seq::<Seq<char>>::empty());
    for i in 0..pour_number
        invariant
            dv == option_recipe_view(data),
            rows == Seq::new(pour_number as nat, |i: int| form_row(dv, i)),
            data matches Some(d) ==> has_pours(d@, pour_number as int),
            s@ == head + joined(rows.take(i as int)),
    {
        push_form_row(&mut s, &data, i);
        proof {
            lemma_joined_take(rows, i as int);
        }
        assert(s@ =~= head + joined(rows.take(i + 1)));
    }
    assert(rows.take(pour_number as int) =~= rows);
    push_str(&mut s, RECIPE_FORM_END_OPEN);
    push_str(&mut s, final_button_html.as_str());
    push_str(&mut s, RECIPE_FORM_END_CLOSE);
    assert(s@ =~= recipe_form_text(dv, pour_number as nat, final_button_html@));
    s
}

/// The form for a new recipe with as many pours as `pour_number` asks for
/// (one where it asks for no number).
pub fn manual_recipe_page(pour_number: &str) -> (r: String)
    ensures
        r@ == recipe_form_text(
            None,
            crate::records::pour_number_of(pour_number@) as nat,
            SAVE_BUTTON@,
        ),
{
    let n = crate::records::parse_pour_number(pour_number);
    calculate_recipe_detail_html(None, n, String::from_str(SAVE_BUTTON))
}

/// The form to edit the recipe `row`, stored under `id`, with a row for
/// each of its pours.
pub fn recipe_edit_page(row: ManualRecipe, id: i32) -> (r: String)
    requires
        has_pours(
            DbRecipeView {
                id,
                name: row@.name,
                minutes: row@.minutes,
                seconds: row@.seconds,
                targets: row@.targets,
                notes: row@.notes,
            },
            row@.minutes.len() as int,
        ),
    ensures
        r@ == recipe_form_text(
            Some(
                DbRecipeView {
                    id,
                    name: row@.name,
                    minutes: row@.minutes,
                    seconds: row@.seconds,
                    targets: row@.targets,
                    notes: row@.notes,
                },
            ),
            row@.minutes.len(),
            EDIT_BUTTON@,
        ),
{
    let row_num = row.minutes.len();
    calculate_recipe_detail_html(
        Some(row.to_database_recipe(id)),
        row_num,
        String::from_str(EDIT_BUTTON),
    )
}

// ---------------------------------------------------------------------------
// The list of recipes
/// The entry of a recipe in the list of recipes: its name, how often it was
/// brewed, and the buttons to describe, edit and delete it.
pub open spec fn recipe_list_row(r: RecipeListView) -> Seq<char> {
    let count = match r.count {
        Some(c) => c as int,
        None => 0,
    };
    RECIPE_LIST_ROW_NAME@ + r.name + RECIPE_LIST_ROW_COUNT@ + decimal(count)
        + RECIPE_LIST_ROW_DESCR@ + decimal(r.id as int) + RECIPE_LIST_ROW_EDIT@ + decimal(
        r.id as int,
    ) + RECIPE_LIST_ROW_DELETE@ + decimal(r.id as int) + RECIPE_LIST_ROW_END@
}

pub open spec fn recipe_list_views(v: Seq<RecipeListResult>) -> Seq<RecipeListView> {
    v.map_values(|r: RecipeListResult| r@)
}

/// The page that lists the recipes, in the order given.
pub open spec fn recipe_list_text(recipes: Seq<RecipeListView>) -> Seq<char> {
    RECIPE_LIST_HEAD@ + joined(recipes.map_values(|r: RecipeListView| recipe_list_row(r)))
        + LIST_END@
}

fn push_recipe_list_row(s: &mut String, r: &RecipeListResult)
    ensures
        final(s)@ == old(s)@ + recipe_list_row(r@),
{
    push_str(s, RECIPE_LIST_ROW_NAME);
    push_str(s, r.name.as_str());
    push_str(s, RECIPE_LIST_ROW_COUNT);
    let count: i64 = match r.count {
        Some(c) => c,
        None => 0,
    };
    push_decimal(s, count as i128);
    push_str(s, RECIPE_LIST_ROW_DESCR);
    push_decimal(s, r.id as i128);
    push_str(s, RECIPE_LIST_ROW_EDIT);
    push_decimal(s, r.id as i128);
    push_str(s, RECIPE_LIST_ROW_DELETE);
    push_decimal(s, r.id as i128);
    push_str(s, RECIPE_LIST_ROW_END);
    assert(final(s)@ =~= old(s)@ + recipe_list_row(r@));
}

/// The page that lists `recipes`.
pub fn recipe_list_page(recipes: &Vec<RecipeListResult>) -> (r: String)
    ensures
        r@ == recipe_list_text(recipe_list_views(recipes@)),
{
    let ghost rows = recipe_list_views(recipes@).map_values(
        |r: RecipeListView| recipe_list_row(r),
    );
    let mut s = String::from_str(RECIPE_LIST_HEAD);
    assert(rows.take(0) =~= Seq::<Seq<char>>::empty());
    for i in 0..recipes.len()
        invariant
            rows == recipe_list_views(recipes@).map_values(|r: RecipeListView| recipe_list_row(r)),
            s@ == RECIPE_LIST_HEAD@ + joined(rows.take(i as int)),
    {
        push_recipe_list_row(&mut s, &recipes[i]);
        proof {
            lemma_joined_take(rows, i as int);
        }
        assert(s@ =~= RECIPE_LIST_HEAD@ + joined(rows.take(i + 1)));
    }
    assert(rows.take(recipes@.len() as int) =~= rows);
    push_str(&mut s, LIST_END);
    s
}

// ---------------------------------------------------------------------------
// The list of brews
/// How long ago a brew was made, in whole days.
pub open spec fn days_text(days: int) -> Seq<char> {
    if days == 1 {
        "1 day "@
    } else {
        decimal(days) + " days"@
    }
}

/// The choice of a recipe in the filter of the list of brews.
pub open spec fn filter_option(r: RecipeListView) -> Seq<char> {
    FILTER_OPTION_VALUE@ + decimal(r.id as int) + FILTER_OPTION_NAME@ + r.name
        + FILTER_OPTION_END@ + "\n"@
}

/// The entry of a brew made `days` days ago in the list of brews.
pub open spec fn brew_list_row(b: BrewListView, days: int) -> Seq<char> {
    BREW_LIST_ROW_TIME@ + timepoint_text(b.timepoint) + BREW_LIST_ROW_AGO@ + days_text(days)
        + BREW_LIST_ROW_NAME@ + b.name + BREW_LIST_ROW_DESCR@ + decimal(b.brew_id as int)
        + BREW_LIST_ROW_EDIT@ + decimal(b.brew_id as int) + BREW_LIST_ROW_DELETE@ + decimal(
        b.brew_id as int,
    ) + BREW_LIST_ROW_END@
}

pub open spec fn brew_list_views(v: Seq<BrewListResult>) -> Seq<BrewListView> {
    v.map_values(|b: BrewListResult| b@)
}

/// The page that lists `brews` (brew `i` made `days[i]` days ago), with a
/// filter offering `recipes`, and a button to remove the filter when one
/// is set.
pub open spec fn brew_list_text(
    brews: Seq<BrewListView>,
    days: Seq<int>,
    recipes: Seq<RecipeListView>,
    recipe_filter_id: Option<i32>,
) -> Seq<char> {
    BREW_LIST_HEAD@ + BREW_LIST_BODY_OPTIONS@ + joined(
        recipes.map_values(|r: RecipeListView| filter_option(r)),
    ) + BREW_LIST_BODY_REMOVE@ + (if recipe_filter_id is Some {
        REMOVE_FILTER_BUTTON@
    } else {
        Seq::empty()
    }) + BREW_LIST_BODY_LIST@ + joined(
        Seq::new(brews.len(), |i: int| brew_list_row(brews[i], days[i])),
    ) + LIST_END@
}

fn push_filter_option(s: &mut String, r: &RecipeListResult)
    ensures
        final(s)@ == old(s)@ + filter_option(r@),
{
    push_str(s, FILTER_OPTION_VALUE);
    push_decimal(s, r.id as i128);
    push_str(s, FILTER_OPTION_NAME);
    push_str(s, r.name.as_str());
    push_str(s, FILTER_OPTION_END);
    push_str(s, "\n");
    assert(final(s)@ =~= old(s)@ + filter_option(r@));
}

fn push_days(s: &mut String, days: i128)
    ensures
        final(s)@ == old(s)@ + days_text(days as int),
{
    if days == 1 {
        push_str(s, "1 day ");
    } else {
        push_decimal(s, days);
        push_str(s, " days");
    }
    assert(final(s)@ =~= old(s)@ + days_text(days as int));
}

fn push_brew_list_row(s: &mut String, b: &BrewListResult, days: i128)
    ensures
        final(s)@ == old(s)@ + brew_list_row(b@, days as int),
{
    push_str(s, BREW_LIST_ROW_TIME);
    push_timepoint(s, &b.timepoint);
    push_str(s, BREW_LIST_ROW_AGO);
    push_days(s, days);
    push_str(s, BREW_LIST_ROW_NAME);
    push_str(s, b.name.as_str());
    push_str(s, BREW_LIST_ROW_DESCR);
    push_decimal(s, b.brew_id as i128);
    push_str(s, BREW_LIST_ROW_EDIT);
    push_decimal(s, b.brew_id as i128);
    push_str(s, BREW_LIST_ROW_DELETE);
    push_decimal(s, b.brew_id as i128);
    push_str(s, BREW_LIST_ROW_END);
    assert(final(s)@ =~= old(s)@ + brew_list_row(b@, days as int));
}

/// The filter of the list of brews offers every recipe it is given, by its
/// id and name, and the list shows every brew it is given.
pub proof fn lemma_brew_list_offers_every_recipe(
    brews: Seq<BrewListView>,
    days: Seq<int>,
    recipes: Seq<RecipeListView>,
    recipe_filter_id: Option<i32>,
)
    requires
        days.len() == brews.len(),
    ensures
        forall|k: int|
            0 <= k < recipes.len() ==> contains_piece(
                brew_list_text(brews, days, recipes, recipe_filter_id),
                FILTER_OPTION_VALUE@ + decimal(#[trigger] recipes[k].id as int)
                    + FILTER_OPTION_NAME@ + recipes[k].name + FILTER_OPTION_END@,
            ),
        forall|k: int|
            0 <= k < brews.len() ==> contains_piece(
                brew_list_text(brews, days, recipes, recipe_filter_id),
                brew_list_row(#[trigger] brews[k], days[k]),
            ),
{
    let page = brew_list_text(brews, days, recipes, recipe_filter_id);
    let options = recipes.map_values(|r: RecipeListView| filter_option(r));
    let rows = Seq::new(brews.len(), |i: int| brew_list_row(brews[i], days[i]));
    let head = BREW_LIST_HEAD@ + BREW_LIST_BODY_OPTIONS@;
    let middle = BREW_LIST_BODY_REMOVE@ + (if recipe_filter_id is Some {
        REMOVE_FILTER_BUTTON@
    } else {
        Seq::empty()
    }) + BREW_LIST_BODY_LIST@;
    assert(page =~= head + joined(options) + middle + joined(rows) + LIST_END@);
    assert forall|k: int| 0 <= k < recipes.len() implies contains_piece(
        page,
        FILTER_OPTION_VALUE@ + decimal(#[trigger] recipes[k].id as int) + FILTER_OPTION_NAME@
            + recipes[k].name + FILTER_OPTION_END@,
    ) by {
        let piece = FILTER_OPTION_VALUE@ + decimal(recipes[k].id as int) + FILTER_OPTION_NAME@
            + recipes[k].name + FILTER_OPTION_END@;
        lemma_joined_has_row(options, k);
        assert(options[k] == piece + "\n"@);
        let o: int = (head.len() + joined(options.take(k)).len()) as int;
        assert(page.subrange(o, o + piece.len()) =~= piece) by {
            assert(page.subrange(o, o + options[k].len()) =~= options[k]) by {
                assert(joined(options).subrange(
                    joined(options.take(k)).len() as int,
                    (joined(options.take(k)).len() + options[k].len()) as int,
                ) == options[k]);
            }
            assert(options[k].subrange(0, piece.len() as int) =~= piece);
        }
    }
    assert forall|k: int| 0 <= k < brews.len() implies contains_piece(
        page,
        brew_list_row(#[trigger] brews[k], days[k]),
    ) by {
        lemma_joined_has_row(rows, k);
        let o: int = (head.len() + joined(options).len() + middle.len() + joined(rows.take(k)).len()) as int;
        assert(rows[k] == brew_list_row(brews[k], days[k]));
        assert(page.subrange(o, o + rows[k].len()) =~= rows[k]) by {
            assert(joined(rows).subrange(
                joined(rows.take(k)).len() as int,
                (joined(rows.take(k)).len() + rows[k].len()) as int,
            ) == rows[k]);
        }
    }
}

/// How many whole days before `now_unix_nanos` each of `brews` was made.
pub open spec fn days_before(brews: Seq<BrewListView>, now_unix_nanos: int) -> Seq<int> {
    Seq::new(brews.len(), |i: int| whole_days(now_unix_nanos, brews[i].timepoint.unix_nanos as int))
}

/// The page that lists `brews`, as seen at `now_unix_nanos`, with a filter
/// offering `recipes`; `recipe_filter_id` is the recipe the list is
/// filtered for, if it is.
pub fn brew_list_page(
    brews: &Vec<BrewListResult>,
    now_unix_nanos: i128,
    recipes: &Vec<RecipeListResult>,
    recipe_filter_id: Option<i32>,
) -> (r: String)
    requires
        forall|i: int|
            0 <= i < brews@.len() ==> i128::MIN <= now_unix_nanos - #[trigger] brews@[i].timepoint.unix_nanos
                <= i128::MAX,
    ensures
        r@ == brew_list_text(
            brew_list_views(brews@),
            days_before(brew_list_views(brews@), now_unix_nanos as int),
            recipe_list_views(recipes@),
            recipe_filter_id,
        ),
{
    let ghost options = recipe_list_views(recipes@).map_values(
        |r: RecipeListView| filter_option(r),
    );
    let ghost bv = brew_list_views(brews@);
    let ghost days = days_before(bv, now_unix_nanos as int);
    let ghost rows = Seq::new(bv.len(), |i: int| brew_list_row(bv[i], days[i]));
    let mut s = String::from_str(BREW_LIST_HEAD);
    push_str(&mut s, BREW_LIST_BODY_OPTIONS);
    let ghost head = s@;
    assert(options.take(0) =~= Seq::<Seq<char>>::empty());
    for i in 0..recipes.len()
        invariant
            options == recipe_list_views(recipes@).map_values(
                |r: RecipeListView| filter_option(r),
            ),
            s@ == head + joined(options.take(i as int)),
    {
        push_filter_option(&mut s, &recipes[i]);
        proof {
            lemma_joined_take(options, i as int);
        }
        assert(s@ =~= head + joined(options.take(i + 1)));
    }
    assert(options.take(recipes@.len() as int) =~= options);
    push_str(&mut s, BREW_LIST_BODY_REMOVE);
    if recipe_filter_id.is_some() {
        push_str(&mut s, REMOVE_FILTER_BUTTON);
    }
    push_str(&mut s, BREW_LIST_BODY_LIST);
    let ghost middle = s@;
    assert(rows.take(0) =~= Seq::<Seq<char>>::empty());
    for i in 0..brews.len()
        invariant
            forall|i: int|
                0 <= i < brews@.len() ==> i128::MIN <= now_unix_nanos
                    - #[trigger] brews@[i].timepoint.unix_nanos <= i128::MAX,
            bv == brew_list_views(brews@),
            days == days_before(bv, now_unix_nanos as int),
            rows == Seq::new(bv.len(), |i: int| brew_list_row(bv[i], days[i])),
            s@ == middle + joined(rows.take(i as int)),
    {
        let d = days_ago(now_unix_nanos, brews[i].timepoint.unix_nanos);
        push_brew_list_row(&mut s, &brews[i], d);
        proof {
            lemma_joined_take(rows, i as int);
        }
        assert(s@ =~= middle + joined(rows.take(i + 1)));
    }
    assert(rows.take(brews@.len() as int) =~= rows);
    push_str(&mut s, LIST_END);
    assert(s@ =~= brew_list_text(bv, days, recipe_list_views(recipes@), recipe_filter_id));
    s
}

// ---------------------------------------------------------------------------
// The description of a recipe
/// The row of pour `i` in the description of a recipe: its time, its target
/// weight and its note.
pub open spec fn recipe_description_row(r: RecipeFormView, i: int) -> Seq<char> {
    RECIPE_DESCR_ROW_MINUTE@ + decimal(r.minutes[i] as int) + RECIPE_DESCR_ROW_SECOND@ + padded2(
        r.seconds[i] as int,
    ) + RECIPE_DESCR_ROW_TARGET@ + decimal(r.targets[i] as int) + RECIPE_DESCR_ROW_NOTE@
        + r.notes[i] + RECIPE_DESCR_ROW_END@
}

/// The page that describes a recipe: its name and a row for each minute
/// entry.
pub open spec fn recipe_description_text(r: RecipeFormView) -> Seq<char> {
    RECIPE_DESCR_HEAD@ + r.name + RECIPE_DESCR_TABLE@ + joined(
        Seq::new(r.minutes.len(), |i: int| recipe_description_row(r, i)),
    ) + RECIPE_DESCR_END@
}

/// The page that describes the recipe `row`.
pub fn recipe_description_page(row: &ManualRecipe) -> (r: String)
    requires
        row@.minutes.len() <= row@.seconds.len(),
        row@.minutes.len() <= row@.targets.len(),
        row@.minutes.len() <= row@.notes.len(),
    ensures
        r@ == recipe_description_text(row@),
{
    let ghost rv = row@;
    let ghost rows = Seq::new(rv.minutes.len(), |i: int| recipe_description_row(rv, i));
    let mut s = String::from_str(RECIPE_DESCR_HEAD);
    push_str(&mut s, row.name.as_str());
    push_str(&mut s, RECIPE_DESCR_TABLE);
    let ghost head = s@;
    assert(rows.take(0) =~= Seq::<Seq<char>>::empty());
    for i in 0..row.minutes.len()
        invariant
            rv == row@,
            rv.minutes.len() <= rv.seconds.len(),
            rv.minutes.len() <= rv.targets.len(),
            rv.minutes.len() <= rv.notes.len(),
            rows == Seq::new(rv.minutes.len(), |i: int| recipe_description_row(rv, i)),
            s@ == head + joined(rows.take(i as int)),
    {
        push_str(&mut s, RECIPE_DESCR_ROW_MINUTE);
        push_decimal(&mut s, row.minutes[i] as i128);
        push_str(&mut s, RECIPE_DESCR_ROW_SECOND);
        push_padded2(&mut s, row.seconds[i] as i64);
        push_str(&mut s, RECIPE_DESCR_ROW_TARGET);
        push_decimal(&mut s, row.targets[i] as i128);
        push_str(&mut s, RECIPE_DESCR_ROW_NOTE);
        push_str(&mut s, row.notes[i].as_str());
        push_str(&mut s, RECIPE_DESCR_ROW_END);
        proof {
            lemma_joined_take(rows, i as int);
        }
        assert(s@ =~= head + joined(rows.take(i + 1)));
    }
    assert(rows.take(rv.minutes.len() as int) =~= rows);
    push_str(&mut s, RECIPE_DESCR_END);
    assert(s@ =~= recipe_description_text(rv));
    s
}

// ---------------------------------------------------------------------------
// The description of a brew and the form for its notes
/// The page that describes a brew.
pub open spec fn brew_description_text(
    timepoint: Timepoint,
    recipe_id: i32,
    recipe_name: Seq<char>,
    water_temp: i32,
    grind_size: Seq<char>,
    water_weight: i32,
    coffee_weight: i32,
    notes: Option<Seq<char>>,
) -> Seq<char> {
    BREW_DESCR_HEAD@ + timepoint_text(timepoint) + BREW_DESCR_RECIPE_ID@ + decimal(
        recipe_id as int,
    ) + BREW_DESCR_RECIPE_NAME@ + recipe_name + BREW_DESCR_TEMP@ + decimal(water_temp as int)
        + BREW_DESCR_GRIND@ + grind_size + BREW_DESCR_WATER@ + decimal(water_weight as int)
        + BREW_DESCR_COFFEE@ + decimal(coffee_weight as int) + BREW_DESCR_NOTES@ + (match notes {
        Some(n) => BREW_NOTES_ROW_OPEN@ + n + BREW_NOTES_ROW_CLOSE@,
        None => Seq::empty(),
    }) + BREW_DESCR_END@
}

/// The page that describes the brew `brew`.
pub fn brew_description_page(brew: &BrewDescriptionResult) -> (r: String)
    ensures
        r@ == brew_description_text(
            brew.timepoint,
            brew.recipe_id,
            brew.recipe_name@,
            brew.water_temp,
            brew.grind_size@,
            brew.water_weight,
            brew.coffee_weight,
            match brew.brew_notes {
                Some(n) => Some(n@),
                None => None,
            },
        ),
{
    let mut s = String::from_str(BREW_DESCR_HEAD);
    push_timepoint(&mut s, &brew.timepoint);
    push_str(&mut s, BREW_DESCR_RECIPE_ID);
    push_decimal(&mut s, brew.recipe_id as i128);
    push_str(&mut s, BREW_DESCR_RECIPE_NAME);
    push_str(&mut s, brew.recipe_name.as_str());
    push_str(&mut s, BREW_DESCR_TEMP);
    push_decimal(&mut s, brew.water_temp as i128);
    push_str(&mut s, BREW_DESCR_GRIND);
    push_str(&mut s, brew.grind_size.as_str());
    push_str(&mut s, BREW_DESCR_WATER);
    push_decimal(&mut s, brew.water_weight as i128);
    push_str(&mut s, BREW_DESCR_COFFEE);
    push_decimal(&mut s, brew.coffee_weight as i128);
    push_str(&mut s, BREW_DESCR_NOTES);
    match &brew.brew_notes {
        Some(n) => {
            push_str(&mut s, BREW_NOTES_ROW_OPEN);
            push_str(&mut s, n.as_str());
            push_str(&mut s, BREW_NOTES_ROW_CLOSE);
        },
        None => {},
    }
    push_str(&mut s, BREW_DESCR_END);
    assert(s@ =~= brew_description_text(
        brew.timepoint,
        brew.recipe_id,
        brew.recipe_name@,
        brew.water_temp,
        brew.grind_size@,
        brew.water_weight,
        brew.coffee_weight,
        match brew.brew_notes {
            Some(n) => Some(n@),
            None => None,
        },
    ));
    s
}

/// The form to edit the notes of the brew `id`, made at `timepoint`, with
/// its notes so far (none where there are none).
pub open spec fn notes_edit_text(timepoint: Timepoint, notes: Option<Seq<char>>, id: i32) -> Seq<
    char,
> {
    NOTES_EDIT_HEAD@ + timepoint_text(timepoint) + NOTES_EDIT_TEXT@ + (match notes {
        Some(n) => n,
        None => Seq::empty(),
    }) + NOTES_EDIT_ID@ + decimal(id as int) + NOTES_EDIT_END@
}

/// The form to edit the notes of the brew `id`.
pub fn brew_notes_edit_page(timepoint: &Timepoint, notes: Option<String>, id: i32) -> (r: String)
    ensures
        r@ == notes_edit_text(
            *timepoint,
            match notes {
                Some(n) => Some(n@),
                None => None,
            },
            id,
        ),
{
    let mut s = String::from_str(NOTES_EDIT_HEAD);
    push_timepoint(&mut s, timepoint);
    push_str(&mut s, NOTES_EDIT_TEXT);
    match &notes {
        Some(n) => push_str(&mut s, n.as_str()),
        None => {},
    }
    push_str(&mut s, NOTES_EDIT_ID);
    push_decimal(&mut s, id as i128);
    push_str(&mut s, NOTES_EDIT_END);
    assert(s@ =~= notes_edit_text(
        *timepoint,
        match notes {
            Some(n) => Some(n@),
            None => None,
        },
        id,
    ));
    s
}

} // verus!

//! The records of the recipe and brew manager: recipes as the forms send
//! them and as the database holds them, the rows of its lists, and points in
//! time as the pages show them.
use crate::brew_screen::trunc_div;
use crate::text::{padded2, push_padded2, push_str};
use vstd::prelude::*;


verus! {

pub open spec fn string_views(v: Seq<String>) -> Seq<Seq<char>> {
    v.map_values(|s: String| s@)
}

/// A recipe as the form for a new recipe sends it: a name and, for each
/// pour, its minute, second, target weight and note.
#[derive(Debug, Clone)]
pub struct ManualRecipe {
    pub name: String,
    pub minutes: Vec<i32>,
    pub seconds: Vec<i32>,
    pub targets: Vec<i32>,
    pub notes: Vec<String>,
}

/// The mathematical value of a [`ManualRecipe`].
pub struct RecipeFormView {
    pub name: Seq<char>,
    pub minutes: Seq<i32>,
    pub seconds: Seq<i32>,
    pub targets: Seq<i32>,
    pub notes: Seq<Seq<char>>,
}

impl View for ManualRecipe {
    type V = RecipeFormView;

    open spec fn view(&self) -> RecipeFormView {
        RecipeFormView {
            name: self.name@,
            minutes: self.minutes@,
            seconds: self.seconds@,
            targets: self.targets@,
            notes: string_views(self.notes@),
        }
    }
}

/// A recipe as the database holds it: a [`ManualRecipe`] with its id.
#[derive(Debug, Clone)]
pub struct DatabaseRecipe {
    pub id: i32,
    pub name: String,
    pub minutes: Vec<i32>,
    pub seconds: Vec<i32>,
    pub targets: Vec<i32>,
    pub notes: Vec<String>,
}

/// The mathematical value of a [`DatabaseRecipe`].
pub struct DbRecipeView {
    pub id: i32,
    pub name: Seq<char>,
    pub minutes: Seq<i32>,
    pub seconds: Seq<i32>,
    pub targets: Seq<i32>,
    pub notes: Seq<Seq<char>>,
}

impl View for DatabaseRecipe {
    type V = DbRecipeView;

    open spec fn view(&self) -> DbRecipeView {
        DbRecipeView {
            id: self.id,
            name: self.name@,
            minutes: self.minutes@,
            seconds: self.seconds@,
            targets: self.targets@,
            notes: string_views(self.notes@),
        }
    }
}

impl ManualRecipe {
    /// The recipe as the database holds it under `id`.
    pub fn to_database_recipe(self, id: i32) -> (r: DatabaseRecipe)
        ensures
            r@ == (DbRecipeView {
                id,
                name: self@.name,
                minutes: self@.minutes,
                seconds: self@.seconds,
                targets: self@.targets,
                notes: self@.notes,
            }),
    {
        DatabaseRecipe {
            id,
            name: self.name,
            minutes: self.minutes,
            seconds: self.seconds,
            targets: self.targets,
            notes: self.notes,
        }
    }
}

/// A row of the list of recipes: the recipe and how often it was brewed
/// (nothing when it never was).
#[derive(Debug, Clone)]
pub struct RecipeListResult {
    pub id: i32,
    pub name: String,
    pub count: Option<i64>,
}

/// The mathematical value of a [`RecipeListResult`].
pub struct RecipeListView {
    pub id: i32,
    pub name: Seq<char>,
    pub count: Option<i64>,
}

impl View for RecipeListResult {
    type V = RecipeListView;

    open spec fn view(&self) -> RecipeListView {
        RecipeListView { id: self.id, name: self.name@, count: self.count }
    }
}

/// A point in time, by its calendar date and clock time, and as the
/// nanoseconds since the Unix epoch.
#[derive(Debug, Clone, Copy, PartialEq, Eq, Structural)]
pub struct Timepoint {
    pub year: i32,
    pub month: u8,
    pub day: u8,
    pub hour: u8,
    pub minute: u8,
    pub second: u8,
    pub nanosecond: u32,
    pub unix_nanos: i128,
}

/// The nanoseconds in a day.
pub const NANOS_PER_DAY: i128 = 86_400_000_000_000;

/// The whole days from `then` to `now` (both in nanoseconds), rounded
/// toward zero, as `time` counts the days of a duration.
pub open spec fn whole_days(now: int, then: int) -> int {
    trunc_div(now - then, NANOS_PER_DAY as int)
}

/// The whole days from `then_unix_nanos` to `now_unix_nanos`.
pub fn days_ago(now_unix_nanos: i128, then_unix_nanos: i128) -> (r: i128)
    requires
        i128::MIN <= now_unix_nanos - then_unix_nanos <= i128::MAX,
    ensures
        r == whole_days(now_unix_nanos as int, then_unix_nanos as int),
{
    (now_unix_nanos - then_unix_nanos) / NANOS_PER_DAY
}

/// How the pages show a point in time: day, month and the last two digits
/// of the year, then the hour and the second, each with two digits
/// (`[day].[month].[year repr:last_two], [hour]:[second]`).
pub open spec fn timepoint_text(t: Timepoint) -> Seq<char> {
    let year = t.year as int;
    let abs_year = if year < 0 {
        -year
    } else {
        year
    };
    padded2(t.day as int) + "."@ + padded2(t.month as int) + "."@ + padded2(abs_year % 100)
        + ", "@ + padded2(t.hour as int) + ":"@ + padded2(t.second as int)
}

/// Appends the point in time as the pages show it to `s`.
pub fn push_timepoint(s: &mut String, t: &Timepoint)
    ensures
        final(s)@ == old(s)@ + timepoint_text(*t),
{
    let year = t.year as i64;
    let abs_year: i64 = if year < 0 {
        -year
    } else {
        year
    };
    push_padded2(s, t.day as i64);
    push_str(s, ".");
    push_padded2(s, t.month as i64);
    push_str(s, ".");
    push_padded2(s, abs_year % 100);
    push_str(s, ", ");
    push_padded2(s, t.hour as i64);
    push_str(s, ":");
    push_padded2(s, t.second as i64);
    assert(final(s)@ =~= old(s)@ + timepoint_text(*t));
}

/// The point in time as the pages show it.
pub fn timepoint_to_string(timepoint: &Timepoint) -> (r: String)
    ensures
        r@ == timepoint_text(*timepoint),
{
    let mut s = String::new();
    push_timepoint(&mut s, timepoint);
    assert(s@ =~= timepoint_text(*timepoint));
    s
}

/// A row of the list of brews: the brew, the name of its recipe and when it
/// was made.
#[derive(Debug, Clone)]
pub struct BrewListResult {
    pub brew_id: i32,
    pub name: String,
    pub timepoint: Timepoint,
}

/// The mathematical value of a [`BrewListResult`].
pub struct BrewListView {
    pub brew_id: i32,
    pub name: Seq<char>,
    pub timepoint: Timepoint,
}

impl View for BrewListResult {
    type V = BrewListView;

    open spec fn view(&self) -> BrewListView {
        BrewListView { brew_id: self.brew_id, name: self.name@, timepoint: self.timepoint }
    }
}

/// Everything the description of a brew shows.
#[derive(Debug, Clone)]
pub struct BrewDescriptionResult {
    pub water_temp: i32,
    pub grind_size: String,
    pub coffee_weight: i32,
    pub water_weight: i32,
    pub brew_notes: Option<String>,
    pub timepoint: Timepoint,
    pub recipe_id: i32,
    pub recipe_name: String,
}

/// The decimal value of the digits `s`, most significant first.
pub open spec fn digits_value(s: Seq<char>) -> int
    decreases s.len(),
{
    if s.len() == 0 {
        0
    } else {
        digits_value(s.drop_last()) * 10 + (s.last() as int - '0' as int)
    }
}

pub open spec fn is_digit(c: char) -> bool {
    '0' <= c <= '9'
}

pub open spec fn all_digits(s: Seq<char>) -> bool {
    forall|i: int| 0 <= i < s.len() ==> is_digit(#[trigger] s[i])
}

/// The number that `s` writes as Rust reads a `usize` from text: an
/// optional `+` and at least one decimal digit, and nothing else; nothing
/// when `s` is not of that form or the number does not fit.
pub open spec fn parsed_usize(s: Seq<char>) -> Option<int> {
    let body = if s.len() > 0 && s[0] == '+' {
        s.drop_first()
    } else {
        s
    };
    if body.len() > 0 && all_digits(body) && digits_value(body) <= usize::MAX {
        Some(digits_value(body))
    } else {
        None
    }
}

/// The number of pours asked for: the number `text` writes, or 1 where it
/// writes none.
pub open spec fn pour_number_of(text: Seq<char>) -> int {
    match parsed_usize(text) {
        Some(n) => n,
        None => 1,
    }
}

pub proof fn lemma_digits_value_nonneg(s: Seq<char>)
    requires
        forall|i: int| 0 <= i < s.len() ==> is_digit(#[trigger] s[i]),
    ensures
        digits_value(s) >= 0,
    decreases s.len(),
{
    if s.len() > 0 {
        lemma_digits_value_nonneg(s.drop_last());
    }
}

pub proof fn lemma_digits_value_grows(s: Seq<char>, t: Seq<char>)
    requires
        t.len() > 0,
        forall|i: int| 0 <= i < s.len() ==> is_digit(#[trigger] s[i]),
        forall|i: int| 0 <= i < t.len() ==> is_digit(#[trigger] t[i]),
    ensures
        digits_value(s + t) >= digits_value(s),
    decreases t.len(),
{
    lemma_digits_value_nonneg(s);
    assert((s + t).drop_last() =~= s + t.drop_last());
    if t.len() > 1 {
        lemma_digits_value_grows(s, t.drop_last());
    } else {
        assert(s + t.drop_last() =~= s);
    }
}

/// Once a prefix of digits writes a number beyond `usize`, the whole text
/// cannot write one that fits.
pub proof fn lemma_too_big_prefix(body: Seq<char>, k: int)
    requires
        0 <= k < body.len(),
        forall|j: int| 0 <= j <= k ==> is_digit(#[trigger] body[j]),
        digits_value(body.take(k + 1)) > usize::MAX,
    ensures
        !(all_digits(body) && digits_value(body) <= usize::MAX),
{
    if all_digits(body) {
        if k + 1 == body.len() {
            assert(body.take(k + 1) =~= body);
        } else {
            let p = body.take(k + 1);
            let q = body.skip(k + 1);
            assert(p + q =~= body);
            lemma_digits_value_grows(p, q);
        }
    }
}

/// The number of pours asked for on the pour question: the number `text`
/// writes (`usize`'s `parse`), or 1 where it writes none.
pub fn parse_pour_number(text: &str) -> (r: usize)
    ensures
        r == pour_number_of(text@),
{
    let ghost s = text@;
    let len = text.unicode_len();
    let start: usize = if len > 0 && text.get_char(0) == '+' {
        1
    } else {
        0
    };
    let ghost body = if start == 1 {
        s.drop_first()
    } else {
        s
    };
    assert(body =~= s.subrange(start as int, s.len() as int));
    if start >= len {
        return 1;
    }
    let mut value: usize = 0;
    let mut i: usize = start;
    while i < len
        invariant
            start <= i <= len,
            s == text@,
            len == s.len(),
            body == (if s.len() > 0 && s[0] == '+' {
                s.drop_first()
            } else {
                s
            }),
            body =~= s.subrange(start as int, s.len() as int),
            forall|j: int| 0 <= j < i - start ==> is_digit(#[trigger] body[j]),
            value == digits_value(body.take(i - start)),
        decreases len - i,
    {
        let c = text.get_char(i);
        assert(c == body[i - start]);
        if !('0' <= c && c <= '9') {
            assert(!is_digit(body[i - start]));
            assert(!all_digits(body));
            assert(parsed_usize(s) is None);
            return 1;
        }
        let d: usize = (c as u32 - '0' as u32) as usize;
        proof {
            lemma_digits_value_nonneg(body.take(i - start));
            assert(d == c as int - '0' as int);
            assert(is_digit(body[i - start]));
            assert(body.take(i + 1 - start).drop_last() =~= body.take(i - start));
            assert(body.take(i + 1 - start).last() == c);
        }
        match value.checked_mul(10) {
            Some(v10) => match v10.checked_add(d) {
                Some(v) => {
                    value = v;
                },
                None => {
                    proof {
                        lemma_too_big_prefix(body, i - start);
                    }
                    return 1;
                },
            },
            None => {
                proof {
                    lemma_too_big_prefix(body, i - start);
                }
                return 1;
            },
        }
        i = i + 1;
    }
    assert(body.take(len - start) =~= body);
    value
}

} // verus!

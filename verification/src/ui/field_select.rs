//! The field selection screen: a cursor over all fields, toggling which are selected.
use crate::app::App;
use crate::engine::{copy_strings, views};
use vstd::prelude::*;

verus! {

/// `x` clamped to `[lo, hi]`.
pub open spec fn clamp_int(x: int, lo: int, hi: int) -> int {
    if x < lo {
        lo
    } else if x > hi {
        hi
    } else {
        x
    }
}

/// Moves the field cursor by `delta`, staying on the list of fields. The count of fields
/// and the cursor are taken as `i32` (truncating), as the list widget counts them; the
/// count must not come out negative, and the move must stay in the range of `i32`.
pub fn move_cursor<E>(app: &mut App<E>, delta: i32)
    requires
        (old(app).all_fields@.len() as i32) >= 0,
        i32::MIN <= (old(app).meta_scroll as i32) + delta <= i32::MAX,
    ensures
        (old(app).all_fields@.len() as i32) == 0 ==> *final(app) == *old(app),
        (old(app).all_fields@.len() as i32) > 0 ==> *final(app) == (App {
            meta_scroll: clamp_int(
                (old(app).meta_scroll as i32) + delta,
                0,
                (old(app).all_fields@.len() as i32) - 1,
            ) as usize,
            ..*old(app)
        }),
{
    let max = #[verifier::truncate] (app.all_fields.len() as i32);
    if max == 0 {
        return ;
    }
    let cur = #[verifier::truncate] (app.meta_scroll as i32);
    let sum = cur + delta;
    let new = if sum < 0 {
        0
    } else if sum > max - 1 {
        max - 1
    } else {
        sum
    };
    app.meta_scroll = new as usize;
}

fn position_of(v: &Vec<String>, name: &String) -> (r: Option<usize>)
    ensures
        r matches Some(i) ==> i < v@.len() && v@[i as int]@ == name@ && forall|j: int|
            0 <= j < i ==> v@[j]@ != name@,
        r is None ==> forall|j: int| 0 <= j < v@.len() ==> v@[j]@ != name@,
{
    let mut i: usize = 0;
    while i < v.len()
        invariant
            i <= v@.len(),
            forall|j: int| 0 <= j < i ==> v@[j]@ != name@,
        decreases v@.len() - i,
    {
        if v[i] == *name {
            return Some(i);
        }
        i = i + 1;
    }
    None
}

/// Toggles whether the field under the cursor is selected: a selected field leaves the
/// selection (its first occurrence), another one joins it at the end.
pub fn toggle_current<E>(app: &mut App<E>)
    ensures
        old(app).meta_scroll >= old(app).all_fields@.len() ==> *final(app) == *old(app),
        old(app).meta_scroll < old(app).all_fields@.len() ==> {
            let name = old(app).all_fields@[old(app).meta_scroll as int]@;
            let sel = views(old(app).selected_fields@);
            &&& *final(app) == (App { selected_fields: final(app).selected_fields, ..*old(app) })
            &&& (exists|i: int| 0 <= i < sel.len() && sel[i] == name) ==> exists|p: int|
                0 <= p < sel.len() && sel[p] == name && (forall|j: int| 0 <= j < p ==> sel[j]
                    != name) && views(final(app).selected_fields@) == sel.remove(p)
            &&& !(exists|i: int| 0 <= i < sel.len() && sel[i] == name) ==> views(
                final(app).selected_fields@,
            ) == sel.push(name)
        },
{
    let idx = app.meta_scroll;
    if idx < app.all_fields.len() {
        let field = app.all_fields[idx].clone();
        match position_of(&app.selected_fields, &field) {
            Some(pos) => {
                let ghost before = app.selected_fields@;
                app.selected_fields.remove(pos);
                assert(views(app.selected_fields@) =~= views(before).remove(pos as int));
                assert(views(before)[pos as int] == field@);
                assert(forall|j: int| 0 <= j < pos ==> views(before)[j] != field@);
            },
            None => {
                let ghost before = app.selected_fields@;
                assert(!(exists|i: int| 0 <= i < views(before).len() && views(before)[i]
                    == field@));
                app.selected_fields.push(field);
                assert(views(app.selected_fields@) =~= views(before).push(
                    app.all_fields@[idx as int]@,
                ));
            },
        }
    }
}

/// Selects every field, in the order of the file.
pub fn select_all<E>(app: &mut App<E>)
    ensures
        views(final(app).selected_fields@) == views(old(app).all_fields@),
        *final(app) == (App { selected_fields: final(app).selected_fields, ..*old(app) }),
{
    app.selected_fields = copy_strings(app.all_fields.as_slice());
}

/// Clears the selection.
pub fn select_none<E>(app: &mut App<E>)
    ensures
        final(app).selected_fields@.len() == 0,
        *final(app) == (App { selected_fields: final(app).selected_fields, ..*old(app) }),
{
    app.selected_fields = Vec::new();
}

/// The line of a field in the selection list.
pub open spec fn field_item_text(selected: bool, field: Seq<char>) -> Seq<char> {
    (if selected { "[x]"@ } else { "[ ]"@ }) + "  "@ + field
}

/// The lines of the field selection list, one per field in order, each with whether the
/// field is selected, and the position of the highlighted line: the field cursor, kept on
/// the list.
pub fn field_items<E>(app: &App<E>) -> (r: (Vec<(bool, String)>, usize))
    ensures
        r.0@.len() == app.all_fields@.len(),
        forall|i: int|
            0 <= i < r.0@.len() ==> {
                let sel = exists|j: int|
                    0 <= j < app.selected_fields@.len() && #[trigger] app.selected_fields@[j]@
                        == app.all_fields@[i]@;
                &&& (#[trigger] r.0@[i]).0 == sel
                &&& r.0@[i].1@ == field_item_text(sel, app.all_fields@[i]@)
            },
        r.1 == (if app.meta_scroll < app.all_fields@.len() {
            app.meta_scroll as int
        } else if app.all_fields@.len() > 0 {
            app.all_fields@.len() - 1
        } else {
            0
        }),
{
    let mut items: Vec<(bool, String)> = Vec::new();
    let mut i: usize = 0;
    while i < app.all_fields.len()
        invariant
            i <= app.all_fields@.len(),
            items@.len() == i,
            forall|k: int|
                0 <= k < i ==> {
                    let sel = exists|j: int|
                        0 <= j < app.selected_fields@.len() && #[trigger] app.selected_fields@[j]@
                            == app.all_fields@[k]@;
                    &&& (#[trigger] items@[k]).0 == sel
                    &&& items@[k].1@ == field_item_text(sel, app.all_fields@[k]@)
                },
        decreases app.all_fields@.len() - i,
    {
        let field = &app.all_fields[i];
        let found = position_of(&app.selected_fields, field);
        let selected = found.is_some();
        let mut line = if selected {
            String::from_str("[x]")
        } else {
            String::from_str("[ ]")
        };
        line.append("  ");
        line.append(field.as_str());
        proof {
            reveal_strlit("[x]");
            reveal_strlit("[ ]");
            if let Some(p) = found {
                assert(app.selected_fields@[p as int]@ == app.all_fields@[i as int]@);
            }
        }
        items.push((selected, line));
        i = i + 1;
    }
    let n = app.all_fields.len();
    let idx = if app.meta_scroll < n {
        app.meta_scroll
    } else if n > 0 {
        n - 1
    } else {
        0
    };
    (items, idx)
}

} // verus!

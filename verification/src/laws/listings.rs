//! Listings: which rows they have, in what order, and what each row says.

use crate::catalog::{list, summarize, summary_json, Recipe, RecipeSummary};
use crate::json::{Json, JsonTree};
use crate::sorting::{sort_by_name, Named};
use vstd::prelude::*;

verus! {

/// A recipe's row has the recipe's own name, description, app and number of steps, and the
/// names of its parameters, each as often as the recipe declares it, in ascending order.
pub proof fn row_sums_up_its_recipe(recipe: Recipe, row: RecipeSummary)
    requires
        call_ensures(summarize, (recipe,), row),
    ensures
        row.name@ == recipe.name@,
        row.description@ == recipe.description@,
        row.app is Some <==> recipe.app is Some,
        recipe.app is Some ==> row.app->Some_0@ == recipe.app->Some_0@,
        row.step_count == recipe.step_count,
        recipe.params is Some ==> row.params@.to_multiset()
            == recipe.params->Some_0@.to_multiset(),
        recipe.params is None ==> row.params@.len() == 0,
        forall|i: int, j: int|
            0 <= i <= j < row.params@.len() ==> crate::text::text_le(
                (#[trigger] row.params@[i])@,
                (#[trigger] row.params@[j])@,
            ),
{
    broadcast use vstd::seq_lib::group_to_multiset_ensures;

    assert(row.params@.to_multiset().len() == row.params@.len());
    assert forall|i: int, j: int| 0 <= i <= j < row.params@.len() implies crate::text::text_le(
        (#[trigger] row.params@[i])@,
        (#[trigger] row.params@[j])@,
    ) by {
        assert(crate::text::text_le(row.params@[i].name_of(), row.params@[j].name_of()));
    }
}

/// A listing has one row for each recipe and no other, the names in ascending order, recipes
/// of one name in their order, and each row says of its recipe what the recipe says. The
/// places tell which recipe each row is for.
pub proof fn listing_has_a_row_per_recipe(recipes: Vec<Recipe>, rows: Vec<RecipeSummary>) -> (places:
    Seq<int>)
    requires
        call_ensures(list, (recipes,), rows),
    ensures
        rows@.len() == recipes@.len(),
        places.len() == rows@.len(),
        forall|i: int| 0 <= i < places.len() ==> 0 <= #[trigger] places[i] < recipes@.len(),
        forall|i: int, j: int|
            0 <= i < j < places.len() ==> #[trigger] places[i] != #[trigger] places[j],
        forall|i: int, j: int|
            0 <= i < j < rows@.len() ==> crate::text::text_le(
                (#[trigger] rows@[i]).name@,
                (#[trigger] rows@[j]).name@,
            ) && (rows@[i].name@ == rows@[j].name@ ==> places[i] < places[j]),
        forall|i: int|
            #![trigger places[i]]
            #![trigger rows@[i]]
            0 <= i < rows@.len() ==> {
                let row = rows@[i];
                let recipe = recipes@[places[i]];
                &&& row.name@ == recipe.name@
                &&& row.description@ == recipe.description@
                &&& row.app is Some <==> recipe.app is Some
                &&& recipe.app is Some ==> row.app->Some_0@ == recipe.app->Some_0@
                &&& row.step_count == recipe.step_count
                &&& recipe.params is Some ==> row.params@.to_multiset()
                    == recipe.params->Some_0@.to_multiset()
                &&& recipe.params is None ==> row.params@.len() == 0
            },
        forall|i: int, a: int, b: int|
            0 <= i < rows@.len() && 0 <= a <= b < rows@[i].params@.len() ==> crate::text::text_le(
                (#[trigger] rows@[i].params@[a])@,
                (#[trigger] rows@[i].params@[b])@,
            ),
{
    broadcast use vstd::seq_lib::group_to_multiset_ensures;

    crate::catalog::listing_is_sorted_and_complete(rows@, recipes@);
    let places = choose|places: Seq<int>|
        crate::catalog::is_listed_from(rows@, recipes@, places);
    assert forall|i: int, a: int, b: int|
        0 <= i < rows@.len() && 0 <= a <= b < rows@[i].params@.len() implies crate::text::text_le(
        (#[trigger] rows@[i].params@[a])@,
        (#[trigger] rows@[i].params@[b])@,
    ) by {
        assert(0 <= places[i]);
        assert(crate::catalog::sums_up(rows@[i], recipes@[places[i]]));
        assert(crate::text::text_le(
            rows@[i].params@[a].name_of(),
            rows@[i].params@[b].name_of(),
        ));
    }
    assert forall|i: int| 0 <= i < rows@.len() implies {
        let row = rows@[i];
        let recipe = recipes@[#[trigger] places[i]];
        recipe.params is None ==> row.params@.len() == 0
    } by {
        assert(rows@[i].params@.to_multiset().len() == rows@[i].params@.len());
    }
    assert forall|i: int, j: int| 0 <= i < j < rows@.len() implies crate::text::text_le(
        (#[trigger] rows@[i]).name@,
        (#[trigger] rows@[j]).name@,
    ) && (rows@[i].name@ == rows@[j].name@ ==> places[i] < places[j]) by {
        assert(places[i] != places[j]);
    }
    places
}

/// Sorting gives back the same items, each as often as before, in the order of their names,
/// items of one name in their order. The places tell where each item stood.
pub proof fn sorting_reorders<T: Named>(before: Vec<T>, after: Vec<T>) -> (places: Seq<int>)
    requires
        call_ensures(sort_by_name::<T>, (before,), after),
    ensures
        after@.len() == before@.len(),
        places.len() == after@.len(),
        forall|i: int|
            0 <= i < places.len() ==> 0 <= #[trigger] places[i] < before@.len() && after@[i]
                == before@[places[i]],
        forall|i: int, j: int|
            0 <= i < j < places.len() ==> {
                &&& #[trigger] places[i] != #[trigger] places[j]
                &&& crate::text::text_le(after@[i].name_of(), after@[j].name_of())
                &&& after@[i].name_of() == after@[j].name_of() ==> places[i] < places[j]
            },
{
    choose|places: Seq<int>| crate::sorting::is_reordering(before@, after@, places)
}

/// Recipes are listed by their names, and parameters by themselves.
pub proof fn names_are_what_is_sorted_by(recipe: Recipe, param: String)
    ensures
        recipe.name_of() == recipe.name@,
        param.name_of() == param@,
{
}

/// A row is written with its own columns, whatever the others are: the name and the
/// description, the app or null, the names of the parameters in their order, the number of
/// steps, and nothing else.
pub proof fn row_is_written_column_by_column(row: RecipeSummary, document: Json)
    requires
        call_ensures(summary_json, (&row,), document),
    ensures
        document@.field("name"@) == Some(JsonTree::Text(row.name@)),
        document@.field("description"@) == Some(JsonTree::Text(row.description@)),
        row.app is Some ==> document@.field("app"@) == Some(JsonTree::Text(row.app->Some_0@)),
        row.app is None ==> document@.field("app"@) == Some(JsonTree::Null),
        document@.field("step_count"@) == Some(JsonTree::Natural(row.step_count as nat)),
        document@.field("params"@) is Some,
        document@.field("params"@)->Some_0 is Array,
        document@.field("params"@)->Some_0->Array_0.len() == row.params@.len(),
        forall|i: int|
            0 <= i < row.params@.len()
                ==> #[trigger] document@.field("params"@)->Some_0->Array_0[i] == JsonTree::Text(
                row.params@[i]@,
            ),
        document@ is Object,
        document@->Object_0.dom() == set![
            "name"@,
            "description"@,
            "app"@,
            "params"@,
            "step_count"@,
        ],
{
    reveal_strlit("name");
    reveal_strlit("description");
    reveal_strlit("app");
    reveal_strlit("params");
    reveal_strlit("step_count");
    assert("name"@.len() == 4 && "description"@.len() == 11 && "app"@.len() == 3);
    assert("params"@.len() == 6 && "step_count"@.len() == 10);
    assert(document@->Object_0.dom() =~= set![
        "name"@,
        "description"@,
        "app"@,
        "params"@,
        "step_count"@,
    ]);
}

} // verus!

//! The list of installed recipes.

use crate::json::{Json, JsonObject, JsonTree};
use crate::sorting::{sort_by_name, Named};
use vstd::prelude::*;

verus! {

/// What a listing reads of an installed recipe.
#[derive(Debug, PartialEq)]
pub struct Recipe {
    pub name: String,
    pub description: String,
    pub app: Option<String>,
    /// The names of the declared parameters, in any order.
    pub params: Option<Vec<String>>,
    pub step_count: usize,
}

/// A compact recipe row for the list view.
#[derive(Debug, PartialEq)]
pub struct RecipeSummary {
    pub name: String,
    pub description: String,
    pub app: Option<String>,
    /// The names of the recipe's declared parameters (the `{{param}}` slots), sorted.
    pub params: Vec<String>,
    pub step_count: usize,
}

impl Named for Recipe {
    open spec fn name_of(self) -> Seq<char> {
        self.name@
    }

    fn name_text(&self) -> (name: &str) {
        self.name.as_str()
    }
}

/// The parameters that a recipe declares.
pub open spec fn declared(recipe: Recipe) -> Seq<String> {
    match recipe.params {
        Some(params) => params@,
        None => Seq::empty(),
    }
}

/// Whether `row` sums up `recipe`: the same but for the parameters, which are sorted.
pub open spec fn sums_up(row: RecipeSummary, recipe: Recipe) -> bool {
    &&& row.name == recipe.name
    &&& row.description == recipe.description
    &&& row.app == recipe.app
    &&& row.step_count == recipe.step_count
    &&& crate::sorting::stably_sorted(declared(recipe), row.params@)
}

/// Whether there is one row for each recipe, in order.
pub open spec fn rows_of(rows: Seq<RecipeSummary>, recipes: Seq<Recipe>) -> bool {
    &&& rows.len() == recipes.len()
    &&& forall|i: int| 0 <= i < rows.len() ==> sums_up(#[trigger] rows[i], recipes[i])
}

/// Whether `rows` is the listing of `recipes`: a row for each, sorted by name, recipes of one
/// name in their order.
pub open spec fn is_listing(rows: Seq<RecipeSummary>, recipes: Seq<Recipe>) -> bool {
    exists|order: Seq<Recipe>| #[trigger]
        crate::sorting::stably_sorted(recipes, order) && rows_of(rows, order)
}

/// Whether `places` says which recipe each row sums up: every recipe once, and those of one
/// name in their order.
pub open spec fn is_listed_from(
    rows: Seq<RecipeSummary>,
    recipes: Seq<Recipe>,
    places: Seq<int>,
) -> bool {
    &&& places.len() == rows.len()
    &&& rows.len() == recipes.len()
    &&& forall|i: int|
        0 <= i < places.len() ==> 0 <= #[trigger] places[i] < recipes.len() && sums_up(
            rows[i],
            recipes[places[i]],
        )
    &&& forall|i: int, j: int|
        0 <= i < j < places.len() ==> #[trigger] places[i] != #[trigger] places[j] && (
        rows[i].name@ == rows[j].name@ ==> places[i] < places[j])
}

/// Sums up a recipe.
pub fn summarize(recipe: Recipe) -> (row: RecipeSummary)
    ensures
        sums_up(row, recipe),
{
    let params = match recipe.params {
        Some(params) => params,
        None => Vec::new(),
    };
    RecipeSummary {
        name: recipe.name,
        description: recipe.description,
        app: recipe.app,
        params: sort_by_name(params),
        step_count: recipe.step_count,
    }
}

/// Lists every installed recipe (summary form).
pub fn list(recipes: Vec<Recipe>) -> (rows: Vec<RecipeSummary>)
    ensures
        is_listing(rows@, recipes@),
        exists|places: Seq<int>| is_listed_from(rows@, recipes@, places),
{
    let ghost all = recipes@;
    let ordered = sort_by_name(recipes);
    let ghost order = ordered@;
    let mut rows: Vec<RecipeSummary> = Vec::new();
    for recipe in it: ordered
        invariant
            it.seq() == order,
            rows@.len() == it.index(),
            forall|i: int| 0 <= i < it.index() ==> sums_up(#[trigger] rows@[i], order[i]),
    {
        rows.push(summarize(recipe));
    }
    assert(rows_of(rows@, order));
    proof {
        let places = choose|places: Seq<int>| crate::sorting::is_reordering(all, order, places);
        assert forall|i: int, j: int| 0 <= i < j < places.len() implies #[trigger] places[i]
            != #[trigger] places[j] && (rows@[i].name@ == rows@[j].name@ ==> places[i]
            < places[j]) by {
            assert(sums_up(rows@[i], order[i]) && sums_up(rows@[j], order[j]));
        }
        assert forall|i: int| 0 <= i < places.len() implies 0 <= #[trigger] places[i] < all.len()
            && sums_up(rows@[i], all[places[i]]) by {
            assert(sums_up(rows@[i], order[i]));
        }
        assert(is_listed_from(rows@, all, places));
    }
    rows
}

/// Whether `row` sums up one of `recipes`.
pub open spec fn sums_up_some(row: RecipeSummary, recipes: Seq<Recipe>) -> bool {
    exists|k: int| 0 <= k < recipes.len() && sums_up(row, #[trigger] recipes[k])
}

/// Whether one of `rows` sums up `recipe`.
pub open spec fn is_summed_up(recipe: Recipe, rows: Seq<RecipeSummary>) -> bool {
    exists|i: int| 0 <= i < rows.len() && sums_up(#[trigger] rows[i], recipe)
}

/// A listing has as many rows as there are recipes, its names ascend, every row sums up a
/// recipe and every recipe is summed up.
pub proof fn listing_is_sorted_and_complete(rows: Seq<RecipeSummary>, recipes: Seq<Recipe>)
    requires
        is_listing(rows, recipes),
    ensures
        rows.len() == recipes.len(),
        forall|i: int, j: int|
            0 <= i <= j < rows.len() ==> crate::text::text_le(
                (#[trigger] rows[i]).name@,
                (#[trigger] rows[j]).name@,
            ),
        forall|i: int| 0 <= i < rows.len() ==> sums_up_some(#[trigger] rows[i], recipes),
        forall|k: int| 0 <= k < recipes.len() ==> is_summed_up(#[trigger] recipes[k], rows),
{
    broadcast use vstd::seq_lib::group_to_multiset_ensures;

    let order = choose|order: Seq<Recipe>| #[trigger]
        crate::sorting::stably_sorted(recipes, order) && rows_of(rows, order);
    assert(recipes.to_multiset().len() == order.to_multiset().len());
    assert forall|i: int, j: int| 0 <= i <= j < rows.len() implies crate::text::text_le(
        (#[trigger] rows[i]).name@,
        (#[trigger] rows[j]).name@,
    ) by {
        assert(sums_up(rows[i], order[i]) && sums_up(rows[j], order[j]));
        assert(crate::text::text_le(order[i].name_of(), order[j].name_of()));
    }
    assert forall|i: int| 0 <= i < rows.len() implies sums_up_some(#[trigger] rows[i], recipes) by {
        assert(order.contains(order[i]));
        assert(recipes.to_multiset().count(order[i]) > 0);
        assert(recipes.contains(order[i]));
        let k = choose|k: int| 0 <= k < recipes.len() && recipes[k] == order[i];
        assert(sums_up(rows[i], recipes[k]));
    }
    assert forall|k: int| 0 <= k < recipes.len() implies is_summed_up(
        #[trigger] recipes[k],
        rows,
    ) by {
        assert(recipes.contains(recipes[k]));
        assert(order.to_multiset().count(recipes[k]) > 0);
        assert(order.contains(recipes[k]));
        let i = choose|i: int| 0 <= i < order.len() && order[i] == recipes[k];
        assert(sums_up(rows[i], recipes[k]));
    }
}

/// Whether two rows say the same.
pub open spec fn same_row(a: RecipeSummary, b: RecipeSummary) -> bool {
    &&& a.name == b.name
    &&& a.description == b.description
    &&& a.app == b.app
    &&& a.params@ == b.params@
    &&& a.step_count == b.step_count
}

/// There is one listing of a run of recipes.
pub proof fn listing_is_determined(
    a: Seq<RecipeSummary>,
    b: Seq<RecipeSummary>,
    recipes: Seq<Recipe>,
)
    requires
        is_listing(a, recipes),
        is_listing(b, recipes),
    ensures
        a.len() == b.len(),
        forall|i: int| 0 <= i < a.len() ==> same_row(#[trigger] a[i], b[i]),
{
    let order_a = choose|order: Seq<Recipe>| #[trigger]
        crate::sorting::stably_sorted(recipes, order) && rows_of(a, order);
    let order_b = choose|order: Seq<Recipe>| #[trigger]
        crate::sorting::stably_sorted(recipes, order) && rows_of(b, order);
    crate::sorting::stable_sort_is_determined(recipes, order_a, order_b);
    assert forall|i: int| 0 <= i < a.len() implies same_row(#[trigger] a[i], b[i]) by {
        assert(sums_up(a[i], order_a[i]) && sums_up(b[i], order_b[i]));
        crate::sorting::stable_sort_is_determined(
            declared(order_a[i]),
            a[i].params@,
            b[i].params@,
        );
    }
}

/// The document of a row.
pub open spec fn summary_tree(row: RecipeSummary) -> JsonTree {
    JsonTree::Object(
        map![
            "name"@ => JsonTree::Text(row.name@),
            "description"@ => JsonTree::Text(row.description@),
            "app"@ => crate::json::text_or_null(crate::text::string_view(row.app)),
            "params"@ => JsonTree::Array(
                row.params@.map_values(|param: String| JsonTree::Text(param@)),
            ),
            "step_count"@ => JsonTree::Natural(row.step_count as nat),
        ],
    )
}

/// Writes a row as a document.
pub fn summary_json(row: &RecipeSummary) -> (json: Json)
    ensures
        json@ == summary_tree(*row),
{
    let mut params: Vec<Json> = Vec::new();
    let mut i: usize = 0;
    while i < row.params.len()
        invariant
            i <= row.params@.len(),
            params@.len() == i,
            forall|k: int|
                0 <= k < i ==> #[trigger] params@[k]@ == JsonTree::Text(row.params@[k]@),
        decreases row.params@.len() - i,
    {
        params.push(Json::text(row.params[i].as_str()));
        i = i + 1;
    }
    proof {
        crate::json::array_tree(params);
        assert(crate::json::trees(params@) =~= row.params@.map_values(
            |param: String| JsonTree::Text(param@),
        ));
    }
    Json::Object(
        JsonObject::new().with("name", Json::text(row.name.as_str())).with(
            "description",
            Json::text(row.description.as_str()),
        ).with("app", Json::text_or_null(&row.app)).with("params", Json::Array(params)).with(
            "step_count",
            Json::natural(row.step_count as u64),
        ),
    )
}

} // verus!

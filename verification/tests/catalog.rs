use ryu_recipes::catalog::summarize;
use ryu_recipes::sorting::sort_by_name;
use ryu_recipes::{list, Recipe};

fn recipe(name: &str, description: &str) -> Recipe {
    Recipe {
        name: name.to_string(),
        description: description.to_string(),
        app: None,
        params: None,
        step_count: 1,
    }
}

fn texts(items: &[&str]) -> Vec<String> {
    items.iter().map(|s| s.to_string()).collect()
}

#[test]
fn list_sorts_by_name() {
    let rows = list(vec![recipe("zebra", ""), recipe("alpha", ""), recipe("mango", "")]);
    let names: Vec<&str> = rows.iter().map(|row| row.name.as_str()).collect();
    assert_eq!(names, ["alpha", "mango", "zebra"]);
}

#[test]
fn list_keeps_recipes_of_one_name_in_order() {
    let rows = list(vec![recipe("b", "1"), recipe("a", "2"), recipe("b", "3"), recipe("a", "4")]);
    let order: Vec<&str> = rows.iter().map(|row| row.description.as_str()).collect();
    assert_eq!(order, ["2", "4", "1", "3"]);
}

#[test]
fn list_of_nothing_is_empty() {
    assert_eq!(list(vec![]), vec![]);
}

#[test]
fn summarize_sorts_the_parameters() {
    let row = summarize(Recipe {
        app: Some("Mail".to_string()),
        params: Some(texts(&["to", "Cc", "body"])),
        step_count: 4,
        ..recipe("send", "sends")
    });
    assert_eq!(row.name, "send");
    assert_eq!(row.description, "sends");
    assert_eq!(row.app.as_deref(), Some("Mail"));
    assert_eq!(row.params, texts(&["Cc", "body", "to"]));
    assert_eq!(row.step_count, 4);
    assert_eq!(summarize(recipe("x", "")).params, texts(&[]));
}

#[test]
fn the_order_is_that_of_the_standard_library() {
    let mut items = texts(&[
        "b", "a", "", "ab", "B", "\u{e9}", "z", "aa", "\u{1f600}", "\u{ffff}", "a", "\u{80}",
    ]);
    let sorted = sort_by_name(items.clone());
    items.sort();
    assert_eq!(sorted, items);
}

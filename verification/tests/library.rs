use mrml::condition::{mso_conditional_tag, mso_negation_conditional_tag};
use mrml::hash::{OrderedMap, OrderedSet};
use mrml::print::{attributes, close, indent, open, print_text_element};
use mrml::style::Style;
use mrml::tag::Tag;
use mrml::text::{compare_texts, decimal, join, leading_digits, same_text};
use mrml::util::{sort_by_key, sort_entries};
use std::cmp::Ordering;

#[test]
fn sort_by_key_orders_by_name() {
    let (a, b, x, y) = (
        "align".to_string(),
        "border".to_string(),
        "1".to_string(),
        "2".to_string(),
    );
    assert_eq!(Ordering::Less, sort_by_key(&(&a, &x), &(&b, &y)));
    assert_eq!(Ordering::Greater, sort_by_key(&(&b, &x), &(&a, &y)));
    assert_eq!(Ordering::Equal, sort_by_key(&(&a, &x), &(&a, &y)));
    let (short, long) = ("ab".to_string(), "abc".to_string());
    assert_eq!(Ordering::Less, sort_by_key(&(&short, &x), &(&long, &x)));
}

#[test]
fn sort_entries_is_stable_and_ordered() {
    let (n, h, n2) = ("name".to_string(), "href".to_string(), "name".to_string());
    let (v1, v2, v3) = ("1".to_string(), "2".to_string(), "3".to_string());
    let entries = vec![(&n, &v1), (&h, &v2), (&n2, &v3)];
    let sorted = sort_entries(&entries);
    let flat: Vec<(String, String)> =
        sorted.iter().map(|(k, v)| (k.to_string(), v.to_string())).collect();
    assert_eq!(
        vec![
            ("href".to_string(), "2".to_string()),
            ("name".to_string(), "1".to_string()),
            ("name".to_string(), "3".to_string()),
        ],
        flat
    );
}

#[test]
fn ordered_map_keeps_insertion_order_and_replaces() {
    let mut map = OrderedMap::new();
    assert!(map.is_empty());
    map.insert("b".to_string(), "1".to_string());
    map.insert("a".to_string(), "2".to_string());
    map.insert("b".to_string(), "3".to_string());
    assert_eq!(2, map.len());
    assert_eq!(Some(&"3".to_string()), map.get("b"));
    assert_eq!(Some(&"2".to_string()), map.get("a"));
    assert_eq!(None, map.get("c"));
    let keys: Vec<String> = map.iter().iter().map(|(k, _)| k.to_string()).collect();
    assert_eq!(vec!["b".to_string(), "a".to_string()], keys);
    assert_eq!(0, OrderedMap::default().len());
}

#[test]
fn ordered_set_keeps_first_insertion() {
    let mut set = OrderedSet::default();
    assert!(set.insert("x".to_string()));
    assert!(set.insert("y".to_string()));
    assert!(!set.insert("x".to_string()));
    assert_eq!(2, set.len());
    assert!(set.contains("y"));
    assert!(!set.contains("z"));
    assert!(!set.is_empty());
    let items: Vec<String> = set.iter().iter().map(|s| s.to_string()).collect();
    assert_eq!(vec!["x".to_string(), "y".to_string()], items);
}

#[test]
fn tag_renders_attributes_classes_and_styles() {
    let tag = Tag::div()
        .add_attribute("id", "main")
        .add_class("a")
        .maybe_add_class(None)
        .add_class("b")
        .add_class("a")
        .add_style("color", "red")
        .maybe_add_style("width", Some("10px"))
        .maybe_add_attribute("title", None)
        .add_style("color", "blue");
    assert_eq!(
        "<div id=\"main\" class=\"a b\" style=\"color:blue;width:10px;\">x</div>",
        tag.render("x")
    );
    assert_eq!("<div id=\"main\" class=\"a b\" style=\"color:blue;width:10px;\" />", tag.closed());
    assert_eq!("</div>", tag.close());
    assert_eq!("<td>", Tag::td().open());
    assert_eq!("<tr></tr>", Tag::tr().render(""));
    assert_eq!("<tbody></tbody>", Tag::tbody().render(""));
    assert_eq!(
        "<table border=\"0\" cellpadding=\"0\" cellspacing=\"0\" role=\"presentation\">",
        Tag::table_presentation().open()
    );
    assert_eq!("<span>", Tag::new("span").open());
}

#[test]
fn style_joins_selectors_and_content() {
    let style = Style::new()
        .add_str_selector(".a")
        .add_selector(".b".to_string())
        .add_str_content("color: red;")
        .add_content("width: 1px;".to_string());
    assert_eq!(".a,\n.b { color: red;\nwidth: 1px; }", style.to_string());
    assert_eq!(" {  }", Style::default().to_string());
}

#[test]
fn conditional_comments() {
    assert_eq!("<!--[if mso | IE]>x<![endif]-->", mso_conditional_tag("x"));
    assert_eq!("<!--[if !mso | IE]><!-->x<!--<![endif]-->", mso_negation_conditional_tag("x"));
}

#[test]
fn text_helpers() {
    assert_eq!("0", decimal(0));
    assert_eq!("1207", decimal(1207));
    assert_eq!("18446744073709551615", decimal(usize::MAX));
    assert_eq!("44", leading_digits("44px"));
    assert_eq!("", leading_digits("px"));
    assert_eq!("a, b", join(&vec!["a".to_string(), "b".to_string()], ", "));
    assert_eq!("", join(&vec![], ", "));
    assert!(same_text("abc", "abc"));
    assert!(!same_text("abc", "abd"));
    assert_eq!(-1, compare_texts("abc", "abd"));
    assert_eq!(0, compare_texts("abc", "abc"));
    assert_eq!(1, compare_texts("b", "abc"));
    assert_eq!(-1, compare_texts("", "a"));
}

#[test]
fn print_helpers() {
    let mut attrs = OrderedMap::new();
    attrs.insert("name".to_string(), "Comic".to_string());
    attrs.insert("href".to_string(), "x".to_string());
    assert_eq!(" href=\"x\" name=\"Comic\"", attributes(&attrs));
    assert_eq!("    <mj-font href=\"x\" name=\"Comic\" />\n", open("mj-font", Some(&attrs), true, true, 2, 2));
    assert_eq!("<mj-head>", open("mj-head", None, false, false, 3, 2));
    assert_eq!("</mj-head>", close("mj-head", false, 1, 2));
    assert_eq!("   x\n", indent(1, 3, "x"));
    assert_eq!("  <mj-title>T</mj-title>\n", print_text_element("mj-title", "T", true, 1, 2));
}

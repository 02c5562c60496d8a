use mrml::hash::OrderedMap;
use mrml::mj_head::{
    Comment, MJAttributes, MJAttributesAll, MJAttributesChild, MJBreakpoint, MJFont, MJHead,
    MJHeadChild, MJPreview, MJRaw, MJStyle, MJTitle,
};
use mrml::print::Print;

#[test]
fn print_empty() {
    let item = MJHead::default();
    assert_eq!("<mj-head></mj-head>", item.dense_print());
}

fn attributes(pairs: &[(&str, &str)]) -> OrderedMap {
    let mut map = OrderedMap::new();
    for (k, v) in pairs {
        map.insert(k.to_string(), v.to_string());
    }
    map
}

#[test]
fn with_all() {
    // The head of the document below, built by calls in the order the
    // document gives it.
    let origin = r#"<mjml>
  <mj-head>
    <mj-attributes>
      <mj-all font-size="12px" />
    </mj-attributes>
    <mj-breakpoint width="12px" />
    <mj-font href="https://jolimail.io" name="Comic" />
    <mj-preview>Hello World with all!</mj-preview>
    <mj-title>Hello World!</mj-title>
  </mj-head>
</mjml>
"#;
    let mut head = MJHead::default();
    head.children.push(MJHeadChild::MJAttributes(MJAttributes {
        children: vec![MJAttributesChild::MJAttributesAll(MJAttributesAll {
            attributes: attributes(&[("font-size", "12px")]),
        })],
    }));
    head.children
        .push(MJHeadChild::MJBreakpoint(MJBreakpoint { width: "12px".to_string() }));
    head.children.push(MJHeadChild::MJFont(MJFont {
        attributes: attributes(&[("name", "Comic"), ("href", "https://jolimail.io")]),
    }));
    head.children.push(MJHeadChild::MJPreview(MJPreview {
        children: "Hello World with all!".to_string(),
    }));
    head.children
        .push(MJHeadChild::MJTitle(MJTitle::from("Hello World!")));
    let printed = format!("<mjml>\n{}</mjml>\n", head.print(true, 1, 2));
    assert_eq!(origin, printed);
    assert_eq!(head.breakpoint().unwrap().value(), "12px");
    assert_eq!(head.preview().unwrap().content(), "Hello World with all!");
    assert_eq!(head.title().unwrap().content(), "Hello World!");
    assert_eq!(head.children().len(), 5);
}

#[test]
fn with_title() {
    let mut item = MJHead::default();
    item.children
        .push(MJHeadChild::MJTitle(MJTitle::from("Hello World!")));
    assert_eq!(
        "<mj-head><mj-title>Hello World!</mj-title></mj-head>",
        item.dense_print()
    );
}

#[test]
fn pretty_print_empty_head() {
    let item = MJHead::default();
    assert_eq!("<mj-head>\n</mj-head>\n", item.pretty_print());
}

#[test]
fn dense_print_is_the_same_at_every_level() {
    let mut item = MJHead::default();
    item.children.push(MJHeadChild::MJAttributes(MJAttributes {
        children: vec![MJAttributesChild::MJAttributesAll(MJAttributesAll {
            attributes: attributes(&[("color", "red")]),
        })],
    }));
    item.children
        .push(MJHeadChild::Comment(Comment { children: " note ".to_string() }));
    let dense = item.dense_print();
    assert_eq!(
        "<mj-head><mj-attributes><mj-all color=\"red\" /></mj-attributes><!-- note --></mj-head>",
        dense
    );
    assert_eq!(dense, item.print(false, 5, 4));
}

#[test]
fn print_each_kind_of_child() {
    let mut item = MJHead::default();
    item.children
        .push(MJHeadChild::Comment(Comment { children: "c".to_string() }));
    item.children.push(MJHeadChild::MJRaw(MJRaw { children: "<p>raw</p>".to_string() }));
    item.children.push(MJHeadChild::MJStyle(MJStyle {
        attributes: attributes(&[("inline", "inline")]),
        children: "p { color: red; }".to_string(),
    }));
    assert_eq!(
        "<mj-head>\n  <!--c-->\n  <mj-raw><p>raw</p></mj-raw>\n  <mj-style inline=\"inline\">p { color: red; }</mj-style>\n</mj-head>\n",
        item.pretty_print()
    );
    assert!(item.preview().is_none());
    assert!(item.title().is_none());
    assert!(item.breakpoint().is_none());
    assert_eq!(item.children[1].as_print().dense_print(), "<mj-raw><p>raw</p></mj-raw>");
}

#[test]
fn first_preview_and_title_win() {
    let mut item = MJHead::default();
    item.children.push(MJHeadChild::MJPreview(MJPreview { children: "one".to_string() }));
    item.children.push(MJHeadChild::MJTitle(MJTitle::from("first")));
    item.children.push(MJHeadChild::MJPreview(MJPreview { children: "two".to_string() }));
    item.children.push(MJHeadChild::MJTitle(MJTitle::from("second")));
    assert_eq!(item.preview().unwrap().content(), "one");
    assert_eq!(item.title().unwrap().content(), "first");
}

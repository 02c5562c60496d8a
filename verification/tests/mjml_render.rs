use mrml::hash::OrderedMap;
use mrml::mj_body::{MJBody, MJBodyChild};
use mrml::mj_button::MJButton;
use mrml::mj_head::{MJHead, MJHeadChild, MJPreview};
use mrml::mjml::MJML;
use mrml::prelude::{Header, Render, Renderable};

const DOCUMENT: &str = "<!doctype html><html xmlns=\"http://www.w3.org/1999/xhtml\" xmlns:v=\"urn:schemas-microsoft-com:vml\" xmlns:o=\"urn:schemas-microsoft-com:office:office\"></html>";

#[test]
fn render_empty() {
    let elt = MJML::default();
    assert_eq!("<!doctype html><html xmlns=\"http://www.w3.org/1999/xhtml\" xmlns:v=\"urn:schemas-microsoft-com:vml\" xmlns:o=\"urn:schemas-microsoft-com:office:office\"></html>", elt.render().unwrap());
}

#[test]
fn render_with_body_gives_the_same_document() {
    let mut body = MJBody::default();
    body.attributes
        .insert("background-color".to_string(), "#fff".to_string());
    body.children.push(MJBodyChild::MJButton(MJButton {
        attributes: OrderedMap::new(),
        children: "Click".to_string(),
    }));
    let elt = MJML { head: Some(MJHead::default()), body: Some(body) };
    assert_eq!(DOCUMENT, elt.render().unwrap());
    assert!(elt.head().is_some());
    assert!(elt.body().is_some());
}

fn head_with_preview(text: &str) -> Option<MJHead> {
    let mut head = MJHead::default();
    head.children.push(MJHeadChild::MJPreview(MJPreview { children: text.to_string() }));
    Some(head)
}

#[test]
fn body_renders_preview_style_and_class() {
    let head = head_with_preview("Hello preview");
    let header = Header::new(&head);
    let mut body = MJBody::default();
    body.attributes
        .insert("background-color".to_string(), "red".to_string());
    body.attributes
        .insert("css-class".to_string(), "main".to_string());
    let mut buf = String::from("before:");
    body.renderer(&header).render(&mut buf).unwrap();
    assert_eq!(
        "before:<body style=\"background-color:red\"><div style=\"display:none;font-size:1px;color:#ffffff;line-height:1px;max-height:0px;max-width:0px;opacity:0;overflow:hidden;\">Hello preview</div><div class=\"main\" style=\"background-color:red\"\"></div></body>",
        buf
    );
}

#[test]
fn body_without_head_or_attributes() {
    let head: Option<MJHead> = None;
    let header = Header::new(&head);
    let mut body = MJBody::default();
    body.children.push(MJBodyChild::MJButton(MJButton {
        attributes: OrderedMap::new(),
        children: "Click".to_string(),
    }));
    let mut buf = String::new();
    body.renderer(&header).render(&mut buf).unwrap();
    assert_eq!("<body><div\"></div></body>", buf);
}

#[test]
fn header_starts_empty_and_keeps_its_head() {
    let head = head_with_preview("x");
    let mut header = Header::new(&head);
    assert!(header.head().is_some());
    assert!(header.styles().is_empty());
    assert!(header.font_families().is_empty());
    header.maybe_add_style(Some("a { }".to_string()));
    header.maybe_add_style(None);
    header.maybe_add_style(Some("b { }".to_string()));
    header.maybe_add_style(Some("a { }".to_string()));
    header.add_font_family("Arial".to_string());
    header.add_font_family("Arial".to_string());
    let styles: Vec<String> = header.styles().iter().map(|s| s.to_string()).collect();
    assert_eq!(vec!["a { }".to_string(), "b { }".to_string()], styles);
    assert_eq!(1, header.font_families().len());
}

#[test]
fn button_renders_nothing() {
    let head: Option<MJHead> = None;
    let header = Header::new(&head);
    let button = MJButton { attributes: OrderedMap::new(), children: "Go".to_string() };
    let mut buf = String::from("kept");
    let mut renderer = button.renderer(&header);
    renderer.set_index(3);
    renderer.set_siblings(4);
    renderer.set_raw_siblings(1);
    renderer.render(&mut buf).unwrap();
    assert_eq!("kept", buf);
}

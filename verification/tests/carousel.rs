use mrml::hash::OrderedMap;
use mrml::mj_carousel::{repeat, MJCarousel, MJCarouselChild, MJCarouselRender};
use mrml::mj_carousel_image::MJCarouselImage;
use mrml::mj_head::{Comment, MJHead};
use mrml::prelude::{Error, Header};

const SRC: &str = "https://www.mailjet.com/wp-content/uploads/2019/07/Welcome-Discover-Img.png";
const LEFT: &str = "https://i.imgur.com/xTh3hln.png";
const RIGHT: &str = "https://i.imgur.com/os7o9kz.png";

fn map(pairs: &[(&str, &str)]) -> OrderedMap {
    let mut m = OrderedMap::new();
    for (k, v) in pairs {
        m.insert(k.to_string(), v.to_string());
    }
    m
}

fn image(pairs: &[(&str, &str)]) -> MJCarouselChild {
    MJCarouselChild::MJCarouselImage(MJCarouselImage { attributes: map(pairs) })
}

fn carousel(attrs: &[(&str, &str)], children: Vec<MJCarouselChild>) -> MJCarousel {
    MJCarousel { attributes: map(attrs), children }
}

fn render(
    element: &MJCarousel,
    thumbnails_width: &str,
    icon_width: Option<&str>,
) -> (String, Vec<String>) {
    let head: Option<MJHead> = None;
    let mut header = Header::new(&head);
    let renderer = MJCarouselRender::new(
        element,
        "cid".to_string(),
        thumbnails_width.to_string(),
        icon_width.map(|s| s.to_string()),
    );
    let html = renderer.render(&mut header).unwrap();
    let styles = header.styles().iter().map(|s| s.to_string()).collect();
    (html, styles)
}

fn radio(position: usize) -> String {
    format!(
        "<input{} type=\"radio\" name=\"mj-carousel-radio-cid\" id=\"mj-carousel-cid-radio-{p}\" class=\"mj-carousel-radio mj-carousel-cid-radio mj-carousel-cid-radio-{p}\" style=\"display:none;mso-hide:all;\" />",
        if position == 1 { " checked=\"checked\"" } else { "" },
        p = position
    )
}

fn thumbnail(position: usize, src: &str, border: &str, radius: &str, width: &str, number: &str) -> String {
    format!(
        "<a href=\"#{p}\" target=\"_blank\" class=\"mj-carousel-thumbnail mj-carousel-cid-thumbnail mj-carousel-cid-thumbnail-{p}\" style=\"border:{border};border-radius:{radius};display:inline-block;overflow:hidden;width:{width};\"><label for=\"mj-carousel-cid-radio-{p}\"><img src=\"{src}\" width=\"{number}\" style=\"display:block;width:100%;height:auto;\" /></label></a>",
        p = position
    )
}

fn controls(direction: &str, icon: &str, icon_width: &str, number: &str, count: usize) -> String {
    let mut labels = String::new();
    for i in 1..=count {
        labels.push_str(&format!(
            "<label for=\"mj-carousel-cid-radio-{i}\" class=\"mj-carousel-{direction} mj-carousel-{direction}-{i}\"><img src=\"{icon}\" alt=\"{direction}\" width=\"{number}\" style=\"display:block;width:{icon_width};height:auto;\" /></label>"
        ));
    }
    format!(
        "<td class=\"mj-carousel-cid-icons-cell\" style=\"font-size:0px;display:none;mso-hide:all;padding:0px;\"><div class=\"mj-carousel-{direction}-icons\" style=\"display:none;mso-hide:all;\">{labels}</div></td>"
    )
}

fn picture(position: usize, src: &str, radius: &str, class: Option<&str>) -> String {
    let classes = match class {
        Some(c) => format!("mj-carousel-image mj-carousel-image-{position} {c}"),
        None => format!("mj-carousel-image mj-carousel-image-{position}"),
    };
    let style = if position == 1 { "" } else { " style=\"display:none;mso-hide:all;\"" };
    format!(
        "<div class=\"{classes}\"{style}><img src=\"{src}\" border=\"0\" style=\"border-radius:{radius};display:block;max-width:100%;height:auto;\" /></div>"
    )
}

fn document(
    radios: &str,
    thumbnails: &str,
    previous: &str,
    pictures: &str,
    next: &str,
    fallback: &str,
) -> String {
    format!(
        "<!--[if !mso | IE]><!--><div class=\"mj-carousel\">{radios}<div class=\"mj-carousel-content mj-carousel-cid-content\" style=\"display:table;width:100%;table-layout:fixed;text-align:center;font-size:0px;\">{thumbnails}<table border=\"0\" cellpadding=\"0\" cellspacing=\"0\" role=\"presentation\" width=\"100%\" class=\"mj-carousel-main\" style=\"caption-side:top;display:table-caption;table-layout:fixed;width:100%;\"><tbody><tr>{previous}<td style=\"padding:0px;\"><div class=\"mj-carousel-images\">{pictures}</div></td>{next}</tr></tbody></table></div></div><!--<![endif]--><!--[if mso | IE]>{fallback}<![endif]-->"
    )
}

#[test]
fn basic() {
    let element = carousel(&[], vec![image(&[("src", SRC)]), image(&[("src", SRC)]), image(&[("src", SRC)])]);
    let (html, styles) = render(&element, "0px", Some("44"));
    let radios: String = (1..=3).map(radio).collect();
    let thumbnails: String = (1..=3)
        .map(|p| thumbnail(p, SRC, "2px solid transparent", "6px", "0px", "0"))
        .collect();
    let pictures: String = (1..=3).map(|p| picture(p, SRC, "6px", None)).collect();
    let expected = document(
        &radios,
        &thumbnails,
        &controls("previous", LEFT, "44px", "44", 3),
        &pictures,
        &controls("next", RIGHT, "44px", "44", 3),
        &picture(1, SRC, "6px", None),
    );
    assert_eq!(expected, html);
    assert_eq!(1, styles.len());
    let style = &styles[0];
    assert!(style.starts_with(
        ".mj-carousel { -webkit-user-select: none;\n-moz-user-select: none;\nuser-select: none; }\n.mj-carousel-cid-icons-cell { display: table-cell !important;\nwidth: 44px !important; }\n"
    ));
    assert!(style.contains(".mj-carousel-cid-radio-3:checked + .mj-carousel-content .mj-carousel-next-1"));
    assert!(style.contains(".mj-carousel-cid-radio-1:checked + * + * + .mj-carousel-content .mj-carousel-previous-3"));
    assert!(style.contains("border-color: #cccccc !important;"));
    assert!(style.contains(".mj-carousel-thumbnail:hover { border-color: #fead0d !important; }"));
    assert!(style.ends_with("-thumbnail-1 {\n                border-color: transparent;\n            }\n        }\n        "));
    assert!(style.contains(".mj-carousel-cid-radio-1:checked + *+ *+ .mj-carousel-content .mj-carousel-cid-thumbnail-1"));
}

#[test]
fn align_border_radius_class() {
    let element = carousel(
        &[("align", "left"), ("border-radius", "12px"), ("css-class", "my-carousel")],
        vec![
            image(&[("src", SRC), ("css-class", "first")]),
            image(&[("src", SRC)]),
        ],
    );
    let (html, _) = render(&element, "0px", Some("44"));
    assert!(html.contains(&picture(1, SRC, "12px", Some("first"))));
    assert!(html.contains(&picture(2, SRC, "12px", None)));
    assert!(!html.contains("my-carousel"));
    assert!(html.ends_with(&format!("<!--[if mso | IE]>{}<![endif]-->", picture(1, SRC, "12px", Some("first")))));
}

#[test]
fn icon() {
    let element = carousel(
        &[("left-icon", "https://example.com/left.png"), ("right-icon", "https://example.com/right.png"), ("icon-width", "30px")],
        vec![image(&[("src", SRC)]), image(&[("src", SRC)])],
    );
    let (html, styles) = render(&element, "0px", Some("30"));
    assert!(html.contains(&controls("previous", "https://example.com/left.png", "30px", "30", 2)));
    assert!(html.contains(&controls("next", "https://example.com/right.png", "30px", "30", 2)));
    assert!(styles[0].contains(".mj-carousel-cid-icons-cell { display: table-cell !important;\nwidth: 30px !important; }"));
}

#[test]
fn tb() {
    let element = carousel(
        &[
            ("tb-border", "1px solid red"),
            ("tb-border-radius", "3px"),
            ("tb-hover-border-color", "green"),
            ("tb-selected-border-color", "blue"),
            ("tb-width", "30px"),
        ],
        vec![image(&[("src", SRC)]), image(&[("src", SRC)])],
    );
    let (html, styles) = render(&element, "30px", Some("44"));
    assert!(html.contains(&thumbnail(1, SRC, "1px solid red", "3px", "30px", "30")));
    assert!(html.contains(&thumbnail(2, SRC, "1px solid red", "3px", "30px", "30")));
    assert!(styles[0].contains("border-color: blue !important;"));
    assert!(styles[0].contains(".mj-carousel-thumbnail:hover { border-color: green !important; }"));
}

#[test]
fn thumbnails() {
    let hidden = carousel(&[("thumbnails", "hidden")], vec![image(&[("src", SRC)]), image(&[("src", SRC)])]);
    let (html, _) = render(&hidden, "0px", Some("44"));
    assert!(!html.contains("<a href=\"#1\""));
    let visible = carousel(
        &[("thumbnails", "visible")],
        vec![image(&[("src", SRC), ("thumbnails-src", "https://example.com/small.png")])],
    );
    let (html, _) = render(&visible, "110px", Some("44"));
    assert!(html.contains(&thumbnail(1, "https://example.com/small.png", "2px solid transparent", "6px", "110px", "110")));
}

#[test]
fn carousel_without_children_has_no_style() {
    let element = carousel(&[], vec![]);
    let (html, styles) = render(&element, "0px", Some("44"));
    assert!(styles.is_empty());
    let expected = document(
        "",
        "",
        &controls("previous", LEFT, "44px", "44", 0),
        "",
        &controls("next", RIGHT, "44px", "44", 0),
        "",
    );
    let expected = expected.replace("<!--[if mso | IE]><![endif]-->", "");
    assert_eq!(expected, html);
}

#[test]
fn comments_count_for_arrows_but_not_for_images() {
    let element = carousel(
        &[],
        vec![
            MJCarouselChild::Comment(Comment { children: "note".to_string() }),
            image(&[("src", SRC)]),
        ],
    );
    let (html, _) = render(&element, "0px", None);
    assert_eq!(1, html.matches("type=\"radio\"").count());
    assert_eq!(2, html.matches("class=\"mj-carousel-previous ").count());
    assert!(!html.contains("width=\"44\""));
    assert_eq!("<!--note-->", element.children[0].renderer().render().unwrap());
}

#[test]
fn repeat_writes_the_value_count_times() {
    assert_eq!("", repeat(0, "+ * "));
    assert_eq!("+ * + * + * ", repeat(3, "+ * "));
}

#[test]
fn renderer_settings() {
    let element = carousel(&[("align", "left")], vec![image(&[("src", SRC)])]);
    let mut renderer = MJCarouselRender::new(&element, "cid".to_string(), "0px".to_string(), None);
    assert_eq!(Some("left"), renderer.attribute("align"));
    assert_eq!(Some("6px"), renderer.attribute("border-radius"));
    assert_eq!(None, renderer.attribute("unknown"));
    assert_eq!(Some("visible"), renderer.default_attribute("thumbnails"));
    assert!(renderer.attribute_equals("align", "left"));
    assert_eq!(Some("mj-carousel"), renderer.tag());
    assert_eq!(None, renderer.get_width());
    renderer.set_container_width(Some("600px".to_string()), "110px".to_string());
    assert_eq!(Some("600px"), renderer.get_width());
    renderer.set_siblings(2);
    renderer.set_raw_siblings(1);
    assert_eq!(1, renderer.attributes().unwrap().len());
}

#[test]
fn image_fragments() {
    let img = MJCarouselImage { attributes: map(&[("src", SRC)]) };
    let mut renderer = img.renderer();
    renderer.add_extra_attribute("carousel-id", "cid");
    renderer.set_index(1);
    assert_eq!(radio(2), renderer.render_fragment("radio").unwrap());
    match renderer.render_fragment("nothing") {
        Err(Error::UnknownFragment(name)) => assert_eq!("nothing", name),
        Ok(_) => panic!("an unknown fragment was rendered"),
    }
}

#[test]
fn container_width_sets_thumbnail_width() {
    let element = carousel(&[], vec![image(&[("src", SRC)]), image(&[("src", SRC)])]);
    let head: Option<MJHead> = None;
    let mut header = Header::new(&head);
    let mut renderer =
        MJCarouselRender::new(&element, "cid".to_string(), "0px".to_string(), Some("44".to_string()));
    renderer.set_container_width(Some("600px".to_string()), "110px".to_string());
    let html = renderer.render(&mut header).unwrap();
    assert!(html.contains(&thumbnail(1, SRC, "2px solid transparent", "6px", "110px", "110")));
    assert!(html.contains(&thumbnail(2, SRC, "2px solid transparent", "6px", "110px", "110")));
    assert!(!html.contains("width:0px;"));
    assert!(html.contains(
        "<img src=\"https://www.mailjet.com/wp-content/uploads/2019/07/Welcome-Discover-Img.png\" width=\"600\" border=\"0\" style=\"border-radius:6px;display:block;width:600px;max-width:100%;height:auto;\" />"
    ));
}

#[test]
fn renderer_draws_a_random_id() {
    let element = carousel(&[], vec![image(&[("src", SRC)])]);
    let renderer = element
        .renderer("0px".to_string(), Some("44".to_string()))
        .expect("the system gives randomness");
    let head: Option<MJHead> = None;
    let mut header = Header::new(&head);
    let html = renderer.render(&mut header).unwrap();
    let start = html.find("mj-carousel-radio-").unwrap() + "mj-carousel-radio-".len();
    let id: String = html[start..].chars().take_while(|c| *c != '"').collect();
    assert_eq!(8, id.len());
    assert!(id.chars().all(|c| c.is_ascii_alphanumeric()));
    assert!(html.contains(&format!("mj-carousel-{id}-content")));
}

#[test]
fn repeat_adds_up() {
    assert_eq!(repeat(5, "ab"), repeat(2, "ab") + &repeat(3, "ab"));
    assert_eq!(10, repeat(5, "ab").len());
}

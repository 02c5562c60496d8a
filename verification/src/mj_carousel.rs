//! The `mj-carousel` element: images shown one at a time, chosen with
//! arrows or thumbnails, with CSS that works without script.
use crate::condition::{
    mso_conditional, mso_conditional_tag, mso_negation_conditional, mso_negation_conditional_tag,
};
use crate::hash::{lookup, upsert, with_item, OrderedMap};
use crate::mj_carousel_image::{
    image_markup, maybe_upsert, opt_string_view, opt_view, radio_id, radio_markup,
    thumbnail_markup, MJCarouselImage, MJCarouselImageRender,
};
use crate::mj_head::Comment;
use crate::prelude::{Error, Header};
use crate::style::{Style, StyleSpec};
use crate::tag::{attributes_part, tag_named, Tag, TagSpec};
use crate::text::{decimal_text, join, joined, push_decimal, repeated, same_text, views};
use rand::distributions::{Alphanumeric, DistString};
use rand::rngs::{OsRng, StdRng};
use rand::SeedableRng;
use vstd::prelude::*;
use vstd::string::*;

verus! {

/// The tag name of carousels.
pub const NAME: &'static str = "mj-carousel";

/// A child of `mj-carousel`.
pub enum MJCarouselChild {
    MJCarouselImage(MJCarouselImage),
    Comment(Comment),
}

/// The renderer of a child of a carousel.
pub enum MJCarouselChildRender<'e> {
    MJCarouselImage(MJCarouselImageRender<'e>),
    Comment(&'e Comment),
}

/// The markup of a comment.
pub open spec fn comment_markup(comment: Comment) -> Seq<char> {
    "<!--"@ + comment.children@ + "-->"@
}

impl MJCarouselChild {
    /// The child when it is an image.
    pub fn as_image(&self) -> (r: Option<&MJCarouselImage>)
        ensures
            match self {
                MJCarouselChild::MJCarouselImage(i) => r == Some(i),
                MJCarouselChild::Comment(_) => r is None,
            },
    {
        match self {
            MJCarouselChild::MJCarouselImage(i) => Some(i),
            MJCarouselChild::Comment(_) => None,
        }
    }

    /// A renderer of the child.
    pub fn renderer(&self) -> (r: MJCarouselChildRender<'_>)
        ensures
            match (self, r) {
                (MJCarouselChild::MJCarouselImage(i), MJCarouselChildRender::MJCarouselImage(ir)) => {
                    &&& ir.own() == i.attributes.entries()
                    &&& ir.extra() == Seq::<(Seq<char>, Seq<char>)>::empty()
                    &&& ir.index() == 0
                    &&& ir.container_width() is None
                },
                (MJCarouselChild::Comment(c), MJCarouselChildRender::Comment(cr)) => *cr == c,
                _ => false,
            },
    {
        match self {
            MJCarouselChild::MJCarouselImage(elt) => MJCarouselChildRender::MJCarouselImage(
                elt.renderer(),
            ),
            MJCarouselChild::Comment(elt) => MJCarouselChildRender::Comment(elt),
        }
    }
}

impl<'e> MJCarouselChildRender<'e> {
    /// The markup of the child.
    pub open spec fn markup(&self) -> Seq<char> {
        match self {
            MJCarouselChildRender::MJCarouselImage(r) => image_markup(
                r.own(),
                r.extra(),
                r.index(),
                r.container_width(),
            ),
            MJCarouselChildRender::Comment(c) => comment_markup(**c),
        }
    }

    /// Renders the child.
    pub fn render(&self) -> (r: Result<String, Error>)
        requires
            self matches MJCarouselChildRender::MJCarouselImage(ir) ==> ir.index() < usize::MAX,
        ensures
            r matches Ok(s) && s@ == self.markup(),
    {
        match self {
            MJCarouselChildRender::MJCarouselImage(r) => r.render(),
            MJCarouselChildRender::Comment(c) => {
                let mut s = String::from_str("<!--");
                s.append(c.children.as_str());
                s.append("-->");
                Ok(s)
            },
        }
    }
}

/// The images among `children`, in order.
pub open spec fn images_of(children: Seq<MJCarouselChild>) -> Seq<MJCarouselImage>
    decreases children.len(),
{
    if children.len() == 0 {
        Seq::empty()
    } else {
        let rest = images_of(children.drop_last());
        match children.last() {
            MJCarouselChild::MJCarouselImage(i) => rest.push(i),
            MJCarouselChild::Comment(_) => rest,
        }
    }
}

/// The first image among `children`, if any.
pub open spec fn first_image(children: Seq<MJCarouselChild>) -> Option<MJCarouselImage> {
    if images_of(children).len() > 0 {
        Some(images_of(children)[0])
    } else {
        None
    }
}

/// The value of a carousel attribute that the carousel does not set.
pub open spec fn carousel_default(name: Seq<char>) -> Option<Seq<char>> {
    if name == "align"@ {
        Some("center"@)
    } else if name == "border-radius"@ {
        Some("6px"@)
    } else if name == "icon-width"@ {
        Some("44px"@)
    } else if name == "left-icon"@ {
        Some("https://i.imgur.com/xTh3hln.png"@)
    } else if name == "right-icon"@ {
        Some("https://i.imgur.com/os7o9kz.png"@)
    } else if name == "thumbnails"@ {
        Some("visible"@)
    } else if name == "tb-border"@ {
        Some("2px solid transparent"@)
    } else if name == "tb-border-radius"@ {
        Some("6px"@)
    } else if name == "tb-hover-border-color"@ {
        Some("#fead0d"@)
    } else if name == "tb-selected-border-color"@ {
        Some("#cccccc"@)
    } else {
        None
    }
}

/// The value of the attribute `name` of a carousel whose attributes are
/// `attributes`: its own value, else the default.
pub open spec fn carousel_attribute(attributes: Seq<(Seq<char>, Seq<char>)>, name: Seq<char>) -> Option<
    Seq<char>,
> {
    match lookup(attributes, name) {
        Some(v) => Some(v),
        None => carousel_default(name),
    }
}

/// What a carousel gives each of its images: its id, and its border radius
/// and thumbnail border settings.
pub open spec fn image_extra(attributes: Seq<(Seq<char>, Seq<char>)>, id: Seq<char>) -> Seq<
    (Seq<char>, Seq<char>),
> {
    let e = upsert(Seq::empty(), "carousel-id"@, id);
    let e = maybe_upsert(e, "border-radius"@, carousel_attribute(attributes, "border-radius"@));
    let e = maybe_upsert(e, "tb-border"@, carousel_attribute(attributes, "tb-border"@));
    maybe_upsert(e, "tb-border-radius"@, carousel_attribute(attributes, "tb-border-radius"@))
}

/// The radio buttons of `images`, one after the other.
pub open spec fn radios_markup(images: Seq<MJCarouselImage>, extra: Seq<(Seq<char>, Seq<char>)>) -> Seq<
    char,
>
    decreases images.len(),
{
    if images.len() == 0 {
        Seq::empty()
    } else {
        radios_markup(images.drop_last(), extra) + radio_markup(
            images.last().attributes.entries(),
            extra,
            (images.len() - 1) as nat,
        )
    }
}

/// The thumbnails of `images`, each `width` wide, one after the other.
pub open spec fn thumbnails_markup(
    images: Seq<MJCarouselImage>,
    extra: Seq<(Seq<char>, Seq<char>)>,
    width: Seq<char>,
) -> Seq<char>
    decreases images.len(),
{
    if images.len() == 0 {
        Seq::empty()
    } else {
        thumbnails_markup(images.drop_last(), extra, width) + thumbnail_markup(
            images.last().attributes.entries(),
            extra,
            (images.len() - 1) as nat,
            Some(width),
        )
    }
}

/// The markup of `images`, one after the other.
pub open spec fn images_markup(
    images: Seq<MJCarouselImage>,
    extra: Seq<(Seq<char>, Seq<char>)>,
    width: Option<Seq<char>>,
) -> Seq<char>
    decreases images.len(),
{
    if images.len() == 0 {
        Seq::empty()
    } else {
        images_markup(images.drop_last(), extra, width) + image_markup(
            images.last().attributes.entries(),
            extra,
            (images.len() - 1) as nat,
            width,
        )
    }
}

/// The arrow picture of the controls.
pub open spec fn control_img_tag(
    attributes: Seq<(Seq<char>, Seq<char>)>,
    direction: Seq<char>,
    icon: Seq<char>,
    icon_width: Option<Seq<char>>,
) -> TagSpec {
    tag_named("img"@).with_style("display"@, "block"@).maybe_with_style(
        "width"@,
        carousel_attribute(attributes, "icon-width"@),
    ).with_style("height"@, "auto"@).with_attribute("src"@, icon).with_attribute(
        "alt"@,
        direction,
    ).maybe_with_attribute("width"@, icon_width)
}

/// The arrow that leads from the image at `idx` (counted from 0).
pub open spec fn control_label(id: Seq<char>, direction: Seq<char>, img: Seq<char>, idx: nat) -> Seq<
    char,
> {
    tag_named("label"@).with_attribute("for"@, radio_id(id, idx + 1)).with_class(
        "mj-carousel-"@ + direction,
    ).with_class("mj-carousel-"@ + direction + "-"@ + decimal_text(idx + 1)).around(img)
}

/// The arrows of the first `count` children, one after the other.
pub open spec fn control_labels(id: Seq<char>, direction: Seq<char>, img: Seq<char>, count: nat) -> Seq<
    char,
>
    decreases count,
{
    if count == 0 {
        Seq::empty()
    } else {
        control_labels(id, direction, img, (count - 1) as nat) + control_label(
            id,
            direction,
            img,
            (count - 1) as nat,
        )
    }
}

/// The block that holds the arrows of one direction.
pub open spec fn controls_div_tag(direction: Seq<char>) -> TagSpec {
    tag_named("div"@).with_style("display"@, "none"@).with_style("mso-hide"@, "all"@).with_class(
        "mj-carousel-"@ + direction + "-icons"@,
    )
}

/// The cell that holds the arrows of one direction.
pub open spec fn controls_td_tag(id: Seq<char>) -> TagSpec {
    tag_named("td"@).with_style("font-size"@, "0px"@).with_style("display"@, "none"@).with_style(
        "mso-hide"@,
        "all"@,
    ).with_style("padding"@, "0px"@).with_class("mj-carousel-"@ + id + "-icons-cell"@)
}

/// The cell of arrows in `direction` for a carousel with `count` children.
pub open spec fn controls_markup(
    attributes: Seq<(Seq<char>, Seq<char>)>,
    id: Seq<char>,
    icon_width: Option<Seq<char>>,
    count: nat,
    direction: Seq<char>,
    icon: Seq<char>,
) -> Seq<char> {
    let img = control_img_tag(attributes, direction, icon, icon_width).self_closed();
    controls_td_tag(id).around(
        controls_div_tag(direction).around(control_labels(id, direction, img, count)),
    )
}

/// The main table of a carousel.
pub open spec fn carousel_table_tag() -> TagSpec {
    tag_named("table"@).with_attribute("border"@, "0"@).with_attribute("cellpadding"@, "0"@).with_attribute(
        "cellspacing"@,
        "0"@,
    ).with_attribute("role"@, "presentation"@).with_style("caption-side"@, "top"@).with_style(
        "display"@,
        "table-caption"@,
    ).with_style("table-layout"@, "fixed"@).with_style("width"@, "100%"@).with_attribute(
        "width"@,
        "100%"@,
    ).with_class("mj-carousel-main"@)
}

/// The block that holds thumbnails and the main table.
pub open spec fn content_div_tag(id: Seq<char>) -> TagSpec {
    tag_named("div"@).with_style("display"@, "table"@).with_style("width"@, "100%"@).with_style(
        "table-layout"@,
        "fixed"@,
    ).with_style("text-align"@, "center"@).with_style("font-size"@, "0px"@).with_class(
        "mj-carousel-content"@,
    ).with_class("mj-carousel-"@ + id + "-content"@)
}

/// `+ * ` written `count` times: the CSS that skips `count` siblings.
pub open spec fn skip_siblings(count: nat) -> Seq<char> {
    repeated(count, "+ * "@)
}

/// Hides every image while radio number `idx + 1` is checked.
pub open spec fn hide_images_selector(id: Seq<char>, idx: nat) -> Seq<char> {
    ".mj-carousel-"@ + id + "-radio:checked "@ + skip_siblings(idx)
        + "+ .mj-carousel-content .mj-carousel-image"@
}

/// Shows image `idx + 1` while its radio is checked.
pub open spec fn show_image_selector(id: Seq<char>, length: nat, idx: nat) -> Seq<char> {
    ".mj-carousel-"@ + id + "-radio-"@ + decimal_text(idx + 1) + ":checked "@ + skip_siblings(
        (length - idx - 1) as nat,
    ) + "+ .mj-carousel-content .mj-carousel-image-"@ + decimal_text(idx + 1)
}

/// The position (counted from 1) of the image after image `idx + 1`,
/// going round.
pub open spec fn next_position(length: nat, idx: nat) -> nat {
    (((idx + 1) as nat) % length + 1) as nat
}

/// The position (counted from 1) of the image before image `idx + 1`,
/// going round.
pub open spec fn previous_position(length: nat, idx: nat) -> nat {
    (((idx + length - 1) as nat) % length + 1) as nat
}

/// Shows the arrow to the next image while radio `idx + 1` is checked.
pub open spec fn next_arrow_selector(id: Seq<char>, length: nat, idx: nat) -> Seq<char> {
    ".mj-carousel-"@ + id + "-radio-"@ + decimal_text(idx + 1) + ":checked "@ + skip_siblings(
        (length - idx - 1) as nat,
    ) + "+ .mj-carousel-content .mj-carousel-next-"@ + decimal_text(next_position(length, idx))
}

/// Shows the arrow to the previous image while radio `idx + 1` is checked.
pub open spec fn previous_arrow_selector(id: Seq<char>, length: nat, idx: nat) -> Seq<char> {
    ".mj-carousel-"@ + id + "-radio-"@ + decimal_text(idx + 1) + ":checked "@ + skip_siblings(
        (length - idx - 1) as nat,
    ) + "+ .mj-carousel-content .mj-carousel-previous-"@ + decimal_text(
        previous_position(length, idx),
    )
}

/// Marks thumbnail `idx + 1` while its radio is checked.
pub open spec fn selected_thumbnail_selector(id: Seq<char>, length: nat, idx: nat) -> Seq<char> {
    ".mj-carousel-"@ + id + "-radio-"@ + decimal_text(idx + 1) + ":checked "@ + skip_siblings(
        (length - idx - 1) as nat,
    ) + "+ .mj-carousel-content .mj-carousel-"@ + id + "-thumbnail-"@ + decimal_text(idx + 1)
}

/// Hides every image while a thumbnail is hovered.
pub open spec fn hover_hide_selector(id: Seq<char>, length: nat, idx: nat) -> Seq<char> {
    ".mj-carousel-"@ + id + "-thumbnail:hover "@ + skip_siblings((length - idx - 1) as nat)
        + "+ .mj-carousel-main .mj-carousel-image"@
}

/// Shows image `idx + 1` while its thumbnail is hovered.
pub open spec fn hover_show_selector(id: Seq<char>, length: nat, idx: nat) -> Seq<char> {
    ".mj-carousel-"@ + id + "-thumbnail-"@ + decimal_text(idx + 1) + ":hover "@ + skip_siblings(
        (length - idx - 1) as nat,
    ) + "+ .mj-carousel-main .mj-carousel-image-"@ + decimal_text(idx + 1)
}

/// A rule from its selectors and declarations.
pub open spec fn rule(selectors: Seq<Seq<char>>, content: Seq<Seq<char>>) -> Seq<char> {
    (StyleSpec { selectors, content }).text()
}

/// The rules for Yahoo, which show neither arrows nor the first selection.
pub open spec fn yahoo_rule(id: Seq<char>, length: nat) -> Seq<char> {
    "\n        @media screen yahoo {\n            .mj-carousel-"@ + id
        + "-icons-cell,\n            .mj-carousel-previous-icons,\n            .mj-carousel-next-icons {\n                display: none !important;\n            }\n\n            .mj-carousel-"@
        + id + "-radio-1:checked "@ + repeated((length - 1) as nat, "+ *"@)
        + "+ .mj-carousel-content .mj-carousel-"@ + id
        + "-thumbnail-1 {\n                border-color: transparent;\n            }\n        }\n        "@
}

/// The rule that keeps carousel text from being selected.
pub open spec fn no_select_rule() -> Seq<char> {
    rule(
        seq![".mj-carousel"@],
        seq!["-webkit-user-select: none;"@, "-moz-user-select: none;"@, "user-select: none;"@],
    )
}

/// The rule that shows the cells of arrows, `icon_width` wide.
pub open spec fn icons_cell_rule(id: Seq<char>, icon_width: Seq<char>) -> Seq<char> {
    rule(
        seq![".mj-carousel-"@ + id + "-icons-cell"@],
        seq!["display: table-cell !important;"@, "width: "@ + icon_width + " !important;"@],
    )
}

/// The rule that hides radios and arrows.
pub open spec fn hide_controls_rule() -> Seq<char> {
    rule(
        seq![".mj-carousel-radio"@, ".mj-carousel-next"@, ".mj-carousel-previous"@],
        seq!["display: none !important;"@],
    )
}

/// The rule that makes thumbnails and arrows react to touch at once.
pub open spec fn touch_rule() -> Seq<char> {
    rule(
        seq![".mj-carousel-thumbnail"@, ".mj-carousel-next"@, ".mj-carousel-previous"@],
        seq!["touch-action: manipulation;"@],
    )
}

/// The rule that hides every image once a radio is checked.
pub open spec fn hide_images_rule(id: Seq<char>, length: nat) -> Seq<char> {
    rule(
        Seq::new(length, |i: int| hide_images_selector(id, i as nat)),
        seq!["display: none !important;"@],
    )
}

/// The rule that shows the image of the checked radio.
pub open spec fn show_image_rule(id: Seq<char>, length: nat) -> Seq<char> {
    rule(
        Seq::new(length, |i: int| show_image_selector(id, length, i as nat)),
        seq!["display: block !important;"@],
    )
}

/// The selectors of the arrows that the checked radio shows.
pub open spec fn arrow_selectors(id: Seq<char>, length: nat) -> Seq<Seq<char>> {
    seq![".mj-carousel-previous-icons"@, ".mj-carousel-next-icons"@] + Seq::new(
        length,
        |i: int| next_arrow_selector(id, length, i as nat),
    ) + Seq::new(length, |i: int| previous_arrow_selector(id, length, i as nat))
}

/// The rule that shows the arrow blocks and the arrows of the checked radio.
pub open spec fn arrows_rule(id: Seq<char>, length: nat) -> Seq<char> {
    rule(arrow_selectors(id, length), seq!["display: block !important;"@])
}

/// The rule that marks the thumbnail of the checked radio with `color`.
pub open spec fn selected_thumbnail_rule(id: Seq<char>, length: nat, color: Seq<char>) -> Seq<char> {
    rule(
        Seq::new(length, |i: int| selected_thumbnail_selector(id, length, i as nat)),
        seq!["border-color: "@ + color + " !important;"@],
    )
}

/// The rule that hides the blocks following pictures.
pub open spec fn hide_following_rule() -> Seq<char> {
    rule(
        seq![".mj-carousel-image img + div"@, ".mj-carousel-thumbnail img + div"@],
        seq!["display: none !important;"@],
    )
}

/// The rule that hides every image while a thumbnail is hovered.
pub open spec fn hover_hide_rule(id: Seq<char>, length: nat) -> Seq<char> {
    rule(
        Seq::new(length, |i: int| hover_hide_selector(id, length, i as nat)),
        seq!["display: none !important;"@],
    )
}

/// The rule that marks a hovered thumbnail with `color`.
pub open spec fn hover_color_rule(color: Seq<char>) -> Seq<char> {
    rule(seq![".mj-carousel-thumbnail:hover"@], seq!["border-color: "@ + color + " !important;"@])
}

/// The rule that shows the image of the hovered thumbnail.
pub open spec fn hover_show_rule(id: Seq<char>, length: nat) -> Seq<char> {
    rule(
        Seq::new(length, |i: int| hover_show_selector(id, length, i as nat)),
        seq!["display: block !important;"@],
    )
}

/// The CSS rules of a carousel with `length` children, in order.
pub open spec fn style_rules(
    attributes: Seq<(Seq<char>, Seq<char>)>,
    id: Seq<char>,
    length: nat,
) -> Seq<Seq<char>> {
    seq![
        no_select_rule(),
        icons_cell_rule(id, carousel_attribute(attributes, "icon-width"@).unwrap()),
        hide_controls_rule(),
        touch_rule(),
        hide_images_rule(id, length),
        show_image_rule(id, length),
        arrows_rule(id, length),
        selected_thumbnail_rule(
            id,
            length,
            carousel_attribute(attributes, "tb-selected-border-color"@).unwrap(),
        ),
        hide_following_rule(),
        hover_hide_rule(id, length),
        hover_color_rule(carousel_attribute(attributes, "tb-hover-border-color"@).unwrap()),
        hover_show_rule(id, length),
        ".mj-carousel noinput { display:block !important; }"@,
        ".mj-carousel noinput .mj-carousel-image-1 { display: block !important;  }"@,
        ".mj-carousel noinput .mj-carousel-arrows, .mj-carousel noinput .mj-carousel-thumbnails { display: none !important; }"@,
        "[owa] .mj-carousel-thumbnail { display: none !important; }"@,
        yahoo_rule(id, length),
    ]
}

/// `value` written `count` times in a row.
pub fn repeat(count: usize, value: &str) -> (r: String)
    ensures
        r@ == repeated(count as nat, value@),
{
    let mut r = String::new();
    let mut i: usize = 0;
    while i < count
        invariant
            i <= count,
            r@ == repeated(i as nat, value@),
        decreases count - i,
    {
        r.append(value);
        i = i + 1;
    }
    r
}

/// The `mj-carousel` element.
pub struct MJCarousel {
    pub attributes: OrderedMap,
    pub children: Vec<MJCarouselChild>,
}

impl Default for MJCarousel {
    fn default() -> (r: MJCarousel)
        ensures
            r.attributes.entries().len() == 0,
            r.children@.len() == 0,
    {
        MJCarousel { attributes: OrderedMap::new(), children: Vec::new() }
    }
}

/// A character of a carousel id: an ASCII letter or digit.
pub open spec fn is_id_char(c: char) -> bool {
    ('a' <= c && c <= 'z') || ('A' <= c && c <= 'Z') || ('0' <= c && c <= '9')
}

/// Seeds a `StdRng` from the operating system by `SeedableRng::from_rng`
/// with `OsRng`, then calls `DistString::sample_string` of `Alphanumeric`
/// on it: `size` characters, each an ASCII letter or digit. Which ones
/// depends on chance. When the operating system gives no seed, `from_rng`
/// returns an error and the result is `None`; when that happens is not
/// stated.
#[verifier::external_body]
fn random_id(size: usize) -> (r: Option<String>)
    ensures
        r matches Some(s) ==> s@.len() == size && forall|i: int|
            0 <= i < size ==> is_id_char(#[trigger] s@[i]),
{
    match StdRng::from_rng(OsRng) {
        Ok(mut rng) => Some(Alphanumeric.sample_string(&mut rng, size)),
        Err(_) => None,
    }
}

impl MJCarousel {
    /// A renderer of the carousel under a fresh random id of eight letters
    /// and digits, with no container width, thumbnails `thumbnails_width`
    /// wide (the carousel's `tb-width`, else zero pixels) and arrows
    /// `icon_width` wide (the number in the carousel's `icon-width`, if any).
    /// `None` when the operating system gives no randomness to draw the id
    /// from.
    pub fn renderer(&self, thumbnails_width: String, icon_width: Option<String>) -> (r: Option<
        MJCarouselRender<'_>,
    >)
        ensures
            r matches Some(rr) ==> {
                &&& rr.carousel() == *self
                &&& rr.id().len() == 8
                &&& forall|i: int| 0 <= i < 8 ==> is_id_char(#[trigger] rr.id()[i])
                &&& rr.thumbnails_width() == thumbnails_width@
                &&& rr.icon_width_value() == opt_string_view(icon_width)
                &&& rr.container_width() is None
                &&& rr.siblings() == 1
                &&& rr.raw_siblings() == 0
            },
    {
        match random_id(8) {
            Some(id) => Some(MJCarouselRender::new(self, id, thumbnails_width, icon_width)),
            None => None,
        }
    }
}

/// The renderer of a carousel.
pub struct MJCarouselRender<'e> {
    element: &'e MJCarousel,
    container_width: Option<String>,
    siblings: usize,
    raw_siblings: usize,
    id: String,
    thumbnails_width: String,
    icon_width: Option<String>,
}


/// The images of `children` extend the images of any prefix of `children`.
pub proof fn lemma_images_prefix(children: Seq<MJCarouselChild>, j: int)
    requires
        0 <= j <= children.len(),
    ensures
        images_of(children.take(j)).len() <= images_of(children).len(),
        forall|k: int|
            0 <= k < images_of(children.take(j)).len() ==> images_of(children)[k] == images_of(
                children.take(j),
            )[k],
    decreases children.len(),
{
    if j == children.len() {
        assert(children.take(j) =~= children);
    } else {
        assert(children.take(j) =~= children.drop_last().take(j));
        lemma_images_prefix(children.drop_last(), j);
    }
}

/// Of `images_of` for a prefix one child longer.
proof fn lemma_images_step(children: Seq<MJCarouselChild>, i: int)
    requires
        0 <= i < children.len(),
    ensures
        images_of(children.take(i + 1)) == match children[i] {
            MJCarouselChild::MJCarouselImage(img) => images_of(children.take(i)).push(img),
            MJCarouselChild::Comment(_) => images_of(children.take(i)),
        },
{
    assert(children.take(i + 1).drop_last() =~= children.take(i));
    assert(children.take(i + 1).last() == children[i]);
}

/// `((idx + length - 1) % length) + 1`, the position before `idx + 1`, is
/// `length` for the first image and `idx` for the others.
proof fn lemma_previous_position(length: nat, idx: nat)
    requires
        idx < length,
    ensures
        previous_position(length, idx) == if idx == 0 {
            length
        } else {
            idx
        },
{
    if idx == 0 {
        vstd::arithmetic::div_mod::lemma_small_mod((length - 1) as nat, length);
    } else {
        vstd::arithmetic::div_mod::lemma_mod_add_multiples_vanish(idx - 1, length as int);
        vstd::arithmetic::div_mod::lemma_small_mod((idx - 1) as nat, length);
    }
}

/// `((idx + 1) % length) + 1`, the position after `idx + 1`.
proof fn lemma_next_position(length: nat, idx: nat)
    requires
        idx < length,
    ensures
        next_position(length, idx) == if idx + 1 == length {
            1
        } else {
            idx + 2
        },
{
    if idx + 1 < length {
        vstd::arithmetic::div_mod::lemma_small_mod((idx + 1) as nat, length);
    } else {
        vstd::arithmetic::div_mod::lemma_mod_add_multiples_vanish(0, length as int);
        vstd::arithmetic::div_mod::lemma_small_mod(0, length);
    }
}

/// The arrows go round the images: both arrows of an image lead to an image
/// of the carousel, and the arrow back from the image that the arrow
/// forward leads to (and the arrow forward from the image that the arrow
/// back leads to) leads to the image one started from.
pub proof fn law_arrows_go_round(length: nat, idx: nat)
    requires
        idx < length,
    ensures
        1 <= next_position(length, idx) <= length,
        1 <= previous_position(length, idx) <= length,
        previous_position(length, (next_position(length, idx) - 1) as nat) == idx + 1,
        next_position(length, (previous_position(length, idx) - 1) as nat) == idx + 1,
{
    lemma_next_position(length, idx);
    lemma_previous_position(length, idx);
    lemma_previous_position(length, (next_position(length, idx) - 1) as nat);
    lemma_next_position(length, (previous_position(length, idx) - 1) as nat);
}

/// Every rule that reacts to radio `idx + 1` being checked reaches the
/// content block by skipping exactly the radios that follow it: its selector
/// is `.mj-carousel-{id}-radio-{idx + 1}:checked `, then `+ * ` once for each
/// of the `length - idx - 1` radios after it, then
/// `+ .mj-carousel-content .mj-carousel-` and what it shows: image
/// `idx + 1`, the arrow to the next image (the first after the last), the
/// arrow to the previous image (the last before the first), or the radio's
/// own thumbnail.
pub proof fn law_checked_radio_selectors(id: Seq<char>, length: nat, idx: nat)
    requires
        idx < length,
    ensures
        ({
            let reach = ".mj-carousel-"@ + id + "-radio-"@ + decimal_text(idx + 1) + ":checked "@
                + repeated((length - idx - 1) as nat, "+ * "@)
                + "+ .mj-carousel-content .mj-carousel-"@;
            &&& show_image_selector(id, length, idx) == reach + "image-"@ + decimal_text(idx + 1)
            &&& next_arrow_selector(id, length, idx) == reach + "next-"@ + decimal_text(
                if idx + 1 == length {
                    1
                } else {
                    idx + 2
                },
            )
            &&& previous_arrow_selector(id, length, idx) == reach + "previous-"@ + decimal_text(
                if idx == 0 {
                    length
                } else {
                    idx
                },
            )
            &&& selected_thumbnail_selector(id, length, idx) == reach + id + "-thumbnail-"@
                + decimal_text(idx + 1)
        }),
{
    lemma_next_position(length, idx);
    lemma_previous_position(length, idx);
    reveal_strlit("+ .mj-carousel-content .mj-carousel-");
    reveal_strlit("+ .mj-carousel-content .mj-carousel-image-");
    reveal_strlit("+ .mj-carousel-content .mj-carousel-next-");
    reveal_strlit("+ .mj-carousel-content .mj-carousel-previous-");
    reveal_strlit("image-");
    reveal_strlit("next-");
    reveal_strlit("previous-");
    let reach = ".mj-carousel-"@ + id + "-radio-"@ + decimal_text(idx + 1) + ":checked "@
        + repeated((length - idx - 1) as nat, "+ * "@) + "+ .mj-carousel-content .mj-carousel-"@;
    let head = ".mj-carousel-"@ + id + "-radio-"@ + decimal_text(idx + 1) + ":checked "@
        + repeated((length - idx - 1) as nat, "+ * "@);
    assert(show_image_selector(id, length, idx) =~= reach + "image-"@ + decimal_text(idx + 1));
    assert(next_arrow_selector(id, length, idx) =~= reach + "next-"@ + decimal_text(
        next_position(length, idx),
    ));
    assert(previous_arrow_selector(id, length, idx) =~= reach + "previous-"@ + decimal_text(
        previous_position(length, idx),
    ));
    assert(selected_thumbnail_selector(id, length, idx) =~= reach + id + "-thumbnail-"@
        + decimal_text(idx + 1));
}

/// Checking any radio hides every image first: the hiding selector for
/// radio `idx + 1` skips the `idx` radios before the content block counted
/// from the first. Hovering thumbnail `idx + 1` hides every image and shows
/// image `idx + 1`: those selectors skip the `length - idx - 1` thumbnails
/// after it to reach the main table.
pub proof fn law_hide_and_hover_selectors(id: Seq<char>, length: nat, idx: nat)
    requires
        idx < length,
    ensures
        hide_images_selector(id, idx) == ".mj-carousel-"@ + id + "-radio:checked "@ + repeated(
            idx,
            "+ * "@,
        ) + "+ .mj-carousel-content .mj-carousel-image"@,
        hover_hide_selector(id, length, idx) == ".mj-carousel-"@ + id + "-thumbnail:hover "@
            + repeated((length - idx - 1) as nat, "+ * "@) + "+ .mj-carousel-main .mj-carousel-image"@,
        hover_show_selector(id, length, idx) == ".mj-carousel-"@ + id + "-thumbnail-"@
            + decimal_text(idx + 1) + ":hover "@ + repeated((length - idx - 1) as nat, "+ * "@)
            + "+ .mj-carousel-main .mj-carousel-image-"@ + decimal_text(idx + 1),
{
}

/// The images of a carousel are its image children, in order, with its
/// comments left out.
pub proof fn law_images_of_children(children: Seq<MJCarouselChild>)
    ensures
        images_of(children) == children.filter_map(
            |c: MJCarouselChild|
                match c {
                    MJCarouselChild::MJCarouselImage(i) => Some(i),
                    MJCarouselChild::Comment(_) => None,
                },
        ),
    decreases children.len(),
{
    if children.len() > 0 {
        law_images_of_children(children.drop_last());
        match children.last() {
            MJCarouselChild::MJCarouselImage(i) => {
                assert(images_of(children.drop_last()).push(i) =~= images_of(children.drop_last())
                    + seq![i]);
            },
            MJCarouselChild::Comment(_) => {},
        }
    }
}

/// What a carousel gives each image: its own id under `carousel-id`, and
/// its `border-radius`, `tb-border` and `tb-border-radius` (its own values,
/// else the defaults).
pub proof fn law_image_extra(attributes: Seq<(Seq<char>, Seq<char>)>, id: Seq<char>)
    ensures
        lookup(image_extra(attributes, id), "carousel-id"@) == Some(id),
        lookup(image_extra(attributes, id), "border-radius"@) == carousel_attribute(
            attributes,
            "border-radius"@,
        ),
        lookup(image_extra(attributes, id), "tb-border"@) == carousel_attribute(
            attributes,
            "tb-border"@,
        ),
        lookup(image_extra(attributes, id), "tb-border-radius"@) == carousel_attribute(
            attributes,
            "tb-border-radius"@,
        ),
{
    reveal_strlit("carousel-id");
    reveal_strlit("border-radius");
    reveal_strlit("tb-border");
    reveal_strlit("tb-border-radius");
    let ks = seq!["carousel-id"@, "border-radius"@, "tb-border"@, "tb-border-radius"@];
    assert forall|a: int, b: int| 0 <= a < 4 && 0 <= b < 4 && a != b implies ks[a] != ks[b] by {
        assert(ks[a].len() != ks[b].len());
    }
    assert(ks[0] != ks[1] && ks[0] != ks[2] && ks[0] != ks[3] && ks[1] != ks[2] && ks[1] != ks[3]
        && ks[2] != ks[3]);
    let e0 = Seq::<(Seq<char>, Seq<char>)>::empty();
    let e1 = upsert(e0, "carousel-id"@, id);
    let e2 = maybe_upsert(e1, "border-radius"@, carousel_attribute(attributes, "border-radius"@));
    let e3 = maybe_upsert(e2, "tb-border"@, carousel_attribute(attributes, "tb-border"@));
    let r3 = carousel_attribute(attributes, "tb-border-radius"@);
    assert(lookup(e0, "border-radius"@) is None);
    assert(lookup(e0, "tb-border"@) is None);
    assert(lookup(e0, "tb-border-radius"@) is None);
    crate::hash::law_lookup_after_upsert(e0, "carousel-id"@, id, "carousel-id"@);
    crate::hash::law_lookup_after_upsert(e0, "carousel-id"@, id, "border-radius"@);
    crate::hash::law_lookup_after_upsert(e0, "carousel-id"@, id, "tb-border"@);
    crate::hash::law_lookup_after_upsert(e0, "carousel-id"@, id, "tb-border-radius"@);
    match carousel_attribute(attributes, "border-radius"@) {
        Some(v) => {
            crate::hash::law_lookup_after_upsert(e1, "border-radius"@, v, "carousel-id"@);
            crate::hash::law_lookup_after_upsert(e1, "border-radius"@, v, "border-radius"@);
            crate::hash::law_lookup_after_upsert(e1, "border-radius"@, v, "tb-border"@);
            crate::hash::law_lookup_after_upsert(e1, "border-radius"@, v, "tb-border-radius"@);
        },
        None => {},
    }
    match carousel_attribute(attributes, "tb-border"@) {
        Some(v) => {
            crate::hash::law_lookup_after_upsert(e2, "tb-border"@, v, "carousel-id"@);
            crate::hash::law_lookup_after_upsert(e2, "tb-border"@, v, "border-radius"@);
            crate::hash::law_lookup_after_upsert(e2, "tb-border"@, v, "tb-border"@);
            crate::hash::law_lookup_after_upsert(e2, "tb-border"@, v, "tb-border-radius"@);
        },
        None => {},
    }
    match r3 {
        Some(v) => {
            crate::hash::law_lookup_after_upsert(e3, "tb-border-radius"@, v, "carousel-id"@);
            crate::hash::law_lookup_after_upsert(e3, "tb-border-radius"@, v, "border-radius"@);
            crate::hash::law_lookup_after_upsert(e3, "tb-border-radius"@, v, "tb-border"@);
            crate::hash::law_lookup_after_upsert(e3, "tb-border-radius"@, v, "tb-border-radius"@);
        },
        None => {},
    }
}

/// The rule that shows the image of the checked radio lists, for each
/// radio in order, the selector that reaches image `i + 1` from radio
/// `i + 1` by skipping the `length - i - 1` radios after it, and shows it
/// as a block.
pub proof fn law_show_image_rule(id: Seq<char>, length: nat)
    ensures
        show_image_rule(id, length) == rule(
            Seq::new(
                length,
                |i: int|
                    ".mj-carousel-"@ + id + "-radio-"@ + decimal_text((i + 1) as nat) + ":checked "@
                        + repeated((length - i - 1) as nat, "+ * "@)
                        + "+ .mj-carousel-content .mj-carousel-image-"@ + decimal_text(
                        (i + 1) as nat,
                    ),
            ),
            seq!["display: block !important;"@],
        ),
{
    let explicit = Seq::new(
        length,
        |i: int|
            ".mj-carousel-"@ + id + "-radio-"@ + decimal_text((i + 1) as nat) + ":checked "@
                + repeated((length - i - 1) as nat, "+ * "@)
                + "+ .mj-carousel-content .mj-carousel-image-"@ + decimal_text((i + 1) as nat),
    );
    let given = Seq::new(length, |i: int| show_image_selector(id, length, i as nat));
    assert forall|i: int| 0 <= i < length implies given[i] == explicit[i] by {
        law_checked_radio_selectors(id, length, i as nat);
        assert(explicit[i] =~= ".mj-carousel-"@ + id + "-radio-"@ + decimal_text((i + 1) as nat)
            + ":checked "@ + repeated((length - i - 1) as nat, "+ * "@)
            + "+ .mj-carousel-content .mj-carousel-"@ + "image-"@ + decimal_text((i + 1) as nat));
    }
    assert(given =~= explicit);
}

/// The CSS of a carousel with children is its rules joined by line breaks,
/// and the rule that shows the image of the checked radio comes sixth.
pub proof fn law_carousel_css_shows_checked_image(r: MJCarouselRender)
    requires
        r.carousel().children@.len() > 0,
    ensures
        r.style() == Some(
            joined(style_rules(r.own(), r.id(), r.carousel().children@.len()), "\n"@),
        ),
        style_rules(r.own(), r.id(), r.carousel().children@.len())[5] == show_image_rule(
            r.id(),
            r.carousel().children@.len(),
        ),
        style_rules(r.own(), r.id(), r.carousel().children@.len()).len() == 17,
{
}

/// The radio buttons of a carousel are, in order, the radio fragment of
/// each of its images, each at its own position among the images.
pub proof fn law_radios_per_image(images: Seq<MJCarouselImage>, extra: Seq<(Seq<char>, Seq<char>)>)
    ensures
        radios_markup(images, extra) == Seq::new(
            images.len(),
            |k: int| radio_markup(images[k].attributes.entries(), extra, k as nat),
        ).flatten(),
    decreases images.len(),
{
    let f = Seq::new(
        images.len(),
        |k: int| radio_markup(images[k].attributes.entries(), extra, k as nat),
    );
    f.lemma_flatten_and_flatten_alt_are_equivalent();
    if images.len() > 0 {
        let rest = images.drop_last();
        law_radios_per_image(rest, extra);
        let g = Seq::new(
            rest.len(),
            |k: int| radio_markup(rest[k].attributes.entries(), extra, k as nat),
        );
        g.lemma_flatten_and_flatten_alt_are_equivalent();
        assert(f.drop_last() =~= g);
    } else {
        assert(f.flatten_alt() =~= Seq::<char>::empty());
    }
}

/// The thumbnails of a carousel are, in order, the thumbnail fragment of
/// each of its images, each at its own position among the images and
/// `width` wide.
pub proof fn law_thumbnails_per_image(
    images: Seq<MJCarouselImage>,
    extra: Seq<(Seq<char>, Seq<char>)>,
    width: Seq<char>,
)
    ensures
        thumbnails_markup(images, extra, width) == Seq::new(
            images.len(),
            |k: int| thumbnail_markup(images[k].attributes.entries(), extra, k as nat, Some(width)),
        ).flatten(),
    decreases images.len(),
{
    let f = Seq::new(
        images.len(),
        |k: int| thumbnail_markup(images[k].attributes.entries(), extra, k as nat, Some(width)),
    );
    f.lemma_flatten_and_flatten_alt_are_equivalent();
    if images.len() > 0 {
        let rest = images.drop_last();
        law_thumbnails_per_image(rest, extra, width);
        let g = Seq::new(
            rest.len(),
            |k: int| thumbnail_markup(rest[k].attributes.entries(), extra, k as nat, Some(width)),
        );
        g.lemma_flatten_and_flatten_alt_are_equivalent();
        assert(f.drop_last() =~= g);
    } else {
        assert(f.flatten_alt() =~= Seq::<char>::empty());
    }
}

/// The images of a carousel are, in order, the markup of each of its
/// images, each at its own position among the images and in a container
/// `width` wide.
pub proof fn law_images_per_image(
    images: Seq<MJCarouselImage>,
    extra: Seq<(Seq<char>, Seq<char>)>,
    width: Option<Seq<char>>,
)
    ensures
        images_markup(images, extra, width) == Seq::new(
            images.len(),
            |k: int| image_markup(images[k].attributes.entries(), extra, k as nat, width),
        ).flatten(),
    decreases images.len(),
{
    let f = Seq::new(
        images.len(),
        |k: int| image_markup(images[k].attributes.entries(), extra, k as nat, width),
    );
    f.lemma_flatten_and_flatten_alt_are_equivalent();
    if images.len() > 0 {
        let rest = images.drop_last();
        law_images_per_image(rest, extra, width);
        let g = Seq::new(
            rest.len(),
            |k: int| image_markup(rest[k].attributes.entries(), extra, k as nat, width),
        );
        g.lemma_flatten_and_flatten_alt_are_equivalent();
        assert(f.drop_last() =~= g);
    } else {
        assert(f.flatten_alt() =~= Seq::<char>::empty());
    }
}

/// The text of the arrow label for radio `k + 1`.
proof fn lemma_control_label_text(id: Seq<char>, direction: Seq<char>, img: Seq<char>, k: nat)
    ensures
        control_label(id, direction, img, k) == "<label for=\""@ + "mj-carousel-"@ + id + "-radio-"@
            + decimal_text(k + 1) + "\" class=\"mj-carousel-"@ + direction + " mj-carousel-"@
            + direction + "-"@ + decimal_text(k + 1) + "\">"@ + img + "</label>"@,
{
    reveal_strlit("<label for=\"");
    reveal_strlit("\" class=\"mj-carousel-");
    reveal_strlit(" mj-carousel-");
    reveal_strlit("mj-carousel-");
    reveal_strlit("\">");
    reveal_strlit("</label>");
    reveal_strlit("<");
    reveal_strlit("label");
    reveal_strlit(" ");
    reveal_strlit("for");
    reveal_strlit("=\"");
    reveal_strlit("\"");
    reveal_strlit(" class=\"");
    reveal_strlit(">");
    reveal_strlit("</");
    reveal_strlit("-");
    let a = "mj-carousel-"@ + direction;
    let b = "mj-carousel-"@ + direction + "-"@ + decimal_text(k + 1);
    let v = radio_id(id, k + 1);
    let t0 = tag_named("label"@).with_attribute("for"@, v);
    let t1 = t0.with_class(a);
    let t = t1.with_class(b);
    assert(t0.attributes =~= seq![("for"@, v)]);
    assert(t1.classes =~= seq![a]);
    assert(!seq![a].contains(b)) by {
        if seq![a].contains(b) {
            assert(seq![a][0] == b);
            assert(a.len() < b.len());
        }
    }
    assert(t.classes =~= seq![a, b]);
    assert(t.attributes == t0.attributes);
    assert(joined(seq![a, b], " "@) =~= a + " "@ + b) by {
        assert(seq![a, b].drop_last() =~= seq![a]);
        assert(joined(seq![a], " "@) == a);
    }
    assert(attributes_part(seq![("for"@, v)]) =~= " "@ + "for"@ + "=\""@ + v + "\""@) by {
        assert(seq![("for"@, v)].drop_last() =~= Seq::<(Seq<char>, Seq<char>)>::empty());
        assert(attributes_part(Seq::<(Seq<char>, Seq<char>)>::empty()) == Seq::<char>::empty());
    }
    assert(control_label(id, direction, img, k) =~= "<label for=\""@ + "mj-carousel-"@ + id
        + "-radio-"@ + decimal_text(k + 1) + "\" class=\"mj-carousel-"@ + direction
        + " mj-carousel-"@ + direction + "-"@ + decimal_text(k + 1) + "\">"@ + img
        + "</label>"@);
}

/// The arrows of one direction are one label per child, in order: label
/// `k + 1` is for radio `k + 1` and holds the arrow picture.
pub proof fn law_control_labels_per_child(id: Seq<char>, direction: Seq<char>, img: Seq<char>, count: nat)
    ensures
        control_labels(id, direction, img, count) == Seq::new(
            count,
            |k: int|
                "<label for=\""@ + "mj-carousel-"@ + id + "-radio-"@ + decimal_text((k + 1) as nat)
                    + "\" class=\"mj-carousel-"@ + direction + " mj-carousel-"@ + direction + "-"@
                    + decimal_text((k + 1) as nat) + "\">"@ + img + "</label>"@,
        ).flatten(),
    decreases count,
{
    let f = Seq::new(
        count,
        |k: int|
            "<label for=\""@ + "mj-carousel-"@ + id + "-radio-"@ + decimal_text((k + 1) as nat)
                + "\" class=\"mj-carousel-"@ + direction + " mj-carousel-"@ + direction + "-"@
                + decimal_text((k + 1) as nat) + "\">"@ + img + "</label>"@,
    );
    f.lemma_flatten_and_flatten_alt_are_equivalent();
    if count > 0 {
        let c1 = (count - 1) as nat;
        law_control_labels_per_child(id, direction, img, c1);
        let g = Seq::new(
            c1,
            |k: int|
                "<label for=\""@ + "mj-carousel-"@ + id + "-radio-"@ + decimal_text((k + 1) as nat)
                    + "\" class=\"mj-carousel-"@ + direction + " mj-carousel-"@ + direction + "-"@
                    + decimal_text((k + 1) as nat) + "\">"@ + img + "</label>"@,
        );
        g.lemma_flatten_and_flatten_alt_are_equivalent();
        assert(f.drop_last() =~= g);
        lemma_control_label_text(id, direction, img, c1);
    } else {
        assert(f.flatten_alt() =~= Seq::<char>::empty());
    }
}

/// `.mj-carousel-{id}-radio-{position}:checked ` and `skip` siblings skipped.
fn checked_radio_prefix(id: &str, position: usize, skip: usize) -> (r: String)
    ensures
        r@ == ".mj-carousel-"@ + id@ + "-radio-"@ + decimal_text(position as nat) + ":checked "@
            + skip_siblings(skip as nat),
{
    let mut r = String::from_str(".mj-carousel-");
    r.append(id);
    r.append("-radio-");
    push_decimal(&mut r, position);
    r.append(":checked ");
    let rep = repeat(skip, "+ * ");
    r.append(rep.as_str());
    r
}

fn hide_images_selector_text(id: &str, idx: usize) -> (r: String)
    ensures
        r@ == hide_images_selector(id@, idx as nat),
{
    let mut r = String::from_str(".mj-carousel-");
    r.append(id);
    r.append("-radio:checked ");
    let rep = repeat(idx, "+ * ");
    r.append(rep.as_str());
    r.append("+ .mj-carousel-content .mj-carousel-image");
    r
}

fn show_image_selector_text(id: &str, length: usize, idx: usize) -> (r: String)
    requires
        idx < length,
    ensures
        r@ == show_image_selector(id@, length as nat, idx as nat),
{
    let mut r = checked_radio_prefix(id, idx + 1, length - idx - 1);
    r.append("+ .mj-carousel-content .mj-carousel-image-");
    push_decimal(&mut r, idx + 1);
    r
}

fn next_arrow_selector_text(id: &str, length: usize, idx: usize) -> (r: String)
    requires
        idx < length,
    ensures
        r@ == next_arrow_selector(id@, length as nat, idx as nat),
{
    let mut r = checked_radio_prefix(id, idx + 1, length - idx - 1);
    r.append("+ .mj-carousel-content .mj-carousel-next-");
    let index = (idx + 1) % length + 1;
    push_decimal(&mut r, index);
    r
}

fn previous_arrow_selector_text(id: &str, length: usize, idx: usize) -> (r: String)
    requires
        idx < length,
    ensures
        r@ == previous_arrow_selector(id@, length as nat, idx as nat),
{
    let mut r = checked_radio_prefix(id, idx + 1, length - idx - 1);
    r.append("+ .mj-carousel-content .mj-carousel-previous-");
    proof {
        lemma_previous_position(length as nat, idx as nat);
    }
    let index = if idx == 0 {
        length
    } else {
        idx
    };
    push_decimal(&mut r, index);
    r
}

fn selected_thumbnail_selector_text(id: &str, length: usize, idx: usize) -> (r: String)
    requires
        idx < length,
    ensures
        r@ == selected_thumbnail_selector(id@, length as nat, idx as nat),
{
    let mut r = checked_radio_prefix(id, idx + 1, length - idx - 1);
    r.append("+ .mj-carousel-content .mj-carousel-");
    r.append(id);
    r.append("-thumbnail-");
    push_decimal(&mut r, idx + 1);
    r
}

fn hover_hide_selector_text(id: &str, length: usize, idx: usize) -> (r: String)
    requires
        idx < length,
    ensures
        r@ == hover_hide_selector(id@, length as nat, idx as nat),
{
    let mut r = String::from_str(".mj-carousel-");
    r.append(id);
    r.append("-thumbnail:hover ");
    let rep = repeat(length - idx - 1, "+ * ");
    r.append(rep.as_str());
    r.append("+ .mj-carousel-main .mj-carousel-image");
    r
}

fn hover_show_selector_text(id: &str, length: usize, idx: usize) -> (r: String)
    requires
        idx < length,
    ensures
        r@ == hover_show_selector(id@, length as nat, idx as nat),
{
    let mut r = String::from_str(".mj-carousel-");
    r.append(id);
    r.append("-thumbnail-");
    push_decimal(&mut r, idx + 1);
    r.append(":hover ");
    let rep = repeat(length - idx - 1, "+ * ");
    r.append(rep.as_str());
    r.append("+ .mj-carousel-main .mj-carousel-image-");
    push_decimal(&mut r, idx + 1);
    r
}

fn yahoo_rule_text(id: &str, length: usize) -> (r: String)
    requires
        length >= 1,
    ensures
        r@ == yahoo_rule(id@, length as nat),
{
    let mut r = String::from_str("\n        @media screen yahoo {\n            .mj-carousel-");
    r.append(id);
    r.append(
        "-icons-cell,\n            .mj-carousel-previous-icons,\n            .mj-carousel-next-icons {\n                display: none !important;\n            }\n\n            .mj-carousel-",
    );
    r.append(id);
    r.append("-radio-1:checked ");
    let rep = repeat(length - 1, "+ *");
    r.append(rep.as_str());
    r.append("+ .mj-carousel-content .mj-carousel-");
    r.append(id);
    r.append("-thumbnail-1 {\n                border-color: transparent;\n            }\n        }\n        ");
    assert(r@ =~= yahoo_rule(id@, length as nat));
    r
}


fn no_select_rule_text() -> (r: String)
    ensures
        r@ == no_select_rule(),
{
    let st = Style::new().add_str_selector(".mj-carousel").add_str_content(
        "-webkit-user-select: none;",
    ).add_str_content("-moz-user-select: none;").add_str_content("user-select: none;");
    assert(st@.selectors =~= seq![".mj-carousel"@]);
    assert(st@.content =~= seq![
        "-webkit-user-select: none;"@,
        "-moz-user-select: none;"@,
        "user-select: none;"@,
    ]);
    st.to_string()
}

fn icons_cell_rule_text(id: &str, icon_width: &str) -> (r: String)
    ensures
        r@ == icons_cell_rule(id@, icon_width@),
{
    let mut cell = String::from_str(".mj-carousel-");
    cell.append(id);
    cell.append("-icons-cell");
    let mut width = String::from_str("width: ");
    width.append(icon_width);
    width.append(" !important;");
    let st = Style::new().add_selector(cell).add_str_content("display: table-cell !important;").add_content(
        width,
    );
    assert(st@.selectors =~= seq![".mj-carousel-"@ + id@ + "-icons-cell"@]);
    assert(st@.content =~= seq![
        "display: table-cell !important;"@,
        "width: "@ + icon_width@ + " !important;"@,
    ]);
    st.to_string()
}

fn hide_controls_rule_text() -> (r: String)
    ensures
        r@ == hide_controls_rule(),
{
    let st = Style::new().add_str_selector(".mj-carousel-radio").add_str_selector(
        ".mj-carousel-next",
    ).add_str_selector(".mj-carousel-previous").add_str_content("display: none !important;");
    assert(st@.selectors =~= seq![
        ".mj-carousel-radio"@,
        ".mj-carousel-next"@,
        ".mj-carousel-previous"@,
    ]);
    assert(st@.content =~= seq!["display: none !important;"@]);
    st.to_string()
}

fn touch_rule_text() -> (r: String)
    ensures
        r@ == touch_rule(),
{
    let st = Style::new().add_str_selector(".mj-carousel-thumbnail").add_str_selector(
        ".mj-carousel-next",
    ).add_str_selector(".mj-carousel-previous").add_str_content("touch-action: manipulation;");
    assert(st@.selectors =~= seq![
        ".mj-carousel-thumbnail"@,
        ".mj-carousel-next"@,
        ".mj-carousel-previous"@,
    ]);
    assert(st@.content =~= seq!["touch-action: manipulation;"@]);
    st.to_string()
}

fn hide_images_rule_text(id: &str, length: usize) -> (r: String)
    ensures
        r@ == hide_images_rule(id@, length as nat),
{
    let mut st = Style::new();
    let mut idx: usize = 0;
    assert(st@.selectors =~= Seq::new(0, |i: int| hide_images_selector(id@, i as nat)));
    while idx < length
        invariant
            idx <= length,
            st@.selectors == Seq::new(idx as nat, |i: int| hide_images_selector(id@, i as nat)),
            st@.content == Seq::<Seq<char>>::empty(),
        decreases length - idx,
    {
        st = st.add_selector(hide_images_selector_text(id, idx));
        assert(st@.selectors =~= Seq::new(
            (idx + 1) as nat,
            |i: int| hide_images_selector(id@, i as nat),
        ));
        idx = idx + 1;
    }
    let st = st.add_str_content("display: none !important;");
    assert(st@.content =~= seq!["display: none !important;"@]);
    st.to_string()
}

fn show_image_rule_text(id: &str, length: usize) -> (r: String)
    ensures
        r@ == show_image_rule(id@, length as nat),
{
    let mut st = Style::new();
    let mut idx: usize = 0;
    assert(st@.selectors =~= Seq::new(0, |i: int| show_image_selector(id@, length as nat, i as nat)));
    while idx < length
        invariant
            idx <= length,
            st@.selectors == Seq::new(
                idx as nat,
                |i: int| show_image_selector(id@, length as nat, i as nat),
            ),
            st@.content == Seq::<Seq<char>>::empty(),
        decreases length - idx,
    {
        st = st.add_selector(show_image_selector_text(id, length, idx));
        assert(st@.selectors =~= Seq::new(
            (idx + 1) as nat,
            |i: int| show_image_selector(id@, length as nat, i as nat),
        ));
        idx = idx + 1;
    }
    let st = st.add_str_content("display: block !important;");
    assert(st@.content =~= seq!["display: block !important;"@]);
    st.to_string()
}

fn arrows_rule_text(id: &str, length: usize) -> (r: String)
    ensures
        r@ == arrows_rule(id@, length as nat),
{
    let mut st = Style::new().add_str_selector(".mj-carousel-previous-icons").add_str_selector(
        ".mj-carousel-next-icons",
    );
    let ghost base = seq![".mj-carousel-previous-icons"@, ".mj-carousel-next-icons"@];
    assert(st@.selectors =~= base + Seq::new(
        0,
        |i: int| next_arrow_selector(id@, length as nat, i as nat),
    ));
    let mut idx: usize = 0;
    while idx < length
        invariant
            idx <= length,
            st@.selectors == base + Seq::new(
                idx as nat,
                |i: int| next_arrow_selector(id@, length as nat, i as nat),
            ),
            st@.content == Seq::<Seq<char>>::empty(),
        decreases length - idx,
    {
        st = st.add_selector(next_arrow_selector_text(id, length, idx));
        assert(st@.selectors =~= base + Seq::new(
            (idx + 1) as nat,
            |i: int| next_arrow_selector(id@, length as nat, i as nat),
        ));
        idx = idx + 1;
    }
    let ghost base = base + Seq::new(
        length as nat,
        |i: int| next_arrow_selector(id@, length as nat, i as nat),
    );
    assert(st@.selectors =~= base + Seq::new(
        0,
        |i: int| previous_arrow_selector(id@, length as nat, i as nat),
    ));
    let mut idx: usize = 0;
    while idx < length
        invariant
            idx <= length,
            st@.selectors == base + Seq::new(
                idx as nat,
                |i: int| previous_arrow_selector(id@, length as nat, i as nat),
            ),
            st@.content == Seq::<Seq<char>>::empty(),
        decreases length - idx,
    {
        st = st.add_selector(previous_arrow_selector_text(id, length, idx));
        assert(st@.selectors =~= base + Seq::new(
            (idx + 1) as nat,
            |i: int| previous_arrow_selector(id@, length as nat, i as nat),
        ));
        idx = idx + 1;
    }
    let st = st.add_str_content("display: block !important;");
    assert(st@.content =~= seq!["display: block !important;"@]);
    assert(st@.selectors =~= arrow_selectors(id@, length as nat));
    st.to_string()
}

fn selected_thumbnail_rule_text(id: &str, length: usize, color: &str) -> (r: String)
    ensures
        r@ == selected_thumbnail_rule(id@, length as nat, color@),
{
    let mut st = Style::new();
    let mut idx: usize = 0;
    assert(st@.selectors =~= Seq::new(
        0,
        |i: int| selected_thumbnail_selector(id@, length as nat, i as nat),
    ));
    while idx < length
        invariant
            idx <= length,
            st@.selectors == Seq::new(
                idx as nat,
                |i: int| selected_thumbnail_selector(id@, length as nat, i as nat),
            ),
            st@.content == Seq::<Seq<char>>::empty(),
        decreases length - idx,
    {
        st = st.add_selector(selected_thumbnail_selector_text(id, length, idx));
        assert(st@.selectors =~= Seq::new(
            (idx + 1) as nat,
            |i: int| selected_thumbnail_selector(id@, length as nat, i as nat),
        ));
        idx = idx + 1;
    }
    let mut border = String::from_str("border-color: ");
    border.append(color);
    border.append(" !important;");
    let st = st.add_content(border);
    assert(st@.content =~= seq!["border-color: "@ + color@ + " !important;"@]);
    st.to_string()
}

fn hide_following_rule_text() -> (r: String)
    ensures
        r@ == hide_following_rule(),
{
    let st = Style::new().add_str_selector(".mj-carousel-image img + div").add_str_selector(
        ".mj-carousel-thumbnail img + div",
    ).add_str_content("display: none !important;");
    assert(st@.selectors =~= seq![
        ".mj-carousel-image img + div"@,
        ".mj-carousel-thumbnail img + div"@,
    ]);
    assert(st@.content =~= seq!["display: none !important;"@]);
    st.to_string()
}

fn hover_hide_rule_text(id: &str, length: usize) -> (r: String)
    ensures
        r@ == hover_hide_rule(id@, length as nat),
{
    let mut st = Style::new();
    let mut idx: usize = 0;
    assert(st@.selectors =~= Seq::new(0, |i: int| hover_hide_selector(id@, length as nat, i as nat)));
    while idx < length
        invariant
            idx <= length,
            st@.selectors == Seq::new(
                idx as nat,
                |i: int| hover_hide_selector(id@, length as nat, i as nat),
            ),
            st@.content == Seq::<Seq<char>>::empty(),
        decreases length - idx,
    {
        st = st.add_selector(hover_hide_selector_text(id, length, idx));
        assert(st@.selectors =~= Seq::new(
            (idx + 1) as nat,
            |i: int| hover_hide_selector(id@, length as nat, i as nat),
        ));
        idx = idx + 1;
    }
    let st = st.add_str_content("display: none !important;");
    assert(st@.content =~= seq!["display: none !important;"@]);
    st.to_string()
}

fn hover_color_rule_text(color: &str) -> (r: String)
    ensures
        r@ == hover_color_rule(color@),
{
    let mut hover = String::from_str("border-color: ");
    hover.append(color);
    hover.append(" !important;");
    let st = Style::new().add_str_selector(".mj-carousel-thumbnail:hover").add_content(hover);
    assert(st@.selectors =~= seq![".mj-carousel-thumbnail:hover"@]);
    assert(st@.content =~= seq!["border-color: "@ + color@ + " !important;"@]);
    st.to_string()
}

fn hover_show_rule_text(id: &str, length: usize) -> (r: String)
    ensures
        r@ == hover_show_rule(id@, length as nat),
{
    let mut st = Style::new();
    let mut idx: usize = 0;
    assert(st@.selectors =~= Seq::new(0, |i: int| hover_show_selector(id@, length as nat, i as nat)));
    while idx < length
        invariant
            idx <= length,
            st@.selectors == Seq::new(
                idx as nat,
                |i: int| hover_show_selector(id@, length as nat, i as nat),
            ),
            st@.content == Seq::<Seq<char>>::empty(),
        decreases length - idx,
    {
        st = st.add_selector(hover_show_selector_text(id, length, idx));
        assert(st@.selectors =~= Seq::new(
            (idx + 1) as nat,
            |i: int| hover_show_selector(id@, length as nat, i as nat),
        ));
        idx = idx + 1;
    }
    let st = st.add_str_content("display: block !important;");
    assert(st@.content =~= seq!["display: block !important;"@]);
    st.to_string()
}

fn as_opt_str(value: &Option<String>) -> (r: Option<&str>)
    ensures
        opt_view(r) == opt_string_view(*value),
{
    match value {
        Some(v) => Some(v.as_str()),
        None => None,
    }
}

fn clone_opt(value: &Option<String>) -> (r: Option<String>)
    ensures
        opt_string_view(r) == opt_string_view(*value),
{
    match value {
        Some(v) => Some(v.clone()),
        None => None,
    }
}

impl<'e> MJCarouselRender<'e> {
    /// The carousel being rendered.
    pub closed spec fn carousel(&self) -> MJCarousel {
        *self.element
    }

    /// The id that ties the carousel's radios, arrows and rules together.
    pub closed spec fn id(&self) -> Seq<char> {
        self.id@
    }

    /// The width available to the carousel, as CSS pixels.
    pub closed spec fn container_width(&self) -> Option<Seq<char>> {
        opt_string_view(self.container_width)
    }

    /// The width of each thumbnail, as CSS pixels.
    pub closed spec fn thumbnails_width(&self) -> Seq<char> {
        self.thumbnails_width@
    }

    /// The number in the carousel's `icon-width`, if it has one.
    pub closed spec fn icon_width_value(&self) -> Option<Seq<char>> {
        opt_string_view(self.icon_width)
    }

    /// The number of siblings of the carousel.
    pub closed spec fn siblings(&self) -> nat {
        self.siblings as nat
    }

    /// The number of raw siblings of the carousel.
    pub closed spec fn raw_siblings(&self) -> nat {
        self.raw_siblings as nat
    }

    /// The carousel's own attributes.
    pub open spec fn own(&self) -> Seq<(Seq<char>, Seq<char>)> {
        self.carousel().attributes.entries()
    }

    /// What the carousel gives each of its images.
    pub open spec fn extra(&self) -> Seq<(Seq<char>, Seq<char>)> {
        image_extra(self.own(), self.id())
    }

    /// The images of the carousel.
    pub open spec fn images(&self) -> Seq<MJCarouselImage> {
        images_of(self.carousel().children@)
    }

    /// The radio buttons, one per image.
    pub open spec fn radios(&self) -> Seq<char> {
        radios_markup(self.images(), self.extra())
    }

    /// The thumbnails, one per image, unless `thumbnails` is not `visible`.
    pub open spec fn thumbnails(&self) -> Seq<char> {
        if carousel_attribute(self.own(), "thumbnails"@) == Some("visible"@) {
            thumbnails_markup(self.images(), self.extra(), self.thumbnails_width())
        } else {
            Seq::empty()
        }
    }

    /// The cell of arrows in `direction`, one per child.
    pub open spec fn controls(&self, direction: Seq<char>, icon: Seq<char>) -> Seq<char> {
        controls_markup(
            self.own(),
            self.id(),
            self.icon_width_value(),
            self.carousel().children@.len(),
            direction,
            icon,
        )
    }

    /// The cell that holds the images.
    pub open spec fn images_cell(&self) -> Seq<char> {
        tag_named("td"@).with_style("padding"@, "0px"@).around(
            tag_named("div"@).with_class("mj-carousel-images"@).around(
                images_markup(self.images(), self.extra(), self.container_width()),
            ),
        )
    }

    /// The main table: previous arrows, images, next arrows.
    pub open spec fn main_table(&self) -> Seq<char> {
        carousel_table_tag().around(
            tag_named("tbody"@).around(
                tag_named("tr"@).around(
                    self.controls(
                        "previous"@,
                        carousel_attribute(self.own(), "left-icon"@).unwrap(),
                    ) + self.images_cell() + self.controls(
                        "next"@,
                        carousel_attribute(self.own(), "right-icon"@).unwrap(),
                    ),
                ),
            ),
        )
    }

    /// The first image alone, for Outlook and IE.
    pub open spec fn fallback(&self) -> Seq<char> {
        match first_image(self.carousel().children@) {
            Some(img) => mso_conditional(
                image_markup(img.attributes.entries(), self.extra(), 0, self.container_width()),
            ),
            None => Seq::empty(),
        }
    }

    /// The CSS of the carousel; none without children.
    pub open spec fn style(&self) -> Option<Seq<char>> {
        if self.carousel().children@.len() == 0 {
            None
        } else {
            Some(
                joined(
                    style_rules(self.own(), self.id(), self.carousel().children@.len()),
                    "\n"@,
                ),
            )
        }
    }

    /// The markup of the carousel.
    pub open spec fn markup(&self) -> Seq<char> {
        mso_negation_conditional(
            tag_named("div"@).with_class("mj-carousel"@).around(
                self.radios() + content_div_tag(self.id()).around(
                    self.thumbnails() + self.main_table(),
                ),
            ),
        ) + self.fallback()
    }

    /// A renderer of `element` under the id `id`, with no container width,
    /// thumbnails `thumbnails_width` wide (the carousel's `tb-width`, else
    /// zero pixels) and arrows `icon_width` wide (the number in the
    /// carousel's `icon-width`, if any).
    pub fn new(
        element: &'e MJCarousel,
        id: String,
        thumbnails_width: String,
        icon_width: Option<String>,
    ) -> (r: Self)
        ensures
            r.carousel() == *element,
            r.id() == id@,
            r.thumbnails_width() == thumbnails_width@,
            r.icon_width_value() == opt_string_view(icon_width),
            r.container_width() is None,
            r.siblings() == 1,
            r.raw_siblings() == 0,
    {
        MJCarouselRender {
            element,
            id,
            container_width: None,
            siblings: 1,
            raw_siblings: 0,
            thumbnails_width,
            icon_width,
        }
    }

    /// The value of a carousel attribute that the carousel does not set.
    pub fn default_attribute(&self, name: &str) -> (r: Option<&'static str>)
        ensures
            opt_view(r) == carousel_default(name@),
    {
        if same_text(name, "align") {
            Some("center")
        } else if same_text(name, "border-radius") {
            Some("6px")
        } else if same_text(name, "icon-width") {
            Some("44px")
        } else if same_text(name, "left-icon") {
            Some("https://i.imgur.com/xTh3hln.png")
        } else if same_text(name, "right-icon") {
            Some("https://i.imgur.com/os7o9kz.png")
        } else if same_text(name, "thumbnails") {
            Some("visible")
        } else if same_text(name, "tb-border") {
            Some("2px solid transparent")
        } else if same_text(name, "tb-border-radius") {
            Some("6px")
        } else if same_text(name, "tb-hover-border-color") {
            Some("#fead0d")
        } else if same_text(name, "tb-selected-border-color") {
            Some("#cccccc")
        } else {
            None
        }
    }

    /// The value of the carousel attribute `name`: its own, else the default.
    pub fn attribute(&self, name: &str) -> (r: Option<&str>)
        ensures
            opt_view(r) == carousel_attribute(self.own(), name@),
    {
        match self.element.attributes.get(name) {
            Some(v) => Some(v.as_str()),
            None => self.default_attribute(name),
        }
    }

    /// Whether the carousel attribute `name` is `value`.
    pub fn attribute_equals(&self, name: &str, value: &str) -> (r: bool)
        ensures
            r == (carousel_attribute(self.own(), name@) == Some(value@)),
    {
        match self.attribute(name) {
            Some(v) => same_text(v, value),
            None => false,
        }
    }

    /// The carousel's own attributes.
    pub fn attributes(&self) -> (r: Option<&OrderedMap>)
        ensures
            r matches Some(m) && m.entries() == self.own(),
    {
        Some(&self.element.attributes)
    }

    /// The tag name of the element.
    pub fn tag(&self) -> (r: Option<&str>)
        ensures
            r matches Some(t) && t@ == NAME@,
    {
        Some(NAME)
    }

    /// The width available to the carousel.
    pub fn get_width(&self) -> (r: Option<&str>)
        ensures
            opt_view(r) == self.container_width(),
    {
        as_opt_str(&self.container_width)
    }

    /// Sets the width available to the carousel, together with the width
    /// of each thumbnail in a container that wide, so that the two never
    /// disagree. The thumbnail width is the carousel's `tb-width`, else an
    /// equal share of `width` among the children of at most 110 pixels, else
    /// zero pixels; the caller works it out, since it takes floating point.
    pub fn set_container_width(&mut self, width: Option<String>, thumbnails_width: String)
        ensures
            final(self).carousel() == old(self).carousel(),
            final(self).id() == old(self).id(),
            final(self).thumbnails_width() == thumbnails_width@,
            final(self).icon_width_value() == old(self).icon_width_value(),
            final(self).container_width() == opt_string_view(width),
            final(self).siblings() == old(self).siblings(),
            final(self).raw_siblings() == old(self).raw_siblings(),
    {
        self.container_width = width;
        self.thumbnails_width = thumbnails_width;
    }

    /// Sets the number of siblings of the carousel.
    pub fn set_siblings(&mut self, value: usize)
        ensures
            final(self).carousel() == old(self).carousel(),
            final(self).id() == old(self).id(),
            final(self).thumbnails_width() == old(self).thumbnails_width(),
            final(self).icon_width_value() == old(self).icon_width_value(),
            final(self).container_width() == old(self).container_width(),
            final(self).siblings() == value,
            final(self).raw_siblings() == old(self).raw_siblings(),
    {
        self.siblings = value;
    }

    /// Sets the number of raw siblings of the carousel.
    pub fn set_raw_siblings(&mut self, value: usize)
        ensures
            final(self).carousel() == old(self).carousel(),
            final(self).id() == old(self).id(),
            final(self).thumbnails_width() == old(self).thumbnails_width(),
            final(self).icon_width_value() == old(self).icon_width_value(),
            final(self).container_width() == old(self).container_width(),
            final(self).siblings() == old(self).siblings(),
            final(self).raw_siblings() == value,
    {
        self.raw_siblings = value;
    }

    /// A renderer of `image` at `index`, given what the carousel gives its
    /// images.
    fn image_renderer(&self, image: &'e MJCarouselImage, index: usize) -> (r: MJCarouselImageRender<'e>)
        ensures
            r.own() == image.attributes.entries(),
            r.extra() == self.extra(),
            r.index() == index,
            r.container_width() is None,
    {
        let mut renderer = image.renderer();
        renderer.add_extra_attribute("carousel-id", self.id.as_str());
        renderer.maybe_add_extra_attribute("border-radius", self.attribute("border-radius"));
        renderer.maybe_add_extra_attribute("tb-border", self.attribute("tb-border"));
        renderer.maybe_add_extra_attribute("tb-border-radius", self.attribute("tb-border-radius"));
        renderer.set_index(index);
        renderer
    }

    fn set_style_carousel_div(&self, tag: Tag) -> (r: Tag)
        ensures
            r@ == tag@.with_style("display"@, "table"@).with_style("width"@, "100%"@).with_style(
                "table-layout"@,
                "fixed"@,
            ).with_style("text-align"@, "center"@).with_style("font-size"@, "0px"@),
    {
        tag.add_style("display", "table").add_style("width", "100%").add_style(
            "table-layout",
            "fixed",
        ).add_style("text-align", "center").add_style("font-size", "0px")
    }

    fn set_style_carousel_table(&self, tag: Tag) -> (r: Tag)
        ensures
            r@ == tag@.with_style("caption-side"@, "top"@).with_style(
                "display"@,
                "table-caption"@,
            ).with_style("table-layout"@, "fixed"@).with_style("width"@, "100%"@),
    {
        tag.add_style("caption-side", "top").add_style("display", "table-caption").add_style(
            "table-layout",
            "fixed",
        ).add_style("width", "100%")
    }

    fn set_style_images_td(&self, tag: Tag) -> (r: Tag)
        ensures
            r@ == tag@.with_style("padding"@, "0px"@),
    {
        tag.add_style("padding", "0px")
    }

    fn set_style_controls_div(&self, tag: Tag) -> (r: Tag)
        ensures
            r@ == tag@.with_style("display"@, "none"@).with_style("mso-hide"@, "all"@),
    {
        tag.add_style("display", "none").add_style("mso-hide", "all")
    }

    fn set_style_controls_img(&self, tag: Tag) -> (r: Tag)
        ensures
            r@ == tag@.with_style("display"@, "block"@).maybe_with_style(
                "width"@,
                carousel_attribute(self.own(), "icon-width"@),
            ).with_style("height"@, "auto"@),
    {
        tag.add_style("display", "block").maybe_add_style("width", self.attribute("icon-width")).add_style(
            "height",
            "auto",
        )
    }

    fn set_style_controls_td(&self, tag: Tag) -> (r: Tag)
        ensures
            r@ == tag@.with_style("font-size"@, "0px"@).with_style("display"@, "none"@).with_style(
                "mso-hide"@,
                "all"@,
            ).with_style("padding"@, "0px"@),
    {
        tag.add_style("font-size", "0px").add_style("display", "none").add_style(
            "mso-hide",
            "all",
        ).add_style("padding", "0px")
    }

    /// The radio buttons, one per image.
    fn render_radios(&self) -> (r: Result<String, Error>)
        ensures
            r matches Ok(s) && s@ == self.radios(),
    {
        let element = self.element;
        let ghost children = element.children@;
        let mut res = String::new();
        let mut k: usize = 0;
        let mut i: usize = 0;
        while i < element.children.len()
            invariant
                *element == self.carousel(),
                children == element.children@,
                i <= element.children.len(),
                k == images_of(children.take(i as int)).len(),
                k <= i,
                res@ == radios_markup(images_of(children.take(i as int)), self.extra()),
            decreases element.children.len() - i,
        {
            proof {
                lemma_images_step(children, i as int);
            }
            if let Some(child) = element.children[i].as_image() {
                let renderer = self.image_renderer(child, k);
                let fragment = renderer.render_fragment("radio")?;
                res.append(fragment.as_str());
                proof {
                    let imgs = images_of(children.take(i as int));
                    assert(imgs.push(*child).drop_last() =~= imgs);
                }
                k = k + 1;
            }
            i = i + 1;
        }
        proof {
            assert(children.take(i as int) =~= children);
        }
        Ok(res)
    }

    /// The thumbnails, one per image, when `thumbnails` is `visible`.
    fn render_thumbnails(&self) -> (r: Result<String, Error>)
        ensures
            r matches Ok(s) && s@ == self.thumbnails(),
    {
        if !self.attribute_equals("thumbnails", "visible") {
            return Ok(String::new());
        }
        let element = self.element;
        let ghost children = element.children@;
        let mut res = String::new();
        let mut k: usize = 0;
        let mut i: usize = 0;
        while i < element.children.len()
            invariant
                *element == self.carousel(),
                children == element.children@,
                i <= element.children.len(),
                k == images_of(children.take(i as int)).len(),
                k <= i,
                res@ == thumbnails_markup(
                    images_of(children.take(i as int)),
                    self.extra(),
                    self.thumbnails_width(),
                ),
            decreases element.children.len() - i,
        {
            proof {
                lemma_images_step(children, i as int);
            }
            if let Some(child) = element.children[i].as_image() {
                let mut renderer = self.image_renderer(child, k);
                renderer.set_container_width(Some(self.thumbnails_width.clone()));
                let fragment = renderer.render_fragment("thumbnail")?;
                res.append(fragment.as_str());
                proof {
                    let imgs = images_of(children.take(i as int));
                    assert(imgs.push(*child).drop_last() =~= imgs);
                }
                k = k + 1;
            }
            i = i + 1;
        }
        proof {
            assert(children.take(i as int) =~= children);
        }
        Ok(res)
    }

    /// The cell of arrows in `direction`, one per child, showing `icon`.
    fn render_controls(&self, direction: &str, icon: &str) -> (r: String)
        ensures
            r@ == self.controls(direction@, icon@),
    {
        let img = self.set_style_controls_img(Tag::new("img")).add_attribute("src", icon).add_attribute(
            "alt",
            direction,
        ).maybe_add_attribute("width", as_opt_str(&self.icon_width)).closed();
        let n = self.element.children.len();
        let id = self.id.as_str();
        let mut items = String::new();
        let mut idx: usize = 0;
        while idx < n
            invariant
                idx <= n,
                n == self.carousel().children@.len(),
                id@ == self.id(),
                items@ == control_labels(id@, direction@, img@, idx as nat),
            decreases n - idx,
        {
            let mut target = String::from_str("mj-carousel-");
            target.append(id);
            target.append("-radio-");
            push_decimal(&mut target, idx + 1);
            let mut direction_class = String::from_str("mj-carousel-");
            direction_class.append(direction);
            let mut position_class = String::from_str("mj-carousel-");
            position_class.append(direction);
            position_class.append("-");
            push_decimal(&mut position_class, idx + 1);
            let label = Tag::new("label").add_attribute("for", target.as_str()).add_class(
                direction_class.as_str(),
            ).add_class(position_class.as_str()).render(img.as_str());
            items.append(label.as_str());
            idx = idx + 1;
        }
        let mut icons_class = String::from_str("mj-carousel-");
        icons_class.append(direction);
        icons_class.append("-icons");
        let div = self.set_style_controls_div(Tag::div()).add_class(icons_class.as_str()).render(
            items.as_str(),
        );
        let mut cell_class = String::from_str("mj-carousel-");
        cell_class.append(id);
        cell_class.append("-icons-cell");
        self.set_style_controls_td(Tag::td()).add_class(cell_class.as_str()).render(div.as_str())
    }

    /// The cell that holds the images.
    fn render_images(&self) -> (r: Result<String, Error>)
        ensures
            r matches Ok(s) && s@ == self.images_cell(),
    {
        let element = self.element;
        let ghost children = element.children@;
        let mut content = String::new();
        let mut k: usize = 0;
        let mut i: usize = 0;
        while i < element.children.len()
            invariant
                *element == self.carousel(),
                children == element.children@,
                i <= element.children.len(),
                k == images_of(children.take(i as int)).len(),
                k <= i,
                content@ == images_markup(
                    images_of(children.take(i as int)),
                    self.extra(),
                    self.container_width(),
                ),
            decreases element.children.len() - i,
        {
            proof {
                lemma_images_step(children, i as int);
            }
            if let Some(child) = element.children[i].as_image() {
                let mut renderer = self.image_renderer(child, k);
                renderer.set_container_width(clone_opt(&self.container_width));
                let image = renderer.render()?;
                content.append(image.as_str());
                proof {
                    let imgs = images_of(children.take(i as int));
                    assert(imgs.push(*child).drop_last() =~= imgs);
                }
                k = k + 1;
            }
            i = i + 1;
        }
        proof {
            assert(children.take(i as int) =~= children);
        }
        let div = Tag::div().add_class("mj-carousel-images").render(content.as_str());
        Ok(self.set_style_images_td(Tag::td()).render(div.as_str()))
    }

    /// The main table: previous arrows, images, next arrows.
    fn render_carousel(&self) -> (r: Result<String, Error>)
        ensures
            r matches Ok(s) && s@ == self.main_table(),
    {
        let left = self.attribute("left-icon").unwrap();
        let right = self.attribute("right-icon").unwrap();
        let mut row = self.render_controls("previous", left);
        let images = self.render_images()?;
        let next = self.render_controls("next", right);
        row.append(images.as_str());
        row.append(next.as_str());
        assert(row@ == self.controls("previous"@, carousel_attribute(self.own(), "left-icon"@).unwrap())
            + self.images_cell() + self.controls("next"@, carousel_attribute(self.own(), "right-icon"@).unwrap()));
        let tr = Tag::tr().render(row.as_str());
        let tbody = Tag::tbody().render(tr.as_str());
        let table = self.set_style_carousel_table(Tag::table_presentation()).add_attribute(
            "width",
            "100%",
        ).add_class("mj-carousel-main").render(tbody.as_str());
        Ok(table)
    }

    /// The first image alone, for Outlook and IE.
    fn render_fallback(&self) -> (r: Result<String, Error>)
        ensures
            r matches Ok(s) && s@ == self.fallback(),
    {
        let element = self.element;
        let ghost children = element.children@;
        let mut i: usize = 0;
        while i < element.children.len()
            invariant
                *element == self.carousel(),
                children == element.children@,
                i <= element.children.len(),
                images_of(children.take(i as int)).len() == 0,
            decreases element.children.len() - i,
        {
            proof {
                lemma_images_step(children, i as int);
            }
            if let Some(child) = element.children[i].as_image() {
                proof {
                    lemma_images_prefix(children, i + 1);
                    assert(images_of(children.take(i + 1))[0] == *child);
                }
                let mut renderer = self.image_renderer(child, 0);
                renderer.set_container_width(clone_opt(&self.container_width));
                let image = renderer.render()?;
                return Ok(mso_conditional_tag(image.as_str()));
            }
            i = i + 1;
        }
        proof {
            assert(children.take(i as int) =~= children);
        }
        Ok(String::new())
    }

    /// The CSS of the carousel; none without children.
    pub fn render_style(&self) -> (r: Option<String>)
        ensures
            opt_string_view(r) == self.style(),
    {
        let length = self.element.children.len();
        if length == 0 {
            return None;
        }
        let id = self.id.as_str();
        let mut style: Vec<String> = Vec::new();
        style.push(no_select_rule_text());
        style.push(icons_cell_rule_text(id, self.attribute("icon-width").unwrap()));
        style.push(hide_controls_rule_text());
        style.push(touch_rule_text());
        style.push(hide_images_rule_text(id, length));
        style.push(show_image_rule_text(id, length));
        style.push(arrows_rule_text(id, length));
        style.push(
            selected_thumbnail_rule_text(id, length, self.attribute("tb-selected-border-color").unwrap()),
        );
        style.push(hide_following_rule_text());
        style.push(hover_hide_rule_text(id, length));
        style.push(hover_color_rule_text(self.attribute("tb-hover-border-color").unwrap()));
        style.push(hover_show_rule_text(id, length));
        style.push(String::from_str(".mj-carousel noinput { display:block !important; }"));
        style.push(
            String::from_str(
                ".mj-carousel noinput .mj-carousel-image-1 { display: block !important;  }",
            ),
        );
        style.push(
            String::from_str(
                ".mj-carousel noinput .mj-carousel-arrows, .mj-carousel noinput .mj-carousel-thumbnails { display: none !important; }",
            ),
        );
        style.push(String::from_str("[owa] .mj-carousel-thumbnail { display: none !important; }"));
        style.push(yahoo_rule_text(id, length));
        proof {
            assert(views(style@) =~= style_rules(self.own(), self.id(), length as nat));
        }
        Some(join(&style, "\n"))
    }

    /// Renders the carousel, adding its CSS to `header`.
    pub fn render(&self, header: &mut Header) -> (r: Result<String, Error>)
        ensures
            r matches Ok(s) && s@ == self.markup(),
            final(header).spec_head() == old(header).spec_head(),
            final(header).font_family_items() == old(header).font_family_items(),
            final(header).style_items() == match self.style() {
                Some(s) => with_item(old(header).style_items(), s),
                None => old(header).style_items(),
            },
    {
        let styles = self.render_style();
        header.maybe_add_style(styles);
        let radios = self.render_radios()?;
        let thumbnails = self.render_thumbnails()?;
        let carousel = self.render_carousel()?;
        let mut content = thumbnails;
        content.append(carousel.as_str());
        let mut content_class = String::from_str("mj-carousel-");
        content_class.append(self.id.as_str());
        content_class.append("-content");
        let inner_div = self.set_style_carousel_div(Tag::div()).add_class("mj-carousel-content").add_class(
            content_class.as_str(),
        ).render(content.as_str());
        let fallback = self.render_fallback()?;
        let mut body = radios;
        body.append(inner_div.as_str());
        let div = Tag::div().add_class("mj-carousel").render(body.as_str());
        let mut r = mso_negation_conditional_tag(div.as_str());
        r.append(fallback.as_str());
        Ok(r)
    }
}

} // verus!

//! The `mj-carousel-image` element: one picture of a carousel, with the radio
//! button and the thumbnail that select it.
use crate::hash::{lookup, upsert, OrderedMap};
use crate::prelude::Error;
use crate::tag::{attributes_part, tag_named, Tag, TagSpec};
use crate::text::{decimal_text, digit_prefix, leading_digits, push_decimal, same_text};
use vstd::prelude::*;
use vstd::string::*;

verus! {

/// The tag name of carousel images.
pub const NAME: &'static str = "mj-carousel-image";

/// The view of an optional borrowed text.
pub open spec fn opt_view(value: Option<&str>) -> Option<Seq<char>> {
    match value {
        Some(v) => Some(v@),
        None => None,
    }
}

/// The view of an optional owned text.
pub open spec fn opt_string_view(value: Option<String>) -> Option<Seq<char>> {
    match value {
        Some(v) => Some(v@),
        None => None,
    }
}

/// `entries` with `value` stored under `key` when there is a value.
pub open spec fn maybe_upsert(
    entries: Seq<(Seq<char>, Seq<char>)>,
    key: Seq<char>,
    value: Option<Seq<char>>,
) -> Seq<(Seq<char>, Seq<char>)> {
    match value {
        Some(v) => upsert(entries, key, v),
        None => entries,
    }
}

/// The value of an image attribute that neither the image nor its carousel
/// sets.
pub open spec fn image_default(name: Seq<char>) -> Option<Seq<char>> {
    if name == "target"@ {
        Some("_blank"@)
    } else {
        None
    }
}

/// The value of the attribute `name` of an image whose own attributes are
/// `own` and which its carousel gave `extra`: what the carousel gave first,
/// then the image's own, then the default.
pub open spec fn image_attribute(
    own: Seq<(Seq<char>, Seq<char>)>,
    extra: Seq<(Seq<char>, Seq<char>)>,
    name: Seq<char>,
) -> Option<Seq<char>> {
    match lookup(extra, name) {
        Some(v) => Some(v),
        None => match lookup(own, name) {
            Some(v) => Some(v),
            None => image_default(name),
        },
    }
}

/// The text of an optional attribute, or nothing.
pub open spec fn or_empty(value: Option<Seq<char>>) -> Seq<char> {
    match value {
        Some(v) => v,
        None => Seq::empty(),
    }
}

/// `mj-carousel-{id}-radio-{position}`: the id of the radio button of the
/// image at `position` (counted from 1).
pub open spec fn radio_id(id: Seq<char>, position: nat) -> Seq<char> {
    "mj-carousel-"@ + id + "-radio-"@ + decimal_text(position)
}

/// The radio button that selects the image at `index` (counted from 0).
pub open spec fn radio_tag(id: Seq<char>, index: nat) -> TagSpec {
    tag_named("input"@).with_class("mj-carousel-radio"@).with_class(
        "mj-carousel-"@ + id + "-radio"@,
    ).with_class(radio_id(id, index + 1)).maybe_with_attribute(
        "checked"@,
        if index == 0 {
            Some("checked"@)
        } else {
            None
        },
    ).with_attribute("type"@, "radio"@).with_attribute(
        "name"@,
        "mj-carousel-radio-"@ + id,
    ).with_attribute("id"@, radio_id(id, index + 1)).with_style("display"@, "none"@).with_style(
        "mso-hide"@,
        "all"@,
    )
}

/// The radio button fragment of an image.
pub open spec fn radio_markup(
    own: Seq<(Seq<char>, Seq<char>)>,
    extra: Seq<(Seq<char>, Seq<char>)>,
    index: nat,
) -> Seq<char> {
    radio_tag(or_empty(image_attribute(own, extra, "carousel-id"@)), index).self_closed()
}

/// The `width` attribute for a width: its leading digits.
pub open spec fn width_number(width: Option<Seq<char>>) -> Option<Seq<char>> {
    match width {
        Some(w) => Some(digit_prefix(w)),
        None => None,
    }
}

/// The picture inside a thumbnail.
pub open spec fn thumbnail_img_tag(
    own: Seq<(Seq<char>, Seq<char>)>,
    extra: Seq<(Seq<char>, Seq<char>)>,
    width: Option<Seq<char>>,
) -> TagSpec {
    let src = match image_attribute(own, extra, "thumbnails-src"@) {
        Some(s) => s,
        None => or_empty(image_attribute(own, extra, "src"@)),
    };
    tag_named("img"@).with_attribute("src"@, src).maybe_with_attribute(
        "alt"@,
        image_attribute(own, extra, "alt"@),
    ).maybe_with_attribute("width"@, width_number(width)).with_style("display"@, "block"@).with_style(
        "width"@,
        "100%"@,
    ).with_style("height"@, "auto"@)
}

/// The link around a thumbnail.
pub open spec fn thumbnail_link_tag(
    own: Seq<(Seq<char>, Seq<char>)>,
    extra: Seq<(Seq<char>, Seq<char>)>,
    index: nat,
    width: Option<Seq<char>>,
) -> TagSpec {
    let id = or_empty(image_attribute(own, extra, "carousel-id"@));
    tag_named("a"@).with_attribute("href"@, "#"@ + decimal_text(index + 1)).maybe_with_attribute(
        "target"@,
        image_attribute(own, extra, "target"@),
    ).with_class("mj-carousel-thumbnail"@).with_class(
        "mj-carousel-"@ + id + "-thumbnail"@,
    ).with_class("mj-carousel-"@ + id + "-thumbnail-"@ + decimal_text(index + 1)).maybe_with_style(
        "border"@,
        image_attribute(own, extra, "tb-border"@),
    ).maybe_with_style(
        "border-radius"@,
        image_attribute(own, extra, "tb-border-radius"@),
    ).with_style("display"@, "inline-block"@).with_style("overflow"@, "hidden"@).maybe_with_style(
        "width"@,
        width,
    )
}

/// The thumbnail fragment of an image: a link holding a label for its radio
/// button, holding the picture.
pub open spec fn thumbnail_markup(
    own: Seq<(Seq<char>, Seq<char>)>,
    extra: Seq<(Seq<char>, Seq<char>)>,
    index: nat,
    width: Option<Seq<char>>,
) -> Seq<char> {
    let id = or_empty(image_attribute(own, extra, "carousel-id"@));
    thumbnail_link_tag(own, extra, index, width).around(
        tag_named("label"@).with_attribute("for"@, radio_id(id, index + 1)).around(
            thumbnail_img_tag(own, extra, width).self_closed(),
        ),
    )
}

/// The picture of an image.
pub open spec fn image_img_tag(
    own: Seq<(Seq<char>, Seq<char>)>,
    extra: Seq<(Seq<char>, Seq<char>)>,
    width: Option<Seq<char>>,
) -> TagSpec {
    tag_named("img"@).maybe_with_attribute("title"@, image_attribute(own, extra, "title"@)).with_attribute(
        "src"@,
        or_empty(image_attribute(own, extra, "src"@)),
    ).maybe_with_attribute("alt"@, image_attribute(own, extra, "alt"@)).maybe_with_attribute(
        "width"@,
        width_number(width),
    ).with_attribute("border"@, "0"@).maybe_with_style(
        "border-radius"@,
        image_attribute(own, extra, "border-radius"@),
    ).with_style("display"@, "block"@).maybe_with_style("width"@, width).with_style(
        "max-width"@,
        "100%"@,
    ).with_style("height"@, "auto"@)
}

/// The picture, inside a link when the image has an `href`.
pub open spec fn image_link_markup(
    own: Seq<(Seq<char>, Seq<char>)>,
    extra: Seq<(Seq<char>, Seq<char>)>,
    width: Option<Seq<char>>,
) -> Seq<char> {
    let img = image_img_tag(own, extra, width).self_closed();
    match image_attribute(own, extra, "href"@) {
        Some(href) => tag_named("a"@).with_attribute("href"@, href).maybe_with_attribute(
            "rel"@,
            image_attribute(own, extra, "rel"@),
        ).with_attribute("target"@, "_blank"@).around(img),
        None => img,
    }
}

/// The block that holds an image; every image but the first starts hidden.
pub open spec fn image_div_tag(
    own: Seq<(Seq<char>, Seq<char>)>,
    extra: Seq<(Seq<char>, Seq<char>)>,
    index: nat,
) -> TagSpec {
    let t = tag_named("div"@).with_class("mj-carousel-image"@).with_class(
        "mj-carousel-image-"@ + decimal_text(index + 1),
    ).maybe_with_class(image_attribute(own, extra, "css-class"@));
    if index == 0 {
        t
    } else {
        t.with_style("display"@, "none"@).with_style("mso-hide"@, "all"@)
    }
}

/// The markup of an image.
pub open spec fn image_markup(
    own: Seq<(Seq<char>, Seq<char>)>,
    extra: Seq<(Seq<char>, Seq<char>)>,
    index: nat,
    width: Option<Seq<char>>,
) -> Seq<char> {
    image_div_tag(own, extra, index).around(image_link_markup(own, extra, width))
}

/// The `mj-carousel-image` element.
pub struct MJCarouselImage {
    pub attributes: OrderedMap,
}

impl MJCarouselImage {
    /// A renderer of the image, at index 0, with nothing given by a carousel.
    pub fn renderer(&self) -> (r: MJCarouselImageRender<'_>)
        ensures
            r.own() == self.attributes.entries(),
            r.extra() == Seq::<(Seq<char>, Seq<char>)>::empty(),
            r.index() == 0,
            r.container_width() is None,
    {
        MJCarouselImageRender {
            element: self,
            extra: OrderedMap::new(),
            index: 0,
            container_width: None,
        }
    }
}

/// The renderer of a carousel image.
pub struct MJCarouselImageRender<'e> {
    element: &'e MJCarouselImage,
    extra: OrderedMap,
    index: usize,
    container_width: Option<String>,
}

impl<'e> MJCarouselImageRender<'e> {
    /// The image's own attributes.
    pub closed spec fn own(&self) -> Seq<(Seq<char>, Seq<char>)> {
        self.element.attributes.entries()
    }

    /// The attributes given by the carousel.
    pub closed spec fn extra(&self) -> Seq<(Seq<char>, Seq<char>)> {
        self.extra.entries()
    }

    /// The position of the image among the carousel's images.
    pub closed spec fn index(&self) -> nat {
        self.index as nat
    }

    /// The width available to the image, as CSS pixels.
    pub closed spec fn container_width(&self) -> Option<Seq<char>> {
        opt_string_view(self.container_width)
    }

    /// Gives the image the attribute `key` with `value`.
    pub fn add_extra_attribute(&mut self, key: &str, value: &str)
        ensures
            final(self).own() == old(self).own(),
            final(self).extra() == upsert(old(self).extra(), key@, value@),
            final(self).index() == old(self).index(),
            final(self).container_width() == old(self).container_width(),
    {
        self.extra.insert(String::from_str(key), String::from_str(value));
    }

    /// Gives the image the attribute `key` when there is a value.
    pub fn maybe_add_extra_attribute(&mut self, key: &str, value: Option<&str>)
        ensures
            final(self).own() == old(self).own(),
            final(self).extra() == maybe_upsert(old(self).extra(), key@, opt_view(value)),
            final(self).index() == old(self).index(),
            final(self).container_width() == old(self).container_width(),
    {
        if let Some(v) = value {
            self.add_extra_attribute(key, v);
        }
    }

    /// Sets the position of the image among the carousel's images.
    pub fn set_index(&mut self, index: usize)
        ensures
            final(self).own() == old(self).own(),
            final(self).extra() == old(self).extra(),
            final(self).index() == index,
            final(self).container_width() == old(self).container_width(),
    {
        self.index = index;
    }

    /// Sets the width available to the image.
    pub fn set_container_width(&mut self, width: Option<String>)
        ensures
            final(self).own() == old(self).own(),
            final(self).extra() == old(self).extra(),
            final(self).index() == old(self).index(),
            final(self).container_width() == opt_string_view(width),
    {
        self.container_width = width;
    }

    /// The value of the attribute `name`.
    pub fn attribute(&self, name: &str) -> (r: Option<&str>)
        ensures
            opt_view(r) == image_attribute(self.own(), self.extra(), name@),
    {
        if let Some(v) = self.extra.get(name) {
            return Some(v.as_str());
        }
        if let Some(v) = self.element.attributes.get(name) {
            return Some(v.as_str());
        }
        if same_text(name, "target") {
            Some("_blank")
        } else {
            None
        }
    }

    fn attribute_or_empty(&self, name: &str) -> (r: &str)
        ensures
            r@ == or_empty(image_attribute(self.own(), self.extra(), name@)),
    {
        proof {
            reveal_strlit("");
        }
        match self.attribute(name) {
            Some(v) => v,
            None => "",
        }
    }

    fn width_number(&self) -> (r: Option<String>)
        ensures
            opt_string_view(r) == width_number(self.container_width()),
    {
        match &self.container_width {
            Some(w) => Some(leading_digits(w.as_str())),
            None => None,
        }
    }

    /// The radio button fragment.
    pub fn render_radio(&self) -> (r: String)
        requires
            self.index() < usize::MAX,
        ensures
            r@ == radio_markup(self.own(), self.extra(), self.index()),
    {
        let id = self.attribute_or_empty("carousel-id");
        let position = self.index + 1;
        let mut group = String::from_str("mj-carousel-");
        group.append(id);
        group.append("-radio");
        let mut radio = String::from_str("mj-carousel-");
        radio.append(id);
        radio.append("-radio-");
        push_decimal(&mut radio, position);
        let mut name = String::from_str("mj-carousel-radio-");
        name.append(id);
        let checked = if self.index == 0 {
            Some("checked")
        } else {
            None
        };
        proof {
            reveal_strlit("checked");
        }
        let t = Tag::new("input").add_class("mj-carousel-radio").add_class(group.as_str()).add_class(
            radio.as_str(),
        ).maybe_add_attribute("checked", checked).add_attribute("type", "radio").add_attribute(
            "name",
            name.as_str(),
        ).add_attribute("id", radio.as_str()).add_style("display", "none").add_style(
            "mso-hide",
            "all",
        );
        t.closed()
    }

    /// The thumbnail fragment.
    pub fn render_thumbnail(&self) -> (r: String)
        requires
            self.index() < usize::MAX,
        ensures
            r@ == thumbnail_markup(self.own(), self.extra(), self.index(), self.container_width()),
    {
        let id = self.attribute_or_empty("carousel-id");
        let position = self.index + 1;
        let src = match self.attribute("thumbnails-src") {
            Some(s) => s,
            None => self.attribute_or_empty("src"),
        };
        let width_number = self.width_number();
        let width_number_ref = match &width_number {
            Some(w) => Some(w.as_str()),
            None => None,
        };
        let img = Tag::new("img").add_attribute("src", src).maybe_add_attribute(
            "alt",
            self.attribute("alt"),
        ).maybe_add_attribute("width", width_number_ref).add_style("display", "block").add_style(
            "width",
            "100%",
        ).add_style("height", "auto").closed();
        let mut radio = String::from_str("mj-carousel-");
        radio.append(id);
        radio.append("-radio-");
        push_decimal(&mut radio, position);
        let label = Tag::new("label").add_attribute("for", radio.as_str()).render(img.as_str());
        let mut href = String::from_str("#");
        push_decimal(&mut href, position);
        let mut group = String::from_str("mj-carousel-");
        group.append(id);
        group.append("-thumbnail");
        let mut own_class = String::from_str("mj-carousel-");
        own_class.append(id);
        own_class.append("-thumbnail-");
        push_decimal(&mut own_class, position);
        let width_ref = match &self.container_width {
            Some(w) => Some(w.as_str()),
            None => None,
        };
        let link = Tag::new("a").add_attribute("href", href.as_str()).maybe_add_attribute(
            "target",
            self.attribute("target"),
        ).add_class("mj-carousel-thumbnail").add_class(group.as_str()).add_class(
            own_class.as_str(),
        ).maybe_add_style("border", self.attribute("tb-border")).maybe_add_style(
            "border-radius",
            self.attribute("tb-border-radius"),
        ).add_style("display", "inline-block").add_style("overflow", "hidden").maybe_add_style(
            "width",
            width_ref,
        );
        link.render(label.as_str())
    }

    /// The image itself.
    pub fn render(&self) -> (r: Result<String, Error>)
        requires
            self.index() < usize::MAX,
        ensures
            r matches Ok(s) && s@ == image_markup(
                self.own(),
                self.extra(),
                self.index(),
                self.container_width(),
            ),
    {
        let width_number = self.width_number();
        let width_number_ref = match &width_number {
            Some(w) => Some(w.as_str()),
            None => None,
        };
        let width_ref = match &self.container_width {
            Some(w) => Some(w.as_str()),
            None => None,
        };
        let img = Tag::new("img").maybe_add_attribute("title", self.attribute("title")).add_attribute(
            "src",
            self.attribute_or_empty("src"),
        ).maybe_add_attribute("alt", self.attribute("alt")).maybe_add_attribute(
            "width",
            width_number_ref,
        ).add_attribute("border", "0").maybe_add_style(
            "border-radius",
            self.attribute("border-radius"),
        ).add_style("display", "block").maybe_add_style("width", width_ref).add_style(
            "max-width",
            "100%",
        ).add_style("height", "auto").closed();
        let link = match self.attribute("href") {
            Some(href) => Tag::new("a").add_attribute("href", href).maybe_add_attribute(
                "rel",
                self.attribute("rel"),
            ).add_attribute("target", "_blank").render(img.as_str()),
            None => img,
        };
        let mut own_class = String::from_str("mj-carousel-image-");
        push_decimal(&mut own_class, self.index + 1);
        let div = Tag::div().add_class("mj-carousel-image").add_class(own_class.as_str()).maybe_add_class(
            self.attribute("css-class"),
        );
        let div = if self.index == 0 {
            div
        } else {
            div.add_style("display", "none").add_style("mso-hide", "all")
        };
        Ok(div.render(link.as_str()))
    }

    /// The fragment called `name`: `radio` or `thumbnail`.
    pub fn render_fragment(&self, name: &str) -> (r: Result<String, Error>)
        requires
            self.index() < usize::MAX,
        ensures
            name@ == "radio"@ ==> (r matches Ok(s) && s@ == radio_markup(
                self.own(),
                self.extra(),
                self.index(),
            )),
            name@ == "thumbnail"@ ==> (r matches Ok(s) && s@ == thumbnail_markup(
                self.own(),
                self.extra(),
                self.index(),
                self.container_width(),
            )),
            name@ != "radio"@ && name@ != "thumbnail"@ ==> (r matches Err(
                Error::UnknownFragment(n),
            ) && n@ == name@),
    {
        proof {
            reveal_strlit("radio");
            reveal_strlit("thumbnail");
            assert("thumbnail"@.len() != "radio"@.len());
        }
        if same_text(name, "radio") {
            Ok(self.render_radio())
        } else if same_text(name, "thumbnail") {
            Ok(self.render_thumbnail())
        } else {
            Err(Error::UnknownFragment(String::from_str(name)))
        }
    }
}

/// An image with an `href` is a link to that address, carrying the image's
/// `rel` when it has one and opening in a new tab, around the picture; an
/// image without an `href` is the bare picture. Either way it stands in the
/// image's block.
pub proof fn law_image_link(
    own: Seq<(Seq<char>, Seq<char>)>,
    extra: Seq<(Seq<char>, Seq<char>)>,
    index: nat,
    width: Option<Seq<char>>,
)
    ensures
        ({
            let picture = image_img_tag(own, extra, width).self_closed();
            let inner = match image_attribute(own, extra, "href"@) {
                Some(href) => "<a href=\""@ + href + "\""@ + match image_attribute(
                    own,
                    extra,
                    "rel"@,
                ) {
                    Some(rel) => " rel=\""@ + rel + "\""@,
                    None => Seq::<char>::empty(),
                } + " target=\"_blank\">"@ + picture + "</a>"@,
                None => picture,
            };
            image_markup(own, extra, index, width) == image_div_tag(own, extra, index).opening()
                + inner + "</div>"@
        }),
{
    reveal_strlit("<a href=\"");
    reveal_strlit("\"");
    reveal_strlit(" rel=\"");
    reveal_strlit(" target=\"_blank\">");
    reveal_strlit("</a>");
    reveal_strlit("</div>");
    reveal_strlit("</");
    reveal_strlit("div");
    reveal_strlit("a");
    reveal_strlit("<");
    reveal_strlit(">");
    reveal_strlit(" ");
    reveal_strlit("=\"");
    reveal_strlit("href");
    reveal_strlit("rel");
    reveal_strlit("target");
    reveal_strlit("_blank");
    let picture = image_img_tag(own, extra, width).self_closed();
    let empty = Seq::<(Seq<char>, Seq<char>)>::empty();
    assert(attributes_part(empty) == Seq::<char>::empty());
    match image_attribute(own, extra, "href"@) {
        Some(href) => {
            let t0 = tag_named("a"@).with_attribute("href"@, href);
            assert(t0.attributes =~= seq![("href"@, href)]);
            let t1 = t0.maybe_with_attribute("rel"@, image_attribute(own, extra, "rel"@));
            let t2 = t1.with_attribute("target"@, "_blank"@);
            assert("href"@ != "rel"@) by {
                assert("href"@.len() != "rel"@.len());
            }
            assert("href"@ != "target"@) by {
                assert("href"@.len() != "target"@.len());
            }
            assert("rel"@ != "target"@) by {
                assert("rel"@.len() != "target"@.len());
            }
            match image_attribute(own, extra, "rel"@) {
                Some(rel) => {
                    crate::hash::lemma_key_index_at(t0.attributes, "rel"@, 1);
                    assert(t1.attributes =~= seq![("href"@, href), ("rel"@, rel)]);
                    crate::hash::lemma_key_index_at(t1.attributes, "target"@, 2);
                    let a3 = seq![("href"@, href), ("rel"@, rel), ("target"@, "_blank"@)];
                    assert(t2.attributes =~= a3);
                    assert(a3.drop_last() =~= seq![("href"@, href), ("rel"@, rel)]);
                    assert(a3.drop_last().drop_last() =~= seq![("href"@, href)]);
                    assert(a3.drop_last().drop_last().drop_last() =~= empty);
                    let one = " "@ + "href"@ + "=\""@ + href + "\""@;
                    assert(attributes_part(seq![("href"@, href)]) =~= one);
                    assert(attributes_part(seq![("href"@, href), ("rel"@, rel)]) =~= one + " "@
                        + "rel"@ + "=\""@ + rel + "\""@);
                    assert(attributes_part(a3) =~= " "@ + "href"@ + "=\""@ + href + "\""@ + " "@
                        + "rel"@ + "=\""@ + rel + "\""@ + " "@ + "target"@ + "=\""@ + "_blank"@
                        + "\""@);
                },
                None => {
                    crate::hash::lemma_key_index_at(t1.attributes, "target"@, 1);
                    let a2 = seq![("href"@, href), ("target"@, "_blank"@)];
                    assert(t2.attributes =~= a2);
                    assert(a2.drop_last() =~= seq![("href"@, href)]);
                    assert(a2.drop_last().drop_last() =~= empty);
                    assert(attributes_part(seq![("href"@, href)]) =~= " "@ + "href"@ + "=\""@
                        + href + "\""@);
                    assert(attributes_part(a2) =~= " "@ + "href"@ + "=\""@ + href + "\""@ + " "@
                        + "target"@ + "=\""@ + "_blank"@ + "\""@);
                },
            }
            assert(image_link_markup(own, extra, width) =~= "<a href=\""@ + href + "\""@
                + match image_attribute(own, extra, "rel"@) {
                Some(rel) => " rel=\""@ + rel + "\""@,
                None => Seq::<char>::empty(),
            } + " target=\"_blank\">"@ + picture + "</a>"@);
        },
        None => {},
    }
    assert(image_div_tag(own, extra, index).closing() =~= "</div>"@);
}

/// Different attribute names of the image markup.
proof fn lemma_names_differ()
    ensures
        "checked"@ != "type"@,
        "checked"@ != "name"@,
        "checked"@ != "id"@,
        "type"@ != "name"@,
        "type"@ != "id"@,
        "name"@ != "id"@,
        "display"@ != "mso-hide"@,
{
    reveal_strlit("checked");
    reveal_strlit("type");
    reveal_strlit("name");
    reveal_strlit("id");
    reveal_strlit("display");
    reveal_strlit("mso-hide");
    assert("checked"@.len() != "type"@.len());
    assert("checked"@.len() != "name"@.len());
    assert("checked"@.len() != "id"@.len());
    assert("type"@[0] != "name"@[0]);
    assert("type"@.len() != "id"@.len());
    assert("name"@.len() != "id"@.len());
    assert("display"@.len() != "mso-hide"@.len());
}

/// The radio of the image at `index` is radio `index + 1` of carousel `id`:
/// a radio button whose id is `mj-carousel-{id}-radio-{index + 1}`, in the
/// carousel's group `mj-carousel-radio-{id}`, and only the first image's
/// radio starts checked.
pub proof fn law_radio_tag(id: Seq<char>, index: nat)
    ensures
        radio_tag(id, index).name == "input"@,
        lookup(radio_tag(id, index).attributes, "checked"@) == if index == 0 {
            Some("checked"@)
        } else {
            None
        },
        lookup(radio_tag(id, index).attributes, "type"@) == Some("radio"@),
        lookup(radio_tag(id, index).attributes, "name"@) == Some("mj-carousel-radio-"@ + id),
        lookup(radio_tag(id, index).attributes, "id"@) == Some(
            "mj-carousel-"@ + id + "-radio-"@ + decimal_text(index + 1),
        ),
{
    lemma_names_differ();
    let e0 = Seq::<(Seq<char>, Seq<char>)>::empty();
    let e1 = if index == 0 {
        upsert(e0, "checked"@, "checked"@)
    } else {
        e0
    };
    let e2 = upsert(e1, "type"@, "radio"@);
    let e3 = upsert(e2, "name"@, "mj-carousel-radio-"@ + id);
    let v = radio_id(id, index + 1);
    crate::hash::law_lookup_after_upsert(e0, "checked"@, "checked"@, "checked"@);
    crate::hash::law_lookup_after_upsert(e2, "name"@, "mj-carousel-radio-"@ + id, "checked"@);
    crate::hash::law_lookup_after_upsert(e2, "name"@, "mj-carousel-radio-"@ + id, "type"@);
    crate::hash::law_lookup_after_upsert(e1, "type"@, "radio"@, "checked"@);
    crate::hash::law_lookup_after_upsert(e1, "type"@, "radio"@, "name"@);
    crate::hash::law_lookup_after_upsert(e1, "type"@, "radio"@, "id"@);
    crate::hash::law_lookup_after_upsert(e2, "name"@, "mj-carousel-radio-"@ + id, "id"@);
    crate::hash::law_lookup_after_upsert(e3, "id"@, v, "checked"@);
    crate::hash::law_lookup_after_upsert(e3, "id"@, v, "type"@);
    crate::hash::law_lookup_after_upsert(e3, "id"@, v, "name"@);
    crate::hash::law_lookup_after_upsert(e3, "id"@, v, "id"@);
    crate::hash::law_lookup_after_upsert(e0, "checked"@, "checked"@, "name"@);
    crate::hash::law_lookup_after_upsert(e0, "checked"@, "checked"@, "id"@);
    crate::hash::law_lookup_after_upsert(e0, "checked"@, "checked"@, "type"@);
    assert(lookup(e0, "checked"@) is None);
    assert(lookup(e0, "name"@) is None);
    assert(lookup(e0, "id"@) is None);
    assert(radio_tag(id, index).attributes == upsert(e3, "id"@, v));
}

/// The block of the image at `index` is marked as image `index + 1`, and
/// every image but the first starts hidden (also from Outlook).
pub proof fn law_image_block(
    own: Seq<(Seq<char>, Seq<char>)>,
    extra: Seq<(Seq<char>, Seq<char>)>,
    index: nat,
)
    ensures
        image_div_tag(own, extra, index).name == "div"@,
        image_div_tag(own, extra, index).classes.contains("mj-carousel-image"@),
        image_div_tag(own, extra, index).classes.contains(
            "mj-carousel-image-"@ + decimal_text(index + 1),
        ),
        lookup(image_div_tag(own, extra, index).styles, "display"@) == if index == 0 {
            None
        } else {
            Some("none"@)
        },
        lookup(image_div_tag(own, extra, index).styles, "mso-hide"@) == if index == 0 {
            None
        } else {
            Some("all"@)
        },
{
    lemma_names_differ();
    let e0 = Seq::<(Seq<char>, Seq<char>)>::empty();
    let c0 = Seq::<Seq<char>>::empty();
    let a = "mj-carousel-image"@;
    let b = "mj-carousel-image-"@ + decimal_text(index + 1);
    crate::hash::law_with_item(c0, a, b);
    crate::hash::law_with_item(crate::hash::with_item(c0, a), b, a);
    let c2 = crate::hash::with_item(crate::hash::with_item(c0, a), b);
    match image_attribute(own, extra, "css-class"@) {
        Some(c) => {
            crate::hash::law_with_item(c2, c, a);
            crate::hash::law_with_item(c2, c, b);
        },
        None => {},
    }
    let s1 = upsert(e0, "display"@, "none"@);
    crate::hash::law_lookup_after_upsert(e0, "display"@, "none"@, "mso-hide"@);
    crate::hash::law_lookup_after_upsert(s1, "mso-hide"@, "all"@, "display"@);
    crate::hash::law_lookup_after_upsert(s1, "mso-hide"@, "all"@, "mso-hide"@);
    assert(lookup(e0, "display"@) is None);
    assert(lookup(e0, "mso-hide"@) is None);
}

/// The thumbnail of the image at `index` links to `#{index + 1}` and holds
/// a label for radio `index + 1` of its carousel around the small picture,
/// so that choosing it checks that radio.
pub proof fn law_thumbnail_selects_its_radio(
    own: Seq<(Seq<char>, Seq<char>)>,
    extra: Seq<(Seq<char>, Seq<char>)>,
    index: nat,
    width: Option<Seq<char>>,
)
    ensures
        lookup(thumbnail_link_tag(own, extra, index, width).attributes, "href"@) == Some(
            "#"@ + decimal_text(index + 1),
        ),
        thumbnail_markup(own, extra, index, width) == thumbnail_link_tag(
            own,
            extra,
            index,
            width,
        ).opening() + "<label for=\""@ + "mj-carousel-"@ + or_empty(
            image_attribute(own, extra, "carousel-id"@),
        ) + "-radio-"@ + decimal_text(index + 1) + "\">"@ + thumbnail_img_tag(
            own,
            extra,
            width,
        ).self_closed() + "</label>"@ + "</a>"@,
{
    reveal_strlit("<label for=\"");
    reveal_strlit("\">");
    reveal_strlit("</label>");
    reveal_strlit("</a>");
    reveal_strlit("</");
    reveal_strlit("a");
    reveal_strlit("<");
    reveal_strlit("label");
    reveal_strlit(" ");
    reveal_strlit("for");
    reveal_strlit("=\"");
    reveal_strlit("\"");
    reveal_strlit(">");
    reveal_strlit("href");
    reveal_strlit("target");
    let e0 = Seq::<(Seq<char>, Seq<char>)>::empty();
    let h = "#"@ + decimal_text(index + 1);
    let e1 = upsert(e0, "href"@, h);
    crate::hash::law_lookup_after_upsert(e0, "href"@, h, "href"@);
    match image_attribute(own, extra, "target"@) {
        Some(t) => {
            assert("target"@ != "href"@) by {
                assert("target"@.len() != "href"@.len());
            }
            crate::hash::law_lookup_after_upsert(e1, "target"@, t, "href"@);
        },
        None => {},
    }
    let id = or_empty(image_attribute(own, extra, "carousel-id"@));
    let v = radio_id(id, index + 1);
    let lt = tag_named("label"@).with_attribute("for"@, v);
    assert(lt.attributes =~= seq![("for"@, v)]);
    assert(attributes_part(seq![("for"@, v)]) =~= " "@ + "for"@ + "=\""@ + v + "\""@) by {
        assert(seq![("for"@, v)].drop_last() =~= e0);
        assert(attributes_part(e0) == Seq::<char>::empty());
    }
    assert(thumbnail_markup(own, extra, index, width) =~= thumbnail_link_tag(
        own,
        extra,
        index,
        width,
    ).opening() + "<label for=\""@ + "mj-carousel-"@ + id + "-radio-"@ + decimal_text(index + 1)
        + "\">"@ + thumbnail_img_tag(own, extra, width).self_closed() + "</label>"@ + "</a>"@);
}

} // verus!

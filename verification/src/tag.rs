//! HTML tags assembled from a name, attributes, classes and inline styles.
use crate::hash::{upsert, with_item, OrderedMap, OrderedSet};
use crate::text::joined;
use vstd::prelude::*;
use vstd::string::*;

verus! {

/// What a tag is made of: its name, its attributes, its classes and its
/// inline style declarations, each in insertion order.
pub struct TagSpec {
    pub name: Seq<char>,
    pub attributes: Seq<(Seq<char>, Seq<char>)>,
    pub classes: Seq<Seq<char>>,
    pub styles: Seq<(Seq<char>, Seq<char>)>,
}

/// A tag called `name` with nothing else.
pub open spec fn tag_named(name: Seq<char>) -> TagSpec {
    TagSpec { name, attributes: Seq::empty(), classes: Seq::empty(), styles: Seq::empty() }
}

/// ` name="value"` for every attribute, in order.
pub open spec fn attributes_part(entries: Seq<(Seq<char>, Seq<char>)>) -> Seq<char>
    decreases entries.len(),
{
    if entries.len() == 0 {
        Seq::empty()
    } else {
        attributes_part(entries.drop_last()) + " "@ + entries.last().0 + "=\""@ + entries.last().1
            + "\""@
    }
}

/// `name:value;` for every declaration, in order.
pub open spec fn declarations(entries: Seq<(Seq<char>, Seq<char>)>) -> Seq<char>
    decreases entries.len(),
{
    if entries.len() == 0 {
        Seq::empty()
    } else {
        declarations(entries.drop_last()) + entries.last().0 + ":"@ + entries.last().1 + ";"@
    }
}

/// ` class="a b"`, or nothing when there is no class.
pub open spec fn classes_part(classes: Seq<Seq<char>>) -> Seq<char> {
    if classes.len() == 0 {
        Seq::empty()
    } else {
        " class=\""@ + joined(classes, " "@) + "\""@
    }
}

/// ` style="a:b;"`, or nothing when there is no declaration.
pub open spec fn styles_part(styles: Seq<(Seq<char>, Seq<char>)>) -> Seq<char> {
    if styles.len() == 0 {
        Seq::empty()
    } else {
        " style=\""@ + declarations(styles) + "\""@
    }
}

impl TagSpec {
    /// With `value` stored under the attribute `key`.
    pub open spec fn with_attribute(self, key: Seq<char>, value: Seq<char>) -> TagSpec {
        TagSpec { attributes: upsert(self.attributes, key, value), ..self }
    }

    /// With the attribute `key` set when there is a value.
    pub open spec fn maybe_with_attribute(self, key: Seq<char>, value: Option<Seq<char>>) -> TagSpec {
        match value {
            Some(v) => self.with_attribute(key, v),
            None => self,
        }
    }

    /// With the class `class`.
    pub open spec fn with_class(self, class: Seq<char>) -> TagSpec {
        TagSpec { classes: with_item(self.classes, class), ..self }
    }

    /// With the class `class` when there is one.
    pub open spec fn maybe_with_class(self, class: Option<Seq<char>>) -> TagSpec {
        match class {
            Some(c) => self.with_class(c),
            None => self,
        }
    }

    /// With the style declaration `key:value`.
    pub open spec fn with_style(self, key: Seq<char>, value: Seq<char>) -> TagSpec {
        TagSpec { styles: upsert(self.styles, key, value), ..self }
    }

    /// With the style declaration for `key` when there is a value.
    pub open spec fn maybe_with_style(self, key: Seq<char>, value: Option<Seq<char>>) -> TagSpec {
        match value {
            Some(v) => self.with_style(key, v),
            None => self,
        }
    }

    /// Everything between the name and the end of the opening tag.
    pub open spec fn inner(self) -> Seq<char> {
        self.name + attributes_part(self.attributes) + classes_part(self.classes) + styles_part(
            self.styles,
        )
    }

    /// The opening tag.
    pub open spec fn opening(self) -> Seq<char> {
        "<"@ + self.inner() + ">"@
    }

    /// The self-closing tag.
    pub open spec fn self_closed(self) -> Seq<char> {
        "<"@ + self.inner() + " />"@
    }

    /// The closing tag.
    pub open spec fn closing(self) -> Seq<char> {
        "</"@ + self.name + ">"@
    }

    /// The tag around `content`.
    pub open spec fn around(self, content: Seq<char>) -> Seq<char> {
        self.opening() + content + self.closing()
    }
}

/// An HTML tag being assembled.
pub struct Tag {
    name: String,
    attributes: OrderedMap,
    classes: OrderedSet,
    styles: OrderedMap,
}

impl View for Tag {
    type V = TagSpec;

    closed spec fn view(&self) -> TagSpec {
        TagSpec {
            name: self.name@,
            attributes: self.attributes.entries(),
            classes: self.classes.items(),
            styles: self.styles.entries(),
        }
    }
}

fn push_attributes(buf: &mut String, attributes: &OrderedMap)
    ensures
        final(buf)@ == old(buf)@ + attributes_part(attributes.entries()),
{
    let entries = attributes.iter();
    let mut i: usize = 0;
    while i < entries.len()
        invariant
            i <= entries.len(),
            entries@.len() == attributes.entries().len(),
            forall|j: int|
                0 <= j < entries@.len() ==> (#[trigger] entries@[j]).0@ == attributes.entries()[j].0
                    && entries@[j].1@ == attributes.entries()[j].1,
            buf@ == old(buf)@ + attributes_part(attributes.entries().take(i as int)),
        decreases entries.len() - i,
    {
        let (k, v) = entries[i];
        buf.append(" ");
        buf.append(k.as_str());
        buf.append("=\"");
        buf.append(v.as_str());
        buf.append("\"");
        proof {
            let e = attributes.entries();
            assert(e.take(i + 1).drop_last() =~= e.take(i as int));
            assert(e.take(i + 1).last() == e[i as int]);
            assert(old(buf)@ + attributes_part(e.take(i + 1)) =~= old(buf)@ + attributes_part(
                e.take(i as int),
            ) + " "@ + e[i as int].0 + "=\""@ + e[i as int].1 + "\""@);
        }
        i = i + 1;
    }
    proof {
        assert(attributes.entries().take(entries.len() as int) =~= attributes.entries());
    }
}

fn push_classes(buf: &mut String, classes: &OrderedSet)
    ensures
        final(buf)@ == old(buf)@ + classes_part(classes.items()),
{
    let items = classes.iter();
    if items.len() == 0 {
        assert(old(buf)@ + classes_part(classes.items()) =~= old(buf)@);
        return ;
    }
    buf.append(" class=\"");
    let ghost start = buf@;
    let mut i: usize = 0;
    while i < items.len()
        invariant
            i <= items.len(),
            items@.len() == classes.items().len(),
            forall|j: int| 0 <= j < items@.len() ==> (#[trigger] items@[j])@ == classes.items()[j],
            buf@ == start + joined(classes.items().take(i as int), " "@),
        decreases items.len() - i,
    {
        if i > 0 {
            buf.append(" ");
        }
        buf.append(items[i].as_str());
        proof {
            let c = classes.items();
            assert(c.take(i + 1).drop_last() =~= c.take(i as int));
            assert(c.take(i + 1).last() == c[i as int]);
            if i == 0 {
                assert(c.take(1) =~= seq![c[0]]);
            }
        }
        i = i + 1;
    }
    buf.append("\"");
    proof {
        assert(classes.items().take(items.len() as int) =~= classes.items());
    }
}

fn push_styles(buf: &mut String, styles: &OrderedMap)
    ensures
        final(buf)@ == old(buf)@ + styles_part(styles.entries()),
{
    let entries = styles.iter();
    if entries.len() == 0 {
        assert(old(buf)@ + styles_part(styles.entries()) =~= old(buf)@);
        return ;
    }
    buf.append(" style=\"");
    let ghost start = buf@;
    let mut i: usize = 0;
    while i < entries.len()
        invariant
            i <= entries.len(),
            entries@.len() == styles.entries().len(),
            forall|j: int|
                0 <= j < entries@.len() ==> (#[trigger] entries@[j]).0@ == styles.entries()[j].0
                    && entries@[j].1@ == styles.entries()[j].1,
            buf@ == start + declarations(styles.entries().take(i as int)),
        decreases entries.len() - i,
    {
        let (k, v) = entries[i];
        buf.append(k.as_str());
        buf.append(":");
        buf.append(v.as_str());
        buf.append(";");
        proof {
            let e = styles.entries();
            assert(e.take(i + 1).drop_last() =~= e.take(i as int));
            assert(e.take(i + 1).last() == e[i as int]);
            assert(start + declarations(e.take(i + 1)) =~= start + declarations(e.take(i as int))
                + e[i as int].0 + ":"@ + e[i as int].1 + ";"@);
        }
        i = i + 1;
    }
    buf.append("\"");
    proof {
        assert(styles.entries().take(entries.len() as int) =~= styles.entries());
        assert(old(buf)@ + styles_part(styles.entries()) =~= start + declarations(styles.entries())
            + "\""@);
    }
}

impl Tag {
    /// A tag called `name`, with no attribute, class or style.
    pub fn new(name: &str) -> (t: Tag)
        ensures
            t@ == tag_named(name@),
    {
        Tag {
            name: String::from_str(name),
            attributes: OrderedMap::new(),
            classes: OrderedSet::new(),
            styles: OrderedMap::new(),
        }
    }

    /// A `div` tag.
    pub fn div() -> (t: Tag)
        ensures
            t@ == tag_named("div"@),
    {
        Tag::new("div")
    }

    /// A `td` tag.
    pub fn td() -> (t: Tag)
        ensures
            t@ == tag_named("td"@),
    {
        Tag::new("td")
    }

    /// A `tr` tag.
    pub fn tr() -> (t: Tag)
        ensures
            t@ == tag_named("tr"@),
    {
        Tag::new("tr")
    }

    /// A `tbody` tag.
    pub fn tbody() -> (t: Tag)
        ensures
            t@ == tag_named("tbody"@),
    {
        Tag::new("tbody")
    }

    /// A layout table: no border, no padding or spacing, role `presentation`.
    pub fn table_presentation() -> (t: Tag)
        ensures
            t@ == tag_named("table"@).with_attribute("border"@, "0"@).with_attribute(
                "cellpadding"@,
                "0"@,
            ).with_attribute("cellspacing"@, "0"@).with_attribute("role"@, "presentation"@),
    {
        Tag::new("table").add_attribute("border", "0").add_attribute("cellpadding", "0").add_attribute(
            "cellspacing",
            "0",
        ).add_attribute("role", "presentation")
    }

    /// The same tag with `value` stored under the attribute `key`.
    pub fn add_attribute(self, key: &str, value: &str) -> (t: Tag)
        ensures
            t@ == self@.with_attribute(key@, value@),
    {
        let mut t = self;
        t.attributes.insert(String::from_str(key), String::from_str(value));
        t
    }

    /// The same tag with the attribute `key` set when there is a value.
    pub fn maybe_add_attribute(self, key: &str, value: Option<&str>) -> (t: Tag)
        ensures
            t@ == self@.maybe_with_attribute(
                key@,
                match value {
                    Some(v) => Some(v@),
                    None => None,
                },
            ),
    {
        match value {
            Some(v) => self.add_attribute(key, v),
            None => self,
        }
    }

    /// The same tag with the class `class`.
    pub fn add_class(self, class: &str) -> (t: Tag)
        ensures
            t@ == self@.with_class(class@),
    {
        let mut t = self;
        t.classes.insert(String::from_str(class));
        t
    }

    /// The same tag with the class `class` when there is one.
    pub fn maybe_add_class(self, class: Option<&str>) -> (t: Tag)
        ensures
            t@ == self@.maybe_with_class(
                match class {
                    Some(c) => Some(c@),
                    None => None,
                },
            ),
    {
        match class {
            Some(c) => self.add_class(c),
            None => self,
        }
    }

    /// The same tag with the style declaration `key:value`.
    pub fn add_style(self, key: &str, value: &str) -> (t: Tag)
        ensures
            t@ == self@.with_style(key@, value@),
    {
        let mut t = self;
        t.styles.insert(String::from_str(key), String::from_str(value));
        t
    }

    /// The same tag with the style declaration for `key` when there is a value.
    pub fn maybe_add_style(self, key: &str, value: Option<&str>) -> (t: Tag)
        ensures
            t@ == self@.maybe_with_style(
                key@,
                match value {
                    Some(v) => Some(v@),
                    None => None,
                },
            ),
    {
        match value {
            Some(v) => self.add_style(key, v),
            None => self,
        }
    }

    fn push_inner(&self, buf: &mut String)
        ensures
            final(buf)@ == old(buf)@ + self@.inner(),
    {
        buf.append(self.name.as_str());
        push_attributes(buf, &self.attributes);
        push_classes(buf, &self.classes);
        push_styles(buf, &self.styles);
        proof {
            assert(final(buf)@ =~= old(buf)@ + self@.inner());
        }
    }

    /// The opening tag.
    pub fn open(&self) -> (r: String)
        ensures
            r@ == self@.opening(),
    {
        let mut r = String::from_str("<");
        self.push_inner(&mut r);
        r.append(">");
        assert(r@ =~= self@.opening());
        r
    }

    /// The self-closing tag.
    pub fn closed(&self) -> (r: String)
        ensures
            r@ == self@.self_closed(),
    {
        let mut r = String::from_str("<");
        self.push_inner(&mut r);
        r.append(" />");
        assert(r@ =~= self@.self_closed());
        r
    }

    /// The closing tag.
    pub fn close(&self) -> (r: String)
        ensures
            r@ == self@.closing(),
    {
        let mut r = String::from_str("</");
        r.append(self.name.as_str());
        r.append(">");
        assert(r@ =~= self@.closing());
        r
    }

    /// The tag around `content`.
    pub fn render(&self, content: &str) -> (r: String)
        ensures
            r@ == self@.around(content@),
    {
        let mut r = self.open();
        r.append(content);
        r.append("</");
        r.append(self.name.as_str());
        r.append(">");
        assert(r@ =~= self@.around(content@));
        r
    }
}

} // verus!

//! The `mj-head` element, its children, and their printing.
use crate::hash::OrderedMap;
use crate::print::{
    as_line, attributes_text, close, closing_text, indentation, open, opening_text,
    print_text_element, Print,
};
use vstd::prelude::*;
use vstd::string::*;

verus! {

/// The tag name of the head element.
pub const NAME: &'static str = "mj-head";

/// The markup of `children` printed one after the other at `level`.
pub open spec fn children_printed<T: Print>(
    children: Seq<T>,
    pretty: bool,
    level: nat,
    indent_size: nat,
) -> Seq<char>
    decreases children.len(),
{
    if children.len() == 0 {
        Seq::empty()
    } else {
        children_printed(children.drop_last(), pretty, level, indent_size) + children.last().printed(
            pretty,
            level,
            indent_size,
        )
    }
}

/// Prints `children` one after the other at `level`.
pub fn print_children<T: Print>(children: &Vec<T>, pretty: bool, level: usize, indent_size: usize) -> (r:
    String)
    requires
        forall|i: int| 0 <= i < children@.len() ==> level + (#[trigger] children@[i]).depth() <= usize::MAX,
    ensures
        r@ == children_printed(children@, pretty, level as nat, indent_size as nat),
{
    let mut r = String::new();
    let mut i: usize = 0;
    while i < children.len()
        invariant
            i <= children.len(),
            forall|i: int| 0 <= i < children@.len() ==> level + (#[trigger] children@[i]).depth() <= usize::MAX,
            r@ == children_printed(children@.take(i as int), pretty, level as nat, indent_size as nat),
        decreases children.len() - i,
    {
        let text = children[i].print(pretty, level, indent_size);
        r.append(text.as_str());
        proof {
            assert(children@.take(i + 1).drop_last() =~= children@.take(i as int));
            assert(children@.take(i + 1).last() == children@[i as int]);
        }
        i = i + 1;
    }
    proof {
        assert(children@.take(children.len() as int) =~= children@);
    }
    r
}

/// A comment.
pub struct Comment {
    pub children: String,
}

impl Print for Comment {
    open spec fn depth(&self) -> nat {
        0
    }

    open spec fn printed(&self, pretty: bool, level: nat, indent_size: nat) -> Seq<char> {
        as_line(pretty, level, indent_size, "<!--"@ + self.children@ + "-->"@)
    }

    fn print(&self, pretty: bool, level: usize, indent_size: usize) -> (r: String) {
        let mut text = String::from_str("<!--");
        text.append(self.children.as_str());
        text.append("-->");
        crate::print::maybe_indent(pretty, level, indent_size, text)
    }
}

/// `mj-all`: attributes for every element.
pub struct MJAttributesAll {
    pub attributes: OrderedMap,
}

impl Print for MJAttributesAll {
    open spec fn depth(&self) -> nat {
        0
    }

    open spec fn printed(&self, pretty: bool, level: nat, indent_size: nat) -> Seq<char> {
        as_line(
            pretty,
            level,
            indent_size,
            opening_text("mj-all"@, Some(self.attributes.entries()), true),
        )
    }

    fn print(&self, pretty: bool, level: usize, indent_size: usize) -> (r: String) {
        open("mj-all", Some(&self.attributes), true, pretty, level, indent_size)
    }
}

/// `mj-class`: attributes for the elements of a class (named by its `name`
/// attribute).
pub struct MJAttributesClass {
    pub attributes: OrderedMap,
}

impl Print for MJAttributesClass {
    open spec fn depth(&self) -> nat {
        0
    }

    open spec fn printed(&self, pretty: bool, level: nat, indent_size: nat) -> Seq<char> {
        as_line(
            pretty,
            level,
            indent_size,
            opening_text("mj-class"@, Some(self.attributes.entries()), true),
        )
    }

    fn print(&self, pretty: bool, level: usize, indent_size: usize) -> (r: String) {
        open("mj-class", Some(&self.attributes), true, pretty, level, indent_size)
    }
}

/// Attributes for every element of one tag name.
pub struct MJAttributesElement {
    pub name: String,
    pub attributes: OrderedMap,
}

impl Print for MJAttributesElement {
    open spec fn depth(&self) -> nat {
        0
    }

    open spec fn printed(&self, pretty: bool, level: nat, indent_size: nat) -> Seq<char> {
        as_line(
            pretty,
            level,
            indent_size,
            opening_text(self.name@, Some(self.attributes.entries()), true),
        )
    }

    fn print(&self, pretty: bool, level: usize, indent_size: usize) -> (r: String) {
        open(self.name.as_str(), Some(&self.attributes), true, pretty, level, indent_size)
    }
}

/// A child of `mj-attributes`.
pub enum MJAttributesChild {
    MJAttributesAll(MJAttributesAll),
    MJAttributesClass(MJAttributesClass),
    MJAttributesElement(MJAttributesElement),
}

impl Print for MJAttributesChild {
    open spec fn depth(&self) -> nat {
        0
    }

    open spec fn printed(&self, pretty: bool, level: nat, indent_size: nat) -> Seq<char> {
        match self {
            MJAttributesChild::MJAttributesAll(e) => e.printed(pretty, level, indent_size),
            MJAttributesChild::MJAttributesClass(e) => e.printed(pretty, level, indent_size),
            MJAttributesChild::MJAttributesElement(e) => e.printed(pretty, level, indent_size),
        }
    }

    fn print(&self, pretty: bool, level: usize, indent_size: usize) -> (r: String) {
        match self {
            MJAttributesChild::MJAttributesAll(e) => e.print(pretty, level, indent_size),
            MJAttributesChild::MJAttributesClass(e) => e.print(pretty, level, indent_size),
            MJAttributesChild::MJAttributesElement(e) => e.print(pretty, level, indent_size),
        }
    }
}

/// `mj-attributes`: default attributes for the body's elements.
pub struct MJAttributes {
    pub children: Vec<MJAttributesChild>,
}

impl Print for MJAttributes {
    open spec fn depth(&self) -> nat {
        1
    }

    open spec fn printed(&self, pretty: bool, level: nat, indent_size: nat) -> Seq<char> {
        as_line(pretty, level, indent_size, opening_text("mj-attributes"@, None, false))
            + children_printed(self.children@, pretty, level + 1, indent_size) + as_line(
            pretty,
            level,
            indent_size,
            closing_text("mj-attributes"@),
        )
    }

    fn print(&self, pretty: bool, level: usize, indent_size: usize) -> (r: String) {
        let mut r = open("mj-attributes", None, false, pretty, level, indent_size);
        let children = print_children(&self.children, pretty, level + 1, indent_size);
        r.append(children.as_str());
        let c = close("mj-attributes", pretty, level, indent_size);
        r.append(c.as_str());
        r
    }
}

/// `mj-breakpoint`: the width under which columns stack.
pub struct MJBreakpoint {
    pub width: String,
}

impl MJBreakpoint {
    /// The breakpoint width.
    pub fn value(&self) -> (r: &str)
        ensures
            r@ == self.width@,
    {
        self.width.as_str()
    }
}

impl Print for MJBreakpoint {
    open spec fn depth(&self) -> nat {
        0
    }

    open spec fn printed(&self, pretty: bool, level: nat, indent_size: nat) -> Seq<char> {
        as_line(
            pretty,
            level,
            indent_size,
            "<mj-breakpoint width=\""@ + self.width@ + "\" />"@,
        )
    }

    fn print(&self, pretty: bool, level: usize, indent_size: usize) -> (r: String) {
        let mut text = String::from_str("<mj-breakpoint width=\"");
        text.append(self.width.as_str());
        text.append("\" />");
        crate::print::maybe_indent(pretty, level, indent_size, text)
    }
}

/// `mj-font`: a web font to load (its `name` and `href` attributes).
pub struct MJFont {
    pub attributes: OrderedMap,
}

impl Print for MJFont {
    open spec fn depth(&self) -> nat {
        0
    }

    open spec fn printed(&self, pretty: bool, level: nat, indent_size: nat) -> Seq<char> {
        as_line(
            pretty,
            level,
            indent_size,
            opening_text("mj-font"@, Some(self.attributes.entries()), true),
        )
    }

    fn print(&self, pretty: bool, level: usize, indent_size: usize) -> (r: String) {
        open("mj-font", Some(&self.attributes), true, pretty, level, indent_size)
    }
}

/// `mj-preview`: the text shown by mail clients next to the subject.
pub struct MJPreview {
    pub children: String,
}

impl MJPreview {
    /// The preview text.
    pub fn content(&self) -> (r: &str)
        ensures
            r@ == self.children@,
    {
        self.children.as_str()
    }
}

impl Print for MJPreview {
    open spec fn depth(&self) -> nat {
        0
    }

    open spec fn printed(&self, pretty: bool, level: nat, indent_size: nat) -> Seq<char> {
        as_line(
            pretty,
            level,
            indent_size,
            opening_text("mj-preview"@, None, false) + self.children@ + closing_text(
                "mj-preview"@,
            ),
        )
    }

    fn print(&self, pretty: bool, level: usize, indent_size: usize) -> (r: String) {
        print_text_element("mj-preview", self.children.as_str(), pretty, level, indent_size)
    }
}

/// `mj-raw`: markup copied as it is.
pub struct MJRaw {
    pub children: String,
}

impl Print for MJRaw {
    open spec fn depth(&self) -> nat {
        0
    }

    open spec fn printed(&self, pretty: bool, level: nat, indent_size: nat) -> Seq<char> {
        as_line(
            pretty,
            level,
            indent_size,
            opening_text("mj-raw"@, None, false) + self.children@ + closing_text("mj-raw"@),
        )
    }

    fn print(&self, pretty: bool, level: usize, indent_size: usize) -> (r: String) {
        print_text_element("mj-raw", self.children.as_str(), pretty, level, indent_size)
    }
}

/// `mj-style`: CSS for the document (inlined when its `inline` attribute is
/// `inline`).
pub struct MJStyle {
    pub attributes: OrderedMap,
    pub children: String,
}

impl Print for MJStyle {
    open spec fn depth(&self) -> nat {
        0
    }

    open spec fn printed(&self, pretty: bool, level: nat, indent_size: nat) -> Seq<char> {
        as_line(
            pretty,
            level,
            indent_size,
            opening_text("mj-style"@, Some(self.attributes.entries()), false) + self.children@
                + closing_text("mj-style"@),
        )
    }

    fn print(&self, pretty: bool, level: usize, indent_size: usize) -> (r: String) {
        let mut text = open("mj-style", Some(&self.attributes), false, false, level, indent_size);
        text.append(self.children.as_str());
        let c = close("mj-style", false, level, indent_size);
        text.append(c.as_str());
        crate::print::maybe_indent(pretty, level, indent_size, text)
    }
}

/// `mj-title`: the document title.
pub struct MJTitle {
    pub children: String,
}

impl MJTitle {
    /// The title text.
    pub fn content(&self) -> (r: &str)
        ensures
            r@ == self.children@,
    {
        self.children.as_str()
    }
}

impl MJTitle {
    /// A title holding `value`.
    pub fn from(value: &str) -> (r: MJTitle)
        ensures
            r.children@ == value@,
    {
        MJTitle { children: String::from_str(value) }
    }
}

impl Print for MJTitle {
    open spec fn depth(&self) -> nat {
        0
    }

    open spec fn printed(&self, pretty: bool, level: nat, indent_size: nat) -> Seq<char> {
        as_line(
            pretty,
            level,
            indent_size,
            opening_text("mj-title"@, None, false) + self.children@ + closing_text("mj-title"@),
        )
    }

    fn print(&self, pretty: bool, level: usize, indent_size: usize) -> (r: String) {
        print_text_element("mj-title", self.children.as_str(), pretty, level, indent_size)
    }
}

/// A child of `mj-head`.
pub enum MJHeadChild {
    Comment(Comment),
    MJAttributes(MJAttributes),
    MJBreakpoint(MJBreakpoint),
    MJFont(MJFont),
    MJPreview(MJPreview),
    MJRaw(MJRaw),
    MJStyle(MJStyle),
    MJTitle(MJTitle),
}

impl MJHeadChild {
    /// The child seen as something printable.
    pub fn as_print<'p>(&'p self) -> &'p (dyn Print + 'p) {
        match self {
            Self::Comment(elt) => elt,
            Self::MJAttributes(elt) => elt,
            Self::MJBreakpoint(elt) => elt,
            Self::MJFont(elt) => elt,
            Self::MJPreview(elt) => elt,
            Self::MJRaw(elt) => elt,
            Self::MJStyle(elt) => elt,
            Self::MJTitle(elt) => elt,
        }
    }
}

impl Print for MJHeadChild {
    open spec fn depth(&self) -> nat {
        match self {
            MJHeadChild::MJAttributes(_) => 1,
            _ => 0,
        }
    }

    open spec fn printed(&self, pretty: bool, level: nat, indent_size: nat) -> Seq<char> {
        match self {
            MJHeadChild::Comment(e) => e.printed(pretty, level, indent_size),
            MJHeadChild::MJAttributes(e) => e.printed(pretty, level, indent_size),
            MJHeadChild::MJBreakpoint(e) => e.printed(pretty, level, indent_size),
            MJHeadChild::MJFont(e) => e.printed(pretty, level, indent_size),
            MJHeadChild::MJPreview(e) => e.printed(pretty, level, indent_size),
            MJHeadChild::MJRaw(e) => e.printed(pretty, level, indent_size),
            MJHeadChild::MJStyle(e) => e.printed(pretty, level, indent_size),
            MJHeadChild::MJTitle(e) => e.printed(pretty, level, indent_size),
        }
    }

    fn print(&self, pretty: bool, level: usize, indent_size: usize) -> (r: String) {
        match self {
            MJHeadChild::Comment(e) => e.print(pretty, level, indent_size),
            MJHeadChild::MJAttributes(e) => e.print(pretty, level, indent_size),
            MJHeadChild::MJBreakpoint(e) => e.print(pretty, level, indent_size),
            MJHeadChild::MJFont(e) => e.print(pretty, level, indent_size),
            MJHeadChild::MJPreview(e) => e.print(pretty, level, indent_size),
            MJHeadChild::MJRaw(e) => e.print(pretty, level, indent_size),
            MJHeadChild::MJStyle(e) => e.print(pretty, level, indent_size),
            MJHeadChild::MJTitle(e) => e.print(pretty, level, indent_size),
        }
    }
}

/// The text of the first `mj-preview` among `children`, if any.
pub open spec fn first_preview(children: Seq<MJHeadChild>) -> Option<Seq<char>>
    decreases children.len(),
{
    if children.len() == 0 {
        None
    } else {
        match children[0] {
            MJHeadChild::MJPreview(p) => Some(p.children@),
            _ => first_preview(children.drop_first()),
        }
    }
}

/// The text of the first `mj-title` among `children`, if any.
pub open spec fn first_title(children: Seq<MJHeadChild>) -> Option<Seq<char>>
    decreases children.len(),
{
    if children.len() == 0 {
        None
    } else {
        match children[0] {
            MJHeadChild::MJTitle(t) => Some(t.children@),
            _ => first_title(children.drop_first()),
        }
    }
}

/// The width of the first `mj-breakpoint` among `children`, if any.
pub open spec fn first_breakpoint(children: Seq<MJHeadChild>) -> Option<Seq<char>>
    decreases children.len(),
{
    if children.len() == 0 {
        None
    } else {
        match children[0] {
            MJHeadChild::MJBreakpoint(b) => Some(b.width@),
            _ => first_breakpoint(children.drop_first()),
        }
    }
}

/// The `mj-head` element.
pub struct MJHead {
    pub children: Vec<MJHeadChild>,
}

impl Default for MJHead {
    fn default() -> (h: MJHead)
        ensures
            h.children@.len() == 0,
    {
        MJHead { children: Vec::new() }
    }
}

impl MJHead {
    /// The text of the document preview.
    pub open spec fn preview_text(&self) -> Option<Seq<char>> {
        first_preview(self.children@)
    }

    /// The children of the head.
    pub fn children(&self) -> (r: &Vec<MJHeadChild>)
        ensures
            r@ == self.children@,
    {
        &self.children
    }

    /// The first `mj-preview` child.
    pub fn preview(&self) -> (r: Option<&MJPreview>)
        ensures
            match r {
                Some(p) => first_preview(self.children@) == Some(p.children@),
                None => first_preview(self.children@) is None,
            },
    {
        let mut i: usize = 0;
        assert(self.children@.skip(0) =~= self.children@);
        while i < self.children.len()
            invariant
                i <= self.children.len(),
                first_preview(self.children@) == first_preview(self.children@.skip(i as int)),
            decreases self.children.len() - i,
        {
            proof {
                assert(self.children@.skip(i as int).drop_first() =~= self.children@.skip(i + 1));
            }
            match &self.children[i] {
                MJHeadChild::MJPreview(p) => {
                    return Some(p);
                },
                _ => {},
            }
            i = i + 1;
        }
        None
    }

    /// The first `mj-title` child.
    pub fn title(&self) -> (r: Option<&MJTitle>)
        ensures
            match r {
                Some(t) => first_title(self.children@) == Some(t.children@),
                None => first_title(self.children@) is None,
            },
    {
        let mut i: usize = 0;
        assert(self.children@.skip(0) =~= self.children@);
        while i < self.children.len()
            invariant
                i <= self.children.len(),
                first_title(self.children@) == first_title(self.children@.skip(i as int)),
            decreases self.children.len() - i,
        {
            proof {
                assert(self.children@.skip(i as int).drop_first() =~= self.children@.skip(i + 1));
            }
            match &self.children[i] {
                MJHeadChild::MJTitle(t) => {
                    return Some(t);
                },
                _ => {},
            }
            i = i + 1;
        }
        None
    }

    /// The first `mj-breakpoint` child.
    pub fn breakpoint(&self) -> (r: Option<&MJBreakpoint>)
        ensures
            match r {
                Some(b) => first_breakpoint(self.children@) == Some(b.width@),
                None => first_breakpoint(self.children@) is None,
            },
    {
        let mut i: usize = 0;
        assert(self.children@.skip(0) =~= self.children@);
        while i < self.children.len()
            invariant
                i <= self.children.len(),
                first_breakpoint(self.children@) == first_breakpoint(self.children@.skip(i as int)),
            decreases self.children.len() - i,
        {
            proof {
                assert(self.children@.skip(i as int).drop_first() =~= self.children@.skip(i + 1));
            }
            match &self.children[i] {
                MJHeadChild::MJBreakpoint(b) => {
                    return Some(b);
                },
                _ => {},
            }
            i = i + 1;
        }
        None
    }
}

impl Print for MJHead {
    open spec fn depth(&self) -> nat {
        2
    }

    open spec fn printed(&self, pretty: bool, level: nat, indent_size: nat) -> Seq<char> {
        as_line(pretty, level, indent_size, opening_text(NAME@, None, false)) + children_printed(
            self.children@,
            pretty,
            level + 1,
            indent_size,
        ) + as_line(pretty, level, indent_size, closing_text(NAME@))
    }

    fn print(&self, pretty: bool, level: usize, indent_size: usize) -> (r: String) {
        let mut r = open(NAME, None, false, pretty, level, indent_size);
        let children = print_children(&self.children, pretty, level + 1, indent_size);
        r.append(children.as_str());
        let c = close(NAME, pretty, level, indent_size);
        r.append(c.as_str());
        r
    }
}

/// Printed densely, the children of `mj-attributes` do not depend on the
/// level or the indentation.
proof fn lemma_dense_attributes_children(
    children: Seq<MJAttributesChild>,
    level: nat,
    indent_size: nat,
    other_level: nat,
    other_indent_size: nat,
)
    ensures
        children_printed(children, false, level, indent_size) == children_printed(
            children,
            false,
            other_level,
            other_indent_size,
        ),
    decreases children.len(),
{
    if children.len() > 0 {
        lemma_dense_attributes_children(
            children.drop_last(),
            level,
            indent_size,
            other_level,
            other_indent_size,
        );
    }
}

/// Printed densely, the children of a head do not depend on the level or
/// the indentation.
proof fn lemma_dense_head_children(
    children: Seq<MJHeadChild>,
    level: nat,
    indent_size: nat,
    other_level: nat,
    other_indent_size: nat,
)
    ensures
        children_printed(children, false, level, indent_size) == children_printed(
            children,
            false,
            other_level,
            other_indent_size,
        ),
    decreases children.len(),
{
    if children.len() > 0 {
        lemma_dense_head_children(
            children.drop_last(),
            level,
            indent_size,
            other_level,
            other_indent_size,
        );
        if let MJHeadChild::MJAttributes(e) = children.last() {
            lemma_dense_attributes_children(
                e.children@,
                level + 1,
                indent_size,
                other_level + 1,
                other_indent_size,
            );
        }
    }
}

/// Printed densely, a head is the same at every level and indentation: the
/// dense form holds no line breaks or indentation of its own.
pub proof fn law_dense_print_ignores_layout(
    head: MJHead,
    level: nat,
    indent_size: nat,
    other_level: nat,
    other_indent_size: nat,
)
    ensures
        head.printed(false, level, indent_size) == head.printed(
            false,
            other_level,
            other_indent_size,
        ),
{
    lemma_dense_head_children(
        head.children@,
        level + 1,
        indent_size,
        other_level + 1,
        other_indent_size,
    );
}

/// Children printed one after the other are each child printed in turn, at
/// the same level.
pub proof fn law_children_printed_each<T: Print>(
    children: Seq<T>,
    pretty: bool,
    level: nat,
    indent_size: nat,
)
    ensures
        children_printed(children, pretty, level, indent_size) == Seq::new(
            children.len(),
            |k: int| children[k].printed(pretty, level, indent_size),
        ).flatten(),
    decreases children.len(),
{
    let f = Seq::new(children.len(), |k: int| children[k].printed(pretty, level, indent_size));
    f.lemma_flatten_and_flatten_alt_are_equivalent();
    if children.len() > 0 {
        let rest = children.drop_last();
        law_children_printed_each(rest, pretty, level, indent_size);
        let g = Seq::new(rest.len(), |k: int| rest[k].printed(pretty, level, indent_size));
        g.lemma_flatten_and_flatten_alt_are_equivalent();
        assert(f.drop_last() =~= g);
    } else {
        assert(f.flatten_alt() =~= Seq::<char>::empty());
    }
}

/// Every child of `mj-attributes` prints as one self-closing tag, named
/// `mj-all`, `mj-class` or after the element it gives defaults to, with its
/// attributes ordered by name: `<name a="b" />`, indented on a line of its
/// own when printing pretty. So each prints as markup that reads back as
/// the same child.
pub proof fn law_attributes_child_self_closes(
    child: MJAttributesChild,
    pretty: bool,
    level: nat,
    indent_size: nat,
)
    ensures
        ({
            let (name, entries) = match child {
                MJAttributesChild::MJAttributesAll(e) => ("mj-all"@, e.attributes.entries()),
                MJAttributesChild::MJAttributesClass(e) => ("mj-class"@, e.attributes.entries()),
                MJAttributesChild::MJAttributesElement(e) => (e.name@, e.attributes.entries()),
            };
            let tag = "<"@ + name + attributes_text(entries) + " />"@;
            child.printed(pretty, level, indent_size) == if pretty {
                indentation(level, indent_size) + tag + "\n"@
            } else {
                tag
            }
        }),
{
    reveal_strlit(">");
    reveal_strlit(" />");
    let (name, entries) = match child {
        MJAttributesChild::MJAttributesAll(e) => ("mj-all"@, e.attributes.entries()),
        MJAttributesChild::MJAttributesClass(e) => ("mj-class"@, e.attributes.entries()),
        MJAttributesChild::MJAttributesElement(e) => (e.name@, e.attributes.entries()),
    };
    assert(opening_text(name, Some(entries), true) =~= "<"@ + name + attributes_text(entries)
        + " />"@);
}

/// The preview of a head is the text of its first `mj-preview` child: there is one
/// exactly when some child is an `mj-preview`, and then it is the text of a
/// child that is one with no `mj-preview` before it.
pub proof fn law_first_preview(children: Seq<MJHeadChild>)
    ensures
        first_preview(children) is None <==> forall|k: int|
            0 <= k < children.len() ==> !(children[k] is MJPreview),
        first_preview(children) matches Some(t) ==> exists|k: int|
            #![trigger children[k]]
            0 <= k < children.len() && (children[k] matches MJHeadChild::MJPreview(e) && e.children@ == t)
                && forall|j: int| 0 <= j < k ==> !(children[j] is MJPreview),
    decreases children.len(),
{
    if children.len() > 0 {
        let rest = children.drop_first();
        law_first_preview(rest);
        if !(children[0] is MJPreview) {
            if first_preview(rest) is None {
                assert forall|k: int| 0 <= k < children.len() implies !(children[k] is MJPreview) by {
                    if k > 0 {
                        assert(children[k] == rest[k - 1]);
                    }
                }
            } else {
                let t = first_preview(rest)->0;
                let k = choose|k: int|
                    #![trigger rest[k]]
                    0 <= k < rest.len() && (rest[k] matches MJHeadChild::MJPreview(e) && e.children@ == t)
                        && forall|j: int| 0 <= j < k ==> !(rest[j] is MJPreview);
                assert(children[k + 1] == rest[k]);
                assert forall|j: int| 0 <= j < k + 1 implies !(children[j] is MJPreview) by {
                    if j > 0 {
                        assert(children[j] == rest[j - 1]);
                    }
                }
            }
        }
    }
}

/// The title of a head is the text of its first `mj-title` child: there is one
/// exactly when some child is an `mj-title`, and then it is the text of a
/// child that is one with no `mj-title` before it.
pub proof fn law_first_title(children: Seq<MJHeadChild>)
    ensures
        first_title(children) is None <==> forall|k: int|
            0 <= k < children.len() ==> !(children[k] is MJTitle),
        first_title(children) matches Some(t) ==> exists|k: int|
            #![trigger children[k]]
            0 <= k < children.len() && (children[k] matches MJHeadChild::MJTitle(e) && e.children@ == t)
                && forall|j: int| 0 <= j < k ==> !(children[j] is MJTitle),
    decreases children.len(),
{
    if children.len() > 0 {
        let rest = children.drop_first();
        law_first_title(rest);
        if !(children[0] is MJTitle) {
            if first_title(rest) is None {
                assert forall|k: int| 0 <= k < children.len() implies !(children[k] is MJTitle) by {
                    if k > 0 {
                        assert(children[k] == rest[k - 1]);
                    }
                }
            } else {
                let t = first_title(rest)->0;
                let k = choose|k: int|
                    #![trigger rest[k]]
                    0 <= k < rest.len() && (rest[k] matches MJHeadChild::MJTitle(e) && e.children@ == t)
                        && forall|j: int| 0 <= j < k ==> !(rest[j] is MJTitle);
                assert(children[k + 1] == rest[k]);
                assert forall|j: int| 0 <= j < k + 1 implies !(children[j] is MJTitle) by {
                    if j > 0 {
                        assert(children[j] == rest[j - 1]);
                    }
                }
            }
        }
    }
}

/// The breakpoint of a head is the width of its first `mj-breakpoint` child: there is one
/// exactly when some child is an `mj-breakpoint`, and then it is the width of a
/// child that is one with no `mj-breakpoint` before it.
pub proof fn law_first_breakpoint(children: Seq<MJHeadChild>)
    ensures
        first_breakpoint(children) is None <==> forall|k: int|
            0 <= k < children.len() ==> !(children[k] is MJBreakpoint),
        first_breakpoint(children) matches Some(t) ==> exists|k: int|
            #![trigger children[k]]
            0 <= k < children.len() && (children[k] matches MJHeadChild::MJBreakpoint(e) && e.width@ == t)
                && forall|j: int| 0 <= j < k ==> !(children[j] is MJBreakpoint),
    decreases children.len(),
{
    if children.len() > 0 {
        let rest = children.drop_first();
        law_first_breakpoint(rest);
        if !(children[0] is MJBreakpoint) {
            if first_breakpoint(rest) is None {
                assert forall|k: int| 0 <= k < children.len() implies !(children[k] is MJBreakpoint) by {
                    if k > 0 {
                        assert(children[k] == rest[k - 1]);
                    }
                }
            } else {
                let t = first_breakpoint(rest)->0;
                let k = choose|k: int|
                    #![trigger rest[k]]
                    0 <= k < rest.len() && (rest[k] matches MJHeadChild::MJBreakpoint(e) && e.width@ == t)
                        && forall|j: int| 0 <= j < k ==> !(rest[j] is MJBreakpoint);
                assert(children[k + 1] == rest[k]);
                assert forall|j: int| 0 <= j < k + 1 implies !(children[j] is MJBreakpoint) by {
                    if j > 0 {
                        assert(children[j] == rest[j - 1]);
                    }
                }
            }
        }
    }
}

/// A head prints as `<mj-head>`, then each of its children in turn one level
/// deeper, then `</mj-head>`; when printing pretty the two tags stand
/// indented on lines of their own.
pub proof fn law_head_printed(head: MJHead, pretty: bool, level: nat, indent_size: nat)
    ensures
        ({
            let line = |text: Seq<char>|
                if pretty {
                    indentation(level, indent_size) + text + "\n"@
                } else {
                    text
                };
            head.printed(pretty, level, indent_size) == line("<mj-head>"@) + Seq::new(
                head.children@.len(),
                |k: int| head.children@[k].printed(pretty, level + 1, indent_size),
            ).flatten() + line("</mj-head>"@)
        }),
{
    reveal_strlit("<mj-head>");
    reveal_strlit("</mj-head>");
    reveal_strlit("mj-head");
    reveal_strlit("<");
    reveal_strlit(">");
    reveal_strlit("</");
    law_children_printed_each(head.children@, pretty, level + 1, indent_size);
    assert(opening_text(NAME@, None, false) =~= "<mj-head>"@);
    assert(closing_text(NAME@) =~= "</mj-head>"@);
}

} // verus!

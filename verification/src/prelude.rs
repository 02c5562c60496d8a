//! What every renderer shares: the error type, the document header and the
//! rendering traits.
use crate::hash::{with_item, OrderedSet};
use crate::mj_head::MJHead;
use vstd::prelude::*;

verus! {

/// Errors of rendering.
#[derive(Debug)]
pub enum Error {
    /// A fragment was asked for by a name the element does not know.
    UnknownFragment(String),
}

/// What renderers share about the document: its head, and the fonts and
/// styles collected on the way.
pub struct Header<'h> {
    head: &'h Option<MJHead>,
    font_families: OrderedSet,
    styles: OrderedSet,
}

impl<'h> Header<'h> {
    /// The head of the document.
    pub closed spec fn spec_head(&self) -> Option<MJHead> {
        *self.head
    }

    /// The font families collected so far, in order.
    pub closed spec fn font_family_items(&self) -> Seq<Seq<char>> {
        self.font_families.items()
    }

    /// The styles collected so far, in order.
    pub closed spec fn style_items(&self) -> Seq<Seq<char>> {
        self.styles.items()
    }

    /// A header for the document whose head is `head`, with no font or
    /// style collected yet.
    pub fn new(head: &'h Option<MJHead>) -> (r: Self)
        ensures
            r.spec_head() == *head,
            r.font_family_items() == Seq::<Seq<char>>::empty(),
            r.style_items() == Seq::<Seq<char>>::empty(),
    {
        Self { head, font_families: OrderedSet::new(), styles: OrderedSet::new() }
    }

    /// The head of the document.
    pub fn head(&self) -> (r: &Option<MJHead>)
        ensures
            *r == self.spec_head(),
    {
        &self.head
    }

    /// Collects `style` when there is one (a style collected before stays
    /// where it is).
    pub fn maybe_add_style(&mut self, style: Option<String>)
        ensures
            final(self).spec_head() == old(self).spec_head(),
            final(self).font_family_items() == old(self).font_family_items(),
            final(self).style_items() == match style {
                Some(s) => with_item(old(self).style_items(), s@),
                None => old(self).style_items(),
            },
    {
        match style {
            Some(s) => {
                self.styles.insert(s);
            },
            None => {},
        }
    }

    /// Collects the font family `name` (a family collected before stays
    /// where it is).
    pub fn add_font_family(&mut self, name: String)
        ensures
            final(self).spec_head() == old(self).spec_head(),
            final(self).style_items() == old(self).style_items(),
            final(self).font_family_items() == with_item(old(self).font_family_items(), name@),
    {
        self.font_families.insert(name);
    }

    /// The styles collected so far, in order.
    pub fn styles(&self) -> (r: Vec<&String>)
        ensures
            r@.len() == self.style_items().len(),
            forall|i: int| 0 <= i < r@.len() ==> (#[trigger] r@[i])@ == self.style_items()[i],
    {
        self.styles.iter()
    }

    /// The font families collected so far, in order.
    pub fn font_families(&self) -> (r: Vec<&String>)
        ensures
            r@.len() == self.font_family_items().len(),
            forall|i: int| 0 <= i < r@.len() ==> (#[trigger] r@[i])@ == self.font_family_items()[i],
    {
        self.font_families.iter()
    }
}

/// Renders one element of the document into a buffer.
pub trait Render: Sized {
    /// The markup this renderer writes.
    spec fn markup(&self) -> Seq<char>;

    /// Tells the renderer its position among its siblings.
    fn set_index(&mut self, _index: usize)
        default_ensures
            *final(self) == *old(self),
    {
    }

    /// Tells the renderer how many siblings it has.
    fn set_siblings(&mut self, _count: usize)
        default_ensures
            *final(self) == *old(self),
    {
    }

    /// Tells the renderer how many of its siblings are raw elements.
    fn set_raw_siblings(&mut self, _count: usize)
        default_ensures
            *final(self) == *old(self),
    {
    }

    /// Appends the markup to `buf`.
    fn render(&self, buf: &mut String) -> (r: Result<(), Error>)
        ensures
            r is Ok,
            final(buf)@ == old(buf)@ + self.markup(),
    ;
}

/// Elements that can make a renderer of themselves.
pub trait Renderable<'e, 'h> {
    /// The renderer of the element.
    type Renderer: Render;

    /// The markup of the element in a document whose head is `head`.
    spec fn markup_with(&self, head: Option<MJHead>) -> Seq<char>;

    /// A renderer of the element that reads the document through `header`.
    fn renderer(&'e self, header: &'h Header<'h>) -> (r: Self::Renderer)
        ensures
            r.markup() == self.markup_with(header.spec_head()),
    ;
}

} // verus!

//! The `mj-button` element.
use crate::hash::OrderedMap;
use crate::mj_head::MJHead;
use crate::prelude::{Error, Header, Render, Renderable};
use vstd::prelude::*;

verus! {

/// The `mj-button` element.
pub struct MJButton {
    pub attributes: OrderedMap,
    pub children: String,
}

/// The renderer of a button; buttons render no markup yet.
pub struct MJButtonRender<'e, 'h> {
    header: &'h Header<'h>,
    element: &'e MJButton,
}

impl<'e, 'h> MJButtonRender<'e, 'h> {
    /// The button being rendered.
    pub closed spec fn element(&self) -> MJButton {
        *self.element
    }

    /// The header through which the button reads the document.
    pub closed spec fn header(&self) -> Header<'h> {
        *self.header
    }
}

impl<'e, 'h> Render for MJButtonRender<'e, 'h> {
    closed spec fn markup(&self) -> Seq<char> {
        Seq::empty()
    }

    fn render(&self, buf: &mut String) -> (r: Result<(), Error>) {
        assert(buf@ =~= buf@ + Seq::<char>::empty());
        Ok(())
    }
}

impl<'e, 'h> Renderable<'e, 'h> for MJButton {
    type Renderer = MJButtonRender<'e, 'h>;

    open spec fn markup_with(&self, head: Option<MJHead>) -> Seq<char> {
        Seq::empty()
    }

    fn renderer(&'e self, header: &'h Header<'h>) -> (r: MJButtonRender<'e, 'h>)
        ensures
            r.element() == *self,
            r.header() == *header,
    {
        MJButtonRender { element: self, header }
    }
}

} // verus!

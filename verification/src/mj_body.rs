//! The `mj-body` element and its rendering.
use crate::hash::{lookup, OrderedMap};
use crate::mj_button::{MJButton, MJButtonRender};
use crate::mj_head::MJHead;
use crate::prelude::{Error, Header, Render, Renderable};
use vstd::prelude::*;
use vstd::string::*;

verus! {

/// The hidden block that holds the preview text.
pub const PREVIEW_OPEN: &'static str =
    "<div style=\"display:none;font-size:1px;color:#ffffff;line-height:1px;max-height:0px;max-width:0px;opacity:0;overflow:hidden;\">";

/// A child of `mj-body`.
pub enum MJBodyChild {
    MJButton(MJButton),
}

/// The renderer of a child of `mj-body`.
pub enum MJBodyChildRender<'e, 'h> {
    MJButton(MJButtonRender<'e, 'h>),
}

impl<'e, 'h> Render for MJBodyChildRender<'e, 'h> {
    open spec fn markup(&self) -> Seq<char> {
        match self {
            MJBodyChildRender::MJButton(r) => r.markup(),
        }
    }

    fn render(&self, buf: &mut String) -> (r: Result<(), Error>) {
        match self {
            MJBodyChildRender::MJButton(r) => r.render(buf),
        }
    }
}

impl<'e, 'h> Renderable<'e, 'h> for MJBodyChild {
    type Renderer = MJBodyChildRender<'e, 'h>;

    open spec fn markup_with(&self, head: Option<MJHead>) -> Seq<char> {
        match self {
            MJBodyChild::MJButton(b) => b.markup_with(head),
        }
    }

    fn renderer(&'e self, header: &'h Header<'h>) -> (r: MJBodyChildRender<'e, 'h>) {
        match self {
            MJBodyChild::MJButton(b) => MJBodyChildRender::MJButton(b.renderer(header)),
        }
    }
}

/// The `mj-body` element.
pub struct MJBody {
    pub attributes: OrderedMap,
    pub children: Vec<MJBodyChild>,
}

impl Default for MJBody {
    fn default() -> (b: MJBody)
        ensures
            b.attributes.entries().len() == 0,
            b.children@.len() == 0,
    {
        MJBody { attributes: OrderedMap::new(), children: Vec::new() }
    }
}

/// The preview text of a document whose head is `head`, if any.
pub open spec fn preview_of(head: Option<MJHead>) -> Option<Seq<char>> {
    match head {
        Some(h) => h.preview_text(),
        None => None,
    }
}

/// ` style="background-color:..."` when the body has a background color.
pub open spec fn body_style_markup(attributes: Seq<(Seq<char>, Seq<char>)>) -> Seq<char> {
    match lookup(attributes, "background-color"@) {
        Some(color) => " style=\"background-color:"@ + color + "\""@,
        None => Seq::empty(),
    }
}

/// ` class="..."` when the body has a CSS class.
pub open spec fn body_class_markup(attributes: Seq<(Seq<char>, Seq<char>)>) -> Seq<char> {
    match lookup(attributes, "css-class"@) {
        Some(class) => " class=\""@ + class + "\""@,
        None => Seq::empty(),
    }
}

/// The hidden preview block, when the document has a preview.
pub open spec fn preview_markup(head: Option<MJHead>) -> Seq<char> {
    match preview_of(head) {
        Some(text) => PREVIEW_OPEN@ + text + "</div>"@,
        None => Seq::empty(),
    }
}

/// The markup of `children`, one after the other.
pub open spec fn children_markup(children: Seq<MJBodyChild>, head: Option<MJHead>) -> Seq<char>
    decreases children.len(),
{
    if children.len() == 0 {
        Seq::empty()
    } else {
        children_markup(children.drop_last(), head) + children.last().markup_with(head)
    }
}

/// The block that holds the children of the body.
pub open spec fn content_markup(body: MJBody, head: Option<MJHead>) -> Seq<char> {
    "<div"@ + body_class_markup(body.attributes.entries()) + body_style_markup(
        body.attributes.entries(),
    ) + "\">"@ + children_markup(body.children@, head) + "</div>"@
}

/// The markup of the body in a document whose head is `head`.
pub open spec fn body_markup(body: MJBody, head: Option<MJHead>) -> Seq<char> {
    "<body"@ + body_style_markup(body.attributes.entries()) + ">"@ + preview_markup(head)
        + content_markup(body, head) + "</body>"@
}

/// The renderer of `mj-body`.
pub struct MJBodyRender<'e, 'h> {
    header: &'h Header<'h>,
    element: &'e MJBody,
}

impl<'e, 'h> MJBodyRender<'e, 'h> {
    /// The value of the body's attribute `name`, if any.
    fn attribute(&self, name: &str) -> (r: Option<&String>)
        ensures
            r is Some <==> lookup(self.element.attributes.entries(), name@) is Some,
            r matches Some(v) ==> lookup(self.element.attributes.entries(), name@) == Some(v@),
    {
        self.element.attributes.get(name)
    }

    /// Appends the body's inline style, if it has a background color.
    fn push_body_style(&self, buf: &mut String)
        ensures
            final(buf)@ == old(buf)@ + body_style_markup(self.element.attributes.entries()),
    {
        if let Some(bg_color) = self.attribute("background-color") {
            buf.append(" style=\"background-color:");
            buf.append(bg_color.as_str());
            buf.append("\"");
            assert(final(buf)@ =~= old(buf)@ + body_style_markup(self.element.attributes.entries()));
        } else {
            assert(buf@ =~= old(buf)@ + body_style_markup(self.element.attributes.entries()));
        }
    }

    /// Appends the hidden preview block, if the document has a preview.
    fn render_preview(&self, buf: &mut String)
        ensures
            final(buf)@ == old(buf)@ + preview_markup(self.header.spec_head()),
    {
        let head = self.header.head();
        let preview = match head {
            Some(h) => h.preview(),
            None => None,
        };
        if let Some(p) = preview {
            let value = p.content();
            buf.append(PREVIEW_OPEN);
            buf.append(value);
            buf.append("</div>");
            assert(final(buf)@ =~= old(buf)@ + preview_markup(self.header.spec_head()));
        } else {
            assert(buf@ =~= old(buf)@ + preview_markup(self.header.spec_head()));
        }
    }

    /// Appends the block that holds the children of the body.
    fn render_content(&self, buf: &mut String) -> (r: Result<(), Error>)
        ensures
            r is Ok,
            final(buf)@ == old(buf)@ + content_markup(*self.element, self.header.spec_head()),
    {
        buf.append("<div");
        if let Some(class) = self.attribute("css-class") {
            buf.append(" class=\"");
            buf.append(class.as_str());
            buf.append("\"");
        }
        self.push_body_style(buf);
        buf.append("\">");
        let ghost start = buf@;
        let ghost head = self.header.spec_head();
        let children = &self.element.children;
        let mut i: usize = 0;
        while i < children.len()
            invariant
                i <= children.len(),
                head == self.header.spec_head(),
                buf@ == start + children_markup(children@.take(i as int), head),
            decreases children.len() - i,
        {
            let renderer = children[i].renderer(self.header);
            renderer.render(buf)?;
            proof {
                assert(children@.take(i + 1).drop_last() =~= children@.take(i as int));
                assert(children@.take(i + 1).last() == children@[i as int]);
                assert(buf@ =~= start + children_markup(children@.take(i + 1), head));
            }
            i = i + 1;
        }
        buf.append("</div>");
        proof {
            assert(children@.take(children.len() as int) =~= children@);
            assert(final(buf)@ =~= old(buf)@ + content_markup(*self.element, head));
        }
        Ok(())
    }
}

impl<'e, 'h> Render for MJBodyRender<'e, 'h> {
    closed spec fn markup(&self) -> Seq<char> {
        body_markup(*self.element, self.header.spec_head())
    }

    fn render(&self, buf: &mut String) -> (r: Result<(), Error>) {
        buf.append("<body");
        self.push_body_style(buf);
        buf.append(">");
        self.render_preview(buf);
        self.render_content(buf)?;
        buf.append("</body>");
        assert(final(buf)@ =~= old(buf)@ + self.markup());
        Ok(())
    }
}

impl<'e, 'h> Renderable<'e, 'h> for MJBody {
    type Renderer = MJBodyRender<'e, 'h>;

    open spec fn markup_with(&self, head: Option<MJHead>) -> Seq<char> {
        body_markup(*self, head)
    }

    fn renderer(&'e self, header: &'h Header<'h>) -> (r: MJBodyRender<'e, 'h>) {
        MJBodyRender { element: self, header }
    }
}

/// The markup of children one after the other is the markup of each child,
/// in order.
proof fn lemma_children_markup_each(children: Seq<MJBodyChild>, head: Option<MJHead>)
    ensures
        children_markup(children, head) == Seq::new(
            children.len(),
            |k: int| children[k].markup_with(head),
        ).flatten(),
    decreases children.len(),
{
    let f = Seq::new(children.len(), |k: int| children[k].markup_with(head));
    f.lemma_flatten_and_flatten_alt_are_equivalent();
    if children.len() > 0 {
        let rest = children.drop_last();
        lemma_children_markup_each(rest, head);
        let g = Seq::new(rest.len(), |k: int| rest[k].markup_with(head));
        g.lemma_flatten_and_flatten_alt_are_equivalent();
        assert(f.drop_last() =~= g);
    } else {
        assert(f.flatten_alt() =~= Seq::<char>::empty());
    }
}

/// The body tag carries the body's background colour, and so does the block
/// that holds its children, whether or not the body has a CSS class; the
/// class, when there is one, goes on that block before the style. Between
/// the body tag and that block stands the hidden preview text of the head,
/// when it has one; inside the block come the children, each in turn.
pub proof fn law_body_markup(body: MJBody, head: Option<MJHead>)
    ensures
        ({
            let attrs = body.attributes.entries();
            let style = match lookup(attrs, "background-color"@) {
                Some(color) => " style=\"background-color:"@ + color + "\""@,
                None => Seq::<char>::empty(),
            };
            let class = match lookup(attrs, "css-class"@) {
                Some(c) => " class=\""@ + c + "\""@,
                None => Seq::<char>::empty(),
            };
            let preview = match preview_of(head) {
                Some(text) => PREVIEW_OPEN@ + text + "</div>"@,
                None => Seq::<char>::empty(),
            };
            let children = Seq::new(
                body.children@.len(),
                |k: int| body.children@[k].markup_with(head),
            ).flatten();
            let content = "<div"@ + class + style + "\">"@ + children + "</div>"@;
            &&& content_markup(body, head) == content
            &&& body_markup(body, head) == "<body"@ + style + ">"@ + preview + content
                + "</body>"@
        }),
{
    lemma_children_markup_each(body.children@, head);
}

} // verus!

//! The `mjml` root element and its rendering to an HTML document.
use crate::mj_body::MJBody;
use crate::mj_head::MJHead;
use crate::prelude::{Error, Header, Render, Renderable};
use vstd::prelude::*;
use vstd::string::*;

verus! {

/// The document type declaration that starts every document.
pub const DOCTYPE: &'static str = "<!doctype html>";

/// The opening `html` tag, with the XHTML, VML and Office namespaces.
pub const HTML_OPEN: &'static str =
    "<html xmlns=\"http://www.w3.org/1999/xhtml\" xmlns:v=\"urn:schemas-microsoft-com:vml\" xmlns:o=\"urn:schemas-microsoft-com:office:office\">";

/// The closing `html` tag.
pub const HTML_CLOSE: &'static str = "</html>";

/// The HTML document that a root element renders to.
pub open spec fn document_markup() -> Seq<char> {
    DOCTYPE@ + HTML_OPEN@ + HTML_CLOSE@
}

/// The `mjml` root element.
pub struct MJML {
    pub head: Option<MJHead>,
    pub body: Option<MJBody>,
}

impl Default for MJML {
    fn default() -> (r: MJML)
        ensures
            r.head is None,
            r.body is None,
    {
        MJML { head: None, body: None }
    }
}

/// The renderer of the root element.
pub struct MJMLRender<'e, 'h> {
    header: &'h Header<'h>,
    element: &'e MJML,
}

impl<'e, 'h> MJMLRender<'e, 'h> {
    /// The document being rendered.
    pub closed spec fn element(&self) -> MJML {
        *self.element
    }

    /// The header through which the document is read.
    pub closed spec fn header(&self) -> Header<'h> {
        *self.header
    }
}

impl<'e, 'h> Render for MJMLRender<'e, 'h> {
    closed spec fn markup(&self) -> Seq<char> {
        document_markup()
    }

    fn render(&self, buf: &mut String) -> (r: Result<(), Error>) {
        let mut body_content = String::new();
        if let Some(body) = self.element.body() {
            body.renderer(self.header).render(&mut body_content)?;
        }
        buf.append(DOCTYPE);
        buf.append(HTML_OPEN);
        buf.append(HTML_CLOSE);
        assert(final(buf)@ =~= old(buf)@ + document_markup());
        Ok(())
    }
}

impl<'e, 'h> Renderable<'e, 'h> for MJML {
    type Renderer = MJMLRender<'e, 'h>;

    open spec fn markup_with(&self, head: Option<MJHead>) -> Seq<char> {
        document_markup()
    }

    fn renderer(&'e self, header: &'h Header<'h>) -> (r: MJMLRender<'e, 'h>)
        ensures
            r.element() == *self,
            r.header() == *header,
    {
        MJMLRender { element: self, header }
    }
}

impl MJML {
    /// The head of the document.
    pub fn head(&self) -> (r: Option<&MJHead>)
        ensures
            r == match &self.head {
                Some(h) => Some(h),
                None => None::<&MJHead>,
            },
    {
        match &self.head {
            Some(h) => Some(h),
            None => None,
        }
    }

    /// The body of the document.
    pub fn body(&self) -> (r: Option<&MJBody>)
        ensures
            r == match &self.body {
                Some(b) => Some(b),
                None => None::<&MJBody>,
            },
    {
        match &self.body {
            Some(b) => Some(b),
            None => None,
        }
    }

    /// Renders the document to HTML.
    pub fn render(&self) -> (r: Result<String, Error>)
        ensures
            r matches Ok(s) && s@ == document_markup(),
    {
        let header = Header::new(&self.head);
        let mut buffer = String::new();
        self.renderer(&header).render(&mut buffer)?;
        Ok(buffer)
    }
}

} // verus!

//! CSS rules: a list of selectors sharing a block of declarations.
use crate::text::{join, joined, views};
use vstd::prelude::*;
use vstd::string::*;

verus! {

/// What a rule is made of: its selectors and its declarations, in order.
pub struct StyleSpec {
    pub selectors: Seq<Seq<char>>,
    pub content: Seq<Seq<char>>,
}

impl StyleSpec {
    /// The rule as CSS text: the selectors, one per line, then the
    /// declarations in braces.
    pub open spec fn text(self) -> Seq<char> {
        joined(self.selectors, ",\n"@) + " { "@ + joined(self.content, "\n"@) + " }"@
    }
}

/// A CSS rule being assembled.
pub struct Style {
    selectors: Vec<String>,
    content: Vec<String>,
}

impl View for Style {
    type V = StyleSpec;

    closed spec fn view(&self) -> StyleSpec {
        StyleSpec { selectors: views(self.selectors@), content: views(self.content@) }
    }
}

impl Default for Style {
    fn default() -> (s: Style)
        ensures
            s@ == (StyleSpec { selectors: Seq::empty(), content: Seq::empty() }),
    {
        Style::new()
    }
}

impl Style {
    /// A rule with no selector and no declaration.
    pub fn new() -> (s: Style)
        ensures
            s@ == (StyleSpec { selectors: Seq::empty(), content: Seq::empty() }),
    {
        let s = Style { selectors: Vec::new(), content: Vec::new() };
        assert(s@.selectors =~= Seq::<Seq<char>>::empty());
        assert(s@.content =~= Seq::<Seq<char>>::empty());
        s
    }

    /// The same rule with one more selector.
    pub fn add_selector(self, selector: String) -> (s: Style)
        ensures
            s@ == (StyleSpec { selectors: self@.selectors.push(selector@), ..self@ }),
    {
        let mut s = self;
        s.selectors.push(selector);
        assert(s@.selectors =~= self@.selectors.push(selector@));
        s
    }

    /// The same rule with one more selector.
    pub fn add_str_selector(self, selector: &str) -> (s: Style)
        ensures
            s@ == (StyleSpec { selectors: self@.selectors.push(selector@), ..self@ }),
    {
        self.add_selector(String::from_str(selector))
    }

    /// The same rule with one more declaration.
    pub fn add_content(self, content: String) -> (s: Style)
        ensures
            s@ == (StyleSpec { content: self@.content.push(content@), ..self@ }),
    {
        let mut s = self;
        s.content.push(content);
        assert(s@.content =~= self@.content.push(content@));
        s
    }

    /// The same rule with one more declaration.
    pub fn add_str_content(self, content: &str) -> (s: Style)
        ensures
            s@ == (StyleSpec { content: self@.content.push(content@), ..self@ }),
    {
        self.add_content(String::from_str(content))
    }

    /// The rule as CSS text.
    pub fn to_string(&self) -> (r: String)
        ensures
            r@ == self@.text(),
    {
        let mut r = join(&self.selectors, ",\n");
        r.append(" { ");
        let content = join(&self.content, "\n");
        r.append(content.as_str());
        r.append(" }");
        assert(r@ =~= self@.text());
        r
    }
}

} // verus!

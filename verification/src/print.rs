//! Printing of MJML elements back to MJML markup, dense or indented.
use crate::hash::OrderedMap;
use crate::tag::attributes_part;
use crate::text::{push_spaces, repeated};
use crate::util::{sort_entries, sorted_entries, pair_views};
use vstd::prelude::*;
use vstd::string::*;

verus! {

/// The indentation of a line at `level` when each level is `indent_size`
/// spaces wide.
pub open spec fn indentation(level: nat, indent_size: nat) -> Seq<char>
    decreases level,
{
    if level == 0 {
        Seq::empty()
    } else {
        indentation((level - 1) as nat, indent_size) + repeated(indent_size, " "@)
    }
}

/// `text` as a line of its own when printing pretty, as it is otherwise.
pub open spec fn as_line(pretty: bool, level: nat, indent_size: nat, text: Seq<char>) -> Seq<char> {
    if pretty {
        indentation(level, indent_size) + text + "\n"@
    } else {
        text
    }
}

/// The attributes, ordered by name, as ` name="value"` each.
pub open spec fn attributes_text(entries: Seq<(Seq<char>, Seq<char>)>) -> Seq<char> {
    attributes_part(sorted_entries(entries))
}

/// The opening tag `<tag ...>`, or `<tag ... />` when `closed`.
pub open spec fn opening_text(
    tag: Seq<char>,
    attributes: Option<Seq<(Seq<char>, Seq<char>)>>,
    closed: bool,
) -> Seq<char> {
    "<"@ + tag + match attributes {
        Some(e) => attributes_text(e),
        None => Seq::empty(),
    } + if closed {
        " />"@
    } else {
        ">"@
    }
}

/// The closing tag `</tag>`.
pub open spec fn closing_text(tag: Seq<char>) -> Seq<char> {
    "</"@ + tag + ">"@
}

/// Elements that print back to MJML markup.
pub trait Print {
    /// The markup of the element at `level`, on lines of their own when
    /// `pretty`.
    spec fn printed(&self, pretty: bool, level: nat, indent_size: nat) -> Seq<char>;

    /// How many levels of children the element holds below itself.
    spec fn depth(&self) -> nat;

    fn print(&self, pretty: bool, level: usize, indent_size: usize) -> (r: String)
        requires
            level + self.depth() <= usize::MAX,
        ensures
            r@ == self.printed(pretty, level as nat, indent_size as nat),
    ;

    /// The markup on one line.
    fn dense_print(&self) -> (r: String)
        requires
            self.depth() <= usize::MAX,
        ensures
            r@ == self.printed(false, 0, 2),
    {
        self.print(false, 0, 2)
    }

    /// The markup indented by two spaces per level.
    fn pretty_print(&self) -> (r: String)
        requires
            self.depth() <= usize::MAX,
        ensures
            r@ == self.printed(true, 0, 2),
    {
        self.print(true, 0, 2)
    }
}

/// The indentation of a line at `level`.
pub fn push_indentation(buf: &mut String, level: usize, indent_size: usize)
    ensures
        final(buf)@ == old(buf)@ + indentation(level as nat, indent_size as nat),
{
    let mut i: usize = 0;
    while i < level
        invariant
            i <= level,
            buf@ == old(buf)@ + indentation(i as nat, indent_size as nat),
        decreases level - i,
    {
        push_spaces(buf, indent_size);
        proof {
            assert(indentation((i + 1) as nat, indent_size as nat) == indentation(
                i as nat,
                indent_size as nat,
            ) + repeated(indent_size as nat, " "@));
            assert(buf@ =~= old(buf)@ + indentation((i + 1) as nat, indent_size as nat));
        }
        i = i + 1;
    }
}

/// `value` as a line at `level`.
pub fn indent(level: usize, indent_size: usize, value: &str) -> (r: String)
    ensures
        r@ == as_line(true, level as nat, indent_size as nat, value@),
{
    let mut r = String::new();
    push_indentation(&mut r, level, indent_size);
    r.append(value);
    r.append("\n");
    assert(r@ =~= as_line(true, level as nat, indent_size as nat, value@));
    r
}

/// `value` as a line at `level` when `pretty`, as it is otherwise.
pub fn maybe_indent(pretty: bool, level: usize, indent_size: usize, value: String) -> (r: String)
    ensures
        r@ == as_line(pretty, level as nat, indent_size as nat, value@),
{
    if pretty {
        indent(level, indent_size, value.as_str())
    } else {
        value
    }
}

/// The attributes, ordered by name with `sort_by_key`.
pub fn attributes(attrs: &OrderedMap) -> (r: String)
    ensures
        r@ == attributes_text(attrs.entries()),
{
    let entries = attrs.iter();
    proof {
        assert(pair_views(entries@) =~= attrs.entries());
    }
    let sorted = sort_entries(&entries);
    let mut r = String::new();
    let mut i: usize = 0;
    let ghost s = pair_views(sorted@);
    while i < sorted.len()
        invariant
            i <= sorted.len(),
            s == pair_views(sorted@),
            r@ == attributes_part(s.take(i as int)),
        decreases sorted.len() - i,
    {
        let (k, v) = sorted[i];
        r.append(" ");
        r.append(k.as_str());
        r.append("=\"");
        r.append(v.as_str());
        r.append("\"");
        proof {
            assert(s.take(i + 1).drop_last() =~= s.take(i as int));
            assert(s.take(i + 1).last() == s[i as int]);
            assert(s[i as int] == (k@, v@));
            assert(r@ =~= attributes_part(s.take(i + 1)));
        }
        i = i + 1;
    }
    proof {
        assert(s.take(sorted.len() as int) =~= s);
    }
    r
}

/// The opening tag, as a line of its own when `pretty`.
pub fn open(
    tag: &str,
    attrs: Option<&OrderedMap>,
    closed: bool,
    pretty: bool,
    level: usize,
    indent_size: usize,
) -> (r: String)
    ensures
        r@ == as_line(
            pretty,
            level as nat,
            indent_size as nat,
            opening_text(
                tag@,
                match attrs {
                    Some(a) => Some(a.entries()),
                    None => None,
                },
                closed,
            ),
        ),
{
    let mut r = String::from_str("<");
    r.append(tag);
    match attrs {
        Some(a) => {
            let text = attributes(a);
            r.append(text.as_str());
        },
        None => {},
    }
    if closed {
        r.append(" />");
    } else {
        r.append(">");
    }
    assert(r@ =~= opening_text(
        tag@,
        match attrs {
            Some(a) => Some(a.entries()),
            None => None,
        },
        closed,
    ));
    maybe_indent(pretty, level, indent_size, r)
}

/// The closing tag, as a line of its own when `pretty`.
pub fn close(tag: &str, pretty: bool, level: usize, indent_size: usize) -> (r: String)
    ensures
        r@ == as_line(pretty, level as nat, indent_size as nat, closing_text(tag@)),
{
    let mut r = String::from_str("</");
    r.append(tag);
    r.append(">");
    assert(r@ =~= closing_text(tag@));
    maybe_indent(pretty, level, indent_size, r)
}

/// An element holding text: `<tag>text</tag>`, as a line of its own when
/// `pretty`.
pub fn print_text_element(tag: &str, text: &str, pretty: bool, level: usize, indent_size: usize) -> (r: String)
    ensures
        r@ == as_line(
            pretty,
            level as nat,
            indent_size as nat,
            opening_text(tag@, None, false) + text@ + closing_text(tag@),
        ),
{
    let mut r = open(tag, None, false, false, level, indent_size);
    r.append(text);
    let c = close(tag, false, level, indent_size);
    r.append(c.as_str());
    assert(r@ =~= opening_text(tag@, None, false) + text@ + closing_text(tag@));
    maybe_indent(pretty, level, indent_size, r)
}

} // verus!

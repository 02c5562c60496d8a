//! Conditional comments that show or hide markup in Outlook and old IE.
use vstd::prelude::*;
use vstd::string::*;

verus! {

/// Opens markup that only Outlook and IE read.
pub const START_CONDITIONAL_TAG: &'static str = "<!--[if mso | IE]>";

/// Closes markup that only Outlook and IE read.
pub const END_CONDITIONAL_TAG: &'static str = "<![endif]-->";

/// Opens markup that Outlook and IE skip.
pub const START_NEGATION_CONDITIONAL_TAG: &'static str = "<!--[if !mso | IE]><!-->";

/// Closes markup that Outlook and IE skip.
pub const END_NEGATION_CONDITIONAL_TAG: &'static str = "<!--<![endif]-->";

/// `content` for Outlook and IE only.
pub open spec fn mso_conditional(content: Seq<char>) -> Seq<char> {
    START_CONDITIONAL_TAG@ + content + END_CONDITIONAL_TAG@
}

/// `content` for every client but Outlook and IE.
pub open spec fn mso_negation_conditional(content: Seq<char>) -> Seq<char> {
    START_NEGATION_CONDITIONAL_TAG@ + content + END_NEGATION_CONDITIONAL_TAG@
}

/// Wraps `content` so that only Outlook and IE show it.
pub fn mso_conditional_tag(content: &str) -> (r: String)
    ensures
        r@ == mso_conditional(content@),
{
    let mut r = String::from_str(START_CONDITIONAL_TAG);
    r.append(content);
    r.append(END_CONDITIONAL_TAG);
    r
}

/// Wraps `content` so that Outlook and IE skip it.
pub fn mso_negation_conditional_tag(content: &str) -> (r: String)
    ensures
        r@ == mso_negation_conditional(content@),
{
    let mut r = String::from_str(START_NEGATION_CONDITIONAL_TAG);
    r.append(content);
    r.append(END_NEGATION_CONDITIONAL_TAG);
    r
}

} // verus!

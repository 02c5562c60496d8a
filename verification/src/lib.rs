//! Rendering and printing of MJML documents: the `mjml` root, its head and
//! body, buttons and carousels, with the helpers they share.
use vstd::prelude::*;

pub mod condition;
pub mod hash;
pub mod mj_body;
pub mod mj_button;
pub mod mj_carousel;
pub mod mj_carousel_image;
pub mod mj_head;
pub mod mjml;
pub mod prelude;
pub mod print;
pub mod style;
pub mod tag;
pub mod text;
pub mod util;

verus! {

} // verus!

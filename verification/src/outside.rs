//! What the library takes from other crates on trust.

use matrix_sdk::ruma::OwnedUserId;
use modalkit::tui::layout::Rect;
use vstd::prelude::*;

verus! {

/// Whether a text is a Matrix user identifier, as `OwnedUserId::try_from` decides it.
pub uninterp spec fn valid_user_id(text: Seq<char>) -> bool;

/// Calls `OwnedUserId::try_from` of `matrix_sdk::ruma` on the text and says whether it gave
/// an identifier. Trusted: the answer depends on the text alone. Which texts are identifiers
/// (the leading `@`, the characters of the name, the form of the server name, the length) is
/// left to that crate.
#[verifier::external_body]
pub(crate) fn is_user_id(text: &str) -> (valid: bool)
    ensures
        valid == valid_user_id(text@),
{
    OwnedUserId::try_from(text).is_ok()
}

/// Calls `Rect::new` of `modalkit::tui` and takes the rectangle apart into its left edge, its
/// top edge, its width and its height. Trusted: an area that fits into sixteen bits is not
/// clipped, so the rectangle is the one asked for.
#[verifier::external_body]
pub(crate) fn new_rect(x: u16, y: u16, width: u16, height: u16) -> (rect: (u16, u16, u16, u16))
    requires
        width * height <= u16::MAX,
    ensures
        rect == (x, y, width, height),
{
    let rect = Rect::new(x, y, width, height);
    (rect.x, rect.y, rect.width, rect.height)
}

} // verus!

//! Native notifications: what a message notification shows.

use vstd::prelude::*;
use vstd::string::*;
use vstd::utf8::{encode_utf8, encode_utf8_valid_utf8, is_char_boundary};

verus! {

/// Notification click action.
#[derive(Debug, Clone)]
pub struct NotificationAction {
    pub peer_id: String,
}

/// Longest preview, in bytes, that a notification shows whole.
pub const PREVIEW_MAX_BYTES: usize = 100;

/// Bytes of a long preview kept before the ellipsis.
pub const PREVIEW_KEPT_BYTES: usize = 97;

/// The text a message notification shows of a preview: the preview itself
/// if it is at most 100 bytes long, else its first 97 bytes and `...`.
pub fn notification_preview(preview: &str) -> (text: String)
    requires
        encode_utf8(preview@).len() <= PREVIEW_MAX_BYTES || is_char_boundary(
            encode_utf8(preview@),
            PREVIEW_KEPT_BYTES as int,
        ),
    ensures
        encode_utf8(preview@).len() <= PREVIEW_MAX_BYTES ==> text@ == preview@,
        encode_utf8(preview@).len() > PREVIEW_MAX_BYTES ==> {
            &&& text@.len() >= 3
            &&& text@.subrange(text@.len() - 3, text@.len() as int) == "..."@
            &&& encode_utf8(text@.subrange(0, text@.len() - 3)) == encode_utf8(preview@).subrange(
                0,
                PREVIEW_KEPT_BYTES as int,
            )
        },
{
    assert(preview.spec_bytes() == encode_utf8(preview@));
    proof {
        encode_utf8_valid_utf8(preview@);
        reveal_strlit("...");
    }
    let byte_len = preview.as_bytes().len();
    if byte_len > PREVIEW_MAX_BYTES {
        let (head, _) = preview.split_at(PREVIEW_KEPT_BYTES);
        assert(head.spec_bytes() == encode_utf8(head@));
        let mut text = String::from_str(head);
        text.append("...");
        assert(text@.subrange(0, text@.len() - 3) =~= head@);
        assert(text@.subrange(text@.len() - 3, text@.len() as int) =~= "..."@);
        text
    } else {
        String::from_str(preview)
    }
}

} // verus!

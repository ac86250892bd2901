//! Chat messages and the exact text shape of a displayed chat line.
use vstd::prelude::*;
use vstd::string::StringExecFns;

verus! {

/// A persisted chat message joined with its sender's display name.
pub struct ChatMessage {
    pub id: i64,
    pub sender_id: i64,
    pub sender_name: String,
    pub content: String,
    pub timestamp: String,
}

/// The displayed line `"<sender>: <content>      [<timestamp>]"`.
pub open spec fn line_text(sender: Seq<char>, content: Seq<char>, stamp: Seq<char>) -> Seq<char> {
    sender + seq![':', ' '] + content + seq![' ', ' ', ' ', ' ', ' ', ' ', '['] + stamp + seq![']']
}

/// The displayed line of a stored message.
pub open spec fn message_line(m: ChatMessage) -> Seq<char> {
    line_text(m.sender_name@, m.content@, m.timestamp@)
}

/// Builds the displayed line `"<sender>: <content>      [<timestamp>]"`.
pub fn format_line(sender: &str, content: &str, stamp: &str) -> (r: String)
    ensures
        r@ == line_text(sender@, content@, stamp@),
{
    proof {
        reveal_strlit(": ");
        reveal_strlit("      [");
        reveal_strlit("]");
    }
    let mut s = String::from_str(sender);
    s.append(": ");
    s.append(content);
    s.append("      [");
    s.append(stamp);
    s.append("]");
    s
}

/// The displayed line of a stored message.
pub fn message_to_line(m: &ChatMessage) -> (r: String)
    ensures
        r@ == message_line(*m),
{
    format_line(m.sender_name.as_str(), m.content.as_str(), m.timestamp.as_str())
}

/// The strftime pattern of displayed timestamps: `YYYY-MM-DD HH:MM:SS`.
pub const STAMP_PATTERN: &'static str = "%Y-%m-%d %H:%M:%S";

pub open spec fn stamp_pattern() -> Seq<char> {
    "%Y-%m-%d %H:%M:%S"@
}

/// Relies on chrono::Local::now and the `Display` of its `format`: the local
/// time rendered by a valid strftime pattern. The instant depends on the
/// clock, so nothing is promised of the text.
#[verifier::external_body]
pub(crate) fn local_time_text(pattern: &str) -> (r: String)
    requires
        pattern@ == stamp_pattern(),
{
    chrono::Local::now().format(pattern).to_string()
}

} // verus!

//! Command dispatch and the replies it computes.
//!
//! Dispatch is an exact match of the whole message body against the fixed
//! command words — no prefixes, no tokenizing.  The liveness command answers
//! with a fixed string; the nickname command (and the new-member flow, which
//! shares its logic) draws the next counter value and formats the member's
//! numbered nickname.

use crate::counter::Counter;
use crate::numtext::format_u32;
use crate::numtext::spec_decimal;
use crate::strutil::str_eq;
use vstd::prelude::*;

verus! {

/// The command a message body selects, if any.
#[derive(Clone, Copy, Debug, PartialEq, Eq, Structural)]
pub enum Command {
    /// The liveness check.
    Ping,
    /// Assign the sender a numbered nickname.
    Name,
    /// Post the role menu.
    Roles,
    /// Anything else: the message is ignored.
    Other,
}

/// Which command a message body selects: an exact match of the whole body.
pub open spec fn spec_command(s: Seq<char>) -> Command {
    if s == "!ping"@ {
        Command::Ping
    } else if s == "!name"@ {
        Command::Name
    } else if s == "!roles"@ {
        Command::Roles
    } else {
        Command::Other
    }
}

/// Dispatch a message body to its command.
pub fn parse_command(content: &str) -> (c: Command)
    ensures
        c == spec_command(content@),
{
    if str_eq(content, "!ping") {
        Command::Ping
    } else if str_eq(content, "!name") {
        Command::Name
    } else if str_eq(content, "!roles") {
        Command::Roles
    } else {
        Command::Other
    }
}

/// The fixed reply to the liveness command, whatever the bot's state.
pub fn ping_reply() -> (r: String)
    ensures
        r@ == "Pong!"@,
{
    "Pong!".to_owned()
}

/// The numbered nickname: the display name, a space, and the counter value in
/// square brackets.
pub open spec fn spec_nickname(name: Seq<char>, n: nat) -> Seq<char> {
    name + " ["@ + spec_decimal(n) + "]"@
}

/// Format a display name with a counter value.
pub fn format_nickname(display_name: &str, n: u32) -> (r: String)
    ensures
        r@ == spec_nickname(display_name@, n as nat),
{
    let mut s = display_name.to_owned();
    s.append(" [");
    let digits = format_u32(n);
    s.append(digits.as_str());
    s.append("]");
    proof {
        assert(s@ =~= spec_nickname(display_name@, n as nat));
    }
    s
}

/// Draw the next counter value and produce the member's new nickname.  This
/// serves both the nickname command (for the sender) and the new-member flow
/// (for the member that joined).
pub fn numbered_nickname(c: &mut Counter, display_name: &str) -> (nick: String)
    requires
        old(c).num < u32::MAX,
    ensures
        nick@ == spec_nickname(display_name@, old(c).num as nat),
        final(c).num == old(c).num + 1,
{
    let n = c.next();
    format_nickname(display_name, n)
}

} // verus!

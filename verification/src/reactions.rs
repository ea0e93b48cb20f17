//! The reaction-to-role rule.
//!
//! A reaction added to the bot's own role-menu message by a non-bot user
//! grants the role listed beside that emoji; removing the reaction revokes
//! it.  Everything else — reactions on other messages, reactions by bots,
//! emoji outside the fixed table, or a table position beyond the current
//! qualifying role list — changes nothing.

use crate::roles::EMOJI_COUNT;
use crate::roles::RoleInfo;
use crate::roles::emoji_at;
use crate::roles::spec_emoji;
use crate::strutil::str_eq;
use vstd::prelude::*;

verus! {

/// The role mutation a reaction event calls for.
#[derive(Clone, Copy, Debug, PartialEq, Eq, Structural)]
pub struct RoleAction {
    /// The role to grant or revoke.
    pub role_id: u64,
    /// Grant on a reaction added, revoke on a reaction removed.
    pub grant: bool,
}

/// The position of emoji `e` in the fixed table, searching from position `i`
/// upward; `None` when `e` is not in the table.
pub open spec fn spec_emoji_index_from(e: Seq<char>, i: int) -> Option<int>
    decreases EMOJI_COUNT - i,
{
    if i >= EMOJI_COUNT {
        None
    } else if e == spec_emoji(i) {
        Some(i)
    } else {
        spec_emoji_index_from(e, i + 1)
    }
}

/// Find an emoji in the fixed table.
pub fn emoji_index(e: &str) -> (r: Option<usize>)
    ensures
        match r {
            Some(i) => spec_emoji_index_from(e@, 0) == Some(i as int),
            None => spec_emoji_index_from(e@, 0) is None,
        },
{
    let mut i: usize = 0;
    while i < EMOJI_COUNT
        invariant
            i <= EMOJI_COUNT,
            spec_emoji_index_from(e@, 0) == spec_emoji_index_from(e@, i as int),
        decreases EMOJI_COUNT - i,
    {
        if str_eq(e, emoji_at(i)) {
            return Some(i);
        }
        i = i + 1;
    }
    None
}

/// What a reaction event does.  `None` — no role change — unless the reacted
/// message is the bot's own, the reacting user is not a bot, the emoji stands
/// in the fixed table, and its position still falls within the qualifying
/// role list (the roles may have changed since the menu was posted).
pub open spec fn spec_reaction_action(
    self_id: u64,
    message_author_id: u64,
    reactor_is_bot: bool,
    emoji: Seq<char>,
    roles: Seq<RoleInfo>,
    added: bool,
) -> Option<RoleAction> {
    if message_author_id != self_id || reactor_is_bot {
        None
    } else {
        match spec_emoji_index_from(emoji, 0) {
            None => None,
            Some(i) => if i < roles.len() {
                Some(RoleAction { role_id: roles[i].id, grant: added })
            } else {
                None
            },
        }
    }
}

/// Decide what a reaction event does to the reacting user's roles.  `roles`
/// is the qualifying role list recomputed at the event, in menu order;
/// `added` is true for a reaction added and false for one removed.
pub fn reaction_action(
    self_id: u64,
    message_author_id: u64,
    reactor_is_bot: bool,
    emoji: &str,
    roles: &Vec<RoleInfo>,
    added: bool,
) -> (r: Option<RoleAction>)
    ensures
        r == spec_reaction_action(self_id, message_author_id, reactor_is_bot, emoji@, roles@, added),
{
    if message_author_id != self_id {
        return None;
    }
    if reactor_is_bot {
        return None;
    }
    match emoji_index(emoji) {
        None => None,
        Some(i) => {
            if i < roles.len() {
                Some(RoleAction { role_id: roles[i].id, grant: added })
            } else {
                None
            }
        },
    }
}

} // verus!

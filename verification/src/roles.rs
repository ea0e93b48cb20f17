//! The self-service role menu.
//!
//! A server role qualifies for the menu when its name carries a fixed prefix.
//! The menu pairs each qualifying role, in ascending order of role id, with
//! one emoji from a fixed nine-entry table; the menu message lists the pairs
//! and the same emoji are attached to it as reactions.

use crate::strutil::str_starts_with;
use vstd::prelude::*;

verus! {

/// How many emoji the fixed table holds; the menu can list at most this many
/// roles.
pub const EMOJI_COUNT: usize = 9;

/// What the role logic reads of one server role: its numeric identifier and
/// its name.
pub struct RoleInfo {
    pub id: u64,
    pub name: String,
}

/// The fixed name prefix that marks a role as self-service.
pub open spec fn spec_role_prefix() -> Seq<char> {
    "AskMeAbout_"@
}

/// Whether a role's name carries the self-service prefix.
pub open spec fn is_askme(r: RoleInfo) -> bool {
    spec_role_prefix().len() <= r.name@.len() && r.name@.subrange(
        0,
        spec_role_prefix().len() as int,
    ) == spec_role_prefix()
}

/// The qualifying test as a function value, so that every contract names one
/// and the same predicate.
pub open spec fn askme_pred() -> spec_fn(RoleInfo) -> bool {
    |r: RoleInfo| is_askme(r)
}

/// Ascending order of role id.
pub open spec fn sorted_by_id(s: Seq<RoleInfo>) -> bool {
    forall|i: int, j: int| 0 <= i < j < s.len() ==> #[trigger] s[i].id <= #[trigger] s[j].id
}

/// Whether this role qualifies for the menu.
pub fn role_qualifies(r: &RoleInfo) -> (b: bool)
    ensures
        b == is_askme(*r),
{
    str_starts_with(r.name.as_str(), "AskMeAbout_")
}

/// Filtering commutes with appending one element.
proof fn lemma_filter_push(s: Seq<RoleInfo>, x: RoleInfo, pred: spec_fn(RoleInfo) -> bool)
    ensures
        s.push(x).filter(pred) == if pred(x) {
            s.filter(pred).push(x)
        } else {
            s.filter(pred)
        },
{
    reveal(Seq::filter);
    assert(s.push(x).drop_last() =~= s);
    assert(s.push(x).last() == x);
}

/// Insert one role into a vector kept in ascending order of role id.
fn insert_sorted(out: &mut Vec<RoleInfo>, r: RoleInfo)
    requires
        sorted_by_id(old(out)@),
    ensures
        sorted_by_id(final(out)@),
        final(out)@.to_multiset() == old(out)@.to_multiset().insert(r),
{
    let n = out.len();
    let mut k: usize = 0;
    while k < n && out[k].id <= r.id
        invariant
            out@ == old(out)@,
            n == out@.len(),
            k <= n,
            forall|j: int| 0 <= j < k ==> #[trigger] out@[j].id <= r.id,
        decreases n - k,
    {
        k = k + 1;
    }
    out.insert(k, r);
    proof {
        let s = old(out)@;
        let ki = k as int;
        s.insert_ensures(ki, r);
        assert forall|i: int, j: int| 0 <= i < j < out@.len() implies out@[i].id <= out@[j].id by {
            if i < ki {
                assert(out@[i] == s[i]);
            } else if i == ki {
                assert(out@[i] == r);
            } else {
                assert(out@[i] == s[i - 1]);
            }
            if j < ki {
                assert(out@[j] == s[j]);
            } else if j == ki {
                assert(out@[j] == r);
            } else {
                assert(out@[j] == s[j - 1]);
            }
            if ki < s.len() {
                assert(s[ki].id > r.id);
            }
        }
        broadcast use vstd::seq_lib::to_multiset_insert;

        assert(out@.to_multiset() == s.to_multiset().insert(r));
    }
}

/// The qualifying roles among `all`: exactly those whose name carries the
/// self-service prefix, arranged in ascending order of role id.
pub fn askme_roles(all: Vec<RoleInfo>) -> (r: Vec<RoleInfo>)
    ensures
        r@.to_multiset() == all@.filter(askme_pred()).to_multiset(),
        sorted_by_id(r@),
{
    let ghost orig: Seq<RoleInfo> = all@;
    let mut rest = all;
    let mut out: Vec<RoleInfo> = Vec::new();
    proof {
        reveal(Seq::filter);
        assert(orig.subrange(0, orig.len() as int) =~= orig);
        assert(orig.take(0).filter(askme_pred()) =~= Seq::<RoleInfo>::empty());
    }
    while rest.len() > 0
        invariant
            rest@.len() <= orig.len(),
            rest@ == orig.subrange(orig.len() - rest@.len(), orig.len() as int),
            out@.to_multiset() == orig.take(orig.len() - rest@.len()).filter(
                askme_pred(),
            ).to_multiset(),
            sorted_by_id(out@),
        decreases rest@.len(),
    {
        let ghost i = orig.len() - rest@.len();
        let ghost pre_rest = rest@;
        let role = rest.remove(0);
        proof {
            assert(role == orig[i]);
            assert(rest@ =~= orig.subrange(i + 1, orig.len() as int));
        }
        let qualifies = role_qualifies(&role);
        proof {
            lemma_filter_push(orig.take(i), role, askme_pred());
            assert(orig.take(i + 1) =~= orig.take(i).push(role));
            broadcast use vstd::seq_lib::to_multiset_build;

        }
        if qualifies {
            insert_sorted(&mut out, role);
        }
        proof {
            assert(out@.to_multiset() == orig.take(i + 1).filter(askme_pred()).to_multiset());
        }
    }
    proof {
        assert(orig.take(orig.len() as int) =~= orig);
    }
    out
}

/// The fixed emoji table, by position.
pub open spec fn spec_emoji(i: int) -> Seq<char> {
    if i == 0 {
        "😁"@
    } else if i == 1 {
        "👍"@
    } else if i == 2 {
        "🔥"@
    } else if i == 3 {
        "💀"@
    } else if i == 4 {
        "😟"@
    } else if i == 5 {
        "😎"@
    } else if i == 6 {
        "🦀"@
    } else if i == 7 {
        "🤑"@
    } else {
        "❤️"@
    }
}

/// The emoji paired with the role at position `i` of the menu.
pub fn emoji_at(i: usize) -> (r: &'static str)
    requires
        i < EMOJI_COUNT,
    ensures
        r@ == spec_emoji(i as int),
{
    if i == 0 {
        "😁"
    } else if i == 1 {
        "👍"
    } else if i == 2 {
        "🔥"
    } else if i == 3 {
        "💀"
    } else if i == 4 {
        "😟"
    } else if i == 5 {
        "😎"
    } else if i == 6 {
        "🦀"
    } else if i == 7 {
        "🤑"
    } else {
        "❤️"
    }
}

/// One line of the menu message: a line break, the emoji for position `i`,
/// a separator, and the role's name.
pub open spec fn spec_menu_line(r: RoleInfo, i: int) -> Seq<char> {
    "\n"@ + spec_emoji(i) + " = "@ + r.name@
}

/// The whole menu message for the sorted qualifying role list `roles`: a
/// header line, then one line per role in order.
pub open spec fn spec_menu_text(roles: Seq<RoleInfo>) -> Seq<char>
    decreases roles.len(),
{
    if roles.len() == 0 {
        "React to get role"@
    } else {
        spec_menu_text(roles.drop_last()) + spec_menu_line(roles.last(), roles.len() - 1)
    }
}

/// A built role menu: the message to send, and the emoji to attach to it as
/// reactions, in order.
pub struct RoleMenu {
    pub text: String,
    pub emoji: Vec<&'static str>,
}

/// Why a menu could not be built.
#[derive(Debug)]
pub enum MenuError {
    /// More roles qualify than the emoji table can pair up.
    TooManyRoles,
}

/// The notice sent instead of a menu when more roles qualify than the emoji
/// table holds.
pub fn capacity_notice() -> (r: String)
    ensures
        r@ == "Too many roles to list"@,
{
    "Too many roles to list".to_owned()
}

/// Build the role menu for the sorted qualifying role list: the message
/// pairing each role with its emoji, and those emoji in menu order.  A list
/// longer than the emoji table is refused rather than looked up out of range.
pub fn build_role_menu(roles: &Vec<RoleInfo>) -> (r: Result<RoleMenu, MenuError>)
    ensures
        r is Ok <==> roles@.len() <= EMOJI_COUNT,
        r matches Ok(m) ==> {
            &&& m.text@ == spec_menu_text(roles@)
            &&& m.emoji@.len() == roles@.len()
            &&& forall|i: int| 0 <= i < roles@.len() ==> #[trigger] m.emoji@[i]@ == spec_emoji(i)
        },
{
    if roles.len() > EMOJI_COUNT {
        return Err(MenuError::TooManyRoles);
    }
    let mut text: String = "React to get role".to_owned();
    let mut emoji: Vec<&'static str> = Vec::new();
    proof {
        assert(roles@.take(0) =~= Seq::<RoleInfo>::empty());
    }
    let mut i: usize = 0;
    while i < roles.len()
        invariant
            roles@.len() <= EMOJI_COUNT,
            i <= roles@.len(),
            text@ == spec_menu_text(roles@.take(i as int)),
            emoji@.len() == i,
            forall|j: int| 0 <= j < i ==> #[trigger] emoji@[j]@ == spec_emoji(j),
        decreases roles@.len() - i,
    {
        let e = emoji_at(i);
        text.append("\n");
        text.append(e);
        text.append(" = ");
        text.append(roles[i].name.as_str());
        emoji.push(e);
        proof {
            assert(roles@.take(i + 1).drop_last() =~= roles@.take(i as int));
            assert(roles@.take(i + 1).last() == roles@[i as int]);
            assert(text@ =~= spec_menu_text(roles@.take(i + 1)));
        }
        i = i + 1;
    }
    proof {
        assert(roles@.take(roles@.len() as int) =~= roles@);
    }
    Ok(RoleMenu { text, emoji })
}

} // verus!

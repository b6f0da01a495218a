//! Deleting a whole channel category from the dashboard or a command.

use crate::text::{decimal, parse_u64, push_decimal, spec_parse_u64};
use vstd::prelude::*;

verus! {

/// Request body: the category to delete.
#[derive(Debug, Clone, Copy, PartialEq, Eq, Structural)]
pub struct DeleteCategoryPayload {
    pub category_id: u64,
}

/// Response body: the deleted category and how many of its channels went with it.
#[derive(Debug, Clone, Copy, PartialEq, Eq, Structural)]
pub struct DeleteCategoryResponse {
    pub category_id: u64,
    pub deleted_children_count: usize,
}

/// The ids of the channels whose parent is `category_id`, in order; each entry
/// is a channel id and its parent's id.
pub open spec fn spec_child_channels(channels: Seq<(u64, Option<u64>)>, category_id: u64) -> Seq<u64>
    decreases channels.len(),
{
    if channels.len() == 0 {
        Seq::empty()
    } else {
        let rest = spec_child_channels(channels.drop_last(), category_id);
        if channels.last().1 == Some(category_id) {
            rest.push(channels.last().0)
        } else {
            rest
        }
    }
}

/// The channels nested in a category, in the order listed.
pub fn child_channel_ids(channels: &Vec<(u64, Option<u64>)>, category_id: u64) -> (r: Vec<u64>)
    ensures
        r@ == spec_child_channels(channels@, category_id),
{
    let mut r: Vec<u64> = Vec::new();
    let mut i: usize = 0;
    while i < channels.len()
        invariant
            i <= channels@.len(),
            r@ == spec_child_channels(channels@.take(i as int), category_id),
        decreases channels@.len() - i,
    {
        proof {
            assert(channels@.take(i as int + 1).drop_last() =~= channels@.take(i as int));
        }
        let (id, parent) = channels[i];
        match parent {
            Some(p) => {
                if p == category_id {
                    r.push(id);
                }
            },
            None => {},
        }
        i = i + 1;
    }
    proof {
        assert(channels@.take(channels@.len() as int) =~= channels@);
    }
    r
}

/// How many of the deletions succeeded.
pub fn count_deleted(results: &Vec<bool>) -> (r: usize)
    ensures
        r == results@.filter(|b: bool| b).len(),
{
    let mut n: usize = 0;
    let mut i: usize = 0;
    while i < results.len()
        invariant
            i <= results@.len(),
            n == results@.take(i as int).filter(|b: bool| b).len(),
            n <= i,
        decreases results@.len() - i,
    {
        proof {
            assert(results@.take(i as int + 1).drop_last() =~= results@.take(i as int));
            reveal_with_fuel(Seq::filter, 1);
        }
        if results[i] {
            n = n + 1;
        }
        i = i + 1;
    }
    proof {
        assert(results@.take(results@.len() as int) =~= results@);
    }
    n
}

/// The error answered for a guild id that is not a number.
pub open spec fn invalid_guild_id_message() -> Seq<char> {
    "Invalid Guild ID format"@
}

/// Reads the guild id from the request path.
pub fn parse_guild_id(s: &str) -> (r: Result<u64, &'static str>)
    ensures
        match spec_parse_u64(s@) {
            Some(v) => r == Ok::<u64, &'static str>(v),
            None => r matches Err(m) && m@ == invalid_guild_id_message(),
        },
{
    match parse_u64(s) {
        Some(v) => Ok(v),
        None => Err("Invalid Guild ID format"),
    }
}

/// The reply after a category was purged.
pub fn category_purged_message(category_name: &str, deleted_count: usize) -> (r: String)
    ensures
        r@ == "**Category Purged!**\nSuccessfully deleted **"@ + category_name@ + "** along with all `"@
            + decimal(deleted_count as nat) + "` nested channels."@,
{
    let mut r = String::from_str("**Category Purged!**\nSuccessfully deleted **");
    r.append(category_name);
    r.append("** along with all `");
    push_decimal(&mut r, deleted_count as u64);
    r.append("` nested channels.");
    r
}

} // verus!

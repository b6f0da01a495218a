//! Deciding whether a message in a media-only channel breaks the rule.

use crate::media_only::types::{spec_from_mime, AllowedMedia, MediaOnlyChannel, MediaType};
use crate::text::replace_all;
use crate::text::replace_str;
use vstd::prelude::*;

verus! {

/// Whether the member has one of the roles.
pub open spec fn spec_has_matching_role(member_roles: Seq<u64>, roles: Seq<u64>) -> bool {
    exists|i: int| 0 <= i < member_roles.len() && roles.contains(member_roles[i])
}

/// Whether a member holds any of the given roles.
pub fn has_matching_role(member_roles: &Vec<u64>, roles: &Vec<u64>) -> (r: bool)
    ensures
        r == spec_has_matching_role(member_roles@, roles@),
{
    let mut i: usize = 0;
    while i < member_roles.len()
        invariant
            i <= member_roles@.len(),
            forall|k: int| 0 <= k < i ==> !roles@.contains(member_roles@[k]),
        decreases member_roles@.len() - i,
    {
        let id = member_roles[i];
        let mut j: usize = 0;
        while j < roles.len()
            invariant
                j <= roles@.len(),
                i < member_roles@.len(),
                id == member_roles@[i as int],
                forall|k: int| 0 <= k < j ==> roles@[k] != id,
            decreases roles@.len() - j,
        {
            if roles[j] == id {
                proof {
                    assert(roles@[j as int] == member_roles@[i as int]);
                    assert(roles@.contains(member_roles@[i as int]));
                }
                return true;
            }
            j = j + 1;
        }
        proof {
            assert(!roles@.contains(id));
        }
        i = i + 1;
    }
    false
}

/// The rule applies to a message when its author is not a bot, the channel has
/// an enabled rule, the message comes from a guild member, and the member holds
/// none of the exempt roles.
pub open spec fn spec_rule_applies(
    author_is_bot: bool,
    config: Option<MediaOnlyChannel>,
    member_roles: Option<Seq<u64>>,
) -> bool {
    &&& !author_is_bot
    &&& config matches Some(c)
    &&& c.enabled
    &&& member_roles matches Some(m)
    &&& !spec_has_matching_role(
        m,
        match c.exempt_roles {
            Some(v) => v@,
            None => Seq::empty(),
        },
    )
}

/// The pre-flight checks of the enforcement.
pub fn rule_applies(
    author_is_bot: bool,
    config: Option<&MediaOnlyChannel>,
    member_roles: Option<&Vec<u64>>,
) -> (r: bool)
    ensures
        r == spec_rule_applies(
            author_is_bot,
            match config {
                Some(c) => Some(*c),
                None => None,
            },
            match member_roles {
                Some(m) => Some(m@),
                None => None,
            },
        ),
{
    if author_is_bot {
        return false;
    }
    let c = match config {
        Some(c) => c,
        None => return false,
    };
    if !c.enabled {
        return false;
    }
    let m = match member_roles {
        Some(m) => m,
        None => return false,
    };
    let exempt = c.exempt_role_ids();
    !has_matching_role(m, &exempt)
}

/// The text of a message breaks the rule when it has text that is not allowed,
/// links that are not allowed, or neither attachments nor allowed links.
pub open spec fn spec_text_violates(
    allowed: AllowedMedia,
    has_attachments: bool,
    text_is_empty: bool,
    url_count: nat,
) -> bool {
    let allow_text = allowed.allows(MediaType::EmbeddedText);
    let allow_links = allowed.allows(MediaType::Link);
    (!text_is_empty && !allow_text) || (url_count > 0 && !allow_links) || (!has_attachments && !(
    url_count > 0 && allow_links))
}

/// Checks the text part of a message (its text with the links removed, and the
/// number of links).
pub fn analyze_initial_text(config: &MediaOnlyChannel, has_attachments: bool, text: &str, url_count: usize) -> (r: bool)
    ensures
        r == spec_text_violates(config.allowed_media, has_attachments, text@.len() == 0, url_count as nat),
{
    let allow_text = config.allowed_media.contains(MediaType::EmbeddedText);
    let allow_links = config.allowed_media.contains(MediaType::Link);
    let text_empty = text.unicode_len() == 0;
    if !text_empty && !allow_text {
        return true;
    }
    if url_count > 0 && !allow_links {
        return true;
    }
    let has_allowed_links = url_count > 0 && allow_links;
    if !has_attachments && !has_allowed_links {
        return true;
    }
    false
}

/// A message with a link in a channel that does not allow links breaks the
/// rule whatever it carries; so does text where text is not allowed, and a
/// message with neither attachments nor allowed links. A message of allowed
/// attachments alone, without text or links, keeps the rule, and so does one
/// whose only content is allowed links.
pub proof fn law_text_rule(allowed: AllowedMedia, has_attachments: bool, text_is_empty: bool, url_count: nat)
    ensures
        url_count > 0 && !allowed.link ==> spec_text_violates(
            allowed,
            has_attachments,
            text_is_empty,
            url_count,
        ),
        !text_is_empty && !allowed.embedded_text ==> spec_text_violates(
            allowed,
            has_attachments,
            text_is_empty,
            url_count,
        ),
        !has_attachments && (url_count == 0 || !allowed.link) ==> spec_text_violates(
            allowed,
            has_attachments,
            text_is_empty,
            url_count,
        ),
        has_attachments && text_is_empty && url_count == 0 ==> !spec_text_violates(
            allowed,
            has_attachments,
            text_is_empty,
            url_count,
        ),
        text_is_empty && url_count > 0 && allowed.link ==> !spec_text_violates(
            allowed,
            has_attachments,
            text_is_empty,
            url_count,
        ),
{
}

/// An attachment is valid when its MIME type names an allowed media type.
pub open spec fn spec_attachment_valid(allowed: AllowedMedia, mime: Seq<char>) -> bool {
    spec_from_mime(mime) matches Some(m) && allowed.allows(m)
}

/// Checks one attachment's MIME type.
pub fn attachment_is_valid(config: &MediaOnlyChannel, mime: &str) -> (r: bool)
    ensures
        r == spec_attachment_valid(config.allowed_media, mime@),
{
    match MediaType::from_mime(mime) {
        Some(m) => config.allowed_media.contains(m),
        None => false,
    }
}

/// The attachments break the rule when one has no MIME type or one that is not
/// allowed.
pub open spec fn spec_attachments_violate(allowed: AllowedMedia, mimes: Seq<Option<String>>) -> bool {
    exists|i: int|
        0 <= i < mimes.len() && match #[trigger] mimes[i] {
            None => true,
            Some(m) => !spec_attachment_valid(allowed, m@),
        }
}

/// Checks the attachments' MIME types.
pub fn attachments_violate(config: &MediaOnlyChannel, mimes: &Vec<Option<String>>) -> (r: bool)
    ensures
        r == spec_attachments_violate(config.allowed_media, mimes@),
{
    let mut i: usize = 0;
    while i < mimes.len()
        invariant
            i <= mimes@.len(),
            forall|k: int|
                0 <= k < i ==> match #[trigger] mimes@[k] {
                    None => false,
                    Some(m) => spec_attachment_valid(config.allowed_media, m@),
                },
        decreases mimes@.len() - i,
    {
        let bad = match &mimes[i] {
            None => true,
            Some(m) => !attachment_is_valid(config, m.as_str()),
        };
        if bad {
            return true;
        }
        i = i + 1;
    }
    false
}

/// A message breaks the rule when its text does, or one of its attachments does.
pub fn message_violates(
    config: &MediaOnlyChannel,
    text: &str,
    url_count: usize,
    attachment_mimes: &Vec<Option<String>>,
) -> (r: bool)
    ensures
        r == (spec_text_violates(
            config.allowed_media,
            attachment_mimes@.len() > 0,
            text@.len() == 0,
            url_count as nat,
        ) || spec_attachments_violate(config.allowed_media, attachment_mimes@)),
{
    if analyze_initial_text(config, attachment_mimes.len() > 0, text, url_count) {
        return true;
    }
    attachments_violate(config, attachment_mimes)
}

/// The name of the thread opened under an accepted post: the template with
/// `{user}` replaced by the author's name, then `{timestamp}` by the post time.
pub open spec fn spec_thread_name(template: Seq<char>, user: Seq<char>, timestamp: Seq<char>) -> Seq<char> {
    replace_all(replace_all(template, "{user}"@, user), "{timestamp}"@, timestamp)
}

/// The thread to open under an accepted post, if automatic threads are on and a
/// name template is set.
pub fn thread_to_create(config: &MediaOnlyChannel, user_name: &str, timestamp: &str) -> (r: Option<String>)
    ensures
        match config.thread_name_template {
            Some(t) => if config.auto_thread {
                r matches Some(n) && n@ == spec_thread_name(t@, user_name@, timestamp@)
            } else {
                r is None
            },
            None => r is None,
        },
{
    match &config.thread_name_template {
        Some(t) => {
            if !config.auto_thread {
                return None;
            }
            proof {
                reveal_strlit("{user}");
                reveal_strlit("{timestamp}");
            }
            let with_user = replace_str(t.as_str(), "{user}", user_name);
            Some(replace_str(with_user.as_str(), "{timestamp}", timestamp))
        },
        None => None,
    }
}

} // verus!

//! Which messages are logged, and what is read from a cached message or an
//! edit event.

use crate::message_logging::types::{EditDetails, MessageDetails, MessageLoggingConfig};
use crate::text::{ascii_lower, eq_str, starts_with_seq, starts_with_str, to_ascii_lowercase};
use vstd::prelude::*;

verus! {

/// Whether an optional id list holds `x`.
pub open spec fn listed(list: Option<Vec<u64>>, x: u64) -> bool {
    list matches Some(v) && v@.contains(x)
}

/// Whether an id list holds `x`.
fn vec_contains(v: &Vec<u64>, x: u64) -> (r: bool)
    ensures
        r == v@.contains(x),
{
    let mut i: usize = 0;
    while i < v.len()
        invariant
            i <= v@.len(),
            forall|j: int| 0 <= j < i ==> v@[j] != x,
        decreases v@.len() - i,
    {
        if v[i] == x {
            return true;
        }
        i = i + 1;
    }
    false
}

/// Whether an optional id list holds `x`.
fn option_contains(list: &Option<Vec<u64>>, x: u64) -> (r: bool)
    ensures
        r == listed(*list, x),
{
    match list {
        Some(v) => vec_contains(v, x),
        None => false,
    }
}

/// Whether the member holds one of the roles.
pub open spec fn has_any_role(member_roles: Seq<u64>, roles: Seq<u64>) -> bool {
    exists|i: int| 0 <= i < member_roles.len() && roles.contains(member_roles[i])
}

/// A message is excluded from logging when its channel or its author is
/// ignored, or when the author's roles (from the cache, else fetched; `None`
/// when neither worked) include an ignored role.
pub open spec fn spec_excluded(
    c: MessageLoggingConfig,
    author_id: u64,
    channel_id: u64,
    member_roles: Option<Seq<u64>>,
) -> bool {
    ||| listed(c.ignored_channels, channel_id)
    ||| listed(c.ignored_users, author_id)
    ||| (c.ignored_roles matches Some(roles) && roles@.len() > 0 && (member_roles matches Some(m)
        && has_any_role(m, roles@)))
}

/// Whether the author's roles must be looked up to decide the exclusion.
pub fn needs_role_lookup(c: &MessageLoggingConfig, author_id: u64, channel_id: u64) -> (r: bool)
    ensures
        r == (!listed(c.ignored_channels, channel_id) && !listed(c.ignored_users, author_id) && (
        c.ignored_roles matches Some(roles) && roles@.len() > 0)),
{
    if option_contains(&c.ignored_channels, channel_id) || option_contains(&c.ignored_users, author_id) {
        return false;
    }
    match &c.ignored_roles {
        Some(roles) => roles.len() > 0,
        None => false,
    }
}

/// Decides whether a message is left out of the logs.
pub fn should_exclude_from_logging(
    c: &MessageLoggingConfig,
    author_id: u64,
    channel_id: u64,
    member_roles: Option<&Vec<u64>>,
) -> (r: bool)
    ensures
        r == spec_excluded(
            *c,
            author_id,
            channel_id,
            match member_roles {
                Some(m) => Some(m@),
                None => None,
            },
        ),
{
    if option_contains(&c.ignored_channels, channel_id) {
        return true;
    }
    if option_contains(&c.ignored_users, author_id) {
        return true;
    }
    let roles = match &c.ignored_roles {
        Some(roles) => roles,
        None => return false,
    };
    if roles.len() == 0 {
        return false;
    }
    let m = match member_roles {
        Some(m) => m,
        None => return false,
    };
    let mut i: usize = 0;
    while i < m.len()
        invariant
            i <= m@.len(),
            c.ignored_roles == Some(*roles),
            roles@.len() > 0,
            member_roles == Some(m),
            !listed(c.ignored_channels, channel_id),
            !listed(c.ignored_users, author_id),
            forall|k: int| 0 <= k < i ==> !roles@.contains(m@[k]),
        decreases m@.len() - i,
    {
        if vec_contains(roles, m[i]) {
            proof {
                assert(has_any_role(m@, roles@));
            }
            return true;
        }
        i = i + 1;
    }
    false
}

/// A message is left out of the logs when its channel is ignored, when its
/// author is ignored, or when the author's known roles include an ignored role
/// at any position; with none of these it is logged.
pub proof fn law_exclusion_follows_ignore_lists(
    c: MessageLoggingConfig,
    author_id: u64,
    channel_id: u64,
    member_roles: Option<Seq<u64>>,
    k: int,
)
    ensures
        (c.ignored_channels matches Some(v) && v@.contains(channel_id)) ==> spec_excluded(
            c,
            author_id,
            channel_id,
            member_roles,
        ),
        (c.ignored_users matches Some(v) && v@.contains(author_id)) ==> spec_excluded(
            c,
            author_id,
            channel_id,
            member_roles,
        ),
        (c.ignored_roles matches Some(roles) && member_roles matches Some(m) && 0 <= k < m.len()
            && roles@.contains(m[k])) ==> spec_excluded(c, author_id, channel_id, member_roles),
        (!(c.ignored_channels matches Some(v) && v@.contains(channel_id)) && !(
        c.ignored_users matches Some(v) && v@.contains(author_id)) && forall|j: int|
            #![trigger member_roles->0[j]]
            (member_roles matches Some(m) && 0 <= j < m.len()) ==> !(c.ignored_roles matches Some(
                roles,
            ) && roles@.contains(member_roles->0[j]))) ==> !spec_excluded(
            c,
            author_id,
            channel_id,
            member_roles,
        ),
{
    if c.ignored_roles is Some && member_roles is Some {
        let roles = c.ignored_roles->0;
        let m = member_roles->0;
        if 0 <= k < m.len() && roles@.contains(m[k]) {
            assert(roles@.len() > 0);
            assert(has_any_role(m, roles@));
        }
    }
}

/// The extension `std::path::Path::extension` finds in a file name.
pub uninterp spec fn path_extension(file_name: Seq<char>) -> Option<Seq<char>>;

/// `std::path::Path::new(name).extension()`, as text. Named, not described.
#[verifier::external_body]
pub(crate) fn file_extension(file_name: &str) -> (r: Option<String>)
    ensures
        match r {
            Some(e) => path_extension(file_name@) == Some(e@),
            None => path_extension(file_name@) is None,
        },
{
    std::path::Path::new(file_name).extension().and_then(|e| e.to_str()).map(|e| e.to_string())
}

/// The image extensions recognised without a content type.
pub open spec fn is_image_extension(e: Seq<char>) -> bool {
    e == "png"@ || e == "jpg"@ || e == "jpeg"@ || e == "webp"@ || e == "gif"@
}

/// An attachment is an image when its content type starts with `image/`, or
/// its file extension, ignoring ASCII case, is png, jpg, jpeg, webp or gif.
pub open spec fn spec_is_image(content_type: Option<Seq<char>>, file_name: Seq<char>) -> bool {
    ||| (content_type matches Some(t) && starts_with_seq(t, "image/"@))
    ||| (path_extension(file_name) matches Some(e) && is_image_extension(ascii_lower(e)))
}

/// Decides whether an attachment is an image.
pub fn is_image_attachment(content_type: Option<&str>, file_name: &str) -> (r: bool)
    ensures
        r == spec_is_image(
            match content_type {
                Some(t) => Some(t@),
                None => None,
            },
            file_name@,
        ),
{
    let typed = match content_type {
        Some(t) => starts_with_str(t, "image/"),
        None => false,
    };
    if typed {
        return true;
    }
    match file_extension(file_name) {
        Some(e) => {
            let l = to_ascii_lowercase(e.as_str());
            let s = l.as_str();
            eq_str(s, "png") || eq_str(s, "jpg") || eq_str(s, "jpeg") || eq_str(s, "webp") || eq_str(
                s,
                "gif",
            )
        },
        None => false,
    }
}

/// An attachment of a cached message.
#[derive(Debug, Clone)]
pub struct AttachmentInfo {
    pub url: String,
    pub file_name: String,
    pub content_type: Option<String>,
}

/// What the logging reads of a message in the local cache.
#[derive(Debug, Clone)]
pub struct CachedMessage {
    pub id: u64,
    pub channel_id: u64,
    pub author_id: u64,
    pub author_name: String,
    pub author_is_bot: bool,
    pub content: String,
    pub attachments: Vec<AttachmentInfo>,
}

/// Whether an attachment is an image.
pub open spec fn attachment_is_image(a: AttachmentInfo) -> bool {
    spec_is_image(
        match a.content_type {
            Some(t) => Some(t@),
            None => None,
        },
        a.file_name@,
    )
}

/// The URLs of the image attachments, in order.
pub open spec fn image_urls(atts: Seq<AttachmentInfo>) -> Seq<Seq<char>>
    decreases atts.len(),
{
    if atts.len() == 0 {
        Seq::empty()
    } else if attachment_is_image(atts.last()) {
        image_urls(atts.drop_last()).push(atts.last().url@)
    } else {
        image_urls(atts.drop_last())
    }
}

/// What is recorded of a cached message: nothing for a bot's message;
/// otherwise its ids, author, content and the URLs of its image attachments.
pub fn fetch_cached_message(msg: Option<&CachedMessage>) -> (r: Option<MessageDetails>)
    ensures
        match msg {
            None => r is None,
            Some(m) => if m.author_is_bot {
                r is None
            } else {
                r matches Some(d) && d.msg_id == m.id && d.chan_id == m.channel_id && d.author_id
                    == m.author_id && d.author_name@ == m.author_name@ && d.content@ == m.content@
                    && d.image_urls@.map_values(|u: String| u@) == image_urls(m.attachments@)
            },
        },
{
    let m = match msg {
        Some(m) => m,
        None => return None,
    };
    if m.author_is_bot {
        return None;
    }
    let mut urls: Vec<String> = Vec::new();
    let mut i: usize = 0;
    while i < m.attachments.len()
        invariant
            i <= m.attachments@.len(),
            urls@.map_values(|u: String| u@) == image_urls(m.attachments@.take(i as int)),
        decreases m.attachments@.len() - i,
    {
        proof {
            assert(m.attachments@.take(i as int + 1).drop_last() =~= m.attachments@.take(i as int));
        }
        let a = &m.attachments[i];
        let ct = match &a.content_type {
            Some(t) => Some(t.as_str()),
            None => None,
        };
        if is_image_attachment(ct, a.file_name.as_str()) {
            let ghost before = urls@;
            urls.push(a.url.clone());
            proof {
                assert(urls@.map_values(|u: String| u@) =~= before.map_values(|u: String| u@).push(
                    a.url@,
                ));
            }
        }
        i = i + 1;
    }
    proof {
        assert(m.attachments@.take(m.attachments@.len() as int) =~= m.attachments@);
    }
    Some(
        MessageDetails {
            msg_id: m.id,
            chan_id: m.channel_id,
            author_id: m.author_id,
            author_name: m.author_name.clone(),
            content: m.content.clone(),
            image_urls: urls,
        },
    )
}

/// The author carried by an edit event.
#[derive(Debug, Clone)]
pub struct EditAuthor {
    pub id: u64,
    pub name: String,
    pub is_bot: bool,
}

/// What the logging reads of an edit event.
#[derive(Debug, Clone)]
pub struct EditEvent {
    pub msg_id: u64,
    pub chan_id: u64,
    pub author: Option<EditAuthor>,
    pub content: Option<String>,
}

/// What the logging reads of a cached version of the edited message.
#[derive(Debug, Clone)]
pub struct MessageSnapshot {
    pub author_id: u64,
    pub author_name: String,
    pub author_is_bot: bool,
    pub content: String,
}

/// An edit is ignored when its author is a bot (as the event says, or when the
/// event names no author, as the cached old message says).
pub open spec fn edit_by_bot(old: Option<MessageSnapshot>, event: EditEvent) -> bool {
    match event.author {
        Some(a) => a.is_bot,
        None => old matches Some(o) && o.author_is_bot,
    }
}

/// The author of an edit: the event's, else the cached old message's.
pub open spec fn edit_author(old: Option<MessageSnapshot>, event: EditEvent) -> Option<(u64, Seq<char>)> {
    match event.author {
        Some(a) => Some((a.id, a.name@)),
        None => match old {
            Some(o) => Some((o.author_id, o.author_name@)),
            None => None,
        },
    }
}

/// The text before the edit, known from the cached old message.
pub open spec fn edit_old_text(old: Option<MessageSnapshot>) -> Option<Seq<char>> {
    match old {
        Some(o) => Some(o.content@),
        None => None,
    }
}

/// The text after the edit: the event's, else the cached new message's.
pub open spec fn edit_new_text(new: Option<MessageSnapshot>, event: EditEvent) -> Option<Seq<char>> {
    match event.content {
        Some(c) => Some(c@),
        None => match new {
            Some(n) => Some(n.content@),
            None => None,
        },
    }
}

/// Resolves the details of an edit from the event and the cached versions of
/// the message; `None` for a bot's edit, an edit whose author is unknown, or an
/// edit that left the text as it was.
pub fn extract_edit_details(
    old: Option<&MessageSnapshot>,
    new: Option<&MessageSnapshot>,
    event: &EditEvent,
) -> (r: Option<EditDetails>)
    ensures
        ({
            let o = match old {
                Some(x) => Some(*x),
                None => None,
            };
            let n = match new {
                Some(x) => Some(*x),
                None => None,
            };
            if edit_by_bot(o, *event) || edit_author(o, *event) is None || edit_old_text(o)
                == edit_new_text(n, *event) {
                r is None
            } else {
                r matches Some(d) && d.msg_id == event.msg_id && d.chan_id == event.chan_id && (
                d.author_id, d.author_name@) == edit_author(o, *event)->0 && match d.old_content {
                    Some(t) => edit_old_text(o) == Some(t@),
                    None => edit_old_text(o) is None,
                } && match d.new_content {
                    Some(t) => edit_new_text(n, *event) == Some(t@),
                    None => edit_new_text(n, *event) is None,
                }
            }
        }),
{
    let by_bot = match &event.author {
        Some(a) => a.is_bot,
        None => match old {
            Some(o) => o.author_is_bot,
            None => false,
        },
    };
    if by_bot {
        return None;
    }
    let (author_id, author_name) = match &event.author {
        Some(a) => (a.id, a.name.clone()),
        None => match old {
            Some(o) => (o.author_id, o.author_name.clone()),
            None => return None,
        },
    };
    let old_text: Option<&str> = match old {
        Some(o) => Some(o.content.as_str()),
        None => None,
    };
    let new_text: Option<&str> = match &event.content {
        Some(c) => Some(c.as_str()),
        None => match new {
            Some(n) => Some(n.content.as_str()),
            None => None,
        },
    };
    let same = match (old_text, new_text) {
        (Some(a), Some(b)) => eq_str(a, b),
        (None, None) => true,
        _ => false,
    };
    if same {
        return None;
    }
    let old_content = match old_text {
        Some(t) => Some(String::from_str(t)),
        None => None,
    };
    let new_content = match new_text {
        Some(t) => Some(String::from_str(t)),
        None => None,
    };
    Some(
        EditDetails {
            msg_id: event.msg_id,
            chan_id: event.chan_id,
            author_id,
            author_name,
            old_content,
            new_content,
        },
    )
}

} // verus!

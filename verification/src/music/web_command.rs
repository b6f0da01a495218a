//! The dashboard music control protocol: actions, commands published to the bot
//! instances, and the results they publish back.

use crate::text::{concat2, eq_str};
use vstd::prelude::*;

verus! {

/// The action the dashboard wants the guild's music actor to perform.
#[derive(Clone, Debug, PartialEq, Eq)]
pub enum MusicAction {
    /// Start playing a track (a YouTube search, Spotify URL or YouTube URL).
    Play { query: String, requested_by_id: Option<u64> },
    Pause,
    Resume,
    Skip,
    Prev,
    Restart,
    Stop,
    Shuffle,
    ClearQueue,
    NowPlaying,
    /// Seek to a position given as human readable time input.
    Seek { input: String },
    /// Move the bot to a given voice channel.
    GoToChannel { channel_id: u64 },
}

/// A dashboard command published to every bot instance.
#[derive(Clone, Debug, PartialEq, Eq)]
pub struct RemoteMusicCommand {
    /// Unique id correlating the reply to this request.
    pub request_id: String,
    /// Guild whose music should be controlled.
    pub guild_id: u64,
    /// Channel the owning bot instance must publish the result to.
    pub reply_to: String,
    pub action: MusicAction,
}

/// The outcome published back to the requester's reply channel; `data` holds
/// the success payload as JSON text.
#[derive(Clone, Debug, PartialEq, Eq)]
pub struct RemoteMusicResult {
    pub request_id: String,
    pub ok: bool,
    pub data: Option<String>,
    pub error: Option<String>,
}

/// What `into_inner` gives for a result.
pub open spec fn spec_into_inner(r: RemoteMusicResult) -> Result<Seq<char>, Seq<char>> {
    if r.ok {
        Ok(
            match r.data {
                Some(d) => d@,
                None => "null"@,
            },
        )
    } else {
        Err(
            match r.error {
                Some(e) => e@,
                None => "Unknown music command failure"@,
            },
        )
    }
}

impl RemoteMusicResult {
    /// A successful result carrying `data`.
    pub fn success(request_id: String, data: String) -> (r: RemoteMusicResult)
        ensures
            r == (RemoteMusicResult { request_id, ok: true, data: Some(data), error: None }),
    {
        RemoteMusicResult { request_id, ok: true, data: Some(data), error: None }
    }

    /// A failed result carrying `error`.
    pub fn failure(request_id: String, error: String) -> (r: RemoteMusicResult)
        ensures
            r == (RemoteMusicResult { request_id, ok: false, data: None, error: Some(error) }),
    {
        RemoteMusicResult { request_id, ok: false, data: None, error: Some(error) }
    }

    /// The carried payload (`null` when absent), or the carried error message.
    pub fn into_inner(self) -> (r: Result<String, String>)
        ensures
            match r {
                Ok(d) => spec_into_inner(self) == Ok::<Seq<char>, Seq<char>>(d@),
                Err(e) => spec_into_inner(self) == Err::<Seq<char>, Seq<char>>(e@),
            },
    {
        if self.ok {
            Ok(
                match self.data {
                    Some(d) => d,
                    None => String::from_str("null"),
                },
            )
        } else {
            Err(
                match self.error {
                    Some(e) => e,
                    None => String::from_str("Unknown music command failure"),
                },
            )
        }
    }
}

/// The result an owning instance publishes for an executed command.
pub fn result_for(request_id: String, outcome: Result<String, String>) -> (r: RemoteMusicResult)
    ensures
        r.request_id == request_id,
        match outcome {
            Ok(d) => r == RemoteMusicResult { request_id, ok: true, data: Some(d), error: None },
            Err(e) => r == RemoteMusicResult { request_id, ok: false, data: None, error: Some(e) },
        },
{
    match outcome {
        Ok(d) => RemoteMusicResult::success(request_id, d),
        Err(e) => RemoteMusicResult::failure(request_id, e),
    }
}

/// A published result gives back, on the requesting side, exactly the outcome
/// the owning instance reported.
pub proof fn law_result_round_trip(request_id: String, outcome: Result<String, String>)
    ensures
        spec_into_inner(
            match outcome {
                Ok(d) => RemoteMusicResult { request_id, ok: true, data: Some(d), error: None },
                Err(e) => RemoteMusicResult { request_id, ok: false, data: None, error: Some(e) },
            },
        ) == match outcome {
            Ok(d) => Ok::<Seq<char>, Seq<char>>(d@),
            Err(e) => Err::<Seq<char>, Seq<char>>(e@),
        },
{
}

/// A message received from the dashboard over the control WebSocket.
#[derive(Clone, Debug, PartialEq, Eq)]
pub enum ClientMessage {
    Music { request_id: Option<String>, action: MusicAction },
}

/// An acknowledgement sent back to the dashboard; `data` is JSON text.
#[derive(Clone, Debug, PartialEq, Eq)]
pub enum ServerMessage {
    Ack { request_id: Option<String>, ok: bool, error: Option<String>, data: Option<String> },
}

/// The acknowledgement of a command's outcome.
pub fn ack_for(request_id: Option<String>, outcome: Result<String, String>) -> (r: ServerMessage)
    ensures
        match outcome {
            Ok(d) => r == ServerMessage::Ack { request_id, ok: true, error: None, data: Some(d) },
            Err(e) => r == ServerMessage::Ack { request_id, ok: false, error: Some(e), data: None },
        },
{
    match outcome {
        Ok(d) => ServerMessage::Ack { request_id, ok: true, error: None, data: Some(d) },
        Err(e) => ServerMessage::Ack { request_id, ok: false, error: Some(e), data: None },
    }
}

/// The acknowledgement of a message that could not be parsed.
pub fn invalid_message_ack(parse_error: &str) -> (r: ServerMessage)
    ensures
        r matches ServerMessage::Ack { request_id, ok, error, data } && request_id is None && !ok
            && data is None && error is Some && error->0@ == "Invalid message: "@ + parse_error@,
{
    ServerMessage::Ack {
        request_id: None,
        ok: false,
        error: Some(concat2("Invalid message: ", parse_error)),
        data: None,
    }
}

/// Seconds the web server waits for the owning bot instance to answer.
pub const COMMAND_TIMEOUT_SECS: u64 = 30;

/// How waiting for a command's reply ended.
#[derive(Clone, Debug)]
pub enum ReplyWait {
    /// The owning instance answered.
    Answered(RemoteMusicResult),
    /// The reply slot was dropped without an answer.
    Closed,
    /// No answer came within the timeout.
    TimedOut,
}

/// What the dashboard gets for a command: the answer's outcome, or an error
/// saying the reply never came.
pub fn command_outcome(wait: ReplyWait) -> (r: Result<String, String>)
    ensures
        match wait {
            ReplyWait::Answered(res) => match r {
                Ok(d) => spec_into_inner(res) == Ok::<Seq<char>, Seq<char>>(d@),
                Err(e) => spec_into_inner(res) == Err::<Seq<char>, Seq<char>>(e@),
            },
            ReplyWait::Closed => r matches Err(e) && e@ == "Music command reply channel closed"@,
            ReplyWait::TimedOut => r matches Err(e) && e@ == "Command timed out"@,
        },
{
    match wait {
        ReplyWait::Answered(res) => res.into_inner(),
        ReplyWait::Closed => Err(String::from_str("Music command reply channel closed")),
        ReplyWait::TimedOut => Err(String::from_str("Command timed out")),
    }
}

/// The error the dashboard gets when a command could not be serialized.
pub fn serialize_failure(error: &str) -> (r: String)
    ensures
        r@ == "Failed to serialize music command: "@ + error@,
{
    concat2("Failed to serialize music command: ", error)
}

/// The error the dashboard gets when a command could not be published to the
/// bot instances.
pub fn publish_failure(error: &str) -> (r: String)
    ensures
        r@ == "Failed to publish music command: "@ + error@,
{
    concat2("Failed to publish music command: ", error)
}

/// The commands this web server published and still waits on: each request id
/// with the slot its reply is handed to.
pub struct PendingReplies<S> {
    entries: Vec<(String, S)>,
    slots: Ghost<Map<Seq<char>, S>>,
}

impl<S> View for PendingReplies<S> {
    type V = Map<Seq<char>, S>;

    /// The waiting requests, by request id.
    closed spec fn view(&self) -> Map<Seq<char>, S> {
        self.slots@
    }
}

impl<S> PendingReplies<S> {
    /// Each request id is held once, and the entries hold exactly the waiting
    /// requests.
    pub closed spec fn wf(&self) -> bool {
        &&& forall|i: int, j: int|
            0 <= i < j < self.entries@.len() ==> #[trigger] self.entries@[i].0@
                != #[trigger] self.entries@[j].0@
        &&& forall|i: int|
            0 <= i < self.entries@.len() ==> self.slots@.contains_key(#[trigger] self.entries@[i].0@)
                && self.slots@[self.entries@[i].0@] == self.entries@[i].1
        &&& forall|k: Seq<char>|
            #[trigger] self.slots@.contains_key(k) ==> exists|i: int|
                0 <= i < self.entries@.len() && #[trigger] self.entries@[i].0@ == k
    }

    /// No request waits yet.
    pub fn new() -> (r: Self)
        ensures
            r.wf(),
            r@ == Map::<Seq<char>, S>::empty(),
    {
        PendingReplies { entries: Vec::new(), slots: Ghost(Map::empty()) }
    }

    /// The position of `id` among the entries, if it waits.
    fn position(&self, id: &str) -> (r: Option<usize>)
        requires
            self.wf(),
        ensures
            match r {
                Some(i) => i < self.entries@.len() && self.entries@[i as int].0@ == id@,
                None => !self@.contains_key(id@),
            },
    {
        let mut k: usize = 0;
        while k < self.entries.len()
            invariant
                self.wf(),
                k <= self.entries@.len(),
                forall|j: int| 0 <= j < k ==> self.entries@[j].0@ != id@,
            decreases self.entries@.len() - k,
        {
            if eq_str(self.entries[k].0.as_str(), id) {
                return Some(k);
            }
            k = k + 1;
        }
        None
    }

    /// Starts waiting on a published request; a request already waiting under
    /// the same id is replaced.
    pub fn register(&mut self, id: String, slot: S)
        requires
            old(self).wf(),
        ensures
            final(self).wf(),
            final(self)@ == old(self)@.insert(id@, slot),
    {
        let ghost key = id@;
        match self.position(id.as_str()) {
            Some(i) => {
                let _ = self.entries.remove(i);
                proof {
                    self.slots@ = self.slots@.remove(key);
                    assert forall|k: Seq<char>| #[trigger] self.slots@.contains_key(k) implies exists|
                        j: int,
                    | 0 <= j < self.entries@.len() && #[trigger] self.entries@[j].0@ == k by {
                        let j = choose|j: int| 0 <= j < old(self).entries@.len() && #[trigger] old(
                            self,
                        ).entries@[j].0@ == k;
                        if j < i {
                            assert(self.entries@[j].0@ == k);
                        } else {
                            assert(j != i);
                            assert(self.entries@[j - 1].0@ == k);
                        }
                    }
                }
            },
            None => {},
        }
        let ghost before = self.entries@;
        self.entries.push((id, slot));
        proof {
            self.slots@ = self.slots@.insert(key, slot);
            let n = before.len() as int;
            assert(self.entries@[n].0@ == key);
            assert forall|k: Seq<char>| #[trigger] self.slots@.contains_key(k) implies exists|j: int|
                0 <= j < self.entries@.len() && #[trigger] self.entries@[j].0@ == k by {
                if k != key {
                    let j = choose|j: int| 0 <= j < before.len() && #[trigger] before[j].0@ == k;
                    assert(self.entries@[j].0@ == k);
                }
            }
        }
    }

    /// Stops waiting on a request: hands back its slot, or `None` when no
    /// request waits under `id` (a reply that came too late, or for another
    /// web server). A reply, a timeout and a cancelled send all end here.
    pub fn take(&mut self, id: &str) -> (r: Option<S>)
        requires
            old(self).wf(),
        ensures
            final(self).wf(),
            final(self)@ == old(self)@.remove(id@),
            match r {
                Some(s) => old(self)@.contains_key(id@) && s == old(self)@[id@],
                None => !old(self)@.contains_key(id@),
            },
    {
        match self.position(id) {
            Some(i) => {
                let (_, slot) = self.entries.remove(i);
                proof {
                    self.slots@ = self.slots@.remove(id@);
                    assert forall|k: Seq<char>| #[trigger] self.slots@.contains_key(k) implies exists|
                        j: int,
                    | 0 <= j < self.entries@.len() && #[trigger] self.entries@[j].0@ == k by {
                        let j = choose|j: int| 0 <= j < old(self).entries@.len() && #[trigger] old(
                            self,
                        ).entries@[j].0@ == k;
                        if j < i {
                            assert(self.entries@[j].0@ == k);
                        } else {
                            assert(j != i);
                            assert(self.entries@[j - 1].0@ == k);
                        }
                    }
                }
                Some(slot)
            },
            None => {
                proof {
                    assert(self.slots@.remove(id@) =~= self.slots@);
                }
                None
            },
        }
    }
}

/// A reply reaches only its own request: the slot taken for a request id is
/// the one registered under it, taking it leaves no entry for that id, and a
/// reply for any other id neither takes nor changes it.
pub proof fn law_reply_reaches_only_its_request<S>(
    pending: Map<Seq<char>, S>,
    id: Seq<char>,
    slot: S,
    other: Seq<char>,
)
    requires
        other != id,
    ensures
        ({
            let waiting = pending.insert(id, slot);
            &&& waiting.contains_key(id) && waiting[id] == slot
            &&& !waiting.remove(id).contains_key(id)
            &&& waiting.remove(other).contains_key(id) && waiting.remove(other)[id] == slot
        }),
{
}

} // verus!

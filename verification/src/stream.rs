//! Live event stream publisher: per-subscription cursoring over an
//! append-only activity log. Each poll cycle surfaces at most the single
//! newest matching event newer than the cursor, and otherwise a heartbeat;
//! the cursor only ever advances, so nothing is re-emitted, and a failed
//! poll is indistinguishable from a quiet one. The per-subscription state
//! dies with the connection.

use vstd::prelude::*;
use vstd::string::StringExecFns;
use crate::text::str_eq;

verus! {

/// One record of the external activity log, consumed read-only. Activity
/// ids are totally ordered and assigned in discovery order.
#[derive(Clone, Debug)]
pub struct ActivityEvent {
    pub activity_id: u64,
    pub principal_id: String,
    /// Whether the record is flagged as a threat.
    pub is_threat: bool,
    /// Opaque reference to the URL involved.
    pub url_ref: String,
    pub threat_type: Option<String>,
    pub threat_level: String,
    /// Confidence in millionths of one.
    pub confidence_millionths: u32,
    pub action_taken: String,
    /// Unix seconds of the record.
    pub timestamp: i64,
}

/// Whether an event is one a poll cycle may surface: it belongs to the
/// subscribing principal, is flagged as a threat, and — when a cursor is
/// set — is newer than the cursor. The last condition is what rules out
/// every re-emission: an event already emitted is never newer than the
/// cursor it set.
pub open spec fn event_matches(e: ActivityEvent, principal: Seq<char>, cursor: Option<u64>) -> bool {
    &&& e.principal_id@ == principal
    &&& e.is_threat
    &&& match cursor {
        Some(c) => e.activity_id > c,
        None => true,
    }
}

/// The cursor rules out everything already seen: an event whose id does
/// not exceed the cursor never matches, so once an event has set the
/// cursor neither it nor anything older is ever surfaced again.
pub proof fn lemma_cursor_blocks_old_events(e: ActivityEvent, principal: Seq<char>, c: u64)
    requires
        e.activity_id <= c,
    ensures
        !event_matches(e, principal, Some(c)),
{
}

/// Exec mirror of `event_matches`.
pub fn event_matches_exec(e: &ActivityEvent, principal: &str, cursor: Option<u64>) -> (r: bool)
    ensures
        r == event_matches(*e, principal@, cursor),
{
    if !e.is_threat {
        return false;
    }
    if !str_eq(e.principal_id.as_str(), principal) {
        return false;
    }
    match cursor {
        Some(c) => e.activity_id > c,
        None => true,
    }
}

/// Picks the newest matching event of the log — the matching event with
/// the greatest activity id — or none when nothing matches. At most this
/// one event is surfaced per cycle, however many have accumulated.
pub fn select_newest(events: &Vec<ActivityEvent>, principal: &str, cursor: Option<u64>) -> (sel:
    Option<usize>)
    ensures
        match sel {
            Some(i) => {
                &&& i < events@.len()
                &&& event_matches(events@[i as int], principal@, cursor)
                &&& forall|j: int|
                    0 <= j < events@.len() && event_matches(events@[j], principal@, cursor)
                        ==> events@[j].activity_id <= events@[i as int].activity_id
            },
            None => forall|j: int|
                0 <= j < events@.len() ==> !event_matches(events@[j], principal@, cursor),
        },
{
    let mut best: Option<usize> = None;
    let mut k: usize = 0;
    while k < events.len()
        invariant
            k <= events@.len(),
            match best {
                Some(i) => {
                    &&& i < k
                    &&& event_matches(events@[i as int], principal@, cursor)
                    &&& forall|j: int|
                        0 <= j < k && event_matches(events@[j], principal@, cursor)
                            ==> events@[j].activity_id <= events@[i as int].activity_id
                },
                None => forall|j: int| 0 <= j < k ==> !event_matches(events@[j], principal@, cursor),
            },
        decreases events@.len() - k,
    {
        if event_matches_exec(&events[k], principal, cursor) {
            match best {
                Some(i) => {
                    if events[i].activity_id < events[k].activity_id {
                        best = Some(k);
                    }
                },
                None => {
                    best = Some(k);
                },
            }
        }
        k = k + 1;
    }
    best
}

/// The structured message emitted for one surfaced event.
pub struct ThreatAlert {
    pub activity_id: u64,
    pub url_ref: String,
    pub threat_type: Option<String>,
    pub threat_level: String,
    /// Confidence in millionths of one.
    pub confidence_millionths: u32,
    pub timestamp: i64,
}

/// The alert carrying an event's fields.
pub open spec fn alert_spec(e: ActivityEvent) -> ThreatAlert {
    ThreatAlert {
        activity_id: e.activity_id,
        url_ref: e.url_ref,
        threat_type: e.threat_type,
        threat_level: e.threat_level,
        confidence_millionths: e.confidence_millionths,
        timestamp: e.timestamp,
    }
}

/// Builds the alert for an event.
pub fn alert_of(e: &ActivityEvent) -> (a: ThreatAlert)
    ensures
        a == alert_spec(*e),
{
    ThreatAlert {
        activity_id: e.activity_id,
        url_ref: e.url_ref.clone(),
        threat_type: match &e.threat_type {
            Some(t) => Some(t.clone()),
            None => None,
        },
        threat_level: e.threat_level.clone(),
        confidence_millionths: e.confidence_millionths,
        timestamp: e.timestamp,
    }
}

/// The type tag carried by every emitted alert message.
pub fn alert_event_type() -> (t: String)
    ensures
        t@ == "new_threat"@,
{
    String::from_str("new_threat")
}

/// What one poll cycle emits to the subscriber: a single alert, or a
/// keep-alive heartbeat.
pub enum StreamMessage {
    Alert(ThreatAlert),
    Heartbeat,
}

/// How the activity log answered one poll: the newest unseen matching
/// event, nothing new, or a failed query. A failure is absorbed here — the
/// subscriber never sees a stream error.
pub enum PollOutcome {
    Answered(Option<ActivityEvent>),
    Failed,
}

/// The in-memory state of one subscription: the id of the last event
/// emitted, and whether the subscriber is still connected. Never persisted;
/// lost on disconnect by design.
pub struct StreamState {
    pub cursor: Option<u64>,
    pub live: bool,
}

/// A new subscription starts live, with no cursor: its first cycle simply
/// surfaces the most recent matching event.
pub fn subscribe() -> (s: StreamState)
    ensures
        s.cursor is None,
        s.live,
{
    StreamState { cursor: None, live: true }
}

/// The subscriber went away: the subscription is terminal and no further
/// poll may run (`poll_step` and `poll_cycle` require a live state).
pub fn disconnect(s: &mut StreamState)
    ensures
        !final(s).live,
        final(s).cursor == old(s).cursor,
{
    s.live = false;
}

/// Advances the subscription on one poll answer: a delivered event moves
/// the cursor to its id and is emitted as an alert; no event — and a
/// failed query alike — emits a heartbeat and leaves the cursor where it
/// was. A delivered event must be newer than the cursor, so the cursor
/// only ever advances and nothing is emitted twice.
pub fn poll_step(s: &mut StreamState, outcome: PollOutcome) -> (m: StreamMessage)
    requires
        old(s).live,
        outcome matches PollOutcome::Answered(Some(e)) ==> (match old(s).cursor {
            Some(c) => e.activity_id > c,
            None => true,
        }),
    ensures
        final(s).live,
        match outcome {
            PollOutcome::Answered(e_opt) => match e_opt {
                Some(e) => final(s).cursor == Some(e.activity_id) && m == StreamMessage::Alert(
                    alert_spec(e),
                ),
                None => final(s).cursor == old(s).cursor && m == StreamMessage::Heartbeat,
            },
            PollOutcome::Failed => final(s).cursor == old(s).cursor && m
                == StreamMessage::Heartbeat,
        },
{
    match outcome {
        PollOutcome::Answered(Some(e)) => {
            s.cursor = Some(e.activity_id);
            StreamMessage::Alert(alert_of(&e))
        },
        PollOutcome::Answered(None) => StreamMessage::Heartbeat,
        PollOutcome::Failed => StreamMessage::Heartbeat,
    }
}

/// One whole poll cycle against a successfully queried log: the newest
/// matching event, if any, is emitted and becomes the cursor; otherwise a
/// heartbeat leaves the state unchanged.
pub fn poll_cycle(s: &mut StreamState, events: &Vec<ActivityEvent>, principal: &str) -> (m:
    StreamMessage)
    requires
        old(s).live,
    ensures
        final(s).live,
        (exists|j: int|
            0 <= j < events@.len() && event_matches(events@[j], principal@, old(s).cursor)) ==> (
        m matches StreamMessage::Alert(a) && (exists|i: int|
            {
                &&& 0 <= i < events@.len()
                &&& event_matches(events@[i], principal@, old(s).cursor)
                &&& a == alert_spec(events@[i])
                &&& final(s).cursor == Some(events@[i].activity_id)
                &&& forall|j: int|
                    0 <= j < events@.len() && event_matches(
                        events@[j],
                        principal@,
                        old(s).cursor,
                    ) ==> events@[j].activity_id <= events@[i].activity_id
            })),
        (forall|j: int|
            0 <= j < events@.len() ==> !event_matches(events@[j], principal@, old(s).cursor))
            ==> m == StreamMessage::Heartbeat && final(s).cursor == old(s).cursor,
{
    let sel = select_newest(events, principal, s.cursor);
    match sel {
        Some(i) => {
            let e = &events[i];
            s.cursor = Some(e.activity_id);
            StreamMessage::Alert(alert_of(e))
        },
        None => StreamMessage::Heartbeat,
    }
}

} // verus!

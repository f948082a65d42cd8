//! Agent events as far as a turn depends on them.

use vstd::prelude::*;

use crate::text::{begins_with, starts_with};

verus! {

/// An event of an agent turn. The events about the run itself name it first.
#[derive(Clone, Debug)]
pub enum AgentEvent {
    /// The phase of the turn changed, with this message.
    StatusChanged(String, String, String),
    /// The turn completed.
    AgentCompleted(String),
    /// The turn failed, for this reason.
    AgentFailed(String, String),
    /// The turn was cancelled, for this reason.
    AgentCancelled(String, String),
    /// Any other event, by its number in the stream.
    Output(u64),
}

/// What an [`AgentEvent`] says.
#[verifier::ext_equal]
pub enum EventView {
    StatusChanged(Seq<char>, Seq<char>, Seq<char>),
    AgentCompleted(Seq<char>),
    AgentFailed(Seq<char>, Seq<char>),
    AgentCancelled(Seq<char>, Seq<char>),
    Output(u64),
}

impl View for AgentEvent {
    type V = EventView;

    open spec fn view(&self) -> EventView {
        match self {
            AgentEvent::StatusChanged(run, phase, message) => EventView::StatusChanged(
                run@,
                phase@,
                message@,
            ),
            AgentEvent::AgentCompleted(run) => EventView::AgentCompleted(run@),
            AgentEvent::AgentFailed(run, reason) => EventView::AgentFailed(run@, reason@),
            AgentEvent::AgentCancelled(run, reason) => EventView::AgentCancelled(run@, reason@),
            AgentEvent::Output(n) => EventView::Output(*n),
        }
    }
}

impl EventView {
    /// The events that end a turn.
    pub open spec fn terminal(self) -> bool {
        self is AgentCompleted || self is AgentFailed || self is AgentCancelled
    }

    /// The events that may still follow the end of a turn: a recommendation to
    /// compact the session.
    pub open spec fn may_trail(self) -> bool {
        self matches EventView::StatusChanged(_, phase, _) && begins_with(phase, "compaction_recommended_v1:"@)
    }
}

impl AgentEvent {
    /// Whether this event ends a turn.
    pub fn is_terminal(&self) -> (res: bool)
        ensures
            res == self@.terminal(),
    {
        match self {
            AgentEvent::AgentCompleted(_) => true,
            AgentEvent::AgentFailed(_, _) => true,
            AgentEvent::AgentCancelled(_, _) => true,
            _ => false,
        }
    }

    /// Whether this event may follow the end of a turn.
    pub fn is_trailing(&self) -> (res: bool)
        ensures
            res == self@.may_trail(),
    {
        match self {
            AgentEvent::StatusChanged(_, phase, _) => starts_with(
                phase.as_str(),
                "compaction_recommended_v1:",
            ),
            _ => false,
        }
    }
}

/// The views of a list of events.
pub open spec fn event_views(events: Seq<AgentEvent>) -> Seq<EventView> {
    Seq::new(events.len(), |i: int| events[i]@)
}

/// The events that are not a completion.
pub open spec fn without_completion(events: Seq<EventView>) -> Seq<EventView>
    decreases events.len(),
{
    if events.len() == 0 {
        Seq::empty()
    } else {
        let rest = without_completion(events.drop_last());
        if events.last() is AgentCompleted {
            rest
        } else {
            rest.push(events.last())
        }
    }
}

/// The events that are not a completion.
pub fn drop_completion(events: Vec<AgentEvent>) -> (res: Vec<AgentEvent>)
    ensures
        event_views(res@) == without_completion(event_views(events@)),
{
    let ghost given = event_views(events@);
    let mut rest = events;
    let mut out: Vec<AgentEvent> = Vec::new();
    let total: usize = rest.len();
    let mut i: usize = 0;
    assert(given.take(0) =~= Seq::empty());
    assert(event_views(out@) =~= Seq::empty());
    while i < total
        invariant
            i <= total == given.len(),
            rest@.len() == total - i,
            forall|j: int| 0 <= j < rest@.len() ==> (#[trigger] rest@[j])@ == given[i + j],
            event_views(out@) == without_completion(given.take(i as int)),
        decreases total - i,
    {
        let event = rest.remove(0);
        proof {
            assert(event@ == given[i as int]);
            assert(given.take(i + 1).drop_last() =~= given.take(i as int));
            assert(given.take(i + 1).last() == given[i as int]);
        }
        let keep: bool = match event {
            AgentEvent::AgentCompleted(_) => false,
            _ => true,
        };
        if keep {
            let ghost before = event_views(out@);
            out.push(event);
            assert(event_views(out@) =~= before.push(given[i as int]));
        }
        i = i + 1;
    }
    assert(given.take(total as int) =~= given);
    out
}

/// Whether one of the events is a cancellation.
pub open spec fn has_cancellation(events: Seq<EventView>) -> bool {
    exists|i: int| 0 <= i < events.len() && (#[trigger] events[i]) is AgentCancelled
}

/// Whether one of the events is a cancellation.
pub fn any_cancellation(events: &Vec<AgentEvent>) -> (res: bool)
    ensures
        res == has_cancellation(event_views(events@)),
{
    let mut i: usize = 0;
    while i < events.len()
        invariant
            i <= events@.len(),
            forall|j: int| 0 <= j < i ==> !((#[trigger] events@[j])@ is AgentCancelled),
        decreases events@.len() - i,
    {
        if let AgentEvent::AgentCancelled(_, _) = &events[i] {
            assert(event_views(events@)[i as int] is AgentCancelled);
            return true;
        }
        i = i + 1;
    }
    false
}

/// What is left without completions holds no completion.
pub proof fn lemma_without_completion(events: Seq<EventView>)
    ensures
        forall|i: int|
            0 <= i < without_completion(events).len() ==> !((#[trigger] without_completion(events)[i]) is AgentCompleted),
        without_completion(events).len() <= events.len(),
    decreases events.len(),
{
    if events.len() > 0 {
        lemma_without_completion(events.drop_last());
    }
}

/// Dropping completions adds no cancellation.
pub proof fn lemma_no_new_cancellation(events: Seq<EventView>)
    requires
        !has_cancellation(events),
    ensures
        !has_cancellation(without_completion(events)),
    decreases events.len(),
{
    if events.len() > 0 {
        let front = events.drop_last();
        assert forall|i: int| 0 <= i < front.len() implies !((#[trigger] front[i]) is AgentCancelled) by {
            assert(!(events[i] is AgentCancelled));
        }
        lemma_no_new_cancellation(front);
        assert(!(events[events.len() - 1] is AgentCancelled));
    }
}

/// Dropping completions keeps every other event.
pub proof fn lemma_keeps_others(events: Seq<EventView>, event: EventView)
    requires
        events.contains(event),
        !(event is AgentCompleted),
    ensures
        without_completion(events).contains(event),
    decreases events.len(),
{
    let i = choose|i: int| 0 <= i < events.len() && events[i] == event;
    let rest = without_completion(events.drop_last());
    if i < events.len() - 1 {
        assert(events.drop_last()[i] == event);
        lemma_keeps_others(events.drop_last(), event);
        let j = choose|j: int| 0 <= j < rest.len() && rest[j] == event;
        if !(events.last() is AgentCompleted) {
            assert(rest.push(events.last())[j] == event);
        }
    } else {
        assert(rest.push(events.last())[rest.len() as int] == event);
    }
}

} // verus!

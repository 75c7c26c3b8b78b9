use vstd::prelude::*;

verus! {

/// How a flow run on the session ended.
#[derive(Debug, Clone, Copy, PartialEq, Eq, Structural)]
pub enum Outcome {
    Success,
    AuthRejected,
    TransportFault,
    ExtractionFault,
}

/// What happens to a session over its life.
#[derive(Debug, Clone, Copy, PartialEq, Eq, Structural)]
pub enum SessionEvent {
    /// A flow on the session ended as given.
    FlowEnded(Outcome),
    /// A caller gave up waiting on a command; the browser's state is no
    /// longer trusted.
    Abandoned,
    /// The owner of the session let go of it.
    Disposed,
}

/// The event ends the session's use of the browser.
pub open spec fn ends_session(ev: SessionEvent) -> bool {
    ev is Abandoned || ev is Disposed
}

/// The event must release the browser now, given whether it was released.
pub open spec fn releases_now(released: bool, ev: SessionEvent) -> bool {
    !released && ends_session(ev)
}

/// How many times the browser is released over the events, from a session
/// that was or was not released yet.
pub open spec fn release_count(released: bool, evs: Seq<SessionEvent>) -> nat
    decreases evs.len(),
{
    if evs.len() == 0 {
        0
    } else {
        (if releases_now(released, evs[0]) { 1nat } else { 0nat }) + release_count(
            released || ends_session(evs[0]),
            evs.skip(1),
        )
    }
}

/// The life of one browser session driven for one group: it knows whether
/// the browser has been released, and says when it must be.
#[derive(Debug)]
pub struct Session {
    pub group_id: u16,
    pub released: bool,
}

impl Session {
    pub fn new(group_id: u16) -> (r: Session)
        ensures
            r.group_id == group_id,
            !r.released,
    {
        Session { group_id, released: false }
    }

    /// The browser is still held, so a flow may run.
    pub fn is_open(&self) -> (r: bool)
        ensures
            r == !self.released,
    {
        !self.released
    }

    /// Records an event; true when the browser must be released now.
    pub fn on_event(&mut self, ev: SessionEvent) -> (release: bool)
        ensures
            release == releases_now(old(self).released, ev),
            final(self).released == (old(self).released || ends_session(ev)),
            final(self).group_id == old(self).group_id,
    {
        let release = !self.released && match ev {
            SessionEvent::Abandoned => true,
            SessionEvent::Disposed => true,
            SessionEvent::FlowEnded(_) => false,
        };
        if release {
            self.released = true;
        }
        release
    }
}

/// Whatever the flows' outcomes, a session releases the browser exactly once
/// when it is abandoned or disposed of, at the first such event, and never
/// before it.
pub proof fn lemma_released_exactly_once(evs: Seq<SessionEvent>)
    ensures
        release_count(false, evs) == if exists|i: int| 0 <= i < evs.len() && ends_session(#[trigger] evs[i]) {
            1nat
        } else {
            0nat
        },
    decreases evs.len(),
{
    if evs.len() > 0 {
        lemma_released_exactly_once(evs.skip(1));
        if ends_session(evs[0]) {
            lemma_no_release_after(evs.skip(1));
        } else {
            if exists|i: int| 0 <= i < evs.len() && ends_session(#[trigger] evs[i]) {
                let i = choose|i: int| 0 <= i < evs.len() && ends_session(#[trigger] evs[i]);
                assert(ends_session(evs.skip(1)[i - 1]));
            }
            if exists|i: int| 0 <= i < evs.len() - 1 && ends_session(#[trigger] evs.skip(1)[i]) {
                let i = choose|i: int| 0 <= i < evs.len() - 1 && ends_session(#[trigger] evs.skip(1)[i]);
                assert(ends_session(evs[i + 1]));
            }
        }
    }
}

/// Once released, the browser is never released again.
pub proof fn lemma_no_release_after(evs: Seq<SessionEvent>)
    ensures
        release_count(true, evs) == 0,
    decreases evs.len(),
{
    if evs.len() > 0 {
        lemma_no_release_after(evs.skip(1));
    }
}

} // verus!

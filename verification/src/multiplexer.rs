//! Which of the three event sources the interception loop still awaits.

use vstd::prelude::*;

verus! {

/// One of the three event sources of the control plane.
#[derive(Clone, Copy, Debug, PartialEq, Eq, Structural)]
pub enum Source {
    ResponseReceived,
    RequestPaused,
    RequestWillBeSent,
}

/// The sources that are still awaited. A source that ended, or failed, is
/// awaited no more; the loop goes on with the others and ends when none is
/// left.
#[derive(Clone, Copy, Debug, PartialEq, Eq, Structural)]
pub struct SourceSet {
    pub response_received: bool,
    pub request_paused: bool,
    pub request_will_be_sent: bool,
}

impl SourceSet {
    /// Whether `source` is still awaited.
    pub open spec fn awaits(self, source: Source) -> bool {
        match source {
            Source::ResponseReceived => self.response_received,
            Source::RequestPaused => self.request_paused,
            Source::RequestWillBeSent => self.request_will_be_sent,
        }
    }

    /// No source is awaited any more.
    pub open spec fn exhausted(self) -> bool {
        forall|source: Source| !self.awaits(source)
    }

    /// All three sources, awaited.
    pub fn new() -> (sources: Self)
        ensures
            forall|source: Source| sources.awaits(source),
    {
        SourceSet { response_received: true, request_paused: true, request_will_be_sent: true }
    }

    /// Whether `source` is still awaited.
    pub fn is_awaited(&self, source: Source) -> (awaited: bool)
        ensures
            awaited == self.awaits(source),
    {
        match source {
            Source::ResponseReceived => self.response_received,
            Source::RequestPaused => self.request_paused,
            Source::RequestWillBeSent => self.request_will_be_sent,
        }
    }

    /// Stops awaiting `source`, which ended or failed. The other sources stay
    /// as they are.
    pub fn close(&mut self, source: Source)
        ensures
            !final(self).awaits(source),
            forall|other: Source|
                other != source ==> final(self).awaits(other) == old(self).awaits(other),
    {
        match source {
            Source::ResponseReceived => {
                self.response_received = false;
            },
            Source::RequestPaused => {
                self.request_paused = false;
            },
            Source::RequestWillBeSent => {
                self.request_will_be_sent = false;
            },
        }
    }

    /// Whether the loop is over: it is exactly when all three sources are
    /// exhausted, never on the exhaustion of one or two.
    pub fn is_complete(&self) -> (complete: bool)
        ensures
            complete == self.exhausted(),
            complete == (!self.response_received && !self.request_paused
                && !self.request_will_be_sent),
    {
        let complete = !self.response_received && !self.request_paused
            && !self.request_will_be_sent;
        proof {
            if complete {
                assert forall|source: Source| !self.awaits(source) by {}
            } else {
                assert(self.awaits(Source::ResponseReceived) || self.awaits(Source::RequestPaused)
                    || self.awaits(Source::RequestWillBeSent));
            }
        }
        complete
    }
}

} // verus!

use vstd::prelude::*;

use crate::client::CommandOutput;

verus! {

/// An event that the transport reports on a command's channel.
pub enum ChannelEvent {
    /// Bytes the command wrote to its standard output.
    Data(Vec<u8>),
    /// The command's exit status.
    ExitStatus(u32),
    /// Any other event; it does not affect the result.
    Other,
}

/// The mathematical state of a channel's receive loop: the output captured
/// so far and the exit status last reported.
pub struct ExecModel {
    pub captured: Seq<u8>,
    pub status: Option<u32>,
}

/// The state in which every channel starts: nothing captured, no status.
pub open spec fn fresh() -> ExecModel {
    ExecModel { captured: Seq::empty(), status: None }
}

/// What one event does: the next state, and the bytes to echo at once to
/// the caller's output stream.
pub open spec fn step_model(m: ExecModel, e: ChannelEvent) -> (ExecModel, Seq<u8>) {
    match e {
        ChannelEvent::Data(d) => (ExecModel { captured: m.captured + d@, status: m.status }, d@),
        ChannelEvent::ExitStatus(c) => (ExecModel { captured: m.captured, status: Some(c) }, Seq::empty()),
        ChannelEvent::Other => (m, Seq::empty()),
    }
}

/// The state after a sequence of events, and everything echoed on the way.
pub open spec fn drive(m: ExecModel, events: Seq<ChannelEvent>) -> (ExecModel, Seq<u8>)
    decreases events.len(),
{
    if events.len() == 0 {
        (m, Seq::empty())
    } else {
        let (prev, echoed) = drive(m, events.drop_last());
        let (next, now) = step_model(prev, events.last());
        (next, echoed + now)
    }
}

/// The concatenation of the data payloads of a sequence of events.
pub open spec fn data_of(events: Seq<ChannelEvent>) -> Seq<u8>
    decreases events.len(),
{
    if events.len() == 0 {
        Seq::empty()
    } else {
        match events.last() {
            ChannelEvent::Data(d) => data_of(events.drop_last()) + d@,
            _ => data_of(events.drop_last()),
        }
    }
}

/// The last exit status among a sequence of events, if any.
pub open spec fn last_status(events: Seq<ChannelEvent>) -> Option<u32>
    decreases events.len(),
{
    if events.len() == 0 {
        None
    } else {
        match events.last() {
            ChannelEvent::ExitStatus(c) => Some(c),
            _ => last_status(events.drop_last()),
        }
    }
}

/// The receive loop of one command's channel.
pub struct ExecState {
    stdout: Vec<u8>,
    status_code: Option<u32>,
}

impl ExecState {
    pub closed spec fn model(&self) -> ExecModel {
        ExecModel { captured: self.stdout@, status: self.status_code }
    }

    /// The state of a channel just opened.
    pub fn new() -> (r: ExecState)
        ensures
            r.model() == fresh(),
    {
        ExecState { stdout: Vec::new(), status_code: None }
    }

    /// Takes in one event. Returns the bytes to echo at once to the caller's
    /// output stream, if the event carries any: a data event's payload is
    /// captured and echoed, an exit status is recorded, anything else is
    /// ignored.
    pub fn step(&mut self, event: ChannelEvent) -> (r: Option<Vec<u8>>)
        ensures
            final(self).model() == step_model(old(self).model(), event).0,
            event is Data ==> r is Some && r->Some_0@ == step_model(old(self).model(), event).1,
            !(event is Data) ==> r is None,
    {
        match event {
            ChannelEvent::Data(d) => {
                let mut i: usize = 0;
                let ghost start = self.stdout@;
                while i < d.len()
                    invariant
                        i <= d@.len(),
                        self.stdout@ == start + d@.take(i as int),
                        self.status_code == old(self).status_code,
                        start == old(self).stdout@,
                    decreases d@.len() - i,
                {
                    self.stdout.push(d[i]);
                    proof {
                        assert(d@.take(i + 1) =~= d@.take(i as int).push(d@[i as int]));
                    }
                    i = i + 1;
                }
                proof {
                    assert(d@.take(d@.len() as int) =~= d@);
                }
                Some(d)
            },
            ChannelEvent::ExitStatus(c) => {
                self.status_code = Some(c);
                None
            },
            ChannelEvent::Other => None,
        }
    }

    /// The result of the command once its channel has closed.
    pub fn finish(self) -> (r: CommandOutput)
        ensures
            r.stdout@ == self.model().captured,
            r.status_code == self.model().status,
    {
        CommandOutput { stdout: self.stdout, status_code: self.status_code }
    }
}

/// Driving a channel through any sequence of events echoes every data
/// payload exactly once, in order, and captures the same bytes; the status
/// is the last one reported, or none if none was.
pub proof fn lemma_output_delivered_once(events: Seq<ChannelEvent>)
    ensures
        drive(fresh(), events).1 == data_of(events),
        drive(fresh(), events).0.captured == data_of(events),
        drive(fresh(), events).0.status == last_status(events),
    decreases events.len(),
{
    if events.len() > 0 {
        lemma_output_delivered_once(events.drop_last());
        match events.last() {
            ChannelEvent::Data(d) => {},
            ChannelEvent::ExitStatus(c) => {
                assert(data_of(events) == data_of(events.drop_last()));
                assert(drive(fresh(), events).1 =~= data_of(events));
            },
            ChannelEvent::Other => {
                assert(drive(fresh(), events).1 =~= data_of(events));
            },
        }
    } else {
        assert(drive(fresh(), events).1 =~= data_of(events));
    }
}

/// Each command runs on a channel of its own that starts fresh: whatever
/// the first of two sequential commands produced, the second one's output and
/// status are those of its own events alone.
pub proof fn lemma_sequential_channels_independent(first: Seq<ChannelEvent>, second: Seq<ChannelEvent>)
    ensures
        drive(fresh(), first).0.captured == data_of(first),
        drive(fresh(), second).0.captured == data_of(second),
        drive(fresh(), second).1 == data_of(second),
        drive(fresh(), second).0.status == last_status(second),
{
    lemma_output_delivered_once(first);
    lemma_output_delivered_once(second);
}

} // verus!

//! The decisions of one completion exchange, as a state machine: the caller
//! performs each action (reads the error body, pulls the next frame,
//! publishes a record) and hands back what happened.
use vstd::prelude::*;
use crate::frame::{done_marker, parse_frame, progress_of, progress_payload, Frame};
use crate::json::is_json;
use crate::payload::{ProgressPayload, ProgressView};

verus! {

/// Why an exchange failed.
#[derive(Clone, Debug)]
pub enum Error {
    /// The request could not be sent or its answer not read.
    Request(String),
    /// The event stream broke after a successful status.
    Stream(String),
    /// The service answered with a status other than 200.
    Custom { code: u16, msg: String },
}

/// Where an exchange stands.
#[derive(Clone, Copy, Debug, PartialEq, Eq, Structural)]
pub enum Phase {
    AwaitingStatus,
    ReadingError { code: u16 },
    Streaming,
    Completed,
    Failed,
}

/// What the caller does next.
#[derive(Debug)]
pub enum Action {
    /// Read the whole response body as text and hand it to `on_error_body`.
    ReadErrorBody,
    /// Pull the next frame of the event stream.
    NextFrame,
    /// Publish this record, then pull the next frame.
    Publish(ProgressPayload),
    /// The exchange is over, with this result.
    Finish(Result<u64, Error>),
}

/// One completion exchange: request `id`, whose outgoing message has the id
/// `message_id`.
#[derive(Clone, Debug)]
pub struct Exchange {
    pub id: u64,
    pub message_id: String,
    pub phase: Phase,
}

/// The records published for the frames `frames`, taken in order up to the
/// first end sentinel; frames that are not JSON publish nothing.
pub open spec fn published(id: u64, message_id: Seq<char>, frames: Seq<Seq<char>>) -> Seq<ProgressView>
    decreases frames.len(),
{
    if frames.len() == 0 {
        Seq::empty()
    } else if frames[0] == done_marker() {
        Seq::empty()
    } else if !is_json(frames[0]) {
        published(id, message_id, frames.drop_first())
    } else {
        seq![progress_of(id, message_id, frames[0])] + published(id, message_id, frames.drop_first())
    }
}

/// Whether the frames hold the end sentinel.
pub open spec fn reaches_done(frames: Seq<Seq<char>>) -> bool {
    exists|i: int| 0 <= i < frames.len() && frames[i] == done_marker()
}

impl Exchange {
    /// A new exchange, waiting for the status of the response.
    pub fn new(id: u64, message_id: String) -> (r: Exchange)
        ensures
            r.id == id,
            r.message_id@ == message_id@,
            r.phase == Phase::AwaitingStatus,
    {
        Exchange { id, message_id, phase: Phase::AwaitingStatus }
    }

    /// The request failed, or its answer could not be read.
    pub fn on_transport_error(&mut self, cause: String) -> (r: Action)
        requires
            old(self).phase is AwaitingStatus || old(self).phase is ReadingError,
        ensures
            final(self).id == old(self).id,
            final(self).message_id == old(self).message_id,
            final(self).phase == Phase::Failed,
            r matches Action::Finish(Err(Error::Request(c))) && c@ == cause@,
    {
        self.phase = Phase::Failed;
        Action::Finish(Err(Error::Request(cause)))
    }

    /// The response came with status `code`: only 200 is streamed.
    pub fn on_status(&mut self, code: u16) -> (r: Action)
        requires
            old(self).phase is AwaitingStatus,
        ensures
            final(self).id == old(self).id,
            final(self).message_id == old(self).message_id,
            code == 200 ==> final(self).phase == Phase::Streaming && r is NextFrame,
            code != 200 ==> final(self).phase == (Phase::ReadingError { code }) && r is ReadErrorBody,
    {
        if code == 200 {
            self.phase = Phase::Streaming;
            Action::NextFrame
        } else {
            self.phase = Phase::ReadingError { code };
            Action::ReadErrorBody
        }
    }

    /// The body of a response whose status was not 200, read as text.
    pub fn on_error_body(&mut self, body: String) -> (r: Action)
        requires
            old(self).phase is ReadingError,
        ensures
            final(self).id == old(self).id,
            final(self).message_id == old(self).message_id,
            final(self).phase == Phase::Failed,
            r matches Action::Finish(Err(Error::Custom { code, msg }))
                && old(self).phase == (Phase::ReadingError { code })
                && msg@ == body@,
    {
        let code = match self.phase {
            Phase::ReadingError { code } => code,
            _ => 0,
        };
        self.phase = Phase::Failed;
        Action::Finish(Err(Error::Custom { code, msg: body }))
    }

    /// The next frame of the stream, with data text `data`.
    pub fn on_frame(&mut self, data: &str) -> (r: Action)
        requires
            old(self).phase is Streaming,
        ensures
            final(self).id == old(self).id,
            final(self).message_id == old(self).message_id,
            data@ == done_marker() ==> final(self).phase == Phase::Completed
                && (r matches Action::Finish(Ok(v)) && v == old(self).id),
            data@ != done_marker() && !is_json(data@) ==> final(self).phase == Phase::Streaming
                && r is NextFrame,
            data@ != done_marker() && is_json(data@) ==> final(self).phase == Phase::Streaming
                && (r matches Action::Publish(p)
                && p@ == progress_of(old(self).id, old(self).message_id@, data@)),
    {
        match parse_frame(data) {
            Frame::Done => {
                self.phase = Phase::Completed;
                Action::Finish(Ok(self.id))
            },
            Frame::Skip => Action::NextFrame,
            Frame::Fragment(fields) => Action::Publish(progress_payload(self.id, &self.message_id, fields)),
        }
    }

    /// The event stream failed.
    pub fn on_stream_error(&mut self, cause: String) -> (r: Action)
        requires
            old(self).phase is Streaming,
        ensures
            final(self).id == old(self).id,
            final(self).message_id == old(self).message_id,
            final(self).phase == Phase::Failed,
            r matches Action::Finish(Err(Error::Stream(c))) && c@ == cause@,
    {
        self.phase = Phase::Failed;
        Action::Finish(Err(Error::Stream(cause)))
    }

    /// The event stream ended without the end sentinel.
    pub fn on_stream_end(&mut self) -> (r: Action)
        requires
            old(self).phase is Streaming,
        ensures
            final(self).id == old(self).id,
            final(self).message_id == old(self).message_id,
            final(self).phase == Phase::Completed,
            r matches Action::Finish(Ok(v)) && v == old(self).id,
    {
        self.phase = Phase::Completed;
        Action::Finish(Ok(self.id))
    }
}

/// The data texts of a sequence of frames.
pub open spec fn texts(frames: Seq<String>) -> Seq<Seq<char>> {
    frames.map_values(|s: String| s@)
}

/// What a sequence of records says.
pub open spec fn views(events: Seq<ProgressPayload>) -> Seq<ProgressView> {
    events.map_values(|p: ProgressPayload| p@)
}

/// Runs a whole exchange on a response that is already at hand: its status,
/// the body read where the status is not 200, and the data texts of its
/// frames in the order they arrived. Returns the records published, in
/// order, and the result handed to the caller.
pub fn replay(id: u64, message_id: String, status: u16, error_body: String, frames: &Vec<String>) -> (r: (
    Vec<ProgressPayload>,
    Result<u64, Error>,
))
    ensures
        status != 200 ==> r.0@.len() == 0 && (r.1 matches Err(Error::Custom { code, msg }) && code
            == status && msg@ == error_body@),
        status == 200 ==> views(r.0@) == published(id, message_id@, texts(frames@)) && (r.1 matches Ok(
            v,
        ) && v == id),
{
    let ghost mid = message_id@;
    let mut ex = Exchange::new(id, message_id);
    let mut events: Vec<ProgressPayload> = Vec::new();
    if let Action::ReadErrorBody = ex.on_status(status) {
        return match ex.on_error_body(error_body) {
            Action::Finish(res) => (events, res),
            _ => (events, Ok(id)),
        };
    }
    let ghost all = texts(frames@);
    let mut i: usize = 0;
    proof {
        assert(all.skip(0) =~= all);
        assert(views(events@) + published(id, mid, all) =~= published(id, mid, all));
    }
    while i < frames.len()
        invariant
            ex.phase == Phase::Streaming,
            ex.id == id,
            ex.message_id@ == mid,
            mid == message_id@,
            status == 200,
            i <= frames.len(),
            all == texts(frames@),
            views(events@) + published(id, mid, all.skip(i as int)) == published(id, mid, all),
        decreases frames.len() - i,
    {
        let act = ex.on_frame(frames[i].as_str());
        proof {
            assert(all[i as int] == frames@[i as int]@);
            assert(all.skip(i as int)[0] == all[i as int]);
            assert(all.skip(i as int).drop_first() =~= all.skip(i + 1));
        }
        match act {
            Action::Publish(p) => {
                let ghost before = events@;
                let ghost pv = p@;
                events.push(p);
                proof {
                    assert(views(events@) =~= views(before).push(pv));
                    assert(seq![pv] + published(id, mid, all.skip(i + 1)) =~= published(
                        id,
                        mid,
                        all.skip(i as int),
                    ));
                    assert(views(events@) + published(id, mid, all.skip(i + 1)) =~= views(before)
                        + published(id, mid, all.skip(i as int)));
                }
            },
            Action::Finish(res) => {
                proof {
                    assert(published(id, mid, all.skip(i as int)) =~= Seq::empty());
                    assert(views(events@) + Seq::<ProgressView>::empty() =~= views(events@));
                }
                return (events, res);
            },
            _ => {},
        }
        i += 1;
    }
    proof {
        assert(all.skip(i as int) =~= Seq::<Seq<char>>::empty());
        assert(views(events@) + Seq::<ProgressView>::empty() =~= views(events@));
    }
    match ex.on_stream_end() {
        Action::Finish(res) => (events, res),
        _ => (events, Ok(id)),
    }
}

/// Every record of an exchange carries the exchange's own request id and
/// message id.
pub proof fn lemma_published_ids(id: u64, message_id: Seq<char>, frames: Seq<Seq<char>>)
    ensures
        forall|k: int|
            0 <= k < published(id, message_id, frames).len() ==> (#[trigger] published(
                id,
                message_id,
                frames,
            )[k]).id == id && published(id, message_id, frames)[k].parent_message_id == message_id,
    decreases frames.len(),
{
    if frames.len() > 0 {
        lemma_published_ids(id, message_id, frames.drop_first());
    }
}

/// Two exchanges with distinct request ids never publish a record with the
/// same request id: no record of one reaches the other's subscribers.
pub proof fn lemma_no_cross_delivery(
    id1: u64,
    message_id1: Seq<char>,
    frames1: Seq<Seq<char>>,
    id2: u64,
    message_id2: Seq<char>,
    frames2: Seq<Seq<char>>,
)
    requires
        id1 != id2,
    ensures
        forall|k: int, j: int|
            0 <= k < published(id1, message_id1, frames1).len() && 0 <= j < published(
                id2,
                message_id2,
                frames2,
            ).len() ==> (#[trigger] published(id1, message_id1, frames1)[k]).id != (
            #[trigger] published(id2, message_id2, frames2)[j]).id,
{
    lemma_published_ids(id1, message_id1, frames1);
    lemma_published_ids(id2, message_id2, frames2);
}

/// A frame that is not JSON, wherever it stands among the others, changes
/// neither the records published nor whether the stream reaches its end
/// sentinel.
pub proof fn lemma_malformed_frame_ignored(
    id: u64,
    message_id: Seq<char>,
    frames: Seq<Seq<char>>,
    i: int,
)
    requires
        0 <= i < frames.len(),
        frames[i] != done_marker(),
        !is_json(frames[i]),
    ensures
        published(id, message_id, frames.remove(i)) == published(id, message_id, frames),
        reaches_done(frames.remove(i)) == reaches_done(frames),
    decreases i,
{
    let rest = frames.remove(i);
    if i == 0 {
        assert(rest =~= frames.drop_first());
    } else {
        lemma_malformed_frame_ignored(id, message_id, frames.drop_first(), i - 1);
        assert(rest.drop_first() =~= frames.drop_first().remove(i - 1));
        assert(rest[0] == frames[0]);
    }
    if reaches_done(frames) {
        let j = choose|j: int| 0 <= j < frames.len() && frames[j] == done_marker();
        if j < i {
            assert(rest[j] == done_marker());
        } else {
            assert(rest[j - 1] == done_marker());
        }
    }
    if reaches_done(rest) {
        let j = choose|j: int| 0 <= j < rest.len() && rest[j] == done_marker();
        if j < i {
            assert(frames[j] == done_marker());
        } else {
            assert(frames[j + 1] == done_marker());
        }
    }
}

/// Once the end sentinel arrives nothing more is published, whatever
/// follows it.
pub proof fn lemma_done_ends_stream(
    id: u64,
    message_id: Seq<char>,
    before: Seq<Seq<char>>,
    after: Seq<Seq<char>>,
)
    ensures
        published(id, message_id, before.push(done_marker()) + after) == published(
            id,
            message_id,
            before,
        ),
        reaches_done(before.push(done_marker()) + after),
    decreases before.len(),
{
    let frames = before.push(done_marker()) + after;
    assert(frames[before.len() as int] == done_marker());
    if before.len() == 0 {
        assert(frames[0] == done_marker());
    } else {
        lemma_done_ends_stream(id, message_id, before.drop_first(), after);
        assert(frames.drop_first() =~= before.drop_first().push(done_marker()) + after);
        assert(frames[0] == before[0]);
    }
}

/// Two runs on the same request and the same frames publish the same
/// records in the same order.
pub proof fn lemma_published_repeatable(
    id: u64,
    message_id: Seq<char>,
    frames1: Seq<Seq<char>>,
    frames2: Seq<Seq<char>>,
)
    requires
        frames1 == frames2,
    ensures
        published(id, message_id, frames1) == published(id, message_id, frames2),
{
}

} // verus!

use vstd::prelude::*;

use crate::calls::{Call, CallSpec, FRAME_CAPACITY, FRAME_INFO_SIZE};
use crate::codes::{classify, recv_code_of, RecvCode};

verus! {

/// Why a drain ended.
#[derive(Debug, Clone, Copy, PartialEq, Eq, Structural)]
pub enum DrainEnd {
    ClosedByRemote,
    RemoteTimeout,
    InvalidSid,
    /// A stop was requested from outside the loop.
    Cancelled,
}

/// What the loop is to do after one receive.
#[derive(Debug, Clone, Copy, PartialEq, Eq, Structural)]
pub enum DrainAction {
    /// Append the first `len` bytes of the receive buffer to the sink, then
    /// flush it.
    Write { len: usize },
    /// Nothing was ready: pause, and report how many frames came in since the
    /// last pause.
    Pause { frames_since_last: u32 },
    /// The code was recorded; go on receiving.
    Note(RecvCode),
    /// Leave the loop.
    Finish(DrainEnd),
}

/// One receive as the drain saw it: the return code and the buffer's content.
pub type Receipt = (i32, Seq<u8>);

/// The bytes a receipt contributes to the sink.
pub open spec fn payload_of(f: Receipt) -> Seq<u8> {
    if 0 < f.0 && f.0 <= f.1.len() {
        f.1.subrange(0, f.0 as int)
    } else {
        Seq::empty()
    }
}

/// The sink's content after a series of receipts: the payloads, in receive order.
pub open spec fn sink_of(h: Seq<Receipt>) -> Seq<u8>
    decreases h.len(),
{
    if h.len() == 0 {
        Seq::empty()
    } else {
        sink_of(h.drop_last()) + payload_of(h.last())
    }
}

/// The terminal codes and the end each one gives.
pub open spec fn end_of(code: RecvCode) -> Option<DrainEnd> {
    match code {
        RecvCode::ClosedByRemote => Some(DrainEnd::ClosedByRemote),
        RecvCode::RemoteTimeout => Some(DrainEnd::RemoteTimeout),
        RecvCode::InvalidSid => Some(DrainEnd::InvalidSid),
        _ => None,
    }
}

/// The action for one code, with `buf_len` bytes of buffer and `fps` frames
/// counted since the last pause.
pub open spec fn action_of(code: RecvCode, buf_len: nat, fps: u32) -> DrainAction {
    match code {
        RecvCode::Delivered(n) =>
            if 0 < n && n <= buf_len {
                DrainAction::Write { len: n as usize }
            } else {
                DrainAction::Note(code)
            },
        RecvCode::NotReady => DrainAction::Pause { frames_since_last: fps },
        RecvCode::ClosedByRemote => DrainAction::Finish(DrainEnd::ClosedByRemote),
        RecvCode::RemoteTimeout => DrainAction::Finish(DrainEnd::RemoteTimeout),
        RecvCode::InvalidSid => DrainAction::Finish(DrainEnd::InvalidSid),
        _ => DrainAction::Note(code),
    }
}

/// A counter that stops at its largest value.
pub open spec fn bumped(n: u64) -> u64 {
    if n < u64::MAX {
        (n + 1) as u64
    } else {
        n
    }
}

/// A 32-bit counter that stops at its largest value.
pub open spec fn bumped32(n: u32) -> u32 {
    if n < u32::MAX {
        (n + 1) as u32
    } else {
        n
    }
}

/// The mathematical state of a [`Drain`].
pub ghost struct DrainView {
    pub av_index: i32,
    /// Frames written since the last pause.
    pub fps: u32,
    pub frames: u64,
    pub lost: u64,
    pub incomplete: u64,
    /// Unknown negative codes, and deliveries too large for the buffer.
    pub unclassified: u64,
    pub pauses: u64,
    pub end: Option<DrainEnd>,
    /// Every receive handed to the drain, in order.
    pub received: Seq<Receipt>,
    /// What the drain has asked to be written to the sink, in order.
    pub written: Seq<u8>,
}

/// The receive loop of one AV channel: it asks for frames, classifies each
/// return code and says what to do with the buffer.
pub struct Drain {
    av_index: i32,
    fps: u32,
    frames: u64,
    lost: u64,
    incomplete: u64,
    unclassified: u64,
    pauses: u64,
    end: Option<DrainEnd>,
    received: Ghost<Seq<Receipt>>,
    written: Ghost<Seq<u8>>,
}

impl View for Drain {
    type V = DrainView;

    closed spec fn view(&self) -> DrainView {
        DrainView {
            av_index: self.av_index,
            fps: self.fps,
            frames: self.frames,
            lost: self.lost,
            incomplete: self.incomplete,
            unclassified: self.unclassified,
            pauses: self.pauses,
            end: self.end,
            received: self.received@,
            written: self.written@,
        }
    }
}

impl DrainView {
    /// A drain of the AV channel `av_index` with nothing received yet.
    pub open spec fn start(av_index: i32) -> DrainView {
        DrainView {
            av_index,
            fps: 0,
            frames: 0,
            lost: 0,
            incomplete: 0,
            unclassified: 0,
            pauses: 0,
            end: None,
            received: Seq::empty(),
            written: Seq::empty(),
        }
    }
}

impl Drain {
    /// The sink holds exactly the payloads received so far.
    pub open spec fn wf(&self) -> bool {
        self@.written == sink_of(self@.received)
    }

    /// A drain of the AV channel `av_index`, with nothing received yet.
    pub fn new(av_index: i32) -> (r: Drain)
        ensures
            r.wf(),
            r@ == DrainView::start(av_index),
    {
        Drain {
            av_index,
            fps: 0,
            frames: 0,
            lost: 0,
            incomplete: 0,
            unclassified: 0,
            pauses: 0,
            end: None,
            received: Ghost(Seq::empty()),
            written: Ghost(Seq::empty()),
        }
    }

    /// The AV channel drained.
    pub fn av_index(&self) -> (r: i32)
        ensures
            r == self@.av_index,
    {
        self.av_index
    }

    /// Frames written to the sink.
    pub fn frames(&self) -> (r: u64)
        ensures
            r == self@.frames,
    {
        self.frames
    }

    /// Frames reported lost.
    pub fn lost_frames(&self) -> (r: u64)
        ensures
            r == self@.lost,
    {
        self.lost
    }

    /// Frames reported incomplete.
    pub fn incomplete_frames(&self) -> (r: u64)
        ensures
            r == self@.incomplete,
    {
        self.incomplete
    }

    /// Unknown negative codes, and deliveries too large for the buffer.
    pub fn unclassified(&self) -> (r: u64)
        ensures
            r == self@.unclassified,
    {
        self.unclassified
    }

    /// Receives that found nothing ready.
    pub fn pauses(&self) -> (r: u64)
        ensures
            r == self@.pauses,
    {
        self.pauses
    }

    /// Why the drain ended, if it has.
    pub fn end(&self) -> (r: Option<DrainEnd>)
        ensures
            r == self@.end,
    {
        self.end
    }

    /// The receive call to make next, or `None` once the drain has ended.
    pub fn next_call(&self) -> (r: Option<Call>)
        ensures
            self@.end is Some ==> r is None,
            self@.end is None ==> r is Some && r->0@ == (CallSpec::RecvFrame {
                av_index: self@.av_index,
                buf_capacity: FRAME_CAPACITY,
                info_capacity: FRAME_INFO_SIZE,
            }),
    {
        if self.end.is_some() {
            None
        } else {
            Some(
                Call::RecvFrame {
                    av_index: self.av_index,
                    buf_capacity: FRAME_CAPACITY,
                    info_capacity: FRAME_INFO_SIZE,
                },
            )
        }
    }

    /// Asks the drain to stop before its next receive. A drain that has
    /// already ended keeps its end.
    pub fn cancel(&mut self)
        requires
            old(self).wf(),
        ensures
            final(self).wf(),
            final(self)@ == (DrainView {
                end: if old(self)@.end is Some { old(self)@.end } else { Some(DrainEnd::Cancelled) },
                ..old(self)@
            }),
    {
        if self.end.is_none() {
            self.end = Some(DrainEnd::Cancelled);
        }
    }

    /// Takes the result of one receive: `ret` is what the call returned and
    /// `buf` the receive buffer. Each code reaches exactly one branch; the
    /// drain ends on a terminal code and only there.
    pub fn on_frame(&mut self, ret: i32, buf: &[u8]) -> (r: DrainAction)
        requires
            old(self).wf(),
        ensures
            final(self).wf(),
            old(self)@.end is Some ==> r == DrainAction::Finish(old(self)@.end->0) && final(self)@
                == old(self)@,
            old(self)@.end is None ==> {
                let code = recv_code_of(ret);
                let o = old(self)@;
                let f = final(self)@;
                &&& r == action_of(code, buf@.len(), o.fps)
                &&& f.av_index == o.av_index
                &&& f.received == o.received.push((ret, buf@))
                &&& f.written == o.written + payload_of((ret, buf@))
                &&& f.end == end_of(code)
                &&& f.end is Some <==> code.is_terminal()
                &&& f.frames == (if r is Write { bumped(o.frames) } else { o.frames })
                &&& f.fps == (if r is Write { bumped32(o.fps) } else if r is Pause { 0 } else { o.fps })
                &&& f.pauses == (if r is Pause { bumped(o.pauses) } else { o.pauses })
                &&& f.lost == (if code is LostFrame { bumped(o.lost) } else { o.lost })
                &&& f.incomplete == (if code is IncompleteFrame { bumped(o.incomplete) } else { o.incomplete })
                &&& f.unclassified == (if code is Unclassified || (ret > 0 && r is Note) {
                    bumped(o.unclassified)
                } else {
                    o.unclassified
                })
            },
    {
        if let Some(end) = self.end {
            return DrainAction::Finish(end);
        }
        let ghost old_received = self.received@;
        proof {
            self.received@ = old_received.push((ret, buf@));
            self.written@ = self.written@ + payload_of((ret, buf@));
            sink_grows_by_payload(old_received, (ret, buf@));
        }
        let code = classify(ret);
        match code {
            RecvCode::Delivered(n) => {
                if 0 < n && (n as usize) <= buf.len() {
                    self.frames = if self.frames < u64::MAX { self.frames + 1 } else { self.frames };
                    self.fps = if self.fps < u32::MAX { self.fps + 1 } else { self.fps };
                    DrainAction::Write { len: n as usize }
                } else {
                    if n > 0 {
                        self.unclassified = if self.unclassified < u64::MAX { self.unclassified + 1 } else { self.unclassified };
                    }
                    DrainAction::Note(code)
                }
            },
            RecvCode::NotReady => {
                let fps = self.fps;
                self.fps = 0;
                self.pauses = if self.pauses < u64::MAX { self.pauses + 1 } else { self.pauses };
                DrainAction::Pause { frames_since_last: fps }
            },
            RecvCode::LostFrame => {
                self.lost = if self.lost < u64::MAX { self.lost + 1 } else { self.lost };
                DrainAction::Note(code)
            },
            RecvCode::IncompleteFrame => {
                self.incomplete = if self.incomplete < u64::MAX { self.incomplete + 1 } else { self.incomplete };
                DrainAction::Note(code)
            },
            RecvCode::ClosedByRemote => {
                self.end = Some(DrainEnd::ClosedByRemote);
                DrainAction::Finish(DrainEnd::ClosedByRemote)
            },
            RecvCode::RemoteTimeout => {
                self.end = Some(DrainEnd::RemoteTimeout);
                DrainAction::Finish(DrainEnd::RemoteTimeout)
            },
            RecvCode::InvalidSid => {
                self.end = Some(DrainEnd::InvalidSid);
                DrainAction::Finish(DrainEnd::InvalidSid)
            },
            RecvCode::Unclassified(_) => {
                self.unclassified = if self.unclassified < u64::MAX { self.unclassified + 1 } else { self.unclassified };
                DrainAction::Note(code)
            },
        }
    }
}

/// What a drain asked to be written to its sink is the concatenation, in
/// receive order, of the first N bytes of the buffer for each receive that
/// delivered N > 0 bytes within the buffer.
pub proof fn sink_holds_payloads(d: &Drain)
    requires
        d.wf(),
    ensures
        d@.written == sink_of(d@.received),
{
}

/// The sink after one more receive: what it held, then that receive's payload.
pub proof fn sink_grows_by_payload(h: Seq<Receipt>, f: Receipt)
    ensures
        sink_of(h.push(f)) == sink_of(h) + payload_of(f),
{
    assert(h.push(f).drop_last() =~= h);
}

} // verus!

use vstd::prelude::*;

use crate::calls::{
    stream_start_record, stream_start_record_of, Call, CallKind, CallSpec,
    AV_HANDSHAKE_TIMEOUT_SECS, IOTYPE_INNER_SND_DATA_DELAY, IOTYPE_USER_IPCAM_START,
};
use crate::drain::{Drain, DrainView};
use crate::marshal::{ascii_marshals_verbatim, c_bytes_of, to_c_bytes};

verus! {

/// The rendezvous master servers, in the order IOTC init takes them.
pub const MASTER_HOST_1: &'static str = "m1.iotcplatform.com";

pub const MASTER_HOST_2: &'static str = "m2.iotcplatform.com";

pub const MASTER_HOST_3: &'static str = "m4.iotcplatform.com";

pub const MASTER_HOST_4: &'static str = "m5.iotcplatform.com";

/// The four master hostnames, as the SDK receives them.
pub open spec fn masters_spec() -> Seq<Seq<u8>> {
    seq![
        c_bytes_of(MASTER_HOST_1@)->0,
        c_bytes_of(MASTER_HOST_2@)->0,
        c_bytes_of(MASTER_HOST_3@)->0,
        c_bytes_of(MASTER_HOST_4@)->0,
    ]
}

/// Marshals a hostname known to be plain ASCII.
fn host_c_bytes(s: &str) -> (r: Vec<u8>)
    requires
        c_bytes_of(s@) is Some,
    ensures
        c_bytes_of(s@) == Some(r@),
{
    match to_c_bytes(s) {
        Ok(v) => v,
        Err(_) => Vec::new(),
    }
}

/// The master hostnames, marshalled.
fn master_hosts() -> (r: Vec<Vec<u8>>)
    ensures
        r@.map_values(|m: Vec<u8>| m@) == masters_spec(),
{
    proof {
        reveal_strlit("m1.iotcplatform.com");
        reveal_strlit("m2.iotcplatform.com");
        reveal_strlit("m4.iotcplatform.com");
        reveal_strlit("m5.iotcplatform.com");
        ascii_marshals_verbatim(MASTER_HOST_1@);
        ascii_marshals_verbatim(MASTER_HOST_2@);
        ascii_marshals_verbatim(MASTER_HOST_3@);
        ascii_marshals_verbatim(MASTER_HOST_4@);
    }
    let r = vec![
        host_c_bytes(MASTER_HOST_1),
        host_c_bytes(MASTER_HOST_2),
        host_c_bytes(MASTER_HOST_3),
        host_c_bytes(MASTER_HOST_4),
    ];
    assert(r@.map_values(|m: Vec<u8>| m@) =~= masters_spec());
    r
}

/// Where an adapter stands in its lifecycle. The `Await` stages wait for the
/// reply to the call the adapter last asked for.
#[derive(Debug, Clone, Copy, PartialEq, Eq, Structural)]
pub enum Stage {
    AwaitIotcInit,
    AwaitAvInit,
    AwaitVersion,
    /// IOTC or AV init failed: only teardown is left.
    InitFailed,
    /// Both subsystems are up; no session yet.
    Ready,
    AwaitSessionId,
    AwaitConnect,
    Connected,
    AwaitAvStart,
    AwaitSessionCheck,
    AvOpen,
    AwaitDataDelay,
    AwaitIpcamStart,
    /// The device was asked to stream: frames may be drained.
    Armed,
    /// Connect or open-av failed: session operations are refused.
    Broken,
    /// The AV channel and the session were released.
    Closed,
    /// Both subsystems were deinitialized.
    ShutDown,
}

/// Errors of the session adapter.
#[derive(Debug, Clone, Copy, PartialEq, Eq, Structural)]
pub enum IotcError {
    /// IOTC init or AV init failed.
    Init,
    /// Session reservation or connect-by-UID failed.
    Connection,
    /// Opening the AV client failed, or the session check was not 0.
    AvOpen,
    /// A start-stream control failed: the stream is not armed.
    Control,
    /// A string for the SDK holds a NUL.
    EmbeddedNul,
    /// The operation is not allowed in the adapter's current stage.
    OutOfOrder,
}

/// What the caller is to do next: make an SDK call and hand its return code
/// to [`IOTC::reply`], or take the operation's outcome.
#[derive(Debug, PartialEq, Eq)]
pub enum Next {
    Call(Call),
    Done(Result<(), IotcError>),
}

impl Next {
    /// The call to make, if this is one.
    pub open spec fn issued(self) -> Option<CallSpec> {
        match self {
            Next::Call(c) => Some(c@),
            Next::Done(_) => None,
        }
    }

    /// The operation's outcome, if it has one.
    pub open spec fn outcome(self) -> Option<Result<(), IotcError>> {
        match self {
            Next::Call(_) => None,
            Next::Done(r) => Some(r),
        }
    }
}

/// The stages in which the adapter waits for the reply to an SDK call.
pub open spec fn awaits_reply(stage: Stage) -> bool {
    match stage {
        Stage::AwaitIotcInit | Stage::AwaitAvInit | Stage::AwaitVersion | Stage::AwaitSessionId
        | Stage::AwaitConnect | Stage::AwaitAvStart | Stage::AwaitSessionCheck
        | Stage::AwaitDataDelay | Stage::AwaitIpcamStart => true,
        _ => false,
    }
}

/// The calls that release what an adapter holds: AV client stop, then
/// session close, each only when its id is owned.
pub open spec fn stop_calls(v: IotcView) -> Seq<CallSpec> {
    (if v.av_index >= 0 {
        seq![CallSpec::AvClientStop { av_index: v.av_index }]
    } else {
        Seq::empty()
    }) + (if v.sid >= 0 {
        seq![CallSpec::SessionClose { sid: v.sid }]
    } else {
        Seq::empty()
    })
}

/// AV deinit, then IOTC deinit, each only for a subsystem that is up.
pub open spec fn deinit_calls(v: IotcView) -> Seq<CallSpec> {
    (if v.av_up {
        seq![CallSpec::AvDeinitialize]
    } else {
        Seq::empty()
    }) + (if v.iotc_up {
        seq![CallSpec::IotcDeinitialize]
    } else {
        Seq::empty()
    })
}

/// The entry points of a series of calls.
pub open spec fn kinds(calls: Seq<CallSpec>) -> Seq<CallKind> {
    calls.map_values(|c: CallSpec| c.kind())
}

/// The mathematical values of a series of calls.
pub open spec fn views(calls: Seq<Call>) -> Seq<CallSpec> {
    calls.map_values(|c: Call| c@)
}

/// Calls ordered by lifecycle rank.
pub open spec fn ranks_ordered(log: Seq<CallKind>) -> bool {
    forall|i: int, j: int| 0 <= i < j < log.len() ==> #[trigger] log[i].rank() <= #[trigger] log[j].rank()
}

/// Only work on the session repeats; every other call is made at most once.
pub open spec fn single_lifecycle_calls(log: Seq<CallKind>) -> bool {
    forall|i: int, j: int|
        0 <= i < j < log.len() && #[trigger] log[i] == #[trigger] log[j] ==> log[i].is_session_work()
}

/// No call so far ranks above `b`.
pub open spec fn ranks_at_most(log: Seq<CallKind>, b: nat) -> bool {
    forall|i: int| 0 <= i < log.len() ==> #[trigger] log[i].rank() <= b
}

/// The log opens with IOTC init; any session call comes after AV init and the
/// version probe.
pub open spec fn opened_by_init(log: Seq<CallKind>) -> bool {
    &&& log.len() >= 1
    &&& log[0] == CallKind::IotcInitialize
    &&& forall|i: int|
        0 <= i < log.len() && 3 <= #[trigger] log[i].rank() <= 5 ==> log.len() >= 3
            && log[1] == CallKind::AvInitialize && log[2] == CallKind::GetVersion
}

/// The highest lifecycle rank a call made so far can have in `stage`.
pub open spec fn rank_bound(stage: Stage) -> nat {
    match stage {
        Stage::AwaitIotcInit => 0,
        Stage::AwaitAvInit => 1,
        Stage::AwaitVersion => 2,
        Stage::InitFailed => 1,
        Stage::Closed => 5,
        Stage::ShutDown => 7,
        _ => 3,
    }
}

/// The mathematical state of an [`IOTC`] adapter.
pub ghost struct IotcView {
    pub stage: Stage,
    /// The session id, -1 when none is owned.
    pub sid: i32,
    /// The AV index, -1 when none is owned.
    pub av_index: i32,
    /// The channel count reserved at AV init.
    pub channels: i32,
    pub iotc_up: bool,
    pub av_up: bool,
    /// The marshalled UID of the connect in progress.
    pub uid: Seq<u8>,
    /// Every SDK call the adapter asked for, in order.
    pub log: Seq<CallKind>,
}

impl IotcView {
    /// What each stage says of the ids, the subsystems and the log.
    pub open spec fn stage_holds(self) -> bool {
        let prefix = self.log.len() >= 3 && self.log[1] == CallKind::AvInitialize && self.log[2]
            == CallKind::GetVersion;
        let none = self.sid == -1 && self.av_index == -1;
        match self.stage {
            Stage::AwaitIotcInit => !self.iotc_up && !self.av_up && none && self.log.len() == 1,
            Stage::AwaitAvInit => self.iotc_up && !self.av_up && none && self.log.len() == 2
                && self.log[1] == CallKind::AvInitialize,
            Stage::AwaitVersion => self.iotc_up && self.av_up && none && self.log.len() == 3
                && prefix,
            Stage::InitFailed => !self.av_up && none,
            Stage::Closed => none,
            Stage::ShutDown => !self.iotc_up && !self.av_up && none,
            Stage::Ready | Stage::AwaitSessionId => self.iotc_up && self.av_up && prefix && none,
            Stage::AwaitConnect | Stage::Connected | Stage::AwaitAvStart => self.iotc_up
                && self.av_up && prefix && self.sid >= 0 && self.av_index == -1,
            Stage::Broken => self.iotc_up && self.av_up && prefix && self.sid >= -1
                && self.av_index >= -1,
            _ => self.iotc_up && self.av_up && prefix && self.sid >= 0 && self.av_index >= 0,
        }
    }

    /// The adapter's invariant.
    pub open spec fn wf(self) -> bool {
        &&& ranks_ordered(self.log)
        &&& single_lifecycle_calls(self.log)
        &&& ranks_at_most(self.log, rank_bound(self.stage))
        &&& opened_by_init(self.log)
        &&& self.av_up ==> self.iotc_up
        &&& self.stage_holds()
    }
}

proof fn lemma_push(log: Seq<CallKind>, c: CallKind, b: nat)
    requires
        ranks_ordered(log),
        single_lifecycle_calls(log),
        ranks_at_most(log, b),
        b <= c.rank(),
        !c.is_session_work() ==> b < c.rank(),
    ensures
        ranks_ordered(log.push(c)),
        single_lifecycle_calls(log.push(c)),
        ranks_at_most(log.push(c), c.rank()),
{
    let l = log.push(c);
    assert forall|i: int, j: int| 0 <= i < j < l.len() implies #[trigger] l[i].rank() <= #[trigger] l[j].rank() by {
        if j == log.len() {
            assert(log[i].rank() <= b);
        } else {
            assert(log[i] == l[i] && log[j] == l[j]);
        }
    }
    assert forall|i: int, j: int|
        0 <= i < j < l.len() && #[trigger] l[i] == #[trigger] l[j] implies l[i].is_session_work() by {
        if j == log.len() {
            assert(log[i].rank() <= b);
        } else {
            assert(log[i] == l[i] && log[j] == l[j]);
        }
    }
    assert forall|i: int| 0 <= i < l.len() implies #[trigger] l[i].rank() <= c.rank() by {
        if i < log.len() {
            assert(log[i] == l[i]);
        }
    }
}

/// One peer session and its AV channel over the SDK. The adapter makes no
/// call itself: each operation says which SDK call to make next, and
/// [`IOTC::reply`] takes the call's return code. It owns its session id and
/// AV index exclusively and records every call it asked for.
pub struct IOTC {
    stage: Stage,
    sid: i32,
    av_index: i32,
    channels: i32,
    iotc_up: bool,
    av_up: bool,
    uid: Vec<u8>,
    log: Ghost<Seq<CallKind>>,
}

impl View for IOTC {
    type V = IotcView;

    closed spec fn view(&self) -> IotcView {
        IotcView {
            stage: self.stage,
            sid: self.sid,
            av_index: self.av_index,
            channels: self.channels,
            iotc_up: self.iotc_up,
            av_up: self.av_up,
            uid: self.uid@,
            log: self.log@,
        }
    }
}

impl IOTC {
    pub open spec fn wf(&self) -> bool {
        self@.wf()
    }

    /// Starts construction: the first call is IOTC init against the four
    /// master hostnames; AV init with `channels` follows on its success.
    pub fn new(channels: i32) -> (r: (IOTC, Call))
        ensures
            r.0.wf(),
            r.0@ == (IotcView {
                stage: Stage::AwaitIotcInit,
                sid: -1i32,
                av_index: -1i32,
                channels,
                iotc_up: false,
                av_up: false,
                uid: Seq::empty(),
                log: seq![CallKind::IotcInitialize],
            }),
            r.1@ == (CallSpec::IotcInitialize { masters: masters_spec() }),
    {
        let ghost log = seq![CallKind::IotcInitialize];
        let a = IOTC {
            stage: Stage::AwaitIotcInit,
            sid: -1,
            av_index: -1,
            channels,
            iotc_up: false,
            av_up: false,
            uid: Vec::new(),
            log: Ghost(log),
        };
        (a, Call::IotcInitialize { masters: master_hosts() })
    }

    /// Where the adapter stands.
    pub fn stage(&self) -> (r: Stage)
        ensures
            r == self@.stage,
    {
        self.stage
    }

    /// The session id, -1 when none is owned.
    pub fn sid(&self) -> (r: i32)
        ensures
            r == self@.sid,
    {
        self.sid
    }

    /// The AV index, -1 when none is owned.
    pub fn av_index(&self) -> (r: i32)
        ensures
            r == self@.av_index,
    {
        self.av_index
    }

    /// Records `c` in the log, moves to `stage` and hands `c` out.
    fn issue(&mut self, c: Call, stage: Stage) -> (r: Next)
        requires
            ranks_ordered(old(self)@.log),
            single_lifecycle_calls(old(self)@.log),
            ranks_at_most(old(self)@.log, rank_bound(old(self)@.stage)),
            rank_bound(old(self)@.stage) <= c@.kind().rank(),
            !c@.kind().is_session_work() ==> rank_bound(old(self)@.stage) < c@.kind().rank(),
            c@.kind().rank() <= rank_bound(stage),
        ensures
            r.issued() == Some(c@),
            final(self)@ == (IotcView { stage, log: old(self)@.log.push(c@.kind()), ..old(self)@ }),
            ranks_ordered(final(self)@.log),
            single_lifecycle_calls(final(self)@.log),
            ranks_at_most(final(self)@.log, rank_bound(stage)),
    {
        proof {
            lemma_push(self.log@, c@.kind(), rank_bound(self.stage));
            self.log@ = self.log@.push(c@.kind());
        }
        self.stage = stage;
        Next::Call(c)
    }

    /// Takes the return code of the SDK call the adapter asked for last, and
    /// says what follows. Outside a waiting stage the code is refused.
    pub fn reply(&mut self, code: i32) -> (r: Next)
        requires
            old(self).wf(),
        ensures
            final(self).wf(),
            ({
                let o = old(self)@;
                let f = final(self)@;
                &&& !awaits_reply(o.stage) ==> f == o && r == Next::Done(Err(IotcError::OutOfOrder))
                &&& o.stage == Stage::AwaitIotcInit ==> if code == 0 {
                    &&& f == (IotcView {
                        stage: Stage::AwaitAvInit,
                        iotc_up: true,
                        log: o.log.push(CallKind::AvInitialize),
                        ..o
                    })
                    &&& r.issued() == Some(CallSpec::AvInitialize { channels: o.channels })
                } else {
                    f == (IotcView { stage: Stage::InitFailed, ..o }) && r == Next::Done(
                        Err(IotcError::Init),
                    )
                }
                &&& o.stage == Stage::AwaitAvInit ==> if code == 0 {
                    &&& f == (IotcView {
                        stage: Stage::AwaitVersion,
                        av_up: true,
                        log: o.log.push(CallKind::GetVersion),
                        ..o
                    })
                    &&& r.issued() == Some(CallSpec::GetVersion)
                } else {
                    f == (IotcView { stage: Stage::InitFailed, ..o }) && r == Next::Done(
                        Err(IotcError::Init),
                    )
                }
                &&& o.stage == Stage::AwaitVersion ==> f == (IotcView { stage: Stage::Ready, ..o })
                    && r == Next::Done(Ok(()))
                &&& o.stage == Stage::AwaitSessionId ==> if code >= 0 {
                    &&& f == (IotcView {
                        stage: Stage::AwaitConnect,
                        sid: code,
                        log: o.log.push(CallKind::ConnectByUid),
                        ..o
                    })
                    &&& r.issued() == Some(CallSpec::ConnectByUid { uid: o.uid, sid: code })
                } else {
                    f == (IotcView { stage: Stage::Broken, ..o }) && r == Next::Done(
                        Err(IotcError::Connection),
                    )
                }
                &&& o.stage == Stage::AwaitConnect ==> if code >= 0 {
                    f == (IotcView { stage: Stage::Connected, ..o }) && r == Next::Done(Ok(()))
                } else {
                    f == (IotcView { stage: Stage::Broken, ..o }) && r == Next::Done(
                        Err(IotcError::Connection),
                    )
                }
                &&& o.stage == Stage::AwaitAvStart ==> if code >= 0 {
                    &&& f == (IotcView {
                        stage: Stage::AwaitSessionCheck,
                        av_index: code,
                        log: o.log.push(CallKind::SessionCheck),
                        ..o
                    })
                    &&& r.issued() == Some(CallSpec::SessionCheck { sid: o.sid })
                } else {
                    f == (IotcView { stage: Stage::Broken, ..o }) && r == Next::Done(
                        Err(IotcError::AvOpen),
                    )
                }
                &&& o.stage == Stage::AwaitSessionCheck ==> if code == 0 {
                    f == (IotcView { stage: Stage::AvOpen, ..o }) && r == Next::Done(Ok(()))
                } else {
                    f == (IotcView { stage: Stage::Broken, ..o }) && r == Next::Done(
                        Err(IotcError::AvOpen),
                    )
                }
                &&& o.stage == Stage::AwaitDataDelay ==> if code >= 0 {
                    &&& f == (IotcView {
                        stage: Stage::AwaitIpcamStart,
                        log: o.log.push(CallKind::SendControl),
                        ..o
                    })
                    &&& r.issued() == Some(
                        CallSpec::SendControl {
                            av_index: o.av_index,
                            kind: IOTYPE_USER_IPCAM_START,
                            payload: stream_start_record_of(0),
                        },
                    )
                } else {
                    f == (IotcView { stage: Stage::AvOpen, ..o }) && r == Next::Done(
                        Err(IotcError::Control),
                    )
                }
                &&& o.stage == Stage::AwaitIpcamStart ==> if code >= 0 {
                    f == (IotcView { stage: Stage::Armed, ..o }) && r == Next::Done(Ok(()))
                } else {
                    f == (IotcView { stage: Stage::AvOpen, ..o }) && r == Next::Done(
                        Err(IotcError::Control),
                    )
                }
            }),
    {
        match self.stage {
            Stage::AwaitIotcInit => {
                if code == 0 {
                    self.iotc_up = true;
                    self.issue(Call::AvInitialize { channels: self.channels }, Stage::AwaitAvInit)
                } else {
                    self.stage = Stage::InitFailed;
                    Next::Done(Err(IotcError::Init))
                }
            },
            Stage::AwaitAvInit => {
                if code == 0 {
                    self.av_up = true;
                    self.issue(Call::GetVersion, Stage::AwaitVersion)
                } else {
                    self.stage = Stage::InitFailed;
                    Next::Done(Err(IotcError::Init))
                }
            },
            Stage::AwaitVersion => {
                self.stage = Stage::Ready;
                Next::Done(Ok(()))
            },
            Stage::AwaitSessionId => {
                if code >= 0 {
                    self.sid = code;
                    let uid = self.uid.clone();
                    assert(uid@ =~= self.uid@);
                    self.issue(Call::ConnectByUid { uid, sid: code }, Stage::AwaitConnect)
                } else {
                    self.stage = Stage::Broken;
                    Next::Done(Err(IotcError::Connection))
                }
            },
            Stage::AwaitConnect => {
                if code >= 0 {
                    self.stage = Stage::Connected;
                    Next::Done(Ok(()))
                } else {
                    self.stage = Stage::Broken;
                    Next::Done(Err(IotcError::Connection))
                }
            },
            Stage::AwaitAvStart => {
                if code >= 0 {
                    self.av_index = code;
                    self.issue(Call::SessionCheck { sid: self.sid }, Stage::AwaitSessionCheck)
                } else {
                    self.stage = Stage::Broken;
                    Next::Done(Err(IotcError::AvOpen))
                }
            },
            Stage::AwaitSessionCheck => {
                if code == 0 {
                    self.stage = Stage::AvOpen;
                    Next::Done(Ok(()))
                } else {
                    self.stage = Stage::Broken;
                    Next::Done(Err(IotcError::AvOpen))
                }
            },
            Stage::AwaitDataDelay => {
                if code >= 0 {
                    let c = Call::SendControl {
                        av_index: self.av_index,
                        kind: IOTYPE_USER_IPCAM_START,
                        payload: stream_start_record(0),
                    };
                    self.issue(c, Stage::AwaitIpcamStart)
                } else {
                    self.stage = Stage::AvOpen;
                    Next::Done(Err(IotcError::Control))
                }
            },
            Stage::AwaitIpcamStart => {
                if code >= 0 {
                    self.stage = Stage::Armed;
                    Next::Done(Ok(()))
                } else {
                    self.stage = Stage::AvOpen;
                    Next::Done(Err(IotcError::Control))
                }
            },
            _ => Next::Done(Err(IotcError::OutOfOrder)),
        }
    }

    /// Starts a connect to the device `uid`: a session id is reserved first,
    /// then used for a parallel connect-by-UID. Only a constructed adapter
    /// without a session may connect.
    pub fn connect_to(&mut self, uid: String) -> (r: Next)
        requires
            old(self).wf(),
        ensures
            final(self).wf(),
            ({
                let o = old(self)@;
                let f = final(self)@;
                &&& o.stage != Stage::Ready ==> f == o && r == Next::Done(Err(IotcError::OutOfOrder))
                &&& o.stage == Stage::Ready && c_bytes_of(uid@) is None ==> f == o && r
                    == Next::Done(Err(IotcError::EmbeddedNul))
                &&& o.stage == Stage::Ready && c_bytes_of(uid@) is Some ==> {
                    &&& f == (IotcView {
                        stage: Stage::AwaitSessionId,
                        uid: c_bytes_of(uid@)->0,
                        log: o.log.push(CallKind::GetSessionId),
                        ..o
                    })
                    &&& r.issued() == Some(CallSpec::GetSessionId)
                }
            }),
    {
        if self.stage != Stage::Ready {
            return Next::Done(Err(IotcError::OutOfOrder));
        }
        match to_c_bytes(uid.as_str()) {
            Ok(bytes) => {
                self.uid = bytes;
                self.issue(Call::GetSessionId, Stage::AwaitSessionId)
            },
            Err(_) => Next::Done(Err(IotcError::EmbeddedNul)),
        }
    }

    /// Starts opening the AV client on the connected session, with a fixed
    /// handshake timeout; a session check follows on success.
    pub fn start_av(&mut self, username: String, password: String, channel_id: i32) -> (r: Next)
        requires
            old(self).wf(),
            0 <= channel_id <= 255,
        ensures
            final(self).wf(),
            ({
                let o = old(self)@;
                let f = final(self)@;
                let strings_ok = c_bytes_of(username@) is Some && c_bytes_of(password@) is Some;
                &&& o.stage != Stage::Connected ==> f == o && r == Next::Done(
                    Err(IotcError::OutOfOrder),
                )
                &&& o.stage == Stage::Connected && !strings_ok ==> f == o && r == Next::Done(
                    Err(IotcError::EmbeddedNul),
                )
                &&& o.stage == Stage::Connected && strings_ok ==> {
                    &&& f == (IotcView {
                        stage: Stage::AwaitAvStart,
                        log: o.log.push(CallKind::AvClientStart),
                        ..o
                    })
                    &&& r.issued() == Some(
                        CallSpec::AvClientStart {
                            sid: o.sid,
                            username: c_bytes_of(username@)->0,
                            password: c_bytes_of(password@)->0,
                            timeout_secs: AV_HANDSHAKE_TIMEOUT_SECS,
                            channel_id: channel_id as u8,
                        },
                    )
                }
            }),
    {
        if self.stage != Stage::Connected {
            return Next::Done(Err(IotcError::OutOfOrder));
        }
        let user = match to_c_bytes(username.as_str()) {
            Ok(b) => b,
            Err(_) => return Next::Done(Err(IotcError::EmbeddedNul)),
        };
        let pass = match to_c_bytes(password.as_str()) {
            Ok(b) => b,
            Err(_) => return Next::Done(Err(IotcError::EmbeddedNul)),
        };
        let c = Call::AvClientStart {
            sid: self.sid,
            username: user,
            password: pass,
            timeout_secs: AV_HANDSHAKE_TIMEOUT_SECS,
            channel_id: channel_id as u8,
        };
        self.issue(c, Stage::AwaitAvStart)
    }

    /// Starts arming the stream: a data-delay control with a two-byte zero
    /// payload, then, on its success, the IPCAM start control.
    pub fn start_stream(&mut self) -> (r: Next)
        requires
            old(self).wf(),
        ensures
            final(self).wf(),
            ({
                let o = old(self)@;
                let f = final(self)@;
                &&& o.stage != Stage::AvOpen ==> f == o && r == Next::Done(Err(IotcError::OutOfOrder))
                &&& o.stage == Stage::AvOpen ==> {
                    &&& f == (IotcView {
                        stage: Stage::AwaitDataDelay,
                        log: o.log.push(CallKind::SendControl),
                        ..o
                    })
                    &&& r.issued() == Some(
                        CallSpec::SendControl {
                            av_index: o.av_index,
                            kind: IOTYPE_INNER_SND_DATA_DELAY,
                            payload: seq![0u8, 0u8],
                        },
                    )
                }
            }),
    {
        if self.stage != Stage::AvOpen {
            return Next::Done(Err(IotcError::OutOfOrder));
        }
        let payload: Vec<u8> = vec![0u8, 0u8];
        assert(payload@ =~= seq![0u8, 0u8]);
        let c = Call::SendControl {
            av_index: self.av_index,
            kind: IOTYPE_INNER_SND_DATA_DELAY,
            payload,
        };
        self.issue(c, Stage::AwaitDataDelay)
    }

    /// The drain of the armed stream's AV channel.
    pub fn video_frames(&self) -> (r: Result<Drain, IotcError>)
        requires
            self.wf(),
        ensures
            self@.stage == Stage::Armed <==> r is Ok,
            r is Err ==> r == Err::<Drain, IotcError>(IotcError::OutOfOrder),
            r is Ok ==> r->Ok_0.wf() && r->Ok_0@ == DrainView::start(self@.av_index),
    {
        if self.stage == Stage::Armed {
            Ok(Drain::new(self.av_index))
        } else {
            Err(IotcError::OutOfOrder)
        }
    }

    /// Releases the AV channel and the session: the calls to make are AV
    /// client stop, then session close, each only for an id still owned.
    /// A second stop has nothing left to release.
    pub fn stop(&mut self) -> (r: Vec<Call>)
        requires
            old(self).wf(),
        ensures
            final(self).wf(),
            views(r@) == stop_calls(old(self)@),
            final(self)@ == (IotcView {
                stage: if old(self)@.stage == Stage::ShutDown {
                    Stage::ShutDown
                } else {
                    Stage::Closed
                },
                sid: -1i32,
                av_index: -1i32,
                log: old(self)@.log + kinds(stop_calls(old(self)@)),
                ..old(self)@
            }),
    {
        let ghost o = self@;
        let mut calls: Vec<Call> = Vec::new();
        if self.av_index >= 0 {
            let c = Call::AvClientStop { av_index: self.av_index };
            proof {
                lemma_push(self.log@, c@.kind(), rank_bound(self.stage));
                self.log@ = self.log@.push(c@.kind());
            }
            calls.push(c);
            self.av_index = -1;
        }
        if self.sid >= 0 {
            let c = Call::SessionClose { sid: self.sid };
            proof {
                let b: nat = if o.av_index >= 0 { 4 } else { rank_bound(o.stage) };
                lemma_push(self.log@, c@.kind(), b);
                self.log@ = self.log@.push(c@.kind());
            }
            calls.push(c);
            self.sid = -1;
        }
        if self.stage != Stage::ShutDown {
            self.stage = Stage::Closed;
        }
        assert(views(calls@) =~= stop_calls(o));
        assert(self.log@ =~= o.log + kinds(stop_calls(o)));
        calls
    }

    /// Tears the adapter down: whatever [`IOTC::stop`] still has to release,
    /// then AV deinit and IOTC deinit, each only for a subsystem whose init
    /// succeeded. After it nothing is left to release.
    pub fn shutdown(&mut self) -> (r: Vec<Call>)
        requires
            old(self).wf(),
        ensures
            final(self).wf(),
            views(r@) == stop_calls(old(self)@) + deinit_calls(old(self)@),
            final(self)@ == (IotcView {
                stage: Stage::ShutDown,
                sid: -1i32,
                av_index: -1i32,
                iotc_up: false,
                av_up: false,
                log: old(self)@.log + kinds(stop_calls(old(self)@) + deinit_calls(old(self)@)),
                ..old(self)@
            }),
    {
        let ghost o = self@;
        let mut calls = self.stop();
        let ghost stopped = calls@;
        if self.av_up {
            let c = Call::AvDeinitialize;
            proof {
                lemma_push(self.log@, c@.kind(), rank_bound(self.stage));
                self.log@ = self.log@.push(c@.kind());
            }
            calls.push(c);
        }
        if self.iotc_up {
            let c = Call::IotcDeinitialize;
            proof {
                let b: nat = if o.av_up { 6 } else { rank_bound(self.stage) };
                lemma_push(self.log@, c@.kind(), b);
                self.log@ = self.log@.push(c@.kind());
            }
            calls.push(c);
        }
        self.av_up = false;
        self.iotc_up = false;
        self.stage = Stage::ShutDown;
        assert(views(calls@) =~= views(stopped) + deinit_calls(o));
        assert(kinds(stop_calls(o) + deinit_calls(o)) =~= kinds(stop_calls(o)) + kinds(
            deinit_calls(o),
        ));
        assert(self.log@ =~= o.log + kinds(stop_calls(o) + deinit_calls(o)));
        calls
    }
}

/// IOTC init comes first, AV init after it, and no call works on a session
/// before both inits succeeded and the version probe followed them: AV init
/// is asked for only after IOTC init returned 0, and the probe only after AV
/// init returned 0.
pub proof fn init_precedes_session_work(a: &IOTC, i: int)
    requires
        a.wf(),
        0 <= i < a@.log.len(),
    ensures
        a@.log[0] == CallKind::IotcInitialize,
        a@.log[i] == CallKind::AvInitialize ==> i == 1,
        a@.log[i].is_session_work() ==> i >= 3 && a@.log[1] == CallKind::AvInitialize
            && a@.log[2] == CallKind::GetVersion,
{
    let log = a@.log;
    if log[i] == CallKind::AvInitialize {
        assert(log[0].rank() <= log[i].rank());
        if i > 1 {
            assert(log[1].rank() <= log[i].rank());
            assert(log[1].rank() >= 1) by {
                if log[1].rank() == 0 {
                    assert(log[0].rank() <= log[1].rank());
                }
            }
        }
    }
    if log[i].is_session_work() {
        assert(log.len() >= 3 && log[1] == CallKind::AvInitialize && log[2] == CallKind::GetVersion);
    }
}

/// Teardown runs in order: AV client stop before session close, session
/// close before AV deinit, AV deinit before IOTC deinit.
pub proof fn teardown_in_order(a: &IOTC, i: int, j: int)
    requires
        a.wf(),
        0 <= i < j < a@.log.len(),
    ensures
        a@.log[j] == CallKind::AvClientStop ==> a@.log[i] != CallKind::SessionClose
            && a@.log[i] != CallKind::AvDeinitialize && a@.log[i] != CallKind::IotcDeinitialize,
        a@.log[j] == CallKind::SessionClose ==> a@.log[i] != CallKind::AvDeinitialize
            && a@.log[i] != CallKind::IotcDeinitialize,
        a@.log[j] == CallKind::AvDeinitialize ==> a@.log[i] != CallKind::IotcDeinitialize,
{
    assert(a@.log[i].rank() <= a@.log[j].rank());
}

/// Each stop and each deinit is asked for at most once over the adapter's
/// life, however often stop and teardown are called; so are the inits.
pub proof fn lifecycle_calls_at_most_once(a: &IOTC, i: int, j: int)
    requires
        a.wf(),
        0 <= i < j < a@.log.len(),
        a@.log[i] == a@.log[j],
    ensures
        a@.log[i].is_session_work(),
{
}

} // verus!

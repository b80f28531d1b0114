use vstd::prelude::*;

verus! {

/// Control type that asks the device not to buffer on its side.
pub const IOTYPE_INNER_SND_DATA_DELAY: u32 = 0xFF;

/// Control type that asks the device to start streaming.
pub const IOTYPE_USER_IPCAM_START: u32 = 0x01FF;

/// Seconds the AV client handshake may take.
pub const AV_HANDSHAKE_TIMEOUT_SECS: u32 = 20;

/// Capacity of the buffer that receives one frame's payload.
pub const FRAME_CAPACITY: usize = 2304000;

/// Size of the per-frame info record.
pub const FRAME_INFO_SIZE: usize = 16;

/// Size of the stream-start record sent with the IPCAM start control.
pub const STREAM_START_RECORD_SIZE: usize = 8;

/// One call into the SDK, with the values it is to be given. Strings are
/// already NUL-terminated byte strings.
#[derive(Debug, PartialEq, Eq)]
pub enum Call {
    IotcInitialize { masters: Vec<Vec<u8>> },
    AvInitialize { channels: i32 },
    GetVersion,
    GetSessionId,
    ConnectByUid { uid: Vec<u8>, sid: i32 },
    AvClientStart {
        sid: i32,
        username: Vec<u8>,
        password: Vec<u8>,
        timeout_secs: u32,
        channel_id: u8,
    },
    SessionCheck { sid: i32 },
    SendControl { av_index: i32, kind: u32, payload: Vec<u8> },
    RecvFrame { av_index: i32, buf_capacity: usize, info_capacity: usize },
    AvClientStop { av_index: i32 },
    SessionClose { sid: i32 },
    AvDeinitialize,
    IotcDeinitialize,
}

/// The mathematical value of a [`Call`].
pub ghost enum CallSpec {
    IotcInitialize { masters: Seq<Seq<u8>> },
    AvInitialize { channels: i32 },
    GetVersion,
    GetSessionId,
    ConnectByUid { uid: Seq<u8>, sid: i32 },
    AvClientStart {
        sid: i32,
        username: Seq<u8>,
        password: Seq<u8>,
        timeout_secs: u32,
        channel_id: u8,
    },
    SessionCheck { sid: i32 },
    SendControl { av_index: i32, kind: u32, payload: Seq<u8> },
    RecvFrame { av_index: i32, buf_capacity: usize, info_capacity: usize },
    AvClientStop { av_index: i32 },
    SessionClose { sid: i32 },
    AvDeinitialize,
    IotcDeinitialize,
}

/// Which SDK entry point a call goes to.
#[derive(Debug, Clone, Copy, PartialEq, Eq, Structural)]
pub enum CallKind {
    IotcInitialize,
    AvInitialize,
    GetVersion,
    GetSessionId,
    ConnectByUid,
    AvClientStart,
    SessionCheck,
    SendControl,
    RecvFrame,
    AvClientStop,
    SessionClose,
    AvDeinitialize,
    IotcDeinitialize,
}

impl View for Call {
    type V = CallSpec;

    open spec fn view(&self) -> CallSpec {
        match self {
            Call::IotcInitialize { masters } => CallSpec::IotcInitialize { masters: masters@.map_values(|m: Vec<u8>| m@) },
            Call::AvInitialize { channels } => CallSpec::AvInitialize { channels: *channels },
            Call::GetVersion => CallSpec::GetVersion,
            Call::GetSessionId => CallSpec::GetSessionId,
            Call::ConnectByUid { uid, sid } => CallSpec::ConnectByUid { uid: uid@, sid: *sid },
            Call::AvClientStart { sid, username, password, timeout_secs, channel_id } =>
                CallSpec::AvClientStart {
                    sid: *sid,
                    username: username@,
                    password: password@,
                    timeout_secs: *timeout_secs,
                    channel_id: *channel_id,
                },
            Call::SessionCheck { sid } => CallSpec::SessionCheck { sid: *sid },
            Call::SendControl { av_index, kind, payload } =>
                CallSpec::SendControl { av_index: *av_index, kind: *kind, payload: payload@ },
            Call::RecvFrame { av_index, buf_capacity, info_capacity } =>
                CallSpec::RecvFrame {
                    av_index: *av_index,
                    buf_capacity: *buf_capacity,
                    info_capacity: *info_capacity,
                },
            Call::AvClientStop { av_index } => CallSpec::AvClientStop { av_index: *av_index },
            Call::SessionClose { sid } => CallSpec::SessionClose { sid: *sid },
            Call::AvDeinitialize => CallSpec::AvDeinitialize,
            Call::IotcDeinitialize => CallSpec::IotcDeinitialize,
        }
    }
}

impl CallSpec {
    pub open spec fn kind(self) -> CallKind {
        match self {
            CallSpec::IotcInitialize { .. } => CallKind::IotcInitialize,
            CallSpec::AvInitialize { .. } => CallKind::AvInitialize,
            CallSpec::GetVersion => CallKind::GetVersion,
            CallSpec::GetSessionId => CallKind::GetSessionId,
            CallSpec::ConnectByUid { .. } => CallKind::ConnectByUid,
            CallSpec::AvClientStart { .. } => CallKind::AvClientStart,
            CallSpec::SessionCheck { .. } => CallKind::SessionCheck,
            CallSpec::SendControl { .. } => CallKind::SendControl,
            CallSpec::RecvFrame { .. } => CallKind::RecvFrame,
            CallSpec::AvClientStop { .. } => CallKind::AvClientStop,
            CallSpec::SessionClose { .. } => CallKind::SessionClose,
            CallSpec::AvDeinitialize => CallKind::AvDeinitialize,
            CallSpec::IotcDeinitialize => CallKind::IotcDeinitialize,
        }
    }
}

impl CallKind {
    /// The place of a call in the lifecycle: global init, AV init, version
    /// probe, work on the session, AV stop, session close, AV deinit, IOTC
    /// deinit.
    pub open spec fn rank(self) -> nat {
        match self {
            CallKind::IotcInitialize => 0,
            CallKind::AvInitialize => 1,
            CallKind::GetVersion => 2,
            CallKind::AvClientStop => 4,
            CallKind::SessionClose => 5,
            CallKind::AvDeinitialize => 6,
            CallKind::IotcDeinitialize => 7,
            _ => 3,
        }
    }

    /// Calls that work on a reserved or connected session.
    pub open spec fn is_session_work(self) -> bool {
        self.rank() == 3
    }
}

/// The stream-start record: the channel number in its first byte, the rest
/// zeroed.
pub open spec fn stream_start_record_of(channel: u8) -> Seq<u8> {
    seq![channel, 0u8, 0u8, 0u8, 0u8, 0u8, 0u8, 0u8]
}

/// Builds the stream-start record for `channel`.
pub fn stream_start_record(channel: u8) -> (r: Vec<u8>)
    ensures
        r@ == stream_start_record_of(channel),
        r@.len() == STREAM_START_RECORD_SIZE,
{
    let r: Vec<u8> = vec![channel, 0u8, 0u8, 0u8, 0u8, 0u8, 0u8, 0u8];
    assert(r@ =~= stream_start_record_of(channel));
    r
}

} // verus!

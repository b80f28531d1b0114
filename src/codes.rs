use vstd::prelude::*;

verus! {

/// No frame is waiting in the receive queue.
pub const AV_ER_DATA_NOREADY: i32 = -20012;

/// The frame arrived with parts missing; its payload is discarded.
pub const AV_ER_INCOMPLETE_FRAME: i32 = -20013;

/// The frame was lost in transit.
pub const AV_ER_LOSED_THIS_FRAME: i32 = -20014;

/// The remote device closed the session.
pub const AV_ER_SESSION_CLOSE_BY_REMOTE: i32 = -20015;

/// The remote device stopped answering.
pub const AV_ER_REMOTE_TIMEOUT_DISCONNECT: i32 = -20016;

/// The session id is no longer valid.
pub const IOTC_ER_INVALID_SID: i32 = -14;

/// What one return code of the receive-frame call means.
#[derive(Debug, Clone, Copy, PartialEq, Eq, Structural)]
pub enum RecvCode {
    /// This many payload bytes were delivered into the buffer.
    Delivered(u32),
    NotReady,
    LostFrame,
    IncompleteFrame,
    ClosedByRemote,
    RemoteTimeout,
    InvalidSid,
    /// A negative code outside the documented set.
    Unclassified(i32),
}

/// The meaning of a receive return code.
pub open spec fn recv_code_of(ret: i32) -> RecvCode {
    if ret >= 0 {
        RecvCode::Delivered(ret as u32)
    } else if ret == AV_ER_DATA_NOREADY {
        RecvCode::NotReady
    } else if ret == AV_ER_LOSED_THIS_FRAME {
        RecvCode::LostFrame
    } else if ret == AV_ER_INCOMPLETE_FRAME {
        RecvCode::IncompleteFrame
    } else if ret == AV_ER_SESSION_CLOSE_BY_REMOTE {
        RecvCode::ClosedByRemote
    } else if ret == AV_ER_REMOTE_TIMEOUT_DISCONNECT {
        RecvCode::RemoteTimeout
    } else if ret == IOTC_ER_INVALID_SID {
        RecvCode::InvalidSid
    } else {
        RecvCode::Unclassified(ret)
    }
}

impl RecvCode {
    /// The codes after which the session cannot continue.
    pub open spec fn is_terminal(self) -> bool {
        match self {
            RecvCode::ClosedByRemote | RecvCode::RemoteTimeout | RecvCode::InvalidSid => true,
            _ => false,
        }
    }
}

/// Classifies a return code of the receive-frame call.
pub fn classify(ret: i32) -> (r: RecvCode)
    ensures
        r == recv_code_of(ret),
{
    if ret >= 0 {
        RecvCode::Delivered(ret as u32)
    } else if ret == AV_ER_DATA_NOREADY {
        RecvCode::NotReady
    } else if ret == AV_ER_LOSED_THIS_FRAME {
        RecvCode::LostFrame
    } else if ret == AV_ER_INCOMPLETE_FRAME {
        RecvCode::IncompleteFrame
    } else if ret == AV_ER_SESSION_CLOSE_BY_REMOTE {
        RecvCode::ClosedByRemote
    } else if ret == AV_ER_REMOTE_TIMEOUT_DISCONNECT {
        RecvCode::RemoteTimeout
    } else if ret == IOTC_ER_INVALID_SID {
        RecvCode::InvalidSid
    } else {
        RecvCode::Unclassified(ret)
    }
}

} // verus!

use iotc::calls::{Call, IOTYPE_INNER_SND_DATA_DELAY, IOTYPE_USER_IPCAM_START};
use iotc::marshal::{to_c_bytes, EmbeddedNul};
use iotc::{IotcError, Next, Stage, IOTC};

/// A scripted SDK: it records every call and answers with the next code.
struct MockSdk {
    calls: Vec<Call>,
    codes: Vec<i32>,
}

impl MockSdk {
    fn new(codes: &[i32]) -> MockSdk {
        MockSdk { calls: Vec::new(), codes: codes.iter().rev().copied().collect() }
    }

    fn answer(&mut self, call: Call) -> i32 {
        self.calls.push(call);
        self.codes.pop().expect("the script ran out of codes")
    }

    fn drive(&mut self, a: &mut IOTC, mut next: Next) -> Result<(), IotcError> {
        loop {
            match next {
                Next::Call(call) => {
                    let code = self.answer(call);
                    next = a.reply(code);
                }
                Next::Done(r) => return r,
            }
        }
    }

    fn names(&self) -> Vec<&'static str> {
        self.calls.iter().map(name).collect()
    }
}

fn name(c: &Call) -> &'static str {
    match c {
        Call::IotcInitialize { .. } => "iotc_init",
        Call::AvInitialize { .. } => "av_init",
        Call::GetVersion => "version",
        Call::GetSessionId => "session_id",
        Call::ConnectByUid { .. } => "connect",
        Call::AvClientStart { .. } => "av_start",
        Call::SessionCheck { .. } => "check",
        Call::SendControl { .. } => "control",
        Call::RecvFrame { .. } => "recv",
        Call::AvClientStop { .. } => "av_stop",
        Call::SessionClose { .. } => "close",
        Call::AvDeinitialize => "av_deinit",
        Call::IotcDeinitialize => "iotc_deinit",
    }
}

fn c_str(s: &str) -> Vec<u8> {
    let mut v = s.as_bytes().to_vec();
    v.push(0);
    v
}

/// Constructs, connects, opens AV and arms the stream against `sdk`.
fn armed(sdk: &mut MockSdk) -> IOTC {
    let (mut a, first) = IOTC::new(32);
    assert_eq!(sdk.drive(&mut a, Next::Call(first)), Ok(()));
    let n = a.connect_to("UID123".to_string());
    assert_eq!(sdk.drive(&mut a, n), Ok(()));
    let n = a.start_av("admin".to_string(), String::new(), 1);
    assert_eq!(sdk.drive(&mut a, n), Ok(()));
    let n = a.start_stream();
    assert_eq!(sdk.drive(&mut a, n), Ok(()));
    a
}

#[test]
fn init_runs_iotc_then_av_then_version() {
    let mut sdk = MockSdk::new(&[0, 0, 3]);
    let (mut a, first) = IOTC::new(32);
    match &first {
        Call::IotcInitialize { masters } => {
            assert_eq!(
                masters,
                &vec![
                    c_str("m1.iotcplatform.com"),
                    c_str("m2.iotcplatform.com"),
                    c_str("m4.iotcplatform.com"),
                    c_str("m5.iotcplatform.com"),
                ]
            );
        }
        other => panic!("unexpected first call {:?}", other),
    }
    assert_eq!(sdk.drive(&mut a, Next::Call(first)), Ok(()));
    assert_eq!(sdk.names(), vec!["iotc_init", "av_init", "version"]);
    assert_eq!(sdk.calls[1], Call::AvInitialize { channels: 32 });
    assert_eq!(a.stage(), Stage::Ready);
}

#[test]
fn session_operations_refused_before_init_completes() {
    let (mut a, _first) = IOTC::new(32);
    assert_eq!(a.connect_to("UID".to_string()), Next::Done(Err(IotcError::OutOfOrder)));
    assert_eq!(a.start_av("admin".to_string(), String::new(), 0), Next::Done(Err(IotcError::OutOfOrder)));
    assert_eq!(a.start_stream(), Next::Done(Err(IotcError::OutOfOrder)));
    assert!(a.video_frames().is_err());
    assert_eq!(a.stage(), Stage::AwaitIotcInit);
}

#[test]
fn iotc_init_failure() {
    let mut sdk = MockSdk::new(&[-1]);
    let (mut a, first) = IOTC::new(32);
    assert_eq!(sdk.drive(&mut a, Next::Call(first)), Err(IotcError::Init));
    assert_eq!(sdk.names(), vec!["iotc_init"]);
    assert_eq!(a.stage(), Stage::InitFailed);
    assert_eq!(a.connect_to("UID".to_string()), Next::Done(Err(IotcError::OutOfOrder)));
    assert!(a.shutdown().is_empty());
}

#[test]
fn av_init_failure_deinitializes_iotc_only() {
    let mut sdk = MockSdk::new(&[0, -5]);
    let (mut a, first) = IOTC::new(8);
    assert_eq!(sdk.drive(&mut a, Next::Call(first)), Err(IotcError::Init));
    assert_eq!(a.shutdown(), vec![Call::IotcDeinitialize]);
}

#[test]
fn full_lifecycle_calls_in_order() {
    let mut sdk = MockSdk::new(&[0, 0, 1, 7, 0, 2, 0, 0, 0]);
    let mut a = armed(&mut sdk);
    assert_eq!(
        sdk.names(),
        vec!["iotc_init", "av_init", "version", "session_id", "connect", "av_start", "check", "control", "control"]
    );
    assert_eq!(sdk.calls[4], Call::ConnectByUid { uid: c_str("UID123"), sid: 7 });
    assert_eq!(
        sdk.calls[5],
        Call::AvClientStart {
            sid: 7,
            username: c_str("admin"),
            password: vec![0],
            timeout_secs: 20,
            channel_id: 1,
        }
    );
    assert_eq!(sdk.calls[6], Call::SessionCheck { sid: 7 });
    assert_eq!(
        sdk.calls[7],
        Call::SendControl { av_index: 2, kind: IOTYPE_INNER_SND_DATA_DELAY, payload: vec![0, 0] }
    );
    assert_eq!(
        sdk.calls[8],
        Call::SendControl { av_index: 2, kind: IOTYPE_USER_IPCAM_START, payload: vec![0; 8] }
    );
    assert_eq!(a.stage(), Stage::Armed);
    let d = a.video_frames().expect("armed adapter drains");
    assert_eq!(d.av_index(), 2);
    assert_eq!(
        a.shutdown(),
        vec![
            Call::AvClientStop { av_index: 2 },
            Call::SessionClose { sid: 7 },
            Call::AvDeinitialize,
            Call::IotcDeinitialize,
        ]
    );
    assert_eq!(a.stage(), Stage::ShutDown);
}

#[test]
fn stop_twice_then_shutdown() {
    let mut sdk = MockSdk::new(&[0, 0, 1, 7, 0, 2, 0, 0, 0]);
    let mut a = armed(&mut sdk);
    assert_eq!(a.stop(), vec![Call::AvClientStop { av_index: 2 }, Call::SessionClose { sid: 7 }]);
    assert!(a.stop().is_empty());
    assert_eq!(a.sid(), -1);
    assert_eq!(a.av_index(), -1);
    assert_eq!(a.shutdown(), vec![Call::AvDeinitialize, Call::IotcDeinitialize]);
    assert!(a.shutdown().is_empty());
    assert!(a.stop().is_empty());
}

#[test]
fn control_failure_leaves_stream_unarmed() {
    let mut sdk = MockSdk::new(&[0, 0, 1, 7, 0, 2, 0, -3]);
    let (mut a, first) = IOTC::new(32);
    assert_eq!(sdk.drive(&mut a, Next::Call(first)), Ok(()));
    let n = a.connect_to("UID".to_string());
    assert_eq!(sdk.drive(&mut a, n), Ok(()));
    let n = a.start_av("admin".to_string(), String::new(), 0);
    assert_eq!(sdk.drive(&mut a, n), Ok(()));
    let n = a.start_stream();
    assert_eq!(sdk.drive(&mut a, n), Err(IotcError::Control));
    assert_eq!(sdk.names().iter().filter(|n| **n == "control").count(), 1);
    assert_eq!(a.stage(), Stage::AvOpen);
    assert!(a.video_frames().is_err());
}

#[test]
fn second_control_failure() {
    let mut sdk = MockSdk::new(&[0, 0, 1, 7, 0, 2, 0, 0, -1]);
    let (mut a, first) = IOTC::new(32);
    assert_eq!(sdk.drive(&mut a, Next::Call(first)), Ok(()));
    let n = a.connect_to("UID".to_string());
    assert_eq!(sdk.drive(&mut a, n), Ok(()));
    let n = a.start_av("admin".to_string(), String::new(), 0);
    assert_eq!(sdk.drive(&mut a, n), Ok(()));
    let n = a.start_stream();
    assert_eq!(sdk.drive(&mut a, n), Err(IotcError::Control));
    assert_eq!(a.stage(), Stage::AvOpen);
}

#[test]
fn negative_session_id_is_a_connection_error() {
    let mut sdk = MockSdk::new(&[0, 0, 1, -2]);
    let (mut a, first) = IOTC::new(32);
    assert_eq!(sdk.drive(&mut a, Next::Call(first)), Ok(()));
    let n = a.connect_to("UID".to_string());
    assert_eq!(sdk.drive(&mut a, n), Err(IotcError::Connection));
    assert_eq!(a.stage(), Stage::Broken);
    assert_eq!(a.start_av("admin".to_string(), String::new(), 0), Next::Done(Err(IotcError::OutOfOrder)));
    assert_eq!(a.shutdown(), vec![Call::AvDeinitialize, Call::IotcDeinitialize]);
}

#[test]
fn failed_connect_still_closes_reserved_session() {
    let mut sdk = MockSdk::new(&[0, 0, 1, 4, -9]);
    let (mut a, first) = IOTC::new(32);
    assert_eq!(sdk.drive(&mut a, Next::Call(first)), Ok(()));
    let n = a.connect_to("UID".to_string());
    assert_eq!(sdk.drive(&mut a, n), Err(IotcError::Connection));
    assert_eq!(a.stop(), vec![Call::SessionClose { sid: 4 }]);
}

#[test]
fn av_open_failures() {
    let mut sdk = MockSdk::new(&[0, 0, 1, 4, 0, -20009]);
    let (mut a, first) = IOTC::new(32);
    assert_eq!(sdk.drive(&mut a, Next::Call(first)), Ok(()));
    let n = a.connect_to("UID".to_string());
    assert_eq!(sdk.drive(&mut a, n), Ok(()));
    let n = a.start_av("admin".to_string(), String::new(), 0);
    assert_eq!(sdk.drive(&mut a, n), Err(IotcError::AvOpen));
    assert_eq!(a.av_index(), -1);

    let mut sdk = MockSdk::new(&[0, 0, 1, 4, 0, 3, -1]);
    let (mut a, first) = IOTC::new(32);
    assert_eq!(sdk.drive(&mut a, Next::Call(first)), Ok(()));
    let n = a.connect_to("UID".to_string());
    assert_eq!(sdk.drive(&mut a, n), Ok(()));
    let n = a.start_av("admin".to_string(), String::new(), 0);
    assert_eq!(sdk.drive(&mut a, n), Err(IotcError::AvOpen));
    assert_eq!(a.av_index(), 3);
    assert_eq!(a.stop(), vec![Call::AvClientStop { av_index: 3 }, Call::SessionClose { sid: 4 }]);
}

#[test]
fn embedded_nul_is_refused() {
    let mut sdk = MockSdk::new(&[0, 0, 1, 4, 0]);
    let (mut a, first) = IOTC::new(32);
    assert_eq!(sdk.drive(&mut a, Next::Call(first)), Ok(()));
    assert_eq!(a.connect_to("U\0ID".to_string()), Next::Done(Err(IotcError::EmbeddedNul)));
    assert_eq!(a.stage(), Stage::Ready);
    let n = a.connect_to("UID".to_string());
    assert_eq!(sdk.drive(&mut a, n), Ok(()));
    assert_eq!(a.start_av("ad\0min".to_string(), String::new(), 0), Next::Done(Err(IotcError::EmbeddedNul)));
    assert_eq!(a.start_av("admin".to_string(), "p\0".to_string(), 0), Next::Done(Err(IotcError::EmbeddedNul)));
    assert_eq!(a.stage(), Stage::Connected);
}

#[test]
fn reply_without_pending_call_is_refused() {
    let mut sdk = MockSdk::new(&[0, 0, 1]);
    let (mut a, first) = IOTC::new(32);
    assert_eq!(sdk.drive(&mut a, Next::Call(first)), Ok(()));
    assert_eq!(a.reply(0), Next::Done(Err(IotcError::OutOfOrder)));
    assert_eq!(a.stage(), Stage::Ready);
}

#[test]
fn connect_after_stop_is_refused() {
    let mut sdk = MockSdk::new(&[0, 0, 1]);
    let (mut a, first) = IOTC::new(32);
    assert_eq!(sdk.drive(&mut a, Next::Call(first)), Ok(()));
    assert!(a.stop().is_empty());
    assert_eq!(a.connect_to("UID".to_string()), Next::Done(Err(IotcError::OutOfOrder)));
}

#[test]
fn marshalling_appends_one_terminator() {
    assert_eq!(to_c_bytes("abc"), Ok(vec![b'a', b'b', b'c', 0]));
    assert_eq!(to_c_bytes(""), Ok(vec![0]));
    assert_eq!(to_c_bytes("é"), Ok(vec![0xC3, 0xA9, 0]));
    assert_eq!(to_c_bytes("a\0b"), Err(EmbeddedNul));
}

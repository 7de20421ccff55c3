use radio_stream::activity::{ActivityState, CancelSignal, StopPlan};
use radio_stream::session::{EndReason, GateDecision, Phase, SessionManager, START_THRESHOLD};
use radio_stream::{Error, RadioStation};

fn station(id: &str) -> RadioStation {
    RadioStation::new("http://radio.example/stream", id, "Example FM")
}

fn playing(threshold: usize) -> SessionManager<f32> {
    let mut m = SessionManager::new(threshold);
    m.start(station("a"), 0.5).unwrap();
    m.on_connected(200).unwrap();
    assert_eq!(m.on_buffered(threshold), GateDecision::Launch(0.5));
    m
}

const ALL: StopPlan = StopPlan { download: true, playback: true, volume: true };

#[test]
fn start_creates_a_connecting_session() {
    let mut m: SessionManager<f32> = SessionManager::new(START_THRESHOLD);
    assert!(!m.is_active());
    assert_eq!(m.start(station("a"), 0.7), Ok(()));
    let s = m.current().unwrap();
    assert_eq!(s.phase, Phase::Connecting);
    assert_eq!(s.get_name(), "Example FM");
    assert_eq!(s.get_url(), "http://radio.example/stream");
    assert_eq!(s.volume, 0.7);
    assert_eq!(s.download.state, ActivityState::NotStarted);
    assert_eq!(m.threshold(), 10240);
}

#[test]
fn start_while_active_fails_and_leaves_the_session_alone() {
    let mut m = playing(100);
    assert_eq!(m.start(station("b"), 0.1), Err(Error::SessionActive));
    let s = m.current().unwrap();
    assert_eq!(s.station.stationuuid, "a");
    assert_eq!(s.phase, Phase::Playing);
    assert_eq!(s.volume, 0.5);
}

#[test]
fn start_after_stop_but_before_settle_still_fails() {
    let mut m = playing(100);
    m.stop();
    assert_eq!(m.start(station("b"), 0.1), Err(Error::SessionActive));
    m.settle(true, true, true).unwrap();
    assert_eq!(m.start(station("b"), 0.1), Ok(()));
}

#[test]
fn http_404_is_a_connect_error_and_starts_nothing() {
    let mut m: SessionManager<f32> = SessionManager::new(START_THRESHOLD);
    m.start(station("a"), 0.5).unwrap();
    assert_eq!(m.on_connected(404), Err(Error::Http(404)));
    assert!(!m.is_active());
    assert_eq!(m.on_buffered(1 << 20), GateDecision::Abandon);
    assert_eq!(m.start(station("b"), 0.5), Ok(()));
}

#[test]
fn every_success_status_is_accepted() {
    for status in [200u16, 204, 299] {
        let mut m: SessionManager<f32> = SessionManager::new(10);
        m.start(station("a"), 0.5).unwrap();
        assert_eq!(m.on_connected(status), Ok(()));
        let s = m.current().unwrap();
        assert_eq!(s.phase, Phase::Buffering);
        assert_eq!(s.download.state, ActivityState::Running);
    }
    for status in [199u16, 300, 500] {
        let mut m: SessionManager<f32> = SessionManager::new(10);
        m.start(station("a"), 0.5).unwrap();
        assert_eq!(m.on_connected(status), Err(Error::Http(status)));
        assert!(!m.is_active());
    }
}

#[test]
fn failed_request_is_a_connect_error() {
    let mut m: SessionManager<f32> = SessionManager::new(10);
    m.start(station("a"), 0.5).unwrap();
    assert_eq!(m.on_request_failed(), Error::Request);
    assert!(!m.is_active());
}

#[test]
fn response_after_a_stop_reports_stopped() {
    let mut m: SessionManager<f32> = SessionManager::new(10);
    m.start(station("a"), 0.5).unwrap();
    m.stop();
    assert_eq!(m.on_connected(200), Err(Error::Stopped));
    assert_eq!(m.on_request_failed(), Error::Stopped);
    assert_eq!(m.current().unwrap().phase, Phase::Stopping);
}

#[test]
fn playback_is_not_launched_before_the_threshold() {
    let mut m: SessionManager<f32> = SessionManager::new(10000);
    m.start(station("a"), 0.5).unwrap();
    m.on_connected(200).unwrap();
    assert_eq!(m.on_buffered(9999), GateDecision::Wait);
    let s = m.current().unwrap();
    assert_eq!(s.playback.state, ActivityState::NotStarted);
    assert_eq!(s.volume_worker.state, ActivityState::NotStarted);
    assert_eq!(m.on_buffered(10000), GateDecision::Launch(0.5));
    let s = m.current().unwrap();
    assert_eq!(s.phase, Phase::Playing);
    assert_eq!(s.playback.state, ActivityState::Running);
    assert_eq!(s.volume_worker.state, ActivityState::Running);
    assert_eq!(s.launched_with, 10000);
    assert_eq!(m.on_buffered(20000), GateDecision::Abandon);
}

#[test]
fn gate_before_the_response_abandons() {
    let mut m: SessionManager<f32> = SessionManager::new(10);
    m.start(station("a"), 0.5).unwrap();
    assert_eq!(m.on_buffered(100), GateDecision::Abandon);
}

#[test]
fn stop_fires_every_signal_once() {
    let mut m = playing(100);
    assert_eq!(m.stop(), ALL);
    let s = m.current().unwrap();
    assert_eq!(s.phase, Phase::Stopping);
    assert_eq!(s.end, Some(EndReason::Stopped));
    assert_eq!(s.download.state, ActivityState::Cancelling);
    assert_eq!(s.playback.state, ActivityState::Cancelling);
    assert_eq!(s.volume_worker.state, ActivityState::Cancelling);
}

#[test]
fn stop_twice_fires_nothing_the_second_time() {
    let mut m = playing(100);
    assert_eq!(m.stop(), ALL);
    assert_eq!(m.stop(), StopPlan::none());
    m.settle(true, true, true).unwrap();
    assert_eq!(m.stop(), StopPlan::none());
    assert!(!m.is_active());
}

#[test]
fn stop_without_a_session_does_nothing() {
    let mut m: SessionManager<f32> = SessionManager::new(10);
    assert_eq!(m.stop(), StopPlan::none());
    assert!(m.settle(true, true, true).is_none());
}

#[test]
fn settle_marks_stragglers_aborted_and_leaves_nothing_running() {
    let mut m = playing(100);
    m.stop();
    let s = m.settle(true, false, true).unwrap();
    assert_eq!(s.download.state, ActivityState::Exited);
    assert_eq!(s.playback.state, ActivityState::Aborted);
    assert_eq!(s.volume_worker.state, ActivityState::Exited);
    assert!(!m.is_active());
}

#[test]
fn settle_without_a_stop_changes_nothing() {
    let mut m = playing(100);
    assert!(m.settle(true, true, true).is_none());
    assert_eq!(m.current().unwrap().phase, Phase::Playing);
}

#[test]
fn stop_while_buffering_leaves_unlaunched_workers_unstarted() {
    let mut m: SessionManager<f32> = SessionManager::new(100);
    m.start(station("a"), 0.5).unwrap();
    m.on_connected(200).unwrap();
    assert_eq!(m.stop(), ALL);
    assert_eq!(m.on_buffered(1000), GateDecision::Abandon);
    let s = m.settle(false, false, false).unwrap();
    assert_eq!(s.download.state, ActivityState::Aborted);
    assert_eq!(s.playback.state, ActivityState::NotStarted);
    assert_eq!(s.volume_worker.state, ActivityState::NotStarted);
}

#[test]
fn stream_end_tears_the_session_down() {
    let mut m = playing(100);
    let plan = m.on_stream_ended();
    assert_eq!(plan, ALL);
    let s = m.current().unwrap();
    assert_eq!(s.end, Some(EndReason::StreamEnded));
    assert_eq!(s.download.state, ActivityState::Exited);
    assert_eq!(s.playback.state, ActivityState::Cancelling);
    assert_eq!(m.stop(), StopPlan::none());
    assert_eq!(m.current().unwrap().end, Some(EndReason::StreamEnded));
    assert_eq!(m.on_stream_ended(), StopPlan::none());
}

#[test]
fn playback_failure_ends_the_session_with_that_error() {
    let mut m = playing(100);
    m.on_playback_failed(Error::DeviceOpen);
    let s = m.current().unwrap();
    assert_eq!(s.end, Some(EndReason::Failed(Error::DeviceOpen)));
    assert_eq!(s.playback.state, ActivityState::Exited);
    assert_eq!(s.download.state, ActivityState::Cancelling);
    let s = m.settle(true, true, true).unwrap();
    assert_eq!(s.end, Some(EndReason::Failed(Error::DeviceOpen)));

    let mut m = playing(100);
    m.on_playback_failed(Error::Decode);
    assert_eq!(m.current().unwrap().end, Some(EndReason::Failed(Error::Decode)));
}

#[test]
fn playback_failure_before_launch_changes_nothing() {
    let mut m: SessionManager<f32> = SessionManager::new(100);
    m.start(station("a"), 0.5).unwrap();
    assert_eq!(m.on_playback_failed(Error::Decode), StopPlan::none());
    assert_eq!(m.current().unwrap().phase, Phase::Connecting);
}

#[test]
fn set_volume_latest_value_wins_and_is_forwarded_while_playing() {
    let mut m = playing(100);
    assert!(m.set_volume(0.3));
    assert!(m.set_volume(0.8));
    assert_eq!(m.current().unwrap().volume, 0.8);
}

#[test]
fn volume_set_while_buffering_is_kept_for_the_launch() {
    let mut m: SessionManager<f32> = SessionManager::new(100);
    m.start(station("a"), 0.5).unwrap();
    m.on_connected(200).unwrap();
    assert!(!m.set_volume(0.2));
    assert_eq!(m.on_buffered(100), GateDecision::Launch(0.2));
}

#[test]
fn set_volume_without_a_live_session_is_a_no_op() {
    let mut m: SessionManager<f32> = SessionManager::new(100);
    assert!(!m.set_volume(0.3));
    let mut m = playing(100);
    m.stop();
    assert!(!m.set_volume(0.3));
    assert_eq!(m.current().unwrap().volume, 0.5);
}

#[test]
fn cancel_signal_fires_once() {
    let mut c = CancelSignal::new();
    assert!(!c.fired);
    assert!(c.fire());
    assert!(!c.fire());
    assert!(c.fired);
}

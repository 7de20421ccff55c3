use radio_stream::download::{DownloadEvent, DownloadStep};
use radio_stream::session::{GateDecision, SessionManager};
use radio_stream::{AudioStream, RadioStation};

#[test]
fn new_stream_is_empty() {
    let s = AudioStream::new();
    assert_eq!(s.len(), 0);
}

#[test]
fn bytes_appended_through_the_buffer_handle_are_read_back() {
    let mut s = AudioStream::new();
    s.get_buf().append(&[1, 2, 3]);
    s.get_buf().append(&[4, 5]);
    assert_eq!(s.len(), 5);
    let mut dest = [0u8; 4];
    assert_eq!(s.read(&mut dest), 4);
    assert_eq!(dest, [1, 2, 3, 4]);
    assert_eq!(s.len(), 1);
    assert_eq!(s.get_buf().len(), 1);
}

#[test]
fn read_of_empty_stream_returns_zero_at_once() {
    let mut s = AudioStream::new();
    let mut dest = [9u8; 16];
    assert_eq!(s.read(&mut dest), 0);
    assert_eq!(dest, [9u8; 16]);
    assert_eq!(s.len(), 0);
}

#[test]
fn read_takes_what_fits_and_leaves_the_rest() {
    let mut s = AudioStream::new();
    s.append(&[5, 6, 7]);
    let mut dest = [0u8; 2];
    assert_eq!(s.read(&mut dest), 2);
    assert_eq!(dest, [5, 6]);
    let mut more = [0u8; 4];
    assert_eq!(s.read(&mut more), 1);
    assert_eq!(more, [7, 0, 0, 0]);
    assert_eq!(s.len(), 0);
}

#[test]
fn length_is_appended_minus_read() {
    let mut s = AudioStream::new();
    s.append(&[1; 10]);
    s.append(&[2; 6]);
    let mut dest = [0u8; 7];
    assert_eq!(s.read(&mut dest), 7);
    s.append(&[3; 4]);
    assert_eq!(s.len(), 10 + 6 + 4 - 7);
}

#[test]
fn seek_always_reports_position_zero() {
    let mut s = AudioStream::new();
    s.append(&[1, 2, 3]);
    assert_eq!(s.seek(), 0);
    assert_eq!(s.len(), 3);
}

#[test]
fn absorb_appends_chunks_and_skips_other_events() {
    let mut s = AudioStream::new();
    assert_eq!(s.absorb(&DownloadEvent::Chunk(vec![1, 2])), DownloadStep::Continue);
    assert_eq!(s.absorb(&DownloadEvent::TransportError), DownloadStep::Continue);
    assert_eq!(s.absorb(&DownloadEvent::StreamEnded), DownloadStep::Ended);
    assert_eq!(s.len(), 2);
}

#[test]
fn gate_resolves_only_after_the_third_chunk() {
    let mut m: SessionManager<f32> = SessionManager::new(10000);
    m.start(RadioStation::new("http://radio.example/live", "uuid-1", "Live"), 0.5)
        .unwrap();
    m.on_connected(200).unwrap();
    let mut stream = AudioStream::new();
    let chunk = vec![0u8; 4096];
    stream.get_buf().append(&chunk);
    assert_eq!(m.on_buffered(stream.len()), GateDecision::Wait);
    stream.get_buf().append(&chunk);
    assert_eq!(stream.len(), 8192);
    assert_eq!(m.on_buffered(stream.len()), GateDecision::Wait);
    stream.get_buf().append(&chunk);
    assert_eq!(stream.len(), 12288);
    assert_eq!(m.on_buffered(stream.len()), GateDecision::Launch(0.5));
    assert_eq!(m.current().unwrap().launched_with, 12288);
}

fn shareable<T: Send + Sync + 'static>() {}

#[test]
fn stream_can_be_shared_across_threads() {
    shareable::<std::sync::Arc<std::sync::Mutex<AudioStream>>>();
}

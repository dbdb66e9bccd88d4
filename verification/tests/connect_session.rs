use qobine::connect::{
    convert_audio_quality, map_ws_err, parse_queue_items, state_report, ConnectAction, ConnectSession, NewQueueItem,
    QueueEntry, QueueEvent, QueueEventKind, RendererCommand, TracklistView,
};
use qobine::models::{AudioQuality, PlayerError, Status};
use qobine::protocol::QueueVersion;
use qobine::transport::{connect_transport_config, WsTransportConfig};

fn items(ids: &[u32]) -> Vec<NewQueueItem> {
    ids.iter().map(|&t| NewQueueItem { track_id: t, queue_id: u64::from(t) + 100 }).collect()
}

fn tracklist() -> TracklistView {
    TracklistView { current_queue_id: Some(101), queue_ids: vec![101, 102, 103, 102], track_ids: vec![1, 2, 3, 2], current_position: 0 }
}

fn kinds(actions: &[ConnectAction]) -> Vec<String> {
    actions
        .iter()
        .map(|a| match a {
            ConnectAction::SendRendererJoin { session_uuid } => format!("join {session_uuid}"),
            ConnectAction::NewQueue { items, start_index } => format!("queue {} {:?}", items.len(), start_index),
            ConnectAction::Play => "play".to_string(),
            ConnectAction::Pause => "pause".to_string(),
            ConnectAction::ClearQueue => "clear".to_string(),
            ConnectAction::Seek { position_ms } => format!("seek {position_ms}"),
            ConnectAction::SkipToPosition(i) => format!("skip {i}"),
            ConnectAction::SetVolume(v) => format!("volume {v}"),
            ConnectAction::PublishQueue { position } => format!("publish {position}"),
            ConnectAction::ReportState => "report state".to_string(),
            ConnectAction::ReportVolume => "report volume".to_string(),
            ConnectAction::ReportMaxQuality => "report quality".to_string(),
        })
        .collect()
}

#[test]
fn queue_version_steps() {
    let v = QueueVersion::new(3, 7);
    assert_eq!(v.next_minor(), QueueVersion::new(3, 8));
    assert_eq!(QueueVersion::new(1, u64::MAX).next_minor(), QueueVersion::new(1, u64::MAX));
}

#[test]
fn audio_quality_numbers() {
    assert_eq!(convert_audio_quality(AudioQuality::Mp3), 1);
    assert_eq!(convert_audio_quality(AudioQuality::CD), 2);
    assert_eq!(convert_audio_quality(AudioQuality::HIFI96), 3);
    assert_eq!(convert_audio_quality(AudioQuality::HIFI192), 4);
}

#[test]
fn transport_errors_keep_their_message() {
    assert_eq!(map_ws_err("closed".to_string()), PlayerError::ConnectError { error: "closed".to_string() });
}

#[test]
fn transport_settings() {
    let d = WsTransportConfig::default();
    assert_eq!(d.endpoint_url, "");
    assert_eq!(d.reconnect_max_attempts, Some(10));
    assert_eq!(d.reconnect_backoff_ms, 2_000);
    assert_eq!(d.reconnect_backoff_max_ms, 30_000);
    assert_eq!(d.connect_timeout_ms, 10_000);
    assert_eq!(d.keepalive_interval_ms, 30_000);
    assert_eq!(d.reconnect_idle_retry_ms, 0);
    assert!(!d.require_jwt && d.auto_subscribe && d.jwt_qws.is_none());
    assert_eq!(d.qcloud_proto, 1);
    let c = connect_transport_config("wss://x", "tok");
    assert_eq!(c.endpoint_url, "wss://x");
    assert_eq!(c.jwt_qws.as_deref(), Some("tok"));
    assert!(c.require_jwt);
    assert_eq!(c.reconnect_idle_retry_ms, 60_000);
    assert_eq!(c.subscribe_channels, vec![vec![1u8], vec![2u8], vec![3u8]]);
}

#[test]
fn queue_entries_are_filtered() {
    let entries = vec![
        QueueEntry { track_id: Some(5), queue_item_id: Some(50) },
        QueueEntry { track_id: None, queue_item_id: Some(1) },
        QueueEntry { track_id: Some(u64::from(u32::MAX) + 1), queue_item_id: None },
        QueueEntry { track_id: Some(6), queue_item_id: None },
    ];
    assert_eq!(
        parse_queue_items(&entries),
        [NewQueueItem { track_id: 5, queue_id: 50 }, NewQueueItem { track_id: 6, queue_id: 0 }]
    );
}

#[test]
fn joining_a_session() {
    let mut s = ConnectSession::new(AudioQuality::CD);
    assert_eq!(s.max_audio_quality, 2);
    assert_eq!(s.queue_version, QueueVersion::new(1, 0));
    let join = QueueEvent { queue_version: Some(QueueVersion::new(4, 2)), kind: QueueEventKind::SessionState { session_uuid: Some("s1".to_string()) } };
    assert_eq!(kinds(&s.handle_queue_event(join)), ["join s1"]);
    assert_eq!(s.queue_version, QueueVersion::new(4, 2));
    let again = QueueEvent { queue_version: None, kind: QueueEventKind::SessionState { session_uuid: Some("s1".to_string()) } };
    assert!(s.handle_queue_event(again).is_empty());
    assert_eq!(kinds(&s.renderer_join_sent()), ["report state", "report volume", "report quality"]);
    let other = QueueEvent { queue_version: None, kind: QueueEventKind::SessionState { session_uuid: Some("s2".to_string()) } };
    assert!(s.handle_queue_event(other).is_empty());
    assert_eq!(s.session_uuid.as_deref(), Some("s2"));
}

#[test]
fn loaded_tracks_play_unless_echoed() {
    let mut s = ConnectSession::new(AudioQuality::Mp3);
    let load = QueueEvent { queue_version: None, kind: QueueEventKind::TracksLoaded { items: items(&[1, 2]), queue_position: Some(1) } };
    assert_eq!(kinds(&s.handle_queue_event(load)), ["queue 2 Some(1)", "play"]);
    let echo = QueueEvent { queue_version: None, kind: QueueEventKind::TracksLoaded { items: items(&[1, 2]), queue_position: None } };
    assert_eq!(kinds(&s.handle_queue_event(echo)), ["queue 2 None"]);
    let state = QueueEvent { queue_version: None, kind: QueueEventKind::QueueState { items: items(&[3]) } };
    assert_eq!(kinds(&s.handle_queue_event(state)), ["queue 1 None"]);
    let cleared = QueueEvent { queue_version: None, kind: QueueEventKind::QueueCleared };
    assert_eq!(kinds(&s.handle_queue_event(cleared)), ["clear"]);
}

#[test]
fn renderer_commands() {
    let mut s = ConnectSession::new(AudioQuality::HIFI192);
    let set = RendererCommand::SetState { playing_state: Some(2), current_position_ms: Some(1500), current_queue_item_id: Some(102) };
    assert_eq!(kinds(&s.handle_renderer_command(set, &tracklist())), ["play", "seek 1500", "skip 1"]);
    s.renderer_join_sent();
    let pause = RendererCommand::SetState { playing_state: Some(1), current_position_ms: None, current_queue_item_id: Some(101) };
    assert_eq!(kinds(&s.handle_renderer_command(pause, &tracklist())), ["pause", "report state"]);
    let missing = RendererCommand::SetState { playing_state: Some(9), current_position_ms: None, current_queue_item_id: Some(999) };
    assert_eq!(kinds(&s.handle_renderer_command(missing, &tracklist())), ["report state"]);
    let loud = RendererCommand::SetVolume { volume: Some(250) };
    assert_eq!(kinds(&s.handle_renderer_command(loud, &tracklist())), ["volume 100", "report volume"]);
    let quiet = RendererCommand::SetVolume { volume: Some(30) };
    assert_eq!(kinds(&s.handle_renderer_command(quiet, &tracklist())), ["volume 30", "report volume"]);
}

#[test]
fn activation_publishes_the_local_queue() {
    let mut s = ConnectSession::new(AudioQuality::CD);
    let on = RendererCommand::SetActive { active: Some(true) };
    assert!(s.handle_renderer_command(on, &tracklist()).is_empty());
    assert!(s.is_active);
    s.renderer_join_sent();
    let on = RendererCommand::SetActive { active: Some(true) };
    assert_eq!(
        kinds(&s.handle_renderer_command(on, &tracklist())),
        ["publish 0", "report state", "report volume", "report quality"]
    );
    s.queue_published(vec![1, 2, 3, 2]);
    assert_eq!(kinds(&s.local_queue_changed(&tracklist())), ["report state"]);
    let changed = TracklistView { current_queue_id: None, queue_ids: vec![7], track_ids: vec![7], current_position: 0 };
    assert_eq!(kinds(&s.local_queue_changed(&changed)), ["publish 0", "report state"]);
    let empty = TracklistView { current_queue_id: None, queue_ids: vec![], track_ids: vec![], current_position: 0 };
    assert!(!s.should_publish(&empty.track_ids));
    let off = RendererCommand::SetActive { active: None };
    assert!(s.handle_renderer_command(off, &tracklist()).is_empty());
    assert!(!s.is_active);
    assert!(!s.should_publish(&changed.track_ids));
    assert_eq!(kinds(&s.state_changed()), ["report state"]);
    assert_eq!(kinds(&s.volume_changed()), ["report volume"]);
}

#[test]
fn state_reports() {
    let r = state_report(Status::Buffering, 1234, Some(200), Some(5), None, QueueVersion::new(2, 3));
    assert_eq!(r.playing_state, 3);
    assert_eq!(r.buffer_state, 1);
    assert_eq!(r.current_position, Some(1234));
    assert_eq!(r.duration, Some(200_000));
    assert_eq!(r.current_queue_item_id, Some(5));
    assert_eq!(r.next_queue_item_id, None);
    assert_eq!(r.queue_version, QueueVersion::new(2, 3));
    let p = state_report(Status::Playing, u128::from(u64::MAX) + 1, None, None, Some(6), QueueVersion::new(1, 0));
    assert_eq!((p.playing_state, p.buffer_state), (2, 2));
    assert_eq!(p.current_position, None);
    assert_eq!(p.duration, None);
    let q = state_report(Status::Paused, 0, Some(0), None, None, QueueVersion::new(1, 0));
    assert_eq!((q.playing_state, q.buffer_state, q.duration), (3, 2, Some(0)));
}

#[test]
fn published_queue_is_not_replayed() {
    let mut s = ConnectSession::new(AudioQuality::CD);
    s.queue_published(vec![4, 5]);
    let echo = QueueEvent { queue_version: None, kind: QueueEventKind::TracksLoaded { items: items(&[4, 5]), queue_position: Some(0) } };
    assert_eq!(kinds(&s.handle_queue_event(echo)), ["queue 2 Some(0)"]);
    s.queue_published(vec![4, 5]);
    let other = QueueEvent { queue_version: None, kind: QueueEventKind::TracksLoaded { items: items(&[5, 4]), queue_position: None } };
    assert_eq!(kinds(&s.handle_queue_event(other)), ["queue 2 None", "play"]);
}

//! The decisions of a Connect renderer session: what the player does when
//! the cloud sends queue events and renderer commands, when the local
//! queue is published, and what is reported back.  The caller talks to the
//! cloud and the player and performs the returned [`ConnectAction`]s.

use vstd::prelude::*;
use crate::models::{AudioQuality, PlayerError, Status};
use crate::protocol::QueueVersion;

verus! {

/// `playing_state` of a stopped renderer.
pub const PLAYING_STATE_STOPPED: i64 = 1;
/// `playing_state` of a playing renderer.
pub const PLAYING_STATE_PLAYING: i64 = 2;
/// `playing_state` of a paused renderer.
pub const PLAYING_STATE_PAUSED: i64 = 3;
/// `buffer_state` while buffering.
pub const BUFFER_STATE_BUFFERING: i32 = 1;
/// `buffer_state` when the buffer is ready.
pub const BUFFER_STATE_OK: i32 = 2;
/// `device_type` of a computer.
pub const DEVICE_TYPE_COMPUTER: i32 = 5;
/// Lowest audio quality the renderer accepts.
pub const MIN_AUDIO_QUALITY: i32 = 1;
/// `volume_remote_control` capability of the renderer.
pub const VOLUME_REMOTE_CONTROL: i32 = 2;

/// The protocol's number for an audio quality.
pub open spec fn spec_audio_quality(q: AudioQuality) -> i32 {
    match q {
        AudioQuality::Mp3 => 1,
        AudioQuality::CD => 2,
        AudioQuality::HIFI96 => 3,
        AudioQuality::HIFI192 => 4,
    }
}

/// The protocol's number for an audio quality.
pub fn convert_audio_quality(max_audio_quality: AudioQuality) -> (q: i32)
    ensures
        q == spec_audio_quality(max_audio_quality),
{
    match max_audio_quality {
        AudioQuality::Mp3 => 1,
        AudioQuality::CD => 2,
        AudioQuality::HIFI96 => 3,
        AudioQuality::HIFI192 => 4,
    }
}

/// The player error for a failure of the transport, carrying its message.
pub fn map_ws_err(message: String) -> (e: PlayerError)
    ensures
        e == (PlayerError::ConnectError { error: message }),
{
    PlayerError::ConnectError { error: message }
}

/// A track to put in the player's queue.
#[derive(Debug, Clone, Copy, PartialEq, Eq, Structural)]
pub struct NewQueueItem {
    pub track_id: u32,
    pub queue_id: u64,
}

/// One entry of a queue in a cloud message: its `track_id` and
/// `queue_item_id` when they are unsigned integers.
#[derive(Debug, Clone, Copy, PartialEq, Eq, Structural)]
pub struct QueueEntry {
    pub track_id: Option<u64>,
    pub queue_item_id: Option<u64>,
}

/// The queue item of an entry: none without a track id or with one that
/// does not fit in 32 bits; the queue item id is 0 when missing.
pub open spec fn entry_item(e: QueueEntry) -> Option<NewQueueItem> {
    match e.track_id {
        Some(t) => if t <= u32::MAX {
            Some(NewQueueItem { track_id: t as u32, queue_id: match e.queue_item_id { Some(q) => q, None => 0 } })
        } else {
            None
        },
        None => None,
    }
}

/// The queue items of the entries that have one, in order.
pub open spec fn spec_queue_items(entries: Seq<QueueEntry>) -> Seq<NewQueueItem>
    decreases entries.len(),
{
    if entries.len() == 0 {
        seq![]
    } else {
        let rest = spec_queue_items(entries.drop_last());
        match entry_item(entries.last()) {
            Some(i) => rest.push(i),
            None => rest,
        }
    }
}

/// The queue items of a cloud message's entries.
pub fn parse_queue_items(entries: &Vec<QueueEntry>) -> (r: Vec<NewQueueItem>)
    ensures
        r@ == spec_queue_items(entries@),
{
    let mut r: Vec<NewQueueItem> = Vec::new();
    let mut i: usize = 0;
    while i < entries.len()
        invariant
            i <= entries.len(),
            r@ == spec_queue_items(entries@.take(i as int)),
        decreases entries.len() - i,
    {
        assert(entries@.take(i + 1).drop_last() =~= entries@.take(i as int));
        let e = entries[i];
        match e.track_id {
            Some(t) => {
                if t <= u32::MAX as u64 {
                    let q = match e.queue_item_id {
                        Some(q) => q,
                        None => 0,
                    };
                    r.push(NewQueueItem { track_id: t as u32, queue_id: q });
                }
            },
            None => {},
        }
        i = i + 1;
    }
    assert(entries@.take(entries.len() as int) =~= entries@);
    r
}

/// The track ids of queue items, in order.
pub open spec fn track_ids_of(items: Seq<NewQueueItem>) -> Seq<u32> {
    items.map_values(|i: NewQueueItem| i.track_id)
}

fn track_ids(items: &Vec<NewQueueItem>) -> (r: Vec<u32>)
    ensures
        r@ == track_ids_of(items@),
{
    let mut r: Vec<u32> = Vec::new();
    let mut i: usize = 0;
    while i < items.len()
        invariant
            i <= items.len(),
            r@ == track_ids_of(items@.take(i as int)),
        decreases items.len() - i,
    {
        r.push(items[i].track_id);
        i = i + 1;
        assert(r@ =~= track_ids_of(items@.take(i as int)));
    }
    assert(items@.take(items.len() as int) =~= items@);
    r
}

fn same_ids(a: &Vec<u32>, b: &Vec<u32>) -> (r: bool)
    ensures
        r == (a@ == b@),
{
    if a.len() != b.len() {
        return false;
    }
    let mut i: usize = 0;
    while i < a.len()
        invariant
            a.len() == b.len(),
            i <= a.len(),
            forall|k: int| 0 <= k < i ==> a@[k] == b@[k],
        decreases a.len() - i,
    {
        if a[i] != b[i] {
            return false;
        }
        i = i + 1;
    }
    assert(a@ =~= b@);
    true
}

/// What a queue event from the cloud is about.
pub enum QueueEventKind {
    /// The state of the session, with its id when the message has one.
    SessionState { session_uuid: Option<String> },
    /// The whole queue, to replace the local one.
    QueueState { items: Vec<NewQueueItem> },
    /// Tracks were loaded, with the position to start at when given.
    TracksLoaded { items: Vec<NewQueueItem>, queue_position: Option<u64> },
    QueueCleared,
    Other,
}

/// A queue event from the cloud.
pub struct QueueEvent {
    pub queue_version: Option<QueueVersion>,
    pub kind: QueueEventKind,
}

/// A renderer command from the cloud.
pub enum RendererCommand {
    /// Set the playing state, position and current track, each when given.
    SetState { playing_state: Option<i64>, current_position_ms: Option<u64>, current_queue_item_id: Option<u64> },
    /// Set the volume, in percent, when given.
    SetVolume { volume: Option<u64> },
    /// Make the renderer active or not (inactive when not given).
    SetActive { active: Option<bool> },
    Other,
}

/// What the player's track list holds, as far as the session needs it.
pub struct TracklistView {
    /// Queue item id of the current track, if any.
    pub current_queue_id: Option<u64>,
    /// Queue item ids of the queue, in order.
    pub queue_ids: Vec<u64>,
    /// Track ids of the queue, in order.
    pub track_ids: Vec<u32>,
    /// Position of the current track in the queue.
    pub current_position: usize,
}

/// Work the caller performs for the session.
pub enum ConnectAction {
    /// Join the session with this id as a renderer, then call
    /// `renderer_join_sent` when the message was sent.
    SendRendererJoin { session_uuid: String },
    /// Replace the player's queue, starting at the given position if any.
    NewQueue { items: Vec<NewQueueItem>, start_index: Option<usize> },
    Play,
    Pause,
    ClearQueue,
    Seek { position_ms: u64 },
    SkipToPosition(usize),
    /// Set the player's volume to this many percent (0 to 100).
    SetVolume(u32),
    /// Send the track ids of the track list that was handed in, starting
    /// at the given position, then call `queue_published` when they were
    /// sent.
    PublishQueue { position: usize },
    ReportState,
    ReportVolume,
    ReportMaxQuality,
}

/// The state of a Connect renderer session.
pub struct ConnectSession {
    pub max_audio_quality: i32,
    pub queue_version: QueueVersion,
    pub session_uuid: Option<String>,
    pub renderer_joined: bool,
    pub is_active: bool,
    pub last_pushed_queue: Option<Vec<u32>>,
}

/// The last queue exchanged with the cloud, as track ids.
pub open spec fn pushed_view(q: Option<Vec<u32>>) -> Option<Seq<u32>> {
    match q {
        Some(v) => Some(v@),
        None => None,
    }
}

/// Whether loaded tracks start playback: unless they are, track for
/// track, the queue last exchanged with the cloud (an echo of what this
/// player published or was sent).
pub open spec fn loads_start_playback(last_exchanged: Option<Seq<u32>>, items: Seq<NewQueueItem>) -> bool {
    last_exchanged != Some(track_ids_of(items))
}

/// Tracks loaded that are the queue this player just published do not
/// start playback again; any other tracks do.
pub proof fn lemma_published_queue_is_not_replayed(published: Seq<u32>, items: Seq<NewQueueItem>)
    ensures
        track_ids_of(items) == published ==> !loads_start_playback(Some(published), items),
        track_ids_of(items) != published ==> loads_start_playback(Some(published), items),
{
}

/// The reports sent after the renderer joined or became active: state,
/// volume and best quality, in that order.
pub open spec fn all_reports() -> Seq<ConnectAction> {
    seq![ConnectAction::ReportState, ConnectAction::ReportVolume, ConnectAction::ReportMaxQuality]
}

/// The first position of `id` in `ids`, if it is there.
pub open spec fn first_position(ids: Seq<u64>, id: u64) -> Option<usize> {
    if exists|i: int| 0 <= i < ids.len() && ids[i] == id {
        let i = choose|i: int| 0 <= i < ids.len() && ids[i] == id && forall|j: int| 0 <= j < i ==> ids[j] != id;
        Some(i as usize)
    } else {
        None
    }
}

fn find_position(ids: &Vec<u64>, id: u64) -> (r: Option<usize>)
    ensures
        match r {
            Some(i) => i < ids.len() && ids@[i as int] == id && forall|j: int| 0 <= j < i ==> ids@[j] != id,
            None => forall|j: int| 0 <= j < ids.len() ==> ids@[j] != id,
        },
{
    let mut i: usize = 0;
    while i < ids.len()
        invariant
            i <= ids.len(),
            forall|j: int| 0 <= j < i ==> ids@[j] != id,
        decreases ids.len() - i,
    {
        if ids[i] == id {
            return Some(i);
        }
        i = i + 1;
    }
    None
}

impl ConnectSession {
    /// A session not yet joined, at queue version 1.0, reporting the given
    /// best quality.
    pub fn new(max_audio_quality: AudioQuality) -> (s: Self)
        ensures
            s.max_audio_quality == spec_audio_quality(max_audio_quality),
            s.queue_version == (QueueVersion { major: 1, minor: 0 }),
            s.session_uuid is None,
            !s.renderer_joined,
            !s.is_active,
            s.last_pushed_queue is None,
    {
        ConnectSession {
            max_audio_quality: convert_audio_quality(max_audio_quality),
            queue_version: QueueVersion::new(1, 0),
            session_uuid: None,
            renderer_joined: false,
            is_active: false,
            last_pushed_queue: None,
        }
    }

    /// The reports to send: all of them once the renderer has joined, none
    /// before.
    pub open spec fn reports(self) -> Seq<ConnectAction> {
        if self.renderer_joined { all_reports() } else { seq![] }
    }

    /// The local queue to publish: only when the renderer has joined and
    /// is active, the queue is not empty and differs from the last queue
    /// exchanged with the cloud.
    pub open spec fn spec_publish(self, track_ids: Seq<u32>) -> bool {
        &&& self.renderer_joined
        &&& self.is_active
        &&& track_ids.len() > 0
        &&& pushed_view(self.last_pushed_queue) != Some(track_ids)
    }

    fn report_actions(&self) -> (r: Vec<ConnectAction>)
        ensures
            r@ == self.reports(),
    {
        let mut r: Vec<ConnectAction> = Vec::new();
        if self.renderer_joined {
            r.push(ConnectAction::ReportState);
            r.push(ConnectAction::ReportVolume);
            r.push(ConnectAction::ReportMaxQuality);
        }
        assert(r@ =~= self.reports());
        r
    }

    fn last_pushed_is(&self, ids: &Vec<u32>) -> (r: bool)
        ensures
            r == (pushed_view(self.last_pushed_queue) == Some(ids@)),
    {
        match &self.last_pushed_queue {
            Some(v) => same_ids(v, ids),
            None => false,
        }
    }

    /// Whether the local queue (its track ids) is to be published.
    pub fn should_publish(&self, track_ids: &Vec<u32>) -> (b: bool)
        ensures
            b == self.spec_publish(track_ids@),
    {
        self.renderer_joined && self.is_active && track_ids.len() > 0 && !self.last_pushed_is(track_ids)
    }

    /// Acts on a queue event: takes its queue version when it has one;
    /// joins a newly announced session as a renderer (once); replaces the
    /// player's queue with the cloud's queue, remembering it as the last
    /// queue exchanged; starts playback on loaded tracks unless they are
    /// the queue this player just published; clears the queue.
    pub fn handle_queue_event(&mut self, event: QueueEvent) -> (r: Vec<ConnectAction>)
        ensures
            final(self).queue_version == (match event.queue_version { Some(v) => v, None => old(self).queue_version }),
            final(self).renderer_joined == old(self).renderer_joined,
            final(self).is_active == old(self).is_active,
            final(self).max_audio_quality == old(self).max_audio_quality,
            match event.kind {
                QueueEventKind::SessionState { session_uuid } => {
                    &&& pushed_view(final(self).last_pushed_queue) == pushed_view(old(self).last_pushed_queue)
                    &&& match session_uuid {
                        Some(u) => if !(old(self).session_uuid matches Some(c) && c@ == u@) {
                            &&& final(self).session_uuid == Some(u)
                            &&& r@ == (if old(self).renderer_joined { seq![] } else { seq![ConnectAction::SendRendererJoin { session_uuid: u }] })
                        } else {
                            &&& final(self).session_uuid == old(self).session_uuid
                            &&& r@.len() == 0
                        },
                        None => final(self).session_uuid == old(self).session_uuid && r@.len() == 0,
                    }
                },
                QueueEventKind::QueueState { items } => {
                    &&& final(self).session_uuid == old(self).session_uuid
                    &&& pushed_view(final(self).last_pushed_queue) == Some(track_ids_of(items@))
                    &&& r@ == seq![ConnectAction::NewQueue { items, start_index: None }]
                },
                QueueEventKind::TracksLoaded { items, queue_position } => {
                    let start = match queue_position {
                        Some(p) => if p <= usize::MAX { Some(p as usize) } else { None },
                        None => None,
                    };
                    let echo = !loads_start_playback(pushed_view(old(self).last_pushed_queue), items@);
                    &&& final(self).session_uuid == old(self).session_uuid
                    &&& pushed_view(final(self).last_pushed_queue) == Some(track_ids_of(items@))
                    &&& r@ == if echo {
                        seq![ConnectAction::NewQueue { items, start_index: start }]
                    } else {
                        seq![ConnectAction::NewQueue { items, start_index: start }, ConnectAction::Play]
                    }
                },
                QueueEventKind::QueueCleared => {
                    &&& final(self).session_uuid == old(self).session_uuid
                    &&& pushed_view(final(self).last_pushed_queue) == pushed_view(old(self).last_pushed_queue)
                    &&& r@ == seq![ConnectAction::ClearQueue]
                },
                QueueEventKind::Other => {
                    &&& final(self).session_uuid == old(self).session_uuid
                    &&& pushed_view(final(self).last_pushed_queue) == pushed_view(old(self).last_pushed_queue)
                    &&& r@.len() == 0
                },
            },
    {
        match event.queue_version {
            Some(v) => {
                self.queue_version = v;
            },
            None => {},
        }
        let mut r: Vec<ConnectAction> = Vec::new();
        match event.kind {
            QueueEventKind::SessionState { session_uuid } => {
                match session_uuid {
                    Some(u) => {
                        let same = match &self.session_uuid {
                            Some(cur) => cur.eq(&u),
                            None => false,
                        };
                        if !same {
                            self.session_uuid = Some(u.clone());
                            if !self.renderer_joined {
                                r.push(ConnectAction::SendRendererJoin { session_uuid: u });
                            }
                        }
                    },
                    None => {},
                }
            },
            QueueEventKind::QueueState { items } => {
                let ids = track_ids(&items);
                self.last_pushed_queue = Some(ids);
                r.push(ConnectAction::NewQueue { items, start_index: None });
            },
            QueueEventKind::TracksLoaded { items, queue_position } => {
                let ids = track_ids(&items);
                let is_echo = self.last_pushed_is(&ids);
                self.last_pushed_queue = Some(ids);
                let start: Option<usize> = match queue_position {
                    Some(p) => if p <= usize::MAX as u64 { Some(p as usize) } else { None },
                    None => None,
                };
                r.push(ConnectAction::NewQueue { items, start_index: start });
                if !is_echo {
                    r.push(ConnectAction::Play);
                }
            },
            QueueEventKind::QueueCleared => {
                r.push(ConnectAction::ClearQueue);
            },
            QueueEventKind::Other => {},
        }
        r
    }

    /// The renderer join was sent: the renderer counts as joined and
    /// reports its state, volume and best quality.
    pub fn renderer_join_sent(&mut self) -> (r: Vec<ConnectAction>)
        ensures
            final(self).renderer_joined,
            final(self).is_active == old(self).is_active,
            final(self).queue_version == old(self).queue_version,
            final(self).session_uuid == old(self).session_uuid,
            pushed_view(final(self).last_pushed_queue) == pushed_view(old(self).last_pushed_queue),
            r@ == all_reports(),
    {
        self.renderer_joined = true;
        self.report_actions()
    }

    /// The local queue (these track ids) was sent to the cloud.
    pub fn queue_published(&mut self, track_ids: Vec<u32>)
        ensures
            pushed_view(final(self).last_pushed_queue) == Some(track_ids@),
            final(self).renderer_joined == old(self).renderer_joined,
            final(self).is_active == old(self).is_active,
            final(self).queue_version == old(self).queue_version,
            final(self).session_uuid == old(self).session_uuid,
    {
        self.last_pushed_queue = Some(track_ids);
    }

    /// The publication of the local queue, when it is due.
    pub open spec fn publish_actions(self, tracklist: TracklistView) -> Seq<ConnectAction> {
        if self.spec_publish(tracklist.track_ids@) {
            seq![ConnectAction::PublishQueue { position: tracklist.current_position }]
        } else {
            seq![]
        }
    }

    fn publish_if_due(&self, tracklist: &TracklistView, r: &mut Vec<ConnectAction>)
        ensures
            final(r)@ == old(r)@ + self.publish_actions(*tracklist),
    {
        if self.should_publish(&tracklist.track_ids) {
            r.push(ConnectAction::PublishQueue { position: tracklist.current_position });
        }
        assert(final(r)@ =~= old(r)@ + self.publish_actions(*tracklist));
    }

    /// What to do when the local queue changed: publish it when due, then
    /// report the state.
    pub fn local_queue_changed(&self, tracklist: &TracklistView) -> (r: Vec<ConnectAction>)
        ensures
            r@ == self.publish_actions(*tracklist) + (if self.renderer_joined { seq![ConnectAction::ReportState] } else { seq![] }),
    {
        let mut r: Vec<ConnectAction> = Vec::new();
        self.publish_if_due(tracklist, &mut r);
        if self.renderer_joined {
            r.push(ConnectAction::ReportState);
        }
        assert(r@ =~= self.publish_actions(*tracklist) + (if self.renderer_joined { seq![ConnectAction::ReportState] } else { seq![] }));
        r
    }

    /// What a position, status or heartbeat change reports: the state,
    /// once joined.
    pub fn state_changed(&self) -> (r: Vec<ConnectAction>)
        ensures
            r@ == (if self.renderer_joined { seq![ConnectAction::ReportState] } else { seq![] }),
    {
        let mut r: Vec<ConnectAction> = Vec::new();
        if self.renderer_joined {
            r.push(ConnectAction::ReportState);
        }
        assert(r@ =~= (if self.renderer_joined { seq![ConnectAction::ReportState] } else { seq![] }));
        r
    }

    /// What a volume change reports: the volume, once joined.
    pub fn volume_changed(&self) -> (r: Vec<ConnectAction>)
        ensures
            r@ == (if self.renderer_joined { seq![ConnectAction::ReportVolume] } else { seq![] }),
    {
        let mut r: Vec<ConnectAction> = Vec::new();
        if self.renderer_joined {
            r.push(ConnectAction::ReportVolume);
        }
        assert(r@ =~= (if self.renderer_joined { seq![ConnectAction::ReportVolume] } else { seq![] }));
        r
    }

    /// Acts on a renderer command, `tracklist` being the player's track
    /// list at that moment: a new state plays (2) or pauses (1 or 3),
    /// seeks to the given position and skips to the first queue entry with
    /// the given queue item id unless it is the current one, then reports
    /// the state; a new volume is applied, capped at 100 percent, then
    /// reported; becoming active publishes the local queue when due and
    /// sends all reports, becoming inactive only records it.
    pub fn handle_renderer_command(&mut self, command: RendererCommand, tracklist: &TracklistView) -> (r: Vec<ConnectAction>)
        ensures
            final(self).renderer_joined == old(self).renderer_joined,
            final(self).queue_version == old(self).queue_version,
            final(self).session_uuid == old(self).session_uuid,
            pushed_view(final(self).last_pushed_queue) == pushed_view(old(self).last_pushed_queue),
            match command {
                RendererCommand::SetState { playing_state, current_position_ms, current_queue_item_id } => {
                    let play: Seq<ConnectAction> = match playing_state {
                        Some(p) => if p == PLAYING_STATE_PLAYING {
                            seq![ConnectAction::Play]
                        } else if p == PLAYING_STATE_STOPPED || p == PLAYING_STATE_PAUSED {
                            seq![ConnectAction::Pause]
                        } else {
                            seq![]
                        },
                        None => seq![],
                    };
                    let seek: Seq<ConnectAction> = match current_position_ms {
                        Some(ms) => seq![ConnectAction::Seek { position_ms: ms }],
                        None => seq![],
                    };
                    let skip: Seq<ConnectAction> = match current_queue_item_id {
                        Some(t) => if tracklist.current_queue_id != Some(t) {
                            match first_position(tracklist.queue_ids@, t) {
                                Some(i) => seq![ConnectAction::SkipToPosition(i)],
                                None => seq![],
                            }
                        } else {
                            seq![]
                        },
                        None => seq![],
                    };
                    &&& final(self).is_active == old(self).is_active
                    &&& r@ == play + seek + skip + (if old(self).renderer_joined { seq![ConnectAction::ReportState] } else { seq![] })
                },
                RendererCommand::SetVolume { volume } => {
                    let set: Seq<ConnectAction> = match volume {
                        Some(v) => seq![ConnectAction::SetVolume(if v > 100 { 100u32 } else { v as u32 })],
                        None => seq![],
                    };
                    &&& final(self).is_active == old(self).is_active
                    &&& r@ == set + (if old(self).renderer_joined { seq![ConnectAction::ReportVolume] } else { seq![] })
                },
                RendererCommand::SetActive { active } => {
                    let a = match active { Some(b) => b, None => false };
                    &&& final(self).is_active == a
                    &&& r@ == (if a { final(self).publish_actions(*tracklist) + final(self).reports() } else { seq![] })
                },
                RendererCommand::Other => {
                    &&& final(self).is_active == old(self).is_active
                    &&& r@.len() == 0
                },
            },
    {
        let mut r: Vec<ConnectAction> = Vec::new();
        match command {
            RendererCommand::SetState { playing_state, current_position_ms, current_queue_item_id } => {
                match playing_state {
                    Some(p) => {
                        if p == PLAYING_STATE_PLAYING {
                            r.push(ConnectAction::Play);
                        } else if p == PLAYING_STATE_STOPPED || p == PLAYING_STATE_PAUSED {
                            r.push(ConnectAction::Pause);
                        }
                    },
                    None => {},
                }
                let ghost r1 = r@;
                match current_position_ms {
                    Some(ms) => {
                        r.push(ConnectAction::Seek { position_ms: ms });
                    },
                    None => {},
                }
                let ghost r2 = r@;
                match current_queue_item_id {
                    Some(t) => {
                        let is_current = match tracklist.current_queue_id {
                            Some(c) => c == t,
                            None => false,
                        };
                        if !is_current {
                            match find_position(&tracklist.queue_ids, t) {
                                Some(i) => {
                                    proof {
                                        assert(exists|k: int| 0 <= k < tracklist.queue_ids@.len() && tracklist.queue_ids@[k] == t);
                                        let c = choose|k: int| 0 <= k < tracklist.queue_ids@.len() && tracklist.queue_ids@[k] == t && forall|j: int| 0 <= j < k ==> tracklist.queue_ids@[j] != t;
                                        assert(c == i);
                                    }
                                    r.push(ConnectAction::SkipToPosition(i));
                                },
                                None => {},
                            }
                        }
                    },
                    None => {},
                }
                let ghost r3 = r@;
                if self.renderer_joined {
                    r.push(ConnectAction::ReportState);
                }
                proof {
                    let play: Seq<ConnectAction> = match playing_state {
                        Some(p) => if p == PLAYING_STATE_PLAYING {
                            seq![ConnectAction::Play]
                        } else if p == PLAYING_STATE_STOPPED || p == PLAYING_STATE_PAUSED {
                            seq![ConnectAction::Pause]
                        } else {
                            seq![]
                        },
                        None => seq![],
                    };
                    assert(r1 =~= play);
                }
                assert(r@ =~= r3 + (if self.renderer_joined { seq![ConnectAction::ReportState] } else { seq![] }));
            },
            RendererCommand::SetVolume { volume } => {
                match volume {
                    Some(v) => {
                        let pct: u32 = if v > 100 { 100 } else { v as u32 };
                        r.push(ConnectAction::SetVolume(pct));
                    },
                    None => {},
                }
                let ghost r1 = r@;
                if self.renderer_joined {
                    r.push(ConnectAction::ReportVolume);
                }
                assert(r@ =~= r1 + (if self.renderer_joined { seq![ConnectAction::ReportVolume] } else { seq![] }));
            },
            RendererCommand::SetActive { active } => {
                let a = match active {
                    Some(b) => b,
                    None => false,
                };
                self.is_active = a;
                if a {
                    self.publish_if_due(tracklist, &mut r);
                    let reports = self.report_actions();
                    let ghost r1 = r@;
                    let mut k: usize = 0;
                    let mut rep = reports;
                    let ghost all = rep@;
                    while rep.len() > 0
                        invariant
                            k + rep.len() == all.len(),
                            all.len() <= 3,
                            rep@ == all.subrange(k as int, all.len() as int),
                            r@ == r1 + all.take(k as int),
                        decreases rep.len(),
                    {
                        let x = rep.remove(0);
                        r.push(x);
                        k = k + 1;
                        assert(r@ =~= r1 + all.take(k as int));
                    }
                    assert(all.take(all.len() as int) =~= all);
                } else {
                    assert(r@ =~= Seq::<ConnectAction>::empty());
                }
            },
            RendererCommand::Other => {},
        }
        r
    }
}

/// What the state report tells the cloud.
pub struct StateReport {
    pub playing_state: i64,
    pub buffer_state: i32,
    /// Position in the current track, in milliseconds, when it fits in 64 bits.
    pub current_position: Option<u64>,
    /// Duration of the current track in milliseconds, if there is one.
    pub duration: Option<u64>,
    pub current_queue_item_id: Option<u64>,
    pub next_queue_item_id: Option<u64>,
    pub queue_version: QueueVersion,
}

/// The state report for a playback status, a position in milliseconds,
/// the duration in seconds of the current track (if any), the queue item
/// ids of the current and next tracks, and the queue version: playing
/// reports playing, buffering and paused report paused; buffering reports
/// a buffer that is not ready.
pub fn state_report(
    status: Status,
    position_ms: u128,
    current_duration_seconds: Option<u32>,
    current_queue_item_id: Option<u64>,
    next_queue_item_id: Option<u64>,
    queue_version: QueueVersion,
) -> (r: StateReport)
    ensures
        r.playing_state == (if status == Status::Playing { PLAYING_STATE_PLAYING } else { PLAYING_STATE_PAUSED }),
        r.buffer_state == (if status == Status::Buffering { BUFFER_STATE_BUFFERING } else { BUFFER_STATE_OK }),
        r.current_position == (if position_ms <= u64::MAX { Some(position_ms as u64) } else { None }),
        r.duration == (match current_duration_seconds { Some(s) => Some((s * 1000) as u64), None => None }),
        r.current_queue_item_id == current_queue_item_id,
        r.next_queue_item_id == next_queue_item_id,
        r.queue_version == queue_version,
{
    let playing_state = match status {
        Status::Playing => PLAYING_STATE_PLAYING,
        Status::Buffering | Status::Paused => PLAYING_STATE_PAUSED,
    };
    let buffer_state = match status {
        Status::Playing | Status::Paused => BUFFER_STATE_OK,
        Status::Buffering => BUFFER_STATE_BUFFERING,
    };
    let current_position = if position_ms <= u64::MAX as u128 { Some(position_ms as u64) } else { None };
    let duration = match current_duration_seconds {
        Some(s) => Some((s as u64) * 1000),
        None => None,
    };
    StateReport {
        playing_state,
        buffer_state,
        current_position,
        duration,
        current_queue_item_id,
        next_queue_item_id,
        queue_version,
    }
}

/// A session that has joined reports what changed; one that has not
/// joined yet reports nothing, whatever happens.
pub proof fn lemma_no_reports_before_join(s: ConnectSession)
    requires
        !s.renderer_joined,
    ensures
        s.reports().len() == 0,
        !s.spec_publish(seq![1u32]),
{
}

} // verus!

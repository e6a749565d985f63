//! What the Qt front end knows of playback: the state shown, the metadata
//! of the tracks it queued, and the commands it sends to the player thread.

use vstd::prelude::*;
use vstd::string::*;
use crate::data::catalog::Track;
use crate::data::playback::QueueBehavior;
use crate::text::{decimal, decimal_string, is_base62_id, spec_base62_id, trim, trimmed};
use crate::text_map::TextMap;

verus! {

/// The sending half of a `crossbeam_channel` channel.
#[verifier::external_type_specification]
#[verifier::external_body]
#[verifier::reject_recursive_types(T)]
pub struct ExSender<T>(crossbeam_channel::Sender<T>);

/// The receiving half of a `crossbeam_channel` channel.
#[verifier::external_type_specification]
#[verifier::external_body]
#[verifier::reject_recursive_types(T)]
pub struct ExReceiver<T>(crossbeam_channel::Receiver<T>);

/// What the player shows itself doing.
#[derive(Clone, Copy, Debug, PartialEq, Eq, Structural)]
pub enum PlaybackUiState {
    Loading,
    Playing,
    Paused,
    Blocked,
    Stopped,
}

/// The name of a player state as the QML side shows it.
pub open spec fn ui_state_name(s: PlaybackUiState) -> Seq<char> {
    match s {
        PlaybackUiState::Loading => "Loading"@,
        PlaybackUiState::Playing => "Playing"@,
        PlaybackUiState::Paused => "Paused"@,
        PlaybackUiState::Blocked => "Blocked"@,
        PlaybackUiState::Stopped => "Stopped"@,
    }
}

impl PlaybackUiState {
    /// The name of this state.
    pub fn as_str(self) -> (r: &'static str)
        ensures
            r@ == ui_state_name(self),
    {
        match self {
            PlaybackUiState::Loading => "Loading",
            PlaybackUiState::Playing => "Playing",
            PlaybackUiState::Paused => "Paused",
            PlaybackUiState::Blocked => "Blocked",
            PlaybackUiState::Stopped => "Stopped",
        }
    }
}

/// A track for the player to load, by its base-62 id; the player normalizes
/// its loudness at track level.
pub struct PlaybackItem {
    pub item_id: String,
}

/// An order for the player thread.
pub enum PlayerCommand {
    /// Replace the queue and start at `position`.
    LoadQueue { items: Vec<PlaybackItem>, position: usize },
    /// Play one track.
    LoadAndPlay { item: PlaybackItem },
    PauseOrResume,
    Previous,
    Next,
    Stop,
    /// Seek to a position given in nanoseconds.
    Seek { position_nanos: u128 },
    /// Set the volume; the `f64` volume is carried by its bits.
    SetVolume { volume_bits: u64 },
    /// Change how the queue advances.
    SetQueueBehavior { behavior: QueueBehavior },
}

/// What passes through the player's channel: commands in, and the player's
/// reports of what it does.
pub enum PlayerEvent {
    Command(PlayerCommand),
    Loading { item: PlaybackItem },
    Playing { item_id: String, position_nanos: u128 },
    Pausing { item_id: String, position_nanos: u128 },
    Resuming { item_id: String, position_nanos: u128 },
    Position { item_id: String, position_nanos: u128 },
    Blocked { item_id: String, position_nanos: u128 },
    Stopped,
    /// A report that the shown state does not follow.
    Other,
}

/// What is shown of a track that was queued.
pub struct TrackMetadata {
    pub title: String,
    pub artist: String,
    pub album: String,
    pub duration_nanos: u128,
}

/// The metadata of a catalog track.
pub open spec fn metadata_of(t: Track) -> TrackMetadata {
    TrackMetadata { title: t.name, artist: t.artist_names, album: t.album_name, duration_nanos: t.duration_nanos }
}

/// The metadata known after recording `tracks` in order.
pub open spec fn registered(m: Map<Seq<char>, TrackMetadata>, tracks: Seq<Track>) -> Map<Seq<char>, TrackMetadata>
    decreases tracks.len(),
{
    if tracks.len() == 0 {
        m
    } else {
        registered(m, tracks.drop_last()).insert(tracks.last().id@, metadata_of(tracks.last()))
    }
}

/// The queue position asked for, moved to the last track when past it.
pub open spec fn clamped_position(position: usize, len: nat) -> int {
    if position < len - 1 {
        position as int
    } else {
        len - 1
    }
}

/// `"<n> track(s) queued"`.
pub open spec fn queued_text(n: nat) -> Seq<char> {
    decimal(n) + " track(s) queued"@
}

/// The title known for a track id, or the id itself.
pub open spec fn known_title(m: Map<Seq<char>, TrackMetadata>, id: Seq<char>) -> Seq<char> {
    if m.contains_key(id) {
        m[id].title@
    } else {
        id
    }
}

/// The shown state with the known metadata of `id`, when it is known.
pub open spec fn with_metadata(s: SnapshotView, m: Map<Seq<char>, TrackMetadata>, id: Seq<char>) -> SnapshotView {
    if m.contains_key(id) {
        SnapshotView {
            title: m[id].title@,
            artist: m[id].artist@,
            album: m[id].album@,
            duration_nanos: m[id].duration_nanos,
            ..s
        }
    } else {
        s
    }
}

/// The shown state after a report of the player: the state, position and
/// status it reports, with the reported track's metadata; a stop resets the
/// position; other reports change nothing.
pub open spec fn shown_after(s: SnapshotView, m: Map<Seq<char>, TrackMetadata>, e: PlayerEvent) -> SnapshotView {
    match e {
        PlayerEvent::Loading { item } => with_metadata(
            SnapshotView { state: PlaybackUiState::Loading, status: "Loading track"@, ..s },
            m,
            item.item_id@,
        ),
        PlayerEvent::Playing { item_id, position_nanos } => with_metadata(
            SnapshotView { state: PlaybackUiState::Playing, progress_nanos: position_nanos, status: "Playing"@, ..s },
            m,
            item_id@,
        ),
        PlayerEvent::Pausing { item_id, position_nanos } => with_metadata(
            SnapshotView { state: PlaybackUiState::Paused, progress_nanos: position_nanos, status: "Paused"@, ..s },
            m,
            item_id@,
        ),
        PlayerEvent::Resuming { item_id, position_nanos } => with_metadata(
            SnapshotView { state: PlaybackUiState::Playing, progress_nanos: position_nanos, status: "Playing"@, ..s },
            m,
            item_id@,
        ),
        PlayerEvent::Position { item_id, position_nanos } => with_metadata(
            SnapshotView { state: PlaybackUiState::Playing, progress_nanos: position_nanos, status: "Playing"@, ..s },
            m,
            item_id@,
        ),
        PlayerEvent::Blocked { item_id, position_nanos } => with_metadata(
            SnapshotView { state: PlaybackUiState::Blocked, progress_nanos: position_nanos, status: "Buffering"@, ..s },
            m,
            item_id@,
        ),
        PlayerEvent::Stopped => SnapshotView {
            state: PlaybackUiState::Stopped,
            progress_nanos: 0,
            status: "Stopped"@,
            ..s
        },
        _ => s,
    }
}

/// The state of playback as shown; the volume is an `f64` carried by its bits.
pub struct PlaybackSnapshot {
    pub state: PlaybackUiState,
    pub title: String,
    pub artist: String,
    pub album: String,
    pub progress_nanos: u128,
    pub duration_nanos: u128,
    pub volume_bits: u64,
    pub queue_summary: String,
    pub status: String,
    pub shuffle: bool,
}

/// The shown state of playback, as views.
#[verifier::ext_equal]
pub struct SnapshotView {
    pub state: PlaybackUiState,
    pub title: Seq<char>,
    pub artist: Seq<char>,
    pub album: Seq<char>,
    pub progress_nanos: u128,
    pub duration_nanos: u128,
    pub volume_bits: u64,
    pub queue_summary: Seq<char>,
    pub status: Seq<char>,
    pub shuffle: bool,
}

impl View for PlaybackSnapshot {
    type V = SnapshotView;

    open spec fn view(&self) -> SnapshotView {
        SnapshotView {
            state: self.state,
            title: self.title@,
            artist: self.artist@,
            album: self.album@,
            progress_nanos: self.progress_nanos,
            duration_nanos: self.duration_nanos,
            volume_bits: self.volume_bits,
            queue_summary: self.queue_summary@,
            status: self.status@,
            shuffle: self.shuffle,
        }
    }
}

/// The bits of the `f64` 1.0: full volume.
pub open spec fn full_volume_bits() -> u64 {
    0x3ff0_0000_0000_0000
}

/// The shown state before anything is played.
pub open spec fn default_snapshot() -> SnapshotView {
    SnapshotView {
        state: PlaybackUiState::Stopped,
        title: "Nothing playing"@,
        artist: "Select a track to start playback"@,
        album: Seq::empty(),
        progress_nanos: 0,
        duration_nanos: 0,
        volume_bits: full_volume_bits(),
        queue_summary: "Queue is empty"@,
        status: "Playback service is idle"@,
        shuffle: false,
    }
}

impl PlaybackSnapshot {
    /// Nothing playing, full volume, an empty queue.
    pub fn idle() -> (r: Self)
        ensures
            r@ == default_snapshot(),
    {
        PlaybackSnapshot {
            state: PlaybackUiState::Stopped,
            title: String::from_str("Nothing playing"),
            artist: String::from_str("Select a track to start playback"),
            album: String::new(),
            progress_nanos: 0,
            duration_nanos: 0,
            volume_bits: 0x3ff0_0000_0000_0000,
            queue_summary: String::from_str("Queue is empty"),
            status: String::from_str("Playback service is idle"),
            shuffle: false,
        }
    }

    /// A copy of this state.
    pub fn copy(&self) -> (r: Self)
        ensures
            r@ == self@,
    {
        PlaybackSnapshot {
            state: self.state,
            title: self.title.clone(),
            artist: self.artist.clone(),
            album: self.album.clone(),
            progress_nanos: self.progress_nanos,
            duration_nanos: self.duration_nanos,
            volume_bits: self.volume_bits,
            queue_summary: self.queue_summary.clone(),
            status: self.status.clone(),
            shuffle: self.shuffle,
        }
    }
}

/// Sends on a channel with `crossbeam_channel::Sender::send`. Whether it
/// succeeds depends on whether the receiving side still exists, and is not
/// stated; a failure carries the error's message, which the crate's
/// `Display` of `SendError` writes as "sending on a disconnected channel".
/// The senders given here all come from `unbounded_channel`, on which the
/// call never waits for room.
#[verifier::external_body]
fn send_event(sender: &crossbeam_channel::Sender<PlayerEvent>, event: PlayerEvent) -> (r: Result<(), String>)
    ensures
        r matches Err(e) ==> e@ == "sending on a disconnected channel"@,
{
    match sender.send(event) {
        Ok(()) => Ok(()),
        Err(err) => Err(err.to_string()),
    }
}

/// A new channel with `crossbeam_channel::unbounded`: a sender, whose sends
/// never wait for room, and its receiver. Nothing is claimed of the pair.
#[verifier::external_body]
fn unbounded_channel() -> (crossbeam_channel::Sender<PlayerEvent>, crossbeam_channel::Receiver<PlayerEvent>) {
    crossbeam_channel::unbounded()
}

/// The playback side of the front end: the channel to the player, the shown
/// state, the metadata of queued tracks by id, and, as a record for the
/// contracts, every command handed to the channel.
pub struct QtPlaybackService {
    sender: crossbeam_channel::Sender<PlayerEvent>,
    snapshot: PlaybackSnapshot,
    metadata: TextMap<TrackMetadata>,
    sent: Ghost<Seq<PlayerCommand>>,
}

/// The ids of the items of a queue, in order.
pub open spec fn item_ids(items: Seq<PlaybackItem>) -> Seq<Seq<char>> {
    items.map_values(|i: PlaybackItem| i.item_id@)
}

/// The ids of tracks, in order.
pub open spec fn track_ids(tracks: Seq<Track>) -> Seq<Seq<char>> {
    tracks.map_values(|t: Track| t.id@)
}

/// Whether `c` replaces the queue with the tracks `ids`, starting at
/// `position`.
pub open spec fn loads_queue(c: PlayerCommand, ids: Seq<Seq<char>>, position: int) -> bool {
    c matches PlayerCommand::LoadQueue { items, position: p } && item_ids(items@) == ids && p == position
}

/// Whether `c` plays the one track `id`.
pub open spec fn plays_item(c: PlayerCommand, id: Seq<char>) -> bool {
    c matches PlayerCommand::LoadAndPlay { item } && item.item_id@ == id
}

/// The queue behaviour that shuffling on or off asks for.
pub open spec fn shuffle_behavior(shuffle: bool) -> QueueBehavior {
    if shuffle {
        QueueBehavior::Random
    } else {
        QueueBehavior::Sequential
    }
}

impl QtPlaybackService {
    /// The metadata map is well formed.
    pub closed spec fn well_formed(&self) -> bool {
        self.metadata.well_formed()
    }

    /// The shown state.
    pub closed spec fn shown(&self) -> SnapshotView {
        self.snapshot@
    }

    /// The metadata known, by track id.
    pub closed spec fn known(&self) -> Map<Seq<char>, TrackMetadata> {
        self.metadata.as_map()
    }

    /// The commands handed to the player's channel, oldest first.
    pub closed spec fn sent(&self) -> Seq<PlayerCommand> {
        self.sent@
    }

    /// Hands `command` to the player's channel and records it.
    fn send_command(&mut self, command: PlayerCommand) -> (r: Result<(), String>)
        ensures
            final(self).sent() == old(self).sent().push(command),
            final(self).shown() == old(self).shown(),
            final(self).known() == old(self).known(),
            final(self).well_formed() == old(self).well_formed(),
            r matches Err(e) ==> e@ == "sending on a disconnected channel"@,
    {
        let ghost c = command;
        self.sent = Ghost(self.sent@.push(c));
        send_event(&self.sender, PlayerEvent::Command(command))
    }

    /// A service that is ready, with a new unbounded channel whose receiver
    /// is given to the player: the volume set to `volume_bits` and told to
    /// the player first. Fails with the channel's message when the send
    /// fails.
    pub fn new(volume_bits: u64) -> (r: Result<(Self, crossbeam_channel::Receiver<PlayerEvent>), String>)
        ensures
            r matches Ok(p) ==> p.0.well_formed() && p.0.shown() == (SnapshotView {
                volume_bits,
                status: "Playback service is ready"@,
                ..default_snapshot()
            }) && p.0.known() == Map::<Seq<char>, TrackMetadata>::empty() && p.0.sent() == seq![
                PlayerCommand::SetVolume { volume_bits },
            ],
            r matches Err(e) ==> e@ == "sending on a disconnected channel"@,
    {
        let (sender, receiver) = unbounded_channel();
        let mut snapshot = PlaybackSnapshot::idle();
        snapshot.volume_bits = volume_bits;
        snapshot.status = String::from_str("Playback service is ready");
        let mut service = QtPlaybackService {
            sender,
            snapshot,
            metadata: TextMap::new(),
            sent: Ghost(Seq::empty()),
        };
        match service.send_command(PlayerCommand::SetVolume { volume_bits }) {
            Err(e) => Err(e),
            Ok(()) => {
                assert(service.sent() =~= seq![PlayerCommand::SetVolume { volume_bits }]);
                Ok((service, receiver))
            },
        }
    }

    /// Sends a command; a failure is dropped, as the player being gone
    /// leaves nothing to do.
    pub fn send(&mut self, command: PlayerCommand)
        ensures
            final(self).sent() == old(self).sent().push(command),
            final(self).shown() == old(self).shown(),
            final(self).known() == old(self).known(),
            final(self).well_formed() == old(self).well_formed(),
    {
        let _ = self.send_command(command);
    }

    /// A copy of the shown state.
    pub fn snapshot(&self) -> (r: PlaybackSnapshot)
        ensures
            r@ == self.shown(),
    {
        self.snapshot.copy()
    }

    /// The metadata of a track.
    fn track_metadata(track: &Track) -> (r: TrackMetadata)
        ensures
            r == metadata_of(*track),
    {
        TrackMetadata {
            title: track.name.clone(),
            artist: track.artist_names.clone(),
            album: track.album_name.clone(),
            duration_nanos: track.duration_nanos,
        }
    }

    /// Records the metadata of `tracks`, later tracks overriding earlier
    /// ones with the same id.
    pub fn register_tracks(&mut self, tracks: &Vec<Track>)
        requires
            old(self).well_formed(),
        ensures
            final(self).well_formed(),
            final(self).known() == registered(old(self).known(), tracks@),
            final(self).shown() == old(self).shown(),
            final(self).sent() == old(self).sent(),
    {
        let mut i: usize = 0;
        while i < tracks.len()
            invariant
                self.well_formed(),
                i <= tracks@.len(),
                self.known() == registered(old(self).known(), tracks@.take(i as int)),
                self.shown() == old(self).shown(),
                self.sent() == old(self).sent(),
            decreases tracks.len() - i,
        {
            let t = &tracks[i];
            self.metadata.insert(t.id.clone(), Self::track_metadata(t));
            assert(tracks@.take(i + 1).drop_last() =~= tracks@.take(i as int));
            i = i + 1;
        }
        assert(tracks@.take(tracks@.len() as int) =~= tracks@);
    }

    /// Queues `tracks` and starts at `position`, moved to the last track when
    /// past it; registers their metadata first. Fails, with nothing changed,
    /// when there are no tracks, and with the channel's message when the
    /// player is gone.
    pub fn play_tracks(&mut self, tracks: &Vec<Track>, position: usize) -> (r: Result<String, String>)
        requires
            old(self).well_formed(),
        ensures
            final(self).well_formed(),
            tracks@.len() == 0 ==> (r matches Err(e) && e@ == "No tracks to play"@) && final(self).known()
                == old(self).known() && final(self).shown() == old(self).shown(),
            tracks@.len() > 0 ==> final(self).known() == registered(old(self).known(), tracks@),
            r matches Ok(m) ==> tracks@.len() > 0 && m@ == "Playing "@ + tracks@[clamped_position(position, tracks@.len())].name@
                && final(self).shown() == (SnapshotView {
                    queue_summary: queued_text(tracks@.len()),
                    status: "Loading queue"@,
                    ..old(self).shown()
                }),
            r matches Err(e) ==> final(self).shown() == old(self).shown() && (tracks@.len() == 0 || e@
                == "sending on a disconnected channel"@),
            tracks@.len() == 0 ==> final(self).sent() == old(self).sent(),
            tracks@.len() > 0 ==> final(self).sent().len() == old(self).sent().len() + 1 && final(self).sent().drop_last()
                == old(self).sent() && loads_queue(
                final(self).sent().last(),
                track_ids(tracks@),
                clamped_position(position, tracks@.len()),
            ),
    {
        if tracks.len() == 0 {
            return Err(String::from_str("No tracks to play"));
        }
        self.register_tracks(tracks);
        let mut items: Vec<PlaybackItem> = Vec::new();
        let mut i: usize = 0;
        while i < tracks.len()
            invariant
                i <= tracks@.len(),
                items@.len() == i,
                item_ids(items@) == track_ids(tracks@.take(i as int)),
            decreases tracks.len() - i,
        {
            let ghost prev = items@;
            let id = tracks[i].id.clone();
            assert(id@ == tracks@[i as int].id@);
            items.push(PlaybackItem { item_id: id });
            assert(items@ == prev.push(PlaybackItem { item_id: id }));
            assert forall|k: int| 0 <= k < i + 1 implies #[trigger] item_ids(items@)[k] == track_ids(tracks@.take(i + 1))[k] by {
                if k < i {
                    assert(items@[k] == prev[k]);
                    assert(item_ids(prev)[k] == track_ids(tracks@.take(i as int))[k]);
                }
            }
            assert(item_ids(items@) =~= track_ids(tracks@.take(i + 1)));
            i = i + 1;
        }
        assert(tracks@.take(tracks@.len() as int) =~= tracks@);
        let last = tracks.len() - 1;
        let position = if position < last {
            position
        } else {
            last
        };
        let ghost before = self.sent();
        let ghost command = PlayerCommand::LoadQueue { items, position };
        assert(loads_queue(command, track_ids(tracks@), clamped_position(position, tracks@.len())));
        let outcome = self.send_command(PlayerCommand::LoadQueue { items, position });
        assert(self.sent().drop_last() =~= before);
        match outcome {
            Err(e) => Err(e),
            Ok(()) => {
                let mut summary = decimal_string(tracks.len() as u128);
                summary.append(" track(s) queued");
                self.snapshot.queue_summary = summary;
                self.snapshot.status = String::from_str("Loading queue");
                let mut message = String::from_str("Playing ");
                message.append(tracks[position].name.as_str());
                Ok(message)
            },
        }
    }

    /// Plays one track by its base-62 id, named by its known title or else
    /// by its id; fails with the channel's message when the player is gone.
    pub fn play_track_id(&mut self, id: &str) -> (r: Result<String, String>)
        requires
            old(self).well_formed(),
            spec_base62_id(id@),
        ensures
            final(self).well_formed(),
            final(self).known() == old(self).known(),
            final(self).sent().len() == old(self).sent().len() + 1,
            final(self).sent().drop_last() == old(self).sent(),
            plays_item(final(self).sent().last(), id@),
            r matches Ok(m) ==> m@ == "Playing "@ + known_title(old(self).known(), id@) && final(self).shown()
                == (SnapshotView {
                    status: "Loading track"@,
                    queue_summary: "Single track playback"@,
                    ..old(self).shown()
                }),
            r matches Err(e) ==> e@ == "sending on a disconnected channel"@ && final(self).shown() == old(self).shown(),
    {
        let title = match self.metadata.get(id) {
            Some(m) => m.title.clone(),
            None => String::from_str(id),
        };
        let item = PlaybackItem { item_id: String::from_str(id) };
        let ghost before = self.sent();
        let outcome = self.send_command(PlayerCommand::LoadAndPlay { item });
        assert(self.sent().drop_last() =~= before);
        match outcome {
            Err(e) => Err(e),
            Ok(()) => {
                self.snapshot.status = String::from_str("Loading track");
                self.snapshot.queue_summary = String::from_str("Single track playback");
                let mut message = String::from_str("Playing ");
                message.append(title.as_str());
                Ok(message)
            },
        }
    }

    /// Shows the known metadata of the track with id `item_id`, if any.
    fn apply_metadata(&mut self, item_id: &str)
        requires
            old(self).well_formed(),
        ensures
            final(self).well_formed(),
            final(self).known() == old(self).known(),
            final(self).shown() == with_metadata(old(self).shown(), old(self).known(), item_id@),
            final(self).sent() == old(self).sent(),
    {
        match self.metadata.get(item_id) {
            Some(track) => {
                self.snapshot.title = track.title.clone();
                self.snapshot.artist = track.artist.clone();
                self.snapshot.album = track.album.clone();
                self.snapshot.duration_nanos = track.duration_nanos;
            },
            None => {},
        }
    }

    /// Follows a report of the player in the shown state.
    pub fn update_from_event(&mut self, event: &PlayerEvent)
        requires
            old(self).well_formed(),
        ensures
            final(self).well_formed(),
            final(self).known() == old(self).known(),
            final(self).shown() == shown_after(old(self).shown(), old(self).known(), *event),
            final(self).sent() == old(self).sent(),
    {
        match event {
            PlayerEvent::Loading { item } => {
                self.snapshot.state = PlaybackUiState::Loading;
                self.snapshot.status = String::from_str("Loading track");
                self.apply_metadata(item.item_id.as_str());
            },
            PlayerEvent::Playing { item_id, position_nanos } => {
                self.snapshot.state = PlaybackUiState::Playing;
                self.snapshot.progress_nanos = *position_nanos;
                self.snapshot.status = String::from_str("Playing");
                self.apply_metadata(item_id.as_str());
            },
            PlayerEvent::Pausing { item_id, position_nanos } => {
                self.snapshot.state = PlaybackUiState::Paused;
                self.snapshot.progress_nanos = *position_nanos;
                self.snapshot.status = String::from_str("Paused");
                self.apply_metadata(item_id.as_str());
            },
            PlayerEvent::Resuming { item_id, position_nanos } => {
                self.snapshot.state = PlaybackUiState::Playing;
                self.snapshot.progress_nanos = *position_nanos;
                self.snapshot.status = String::from_str("Playing");
                self.apply_metadata(item_id.as_str());
            },
            PlayerEvent::Position { item_id, position_nanos } => {
                self.snapshot.state = PlaybackUiState::Playing;
                self.snapshot.progress_nanos = *position_nanos;
                self.snapshot.status = String::from_str("Playing");
                self.apply_metadata(item_id.as_str());
            },
            PlayerEvent::Blocked { item_id, position_nanos } => {
                self.snapshot.state = PlaybackUiState::Blocked;
                self.snapshot.progress_nanos = *position_nanos;
                self.snapshot.status = String::from_str("Buffering");
                self.apply_metadata(item_id.as_str());
            },
            PlayerEvent::Stopped => {
                self.snapshot.state = PlaybackUiState::Stopped;
                self.snapshot.progress_nanos = 0;
                self.snapshot.status = String::from_str("Stopped");
            },
            _ => {},
        }
    }

    /// Records the volume shown and tells it to the player.
    pub fn set_volume_bits(&mut self, volume_bits: u64)
        requires
            old(self).well_formed(),
        ensures
            final(self).well_formed(),
            final(self).known() == old(self).known(),
            final(self).shown() == (SnapshotView { volume_bits, ..old(self).shown() }),
            final(self).sent() == old(self).sent().push(PlayerCommand::SetVolume { volume_bits }),
    {
        self.snapshot.volume_bits = volume_bits;
        self.send(PlayerCommand::SetVolume { volume_bits });
    }

    /// Turns shuffling on or off, tells the player to play its queue at
    /// random or in order, and gives the new setting.
    pub fn toggle_shuffle(&mut self) -> (r: bool)
        requires
            old(self).well_formed(),
        ensures
            final(self).well_formed(),
            final(self).known() == old(self).known(),
            r == !old(self).shown().shuffle,
            final(self).shown() == (SnapshotView { shuffle: r, ..old(self).shown() }),
            final(self).sent() == old(self).sent().push(
                PlayerCommand::SetQueueBehavior { behavior: shuffle_behavior(r) },
            ),
    {
        let shuffle = !self.snapshot.shuffle;
        self.snapshot.shuffle = shuffle;
        let behavior = if shuffle {
            QueueBehavior::Random
        } else {
            QueueBehavior::Sequential
        };
        self.send(PlayerCommand::SetQueueBehavior { behavior });
        shuffle
    }
}


/// Each report of the player shows its own state: a pause shows the track
/// paused at the reported position, a start or a resume or a position
/// report shows it playing there, a stall shows it buffering, a load shows
/// it loading, and a stop shows it stopped at the start. Every report about
/// a track keeps the volume, shuffle and queue summary, and names the track
/// by its known metadata when it is known.
pub proof fn law_reports_show_their_state(
    s: SnapshotView,
    m: Map<Seq<char>, TrackMetadata>,
    id: String,
    item: PlaybackItem,
    pos: u128,
)
    ensures
        shown_after(s, m, PlayerEvent::Pausing { item_id: id, position_nanos: pos }).state == PlaybackUiState::Paused,
        shown_after(s, m, PlayerEvent::Pausing { item_id: id, position_nanos: pos }).status == "Paused"@,
        shown_after(s, m, PlayerEvent::Pausing { item_id: id, position_nanos: pos }).progress_nanos == pos,
        shown_after(s, m, PlayerEvent::Playing { item_id: id, position_nanos: pos }).state == PlaybackUiState::Playing,
        shown_after(s, m, PlayerEvent::Playing { item_id: id, position_nanos: pos }).status == "Playing"@,
        shown_after(s, m, PlayerEvent::Playing { item_id: id, position_nanos: pos }).progress_nanos == pos,
        shown_after(s, m, PlayerEvent::Resuming { item_id: id, position_nanos: pos }).state == PlaybackUiState::Playing,
        shown_after(s, m, PlayerEvent::Resuming { item_id: id, position_nanos: pos }).status == "Playing"@,
        shown_after(s, m, PlayerEvent::Resuming { item_id: id, position_nanos: pos }).progress_nanos == pos,
        shown_after(s, m, PlayerEvent::Position { item_id: id, position_nanos: pos }).state == PlaybackUiState::Playing,
        shown_after(s, m, PlayerEvent::Position { item_id: id, position_nanos: pos }).progress_nanos == pos,
        shown_after(s, m, PlayerEvent::Blocked { item_id: id, position_nanos: pos }).state == PlaybackUiState::Blocked,
        shown_after(s, m, PlayerEvent::Blocked { item_id: id, position_nanos: pos }).status == "Buffering"@,
        shown_after(s, m, PlayerEvent::Blocked { item_id: id, position_nanos: pos }).progress_nanos == pos,
        shown_after(s, m, PlayerEvent::Loading { item }).state == PlaybackUiState::Loading,
        shown_after(s, m, PlayerEvent::Loading { item }).status == "Loading track"@,
        shown_after(s, m, PlayerEvent::Stopped).state == PlaybackUiState::Stopped,
        shown_after(s, m, PlayerEvent::Stopped).status == "Stopped"@,
        shown_after(s, m, PlayerEvent::Stopped).progress_nanos == 0,
        shown_after(s, m, PlayerEvent::Pausing { item_id: id, position_nanos: pos }) != shown_after(
            s,
            m,
            PlayerEvent::Playing { item_id: id, position_nanos: pos },
        ),
        shown_after(s, m, PlayerEvent::Pausing { item_id: id, position_nanos: pos }).volume_bits == s.volume_bits,
        shown_after(s, m, PlayerEvent::Pausing { item_id: id, position_nanos: pos }).shuffle == s.shuffle,
        shown_after(s, m, PlayerEvent::Pausing { item_id: id, position_nanos: pos }).queue_summary == s.queue_summary,
        m.contains_key(id@) ==> shown_after(s, m, PlayerEvent::Pausing { item_id: id, position_nanos: pos }).title
            == m[id@].title@ && shown_after(s, m, PlayerEvent::Playing { item_id: id, position_nanos: pos }).title
            == m[id@].title@ && shown_after(s, m, PlayerEvent::Playing { item_id: id, position_nanos: pos }).artist
            == m[id@].artist@ && shown_after(s, m, PlayerEvent::Playing { item_id: id, position_nanos: pos }).album
            == m[id@].album@ && shown_after(s, m, PlayerEvent::Playing { item_id: id, position_nanos: pos }).duration_nanos
            == m[id@].duration_nanos,
        !m.contains_key(id@) ==> shown_after(s, m, PlayerEvent::Playing { item_id: id, position_nanos: pos }).title
            == s.title,
{
}

/// The track played from search results is the first one not marked
/// unplayable: `Some(i)` exactly when track `i` is not marked unplayable
/// and every track before it is; `None` exactly when every track is marked
/// unplayable. A track marked playable, or not marked at all, is playable.
pub proof fn law_first_playable_is_first_not_refused(tracks: Seq<Track>, i: int)
    ensures
        first_playable_from(tracks, 0) == Some(i) <==> (0 <= i < tracks.len() && tracks[i].is_playable
            != Some(false) && forall|j: int| 0 <= j < i ==> tracks[j].is_playable == Some(false)),
        first_playable_from(tracks, 0) is None <==> forall|j: int|
            0 <= j < tracks.len() ==> tracks[j].is_playable == Some(false),
        tracks.len() > 0 && tracks[0].is_playable == Some(true) ==> first_playable_from(tracks, 0) == Some(0int),
        tracks.len() > 0 && tracks[0].is_playable is None ==> first_playable_from(tracks, 0) == Some(0int),
{
    lemma_first_playable_from(tracks, 0);
}

/// `first_playable_from(tracks, k)` is the first index from `k` on whose
/// track is not marked unplayable.
proof fn lemma_first_playable_from(tracks: Seq<Track>, k: int)
    requires
        0 <= k,
    ensures
        forall|i: int| #![trigger tracks[i]] first_playable_from(tracks, k) == Some(i) <==> (k <= i < tracks.len()
            && tracks[i].is_playable != Some(false) && forall|j: int| k <= j < i ==> tracks[j].is_playable == Some(false)),
        first_playable_from(tracks, k) is None <==> forall|j: int|
            k <= j < tracks.len() ==> tracks[j].is_playable == Some(false),
    decreases tracks.len() - k,
{
    if k < tracks.len() {
        lemma_first_playable_from(tracks, k + 1);
        if tracks[k].is_playable != Some(false) {
            assert forall|i: int| #![trigger tracks[i]] (k <= i < tracks.len() && tracks[i].is_playable != Some(false)
                && forall|j: int| k <= j < i ==> tracks[j].is_playable == Some(false)) implies i == k by {
                if i > k {
                    assert(tracks[k].is_playable == Some(false));
                }
            }
        } else {
            assert forall|i: int| #![trigger tracks[i]] (k + 1 <= i < tracks.len() && tracks[i].is_playable != Some(
                false) && forall|j: int| k + 1 <= j < i ==> tracks[j].is_playable == Some(false)) implies (forall|j: int|
                k <= j < i ==> tracks[j].is_playable == Some(false)) by {
            }
            assert forall|i: int| #![trigger tracks[i]] (k <= i < tracks.len() && tracks[i].is_playable != Some(false)
                && forall|j: int| k <= j < i ==> tracks[j].is_playable == Some(false)) implies (forall|j: int|
                k + 1 <= j < i ==> tracks[j].is_playable == Some(false)) && i != k by {
            }
        }
    }
}

/// Turning shuffle on or off twice leaves the shown state as it was.
pub proof fn law_shuffle_toggle_twice_restores(s: SnapshotView)
    ensures
        (SnapshotView { shuffle: !(SnapshotView { shuffle: !s.shuffle, ..s }).shuffle, ..(SnapshotView {
            shuffle: !s.shuffle,
            ..s
        }) }) == s,
{
}

/// After registering tracks, an id is named by the last registered track
/// with that id.
pub proof fn law_registered_title_is_last(m: Map<Seq<char>, TrackMetadata>, tracks: Seq<Track>, k: int)
    requires
        0 <= k < tracks.len(),
        forall|j: int| k < j < tracks.len() ==> tracks[j].id@ != tracks[k].id@,
    ensures
        known_title(registered(m, tracks), tracks[k].id@) == tracks[k].name@,
    decreases tracks.len(),
{
    if k < tracks.len() - 1 {
        let rest = tracks.drop_last();
        assert(rest[k] == tracks[k]);
        assert forall|j: int| k < j < rest.len() implies rest[j].id@ != rest[k].id@ by {
            assert(rest[j] == tracks[j]);
        }
        law_registered_title_is_last(m, rest, k);
        assert(tracks.last().id@ != tracks[k].id@);
    }
}

/// Registering tracks leaves the names of other ids as they were.
pub proof fn law_registered_keeps_others(m: Map<Seq<char>, TrackMetadata>, tracks: Seq<Track>, id: Seq<char>)
    requires
        forall|i: int| 0 <= i < tracks.len() ==> tracks[i].id@ != id,
    ensures
        known_title(registered(m, tracks), id) == known_title(m, id),
    decreases tracks.len(),
{
    if tracks.len() > 0 {
        let rest = tracks.drop_last();
        assert forall|i: int| 0 <= i < rest.len() implies rest[i].id@ != id by {
            assert(rest[i] == tracks[i]);
        }
        law_registered_keeps_others(m, rest, id);
        assert(tracks.last().id@ != id);
    }
}

/// The playback service of the front end, once it is set up.
pub struct PlaybackStore {
    service: Option<QtPlaybackService>,
}

impl PlaybackStore {
    /// The service, when there is one, is well formed.
    pub closed spec fn well_formed(&self) -> bool {
        self.service matches Some(s) ==> s.well_formed()
    }

    /// Whether the service is set up.
    pub closed spec fn ready(&self) -> bool {
        self.service is Some
    }

    /// The shown state of the service.
    pub closed spec fn shown(&self) -> SnapshotView {
        self.service->0.shown()
    }

    /// The metadata known to the service.
    pub closed spec fn known(&self) -> Map<Seq<char>, TrackMetadata> {
        self.service->0.known()
    }

    /// The commands the service handed to the player's channel.
    pub closed spec fn sent(&self) -> Seq<PlayerCommand> {
        self.service->0.sent()
    }

    /// No service yet.
    pub fn empty() -> (r: Self)
        ensures
            r.well_formed(),
            !r.ready(),
    {
        PlaybackStore { service: None }
    }
}

/// The state shown when no service is set up.
pub open spec fn uninitialized_snapshot() -> SnapshotView {
    SnapshotView { status: "Playback service is not initialized"@, ..default_snapshot() }
}

/// The message of every request made before the service is set up.
pub open spec fn not_initialized() -> Seq<char> {
    "Playback service is not initialized"@
}

/// Puts `service` in place, replacing any earlier one.
pub fn init(store: &mut PlaybackStore, service: QtPlaybackService)
    requires
        service.well_formed(),
    ensures
        final(store).well_formed(),
        final(store).ready(),
        final(store).shown() == service.shown(),
        final(store).known() == service.known(),
        final(store).sent() == service.sent(),
{
    store.service = Some(service);
}

/// The shown state of playback.
pub fn snapshot(store: &PlaybackStore) -> (r: PlaybackSnapshot)
    ensures
        r@ == if store.ready() {
            store.shown()
        } else {
            uninitialized_snapshot()
        },
{
    match &store.service {
        Some(s) => s.snapshot(),
        None => {
            let mut r = PlaybackSnapshot::idle();
            r.status = String::from_str("Playback service is not initialized");
            r
        },
    }
}

/// What handing `command` to a store's service does: a store without a
/// service is left as it is; otherwise the command is recorded as sent and
/// nothing else changes.
pub open spec fn sends(before: PlaybackStore, after: PlaybackStore, command: PlayerCommand) -> bool {
    &&& after.well_formed()
    &&& after.ready() == before.ready()
    &&& !before.ready() ==> after == before
    &&& before.ready() ==> after.sent() == before.sent().push(command) && after.shown() == before.shown()
        && after.known() == before.known()
}

/// Sends a command when the service is set up; gives whether it was.
pub fn send(store: &mut PlaybackStore, command: PlayerCommand) -> (r: bool)
    requires
        old(store).well_formed(),
    ensures
        r == old(store).ready(),
        sends(*old(store), *final(store), command),
{
    match &mut store.service {
        Some(s) => {
            s.send(command);
            true
        },
        None => false,
    }
}

/// Tells the player to pause or resume.
pub fn pause_or_resume(store: &mut PlaybackStore) -> (r: bool)
    requires
        old(store).well_formed(),
    ensures
        r == old(store).ready(),
        sends(*old(store), *final(store), PlayerCommand::PauseOrResume),
{
    send(store, PlayerCommand::PauseOrResume)
}

/// Tells the player to go to the previous track.
pub fn previous(store: &mut PlaybackStore) -> (r: bool)
    requires
        old(store).well_formed(),
    ensures
        r == old(store).ready(),
        sends(*old(store), *final(store), PlayerCommand::Previous),
{
    send(store, PlayerCommand::Previous)
}

/// Tells the player to go to the next track.
pub fn next(store: &mut PlaybackStore) -> (r: bool)
    requires
        old(store).well_formed(),
    ensures
        r == old(store).ready(),
        sends(*old(store), *final(store), PlayerCommand::Next),
{
    send(store, PlayerCommand::Next)
}

/// Tells the player to stop.
pub fn stop(store: &mut PlaybackStore) -> (r: bool)
    requires
        old(store).well_formed(),
    ensures
        r == old(store).ready(),
        sends(*old(store), *final(store), PlayerCommand::Stop),
{
    send(store, PlayerCommand::Stop)
}

/// Records the metadata of tracks, when the service is set up.
pub fn register_tracks(store: &mut PlaybackStore, tracks: &Vec<Track>)
    requires
        old(store).well_formed(),
    ensures
        final(store).well_formed(),
        final(store).ready() == old(store).ready(),
        old(store).ready() ==> final(store).known() == registered(old(store).known(), tracks@)
            && final(store).shown() == old(store).shown() && final(store).sent() == old(store).sent(),
        !old(store).ready() ==> *final(store) == *old(store),
{
    match &mut store.service {
        Some(s) => s.register_tracks(tracks),
        None => {},
    }
}

/// The outcome of asking to play track `id` with `before` and getting `r`,
/// `after` being the store afterwards.
pub open spec fn play_id_outcome(before: PlaybackStore, id: Seq<char>, after: PlaybackStore, r: Result<String, String>) -> bool {
    &&& after.well_formed()
    &&& after.ready() == before.ready()
    &&& !spec_base62_id(id) ==> (r matches Err(e) && e@ == "Invalid track id: "@ + id) && after == before
    &&& spec_base62_id(id) && !before.ready() ==> (r matches Err(e) && e@ == not_initialized()) && after == before
    &&& spec_base62_id(id) && before.ready() ==> after.known() == before.known() && after.sent().len() == before.sent().len()
        + 1 && after.sent().drop_last() == before.sent() && plays_item(after.sent().last(), id)
    &&& spec_base62_id(id) && before.ready() && r is Ok ==> r->Ok_0@ == "Playing "@ + known_title(before.known(), id) && after.shown() == (SnapshotView {
        status: "Loading track"@,
        queue_summary: "Single track playback"@,
        ..before.shown()
    })
    &&& spec_base62_id(id) && before.ready() && r is Err ==> r->Err_0@ == "sending on a disconnected channel"@
        && after.shown() == before.shown()
}

/// Plays one track by id. Fails first when the id is not base-62, then
/// when the service is not set up.
pub fn play_track_id(store: &mut PlaybackStore, id: &str) -> (r: Result<String, String>)
    requires
        old(store).well_formed(),
    ensures
        play_id_outcome(*old(store), id@, *final(store), r),
{
    if !is_base62_id(id) {
        let mut message = String::from_str("Invalid track id: ");
        message.append(id);
        return Err(message);
    }
    match &mut store.service {
        Some(s) => s.play_track_id(id),
        None => Err(String::from_str("Playback service is not initialized")),
    }
}

/// The query to search for: the text typed, trimmed. Fails when it is
/// empty, then when search is rate limited.
pub fn search_query(query: &str, rate_limited: bool) -> (r: Result<String, String>)
    ensures
        trimmed(query@).len() == 0 ==> (r matches Err(e) && e@ == "Enter a search term first"@),
        trimmed(query@).len() > 0 && rate_limited ==> (r matches Err(e) && e@ == "Spotify search is rate limited"@),
        trimmed(query@).len() > 0 && !rate_limited ==> (r matches Ok(q) && q@ == trimmed(query@)),
{
    let q = trim(query);
    if q.as_str().is_empty() {
        return Err(String::from_str("Enter a search term first"));
    }
    if rate_limited {
        return Err(String::from_str("Spotify search is rate limited"));
    }
    Ok(q)
}

/// The first track from `i` on that is not marked unplayable.
pub open spec fn first_playable_from(tracks: Seq<Track>, i: int) -> Option<int>
    decreases tracks.len() - i,
{
    if i < 0 || i >= tracks.len() {
        None
    } else if tracks[i].is_playable != Some(false) {
        Some(i)
    } else {
        first_playable_from(tracks, i + 1)
    }
}

/// Plays the first playable track of a search's results, alone in the
/// queue. Fails with the search's error, when no track is playable, or when
/// the service is not set up.
pub fn play_first_search_result(store: &mut PlaybackStore, results: Result<Vec<Track>, String>) -> (r: Result<String, String>)
    requires
        old(store).well_formed(),
    ensures
        final(store).well_formed(),
        final(store).ready() == old(store).ready(),
        results matches Err(e) ==> r == Err::<String, String>(e) && *final(store) == *old(store),
        results matches Ok(ts) && first_playable_from(ts@, 0) is None ==> (r matches Err(e) && e@
            == "No playable tracks found"@) && *final(store) == *old(store),
        results matches Ok(ts) && first_playable_from(ts@, 0) is Some && !old(store).ready() ==> (r matches Err(e)
            && e@ == not_initialized()),
        results is Ok && first_playable_from(results->Ok_0@, 0) is Some && old(store).ready() ==> {
            let ts = results->Ok_0;
            let t = ts@[first_playable_from(ts@, 0)->0];
            &&& final(store).known() == old(store).known().insert(t.id@, metadata_of(t))
            &&& final(store).sent().len() == old(store).sent().len() + 1
            &&& final(store).sent().drop_last() == old(store).sent()
            &&& loads_queue(final(store).sent().last(), seq![t.id@], 0)
            &&& r matches Ok(m) ==> m@ == "Playing "@ + t.name@ && final(store).shown() == (SnapshotView {
                queue_summary: queued_text(1),
                status: "Loading queue"@,
                ..old(store).shown()
            })
            &&& r matches Err(e) ==> e@ == "sending on a disconnected channel"@ && final(store).shown()
                == old(store).shown()
        },
{
    let tracks = match results {
        Err(e) => return Err(e),
        Ok(ts) => ts,
    };
    let mut i: usize = 0;
    while i < tracks.len() && tracks[i].is_playable == Some(false)
        invariant
            i <= tracks@.len(),
            first_playable_from(tracks@, 0) == first_playable_from(tracks@, i as int),
        decreases tracks.len() - i,
    {
        i = i + 1;
    }
    if i >= tracks.len() {
        return Err(String::from_str("No playable tracks found"));
    }
    assert(first_playable_from(tracks@, i as int) == Some(i as int));
    let chosen = tracks[i].copy();
    match &mut store.service {
        Some(s) => {
            let ghost before = s.known();
            let one = vec![chosen];
            proof {
                assert(one@.drop_last() =~= Seq::<Track>::empty());
                assert(registered(before, one@.drop_last()) == before);
                assert(registered(before, one@) == before.insert(tracks@[i as int].id@, metadata_of(tracks@[i as int])));
                assert(clamped_position(0, 1) == 0);
            }
            let r = s.play_tracks(&one, 0);
            assert(track_ids(one@) =~= seq![tracks@[i as int].id@]);
            r
        },
        None => Err(String::from_str("Playback service is not initialized")),
    }
}

/// Turns shuffling on or off when the service is set up; gives the new
/// setting, or `false` without a service.
pub fn toggle_shuffle(store: &mut PlaybackStore) -> (r: bool)
    requires
        old(store).well_formed(),
    ensures
        final(store).well_formed(),
        final(store).ready() == old(store).ready(),
        old(store).ready() ==> r == !old(store).shown().shuffle && final(store).shown() == (SnapshotView {
            shuffle: r,
            ..old(store).shown()
        }) && final(store).known() == old(store).known() && final(store).sent() == old(store).sent().push(
            PlayerCommand::SetQueueBehavior { behavior: shuffle_behavior(r) },
        ),
        !old(store).ready() ==> !r && *final(store) == *old(store),
{
    match &mut store.service {
        Some(s) => s.toggle_shuffle(),
        None => false,
    }
}

/// Records and sends a new volume, carried by the bits of its `f64`, when
/// the service is set up.
pub fn set_volume_bits(store: &mut PlaybackStore, volume_bits: u64)
    requires
        old(store).well_formed(),
    ensures
        final(store).well_formed(),
        final(store).ready() == old(store).ready(),
        old(store).ready() ==> final(store).shown() == (SnapshotView { volume_bits, ..old(store).shown() })
            && final(store).known() == old(store).known() && final(store).sent() == old(store).sent().push(
            PlayerCommand::SetVolume { volume_bits },
        ),
        !old(store).ready() ==> *final(store) == *old(store),
{
    match &mut store.service {
        Some(s) => s.set_volume_bits(volume_bits),
        None => {},
    }
}

/// Follows a report of the player, when the service is set up.
pub fn update_from_event(store: &mut PlaybackStore, event: &PlayerEvent)
    requires
        old(store).well_formed(),
    ensures
        final(store).well_formed(),
        final(store).ready() == old(store).ready(),
        old(store).ready() ==> final(store).shown() == shown_after(old(store).shown(), old(store).known(), *event)
            && final(store).known() == old(store).known() && final(store).sent() == old(store).sent(),
        !old(store).ready() ==> *final(store) == *old(store),
{
    match &mut store.service {
        Some(s) => s.update_from_event(event),
        None => {},
    }
}

} // verus!

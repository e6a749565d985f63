use spotix::qt::app_controller::{SpotixApp, StartupState};
use spotix::qt::art_cache::ArtCache;
use spotix::data::catalog::Track;
use spotix::data::playback::QueueBehavior;
use spotix::qt::playback_service::{
    init, next, pause_or_resume, play_first_search_result, play_track_id, register_tracks, search_query, send,
    snapshot, stop, toggle_shuffle, update_from_event, PlaybackItem, PlaybackStore, PlaybackUiState, PlayerCommand,
    PlayerEvent, QtPlaybackService,
};

fn track(id: &str, name: &str, playable: Option<bool>) -> Track {
    Track {
        id: id.to_string(),
        name: name.to_string(),
        artist_names: "Artist".to_string(),
        album_name: "Album".to_string(),
        album_image_url: None,
        is_playable: playable,
        duration_nanos: 61_500_000_000,
    }
}

fn ready_store() -> (PlaybackStore, crossbeam_channel::Receiver<PlayerEvent>) {
    let (service, rx) = QtPlaybackService::new(0.5f64.to_bits()).expect("receiver alive");
    match rx.try_recv() {
        Ok(PlayerEvent::Command(PlayerCommand::SetVolume { volume_bits })) => {
            assert_eq!(f64::from_bits(volume_bits), 0.5)
        }
        _ => panic!("expected the volume first"),
    }
    let mut store = PlaybackStore::empty();
    init(&mut store, service);
    (store, rx)
}

#[test]
fn without_a_service_requests_fail() {
    let mut store = PlaybackStore::empty();
    assert_eq!(snapshot(&store).status, "Playback service is not initialized");
    assert!(!pause_or_resume(&mut store));
    assert!(!toggle_shuffle(&mut store));
    assert_eq!(play_track_id(&mut store, "abc"), Err("Playback service is not initialized".to_string()));
    let result = play_first_search_result(&mut store, Ok(vec![track("a", "A", None)]));
    assert_eq!(result, Err("Playback service is not initialized".to_string()));
}

#[test]
fn invalid_track_ids_are_refused_first() {
    let mut store = PlaybackStore::empty();
    assert_eq!(play_track_id(&mut store, "!"), Err("Invalid track id: !".to_string()));
    let (mut store, rx) = ready_store();
    assert_eq!(play_track_id(&mut store, "a-b"), Err("Invalid track id: a-b".to_string()));
    assert_eq!(play_track_id(&mut store, "zzzzzzzzzzzzzzzzzzzzzz"), Err("Invalid track id: zzzzzzzzzzzzzzzzzzzzzz".to_string()));
    assert!(rx.try_recv().is_err());
    assert!(play_track_id(&mut store, "6rqhFgbbKwnb9MLmUQDhG6").is_ok());
    match rx.try_recv() {
        Ok(PlayerEvent::Command(PlayerCommand::LoadAndPlay { item })) => assert_eq!(item.item_id, "6rqhFgbbKwnb9MLmUQDhG6"),
        _ => panic!("expected the track"),
    }
}

#[test]
fn play_first_playable_result() {
    let (mut store, rx) = ready_store();
    assert_eq!(snapshot(&store).status, "Playback service is ready");
    let result = play_first_search_result(
        &mut store,
        Ok(vec![track("a", "Blocked", Some(false)), track("b", "Open", None), track("c", "Later", Some(true))]),
    );
    assert_eq!(result, Ok("Playing Open".to_string()));
    match rx.try_recv() {
        Ok(PlayerEvent::Command(PlayerCommand::LoadQueue { items, position })) => {
            assert_eq!(items.len(), 1);
            assert_eq!(items[0].item_id, "b");
            assert_eq!(position, 0);
        }
        _ => panic!("expected a queue"),
    }
    let shown = snapshot(&store);
    assert_eq!(shown.queue_summary, "1 track(s) queued");
    assert_eq!(shown.status, "Loading queue");
    assert_eq!(
        play_first_search_result(&mut store, Ok(vec![track("a", "Blocked", Some(false))])),
        Err("No playable tracks found".to_string())
    );
    assert_eq!(play_first_search_result(&mut store, Err("net".to_string())), Err("net".to_string()));
}

#[test]
fn events_update_the_shown_state_with_known_metadata() {
    let (mut store, _rx) = ready_store();
    register_tracks(&mut store, &vec![track("x", "Known", None)]);
    update_from_event(&mut store, &PlayerEvent::Playing { item_id: "x".to_string(), position_nanos: 5_000_000 });
    let shown = snapshot(&store);
    assert_eq!(shown.state.as_str(), "Playing");
    assert_eq!(shown.title, "Known");
    assert_eq!(shown.duration_nanos, 61_500_000_000);
    assert_eq!(shown.progress_nanos, 5_000_000);
    update_from_event(&mut store, &PlayerEvent::Blocked { item_id: "unknown".to_string(), position_nanos: 7 });
    let shown = snapshot(&store);
    assert!(shown.state == PlaybackUiState::Blocked);
    assert_eq!(shown.status, "Buffering");
    assert_eq!(shown.title, "Known");
    update_from_event(&mut store, &PlayerEvent::Stopped);
    let shown = snapshot(&store);
    assert_eq!(shown.progress_nanos, 0);
    assert_eq!(shown.status, "Stopped");
    update_from_event(&mut store, &PlayerEvent::Loading { item: PlaybackItem { item_id: "x".to_string() } });
    assert_eq!(snapshot(&store).status, "Loading track");
}

#[test]
fn play_track_by_id_uses_known_title() {
    let (mut store, rx) = ready_store();
    register_tracks(&mut store, &vec![track("x", "Old", None), track("x", "New", None)]);
    assert_eq!(play_track_id(&mut store, "x"), Ok("Playing New".to_string()));
    assert_eq!(play_track_id(&mut store, "zz"), Ok("Playing zz".to_string()));
    assert_eq!(snapshot(&store).queue_summary, "Single track playback");
    assert_eq!(rx.len(), 2);
    drop(rx);
    assert_eq!(play_track_id(&mut store, "x"), Err("sending on a disconnected channel".to_string()));
}

#[test]
fn commands_are_forwarded_and_shuffle_toggles() {
    let (mut store, rx) = ready_store();
    assert!(pause_or_resume(&mut store));
    assert!(next(&mut store));
    assert!(stop(&mut store));
    assert!(send(&mut store, PlayerCommand::Previous));
    assert!(matches!(rx.try_recv(), Ok(PlayerEvent::Command(PlayerCommand::PauseOrResume))));
    assert!(matches!(rx.try_recv(), Ok(PlayerEvent::Command(PlayerCommand::Next))));
    assert!(matches!(rx.try_recv(), Ok(PlayerEvent::Command(PlayerCommand::Stop))));
    assert!(matches!(rx.try_recv(), Ok(PlayerEvent::Command(PlayerCommand::Previous))));
    assert!(toggle_shuffle(&mut store));
    assert!(matches!(
        rx.try_recv(),
        Ok(PlayerEvent::Command(PlayerCommand::SetQueueBehavior { behavior: QueueBehavior::Random }))
    ));
    assert!(!toggle_shuffle(&mut store));
    assert!(snapshot(&store).shuffle == false);
    assert!(QueueBehavior::default() == QueueBehavior::Sequential);
}

#[test]
fn search_queries_are_trimmed_and_checked() {
    assert_eq!(search_query("  abba ", false), Ok("abba".to_string()));
    assert_eq!(search_query("   ", false), Err("Enter a search term first".to_string()));
    assert_eq!(search_query("x", true), Err("Spotify search is rate limited".to_string()));
}

#[test]
fn window_controls_send_commands_and_show_state() {
    let (mut store, rx) = ready_store();
    let mut app = SpotixApp::new(&StartupState::starting(), &snapshot(&store), String::new(), &ArtCache::new());
    assert_eq!(app.playback_status, "Playback service is ready");
    app.play_pause(&mut store);
    app.play_next(&mut store);
    app.play_previous(&mut store);
    app.stop_playback(&mut store);
    let sent: Vec<PlayerEvent> = rx.try_iter().collect();
    assert!(matches!(sent[0], PlayerEvent::Command(PlayerCommand::PauseOrResume)));
    assert!(matches!(sent[1], PlayerEvent::Command(PlayerCommand::Next)));
    assert!(matches!(sent[2], PlayerEvent::Command(PlayerCommand::Previous)));
    assert!(matches!(sent[3], PlayerEvent::Command(PlayerCommand::Stop)));
    app.toggle_shuffle(&mut store);
    assert!(app.shuffle_enabled);
    assert!(matches!(
        rx.try_recv(),
        Ok(PlayerEvent::Command(PlayerCommand::SetQueueBehavior { behavior: QueueBehavior::Random }))
    ));
    register_tracks(&mut store, &vec![track("t1", "One", None)]);
    app.play_track("t1", &mut store);
    assert_eq!(app.playback_status, "Loading track");
    assert_eq!(app.queue_summary, "Single track playback");
    app.show_first_result_played(Err("Enter a search term first".to_string()), &store);
    assert_eq!(app.playback_status, "Playback failed: Enter a search term first");
}

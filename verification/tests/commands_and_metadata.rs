use ethereal_waves::mpris::{
    ControlRequest, Metadata, MetadataValue, MprisCommand, MprisState, Outcome,
};
use ethereal_waves::playback_state::PlaybackStatus;

#[test]
fn status_names_are_the_three_of_the_interface() {
    assert_eq!(PlaybackStatus::Playing.as_str(), "Playing");
    assert_eq!(PlaybackStatus::Paused.as_str(), "Paused");
    assert_eq!(PlaybackStatus::Stopped.as_str(), "Stopped");
}

#[test]
fn status_text_is_the_name_of_the_status() {
    let mut state = MprisState::default();
    assert_eq!(state.status_text(), "Stopped");
    state.playback_status = PlaybackStatus::Playing;
    assert_eq!(state.status_text(), "Playing");
    state.playback_status = PlaybackStatus::Paused;
    assert_eq!(state.status_text(), "Paused");
}

#[test]
fn requests_become_commands_of_their_own_kind() {
    assert_eq!(ControlRequest::Play.into_command(), Some(MprisCommand::Play));
    assert_eq!(ControlRequest::Pause.into_command(), Some(MprisCommand::Pause));
    assert_eq!(ControlRequest::PlayPause.into_command(), Some(MprisCommand::PlayPause));
    assert_eq!(ControlRequest::Next.into_command(), Some(MprisCommand::Next));
    assert_eq!(ControlRequest::Previous.into_command(), Some(MprisCommand::Previous));
    assert_eq!(ControlRequest::Stop.into_command(), Some(MprisCommand::Stop));
    assert_eq!(ControlRequest::Seek(-1).into_command(), Some(MprisCommand::Seek(-1)));
    assert_eq!(ControlRequest::SetPosition(9).into_command(), Some(MprisCommand::SetPosition(9)));
    assert_eq!(
        ControlRequest::SetLoopStatus(String::from("Track")).into_command(),
        Some(MprisCommand::SetLoopStatus(String::from("Track")))
    );
    assert_eq!(ControlRequest::SetShuffle(true).into_command(), Some(MprisCommand::SetShuffle(true)));
    assert_eq!(
        ControlRequest::SetVolume(0.5f64.to_bits()).into_command(),
        Some(MprisCommand::SetVolume(0.5f64.to_bits()))
    );
}

#[test]
fn open_uri_and_set_rate_become_no_command() {
    assert_eq!(ControlRequest::OpenUri(String::from("file:///x.mp3")).into_command(), None);
    assert_eq!(ControlRequest::SetRate(2.0f64.to_bits()).into_command(), None);
}

#[test]
fn commands_are_equal_by_kind_and_argument() {
    assert_eq!(MprisCommand::Play, MprisCommand::Play);
    assert_ne!(MprisCommand::Play, MprisCommand::Pause);
    assert_ne!(MprisCommand::Seek(5), MprisCommand::SetPosition(5));
    assert_ne!(MprisCommand::Seek(5), MprisCommand::Seek(6));
    assert_ne!(MprisCommand::SetShuffle(true), MprisCommand::SetShuffle(false));
    assert_ne!(
        MprisCommand::SetLoopStatus(String::from("None")),
        MprisCommand::SetLoopStatus(String::from("Track"))
    );
    assert_ne!(MprisCommand::SetVolume(0.0f64.to_bits()), MprisCommand::SetVolume((-0.0f64).to_bits()));
}

#[test]
fn a_cloned_command_is_equal_to_the_command() {
    let commands = vec![
        MprisCommand::Play,
        MprisCommand::Pause,
        MprisCommand::PlayPause,
        MprisCommand::Next,
        MprisCommand::Previous,
        MprisCommand::Stop,
        MprisCommand::Seek(-12),
        MprisCommand::SetPosition(34),
        MprisCommand::SetVolume(0.25f64.to_bits()),
        MprisCommand::SetLoopStatus(String::from("Playlist")),
        MprisCommand::SetShuffle(true),
    ];
    for command in &commands {
        assert_eq!(&command.clone(), command);
    }
}

#[test]
fn the_outcome_of_a_send_follows_the_channel() {
    assert!(matches!(Outcome::of_send(Ok(())), Outcome::Enqueued));
    match Outcome::of_send(Err(MprisCommand::Seek(3))) {
        Outcome::Dropped(back) => assert_eq!(back, MprisCommand::Seek(3)),
        other => panic!("not dropped: {:?}", other),
    }
}

#[test]
fn new_metadata_is_empty() {
    let metadata = Metadata::new();
    assert_eq!(metadata.len(), 0);
    assert!(metadata.get("xesam:title").is_none());
    assert!(metadata.entries().is_empty());
    assert_eq!(Metadata::default().len(), 0);
}

#[test]
fn metadata_keeps_one_value_for_each_name() {
    let mut metadata = Metadata::new();
    metadata.insert(String::from("xesam:title"), MetadataValue::Text(String::from("First")));
    metadata.insert(String::from("mpris:length"), MetadataValue::Integer(180_000_000));
    metadata.insert(
        String::from("xesam:artist"),
        MetadataValue::List(vec![String::from("A"), String::from("B")]),
    );
    assert_eq!(metadata.len(), 3);
    metadata.insert(String::from("xesam:title"), MetadataValue::Text(String::from("Second")));
    assert_eq!(metadata.len(), 3);
    assert!(matches!(metadata.get("xesam:title"), Some(MetadataValue::Text(t)) if t == "Second"));
    assert!(matches!(metadata.get("mpris:length"), Some(MetadataValue::Integer(180_000_000))));
    assert!(
        matches!(metadata.get("xesam:artist"), Some(MetadataValue::List(l)) if l == &["A", "B"])
    );
    assert!(metadata.get("xesam:album").is_none());
    assert!(metadata.get("").is_none());
}

#[test]
fn metadata_lists_its_entries_in_the_order_of_first_insertion() {
    let mut metadata = Metadata::new();
    metadata.insert(String::from("b"), MetadataValue::Integer(1));
    metadata.insert(String::from("a"), MetadataValue::Integer(2));
    metadata.insert(String::from("c"), MetadataValue::Integer(3));
    metadata.insert(String::from("a"), MetadataValue::Integer(4));
    let keys: Vec<&str> = metadata.entries().iter().map(|entry| entry.key.as_str()).collect();
    assert_eq!(keys, vec!["b", "a", "c"]);
    assert!(matches!(metadata.entries()[1].value, MetadataValue::Integer(4)));
}

#[test]
fn cloned_metadata_has_the_same_entries_and_a_life_of_its_own() {
    let mut metadata = Metadata::new();
    metadata.insert(String::from("xesam:title"), MetadataValue::Text(String::from("Tide")));
    metadata.insert(String::from("xesam:artist"), MetadataValue::List(vec![String::from("Moon")]));
    let mut copy = metadata.clone();
    assert_eq!(copy.len(), 2);
    assert!(matches!(copy.get("xesam:title"), Some(MetadataValue::Text(t)) if t == "Tide"));
    assert!(matches!(copy.get("xesam:artist"), Some(MetadataValue::List(l)) if l == &["Moon"]));
    copy.insert(String::from("xesam:title"), MetadataValue::Text(String::from("Ebb")));
    assert!(matches!(metadata.get("xesam:title"), Some(MetadataValue::Text(t)) if t == "Tide"));
}

#[test]
fn a_cloned_state_agrees_in_every_field() {
    let mut state = MprisState::default();
    state.playback_status = PlaybackStatus::Paused;
    state.position = -4;
    state.volume = 0.8f64.to_bits();
    state.shuffle = true;
    state.loop_status = String::from("Playlist");
    state.metadata.insert(String::from("xesam:title"), MetadataValue::Text(String::from("Tide")));
    let copy = state.clone();
    assert_eq!(copy.playback_status, PlaybackStatus::Paused);
    assert_eq!(copy.position, -4);
    assert_eq!(copy.volume, 0.8f64.to_bits());
    assert!(copy.shuffle);
    assert_eq!(copy.loop_status, "Playlist");
    assert_eq!(copy.metadata.len(), 1);
    assert!(matches!(copy.metadata.get("xesam:title"), Some(MetadataValue::Text(t)) if t == "Tide"));
}

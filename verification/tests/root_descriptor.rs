use ethereal_waves::mpris::MediaPlayer2;

#[test]
fn mime_types_are_the_six_in_order() {
    let root = MediaPlayer2;
    assert_eq!(
        root.supported_mime_types(),
        vec!["audio/mpeg", "audio/mp4", "audio/ogg", "audio/opus", "audio/flac", "audio/wav"]
    );
}

#[test]
fn mime_types_are_the_same_on_every_call() {
    let root = MediaPlayer2;
    let first = root.supported_mime_types();
    let second = root.supported_mime_types();
    assert_eq!(first, second);
    assert_eq!(first.len(), 6);
}

#[test]
fn uri_schemes_are_file_alone() {
    assert_eq!(MediaPlayer2.supported_uri_schemes(), vec!["file"]);
}

#[test]
fn identity_and_desktop_entry() {
    let root = MediaPlayer2;
    assert_eq!(root.identity(), "Ethereal Waves");
    assert_eq!(root.desktop_entry(), "com.github.LotusPetal392.ethereal-waves");
}

#[test]
fn root_offers_nothing_optional() {
    let root = MediaPlayer2;
    assert!(!root.can_quit());
    assert!(!root.can_raise());
    assert!(!root.has_track_list());
}

#[test]
fn raise_and_quit_return() {
    let root = MediaPlayer2;
    root.raise();
    root.quit();
    assert!(!root.can_quit());
}

use godspeed::config::get_audio_bitrate;

#[test]
fn known_selectors_map_to_their_own_bitrate() {
    assert_eq!(get_audio_bitrate("128k"), "128K");
    assert_eq!(get_audio_bitrate("192k"), "192K");
    assert_eq!(get_audio_bitrate("256k"), "256K");
    assert_eq!(get_audio_bitrate("320k"), "320K");
}

#[test]
fn unknown_selectors_map_to_the_highest_bitrate() {
    assert_eq!(get_audio_bitrate(""), "320K");
    assert_eq!(get_audio_bitrate("64k"), "320K");
    assert_eq!(get_audio_bitrate("128K"), "320K");
    assert_eq!(get_audio_bitrate("128k "), "320K");
}

use godspeed::downloader::{
    download_arguments, download_video, Channel, DownloadSession, Notification, ProcessEvent,
    YT_DLP_SIDECAR,
};

fn progress(text: &str) -> Notification {
    Notification { channel: Channel::Progress, payload: text.to_string() }
}

#[test]
fn arguments_follow_the_fixed_policy() {
    let args = download_arguments("https://example.org/watch?v=1", "C:\\Music", "192k");
    assert_eq!(
        args,
        vec![
            "--no-playlist",
            "--windows-filenames",
            "--trim-filenames",
            "200",
            "-o",
            "C:\\Music/%(title)s.%(ext)s",
            "--extract-audio",
            "--audio-format",
            "mp3",
            "--audio-quality",
            "192K",
            "--external-downloader",
            "aria2c",
            "--external-downloader-args",
            "-x 16 -k 1M",
            "https://example.org/watch?v=1",
        ]
    );
}

#[test]
fn an_unknown_quality_asks_for_the_highest_bitrate() {
    let (session, args) = download_video("u", "/out", "lossless");
    assert_eq!(args[10], "320K");
    assert_eq!(args[5], "/out/%(title)s.%(ext)s");
    assert_eq!(args.len(), 16);
    assert_eq!(session.final_file_path(), None);
    assert_eq!(YT_DLP_SIDECAR, "yt-dlp");
}

#[test]
fn channel_names_are_the_event_names() {
    assert_eq!(Channel::Progress.name(), "download-progress");
    assert_eq!(Channel::Complete.name(), "download-complete");
}

#[test]
fn a_final_destination_is_remembered_and_the_line_passed_on() {
    let mut session = DownloadSession::new();
    let line = "[ExtractAudio] Destination: C:\\Music\\Song.mp3";
    let notes = session.observe_line(line.to_string());
    assert_eq!(notes, vec![progress(line)]);
    assert_eq!(session.final_file_path(), Some("C:\\Music\\Song.mp3".to_string()));
}

#[test]
fn a_destination_with_another_extension_is_not_remembered() {
    let mut session = DownloadSession::new();
    session.observe_line("[download] Destination: /out/Song.webm".to_string());
    assert_eq!(session.final_file_path(), None);
    session.observe_line("[ExtractAudio] Destination: /out/Song.mp3".to_string());
    assert_eq!(session.final_file_path(), Some("/out/Song.mp3".to_string()));
    session.observe_line("[download] Destination: /out/Other.m4a".to_string());
    assert_eq!(session.final_file_path(), Some("/out/Song.mp3".to_string()));
}

#[test]
fn a_later_final_destination_replaces_the_earlier_one() {
    let mut session = DownloadSession::new();
    session.observe_line("Destination: /out/First.mp3".to_string());
    session.observe_line("Destination: /out/Second.mp3".to_string());
    assert_eq!(session.final_file_path(), Some("/out/Second.mp3".to_string()));
}

#[test]
fn the_announced_path_is_trimmed_and_starts_after_the_first_marker() {
    let mut session = DownloadSession::new();
    session.observe_line("x Destination:   \t /out/A b.mp3 \r\n".to_string());
    assert_eq!(session.final_file_path(), Some("/out/A b.mp3".to_string()));
    session.observe_line("Destination: Destination: /out/B.mp3".to_string());
    assert_eq!(session.final_file_path(), Some("Destination: /out/B.mp3".to_string()));
    session.observe_line("Destination:/out/\u{3000}C.mp3\u{a0}".to_string());
    assert_eq!(session.final_file_path(), Some("/out/\u{3000}C.mp3".to_string()));
}

#[test]
fn the_extension_alone_is_a_final_path_and_case_matters() {
    let mut session = DownloadSession::new();
    session.observe_line("Destination: /out/Song.MP3".to_string());
    assert_eq!(session.final_file_path(), None);
    session.observe_line("Destination: .mp3".to_string());
    assert_eq!(session.final_file_path(), Some(".mp3".to_string()));
    session.observe_line("destination: /out/lower.mp3".to_string());
    assert_eq!(session.final_file_path(), Some(".mp3".to_string()));
    session.observe_line("Destination:".to_string());
    assert_eq!(session.final_file_path(), Some(".mp3".to_string()));
}

#[test]
fn paths_with_characters_outside_ascii_are_cut_by_characters() {
    let mut session = DownloadSession::new();
    session.observe_line("[ExtractAudio] เพลง Destination: /เพลง/ไทย.mp3".to_string());
    assert_eq!(session.final_file_path(), Some("/เพลง/ไทย.mp3".to_string()));
}

#[test]
fn blank_lines_are_not_passed_on() {
    let mut session = DownloadSession::new();
    assert_eq!(session.observe_line(String::new()), vec![]);
    assert_eq!(session.observe_line("   \t\r\n".to_string()), vec![]);
    assert_eq!(session.observe_line("\u{2003}\u{85}".to_string()), vec![]);
    assert_eq!(session.observe_line(" . ".to_string()), vec![progress(" . ")]);
    assert_eq!(session.observe_line("\u{200b}".to_string()), vec![progress("\u{200b}")]);
}

#[test]
fn lines_of_both_streams_are_treated_alike() {
    let mut session = DownloadSession::new();
    let out = session.observe(ProcessEvent::Stdout(b"[download]  12.5% of 3.00MiB".to_vec()));
    assert_eq!(out, vec![progress("[download]  12.5% of 3.00MiB")]);
    let err = session.observe(ProcessEvent::Stderr(b"Destination: /out/S.mp3".to_vec()));
    assert_eq!(err, vec![progress("Destination: /out/S.mp3")]);
    assert_eq!(session.final_file_path(), Some("/out/S.mp3".to_string()));
    assert_eq!(session.observe(ProcessEvent::Other), vec![]);
    assert_eq!(session.final_file_path(), Some("/out/S.mp3".to_string()));
}

#[test]
fn bytes_that_are_not_utf8_are_replaced_not_refused() {
    let mut session = DownloadSession::new();
    let notes = session.observe(ProcessEvent::Stdout(vec![b'a', 0xff, b'b']));
    assert_eq!(notes, vec![progress("a\u{fffd}b")]);
    let notes = session.observe(ProcessEvent::Stderr(vec![0xe0, 0xb9, 0x80]));
    assert_eq!(notes, vec![progress("เ")]);
}

#[test]
fn exit_zero_with_a_path_reports_the_path_then_the_notice() {
    let mut session = DownloadSession::new();
    session.observe_line("Destination: /out/S.mp3".to_string());
    let notes = session.observe(ProcessEvent::Terminated(Some(0)));
    assert_eq!(
        notes,
        vec![
            Notification { channel: Channel::Complete, payload: "/out/S.mp3".to_string() },
            progress("Download completed!"),
        ]
    );
    assert_eq!(session.finish(), "/out/S.mp3");
}

#[test]
fn exit_zero_without_a_path_falls_back_to_the_plain_notice() {
    let mut session = DownloadSession::new();
    session.observe_line("[download] 100%".to_string());
    session.observe_line("[download] Destination: /out/S.webm".to_string());
    let notes = session.observe_exit(Some(0));
    assert_eq!(notes, vec![progress("Download completed!")]);
    assert_eq!(session.finish(), "Download completed");
}

#[test]
fn another_exit_is_a_line_of_progress_not_an_error() {
    let mut session = DownloadSession::new();
    session.observe_line("Destination: /out/S.mp3".to_string());
    assert_eq!(
        session.observe_exit(Some(1)),
        vec![progress("[ERROR] Process exited with code: Some(1)")]
    );
    assert_eq!(
        session.observe_exit(Some(-1073741819)),
        vec![progress("[ERROR] Process exited with code: Some(-1073741819)")]
    );
    assert_eq!(
        session.observe_exit(Some(i32::MIN)),
        vec![progress(&format!("[ERROR] Process exited with code: {:?}", Some(i32::MIN)))]
    );
    assert_eq!(
        session.observe_exit(Some(i32::MAX)),
        vec![progress(&format!("[ERROR] Process exited with code: {:?}", Some(i32::MAX)))]
    );
    assert_eq!(session.observe_exit(None), vec![progress("[ERROR] Process exited with code: None")]);
    assert_eq!(session.finish(), "/out/S.mp3");
}

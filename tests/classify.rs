use cat_play_mml::input::{classify_input, file_kind_of, FileKind, InputRequest};
use cat_play_mml::render::{render_targets, wav_base};
use cat_play_mml::client_manager::ClientManager;
use cat_play_mml::text::str_contains;

#[test]
fn extension_is_case_insensitive() {
    assert!(file_kind_of("x.JSON") == Some(FileKind::Json));
    assert!(file_kind_of("x.Json") == Some(FileKind::Json));
    assert!(file_kind_of("x.json") == Some(FileKind::Json));
    assert!(matches!(classify_input("x.JSON"), InputRequest::ReadText(FileKind::Json)));
    assert!(file_kind_of("song.MML") == Some(FileKind::Mml));
    assert!(file_kind_of("song.MiD") == Some(FileKind::Mid));
}

#[test]
fn recognized_extension_is_read_not_inline() {
    assert!(matches!(classify_input("missing.mml"), InputRequest::ReadText(FileKind::Mml)));
    assert!(matches!(classify_input("tune.mid"), InputRequest::ReadBytes(FileKind::Mid)));
    assert!(matches!(classify_input("log.json"), InputRequest::ReadText(FileKind::Json)));
}

#[test]
fn other_inputs_are_mml_text() {
    assert!(matches!(classify_input("cde"), InputRequest::Inline));
    assert!(matches!(classify_input(""), InputRequest::Inline));
    assert!(matches!(classify_input("o4 c8.d8."), InputRequest::Inline));
    assert!(matches!(classify_input("notes.txt"), InputRequest::Inline));
    assert!(matches!(classify_input("file."), InputRequest::Inline));
    assert!(file_kind_of("cde") == None);
}

#[test]
fn extension_comes_from_last_segment() {
    assert!(file_kind_of("dir/a.b.mml") == Some(FileKind::Mml));
    assert!(file_kind_of("dir.mml/file") == None);
    assert!(file_kind_of("dir\\tune.mid") == Some(FileKind::Mid));
    assert!(file_kind_of(".mml") == None);
    assert!(file_kind_of("dir/.json") == None);
    assert!(file_kind_of("x.mmll") == None);
}

#[test]
fn endpoint_absent_markers_are_detected() {
    let c = ClientManager::new();
    assert!(c.is_server_not_running_error("Error: Failed to connect to server: pipe"));
    assert!(c.is_server_not_running_error("Os { code: 2, message: \"パイプを開くことができません\" }"));
    assert!(c.is_server_not_running_error("指定されたファイルが見つかりません。"));
    assert!(c.is_server_not_running_error("HRESULT(0x80070002)"));
}

#[test]
fn broken_pipe_is_not_endpoint_absent() {
    let c = ClientManager::new();
    assert!(!c.is_server_not_running_error("Broken pipe (os error 32) while writing request"));
    assert!(!c.is_server_not_running_error(""));
    assert!(!c.is_server_not_running_error("Failed to connect"));
    assert!(!c.is_server_not_running_error("0x8007000"));
}

#[test]
fn substring_search() {
    assert!(str_contains("abc", ""));
    assert!(str_contains("abc", "abc"));
    assert!(str_contains("xxabcxx", "bc"));
    assert!(!str_contains("ab", "abc"));
    assert!(!str_contains("acb", "ab"));
}

#[test]
fn render_targets_strip_one_wav() {
    let t = render_targets("foo.wav");
    assert_eq!(t, vec!["foo_realtime.wav".to_string(), "foo_debug48k.wav".to_string(), "foo_debug55k.wav".to_string()]);
    let t = render_targets("foo");
    assert_eq!(t[0], "foo_realtime.wav");
    assert_eq!(wav_base("a.wav.wav"), "a.wav");
    assert_eq!(wav_base("a.WAV"), "a.WAV");
    assert_eq!(wav_base(".wav"), "");
    assert_eq!(wav_base("wav"), "wav");
    let t = render_targets("a.wav.wav");
    assert_eq!(t[2], "a.wav_debug55k.wav");
}

use potenad::{ConfigError, EditorApp, EditorState};

fn state_with(path: Option<&str>, contents: &str) -> EditorState {
    EditorState::with_path(path.map(String::from), contents.to_string())
}

#[test]
fn round_trip_keeps_path_and_drops_contents() {
    let paths = ["/home/user/notes.txt", "C:\\Users\\me\\a b.txt", "it's \"quoted\".md", "ünïcode/ファイル"];
    for p in paths {
        let state = state_with(Some(p), "some text");
        let bytes = state.save().unwrap();
        let back = EditorState::load(&bytes).unwrap();
        assert_eq!(back.path(), Some(p));
        assert_eq!(back.contents(), "");
    }
}

#[test]
fn round_trip_without_path() {
    let state = state_with(None, "text");
    let bytes = state.save().unwrap();
    assert!(bytes.is_empty());
    let back = EditorState::load(&bytes).unwrap();
    assert_eq!(back.path(), None);
    assert_eq!(back.contents(), "");
}

#[test]
fn save_writes_path_entry() {
    let state = state_with(Some("/a/b.txt"), "ignored");
    assert_eq!(state.save().unwrap(), b"path = \"/a/b.txt\"\n".to_vec());
}

#[test]
fn load_reads_path_entry() {
    let state = EditorState::load(b"path = \"/x/y.txt\"\n").unwrap();
    assert_eq!(state.path(), Some("/x/y.txt"));
    assert_eq!(state.contents(), "");
}

#[test]
fn load_empty_document_gives_no_path() {
    let state = EditorState::load(b"").unwrap();
    assert_eq!(state.path(), None);
}

#[test]
fn load_malformed_is_syntax_error() {
    assert_eq!(EditorState::load(b"path = [").unwrap_err(), ConfigError::Syntax);
    assert_eq!(EditorState::load(b"not toml at all ===").unwrap_err(), ConfigError::Syntax);
    assert_eq!(EditorState::load(&[0xff, 0xfe, 0x00]).unwrap_err(), ConfigError::Syntax);
}

#[test]
fn load_wrong_type_is_error() {
    assert_eq!(EditorState::load(b"path = 3").unwrap_err(), ConfigError::PathNotText);
    assert_eq!(EditorState::load(b"[path]\nx = 1").unwrap_err(), ConfigError::PathNotText);
}

#[test]
fn load_unknown_field_is_error() {
    assert_eq!(EditorState::load(b"contents = \"x\"").unwrap_err(), ConfigError::UnknownField);
    assert_eq!(
        EditorState::load(b"path = \"/a\"\nother = 1").unwrap_err(),
        ConfigError::UnknownField
    );
}

#[test]
fn from_entries_decides_on_every_entry() {
    let ok = vec![("path".to_string(), Some("/p".to_string()))];
    assert_eq!(EditorState::from_entries(&ok).unwrap().path(), Some("/p"));
    assert_eq!(EditorState::from_entries(&Vec::new()).unwrap().path(), None);
    let wrong = vec![("path".to_string(), None)];
    assert_eq!(EditorState::from_entries(&wrong).unwrap_err(), ConfigError::PathNotText);
    let extra = vec![("path".to_string(), None), ("x".to_string(), Some("1".to_string()))];
    assert_eq!(EditorState::from_entries(&extra).unwrap_err(), ConfigError::UnknownField);
}

#[test]
fn default_state_is_empty() {
    let state = EditorState::default();
    assert_eq!(state.path(), None);
    assert_eq!(state.contents(), "");
}

#[test]
fn missing_config_gives_default_session() {
    let app = EditorApp::new(None);
    assert_eq!(app.state().path(), None);
    assert_eq!(app.state().contents(), "");
}

#[test]
fn malformed_config_gives_default_session() {
    let app = EditorApp::new(Some(b"path = = ="));
    assert_eq!(app.state().path(), None);
    assert_eq!(app.state().contents(), "");
}

#[test]
fn saved_config_restores_session() {
    let app = EditorApp::new(Some(b"path = \"/work/todo.txt\""));
    assert_eq!(app.state().path(), Some("/work/todo.txt"));
    assert_eq!(app.state().contents(), "");
}

#[test]
fn open_file_success() {
    let mut app = EditorApp::new(None);
    app.open_file("/tmp/hello.txt".to_string(), Ok("hello\nworld".to_string())).unwrap();
    assert_eq!(app.state().contents(), "hello\nworld");
    assert_eq!(app.state().path(), Some("/tmp/hello.txt"));
}

#[test]
fn open_file_replaces_contents() {
    let mut app = EditorApp::new(None);
    app.open_file("/a".to_string(), Ok("first".to_string())).unwrap();
    app.open_file("/b".to_string(), Ok("second".to_string())).unwrap();
    assert_eq!(app.state().contents(), "second");
    assert_eq!(app.state().path(), Some("/b"));
}

#[test]
fn open_file_failure_leaves_session() {
    let mut app = EditorApp::new(None);
    app.open_file("/a".to_string(), Ok("kept".to_string())).unwrap();
    let missing = std::io::Error::new(std::io::ErrorKind::NotFound, "no such file");
    let err = app.open_file("/does/not/exist".to_string(), Err(missing)).unwrap_err();
    assert_eq!(err.kind(), std::io::ErrorKind::NotFound);
    assert_eq!(app.state().contents(), "kept");
    assert_eq!(app.state().path(), Some("/a"));
}

#[test]
fn set_contents_keeps_path() {
    let mut app = EditorApp::new(None);
    app.open_file("/a".to_string(), Ok("one".to_string())).unwrap();
    app.set_contents("two".to_string());
    assert_eq!(app.state().contents(), "two");
    assert_eq!(app.state().path(), Some("/a"));
}

#[test]
fn save_state_persists_opened_path() {
    let mut app = EditorApp::new(None);
    app.open_file("/notes/today.md".to_string(), Ok("body".to_string())).unwrap();
    let bytes = app.save_state().unwrap();
    let restored = EditorApp::new(Some(&bytes));
    assert_eq!(restored.state().path(), Some("/notes/today.md"));
    assert_eq!(restored.state().contents(), "");
}

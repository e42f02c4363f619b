use vstd::prelude::*;

use crate::toml_codec::{read_table, toml_document, toml_entries, write_table};

verus! {

/// Why the configuration file could not be decoded or encoded.
#[derive(Debug, Clone, Copy, PartialEq, Eq, Structural)]
pub enum ConfigError {
    /// The bytes are no TOML document.
    Syntax,
    /// The document holds a key that the session record does not know.
    UnknownField,
    /// The `path` entry is not a string.
    PathNotText,
    /// The encoder refused the durable fields.
    Encode,
}

/// The mathematical view of a session state.
pub struct StateView {
    /// The last opened path, if any.
    pub path: Option<Seq<char>>,
    /// The text of the open file; never persisted.
    pub contents: Seq<char>,
}

#[verifier::external_type_specification]
#[verifier::external_body]
#[verifier::reject_recursive_types(T)]
pub struct ExSender<T>(std::sync::mpsc::Sender<T>);

#[verifier::external_type_specification]
#[verifier::external_body]
#[verifier::reject_recursive_types(T)]
pub struct ExReceiver<T>(std::sync::mpsc::Receiver<T>);

/// A channel for paths, reserved for notifications from background work.
pub type PathChannel = (std::sync::mpsc::Sender<String>, std::sync::mpsc::Receiver<String>);

/// Relies on `std::sync::mpsc::channel` to make a new, empty channel.
#[verifier::external_body]
fn new_channel() -> PathChannel {
    std::sync::mpsc::channel()
}

/// The durable session record with the runtime-only state of the session.
///
/// Only `path` is persisted; `contents` is rebuilt empty and `channel` anew
/// on every load.
#[derive(Debug)]
pub struct EditorState {
    pub path: Option<String>,
    pub contents: String,
    pub channel: PathChannel,
}

/// The view of an optional string.
pub open spec fn opt_view(p: Option<String>) -> Option<Seq<char>> {
    match p {
        Some(s) => Some(s@),
        None => None,
    }
}

impl View for EditorState {
    type V = StateView;

    open spec fn view(&self) -> StateView {
        StateView { path: opt_view(self.path), contents: self.contents@ }
    }
}

/// A freshly loaded state: the given path, no contents.
pub open spec fn fresh_state(path: Option<Seq<char>>) -> StateView {
    StateView { path: path, contents: Seq::empty() }
}

/// The one key of the configuration table.
pub open spec fn path_key() -> Seq<char> {
    seq!['p', 'a', 't', 'h']
}

/// The path that a configuration table gives, or why it gives none: every key
/// must be `path`, and its value must be a string; an empty table gives no path.
pub open spec fn decode_entries(e: Seq<(Seq<char>, Option<Seq<char>>)>) -> Result<Option<Seq<char>>, ConfigError> {
    if exists|i: int| 0 <= i < e.len() && e[i].0 != path_key() {
        Err(ConfigError::UnknownField)
    } else if exists|i: int| 0 <= i < e.len() && e[i].1 is None {
        Err(ConfigError::PathNotText)
    } else if e.len() == 0 {
        Ok(None)
    } else {
        Ok(e[0].1)
    }
}

/// What decoding a table yields, as a view.
pub open spec fn entries_outcome(e: Seq<(Seq<char>, Option<Seq<char>>)>) -> Result<StateView, ConfigError> {
    match decode_entries(e) {
        Ok(p) => Ok(fresh_state(p)),
        Err(x) => Err(x),
    }
}

/// What loading the given configuration bytes yields, as a view.
pub open spec fn load_outcome(bytes: Seq<u8>) -> Result<StateView, ConfigError> {
    match toml_entries(bytes) {
        None => Err(ConfigError::Syntax),
        Some(e) => entries_outcome(e),
    }
}

/// The entries that the persisted form of a state holds.
pub open spec fn durable_entries(v: StateView) -> Seq<(Seq<char>, Seq<char>)> {
    match v.path {
        Some(p) => seq![(path_key(), p)],
        None => seq![],
    }
}

/// What saving a state yields: the bytes to write, or why there are none.
pub open spec fn save_outcome(v: StateView) -> Result<Seq<u8>, ConfigError> {
    match toml_document(durable_entries(v)) {
        Some(b) => Ok(b),
        None => Err(ConfigError::Encode),
    }
}

/// The view of a state result.
pub open spec fn state_outcome(r: Result<EditorState, ConfigError>) -> Result<StateView, ConfigError> {
    match r {
        Ok(s) => Ok(s@),
        Err(x) => Err(x),
    }
}

/// The entries of a persisted form as the reader hands them back: each value
/// a string.
pub open spec fn as_read(e: Seq<(Seq<char>, Seq<char>)>) -> Seq<(Seq<char>, Option<Seq<char>>)> {
    e.map_values(|x: (Seq<char>, Seq<char>)| (x.0, Some(x.1)))
}

/// Round trip of the persisted form: decoding the entries that a state
/// persists, each handed back as a string, yields that state's path with
/// empty contents, whatever the contents were.
pub proof fn lemma_round_trip(s: EditorState)
    ensures
        entries_outcome(as_read(durable_entries(s@))) == Ok::<StateView, ConfigError>(fresh_state(s@.path)),
{
    let e = as_read(durable_entries(s@));
    match s@.path {
        Some(p) => {
            assert(e[0] == (path_key(), Some(p)));
            assert(e.len() == 1);
        },
        None => {
            assert(e.len() == 0);
        },
    }
}

/// Loading the bytes that saving a state gave yields that state's path with
/// empty contents, wherever the TOML reader hands back the table that the
/// TOML writer encoded.
pub proof fn lemma_load_after_save(s: EditorState, bytes: Seq<u8>)
    requires
        save_outcome(s@) == Ok::<Seq<u8>, ConfigError>(bytes),
        toml_entries(bytes) == Some(as_read(durable_entries(s@))),
    ensures
        load_outcome(bytes) == Ok::<StateView, ConfigError>(fresh_state(s@.path)),
{
    lemma_round_trip(s);
}

fn path_key_string() -> (r: String)
    ensures
        r@ == path_key(),
{
    proof {
        reveal_strlit("path");
    }
    "path".to_owned()
}

impl EditorState {
    /// Builds the state that a configuration table describes, with no
    /// contents; fails unless every key is `path` with a string value.
    pub fn from_entries(entries: &Vec<(String, Option<String>)>) -> (r: Result<EditorState, ConfigError>)
        ensures
            state_outcome(r) == entries_outcome(entries.deep_view()),
    {
        let ghost e = entries.deep_view();
        let key = path_key_string();
        let mut i: usize = 0;
        while i < entries.len()
            invariant
                e == entries.deep_view(),
                key@ == path_key(),
                0 <= i <= entries.len(),
                forall|j: int| 0 <= j < i ==> e[j].0 == path_key(),
            decreases entries.len() - i,
        {
            if entries[i].0 != key {
                assert(e[i as int].0 != path_key());
                return Err(ConfigError::UnknownField);
            }
            i = i + 1;
        }
        let mut i: usize = 0;
        while i < entries.len()
            invariant
                e == entries.deep_view(),
                0 <= i <= entries.len(),
                forall|j: int| 0 <= j < e.len() ==> e[j].0 == path_key(),
                forall|j: int| 0 <= j < i ==> e[j].1 is Some,
            decreases entries.len() - i,
        {
            if entries[i].1.is_none() {
                assert(e[i as int].1 is None);
                return Err(ConfigError::PathNotText);
            }
            i = i + 1;
        }
        let path = if entries.len() == 0 {
            None
        } else {
            match &entries[0].1 {
                Some(p) => Some(p.clone()),
                None => None,
            }
        };
        Ok(EditorState { path, contents: String::new(), channel: new_channel() })
    }

    /// Decodes the bytes of the configuration file. Only the durable path is
    /// read; the contents start empty. Fails when the bytes are no TOML
    /// document, or the document is not a session record.
    pub fn load(bytes: &[u8]) -> (r: Result<EditorState, ConfigError>)
        ensures
            state_outcome(r) == load_outcome(bytes@),
    {
        match read_table(bytes) {
            Ok(entries) => EditorState::from_entries(&entries),
            Err(_) => Err(ConfigError::Syntax),
        }
    }

    /// The entries of the persisted form: `path`, when one is set.
    pub fn durable_entries(&self) -> (r: Vec<(String, String)>)
        ensures
            r.deep_view() == durable_entries(self@),
    {
        let mut r: Vec<(String, String)> = Vec::new();
        match &self.path {
            Some(p) => {
                r.push((path_key_string(), p.clone()));
                assert(r.deep_view() =~= durable_entries(self@));
            },
            None => {
                assert(r.deep_view() =~= durable_entries(self@));
            },
        }
        r
    }

    /// Encodes the durable fields into the bytes of the configuration file.
    pub fn save(&self) -> (r: Result<Vec<u8>, ConfigError>)
        ensures
            match r {
                Ok(b) => save_outcome(self@) == Ok::<Seq<u8>, ConfigError>(b@),
                Err(x) => save_outcome(self@) == Err::<Seq<u8>, ConfigError>(x),
            },
    {
        let entries = self.durable_entries();
        match write_table(&entries) {
            Ok(b) => Ok(b),
            Err(_) => Err(ConfigError::Encode),
        }
    }

    /// A state with the given path and contents and a new channel.
    pub fn with_path(path: Option<String>, contents: String) -> (r: EditorState)
        ensures
            r@ == (StateView { path: opt_view(path), contents: contents@ }),
    {
        EditorState { path, contents, channel: new_channel() }
    }

    /// The last opened path, if any.
    pub fn path(&self) -> (r: Option<&str>)
        ensures
            match r {
                Some(p) => self@.path == Some(p@),
                None => self@.path is None,
            },
    {
        match &self.path {
            Some(p) => Some(p.as_str()),
            None => None,
        }
    }

    /// The text of the open file.
    pub fn contents(&self) -> (r: &str)
        ensures
            r@ == self@.contents,
    {
        self.contents.as_str()
    }
}

impl Default for EditorState {
    fn default() -> (r: EditorState)
        ensures
            r@ == fresh_state(None),
    {
        EditorState { path: None, contents: String::new(), channel: new_channel() }
    }
}

} // verus!

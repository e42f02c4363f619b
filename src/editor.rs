use vstd::prelude::*;

use crate::state::{fresh_state, load_outcome, save_outcome, ConfigError, EditorState, StateView};

verus! {

#[verifier::external_type_specification]
#[verifier::external_body]
pub struct ExIoError(std::io::Error);

/// The state that a session starts from: what the configuration bytes decode
/// to, or the default state when there are none or they do not decode.
pub open spec fn startup_state(saved: Option<Seq<u8>>) -> StateView {
    match saved {
        Some(b) => match load_outcome(b) {
            Ok(v) => v,
            Err(_) => fresh_state(None),
        },
        None => fresh_state(None),
    }
}

/// The editor session: the session state and the operations that the user
/// interface calls.
#[derive(Debug)]
pub struct EditorApp {
    pub state: EditorState,
}

impl View for EditorApp {
    type V = StateView;

    open spec fn view(&self) -> StateView {
        self.state@
    }
}

impl EditorApp {
    /// Starts a session from the bytes of the configuration file, if it
    /// could be read. A missing, unreadable or malformed file gives the
    /// default state.
    pub fn new(saved: Option<&[u8]>) -> (r: EditorApp)
        ensures
            r@ == startup_state(
                match saved {
                    Some(b) => Some(b@),
                    None => None,
                },
            ),
    {
        let state = match saved {
            Some(b) => match EditorState::load(b) {
                Ok(s) => s,
                Err(_) => EditorState::default(),
            },
            None => EditorState::default(),
        };
        EditorApp { state }
    }

    /// Applies the outcome of reading the file at `path`. On success the
    /// text replaces the contents and `path` becomes the session's path; on
    /// failure the session is left as it was and the error is handed back.
    pub fn open_file(&mut self, path: String, read: Result<String, std::io::Error>) -> (r: Result<(), std::io::Error>)
        ensures
            match read {
                Ok(text) => r is Ok && final(self)@ == (StateView { path: Some(path@), contents: text@ }),
                Err(_) => r is Err && final(self)@ == old(self)@,
            },
    {
        match read {
            Ok(text) => {
                self.state.contents = text;
                self.state.path = Some(path);
                Ok(())
            },
            Err(e) => Err(e),
        }
    }

    /// Replaces the contents with text edited by the user; the path stays.
    pub fn set_contents(&mut self, text: String)
        ensures
            final(self)@ == (StateView { path: old(self)@.path, contents: text@ }),
    {
        self.state.contents = text;
    }

    /// The bytes of the configuration file that persist this session.
    pub fn save_state(&self) -> (r: Result<Vec<u8>, ConfigError>)
        ensures
            match r {
                Ok(b) => save_outcome(self@) == Ok::<Seq<u8>, ConfigError>(b@),
                Err(x) => save_outcome(self@) == Err::<Seq<u8>, ConfigError>(x),
            },
    {
        self.state.save()
    }

    /// The session state.
    pub fn state(&self) -> (r: &EditorState)
        ensures
            r@ == self@,
    {
        &self.state
    }
}

} // verus!

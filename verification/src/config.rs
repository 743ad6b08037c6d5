//! What the client is started with: where the server is, set once and handed
//! to whatever talks to the server, and what the client is asked to do.

use vstd::prelude::*;

verus! {

/// The client's configuration.
pub struct ClientConfig {
    server_url: String,
}

impl View for ClientConfig {
    type V = Seq<char>;

    closed spec fn view(&self) -> Seq<char> {
        self.server_url@
    }
}

impl ClientConfig {
    /// A configuration for the server at `server_url`.
    pub fn new(server_url: String) -> (config: ClientConfig)
        ensures
            config@ == server_url@,
    {
        ClientConfig { server_url }
    }
}

/// The address of the server.
pub fn get_url(config: &ClientConfig) -> (url: String)
    ensures
        url@ == config@,
{
    config.server_url.clone()
}

/// What one run of the client does.
#[derive(Debug, PartialEq, Eq)]
pub enum Mode {
    /// Run the interactive loop.
    Interactive,
    /// Send `message`, if there is one; then print the history, if `get` is
    /// set; then leave.
    OneShot { message: Option<String>, get: bool },
}

/// The mathematical value of a [`Mode`].
pub enum ModeView {
    Interactive,
    OneShot { message: Option<Seq<char>>, get: bool },
}

/// The text of a message that may be missing.
pub open spec fn text_view(message: Option<String>) -> Option<Seq<char>> {
    match message {
        Some(text) => Some(text@),
        None => None,
    }
}

impl View for Mode {
    type V = ModeView;

    open spec fn view(&self) -> ModeView {
        match *self {
            Mode::Interactive => ModeView::Interactive,
            Mode::OneShot { message, get } => ModeView::OneShot {
                message: text_view(message),
                get,
            },
        }
    }
}

/// The mode for what was asked: the interactive loop unless a message to
/// send or a printing of the history was asked for.
pub open spec fn mode_of(message: Option<Seq<char>>, get: bool) -> ModeView {
    if message.is_none() && !get {
        ModeView::Interactive
    } else {
        ModeView::OneShot { message, get }
    }
}

/// Picks the mode of this run.
pub fn choose_mode(message: Option<String>, get: bool) -> (mode: Mode)
    ensures
        mode@ == mode_of(text_view(message), get),
{
    if message.is_none() && !get {
        Mode::Interactive
    } else {
        Mode::OneShot { message, get }
    }
}

} // verus!

//! The chat window's state and how each user action or network event changes it.
use vstd::prelude::*;
use std::collections::VecDeque;
use crate::net::Connection;

verus! {

/// How many messages the window keeps; older ones are dropped first.
pub const HISTORY_LIMIT: usize = 10;

/// A message shown in the window: one this client sent, or one it received.
#[derive(Clone, Debug)]
pub enum TextMessage {
    SelfSend(String),
    OtherSend(String),
}

/// Whether the window holds a handle to a live session.
#[derive(Clone, Copy, Debug, PartialEq, Eq, Structural)]
pub enum AppStatus {
    Disconnected,
    Connected(Connection),
}

/// What the window reacts to.
#[derive(Clone, Debug)]
pub enum Message {
    /// The message field was edited.
    Input(String),
    /// A message arrived from the server.
    User(String),
    /// The name field was edited.
    Name(String),
    /// The user asked to send the message field.
    Submit,
    Exit,
    Clear,
    /// A send finished.
    FinishedSend,
    Connected(Connection),
    Disconnected,
}

/// A text to send through a session's handle.
#[derive(Clone, Debug)]
pub struct Outgoing {
    pub handle: Connection,
    pub text: String,
}

/// A shown message as seen by contracts.
pub ghost enum Line {
    Mine(Seq<char>),
    Theirs(Seq<char>),
}

/// The window as seen by contracts.
pub ghost struct ChatState {
    pub input: Seq<char>,
    pub name: Seq<char>,
    pub history: Seq<Line>,
    pub exit: bool,
    pub status: AppStatus,
}

impl TextMessage {
    pub open spec fn line(&self) -> Line {
        match self {
            TextMessage::SelfSend(t) => Line::Mine(t@),
            TextMessage::OtherSend(t) => Line::Theirs(t@),
        }
    }
}

/// `h` with `l` appended, and its oldest line dropped if that makes it too long.
pub open spec fn push_capped(h: Seq<Line>, l: Line) -> Seq<Line> {
    if h.len() + 1 > HISTORY_LIMIT {
        h.push(l).drop_first()
    } else {
        h.push(l)
    }
}

/// The text sent for `input` under `name`; an empty name or message is
/// replaced by a placeholder.
pub open spec fn composed(name: Seq<char>, input: Seq<char>) -> Seq<char> {
    (if name.len() == 0 { "nobody"@ } else { name }) + " says: "@ + (if input.len() == 0 {
        "nothing"@
    } else {
        input
    })
}

/// How a received text is shown.
pub open spec fn received(text: Seq<char>) -> Seq<char> {
    "recv: "@ + text
}

/// The window after `m`.
pub open spec fn updated(c: ChatState, m: Message) -> ChatState {
    match m {
        Message::Input(v) => ChatState { input: v@, ..c },
        Message::User(v) => ChatState { history: push_capped(c.history, Line::Theirs(received(v@))), ..c },
        Message::Name(v) => ChatState { name: v@, ..c },
        Message::Submit => match c.status {
            AppStatus::Disconnected => c,
            AppStatus::Connected(_) => ChatState {
                history: push_capped(c.history, Line::Mine(composed(c.name, c.input))),
                input: Seq::empty(),
                ..c
            },
        },
        Message::Exit => ChatState { exit: true, ..c },
        Message::Clear => ChatState { history: Seq::empty(), ..c },
        Message::FinishedSend => c,
        Message::Connected(h) => ChatState { status: AppStatus::Connected(h), ..c },
        Message::Disconnected => ChatState { status: AppStatus::Disconnected, ..c },
    }
}

/// State of the chat window.
pub struct App {
    input_value: String,
    name_value: String,
    show_value: VecDeque<TextMessage>,
    should_exit: bool,
    connect_status: AppStatus,
}

impl View for App {
    type V = ChatState;

    closed spec fn view(&self) -> ChatState {
        ChatState {
            input: self.input_value@,
            name: self.name_value@,
            history: self.show_value@.map_values(|t: TextMessage| t.line()),
            exit: self.should_exit,
            status: self.connect_status,
        }
    }
}

impl App {
    pub closed spec fn wf(&self) -> bool {
        self.show_value@.len() <= HISTORY_LIMIT
    }

    /// An empty, disconnected window.
    pub fn new() -> (r: App)
        ensures
            r.wf(),
            r@ == (ChatState {
                input: Seq::empty(),
                name: Seq::empty(),
                history: Seq::empty(),
                exit: false,
                status: AppStatus::Disconnected,
            }),
    {
        let app = App {
            input_value: String::new(),
            name_value: String::new(),
            show_value: VecDeque::new(),
            should_exit: false,
            connect_status: AppStatus::Disconnected,
        };
        proof {
            assert(app.show_value@.map_values(|m: TextMessage| m.line()) =~= Seq::<Line>::empty());
        }
        app
    }

    pub fn title(&self) -> (r: String)
        ensures
            r@ == "sjq chat"@,
    {
        String::from_str("sjq chat")
    }

    pub fn should_exit(&self) -> (r: bool)
        ensures
            r == self@.exit,
    {
        self.should_exit
    }

    pub fn input_value(&self) -> (r: &String)
        ensures
            r@ == self@.input,
    {
        &self.input_value
    }

    pub fn name_value(&self) -> (r: &String)
        ensures
            r@ == self@.name,
    {
        &self.name_value
    }

    pub fn connect_status(&self) -> (r: AppStatus)
        ensures
            r == self@.status,
    {
        self.connect_status
    }

    /// The shown messages, oldest first.
    pub fn history(&self) -> (r: &VecDeque<TextMessage>)
        ensures
            r@.map_values(|t: TextMessage| t.line()) == self@.history,
    {
        &self.show_value
    }

    /// Label of the send button.
    pub fn submit_label(&self) -> (r: &'static str)
        ensures
            r@ == (if self@.status is Connected { "send"@ } else { "cannot send! disconnected"@ }),
    {
        match self.connect_status {
            AppStatus::Connected(_) => "send",
            AppStatus::Disconnected => "cannot send! disconnected",
        }
    }

    fn push_line(&mut self, t: TextMessage)
        requires
            old(self).wf(),
        ensures
            final(self).wf(),
            final(self)@ == (ChatState { history: push_capped(old(self)@.history, t.line()), ..old(self)@ }),
    {
        let ghost before = self.show_value@;
        self.show_value.push_back(t);
        proof {
            assert(self.show_value@ == before.push(t));
            assert(self.show_value@.map_values(|m: TextMessage| m.line()) =~= before.map_values(
                |m: TextMessage| m.line(),
            ).push(t.line()));
        }
        if self.show_value.len() > HISTORY_LIMIT {
            let ghost full = self.show_value@;
            let _ = self.show_value.pop_front();
            proof {
                assert(self.show_value@ == full.drop_first());
                assert(self.show_value@.map_values(|m: TextMessage| m.line()) =~= full.map_values(
                    |m: TextMessage| m.line(),
                ).drop_first());
            }
        }
    }

    /// Applies `message` to the window. Returns the text to send, and the
    /// handle to send it through, when the user submits while connected.
    pub fn update(&mut self, message: Message) -> (r: Option<Outgoing>)
        requires
            old(self).wf(),
        ensures
            final(self).wf(),
            final(self)@ == updated(old(self)@, message),
            r is Some <==> (message is Submit && old(self)@.status is Connected),
            r matches Some(o) ==> old(self)@.status == AppStatus::Connected(o.handle) && o.text@ == composed(
                old(self)@.name,
                old(self)@.input,
            ),
    {
        match message {
            Message::Input(value) => {
                self.input_value = value;
                None
            },
            Message::User(value) => {
                let shown = String::from_str("recv: ").concat(value.as_str());
                self.push_line(TextMessage::OtherSend(shown));
                None
            },
            Message::Name(value) => {
                self.name_value = value;
                None
            },
            Message::Submit => match self.connect_status {
                AppStatus::Disconnected => None,
                AppStatus::Connected(handle) => {
                    let who = if self.name_value.as_str().is_empty() {
                        String::from_str("nobody")
                    } else {
                        self.name_value.clone()
                    };
                    let what: &str = if self.input_value.as_str().is_empty() {
                        "nothing"
                    } else {
                        self.input_value.as_str()
                    };
                    let text = who.concat(" says: ").concat(what);
                    self.push_line(TextMessage::SelfSend(text.clone()));
                    self.input_value = String::new();
                    Some(Outgoing { handle, text })
                },
            },
            Message::Exit => {
                self.should_exit = true;
                None
            },
            Message::Clear => {
                self.show_value.clear();
                proof {
                    assert(self.show_value@.map_values(|m: TextMessage| m.line()) =~= Seq::<Line>::empty());
                }
                None
            },
            Message::FinishedSend => None,
            Message::Connected(handle) => {
                self.connect_status = AppStatus::Connected(handle);
                None
            },
            Message::Disconnected => {
                self.connect_status = AppStatus::Disconnected;
                None
            },
        }
    }
}

} // verus!

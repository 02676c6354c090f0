//! The state of the client's window: where it stands, what runs in the background, and what each
//! event does to it.

use crate::client::message::{message_bytes, write_message, MessageType};
use crate::client::receive::{connection_lost_message, connection_lost_text, PollAction};
use crate::client::share::{ShareSource, ShareSources};
use crate::client::video::VideoFrame;
use crate::text::{
    a_suffix_is_taken_off, ends_with_text, has_firm_ends, is_blank, is_white_space_char, joined,
    leading_cut_stays_in_front, no_space_leads, no_suffix_is_left,
    nothing_is_left_of_white_space, repeated,
    suffixes_are_taken_off_and_nothing_else, trailing_cut_leaves_the_front, trim,
    trim_end_matches, trimmed, trimming_keeps_what_stands_between, without_leading_space,
    without_suffixes,
};
use vstd::prelude::*;

verus! {

/// The port of the relay, as it stands behind a host.
pub const PORT_SUFFIX: &'static str = ":1337";

/// What stands in the field for the server at first.
pub const DEFAULT_SERVER: &'static str = "192.168.1.125";

/// What the empty field for the server says.
pub const SERVER_PLACEHOLDER: &'static str = "Server IP";

/// How long connecting may take, in nanoseconds.
pub const CONNECT_TIMEOUT: u128 = 5_000_000_000;

/// How often the relay hears from a client that has nothing to say, in nanoseconds.
pub const KEEPALIVE_INTERVAL: u128 = 2_000_000_000;

/// The two screens.
#[derive(Clone, Copy, Debug, PartialEq, Eq, Structural)]
pub enum AppView {
    Connect,
    Connected,
}

/// How far connecting has come.
#[derive(Debug)]
pub enum ConnectionStatus {
    Idle,
    Connecting,
    /// It failed, or the connection was lost, for this reason.
    Failed(String),
}

/// The field for the server.
#[derive(Debug)]
pub struct ServerInput {
    pub content: String,
    pub disabled: bool,
}

/// The state of the window.
#[derive(Debug)]
pub struct PommeApp {
    pub view: AppView,
    pub server_input: ServerInput,
    pub connection_status: ConnectionStatus,
    /// A connection is held.
    pub connection: bool,
    /// What runs in the background: connecting, pinging, receiving, sharing, listing windows.
    pub connect_task: bool,
    pub keepalive_task: bool,
    pub receive_task: bool,
    pub send_task: bool,
    pub share_sources_task: bool,
    pub share_sources: ShareSources,
    /// The latest frame.
    pub frame: Option<VideoFrame>,
    pub share_modal_open: bool,
}

/// The address of the relay on a server that was typed in: without white space around it, and with
/// the port behind it once, whether or not it was typed.
pub open spec fn server_address_spec(content: Seq<char>) -> Seq<char> {
    without_suffixes(trimmed(content), PORT_SUFFIX@) + PORT_SUFFIX@
}

/// The address of the relay on a server that was typed in.
pub fn server_address(content: &str) -> (address: String)
    ensures
        address@ == server_address_spec(content@),
{
    proof {
        reveal_strlit(":1337");
    }
    let host = trim_end_matches(trim(content).as_str(), PORT_SUFFIX);
    joined(host.as_str(), PORT_SUFFIX)
}

/// The address of an address is the address itself.
pub proof fn an_address_stays_as_it_is(content: Seq<char>)
    ensures
        server_address_spec(server_address_spec(content)) == server_address_spec(content),
{
    reveal_strlit(":1337");
    let port = PORT_SUFFIX@;
    let inner = without_leading_space(content);
    let host = without_suffixes(trimmed(content), port);
    let address = host + port;
    no_space_leads(content);
    trailing_cut_leaves_the_front(inner);
    no_suffix_is_left(trimmed(content), port);
    assert(!is_white_space_char(address[0])) by {
        if host.len() > 0 {
            assert(host[0] == inner[0]);
        }
    }
    assert(address.last() == '7');
    assert(trimmed(address) == address);
    a_suffix_is_taken_off(host, port);
}

/// Typing the port behind a server changes nothing, unless there is white space between them.
pub proof fn the_port_need_not_be_typed(content: Seq<char>)
    requires
        content.len() == 0 || !is_white_space_char(content.last()),
    ensures
        server_address_spec(content + PORT_SUFFIX@) == server_address_spec(content),
{
    reveal_strlit(":1337");
    let port = PORT_SUFFIX@;
    assert((content + port).last() == '7');
    if content.len() == 0 {
        assert(content + port =~= port);
        assert(trimmed(port) == port);
        a_suffix_is_taken_off(content, port);
        assert(trimmed(content) =~= content);
    } else {
        leading_cut_stays_in_front(content, port);
        let inner = without_leading_space(content);
        assert((inner + port).last() == '7');
        assert(trimmed(content) == inner);
        a_suffix_is_taken_off(inner, port);
    }
}

/// What became of the attempt to connect: why it failed, or whether the connection could be held
/// twice more, for pinging and for receiving.
pub type ConnectResult = Result<(Result<(), String>, Result<(), String>), String>;

/// Why connecting failed, in words. `None` if it did not.
pub open spec fn connect_failure(result: ConnectResult) -> Option<Seq<char>> {
    match result {
        Err(message) => Some("Failed to connect: "@ + message@),
        Ok((Err(error), _)) => Some("Failed to hold connection: "@ + error@),
        Ok((Ok(()), Err(error))) => Some("Failed to hold connection: "@ + error@),
        Ok((Ok(()), Ok(()))) => None,
    }
}

impl PommeApp {
    /// What holds of the window at all times.
    pub open spec fn wf(self) -> bool {
        // The connected screen is shown exactly while a connection is held and looked after.
        &&& self.view == AppView::Connected <==> self.connection
        &&& self.keepalive_task <==> self.connection
        &&& self.receive_task <==> self.connection
        &&& self.connection ==> self.connection_status is Idle
        // The server can be typed in exactly while nothing is being connected to.
        &&& self.server_input.disabled <==> self.connection_status is Connecting
        &&& self.connection_status is Connecting ==> self.connect_task
        // Nothing of a connection outlives it.
        &&& self.send_task ==> self.connection
        &&& self.frame is Some ==> self.connection
        &&& self.share_modal_open ==> self.connection
        &&& self.share_sources_task ==> self.connection
        // Windows that are waited for are being listed.
        &&& self.share_modal_open ==> self.share_sources !is Idle
        &&& self.share_modal_open && self.share_sources is Loading ==> self.share_sources_task
    }

    /// The window at the start.
    pub fn new() -> (app: PommeApp)
        ensures
            app.wf(),
            app.view == AppView::Connect,
            app.server_input.content@ == DEFAULT_SERVER@,
            app.connection_status is Idle,
            app.share_sources is Idle,
            !app.connect_task,
            !app.share_modal_open,
    {
        PommeApp {
            view: AppView::Connect,
            server_input: ServerInput { content: DEFAULT_SERVER.to_owned(), disabled: false },
            connection_status: ConnectionStatus::Idle,
            connection: false,
            connect_task: false,
            keepalive_task: false,
            receive_task: false,
            send_task: false,
            share_sources_task: false,
            share_sources: ShareSources::Idle,
            frame: None,
            share_modal_open: false,
        }
    }

    /// The window while it connects.
    pub open spec fn connecting(self) -> PommeApp {
        PommeApp {
            connection_status: ConnectionStatus::Connecting,
            server_input: ServerInput { disabled: true, ..self.server_input },
            connect_task: true,
            ..self
        }
    }

    /// Starts connecting. Gives the address to connect to, and nothing if the window connects
    /// already.
    pub fn start_connect(&mut self) -> (address: Option<String>)
        ensures
            old(self).connection_status is Connecting ==> address is None && *final(self) == *old(
                self,
            ),
            !(old(self).connection_status is Connecting) ==> {
                &&& address matches Some(text) && text@ == server_address_spec(
                    old(self).server_input.content@,
                )
                &&& *final(self) == old(self).connecting()
            },
            old(self).wf() && old(self).view == AppView::Connect ==> final(self).wf(),
    {
        if let ConnectionStatus::Connecting = self.connection_status {
            return None;
        }
        let address = server_address(self.server_input.content.as_str());
        self.connection_status = ConnectionStatus::Connecting;
        self.server_input.disabled = true;
        self.connect_task = true;
        Some(address)
    }

    /// The window after the attempt to connect: connected, or as before with the reason.
    pub open spec fn connect_finished_spec(self, result: ConnectResult, after: PommeApp) -> bool {
        match connect_failure(result) {
            None => after == (PommeApp {
                server_input: ServerInput { disabled: false, ..self.server_input },
                connection: true,
                connection_status: ConnectionStatus::Idle,
                view: AppView::Connected,
                keepalive_task: true,
                receive_task: true,
                ..self
            }),
            Some(reason) => {
                &&& after.connection_status matches ConnectionStatus::Failed(text)
                &&& text@ == reason
                &&& after == (PommeApp {
                    server_input: ServerInput { disabled: false, ..self.server_input },
                    connection_status: after.connection_status,
                    ..self
                })
            },
        }
    }

    /// The attempt to connect is over. Gives whether pinging and receiving are to be started.
    pub fn connect_finished(&mut self, result: ConnectResult) -> (start: bool)
        ensures
            start == (connect_failure(result) is None),
            old(self).connect_finished_spec(result, *final(self)),
            old(self).wf() && old(self).connection_status is Connecting ==> final(self).wf(),
    {
        self.server_input.disabled = false;
        match result {
            Ok((Ok(()), Ok(()))) => {
                self.connection = true;
                self.connection_status = ConnectionStatus::Idle;
                self.view = AppView::Connected;
                self.keepalive_task = true;
                self.receive_task = true;
                true
            },
            Ok((Err(error), _)) => {
                self.connection_status = ConnectionStatus::Failed(
                    joined("Failed to hold connection: ", error.as_str()),
                );
                false
            },
            Ok((Ok(()), Err(error))) => {
                self.connection_status = ConnectionStatus::Failed(
                    joined("Failed to hold connection: ", error.as_str()),
                );
                false
            },
            Err(message) => {
                self.connection_status = ConnectionStatus::Failed(
                    joined("Failed to connect: ", message.as_str()),
                );
                false
            },
        }
    }

    /// The window without a connection.
    pub open spec fn disconnected(self, status: ConnectionStatus) -> PommeApp {
        PommeApp {
            connection: false,
            keepalive_task: false,
            receive_task: false,
            send_task: false,
            share_sources_task: false,
            frame: None,
            share_modal_open: false,
            view: AppView::Connect,
            connection_status: status,
            server_input: ServerInput { disabled: false, ..self.server_input },
            ..self
        }
    }

    /// Drops everything that belongs to a connection and goes back to the first screen.
    fn drop_connection(&mut self, status: ConnectionStatus)
        ensures
            *final(self) == old(self).disconnected(status),
    {
        self.connection = false;
        self.keepalive_task = false;
        self.receive_task = false;
        self.send_task = false;
        self.share_sources_task = false;
        self.frame = None;
        self.share_modal_open = false;
        self.view = AppView::Connect;
        self.connection_status = status;
        self.server_input.disabled = false;
    }

    /// The connection is lost: the window goes back to the first screen, with the reason.
    pub fn connection_lost(&mut self, message: String)
        ensures
            *final(self) == old(self).disconnected(ConnectionStatus::Failed(message)),
            final(self).wf(),
    {
        self.drop_connection(ConnectionStatus::Failed(message));
    }

    /// Lets the connection go. Gives what is to be sent before it is shut down, if there is one.
    pub fn disconnect(&mut self) -> (farewell: Option<Vec<u8>>)
        ensures
            farewell is Some <==> old(self).connection,
            farewell matches Some(bytes) ==> bytes@ == message_bytes(
                MessageType::Disconnect,
                Seq::empty(),
            ),
            *final(self) == old(self).disconnected(ConnectionStatus::Idle),
            final(self).wf(),
    {
        let farewell = if self.connection {
            Some(empty_message(MessageType::Disconnect))
        } else {
            None
        };
        self.drop_connection(ConnectionStatus::Idle);
        farewell
    }

    /// Something that runs in the background and uses the connection has ended. An error there
    /// means that the connection is lost.
    pub fn task_ended(&mut self, result: Result<(), String>)
        ensures
            match result {
                Ok(()) => *final(self) == *old(self),
                Err(message) => {
                    &&& final(self).connection_status matches ConnectionStatus::Failed(text)
                    &&& text@ == connection_lost_text(message@)
                    &&& *final(self) == old(self).disconnected(final(self).connection_status)
                },
            },
            old(self).wf() ==> final(self).wf(),
    {
        if let Err(message) = result {
            self.connection_lost(connection_lost_message(message.as_str()));
        }
    }

    /// The window after looking for news of the connection.
    pub open spec fn frame_polled_spec(self, action: PollAction) -> PommeApp {
        match action {
            PollAction::Nothing => self,
            PollAction::ClearFrame => PommeApp { frame: None, ..self },
            PollAction::Show(frame) => PommeApp { frame: Some(frame), ..self },
            PollAction::ConnectionLost(text) => self.disconnected(ConnectionStatus::Failed(text)),
        }
    }

    /// Does what looking for news of the connection asks for. Gives whether to look again.
    pub fn frame_polled(&mut self, action: PollAction) -> (again: bool)
        ensures
            *final(self) == old(self).frame_polled_spec(action),
            again == !(action is ConnectionLost),
            old(self).wf() && old(self).receive_task ==> final(self).wf(),
    {
        match action {
            PollAction::Nothing => true,
            PollAction::ClearFrame => {
                self.frame = None;
                true
            },
            PollAction::Show(frame) => {
                self.frame = Some(frame);
                true
            },
            PollAction::ConnectionLost(text) => {
                self.connection_lost(text);
                false
            },
        }
    }

    /// Starts sharing a window, in place of one that is shared already. `held` tells whether the
    /// connection could be held once more. Gives whether sharing is to be started.
    pub fn start_share_source(&mut self, held: bool) -> (start: bool)
        ensures
            start == (old(self).connection && held),
            start ==> *final(self) == (PommeApp {
                send_task: true,
                share_modal_open: false,
                ..*old(self)
            }),
            !start ==> *final(self) == *old(self),
            old(self).wf() ==> final(self).wf(),
    {
        if !self.connection || !held {
            return false;
        }
        self.share_modal_open = false;
        self.send_task = true;
        true
    }

    /// Starts listing windows.
    pub fn load_share_sources(&mut self)
        ensures
            *final(self) == (PommeApp {
                share_sources: ShareSources::Loading,
                share_sources_task: true,
                ..*old(self)
            }),
            old(self).wf() && old(self).connection ==> final(self).wf(),
    {
        self.share_sources = ShareSources::Loading;
        self.share_sources_task = true;
    }

    /// Opens the choice of windows, and lists them anew.
    pub fn open_share_modal(&mut self)
        ensures
            *final(self) == (PommeApp {
                share_modal_open: true,
                share_sources: ShareSources::Loading,
                share_sources_task: true,
                ..*old(self)
            }),
            old(self).wf() && old(self).connection ==> final(self).wf(),
    {
        self.share_modal_open = true;
        self.load_share_sources();
    }

    /// Closes the choice of windows.
    pub fn close_share_modal(&mut self)
        ensures
            *final(self) == (PommeApp { share_modal_open: false, ..*old(self) }),
            old(self).wf() ==> final(self).wf(),
    {
        self.share_modal_open = false;
    }

    /// The windows have been listed, or could not be.
    pub fn share_sources_loaded(&mut self, result: Result<Vec<ShareSource>, String>)
        ensures
            *final(self) == (PommeApp {
                share_sources: match result {
                    Ok(sources) => ShareSources::Loaded(sources),
                    Err(message) => ShareSources::Failed(message),
                },
                share_sources_task: false,
                ..*old(self)
            }),
            old(self).wf() ==> final(self).wf(),
    {
        self.share_sources = match result {
            Ok(sources) => ShareSources::Loaded(sources),
            Err(message) => ShareSources::Failed(message),
        };
        self.share_sources_task = false;
    }
}

/// A message without a payload.
pub fn empty_message(message_type: MessageType) -> (bytes: Vec<u8>)
    ensures
        bytes@ == message_bytes(message_type, Seq::empty()),
{
    let mut bytes: Vec<u8> = Vec::new();
    let payload: [u8; 0] = [];
    write_message(&mut bytes, message_type, &payload);
    assert(payload@ =~= Seq::<u8>::empty());
    assert(bytes@ =~= message_bytes(message_type, Seq::empty()));
    bytes
}

/// What the relay hears from a client that has nothing to say.
pub fn keepalive_message() -> (bytes: Vec<u8>)
    ensures
        bytes@ == message_bytes(MessageType::Ping, Seq::empty()),
{
    empty_message(MessageType::Ping)
}

/// The address of a server is the host that was typed, kept whole, with the port behind it once:
/// white space around what was typed, and ports at its end, do not count.
pub proof fn the_host_is_kept_whole(
    before: Seq<char>,
    host: Seq<char>,
    ports: nat,
    after: Seq<char>,
)
    requires
        is_blank(before),
        ({
            let typed = host + repeated(":1337"@, ports);
            typed.len() == 0 || has_firm_ends(typed)
        }),
        !ends_with_text(host, ":1337"@),
        is_blank(after),
    ensures
        server_address_spec(before + (host + repeated(":1337"@, ports)) + after) == host
            + ":1337"@,
{
    reveal_strlit(":1337");
    let port = ":1337"@;
    let typed = host + repeated(port, ports);
    if typed.len() == 0 {
        assert(host =~= typed);
        assert(before + typed + after =~= before + after);
        assert(is_blank(before + after));
        nothing_is_left_of_white_space(before + after);
        assert(trimmed(before + typed + after) =~= typed);
    } else {
        trimming_keeps_what_stands_between(before, typed, after);
    }
    suffixes_are_taken_off_and_nothing_else(host, port, ports);
}

/// A host that has no white space at its ends and does not end with the port is kept whole.
pub proof fn a_plain_host_is_kept_whole(content: Seq<char>)
    requires
        trimmed(content) == content,
        !ends_with_text(content, ":1337"@),
    ensures
        server_address_spec(content) == content + ":1337"@,
{
    reveal_strlit(":1337");
    let port = ":1337"@;
    suffixes_are_taken_off_and_nothing_else(content, port, 0);
    assert(content + repeated(port, 0) =~= content);
}

/// Two servers that are not the same have different addresses.
pub proof fn addresses_tell_hosts_apart(a: Seq<char>, b: Seq<char>)
    requires
        has_firm_ends(a),
        has_firm_ends(b),
        !ends_with_text(a, ":1337"@),
        !ends_with_text(b, ":1337"@),
        server_address_spec(a) == server_address_spec(b),
    ensures
        a == b,
{
    reveal_strlit(":1337");
    let nothing = Seq::<char>::empty();
    trimming_keeps_what_stands_between(nothing, a, nothing);
    trimming_keeps_what_stands_between(nothing, b, nothing);
    assert(nothing + a + nothing =~= a);
    assert(nothing + b + nothing =~= b);
    a_plain_host_is_kept_whole(a);
    a_plain_host_is_kept_whole(b);
    let address = server_address_spec(a);
    assert(a =~= address.subrange(0, address.len() - 5));
    assert(b =~= address.subrange(0, address.len() - 5));
}

/// While it connects, the window waits and cannot be typed in, and nothing else about it changes.
pub proof fn connecting_changes_nothing_else(app: PommeApp)
    ensures
        app.connecting().connection_status is Connecting,
        app.connecting().server_input.disabled,
        app.connecting().server_input.content == app.server_input.content,
        app.connecting().connect_task,
        app.connecting().view == app.view,
        app.connecting().connection == app.connection,
        app.connecting().keepalive_task == app.keepalive_task,
        app.connecting().receive_task == app.receive_task,
        app.connecting().send_task == app.send_task,
        app.connecting().share_sources_task == app.share_sources_task,
        app.connecting().share_sources == app.share_sources,
        app.connecting().frame == app.frame,
        app.connecting().share_modal_open == app.share_modal_open,
{
}

/// A connection that could be held is held and looked after, and the second screen is shown.
pub proof fn a_connection_is_held(app: PommeApp, after: PommeApp)
    requires
        app.connect_finished_spec(Ok((Ok(()), Ok(()))), after),
    ensures
        connect_failure(Ok((Ok(()), Ok(())))) is None,
        after.connection,
        after.view == AppView::Connected,
        after.connection_status is Idle,
        after.keepalive_task,
        after.receive_task,
        !after.server_input.disabled,
        after.server_input.content == app.server_input.content,
        after.frame == app.frame,
        after.send_task == app.send_task,
        after.share_sources == app.share_sources,
        after.share_sources_task == app.share_sources_task,
        after.share_modal_open == app.share_modal_open,
        after.connect_task == app.connect_task,
{
}

/// An attempt that failed leaves no connection behind: the window stands as it did, can be typed
/// in, and says why. What could not be held is told from what could not be reached, and of two
/// reasons the first is given.
pub proof fn a_failed_attempt_is_explained(app: PommeApp, result: ConnectResult, after: PommeApp)
    requires
        app.connect_finished_spec(result, after),
        !(result matches Ok((Ok(_), Ok(_)))),
    ensures
        connect_failure(result) is Some,
        after.connection_status matches ConnectionStatus::Failed(text) && text@ == (match result {
            Err(message) => "Failed to connect: "@ + message@,
            Ok((Err(error), _)) => "Failed to hold connection: "@ + error@,
            Ok((_, Err(error))) => "Failed to hold connection: "@ + error@,
            _ => Seq::empty(),
        }),
        !after.server_input.disabled,
        after.server_input.content == app.server_input.content,
        after.connection == app.connection,
        after.view == app.view,
        after.keepalive_task == app.keepalive_task,
        after.receive_task == app.receive_task,
        after.frame == app.frame,
        after.send_task == app.send_task,
        after.share_sources == app.share_sources,
        after.share_modal_open == app.share_modal_open,
{
}

/// Nothing of a connection is left when it is gone, but the server that was typed in and the
/// windows that were listed are.
pub proof fn nothing_is_left_of_a_connection(app: PommeApp, status: ConnectionStatus)
    ensures
        ({
            let after = app.disconnected(status);
            &&& !after.connection
            &&& !after.keepalive_task
            &&& !after.receive_task
            &&& !after.send_task
            &&& !after.share_sources_task
            &&& after.frame is None
            &&& !after.share_modal_open
            &&& after.view == AppView::Connect
            &&& after.connection_status == status
            &&& !after.server_input.disabled
            &&& after.server_input.content == app.server_input.content
            &&& after.share_sources == app.share_sources
            &&& after.connect_task == app.connect_task
        }),
{
}

/// The window does what looking for news asks for: a frame takes the place of the one before, a
/// frame that is too old goes, a lost connection ends with its reason, and no news changes nothing.
pub proof fn the_window_follows_the_news(app: PommeApp, frame: VideoFrame, text: String)
    ensures
        app.frame_polled_spec(PollAction::Nothing) == app,
        app.frame_polled_spec(PollAction::ClearFrame) == (PommeApp { frame: None, ..app }),
        app.frame_polled_spec(PollAction::Show(frame)) == (PommeApp { frame: Some(frame), ..app }),
        app.frame_polled_spec(PollAction::ConnectionLost(text)) == app.disconnected(
            ConnectionStatus::Failed(text),
        ),
{
}

/// A ping, and the word of farewell, are five bytes: a length of one, and the type.
pub proof fn messages_without_a_payload_are_five_bytes()
    ensures
        message_bytes(MessageType::Ping, Seq::empty()) == seq![0u8, 0, 0, 1, 0],
        message_bytes(MessageType::Disconnect, Seq::empty()) == seq![0u8, 0, 0, 1, 2],
{
    assert(message_bytes(MessageType::Ping, Seq::empty()) =~= seq![0u8, 0, 0, 1, 0]);
    assert(message_bytes(MessageType::Disconnect, Seq::empty()) =~= seq![0u8, 0, 0, 1, 2]);
}

/// While a connection is held the second screen is shown, and the connection is pinged and received
/// from. Without one there is no frame, nothing is shared and nothing is chosen from. The server can
/// be typed in unless the window connects.
pub proof fn a_window_in_order_holds_together(app: PommeApp)
    requires
        app.wf(),
    ensures
        app.connection <==> app.view == AppView::Connected,
        app.connection ==> app.keepalive_task && app.receive_task && app.connection_status is Idle,
        !app.connection ==> !app.keepalive_task && !app.receive_task && !app.send_task
            && !app.share_modal_open && !app.share_sources_task && app.frame is None,
        app.server_input.disabled <==> app.connection_status is Connecting,
        app.share_modal_open && app.share_sources is Loading ==> app.share_sources_task,
{
}

} // verus!

use vstd::prelude::*;
use crate::ports::{ConnectStep, ReadStep, ReceivedItem};

verus! {

/// How a browser WebSocket port reaches its server.
pub struct WasmSettingsClient {
    pub url: String,
    pub try_reconnect: bool,
}

impl WasmSettingsClient {
    pub fn new(url: String, try_reconnect: bool) -> (settings: Self)
        ensures
            settings.url == url,
            settings.try_reconnect == try_reconnect,
    {
        WasmSettingsClient { url, try_reconnect }
    }
}

impl Default for WasmSettingsClient {
    /// `ws://127.0.0.1:1234`, reconnecting.
    fn default() -> (settings: Self)
        ensures
            settings.url@ == "ws://127.0.0.1:1234"@,
            settings.try_reconnect,
    {
        WasmSettingsClient::new("ws://127.0.0.1:1234".to_owned(), true)
    }
}

/// The state of a browser WebSocket port; `S` holds the two halves of its
/// socket once it is connected. Messages wait in `queue`, oldest first, until
/// a sending task writes them out; `sending` says whether one runs.
pub struct WasmClient<S> {
    pub settings: WasmSettingsClient,
    pub connecting: bool,
    pub connected: bool,
    pub listening: bool,
    pub main_port: bool,
    pub socket: Option<S>,
    pub queue: Vec<Vec<u8>>,
    pub sending: bool,
}

impl<S> WasmClient<S> {
    pub fn new(settings: WasmSettingsClient) -> (port: Self)
        ensures
            port.settings == settings,
            !port.connecting,
            !port.connected,
            !port.listening,
            !port.main_port,
            port.socket is None,
            port.queue@.len() == 0,
            !port.sending,
    {
        WasmClient {
            settings,
            connecting: false,
            connected: false,
            listening: false,
            main_port: false,
            socket: None,
            queue: Vec::new(),
            sending: false,
        }
    }

    /// Starts connecting, unless the port is connecting already. Returns
    /// whether the connecting task is to start.
    pub fn connect(&mut self) -> (start: bool)
        ensures
            final(self).queue == old(self).queue,
            final(self).sending == old(self).sending,
            start == !old(self).connecting,
            final(self).connecting,
            final(self).settings == old(self).settings,
            final(self).connected == old(self).connected,
            final(self).listening == old(self).listening,
            final(self).main_port == old(self).main_port,
            final(self).socket == old(self).socket,
    {
        if self.connecting {
            return false;
        }
        self.connecting = true;
        true
    }

    /// What the connecting task does after one attempt: a socket that opened
    /// is handed over; a failure is tried again when the port reconnects and
    /// reported down otherwise.
    pub fn connect_attempt(opened: bool, try_reconnect: bool) -> (step: ConnectStep)
        ensures
            step == (if opened {
                ConnectStep::Deliver
            } else if try_reconnect {
                ConnectStep::Retry
            } else {
                ConnectStep::Close
            }),
    {
        if opened {
            ConnectStep::Deliver
        } else if try_reconnect {
            ConnectStep::Retry
        } else {
            ConnectStep::Close
        }
    }

    /// Makes this the main port of its connection.
    pub fn as_main_port(&mut self) -> (is_main: bool)
        ensures
            final(self).queue == old(self).queue,
            final(self).sending == old(self).sending,
            is_main,
            final(self).main_port,
            final(self).settings == old(self).settings,
            final(self).connecting == old(self).connecting,
            final(self).connected == old(self).connected,
            final(self).listening == old(self).listening,
            final(self).socket == old(self).socket,
    {
        self.main_port = true;
        true
    }

    /// Handles the news that the connection went down: the port is reset, its
    /// socket let go, and the answer is (dropped, can reconnect). Without news
    /// nothing changes and the answer is (false, false).
    pub fn check_port_dropped(&mut self, connection_down: bool) -> (dropped: (bool, bool))
        ensures
            final(self).queue == old(self).queue,
            final(self).sending == old(self).sending,
            final(self).settings == old(self).settings,
            final(self).main_port == old(self).main_port,
            connection_down ==> {
                &&& dropped == (true, old(self).settings.try_reconnect)
                &&& !final(self).connected
                &&& !final(self).connecting
                &&& !final(self).listening
                &&& final(self).socket is None
            },
            !connection_down ==> {
                &&& dropped == (false, false)
                &&& *final(self) == *old(self)
            },
    {
        if connection_down {
            self.connected = false;
            self.connecting = false;
            self.listening = false;
            self.socket = None;
            (true, self.settings.try_reconnect)
        } else {
            (false, false)
        }
    }

    /// Takes over the socket that the connecting task delivered, unless the
    /// port is connected already.
    pub fn check_connected_to_server(&mut self, delivered: Option<S>)
        ensures
            old(self).connected || delivered is None ==> *final(self) == *old(self),
            !old(self).connected && delivered is Some ==> {
                &&& final(self).connected
                &&& final(self).socket == delivered
                &&& final(self).queue == old(self).queue
                &&& final(self).sending == old(self).sending
                &&& final(self).settings == old(self).settings
                &&& final(self).connecting == old(self).connecting
                &&& final(self).listening == old(self).listening
                &&& final(self).main_port == old(self).main_port
            },
    {
        if self.connected {
            return;
        }
        if let Some(socket) = delivered {
            self.connected = true;
            self.socket = Some(socket);
        }
    }

    /// Starts listening to the server, once: the port is marked listening and
    /// its socket, if it has one, is to be read.
    pub fn start_listening_to_server(&mut self) -> (to_read: Option<&S>)
        ensures
            final(self).queue == old(self).queue,
            final(self).sending == old(self).sending,
            final(self).settings == old(self).settings,
            final(self).connecting == old(self).connecting,
            final(self).connected == old(self).connected,
            final(self).main_port == old(self).main_port,
            final(self).socket == old(self).socket,
            final(self).listening,
            old(self).listening ==> to_read is None,
            !old(self).listening ==> to_read == (if old(self).socket is Some {
                Some(&old(self).socket->Some_0)
            } else {
                None
            }),
    {
        if self.listening {
            return None;
        }
        self.listening = true;
        self.socket.as_ref()
    }

    /// Queues an encoded message behind those already waiting. When the port
    /// has a socket and no sending task runs, one is to start: the port marks
    /// itself sending and hands back the socket to write into.
    pub fn send_message(&mut self, payload: Vec<u8>) -> (to_write: Option<&S>)
        ensures
            final(self).queue@ == old(self).queue@.push(payload),
            to_write == (if old(self).socket is Some && !old(self).sending {
                Some(&old(self).socket->Some_0)
            } else {
                None
            }),
            final(self).sending == (old(self).sending || old(self).socket is Some),
            final(self).settings == old(self).settings,
            final(self).connecting == old(self).connecting,
            final(self).connected == old(self).connected,
            final(self).listening == old(self).listening,
            final(self).main_port == old(self).main_port,
            final(self).socket == old(self).socket,
    {
        self.queue.push(payload);
        if self.sending || self.socket.is_none() {
            return None;
        }
        self.sending = true;
        self.socket.as_ref()
    }

    /// The sending task's next message: the oldest one waiting, taken off the
    /// queue; none when the queue is empty.
    pub fn next_to_send(&mut self) -> (next: Option<Vec<u8>>)
        ensures
            old(self).queue@.len() == 0 ==> {
                &&& next is None
                &&& final(self).queue@ == old(self).queue@
            },
            old(self).queue@.len() > 0 ==> {
                &&& next == Some(old(self).queue@[0])
                &&& final(self).queue@ == old(self).queue@.drop_first()
            },
            final(self).sending == old(self).sending,
            final(self).settings == old(self).settings,
            final(self).connecting == old(self).connecting,
            final(self).connected == old(self).connected,
            final(self).listening == old(self).listening,
            final(self).main_port == old(self).main_port,
            final(self).socket == old(self).socket,
    {
        if self.queue.len() == 0 {
            return None;
        }
        Some(self.queue.remove(0))
    }

    /// The sending task stopped, the queue drained or a write failed: the
    /// next message queued starts a new one.
    pub fn sending_finished(&mut self)
        ensures
            !final(self).sending,
            final(self).queue@ == old(self).queue@,
            final(self).settings == old(self).settings,
            final(self).connecting == old(self).connecting,
            final(self).connected == old(self).connected,
            final(self).listening == old(self).listening,
            final(self).main_port == old(self).main_port,
            final(self).socket == old(self).socket,
    {
        self.sending = false;
    }

    /// What the reading task does with what the socket yielded: binary
    /// messages are passed on, text is skipped, and an error or the end of
    /// the stream reports the connection down and stops the task.
    pub fn read_step(item: ReceivedItem) -> (step: ReadStep)
        ensures
            step == match item {
                ReceivedItem::Binary => ReadStep::Deliver,
                ReceivedItem::Error | ReceivedItem::Ended => ReadStep::ReportDown { stop: true },
                _ => ReadStep::Ignore,
            },
    {
        match item {
            ReceivedItem::Binary => ReadStep::Deliver,
            ReceivedItem::Error | ReceivedItem::Ended => ReadStep::ReportDown { stop: true },
            _ => ReadStep::Ignore,
        }
    }
}

impl<S> Default for WasmClient<S> {
    fn default() -> (port: Self)
        ensures
            port.settings.url@ == "ws://127.0.0.1:1234"@,
            port.settings.try_reconnect,
            port.queue@.len() == 0,
            !port.sending,
            !port.connecting,
            !port.connected,
            !port.listening,
            !port.main_port,
            port.socket is None,
    {
        WasmClient::new(WasmSettingsClient::default())
    }
}

} // verus!

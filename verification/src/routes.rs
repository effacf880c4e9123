//! The requests that are served, and what each of them does.
//!
//! There are two servers. One takes web sockets on which pings keep the buzzer
//! going, and tells its status. The other switches the buzzer on and off by
//! plain requests.

use crate::buzzer::PinLevel;
use vstd::prelude::*;

verus! {

/// The method of a request.
#[derive(Clone, Copy, PartialEq, Eq, Structural, Debug)]
pub enum Method {
    Get,
    Post,
}

/// The requests of the server that takes web sockets.
#[derive(Clone, Copy, PartialEq, Eq, Structural, Debug)]
pub enum SocketRoute {
    /// Open a web socket.
    Buzz,
    /// Tell the status.
    Status,
}

/// The requests of the server that switches the buzzer.
#[derive(Clone, Copy, PartialEq, Eq, Structural, Debug)]
pub enum SwitchRoute {
    /// Sound the buzzer.
    Start,
    /// Silence the buzzer.
    Stop,
    /// Tell that the server is there.
    Heartbeat,
    /// Tell the status.
    Status,
}

/// What a request to the server that switches the buzzer does.
#[derive(Clone, Copy, PartialEq, Eq, Debug)]
pub struct SwitchReply {
    /// Set the buzzer's pin to this level first; leave it alone if there is
    /// none.
    pub pin: Option<PinLevel>,
    /// The status to reply with.
    pub status: &'static str,
}

impl SocketRoute {
    /// The method of the request.
    pub open spec fn method_spec(self) -> Method {
        Method::Get
    }

    /// The path of the request.
    pub open spec fn path_spec(self) -> Seq<char> {
        match self {
            SocketRoute::Buzz => "/buzz"@,
            SocketRoute::Status => "/status"@,
        }
    }

    /// The method of the request.
    pub fn method(self) -> (method: Method)
        ensures
            method == self.method_spec(),
    {
        match self {
            SocketRoute::Buzz => Method::Get,
            SocketRoute::Status => Method::Get,
        }
    }

    /// The path of the request.
    pub fn path(self) -> (path: &'static str)
        ensures
            path@ == self.path_spec(),
    {
        match self {
            SocketRoute::Buzz => "/buzz",
            SocketRoute::Status => "/status",
        }
    }
}

impl SwitchRoute {
    /// The method of the request.
    pub open spec fn method_spec(self) -> Method {
        match self {
            SwitchRoute::Start | SwitchRoute::Stop | SwitchRoute::Heartbeat => Method::Post,
            SwitchRoute::Status => Method::Get,
        }
    }

    /// The path of the request.
    pub open spec fn path_spec(self) -> Seq<char> {
        match self {
            SwitchRoute::Start => "/buzz/start"@,
            SwitchRoute::Stop => "/buzz/stop"@,
            SwitchRoute::Heartbeat => "/buzz/heartbeat"@,
            SwitchRoute::Status => "/status"@,
        }
    }

    /// The status that a request is replied with.
    pub open spec fn status_spec(self) -> Seq<char> {
        match self {
            SwitchRoute::Start => "buzzing"@,
            SwitchRoute::Stop => "stopped"@,
            SwitchRoute::Heartbeat => "alive"@,
            SwitchRoute::Status => "ok"@,
        }
    }

    /// The level that a request sets the buzzer's pin to.
    pub open spec fn pin_spec(self) -> Option<PinLevel> {
        match self {
            SwitchRoute::Start => Some(PinLevel::High),
            SwitchRoute::Stop => Some(PinLevel::Low),
            _ => None,
        }
    }

    /// The method of the request.
    pub fn method(self) -> (method: Method)
        ensures
            method == self.method_spec(),
    {
        match self {
            SwitchRoute::Start | SwitchRoute::Stop | SwitchRoute::Heartbeat => Method::Post,
            SwitchRoute::Status => Method::Get,
        }
    }

    /// The path of the request.
    pub fn path(self) -> (path: &'static str)
        ensures
            path@ == self.path_spec(),
    {
        match self {
            SwitchRoute::Start => "/buzz/start",
            SwitchRoute::Stop => "/buzz/stop",
            SwitchRoute::Heartbeat => "/buzz/heartbeat",
            SwitchRoute::Status => "/status",
        }
    }

    /// What the request does.
    pub fn reply(self) -> (reply: SwitchReply)
        ensures
            reply.pin == self.pin_spec(),
            reply.status@ == self.status_spec(),
    {
        match self {
            SwitchRoute::Start => SwitchReply { pin: Some(PinLevel::High), status: "buzzing" },
            SwitchRoute::Stop => SwitchReply { pin: Some(PinLevel::Low), status: "stopped" },
            SwitchRoute::Heartbeat => SwitchReply { pin: None, status: "alive" },
            SwitchRoute::Status => SwitchReply { pin: None, status: "ok" },
        }
    }
}

/// The level of the buzzer's pin after all of the requests, if it was `pin`
/// before them.
pub open spec fn pin_after(pin: PinLevel, requests: Seq<SwitchRoute>) -> PinLevel
    decreases requests.len(),
{
    if requests.len() == 0 {
        pin
    } else {
        match requests.last().pin_spec() {
            Some(level) => level,
            None => pin_after(pin, requests.drop_last()),
        }
    }
}

/// The request starts or stops the buzzer.
pub open spec fn switches(route: SwitchRoute) -> bool {
    route == SwitchRoute::Start || route == SwitchRoute::Stop
}

/// The request at `i` is the last that starts or stops the buzzer.
pub open spec fn last_switch_at(requests: Seq<SwitchRoute>, i: int) -> bool {
    &&& 0 <= i < requests.len()
    &&& switches(requests[i])
    &&& forall|j: int| i < j < requests.len() ==> !switches(#[trigger] requests[j])
}

/// None of the requests starts or stops the buzzer.
pub open spec fn no_switch(requests: Seq<SwitchRoute>) -> bool {
    forall|j: int| 0 <= j < requests.len() ==> !switches(#[trigger] requests[j])
}

/// The last start or stop decides: after a start the buzzer sounds, after a
/// stop it is silent, and where there was neither it is as it was. Heartbeats
/// and requests for the status do not matter.
pub proof fn law_the_last_switch_decides(pin: PinLevel, requests: Seq<SwitchRoute>)
    ensures
        no_switch(requests) <==> !exists|i: int| last_switch_at(requests, i),
        no_switch(requests) ==> pin_after(pin, requests) == pin,
        forall|i: int| #[trigger]
            last_switch_at(requests, i) ==> pin_after(pin, requests) == if requests[i]
                == SwitchRoute::Start {
                PinLevel::High
            } else {
                PinLevel::Low
            },
    decreases requests.len(),
{
    if requests.len() > 0 {
        let before = requests.drop_last();
        let last = requests.len() - 1;
        law_the_last_switch_decides(pin, before);
        assert(forall|j: int|
            #![trigger before[j]]
            #![trigger requests[j]]
            0 <= j < last ==> before[j] == requests[j]);
        if switches(requests[last]) {
            assert(last_switch_at(requests, last));
        } else {
            assert forall|i: int| last_switch_at(before, i) <==> last_switch_at(requests, i) by {
                assert(requests[last] == requests.last());
            }
            if no_switch(before) {
                assert(no_switch(requests));
            }
        }
    }
}

/// The server that takes web sockets serves exactly two pairs of a method and a
/// path.
pub proof fn law_the_socket_server_serves_two_requests(method: Method, path: Seq<char>)
    ensures
        (exists|route: SocketRoute|
            #[trigger] route.method_spec() == method && route.path_spec() == path) <==> {
            ||| method == Method::Get && path == "/buzz"@
            ||| method == Method::Get && path == "/status"@
        },
{
    assert(SocketRoute::Buzz.method_spec() == Method::Get);
    assert(SocketRoute::Status.method_spec() == Method::Get);
}

/// The server that switches the buzzer serves exactly four pairs of a method
/// and a path.
pub proof fn law_the_switch_server_serves_four_requests(method: Method, path: Seq<char>)
    ensures
        (exists|route: SwitchRoute|
            #[trigger] route.method_spec() == method && route.path_spec() == path) <==> {
            ||| method == Method::Post && path == "/buzz/start"@
            ||| method == Method::Post && path == "/buzz/stop"@
            ||| method == Method::Post && path == "/buzz/heartbeat"@
            ||| method == Method::Get && path == "/status"@
        },
{
    assert(SwitchRoute::Start.method_spec() == Method::Post);
    assert(SwitchRoute::Stop.method_spec() == Method::Post);
    assert(SwitchRoute::Heartbeat.method_spec() == Method::Post);
    assert(SwitchRoute::Status.method_spec() == Method::Get);
}

/// The path of a request decides what it does: the pin goes high on
/// `/buzz/start` alone and low on `/buzz/stop` alone, each path has its own
/// reply, and only `/status` is asked for with a GET.
pub proof fn law_the_path_decides_what_is_done(route: SwitchRoute)
    ensures
        route.pin_spec() == Some(PinLevel::High) <==> route.path_spec() == "/buzz/start"@,
        route.pin_spec() == Some(PinLevel::Low) <==> route.path_spec() == "/buzz/stop"@,
        route.method_spec() == Method::Get <==> route.path_spec() == "/status"@,
        route.path_spec() == "/buzz/start"@ ==> route.status_spec() == "buzzing"@,
        route.path_spec() == "/buzz/stop"@ ==> route.status_spec() == "stopped"@,
        route.path_spec() == "/buzz/heartbeat"@ ==> route.status_spec() == "alive"@,
        route.path_spec() == "/status"@ ==> route.status_spec() == "ok"@,
        route.path_spec() == "/buzz/start"@ <==> route == SwitchRoute::Start,
        route.path_spec() == "/buzz/stop"@ <==> route == SwitchRoute::Stop,
        route.path_spec() == "/buzz/heartbeat"@ <==> route == SwitchRoute::Heartbeat,
        route.path_spec() == "/status"@ <==> route == SwitchRoute::Status,
{
    law_paths_are_distinct(SocketRoute::Buzz, SocketRoute::Buzz, route, SwitchRoute::Start);
    law_paths_are_distinct(SocketRoute::Buzz, SocketRoute::Buzz, route, SwitchRoute::Stop);
    law_paths_are_distinct(SocketRoute::Buzz, SocketRoute::Buzz, route, SwitchRoute::Heartbeat);
    law_paths_are_distinct(SocketRoute::Buzz, SocketRoute::Buzz, route, SwitchRoute::Status);
}

/// Different requests to the same server have different paths.
pub proof fn law_paths_are_distinct(a: SocketRoute, b: SocketRoute, c: SwitchRoute, d: SwitchRoute)
    ensures
        a.path_spec() == b.path_spec() ==> a == b,
        c.path_spec() == d.path_spec() ==> c == d,
{
    reveal_strlit("/buzz");
    reveal_strlit("/status");
    reveal_strlit("/buzz/start");
    reveal_strlit("/buzz/stop");
    reveal_strlit("/buzz/heartbeat");
    assert("/buzz"@.len() == 5);
    assert("/status"@.len() == 7);
    assert("/buzz/start"@.len() == 11);
    assert("/buzz/stop"@.len() == 10);
    assert("/buzz/heartbeat"@.len() == 15);
}

} // verus!

//! What a panel driver asks of the connection, as a list.
//!
//! A driver does not touch the bus. Each of its operations is the list of
//! requests that make it up, in order; whoever owns the hardware carries
//! them out one after the other and stops at the first that fails.
use vstd::prelude::*;
use vstd::slice::slice_to_vec;

verus! {

/// One request to the connection.
#[derive(Clone, Debug, PartialEq, Eq)]
pub enum Request {
    /// Pulse the reset line.
    Reset { low_ms: u8, after_ms: u8 },
    /// Do nothing for so many milliseconds.
    Delay { ms: u8 },
    /// Wait until the panel is idle.
    WaitUntilIdle { busy_active_low: bool },
    /// Send an opcode.
    Command { code: u8 },
    /// Send a payload.
    Data { bytes: Vec<u8> },
    /// Send an opcode and its payload.
    CommandWithData { code: u8, bytes: Vec<u8> },
    /// Send one byte many times.
    Repeat { value: u8, count: u32 },
}

/// A request with its payload as a sequence.
pub ghost enum Asked {
    Reset { low_ms: u8, after_ms: u8 },
    Delay { ms: u8 },
    WaitUntilIdle { busy_active_low: bool },
    Command { code: u8 },
    Data { bytes: Seq<u8> },
    CommandWithData { code: u8, bytes: Seq<u8> },
    Repeat { value: u8, count: u32 },
}

impl View for Request {
    type V = Asked;

    open spec fn view(&self) -> Asked {
        match *self {
            Request::Reset { low_ms, after_ms } => Asked::Reset { low_ms, after_ms },
            Request::Delay { ms } => Asked::Delay { ms },
            Request::WaitUntilIdle { busy_active_low } => Asked::WaitUntilIdle { busy_active_low },
            Request::Command { code } => Asked::Command { code },
            Request::Data { bytes } => Asked::Data { bytes: bytes@ },
            Request::CommandWithData { code, bytes } => Asked::CommandWithData {
                code,
                bytes: bytes@,
            },
            Request::Repeat { value, count } => Asked::Repeat { value, count },
        }
    }
}

/// The request for an opcode.
pub open spec fn cmd(code: u8) -> Asked {
    Asked::Command { code }
}

/// The request for an opcode with its payload.
pub open spec fn cmd_data(code: u8, bytes: Seq<u8>) -> Asked {
    Asked::CommandWithData { code, bytes }
}

/// The request for a payload.
pub open spec fn data(bytes: Seq<u8>) -> Asked {
    Asked::Data { bytes }
}

/// The request for a byte sent `count` times.
pub open spec fn fill(value: u8, count: u32) -> Asked {
    Asked::Repeat { value, count }
}

/// The request to wait for the panel.
pub open spec fn wait(busy_active_low: bool) -> Asked {
    Asked::WaitUntilIdle { busy_active_low }
}

/// A payload of one byte.
pub fn payload1(b0: u8) -> (bytes: Vec<u8>)
    ensures
        bytes@ == seq![b0],
{
    let mut bytes: Vec<u8> = Vec::new();
    bytes.push(b0);
    bytes
}

/// A payload of two bytes.
pub fn payload2(b0: u8, b1: u8) -> (bytes: Vec<u8>)
    ensures
        bytes@ == seq![b0, b1],
{
    let mut bytes: Vec<u8> = Vec::new();
    bytes.push(b0);
    bytes.push(b1);
    bytes
}

/// A payload of three bytes.
pub fn payload3(b0: u8, b1: u8, b2: u8) -> (bytes: Vec<u8>)
    ensures
        bytes@ == seq![b0, b1, b2],
{
    let mut bytes: Vec<u8> = Vec::new();
    bytes.push(b0);
    bytes.push(b1);
    bytes.push(b2);
    bytes
}

/// A payload of four bytes.
pub fn payload4(b0: u8, b1: u8, b2: u8, b3: u8) -> (bytes: Vec<u8>)
    ensures
        bytes@ == seq![b0, b1, b2, b3],
{
    let mut bytes: Vec<u8> = Vec::new();
    bytes.push(b0);
    bytes.push(b1);
    bytes.push(b2);
    bytes.push(b3);
    bytes
}

/// Whether a request sends bytes to the bus.
pub open spec fn on_bus(r: Asked) -> bool {
    r is Command || r is Data || r is CommandWithData || r is Repeat
}

/// Whether a request sends a payload without an opcode of its own.
pub open spec fn bare_data(r: Asked) -> bool {
    r is Data || r is Repeat
}

/// Every payload without an opcode of its own comes directly after a
/// request that sent its opcode or an earlier part of its payload:
/// nothing else, no wait and no pause, stands between a command and its
/// data, and no script opens with data.
pub open spec fn commands_first(script: Seq<Asked>) -> bool {
    forall|i: int|
        0 <= i < script.len() && bare_data(#[trigger] script[i]) ==> i > 0 && on_bus(
            script[i - 1],
        )
}

/// The requests of one operation, in order.
pub struct Script {
    requests: Vec<Request>,
}

impl View for Script {
    type V = Seq<Asked>;

    closed spec fn view(&self) -> Seq<Asked> {
        self.requests@.map_values(|r: Request| r@)
    }
}

impl Script {
    /// A script that asks for nothing.
    pub fn new() -> (s: Script)
        ensures
            s@ == Seq::<Asked>::empty(),
    {
        let s = Script { requests: Vec::new() };
        assert(s@ =~= Seq::<Asked>::empty());
        s
    }

    /// Adds a request at the end.
    pub fn push(&mut self, request: Request)
        ensures
            final(self)@ == old(self)@.push(request@),
    {
        self.requests.push(request);
        assert(final(self)@ =~= old(self)@.push(request@));
    }

    /// Adds all of another script at the end.
    pub fn append(&mut self, other: Script)
        ensures
            final(self)@ == old(self)@ + other@,
    {
        let mut rest = other.requests;
        self.requests.append(&mut rest);
        assert(final(self)@ =~= old(self)@ + other@);
    }

    /// Adds a reset pulse.
    pub fn reset(&mut self, low_ms: u8, after_ms: u8)
        ensures
            final(self)@ == old(self)@.push(Asked::Reset { low_ms, after_ms }),
    {
        self.push(Request::Reset { low_ms, after_ms });
    }

    /// Adds a pause.
    pub fn delay(&mut self, ms: u8)
        ensures
            final(self)@ == old(self)@.push(Asked::Delay { ms }),
    {
        self.push(Request::Delay { ms });
    }

    /// Adds the wait for an idle panel.
    pub fn wait_until_idle(&mut self, busy_active_low: bool)
        ensures
            final(self)@ == old(self)@.push(wait(busy_active_low)),
    {
        self.push(Request::WaitUntilIdle { busy_active_low });
    }

    /// Adds an opcode.
    pub fn command(&mut self, code: u8)
        ensures
            final(self)@ == old(self)@.push(cmd(code)),
    {
        self.push(Request::Command { code });
    }

    /// Adds a payload, which is copied.
    pub fn send_data(&mut self, bytes: &[u8])
        ensures
            final(self)@ == old(self)@.push(data(bytes@)),
    {
        self.push(Request::Data { bytes: slice_to_vec(bytes) });
    }

    /// Adds a payload of one byte.
    pub fn send_byte(&mut self, b0: u8)
        ensures
            final(self)@ == old(self)@.push(data(seq![b0])),
    {
        self.push(Request::Data { bytes: payload1(b0) });
    }

    /// Adds an opcode with its payload, which is copied.
    pub fn cmd_with_data(&mut self, code: u8, bytes: &[u8])
        ensures
            final(self)@ == old(self)@.push(cmd_data(code, bytes@)),
    {
        self.push(Request::CommandWithData { code, bytes: slice_to_vec(bytes) });
    }

    /// Adds an opcode with a payload that the script takes over.
    pub fn cmd_with_bytes(&mut self, code: u8, bytes: Vec<u8>)
        ensures
            final(self)@ == old(self)@.push(cmd_data(code, bytes@)),
    {
        self.push(Request::CommandWithData { code, bytes });
    }

    /// Adds a byte sent `count` times.
    pub fn repeat(&mut self, value: u8, count: u32)
        ensures
            final(self)@ == old(self)@.push(fill(value, count)),
    {
        self.push(Request::Repeat { value, count });
    }

    /// The number of requests.
    pub fn len(&self) -> (n: usize)
        ensures
            n == self@.len(),
    {
        self.requests.len()
    }

    /// The request at place `i`.
    pub fn request(&self, i: usize) -> (r: &Request)
        requires
            i < self@.len(),
        ensures
            r@ == self@[i as int],
    {
        &self.requests[i]
    }

    /// The requests, to carry out.
    pub fn into_requests(self) -> (requests: Vec<Request>)
        ensures
            requests@.map_values(|r: Request| r@) == self@,
    {
        self.requests
    }
}

} // verus!

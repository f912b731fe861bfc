use vstd::prelude::*;
use vstd::string::StrSliceExecFns;
use rand::rngs::StdRng;
use rand::Rng;
use rand::SeedableRng;
use crate::text::{same_text, string_of};

verus! {

/// What a client sends to ask the telemetry server for its diagnostic report.
pub const DIAGNOSTIC_MESSAGE: &'static str = "AT#UD";

/// Where the diagnostic channel of the telemetry server is reached.
pub const DIAGNOSTIC_CHANNEL_CONNECTION_STRING: &'static str = "*111#";

/// What `check_transmission` reports when no connection could be made.
pub const UNABLE_TO_CONNECT: &'static str = "Unable to connect.";

/// How many times `check_transmission` tries to connect before it gives up.
pub const CONNECT_ATTEMPTS: u32 = 3;

/// What `check_transmission` reports when the client refused the request.
pub const UNABLE_TO_SEND: &'static str = "Unable to send.";

/// A request that a client refuses before doing anything.
#[derive(Debug, Clone, Copy, PartialEq, Eq, Structural)]
pub enum TelemetryError {
    /// The connection string is empty.
    InvalidConnectionString,
    /// The message is empty.
    InvalidMessage,
}

/// A connection to a telemetry server.
pub trait TelemetryClient {
    /// Whether the client is connected.
    spec fn online(&self) -> bool;

    fn get_online_status(&self) -> (r: bool)
        ensures
            r == self.online(),
    ;

    fn connect(&mut self, telemetry_server_connection_string: &str) -> (r: Result<(), TelemetryError>)
        ensures
            r is Err ==> final(self).online() == old(self).online(),
    ;

    fn disconnect(&mut self)
        ensures
            !final(self).online(),
    ;

    fn send(&mut self, message: &str) -> (r: Result<(), TelemetryError>)
        ensures
            final(self).online() == old(self).online(),
    ;

    fn receive(&mut self) -> (r: String)
        ensures
            final(self).online() == old(self).online(),
    ;
}

/// rand's `StdRng`, the generator behind the simulated client; opaque here.
#[verifier::external_type_specification]
#[verifier::external_body]
pub struct ExStdRng(StdRng);

/// Relies on `SeedableRng::seed_from_u64`: a generator made from a seed.
#[verifier::external_body]
fn seeded_generator(seed: u64) -> (r: StdRng) {
    StdRng::seed_from_u64(seed)
}

/// Relies on `Rng::gen_range` over `low..high`, which panics on an empty range
/// and otherwise returns a value in it.
#[verifier::external_body]
fn draw_in(generator: &mut StdRng, low: u32, high: u32) -> (r: u32)
    requires
        low < high,
    ensures
        low <= r < high,
{
    generator.gen_range(low..high)
}

/// Relies on `char::from_u32`, which gives the character with a code point
/// outside the surrogate range.
#[verifier::external_body]
fn char_of(code: u32) -> (r: char)
    requires
        code < 0xD800,
    ensures
        r as u32 == code,
{
    char::from_u32(code).unwrap()
}

/// The canned report that the simulated server sends after a diagnostic request.
pub const DIAGNOSTIC_REPORT: &'static str = "LAST TX rate................ 100 MBPS\r\nHIGHEST TX rate............. 100 MBPS\r\nLAST RX rate................ 100 MBPS\r\nHIGHEST RX rate............. 100 MBPS\r\nBIT RATE.................... 100000000\r\nWORD LEN.................... 16\r\nWORD/FRAME.................. 511\r\nBITS/FRAME.................. 8192\r\nMODULATION TYPE............. PCM/FM\r\nTX Digital Los.............. 0.75\r\nRX Digital Los.............. 0.10\r\nBEP Test.................... -5\r\nLocal Rtrn Count............ 00\r\nRemote Rtrn Count........... 00";

/// A simulated telemetry client: a connection attempt succeeds nine times in
/// ten, and a reply is the canned report after a diagnostic request, else noise.
pub struct RandomTelemetryClient {
    online_status: bool,
    diagnostic_message_result: String,
    connection_events_simulator: StdRng,
}

/// Whether a connection attempt succeeds, given the draw from `0..10` made
/// for it: nine draws in ten connect.
pub fn connection_succeeds(draw: u32) -> (r: bool)
    ensures
        r == (draw <= 8),
{
    draw <= 8
}

impl RandomTelemetryClient {
    /// The reply held back for the next `receive`; empty when there is none.
    pub closed spec fn pending(&self) -> Seq<char> {
        self.diagnostic_message_result@
    }

    pub fn new() -> (r: Self)
        ensures
            !r.online(),
            r.pending().len() == 0,
    {
        RandomTelemetryClient {
            online_status: false,
            diagnostic_message_result: String::new(),
            connection_events_simulator: seeded_generator(42),
        }
    }

    /// `count` characters drawn from `'V'` to `'}'`.
    fn noise(&mut self, count: u32) -> (r: String)
        ensures
            r@.len() == count,
            final(self).online_status == old(self).online_status,
            final(self).diagnostic_message_result == old(self).diagnostic_message_result,
            forall|i: int| 0 <= i < r@.len() ==> 86 <= r@[i] as u32 && (r@[i] as u32) < 126,
    {
        let mut chars: Vec<char> = Vec::new();
        let mut i: u32 = 0;
        while i < count
            invariant
                i <= count,
                chars@.len() == i,
                self.online_status == old(self).online_status,
                self.diagnostic_message_result == old(self).diagnostic_message_result,
                forall|k: int| 0 <= k < chars@.len() ==> 86 <= chars@[k] as u32 && (chars@[k] as u32) < 126,
            decreases count - i,
        {
            let code = draw_in(&mut self.connection_events_simulator, 0, 40) + 86;
            chars.push(char_of(code));
            i = i + 1;
        }
        string_of(chars)
    }
}

impl TelemetryClient for RandomTelemetryClient {
    closed spec fn online(&self) -> bool {
        self.online_status
    }

    fn get_online_status(&self) -> (r: bool) {
        self.online_status
    }

    /// Refuses an empty connection string; otherwise draws whether the
    /// attempt succeeds. A held-back reply stays either way.
    fn connect(&mut self, telemetry_server_connection_string: &str) -> (r: Result<(), TelemetryError>)
        ensures
            r is Err <==> telemetry_server_connection_string@.len() == 0,
            r is Err ==> r == Err::<(), TelemetryError>(TelemetryError::InvalidConnectionString),
            final(self).pending() == old(self).pending(),
    {
        if telemetry_server_connection_string.is_empty() {
            return Err(TelemetryError::InvalidConnectionString);
        }
        let draw = draw_in(&mut self.connection_events_simulator, 0, 10);
        self.online_status = connection_succeeds(draw);
        Ok(())
    }

    fn disconnect(&mut self)
        ensures
            final(self).pending() == old(self).pending(),
    {
        self.online_status = false;
    }

    /// Refuses an empty message. A diagnostic request makes the canned
    /// report the next reply; any other message changes nothing.
    fn send(&mut self, message: &str) -> (r: Result<(), TelemetryError>)
        ensures
            r is Err <==> message@.len() == 0,
            r is Err ==> r == Err::<(), TelemetryError>(TelemetryError::InvalidMessage),
            message@ == DIAGNOSTIC_MESSAGE@ ==> final(self).pending() == DIAGNOSTIC_REPORT@,
            message@ != DIAGNOSTIC_MESSAGE@ ==> final(self).pending() == old(self).pending(),
    {
        proof {
            reveal_strlit("AT#UD");
        }
        if message.is_empty() {
            return Err(TelemetryError::InvalidMessage);
        }
        if same_text(message, DIAGNOSTIC_MESSAGE) {
            self.diagnostic_message_result = DIAGNOSTIC_REPORT.to_owned();
        }
        Ok(())
    }

    /// Hands out the held-back reply and clears it; without one, 60 to 109
    /// characters of noise from `'V'` to `'}'`.
    fn receive(&mut self) -> (r: String)
        ensures
            old(self).pending().len() > 0 ==> r@ == old(self).pending(),
            old(self).pending().len() == 0 ==> 60 <= r@.len() < 110 && forall|i: int|
                0 <= i < r@.len() ==> 86 <= r@[i] as u32 && (r@[i] as u32) < 126,
            final(self).pending().len() == 0,
    {
        if self.diagnostic_message_result.unicode_len() == 0 {
            let message_length = draw_in(&mut self.connection_events_simulator, 60, 110);
            self.noise(message_length)
        } else {
            let message = self.diagnostic_message_result.clone();
            self.diagnostic_message_result = String::new();
            message
        }
    }
}

/// Checks a telemetry link: connects over the diagnostic channel, asks for
/// the diagnostic report and keeps what came back.
pub struct TelemetryDiagnosticControls<Client: TelemetryClient> {
    telemetry_client: Client,
    diagnostic_info: String,
    /// The connection strings handed to the client by the last check.
    dialed: Ghost<Seq<Seq<char>>>,
    /// The messages sent to the client by the last check.
    sent: Ghost<Seq<Seq<char>>>,
    /// What the client replied in the last check.
    reply: Ghost<Seq<char>>,
}

impl<Client: TelemetryClient> TelemetryDiagnosticControls<Client> {
    pub closed spec fn client(&self) -> Client {
        self.telemetry_client
    }

    pub closed spec fn info(&self) -> Seq<char> {
        self.diagnostic_info@
    }

    /// The connection strings handed to `connect` by the last check, in order.
    pub closed spec fn dialed(&self) -> Seq<Seq<char>> {
        self.dialed@
    }

    /// The messages handed to `send` by the last check, in order.
    pub closed spec fn sent(&self) -> Seq<Seq<char>> {
        self.sent@
    }

    /// What `receive` returned in the last check.
    pub closed spec fn reply(&self) -> Seq<char> {
        self.reply@
    }

    pub fn new(client: Client) -> (r: Self)
        ensures
            r.client() == client,
            r.info() == Seq::<char>::empty(),
            r.dialed().len() == 0,
            r.sent().len() == 0,
    {
        TelemetryDiagnosticControls {
            telemetry_client: client,
            diagnostic_info: String::new(),
            dialed: Ghost(Seq::empty()),
            sent: Ghost(Seq::empty()),
            reply: Ghost(Seq::empty()),
        }
    }

    pub fn get_diagnostic_info(&self) -> (r: &str)
        ensures
            r@ == self.info(),
    {
        self.diagnostic_info.as_str()
    }

    pub fn set_diagnostic_info(&mut self, diagnostic_info: String)
        ensures
            final(self).info() == diagnostic_info@,
            final(self).client() == old(self).client(),
            final(self).dialed() == old(self).dialed(),
            final(self).sent() == old(self).sent(),
    {
        self.diagnostic_info = diagnostic_info;
    }

    /// Disconnects, then tries to connect up to three times. Once online it
    /// sends the diagnostic request and keeps the reply. It fails with
    /// `UNABLE_TO_CONNECT` when the client stays offline or refuses the
    /// connection string, and with `UNABLE_TO_SEND` when it refuses the
    /// request; a failed check keeps no information.
    pub fn check_transmission(&mut self) -> (r: Result<(), &'static str>)
        ensures
            r is Ok ==> final(self).client().online(),
            r == Err::<(), &'static str>(UNABLE_TO_CONNECT) <==> !final(self).client().online(),
            r is Err ==> r == Err::<(), &'static str>(UNABLE_TO_CONNECT)
                || r == Err::<(), &'static str>(UNABLE_TO_SEND),
            r is Err ==> final(self).info().len() == 0,
            final(self).dialed().len() <= CONNECT_ATTEMPTS,
            forall|i: int| 0 <= i < final(self).dialed().len()
                ==> final(self).dialed()[i] == DIAGNOSTIC_CHANNEL_CONNECTION_STRING@,
            r is Ok ==> final(self).sent() == Seq::<Seq<char>>::empty().push(DIAGNOSTIC_MESSAGE@),
            r is Ok ==> final(self).info() == final(self).reply(),
            r == Err::<(), &'static str>(UNABLE_TO_CONNECT) ==> final(self).sent().len() == 0,
    {
        self.diagnostic_info = String::new();
        self.dialed = Ghost(Seq::empty());
        self.sent = Ghost(Seq::empty());
        self.telemetry_client.disconnect();
        let mut retry_left: u32 = CONNECT_ATTEMPTS;
        while !self.telemetry_client.get_online_status() && retry_left > 0
            invariant
                self.diagnostic_info@.len() == 0,
                retry_left <= CONNECT_ATTEMPTS,
                self.dialed@.len() == CONNECT_ATTEMPTS - retry_left,
                self.sent@.len() == 0,
                forall|i: int| 0 <= i < self.dialed@.len()
                    ==> self.dialed@[i] == DIAGNOSTIC_CHANNEL_CONNECTION_STRING@,
            decreases retry_left,
        {
            proof {
                reveal_strlit("*111#");
            }
            let connected = self.telemetry_client.connect(DIAGNOSTIC_CHANNEL_CONNECTION_STRING);
            self.dialed = Ghost(self.dialed@.push(DIAGNOSTIC_CHANNEL_CONNECTION_STRING@));
            retry_left = retry_left - 1;
            if connected.is_err() {
                return Err(UNABLE_TO_CONNECT);
            }
        }
        if !self.telemetry_client.get_online_status() {
            return Err(UNABLE_TO_CONNECT);
        }
        proof {
            reveal_strlit("AT#UD");
        }
        let sent = self.telemetry_client.send(DIAGNOSTIC_MESSAGE);
        self.sent = Ghost(Seq::empty().push(DIAGNOSTIC_MESSAGE@));
        if sent.is_err() {
            return Err(UNABLE_TO_SEND);
        }
        self.diagnostic_info = self.telemetry_client.receive();
        self.reply = Ghost(self.diagnostic_info@);
        Ok(())
    }
}

} // verus!

//! The command protocol of the remote channel, and the course of one
//! session on it.
//!
//! A command line is one command character followed by its argument, with
//! nothing between them. Each line is answered by a status text in a buffer
//! of 64 bytes.

use crate::text::{
    copy_str_bytes, encode_first, fit, leading_bytes, null_term_string, Data, CLOCK_WIDTH,
    WEATHER_WIDTH,
};
use vstd::prelude::*;
use vstd::string::StringSliceAdditionalSpecFns;
use vstd::utf8::{
    char_u32_cast, decode_utf8, encode_utf8, encode_utf8_decode_utf8, encode_utf8_valid_utf8,
    is_char_boundary, valid_utf8,
};

verus! {

/// The port on which sessions are accepted.
pub const PORT: u16 = 1234;

/// The seconds of silence after which a session is given up.
pub const SESSION_TIMEOUT_SECS: u64 = 10;

/// What is sent when a session opens.
pub const GREETING: &'static str = "[*] welcome~\n";

/// The answer to command `0`.
pub const STATUS_ECHO: &'static str = "[*] echoing message\n";

/// The answer to command `1`.
pub const STATUS_CLOCK: &'static str = "[*] clock set! ^-^\n";

/// The answer to command `2`.
pub const STATUS_WEATHER: &'static str = "[*] weather set! ^-^\n";

/// The answer to every other line.
pub const STATUS_UNKNOWN: &'static str = "[*] unknown command :c\n";

/// The answer to an argument that is not text.
pub const STATUS_ERROR: &'static str = "[*] error :c";

/// The answer to one command: a text in 64 bytes, filled up with NUL bytes.
pub struct CommandStatus {
    pub mesg: [u8; 64],
}

impl CommandStatus {
    /// The status that says `mesg`. Of a longer text the first 64 bytes are
    /// kept.
    pub fn new(mesg: &str) -> (status: Self)
        ensures
            status.mesg@ == fit(mesg.spec_bytes(), 64),
    {
        proof {
            encode_utf8_valid_utf8(mesg@);
        }
        Self { mesg: copy_str_bytes(mesg.as_bytes()).unwrap() }
    }
}

/// The commands of the protocol.
#[derive(Debug, Clone, Copy, PartialEq, Eq, Structural)]
pub enum Command {
    /// `0`: show the argument on the panels, ahead of everything else.
    Echo,
    /// `1`: store the argument as the clock text.
    Clock,
    /// `2`: store the argument as the weather text.
    Weather,
    /// Any other line, the empty line too.
    Unknown,
}

/// The command that a line asks for: its first character decides.
pub open spec fn command_of(line: Seq<char>) -> Command {
    if line.len() == 0 {
        Command::Unknown
    } else if line[0] == '0' {
        Command::Echo
    } else if line[0] == '1' {
        Command::Clock
    } else if line[0] == '2' {
        Command::Weather
    } else {
        Command::Unknown
    }
}

/// The argument of a line: what follows its first character.
pub open spec fn argument_of(line: Seq<char>) -> Seq<char> {
    line.skip(1)
}

/// The status text that answers a command.
pub open spec fn status_text(command: Command) -> &'static str {
    match command {
        Command::Echo => STATUS_ECHO,
        Command::Clock => STATUS_CLOCK,
        Command::Weather => STATUS_WEATHER,
        Command::Unknown => STATUS_UNKNOWN,
    }
}

/// What a command line leads to: the status to send back and, for command
/// `0`, the text to show before the status is sent.
pub struct Reply<'a> {
    pub status: CommandStatus,
    pub echo: Option<&'a str>,
}

/// Carries out one command line.
///
/// Command `0` changes nothing here: the text to show is handed back, and
/// the caller shows it before it sends the status. Commands `1` and `2`
/// store their argument, cut or filled up to the width of the store. Every
/// other line is answered as unknown.
pub fn handle_command<'a>(argv: &'a str, data: &mut Data) -> (reply: Reply<'a>)
    ensures
        reply.status.mesg@ == fit(status_text(command_of(argv@)).spec_bytes(), 64),
        match command_of(argv@) {
            Command::Echo => {
                &&& reply.echo matches Some(text)
                &&& text@ == argument_of(argv@)
                &&& *final(data) == *old(data)
            },
            Command::Clock => {
                &&& reply.echo is None
                &&& final(data).clock matches Some(stored)
                &&& stored@ == fit(encode_utf8(argument_of(argv@)), CLOCK_WIDTH as int)
                &&& final(data).weather == old(data).weather
            },
            Command::Weather => {
                &&& reply.echo is None
                &&& final(data).weather matches Some(stored)
                &&& stored@ == fit(encode_utf8(argument_of(argv@)), WEATHER_WIDTH as int)
                &&& final(data).clock == old(data).clock
            },
            Command::Unknown => {
                &&& reply.echo is None
                &&& *final(data) == *old(data)
            },
        },
{
    let line = argv.as_bytes();
    proof {
        encode_utf8_valid_utf8(argv@);
        if argv@.len() > 0 {
            encode_first(argv@);
            char_u32_cast(argv@[0], argv@[0] as u32);
        }
    }
    if line.len() == 0 {
        return Reply { status: CommandStatus::new(STATUS_UNKNOWN), echo: None };
    }
    let c = line[0];
    if c != 0x30 && c != 0x31 && c != 0x32 {
        return Reply { status: CommandStatus::new(STATUS_UNKNOWN), echo: None };
    }
    proof {
        reveal_with_fuel(valid_utf8, 2);
        reveal_with_fuel(is_char_boundary, 2);
    }
    let (_, a) = argv.split_at(1);
    proof {
        encode_utf8_valid_utf8(a@);
        encode_utf8_decode_utf8(a@);
        encode_utf8_decode_utf8(argv@.skip(1));
        assert(a.spec_bytes() =~= encode_utf8(argv@.skip(1)));
    }
    if c == 0x30 {
        Reply { status: CommandStatus::new(STATUS_ECHO), echo: Some(a) }
    } else if c == 0x31 {
        match copy_str_bytes(a.as_bytes()) {
            Ok(v) => {
                data.clock = Some(v);
                Reply { status: CommandStatus::new(STATUS_CLOCK), echo: None }
            },
            Err(_) => Reply { status: CommandStatus::new(STATUS_ERROR), echo: None },
        }
    } else {
        match copy_str_bytes(a.as_bytes()) {
            Ok(v) => {
                data.weather = Some(v);
                Reply { status: CommandStatus::new(STATUS_WEATHER), echo: None }
            },
            Err(_) => Reply { status: CommandStatus::new(STATUS_ERROR), echo: None },
        }
    }
}

/// What one step of command `0` asks of the display group.
#[derive(Debug, Clone, Copy, PartialEq, Eq)]
pub enum EchoOp<'a> {
    /// The override of every unit is set: claimed with `true`, released with
    /// `false`.
    SetOverride(bool),
    /// The alert is played on every unit.
    Alert,
    /// `text` is scrolled over the group; with `prio` it is drawn on
    /// overridden units too.
    Scroll { text: &'a str, prio: bool },
}

/// The steps by which command `0` shows its text, in their order. The
/// override of the whole group is held from the first step to the last, so
/// that no other animation draws between the alert and the text.
#[derive(Debug, Clone, Copy, PartialEq, Eq, Structural)]
pub enum EchoStage {
    /// The override of every unit is claimed.
    Claim,
    /// The alert is played.
    Alert,
    /// The text is scrolled, with priority.
    Scroll,
    /// The override of every unit is released. The status is sent after it.
    Release,
}

impl EchoStage {
    /// The place of a step in the order.
    pub open spec fn order(self) -> int {
        match self {
            EchoStage::Claim => 0,
            EchoStage::Alert => 1,
            EchoStage::Scroll => 2,
            EchoStage::Release => 3,
        }
    }

    /// The first step: the claim.
    pub fn first() -> (stage: Self)
        ensures
            stage.order() == 0,
    {
        EchoStage::Claim
    }

    /// What the step asks for, where `text` is the text to show: the claim
    /// sets the override, the release clears it, and the text is scrolled
    /// with priority, since the units are overridden while it scrolls.
    pub fn operation<'a>(self, text: &'a str) -> (op: EchoOp<'a>)
        ensures
            match self {
                EchoStage::Claim => op == EchoOp::SetOverride(true),
                EchoStage::Alert => op == EchoOp::<'a>::Alert,
                EchoStage::Scroll => op == (EchoOp::Scroll { text, prio: true }),
                EchoStage::Release => op == EchoOp::SetOverride(false),
            },
    {
        match self {
            EchoStage::Claim => EchoOp::SetOverride(true),
            EchoStage::Alert => EchoOp::Alert,
            EchoStage::Scroll => EchoOp::Scroll { text, prio: true },
            EchoStage::Release => EchoOp::SetOverride(false),
        }
    }

    /// The step that follows `self`, and none after the release.
    pub fn next(self) -> (next: Option<Self>)
        ensures
            match next {
                Some(stage) => stage.order() == self.order() + 1,
                None => self == EchoStage::Release,
            },
    {
        match self {
            EchoStage::Claim => Some(EchoStage::Alert),
            EchoStage::Alert => Some(EchoStage::Scroll),
            EchoStage::Scroll => Some(EchoStage::Release),
            EchoStage::Release => None,
        }
    }
}

/// Whether `part` is a piece of `whole` in one stretch.
pub open spec fn is_part_of(part: Seq<char>, whole: Seq<char>) -> bool {
    exists|i: int, j: int| 0 <= i <= j <= whole.len() && part == whole.subrange(i, j)
}

/// What `str::trim` makes of a text: the text without the white space at
/// its start and at its end, where white space is what Unicode calls so.
pub uninterp spec fn trimmed(text: Seq<char>) -> Seq<char>;

/// `str::trim` gives the same result for the same text, and the result is
/// the text with something taken off at its start and at its end: a piece of
/// the text in one stretch. Which characters count as white space is not
/// said here.
pub assume_specification[ str::trim ](s: &str) -> (t: &str)
    ensures
        t@ == trimmed(s@),
        is_part_of(t@, s@),
;

/// The text that was received as a line: the bytes before the first NUL
/// byte, where they are valid UTF-8.
pub open spec fn line_text(received: Seq<u8>) -> Option<Seq<char>> {
    if valid_utf8(leading_bytes(received)) {
        Some(decode_utf8(leading_bytes(received)))
    } else {
        None
    }
}

/// Takes the command line out of what one read brought. Bytes that are no
/// text, and a read that brought no text before a NUL byte, give no line:
/// the session reads on. A line comes without the white space around it: it
/// is a piece of the text that was received, in one stretch.
pub fn command_line(received: &[u8]) -> (line: Option<&str>)
    ensures
        match line_text(received@) {
            Some(text) => if text.len() == 0 {
                line is None
            } else {
                line matches Some(l) && l@ == trimmed(text) && is_part_of(l@, text)
            },
            None => line is None,
        },
{
    match null_term_string(received) {
        Ok(text) => {
            proof {
                encode_utf8_decode_utf8(text@);
            }
            if text.is_empty() {
                None
            } else {
                Some(text.trim())
            }
        },
        Err(_) => None,
    }
}

/// Where a session stands.
#[derive(Debug, Clone, Copy, PartialEq, Eq, Structural)]
pub enum Session {
    /// No peer: the next step is to accept one on [`PORT`].
    Accepting,
    /// A peer is there: the next step is to send [`GREETING`].
    Greeting,
    /// The next step is to read.
    Reading,
    /// A line was read: the next step is to carry it out and to send its
    /// status.
    Replying,
}

/// What the transport reports after a step.
#[derive(Debug, Clone, Copy, PartialEq, Eq, Structural)]
pub enum Event {
    /// A peer was accepted.
    Accepted,
    /// What was to be sent is sent.
    Sent,
    /// A read brought a command line.
    Line,
    /// A read brought bytes that hold no command line.
    Skipped,
    /// A read brought no bytes: the peer is gone.
    Closed,
    /// The step failed.
    Failed,
}

impl Session {
    /// The state that follows `self` on `event`. A failure, the peer's
    /// leaving and an event that the state does not wait for end the session.
    pub open spec fn after(self, event: Event) -> Session {
        match (self, event) {
            (Session::Accepting, Event::Accepted) => Session::Greeting,
            (Session::Greeting, Event::Sent) => Session::Reading,
            (Session::Reading, Event::Line) => Session::Replying,
            (Session::Reading, Event::Skipped) => Session::Reading,
            (Session::Replying, Event::Sent) => Session::Reading,
            _ => Session::Accepting,
        }
    }

    /// A server that has no session yet.
    pub fn new() -> (session: Self)
        ensures
            session == Session::Accepting,
    {
        Session::Accepting
    }

    /// Moves on by one event.
    pub fn next(self, event: Event) -> (next: Self)
        ensures
            next == self.after(event),
    {
        match self {
            Session::Accepting => match event {
                Event::Accepted => Session::Greeting,
                _ => Session::Accepting,
            },
            Session::Greeting => match event {
                Event::Sent => Session::Reading,
                _ => Session::Accepting,
            },
            Session::Reading => match event {
                Event::Line => Session::Replying,
                Event::Skipped => Session::Reading,
                _ => Session::Accepting,
            },
            Session::Replying => match event {
                Event::Sent => Session::Reading,
                _ => Session::Accepting,
            },
        }
    }

    /// Whether a peer is connected.
    pub fn connected(self) -> (yes: bool)
        ensures
            yes == (self != Session::Accepting),
    {
        match self {
            Session::Accepting => false,
            _ => true,
        }
    }
}

/// No failure is final: whatever the state, a failure or the peer's leaving
/// ends the session only, and the server accepts the next peer, greets it
/// and reads its lines.
pub proof fn session_recovers(state: Session)
    ensures
        state.after(Event::Failed) == Session::Accepting,
        state.after(Event::Closed) == Session::Accepting,
        state.after(Event::Failed).after(Event::Accepted).after(Event::Sent) == Session::Reading,
{
}

} // verus!

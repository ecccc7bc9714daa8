//! Encoding of the panel's command frames and decoding of its replies.
use vstd::prelude::*;

verus! {

/// First preamble byte of every command frame.
pub const MAGIC_0: u8 = 0x32;

/// Second preamble byte of every command frame.
pub const MAGIC_1: u8 = 0xAC;

/// Largest number of bytes a command frame may hold.
pub const FRAME_CAPACITY: usize = 64;

/// Room left for a payload after the preamble and the opcode.
pub const MAX_PAYLOAD: usize = 61;

/// The opcodes that the panel understands.
#[derive(Clone, Copy, Debug, PartialEq, Eq, Structural)]
pub enum Command {
    Brightness,
    Pattern,
    Bootloader,
    Sleeping,
    Animate,
    Panic,
    DisplayBwImage,
    SendCol,
    CommitCols,
    _B1Reserved,
    StartGame,
    GameControl,
    _GameStatus,
    SetColor,
    DisplayOn,
    InvertScreen,
    SetPixelColumn,
    FlushFramebuffer,
    ClearRam,
    ScreenSaver,
    Fps,
    PowerMode,
    AnimationPeriod,
    PwmFreq,
    DebugMode,
    Version,
}

impl Command {
    /// The byte that stands for this command on the wire.
    pub open spec fn spec_opcode(self) -> u8 {
        match self {
            Command::Brightness => 0x00,
            Command::Pattern => 0x01,
            Command::Bootloader => 0x02,
            Command::Sleeping => 0x03,
            Command::Animate => 0x04,
            Command::Panic => 0x05,
            Command::DisplayBwImage => 0x06,
            Command::SendCol => 0x07,
            Command::CommitCols => 0x08,
            Command::_B1Reserved => 0x09,
            Command::StartGame => 0x10,
            Command::GameControl => 0x11,
            Command::_GameStatus => 0x12,
            Command::SetColor => 0x13,
            Command::DisplayOn => 0x14,
            Command::InvertScreen => 0x15,
            Command::SetPixelColumn => 0x16,
            Command::FlushFramebuffer => 0x17,
            Command::ClearRam => 0x18,
            Command::ScreenSaver => 0x19,
            Command::Fps => 0x1A,
            Command::PowerMode => 0x1B,
            Command::AnimationPeriod => 0x1C,
            Command::PwmFreq => 0x1E,
            Command::DebugMode => 0x1F,
            Command::Version => 0x20,
        }
    }

    /// The byte that stands for this command on the wire.
    pub fn opcode(self) -> (r: u8)
        ensures
            r == self.spec_opcode(),
    {
        match self {
            Command::Brightness => 0x00,
            Command::Pattern => 0x01,
            Command::Bootloader => 0x02,
            Command::Sleeping => 0x03,
            Command::Animate => 0x04,
            Command::Panic => 0x05,
            Command::DisplayBwImage => 0x06,
            Command::SendCol => 0x07,
            Command::CommitCols => 0x08,
            Command::_B1Reserved => 0x09,
            Command::StartGame => 0x10,
            Command::GameControl => 0x11,
            Command::_GameStatus => 0x12,
            Command::SetColor => 0x13,
            Command::DisplayOn => 0x14,
            Command::InvertScreen => 0x15,
            Command::SetPixelColumn => 0x16,
            Command::FlushFramebuffer => 0x17,
            Command::ClearRam => 0x18,
            Command::ScreenSaver => 0x19,
            Command::Fps => 0x1A,
            Command::PowerMode => 0x1B,
            Command::AnimationPeriod => 0x1C,
            Command::PwmFreq => 0x1E,
            Command::DebugMode => 0x1F,
            Command::Version => 0x20,
        }
    }
}

/// Why a command could not be framed.
#[derive(Clone, Copy, Debug, PartialEq, Eq, Structural)]
pub enum EncodeError {
    /// The payload does not fit behind the preamble and the opcode.
    PayloadTooLong { len: usize },
}

/// The bytes written to the link for `command` with `payload`: the preamble,
/// the opcode, then the payload.
pub open spec fn command_frame(command: Command, payload: Seq<u8>) -> Seq<u8> {
    seq![MAGIC_0, MAGIC_1, command.spec_opcode()] + payload
}

/// Frames `command` with `args` as its payload. Only the meaningful prefix
/// of the frame is returned, which is what goes on the wire.
pub fn encode_command(command: Command, args: &[u8]) -> (r: Result<Vec<u8>, EncodeError>)
    ensures
        args@.len() <= MAX_PAYLOAD ==> r is Ok && r->Ok_0@ == command_frame(command, args@),
        args@.len() > MAX_PAYLOAD ==> r == Err::<Vec<u8>, EncodeError>(
            EncodeError::PayloadTooLong { len: args@.len() as usize },
        ),
{
    if args.len() > MAX_PAYLOAD {
        return Err(EncodeError::PayloadTooLong { len: args.len() });
    }
    let mut frame: Vec<u8> = Vec::new();
    frame.push(MAGIC_0);
    frame.push(MAGIC_1);
    frame.push(command.opcode());
    let mut i: usize = 0;
    while i < args.len()
        invariant
            i <= args@.len(),
            frame@ == seq![MAGIC_0, MAGIC_1, command.spec_opcode()] + args@.subrange(0, i as int),
        decreases args@.len() - i,
    {
        frame.push(args[i]);
        i = i + 1;
        assert(args@.subrange(0, i as int) == args@.subrange(0, i - 1) + seq![args@[i - 1]]);
    }
    assert(args@.subrange(0, args@.len() as int) == args@);
    Ok(frame)
}

/// The payload of a column: its index, then its pixels from the last to the
/// first, since the panel counts rows from the other edge.
pub open spec fn column_payload(index: u8, pixels: Seq<u8>) -> Seq<u8> {
    seq![index] + pixels.reverse()
}

/// Builds the payload of a column command for the column at `index`.
pub fn encode_column(index: u8, pixels: &[u8]) -> (r: Vec<u8>)
    ensures
        r@ == column_payload(index, pixels@),
        r@.len() == pixels@.len() + 1,
        r@[0] == index,
        forall|i: int| 0 <= i < pixels@.len() ==> #[trigger] r@[i + 1] == pixels@[pixels@.len() - 1 - i],
{
    let mut payload: Vec<u8> = Vec::new();
    payload.push(index);
    let mut k: usize = pixels.len();
    while k > 0
        invariant
            k <= pixels@.len(),
            payload@.len() == 1 + pixels@.len() - k,
            payload@[0] == index,
            forall|i: int|
                0 <= i < pixels@.len() - k ==> #[trigger] payload@[i + 1] == pixels@[pixels@.len() - 1 - i],
        decreases k,
    {
        k = k - 1;
        payload.push(pixels[k]);
    }
    let ghost rev = pixels@.reverse();
    assert(rev.len() == pixels@.len());
    assert forall|j: int| 1 <= j < payload@.len() implies payload@[j] == rev[j - 1] by {
        assert(payload@[(j - 1) + 1] == pixels@[pixels@.len() - 1 - (j - 1)]);
    }
    assert(payload@ =~= column_payload(index, pixels@));
    payload
}

/// Length of the panel's reply to a version query.
pub const VERSION_REPLY_LEN: usize = 32;

/// The character of a decimal digit.
pub open spec fn digit_char(d: nat) -> char
    recommends
        d < 10,
{
    seq!['0', '1', '2', '3', '4', '5', '6', '7', '8', '9'][d as int]
}

/// `n` written in decimal, without leading zeros.
pub open spec fn decimal(n: nat) -> Seq<char>
    decreases n,
{
    if n < 10 {
        seq![digit_char(n)]
    } else {
        decimal(n / 10) + seq![digit_char(n % 10)]
    }
}

/// The firmware version that a reply states: the major number from byte 0,
/// the minor and patch numbers from the high and low nibble of byte 1, and a
/// release-candidate suffix when byte 2 is 1.
pub open spec fn version_text(reply: Seq<u8>) -> Seq<char>
    recommends
        reply.len() >= 3,
{
    let major = reply[0];
    let minor = (reply[1] & 0xF0u8) >> 4u8;
    let patch = reply[1] & 0x0Fu8;
    let core = decimal(major as nat) + seq!['.'] + decimal(minor as nat) + seq!['.'] + decimal(
        patch as nat,
    );
    if reply[2] == 1 {
        core + seq!['-', 'r', 'c']
    } else {
        core
    }
}

fn push_digit(s: &mut String, d: u8)
    requires
        d < 10,
    ensures
        final(s)@ == old(s)@ + seq![digit_char(d as nat)],
{
    proof {
        reveal_strlit("0");
        reveal_strlit("1");
        reveal_strlit("2");
        reveal_strlit("3");
        reveal_strlit("4");
        reveal_strlit("5");
        reveal_strlit("6");
        reveal_strlit("7");
        reveal_strlit("8");
        reveal_strlit("9");
    }
    let text = match d {
        0 => "0",
        1 => "1",
        2 => "2",
        3 => "3",
        4 => "4",
        5 => "5",
        6 => "6",
        7 => "7",
        8 => "8",
        _ => "9",
    };
    s.append(text);
}

fn push_decimal(s: &mut String, n: u8)
    ensures
        final(s)@ == old(s)@ + decimal(n as nat),
{
    let ghost start = s@;
    if n >= 100 {
        push_digit(s, n / 100);
        push_digit(s, (n / 10) % 10);
        push_digit(s, n % 10);
        assert(decimal((n / 100) as nat) == seq![digit_char((n / 100) as nat)]);
        assert(decimal((n / 10) as nat) == decimal((n / 100) as nat) + seq![
            digit_char(((n / 10) % 10) as nat),
        ]);
        assert(decimal(n as nat) == decimal((n / 10) as nat) + seq![digit_char((n % 10) as nat)]);
    } else if n >= 10 {
        push_digit(s, n / 10);
        push_digit(s, n % 10);
        assert(decimal((n / 10) as nat) == seq![digit_char((n / 10) as nat)]);
        assert(decimal(n as nat) == decimal((n / 10) as nat) + seq![digit_char((n % 10) as nat)]);
    } else {
        push_digit(s, n);
    }
    assert(s@ =~= start + decimal(n as nat));
}

/// Reads the firmware version out of the panel's reply to a version query,
/// as `major.minor.patch`, with `-rc` behind it for a release candidate.
pub fn decode_version(response: &[u8]) -> (r: String)
    requires
        response@.len() >= 3,
    ensures
        r@ == version_text(response@),
{
    let major = response[0];
    let minor = (response[1] & 0xF0) >> 4;
    let patch = response[1] & 0x0F;
    let pre_release = response[2] == 1;
    proof {
        reveal_strlit(".");
        reveal_strlit("-rc");
    }
    let mut version = String::new();
    push_decimal(&mut version, major);
    version.append(".");
    push_decimal(&mut version, minor);
    version.append(".");
    push_decimal(&mut version, patch);
    if pre_release {
        version.append("-rc");
    }
    assert(version@ =~= version_text(response@));
    version
}

} // verus!

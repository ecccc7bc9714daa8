//! The renderer: turns a frame into a column sweep, and decides, without ever
//! waiting, whether a frame goes out or is dropped because another one is
//! still being sent.
use vstd::prelude::*;
use crate::cadence::{FrameLimit, tick_outcome};
use crate::frame::{FrameBuffer, HEIGHT, WIDTH, FB_LEN, column_of, lemma_pixel_index_bounds};
use crate::protocol::{Command, command_frame, column_payload, encode_column, encode_command};

verus! {

/// The command that sends column `x` of a frame.
pub open spec fn column_command(pixels: Seq<u8>, x: int) -> Seq<u8> {
    command_frame(Command::SendCol, column_payload(x as u8, column_of(pixels, x)))
}

/// The command that latches the columns sent onto the display.
pub open spec fn commit_command() -> Seq<u8> {
    command_frame(Command::CommitCols, Seq::empty())
}

/// The commands for one frame: every column in ascending order, then one
/// commit.
pub open spec fn column_sweep(pixels: Seq<u8>) -> Seq<Seq<u8>> {
    Seq::new(
        WIDTH as nat + 1,
        |i: int|
            if i < WIDTH {
                column_command(pixels, i)
            } else {
                commit_command()
            },
    )
}

/// The bytes of each command of a list.
pub open spec fn frames_of(v: Seq<Vec<u8>>) -> Seq<Seq<u8>> {
    v.map_values(|f: Vec<u8>| f@)
}

/// A list of commands is a full sweep: each column once, in order, and the
/// commit last and only there.
pub open spec fn is_complete_sweep(frames: Seq<Seq<u8>>) -> bool {
    &&& frames.len() == WIDTH + 1
    &&& forall|i: int|
        0 <= i < WIDTH ==> (#[trigger] frames[i])[2] == Command::SendCol.spec_opcode()
            && frames[i][3] == i
    &&& frames.last() == commit_command()
    &&& forall|i: int| 0 <= i < WIDTH ==> #[trigger] frames[i] != commit_command()
}

/// The commands that send `frame_buffer` to the panel: a column command
/// for each column from the first to the last, then a commit.
pub fn sweep_commands(frame_buffer: &FrameBuffer) -> (r: Vec<Vec<u8>>)
    requires
        frame_buffer.wf(),
    ensures
        frames_of(r@) == column_sweep(frame_buffer@),
{
    let mut commands: Vec<Vec<u8>> = Vec::new();
    let mut x: u8 = 0;
    while x < WIDTH
        invariant
            x <= WIDTH,
            frame_buffer.wf(),
            frames_of(commands@) == column_sweep(frame_buffer@).subrange(0, x as int),
        decreases WIDTH - x,
    {
        let col = frame_buffer.column(x);
        let payload = encode_column(x, col.as_slice());
        let frame = encode_command(Command::SendCol, payload.as_slice()).unwrap();
        let ghost before = commands@;
        assert(frame@ == column_command(frame_buffer@, x as int));
        commands.push(frame);
        assert(frames_of(commands@) =~= frames_of(before).push(frame@));
        x = x + 1;
        assert(frames_of(commands@) =~= column_sweep(frame_buffer@).subrange(0, x as int));
    }
    let empty: Vec<u8> = Vec::new();
    let commit = encode_command(Command::CommitCols, empty.as_slice()).unwrap();
    let ghost before = commands@;
    assert(commit@ == commit_command());
    commands.push(commit);
    assert(frames_of(commands@) =~= frames_of(before).push(commit@));
    assert(frames_of(commands@) =~= column_sweep(frame_buffer@));
    commands
}

/// Where the link to the panel stands, as far as sending frames goes.
#[derive(Clone, Copy, Debug, PartialEq, Eq, Structural)]
pub enum LinkState {
    /// No frame is being sent: the next one may go out.
    Idle,
    /// A frame's sweep holds the link.
    Sending,
    /// A write failed; the link must be set up again before frames go out.
    Disconnected,
}

/// The next link state and the commands to send, when a frame with these
/// pixels is submitted: it goes out only if the link is free, and is
/// dropped otherwise, leaving the state as it was.
pub open spec fn draw_outcome(state: LinkState, pixels: Seq<u8>) -> (LinkState, Option<Seq<Seq<u8>>>) {
    match state {
        LinkState::Idle => (LinkState::Sending, Some(column_sweep(pixels))),
        _ => (state, None),
    }
}

/// The link state once the sweep in flight has ended, well or with a write
/// failure.
pub open spec fn finish_outcome(state: LinkState, written: bool) -> LinkState {
    match state {
        LinkState::Sending => if written {
            LinkState::Idle
        } else {
            LinkState::Disconnected
        },
        _ => state,
    }
}

/// The link state once the device has been opened again.
pub open spec fn reconnect_outcome(state: LinkState) -> LinkState {
    match state {
        LinkState::Disconnected => LinkState::Idle,
        _ => state,
    }
}

/// The bytes of each command, if there are commands.
pub open spec fn opt_frames(r: Option<Vec<Vec<u8>>>) -> Option<Seq<Seq<u8>>> {
    match r {
        Some(v) => Some(frames_of(v@)),
        None => None,
    }
}

/// The renderer of one panel: it hands out at most one sweep at a time and
/// drops every frame that comes while one is in flight.
pub struct LightMatrix {
    state: LinkState,
}

impl View for LightMatrix {
    type V = LinkState;

    closed spec fn view(&self) -> LinkState {
        self.state
    }
}

impl LightMatrix {
    /// A renderer for a freshly opened link, with nothing in flight.
    pub fn new() -> (r: LightMatrix)
        ensures
            r@ == LinkState::Idle,
    {
        LightMatrix { state: LinkState::Idle }
    }

    /// Where the link stands.
    pub fn link_state(&self) -> (r: LinkState)
        ensures
            r == self@,
    {
        self.state
    }

    /// Submits a frame. If the link is free, takes it and returns the sweep
    /// to send; the caller sends it apart from the producer and then calls
    /// `transmission_finished`. If a sweep is in flight or the link is down,
    /// the frame is dropped: nothing is returned and nothing changes.
    pub fn draw(&mut self, frame_buffer: FrameBuffer) -> (r: Option<Vec<Vec<u8>>>)
        requires
            frame_buffer.wf(),
        ensures
            (final(self)@, opt_frames(r)) == draw_outcome(old(self)@, frame_buffer@),
    {
        match self.state {
            LinkState::Idle => {
                self.state = LinkState::Sending;
                Some(sweep_commands(&frame_buffer))
            },
            _ => None,
        }
    }

    /// Records the end of the sweep in flight: the link is free again if
    /// every write went through, and down otherwise.
    pub fn transmission_finished(&mut self, written: bool)
        ensures
            final(self)@ == finish_outcome(old(self)@, written),
    {
        if let LinkState::Sending = self.state {
            self.state = if written {
                LinkState::Idle
            } else {
                LinkState::Disconnected
            };
        }
    }

    /// Records that the device was opened again after a failure.
    pub fn reconnected(&mut self)
        ensures
            final(self)@ == reconnect_outcome(old(self)@),
    {
        if let LinkState::Disconnected = self.state {
            self.state = LinkState::Idle;
        }
    }
}

/// What one host tick admits: with a frame limit, only a tick that completes an
/// interval; without one, every tick.
pub open spec fn admitted(frame_limit: Option<FrameLimit>, delta_ms: u64) -> bool {
    match frame_limit {
        Some(l) => tick_outcome(l@.0, l@.1, delta_ms).1,
        None => true,
    }
}

/// the limiter after one host tick.
pub open spec fn limit_after(frame_limit: Option<FrameLimit>, delta_ms: u64) -> Option<(u64, u64)> {
    match frame_limit {
        Some(l) => Some((l@.0, tick_outcome(l@.0, l@.1, delta_ms).0)),
        None => None,
    }
}

/// The view of an optional frame limit.
pub open spec fn limit_view(frame_limit: Option<FrameLimit>) -> Option<(u64, u64)> {
    match frame_limit {
        Some(l) => Some(l@),
        None => None,
    }
}

/// One host tick of `delta_ms`: if the frame limit admits it, a snapshot of the
/// frame buffer is submitted to the renderer, and the sweep to send, if
/// any, is returned. A tick the frame limit holds back changes nothing else.
pub fn render(
    frame_limit: &mut Option<FrameLimit>,
    delta_ms: u64,
    light_matrix: &mut LightMatrix,
    frame_buffer: &FrameBuffer,
) -> (r: Option<Vec<Vec<u8>>>)
    requires
        frame_buffer.wf(),
        match *old(frame_limit) {
            Some(l) => l.wf(),
            None => true,
        },
    ensures
        limit_view(*final(frame_limit)) == limit_after(*old(frame_limit), delta_ms),
        match *final(frame_limit) {
            Some(l) => l.wf(),
            None => true,
        },
        admitted(*old(frame_limit), delta_ms) ==> (final(light_matrix)@, opt_frames(r))
            == draw_outcome(old(light_matrix)@, frame_buffer@),
        !admitted(*old(frame_limit), delta_ms) ==> final(light_matrix)@ == old(light_matrix)@
            && r is None,
{
    let due = match frame_limit {
        Some(limit) => limit.tick(delta_ms),
        None => true,
    };
    if !due {
        return None;
    }
    light_matrix.draw(frame_buffer.snapshot())
}

/// A frame submitted while another frame's sweep holds the link is dropped:
/// nothing is sent and the link state stays as it was.
pub proof fn law_contended_frame_is_dropped(pixels: Seq<u8>)
    ensures
        draw_outcome(LinkState::Sending, pixels) == (LinkState::Sending, None::<Seq<Seq<u8>>>),
{
}

/// Every sweep is complete: each column once, in ascending order, then
/// exactly one commit, last.
pub proof fn law_sweep_is_complete(pixels: Seq<u8>)
    requires
        pixels.len() == FB_LEN,
    ensures
        is_complete_sweep(column_sweep(pixels)),
{
    let frames = column_sweep(pixels);
    assert forall|i: int| 0 <= i < WIDTH implies (#[trigger] frames[i])[2]
        == Command::SendCol.spec_opcode() && frames[i][3] == i && frames[i] != commit_command() by {
        lemma_pixel_index_bounds(i, 0);
        assert(frames[i].len() == 3 + 1 + HEIGHT);
    }
}

/// Two frames submitted in turn, the link free each time, go out as two
/// complete sweeps, the first ended before the second begins.
pub proof fn law_two_frames_two_sweeps(first: Seq<u8>, second: Seq<u8>)
    requires
        first.len() == FB_LEN,
        second.len() == FB_LEN,
    ensures
        ({
            let (after_first, sent_first) = draw_outcome(LinkState::Idle, first);
            let freed = finish_outcome(after_first, true);
            let (after_second, sent_second) = draw_outcome(freed, second);
            &&& sent_first == Some(column_sweep(first))
            &&& sent_second == Some(column_sweep(second))
            &&& after_second == LinkState::Sending
            &&& is_complete_sweep(column_sweep(first))
            &&& is_complete_sweep(column_sweep(second))
        }),
{
    law_sweep_is_complete(first);
    law_sweep_is_complete(second);
}

} // verus!

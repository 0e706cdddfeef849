//! The render loop of a window, as the decisions it takes.
//!
//! The loop runs while the window is open. Each turn begins by looking at
//! the window's close flag. If it is set, by the windowing system or by the
//! loop itself, the loop stops. Otherwise the frame is presented, the
//! pending events are polled, and a press of the escape key among them asks
//! for the window to close, which the next turn will see. A loop that has
//! stopped releases the window and is then closed for good.
//!
//! The handler swaps no buffer and polls no event. It is told what the
//! window reported and says what is to be done.

use vstd::prelude::*;

verus! {

/// The keys the loop tells apart.
#[derive(Clone, Copy, Debug, PartialEq, Eq, Structural)]
pub enum Key {
    Escape,
    Other,
}

/// What happened to a key.
#[derive(Clone, Copy, Debug, PartialEq, Eq, Structural)]
pub enum KeyAction {
    Release,
    Press,
    Repeat,
}

/// An event of the window, as far as the loop reads it.
#[derive(Clone, Copy, Debug, PartialEq, Eq, Structural)]
pub enum WindowEvent {
    Key { key: Key, action: KeyAction },
    Other,
}

/// The states of the loop.
#[derive(Clone, Copy, Debug, PartialEq, Eq, Structural)]
pub enum LoopState {
    /// Frames are being presented.
    Running,
    /// The loop has stopped; the window is yet to be released.
    Closing,
    /// The window has been released. Nothing follows.
    Closed,
}

/// Where the loop stands: its state, and whether it has itself asked for
/// the window to close.
#[derive(Clone, Copy, Debug, PartialEq, Eq, Structural)]
pub struct LoopStatus {
    pub state: LoopState,
    pub close_requested: bool,
}

/// What one turn of the loop does.
#[derive(Clone, Copy, Debug, PartialEq, Eq, Structural)]
pub enum FrameAction {
    /// Swap the buffers, poll the events and hand them to the handler.
    Present,
    /// Leave the loop.
    Stop,
}

/// What the window reports over one turn of the loop: its close flag at the
/// start of the turn, and the events polled if the turn presents a frame.
#[derive(Clone, Debug, PartialEq, Eq)]
pub struct Frame {
    pub should_close: bool,
    pub events: Vec<WindowEvent>,
}

/// Whether the event is the one that cancels the loop: a press of escape.
pub open spec fn is_cancel(event: WindowEvent) -> bool {
    event == (WindowEvent::Key { key: Key::Escape, action: KeyAction::Press })
}

/// Whether one of the events cancels the loop.
pub open spec fn cancels(events: Seq<WindowEvent>) -> bool {
    exists|i: int| 0 <= i < events.len() && is_cancel(#[trigger] events[i])
}

/// Whether a turn that starts at `status` and sees this close flag presents
/// a frame.
pub open spec fn presents(status: LoopStatus, should_close: bool) -> bool {
    status.state is Running && !should_close && !status.close_requested
}

/// Where the loop stands after the start of a turn.
pub open spec fn after_begin(status: LoopStatus, should_close: bool) -> LoopStatus {
    if status.state is Running && (should_close || status.close_requested) {
        LoopStatus { state: LoopState::Closing, close_requested: status.close_requested }
    } else {
        status
    }
}

/// Where the loop stands after the events of a turn.
pub open spec fn after_events(status: LoopStatus, events: Seq<WindowEvent>) -> LoopStatus {
    if status.state is Running && cancels(events) {
        LoopStatus { state: LoopState::Running, close_requested: true }
    } else {
        status
    }
}

/// Where the loop stands after a whole turn. The events count only if the
/// turn presents a frame.
pub open spec fn after_frame(status: LoopStatus, frame: Frame) -> LoopStatus {
    if presents(status, frame.should_close) {
        after_events(status, frame.events@)
    } else {
        after_begin(status, frame.should_close)
    }
}

/// Where the loop stands after these turns, one after the other.
pub open spec fn after_frames(status: LoopStatus, frames: Seq<Frame>) -> LoopStatus
    decreases frames.len(),
{
    if frames.len() == 0 {
        status
    } else {
        after_frame(after_frames(status, frames.drop_last()), frames.last())
    }
}

/// How many of these turns present a frame.
pub open spec fn presented(status: LoopStatus, frames: Seq<Frame>) -> nat
    decreases frames.len(),
{
    if frames.len() == 0 {
        0
    } else {
        let earlier = presented(status, frames.drop_last());
        if presents(after_frames(status, frames.drop_last()), frames.last().should_close) {
            earlier + 1
        } else {
            earlier
        }
    }
}

/// A handler of a window and its loop.
pub trait GLHandler: Sized {
    /// The handler of a window of this size and title. Both sides of the
    /// window are at least one.
    fn new(width: u32, height: u32, title: &str) -> Self
        requires
            width > 0,
            height > 0,
    ;

    /// Runs the loop over what the window reported turn by turn, and says
    /// how many frames were presented.
    fn run(&mut self, frames: &Vec<Frame>) -> usize;

    /// Releases the window of a loop that has stopped.
    fn clear(&mut self);
}

/// The handler of one window.
#[derive(Debug)]
pub struct GLFWHandler {
    width: u32,
    height: u32,
    title: String,
    status: LoopStatus,
}

impl View for GLFWHandler {
    type V = LoopStatus;

    closed spec fn view(&self) -> LoopStatus {
        self.status
    }
}

/// Whether one of the events is a press of escape.
pub fn has_cancel(events: &Vec<WindowEvent>) -> (yes: bool)
    ensures
        yes == cancels(events@),
{
    let mut i: usize = 0;
    while i < events.len()
        invariant
            i <= events.len(),
            forall|k: int| 0 <= k < i ==> !is_cancel(#[trigger] events@[k]),
        decreases events.len() - i,
    {
        match events[i] {
            WindowEvent::Key { key: Key::Escape, action: KeyAction::Press } => {
                return true;
            },
            _ => {},
        }
        i += 1;
    }
    false
}

impl GLFWHandler {
    /// The size the window was asked for.
    pub closed spec fn size(&self) -> (u32, u32) {
        (self.width, self.height)
    }

    /// The title the window was asked for.
    pub closed spec fn title(&self) -> Seq<char> {
        self.title@
    }

    /// Starts a turn of the loop, given the window's close flag. The turn
    /// presents a frame if the loop runs and nothing has asked for the
    /// window to close; otherwise it stops the loop, if it still ran.
    pub fn begin_frame(&mut self, should_close: bool) -> (action: FrameAction)
        ensures
            final(self)@ == after_begin(old(self)@, should_close),
            action == (if presents(old(self)@, should_close) {
                FrameAction::Present
            } else {
                FrameAction::Stop
            }),
            final(self).size() == old(self).size(),
            final(self).title() == old(self).title(),
    {
        match self.status.state {
            LoopState::Running => {
                if should_close || self.status.close_requested {
                    self.status.state = LoopState::Closing;
                    FrameAction::Stop
                } else {
                    FrameAction::Present
                }
            },
            _ => FrameAction::Stop,
        }
    }

    /// Reads the events polled in a turn that presented a frame, and says
    /// whether the window is to be asked to close: it is if the loop runs
    /// and escape was pressed.
    pub fn on_events(&mut self, events: &Vec<WindowEvent>) -> (request_close: bool)
        ensures
            final(self)@ == after_events(old(self)@, events@),
            request_close == (old(self)@.state is Running && cancels(events@)),
            final(self).size() == old(self).size(),
            final(self).title() == old(self).title(),
    {
        match self.status.state {
            LoopState::Running => {
                if has_cancel(events) {
                    self.status.close_requested = true;
                    true
                } else {
                    false
                }
            },
            _ => false,
        }
    }

    /// Where the loop stands.
    pub fn status(&self) -> (status: LoopStatus)
        ensures
            status == self@,
    {
        self.status
    }

    /// The width the window was asked for.
    pub fn width(&self) -> (width: u32)
        ensures
            width == self.size().0,
    {
        self.width
    }

    /// The height the window was asked for.
    pub fn height(&self) -> (height: u32)
        ensures
            height == self.size().1,
    {
        self.height
    }

    /// The title the window was asked for.
    pub fn window_title(&self) -> (title: &String)
        ensures
            title@ == self.title(),
    {
        &self.title
    }
}

impl GLHandler for GLFWHandler {
    /// The handler of a window that has just been opened: the loop runs and
    /// nothing has asked for the window to close.
    fn new(width: u32, height: u32, title: &str) -> (handler: GLFWHandler)
        ensures
            handler@ == (LoopStatus { state: LoopState::Running, close_requested: false }),
            handler.size() == (width, height),
            handler.title() == title@,
    {
        GLFWHandler {
            width,
            height,
            title: title.to_owned(),
            status: LoopStatus { state: LoopState::Running, close_requested: false },
        }
    }

    /// Runs the loop over `frames`, turn by turn. Turns are taken while the
    /// loop runs; the turn that stops it is the last one taken.
    fn run(&mut self, frames: &Vec<Frame>) -> (count: usize)
        ensures
            final(self)@ == after_frames(old(self)@, frames@),
            count == presented(old(self)@, frames@),
            final(self).size() == old(self).size(),
            final(self).title() == old(self).title(),
    {
        let mut count: usize = 0;
        let mut i: usize = 0;
        while i < frames.len()
            invariant
                i <= frames.len(),
                count <= i,
                self@ == after_frames(old(self)@, frames@.take(i as int)),
                count == presented(old(self)@, frames@.take(i as int)),
                self.size() == old(self).size(),
                self.title() == old(self).title(),
            decreases frames.len() - i,
        {
            proof {
                assert(frames@.take(i + 1).drop_last() == frames@.take(i as int));
                assert(frames@.take(i + 1).last() == frames@[i as int]);
            }
            match self.begin_frame(frames[i].should_close) {
                FrameAction::Present => {
                    self.on_events(&frames[i].events);
                    count += 1;
                    i += 1;
                },
                FrameAction::Stop => {
                    proof {
                        let taken = frames@.take(i + 1);
                        let rest = frames@.skip(i + 1);
                        assert(taken + rest == frames@);
                        lemma_frames_compose(old(self)@, taken, rest);
                        lemma_stopped_loop_stays_stopped(self@, rest);
                    }
                    return count;
                },
            }
        }
        proof {
            assert(frames@.take(i as int) == frames@);
        }
        count
    }

    /// Releases the window of a loop that has stopped: a closing loop is
    /// closed. A loop that runs, or is closed already, stays as it is.
    fn clear(&mut self)
        ensures
            final(self)@ == (if old(self)@.state is Closing {
                LoopStatus { state: LoopState::Closed, close_requested: old(self)@.close_requested }
            } else {
                old(self)@
            }),
            final(self).size() == old(self).size(),
            final(self).title() == old(self).title(),
    {
        match self.status.state {
            LoopState::Closing => {
                self.status.state = LoopState::Closed;
            },
            _ => {},
        }
    }
}

/// Turns taken one after the other add up: the loop stands after two runs
/// of turns where it stands after the second run begun where the first
/// ended, and the frames presented are those of both.
pub proof fn lemma_frames_compose(status: LoopStatus, first: Seq<Frame>, second: Seq<Frame>)
    ensures
        after_frames(status, first + second) == after_frames(after_frames(status, first), second),
        presented(status, first + second) == presented(status, first) + presented(
            after_frames(status, first),
            second,
        ),
    decreases second.len(),
{
    if second.len() == 0 {
        assert(first + second == first);
    } else {
        lemma_frames_compose(status, first, second.drop_last());
        assert((first + second).drop_last() == first + second.drop_last());
        assert((first + second).last() == second.last());
    }
}

/// Once the loop has stopped it runs no more: whatever the window reports,
/// no frame is presented, and the loop stays where it stands.
pub proof fn lemma_stopped_loop_stays_stopped(status: LoopStatus, frames: Seq<Frame>)
    requires
        !(status.state is Running),
    ensures
        after_frames(status, frames) == status,
        presented(status, frames) == 0,
    decreases frames.len(),
{
    if frames.len() > 0 {
        lemma_stopped_loop_stays_stopped(status, frames.drop_last());
    }
}

/// The loop never starts again: a loop that runs after some turns ran
/// before them, and presented a frame in each.
pub proof fn lemma_running_loop_presented_every_frame(status: LoopStatus, frames: Seq<Frame>)
    requires
        after_frames(status, frames).state is Running,
    ensures
        status.state is Running,
        presented(status, frames) == frames.len(),
        forall|i: int| 0 <= i < frames.len() ==> !(#[trigger] frames[i]).should_close,
    decreases frames.len(),
{
    if frames.len() > 0 {
        let before = frames.drop_last();
        lemma_running_loop_presented_every_frame(status, before);
        assert forall|i: int| 0 <= i < frames.len() implies !(#[trigger] frames[i]).should_close by {
            if i < before.len() {
                assert(frames[i] == before[i]);
            }
        }
    }
}

/// A set close flag stops a running loop in that very turn, with no frame
/// presented.
pub proof fn lemma_close_flag_stops_the_loop(status: LoopStatus, frame: Frame)
    requires
        status.state is Running,
        frame.should_close,
    ensures
        after_frame(status, frame).state is Closing,
        !presents(status, frame.should_close),
{
}

/// A press of escape stops the loop at the start of the next turn: the turn
/// in which the key is read presents its frame, the turn after it presents
/// none, whatever the window reports then.
pub proof fn lemma_escape_stops_the_next_turn(status: LoopStatus, frame: Frame, next: Frame)
    requires
        presents(status, frame.should_close),
        cancels(frame.events@),
    ensures
        after_frame(status, frame) == (LoopStatus {
            state: LoopState::Running,
            close_requested: true,
        }),
        !presents(after_frame(status, frame), next.should_close),
        after_frame(after_frame(status, frame), next).state is Closing,
{
}

} // verus!

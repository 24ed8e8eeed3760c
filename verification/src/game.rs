use vstd::arithmetic::div_mod::lemma_small_mod;
use vstd::prelude::*;

use crate::address::{lemma_wrap_add_step, wrap_add, Address};
use crate::camera::Camera;
use crate::cause::Cause;
use crate::centered_camera::CenteredCamera;
use crate::flow::Flow;
use crate::size::Size;
use crate::space::Space;

verus! {

/// A key press, reduced to what the loop decides on: the designated quit
/// key (escape) or any other key.
#[derive(Copy, Clone, PartialEq, Eq, Structural, Debug)]
pub enum Key {
    Esc,
    Other,
}

/// A terminal event, as plain values. A resize carries the new size as
/// height first, then width: that is the one canonical order this crate
/// uses for terminal sizes everywhere.
#[derive(Copy, Clone, PartialEq, Eq, Structural, Debug)]
pub enum TermEvent {
    Key(Key),
    Pointer,
    Resize { height: usize, width: usize },
}

/// Where the loop stands: running at normal cadence, paused for the
/// carried cause (waiting for the terminal to grow), or terminated.
#[derive(Copy, Clone, PartialEq, Eq, Structural, Debug)]
pub enum State {
    Running,
    Paused(Cause),
    Terminated,
}

/// What one event does to the wait-for-resize sub-loop: resume the normal
/// cadence, redraw the too-small notice and keep waiting, ignore the event
/// and keep waiting, or quit.
#[derive(Copy, Clone, PartialEq, Eq, Structural, Debug)]
pub enum WaitOutcome {
    Resume,
    StillTooSmall,
    Ignored,
    Quit,
}

/// The loop controller: the world, the camera, the last reported terminal
/// size, the minimum size the viewport needs, the timing parameters in
/// milliseconds, and the loop state. Every decision of the
/// render/input/resize loop is a function of this value and the incoming
/// event; the unverified terminal shell only performs what they call for.
pub struct Game {
    pub space: Space,
    pub camera: CenteredCamera,
    pub terminal_size: Size,
    pub min_terminal_size: Size,
    pub iteration_time_ms: u64,
    pub poll_time_ms: u64,
    pub event_handling_duration_ms: u64,
    pub event_handling_surplus_ms: u64,
    pub state: State,
}

impl Game {
    /// The last reported terminal size is below the minimum, in height or
    /// in width.
    pub open spec fn spec_too_small(self) -> bool {
        ||| self.terminal_size.height < self.min_terminal_size.height
        ||| self.terminal_size.width < self.min_terminal_size.width
    }

    /// Internal consistency: the world and the camera fit together.
    pub open spec fn wf(self) -> bool {
        &&& self.space.wf()
        &&& self.space.spec_height() >= 1
        &&& self.space.spec_width() >= 1
        &&& self.camera.wf()
        &&& self.camera.fits(self.space.spec_height(), self.space.spec_width())
    }

    /// What dispatching one event does while the loop runs at normal
    /// cadence: the successor controller value and the flow signal.
    /// A key yields `Exit` exactly when it is the quit key; a pointer
    /// event is ignored; a resize records the new size and yields
    /// `Pause(TerminalTooSmall)` exactly when that size is below the
    /// minimum.
    pub open spec fn spec_dispatch(self, event: TermEvent) -> (Game, Flow) {
        match event {
            TermEvent::Key(key) => (
                self,
                if key == Key::Esc {
                    Flow::Exit
                } else {
                    Flow::Continue
                },
            ),
            TermEvent::Pointer => (self, Flow::Continue),
            TermEvent::Resize { height, width } => {
                let sized = Game { terminal_size: Size { height, width }, ..self };
                (
                    sized,
                    if sized.spec_too_small() {
                        Flow::Pause(Cause::TerminalTooSmall)
                    } else {
                        Flow::Continue
                    },
                )
            },
        }
    }

    /// The character the frame shows at viewport position `(i, j)`: the
    /// world cell reached from the camera's anchor by `i` rows and `j`
    /// columns with wraparound.
    pub open spec fn spec_frame_char(self, i: int, j: int) -> char {
        let anchor = self.camera.spec_position(self.space.spec_height(), self.space.spec_width());
        self.space.spec_draw(
            wrap_add(anchor.row as int, i, self.space.spec_height() as int),
            wrap_add(anchor.column as int, j, self.space.spec_width() as int),
        )
    }

    pub fn terminal_height(&self) -> (r: usize)
        ensures
            r == self.terminal_size.height,
    {
        self.terminal_size.height
    }

    pub fn terminal_width(&self) -> (r: usize)
        ensures
            r == self.terminal_size.width,
    {
        self.terminal_size.width
    }

    pub fn min_terminal_height(&self) -> (r: usize)
        ensures
            r == self.min_terminal_size.height,
    {
        self.min_terminal_size.height
    }

    pub fn min_terminal_width(&self) -> (r: usize)
        ensures
            r == self.min_terminal_size.width,
    {
        self.min_terminal_size.width
    }

    pub fn terminal_too_small(&self) -> (b: bool)
        ensures
            b == self.spec_too_small(),
    {
        if self.terminal_height() < self.min_terminal_height()
            || self.terminal_width() < self.min_terminal_width() {
            return true;
        }
        false
    }

    /// Records a reported terminal size and signals a pause exactly when
    /// that size is below the minimum. Does not move the loop state: the
    /// per-state step functions do.
    pub fn handle_resize(&mut self, height: usize, width: usize) -> (f: Flow)
        ensures
            *final(self) == (Game {
                terminal_size: (Size { height, width }),
                ..*old(self)
            }),
            f == if final(self).spec_too_small() {
                Flow::Pause(Cause::TerminalTooSmall)
            } else {
                Flow::Continue
            },
    {
        self.terminal_size = Size::new(height, width);
        if self.terminal_too_small() {
            return Flow::Pause(Cause::TerminalTooSmall);
        }
        Flow::Continue
    }

    /// `Exit` for the quit key, `Continue` for any other key.
    pub fn handle_key_event(&self, key: Key) -> (f: Flow)
        ensures
            f == if key == Key::Esc {
                Flow::Exit
            } else {
                Flow::Continue
            },
    {
        if key == Key::Esc {
            return Flow::Exit;
        }
        Flow::Continue
    }

    /// Dispatches one event at normal cadence, exactly as `spec_dispatch`
    /// states it.
    pub fn handle_event(&mut self, event: TermEvent) -> (f: Flow)
        ensures
            (*final(self), f) == old(self).spec_dispatch(event),
    {
        match event {
            TermEvent::Key(key) => self.handle_key_event(key),
            TermEvent::Pointer => Flow::Continue,
            TermEvent::Resize { height, width } => self.handle_resize(height, width),
        }
    }

    /// Whether the event-handling sub-loop may poll once more: true while
    /// the time elapsed since the frame started stays under the
    /// event-handling budget. When the budget is spent, the overshoot is
    /// recorded as surplus.
    pub fn must_handle_events(&mut self, elapsed_ms: u64) -> (b: bool)
        ensures
            b == (elapsed_ms < old(self).event_handling_duration_ms),
            b ==> *final(self) == *old(self),
            !b ==> *final(self) == (Game {
                event_handling_surplus_ms: (elapsed_ms
                    - old(self).event_handling_duration_ms) as u64,
                ..*old(self)
            }),
    {
        if elapsed_ms >= self.event_handling_duration_ms {
            self.event_handling_surplus_ms = elapsed_ms - self.event_handling_duration_ms;
            return false;
        }
        true
    }

    /// The setup decision, taken right after the backend reports the
    /// initial terminal size: record it, and start paused in the
    /// wait-for-resize sub-loop when it is below the minimum, else start
    /// running.
    pub fn setup(&mut self, terminal_height: usize, terminal_width: usize)
        ensures
            ({
                let sized = (Game {
                    terminal_size: (Size { height: terminal_height, width: terminal_width }),
                    ..*old(self)
                });
                *final(self) == (Game {
                    state: if sized.spec_too_small() {
                        State::Paused(Cause::TerminalTooSmall)
                    } else {
                        State::Running
                    },
                    ..sized
                })
            }),
    {
        self.terminal_size = Size::new(terminal_height, terminal_width);
        if self.terminal_too_small() {
            self.state = State::Paused(Cause::TerminalTooSmall);
        } else {
            self.state = State::Running;
        }
    }

    /// One event step of the running loop: dispatch the event, then move
    /// the loop state as the flow signal says — stay running on
    /// `Continue`, pause on `Pause`, terminate on `Exit`.
    pub fn step_running(&mut self, event: TermEvent) -> (f: Flow)
        requires
            old(self).state == State::Running,
        ensures
            ({
                let (next, flow) = old(self).spec_dispatch(event);
                &&& f == flow
                &&& *final(self) == (Game {
                    state: match flow {
                        Flow::Continue => State::Running,
                        Flow::Pause(cause) => State::Paused(cause),
                        Flow::Exit => State::Terminated,
                    },
                    ..next
                })
            }),
    {
        let flow = self.handle_event(event);
        match flow {
            Flow::Continue => {},
            Flow::Pause(cause) => {
                self.state = State::Paused(cause);
            },
            Flow::Exit => {
                self.state = State::Terminated;
            },
        }
        flow
    }

    /// One event step of the wait-for-resize sub-loop: a resize that
    /// reaches the minimum resumes the running state; one below it keeps
    /// waiting and asks for the notice to be redrawn; the quit key
    /// terminates; everything else is ignored. The sub-loop never nests:
    /// a pause signalled here keeps the already-paused state.
    pub fn step_waiting(&mut self, event: TermEvent) -> (w: WaitOutcome)
        requires
            old(self).state == State::Paused(Cause::TerminalTooSmall),
        ensures
            ({
                match event {
                    TermEvent::Resize { height, width } => {
                        let sized = (Game {
                            terminal_size: (Size { height, width }),
                            ..*old(self)
                        });
                        if sized.spec_too_small() {
                            &&& w == WaitOutcome::StillTooSmall
                            &&& *final(self) == sized
                        } else {
                            &&& w == WaitOutcome::Resume
                            &&& *final(self) == (Game { state: State::Running, ..sized })
                        }
                    },
                    TermEvent::Key(key) => if key == Key::Esc {
                        &&& w == WaitOutcome::Quit
                        &&& *final(self) == (Game { state: State::Terminated, ..*old(self) })
                    } else {
                        &&& w == WaitOutcome::Ignored
                        &&& *final(self) == *old(self)
                    },
                    TermEvent::Pointer => {
                        &&& w == WaitOutcome::Ignored
                        &&& *final(self) == *old(self)
                    },
                }
            }),
    {
        match event {
            TermEvent::Resize { height, width } => {
                match self.handle_resize(height, width) {
                    Flow::Continue => {
                        self.state = State::Running;
                        WaitOutcome::Resume
                    },
                    Flow::Pause(Cause::TerminalTooSmall) => WaitOutcome::StillTooSmall,
                    // handle_resize's contract rules Exit out; this arm is
                    // provably unreachable.
                    Flow::Exit => WaitOutcome::Ignored,
                }
            },
            TermEvent::Key(key) => {
                if key == Key::Esc {
                    self.state = State::Terminated;
                    WaitOutcome::Quit
                } else {
                    WaitOutcome::Ignored
                }
            },
            TermEvent::Pointer => WaitOutcome::Ignored,
        }
    }

    /// One rendered frame: for every viewport position, the character of
    /// the world cell it shows, wrapping viewport rows and columns
    /// toroidally onto the space from the camera's anchor. The caller
    /// rules an undersized terminal out beforehand; the paused state
    /// exists for exactly that.
    pub fn render_frame(&self) -> (frame: Vec<Vec<char>>)
        requires
            self.wf(),
            !self.spec_too_small(),
        ensures
            frame@.len() == self.camera.spec_height(),
            forall|i: int|
                0 <= i < frame@.len() ==> #[trigger] frame@[i]@.len() == self.camera.spec_width(),
            forall|i: int, j: int|
                0 <= i < frame@.len() && 0 <= j < frame@[i]@.len() ==> frame@[i]@[j]
                    == self.spec_frame_char(i, j),
    {
        let space_height = self.space.height();
        let space_width = self.space.width();
        let address = self.camera.position(space_height, space_width);
        let camera_height = self.camera.height();
        let camera_width = self.camera.width();
        proof {
            lemma_small_mod(address.row as nat, space_height as nat);
            lemma_small_mod(address.column as nat, space_width as nat);
        }
        let mut frame: Vec<Vec<char>> = Vec::with_capacity(camera_height);
        let mut space_row = address.row;
        for row in 0..camera_height
            invariant
                self.wf(),
                space_height == self.space.spec_height(),
                space_width == self.space.spec_width(),
                camera_width as nat == self.camera.spec_width(),
                address == self.camera.spec_position(
                    self.space.spec_height(),
                    self.space.spec_width(),
                ),
                address.valid(space_height as nat, space_width as nat),
                space_row < space_height,
                space_row as int == wrap_add(address.row as int, row as int, space_height as int),
                frame@.len() == row,
                forall|i: int|
                    0 <= i < frame@.len() ==> #[trigger] frame@[i]@.len()
                        == self.camera.spec_width(),
                forall|i: int, j: int|
                    0 <= i < frame@.len() && 0 <= j < frame@[i]@.len() ==> frame@[i]@[j]
                        == self.spec_frame_char(i, j),
        {
            let mut line: Vec<char> = Vec::with_capacity(camera_width);
            let mut space_column = address.column;
            proof {
                lemma_small_mod(address.column as nat, space_width as nat);
            }
            for column in 0..camera_width
                invariant
                    self.wf(),
                    space_height == self.space.spec_height(),
                    space_width == self.space.spec_width(),
                    address == self.camera.spec_position(
                        self.space.spec_height(),
                        self.space.spec_width(),
                    ),
                    space_row < space_height,
                    space_row as int == wrap_add(
                        address.row as int,
                        row as int,
                        space_height as int,
                    ),
                    space_column < space_width,
                    space_column as int == wrap_add(
                        address.column as int,
                        column as int,
                        space_width as int,
                    ),
                    line@.len() == column,
                    forall|j: int|
                        0 <= j < line@.len() ==> #[trigger] line@[j]
                            == self.spec_frame_char(row as int, j),
            {
                let character = self.space.draw(space_row, space_column);
                line.push(character);
                proof {
                    lemma_wrap_add_step(address.column as int, column as int, space_width as int);
                }
                if space_column == space_width - 1 {
                    space_column = 0;
                } else {
                    space_column = space_column + 1;
                }
            }
            frame.push(line);
            proof {
                lemma_wrap_add_step(address.row as int, row as int, space_height as int);
            }
            if space_row == space_height - 1 {
                space_row = 0;
            } else {
                space_row = space_row + 1;
            }
        }
        frame
    }
}

impl Default for Game {
    /// The controller as the loop starts it: the default world and camera,
    /// the minimum terminal size taken from the camera's viewport extents,
    /// the terminal size still unknown, the stock timing parameters, and
    /// the running state.
    fn default() -> (r: Game)
        ensures
            r.wf(),
            r.space.spec_height() == 32,
            r.space.spec_width() == 64,
            r.camera.spec_center() == (Address { row: 0, column: 0 }),
            r.camera.spec_half() == (Size { height: 16, width: 64 }),
            r.terminal_size == (Size { height: 0, width: 0 }),
            r.min_terminal_size.height as nat == r.camera.spec_height(),
            r.min_terminal_size.width as nat == r.camera.spec_width(),
            r.iteration_time_ms == 500,
            r.poll_time_ms == 1,
            r.event_handling_duration_ms == 8,
            r.event_handling_surplus_ms == 0,
            r.state == State::Running,
    {
        let space = Space::default();
        let terminal_size = Size::new(0, 0);
        let iteration_time_ms: u64 = 500;
        let poll_time_ms: u64 = 1;
        let event_handling_duration_ms: u64 = 8;
        let event_handling_surplus_ms: u64 = 0;
        let camera = CenteredCamera::default();
        let min_terminal_size = Size::new(camera.height(), camera.width());
        Game {
            camera,
            min_terminal_size,
            event_handling_surplus_ms,
            event_handling_duration_ms,
            poll_time_ms,
            iteration_time_ms,
            space,
            terminal_size,
            state: State::Running,
        }
    }
}

} // verus!

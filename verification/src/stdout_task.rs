//! The output task: it feeds the screen buffer and decides when the screen
//! is drawn.

use vstd::prelude::*;
use vstd::string::*;
use vstd::utf8::encode_utf8;
use crate::model::{BufferModel, MAX_SCROLLBACK};
use crate::rect::Rect;
use crate::render::RenderOp;
use crate::screen_buffer::ScreenBuffer;
use crate::serial_actor::{SerialEvent, SerialEventView};
use crate::style::Colors;
use crate::ui_command::UICommand;

verus! {

/// How long the output task waits for a deferred render, in milliseconds.
pub const RENDER_TICK_MS: u64 = 16;

/// The output task as a value: the screen buffer, and whether the timer for
/// a deferred render is armed.
pub struct TaskModel {
    pub screen: BufferModel,
    pub timer_armed: bool,
}

/// What the output task does in one step.
#[derive(Debug)]
pub struct StdoutStep {
    /// What is to be written to the host terminal.
    pub ops: Vec<RenderOp>,
    /// The text to put on the clipboard, if there is any.
    pub clipboard: Option<String>,
    /// Whether the task ends.
    pub stop: bool,
}

/// What a [`StdoutStep`] is in specifications.
pub struct StepView {
    pub ops: Seq<RenderOp>,
    pub clipboard: Option<Seq<char>>,
    pub stop: bool,
}

impl View for StdoutStep {
    type V = StepView;

    open spec fn view(&self) -> StepView {
        StepView {
            ops: self.ops@,
            clipboard: match self.clipboard {
                Some(text) => Some(text@),
                None => None,
            },
            stop: self.stop,
        }
    }
}

/// The bytes that show a failure of the port on the screen.
pub open spec fn error_notice(message: Seq<char>) -> Seq<u8> {
    encode_utf8("[ERROR] "@ + message + "\r\n"@)
}

impl TaskModel {
    /// The step that ends the task and does nothing else.
    pub open spec fn ended(self) -> (TaskModel, StepView) {
        (self, StepView { ops: Seq::empty(), clipboard: None, stop: true })
    }

    /// The screen is drawn if something changed, whatever the time, and the
    /// timer is dropped.
    pub open spec fn drawn(self, now: u64, clipboard: Option<Seq<char>>) -> (TaskModel, StepView) {
        (
            TaskModel { screen: self.screen.rendered(now), timer_armed: false },
            StepView { ops: self.screen.render_ops(), clipboard, stop: false },
        )
    }

    /// The screen is drawn if a render is due; if none is, the timer is armed
    /// so that the render follows soon.
    pub open spec fn drawn_if_due(self, now: u64) -> (TaskModel, StepView) {
        if self.screen.render_due(now) {
            self.drawn(now, None)
        } else {
            (
                TaskModel { timer_armed: true, ..self },
                StepView { ops: Seq::empty(), clipboard: None, stop: false },
            )
        }
    }

    /// An event of the actor, or the end of the broadcast. Data goes to the
    /// screen buffer, and the screen is drawn if a render is due. A failure
    /// is shown on the screen at once. The end of the connection or of the
    /// broadcast ends the task.
    pub open spec fn serial(self, event: Option<SerialEventView>, now: u64) -> (
        TaskModel,
        StepView,
    ) {
        match event {
            Some(SerialEventView::Data(data)) => (TaskModel {
                screen: self.screen.add_data(data),
                ..self
            }).drawn_if_due(now),
            Some(SerialEventView::Error(message)) => (TaskModel {
                screen: self.screen.add_data(error_notice(message)),
                ..self
            }).drawn(now, None),
            Some(SerialEventView::ConnectionClosed) => self.ended(),
            None => self.ended(),
        }
    }

    /// The screen buffer after a command of the user interface.
    pub open spec fn commanded(screen: BufferModel, command: UICommand) -> BufferModel {
        match command {
            UICommand::ScrollUp(n) => screen.scroll_up(n),
            UICommand::ScrollDown(n) => screen.scroll_down(n),
            UICommand::ScrollTop => screen.scroll_to_top(),
            UICommand::ScrollBottom => screen.scroll_to_bottom(),
            UICommand::StartSelection(pos) => screen.start_selection(pos),
            UICommand::UpdateSelection(pos) => screen.update_selection(pos),
            UICommand::CopySelection => screen.clear_selection(),
            UICommand::ClearBuffer => screen.clear_buffer(),
        }
    }

    /// The text that a command puts on the clipboard: the selection's, for a
    /// copy of a selection that has text.
    pub open spec fn copied(screen: BufferModel, command: UICommand) -> Option<Seq<char>> {
        if command == UICommand::CopySelection && screen.selection_text().len() > 0 {
            Some(screen.selection_text())
        } else {
            None
        }
    }

    /// A command of the user interface, or the end of the command channel.
    /// The command is carried out and the screen is drawn at once. The end of
    /// the channel ends the task.
    pub open spec fn command(self, command: Option<UICommand>, now: u64) -> (TaskModel, StepView) {
        match command {
            Some(c) => (TaskModel { screen: TaskModel::commanded(self.screen, c), ..self }).drawn(
                now,
                TaskModel::copied(self.screen, c),
            ),
            None => self.ended(),
        }
    }

    /// A tick of the timer: the screen is drawn if a render is due.
    pub open spec fn tick(self, now: u64) -> (TaskModel, StepView) {
        if self.screen.render_due(now) {
            self.drawn(now, None)
        } else {
            (self, StepView { ops: Seq::empty(), clipboard: None, stop: false })
        }
    }
}

/// The output task: the screen buffer and the state of the timer for a
/// deferred render.
#[derive(Debug)]
pub struct StdoutTask {
    screen: ScreenBuffer,
    timer_armed: bool,
}

impl View for StdoutTask {
    type V = TaskModel;

    closed spec fn view(&self) -> TaskModel {
        TaskModel { screen: self.screen@, timer_armed: self.timer_armed }
    }
}

impl StdoutTask {
    /// Whether the task's screen buffer is in a state that its operations keep.
    pub open spec fn wf(&self) -> bool {
        self@.screen.wf()
    }

    /// The task for a screen of the size of `rect` with the configured
    /// colors `defaults`.
    pub fn new(rect: Rect, defaults: Colors) -> (t: StdoutTask)
        requires
            rect.width >= 1,
            rect.height >= 1,
        ensures
            t@.screen == BufferModel::initial(
                rect,
                defaults,
                MAX_SCROLLBACK as nat,
            ),
            !t@.timer_armed,
            t.wf(),
    {
        StdoutTask { screen: ScreenBuffer::new(rect, defaults), timer_armed: false }
    }

    /// The screen buffer.
    pub fn screen(&self) -> (s: &ScreenBuffer)
        ensures
            s@ == self@.screen,
    {
        &self.screen
    }

    /// Whether the timer for a deferred render is to run.
    pub fn timer_armed(&self) -> (r: bool)
        ensures
            r == self@.timer_armed,
    {
        self.timer_armed
    }

    /// Draws the screen if something changed, and drops the timer.
    fn draw(&mut self, now: u64, clipboard: Option<String>) -> (step: StdoutStep)
        requires
            old(self).wf(),
        ensures
            (final(self)@, step@) == old(self)@.drawn(
                now,
                match clipboard {
                    Some(text) => Some(text@),
                    None => None,
                },
            ),
            final(self).wf(),
    {
        let ops = self.screen.render(now);
        self.timer_armed = false;
        StdoutStep { ops, clipboard, stop: false }
    }

    /// Draws the screen if a render is due, and arms the timer if not.
    fn draw_if_due(&mut self, now: u64) -> (step: StdoutStep)
        requires
            old(self).wf(),
        ensures
            (final(self)@, step@) == old(self)@.drawn_if_due(now),
            final(self).wf(),
    {
        if self.screen.should_render_now(now) {
            self.draw(now, None)
        } else {
            self.timer_armed = true;
            StdoutStep { ops: Vec::new(), clipboard: None, stop: false }
        }
    }

    /// Decides on an event of the actor, or on the end of the broadcast.
    pub fn on_serial(&mut self, event: Option<&SerialEvent>, now: u64) -> (step: StdoutStep)
        requires
            old(self).wf(),
        ensures
            (final(self)@, step@) == old(self)@.serial(
                match event {
                    Some(e) => Some(e@),
                    None => None,
                },
                now,
            ),
            final(self).wf(),
    {
        match event {
            Some(SerialEvent::Data(data)) => {
                self.screen.add_data(data);
                self.draw_if_due(now)
            },
            Some(SerialEvent::Error(message)) => {
                let mut notice = "[ERROR] ".to_owned();
                notice.append(message.as_str());
                notice.append("\r\n");
                self.screen.add_data(notice.as_str().as_bytes());
                self.draw(now, None)
            },
            Some(SerialEvent::ConnectionClosed) => StdoutStep {
                ops: Vec::new(),
                clipboard: None,
                stop: true,
            },
            None => StdoutStep { ops: Vec::new(), clipboard: None, stop: true },
        }
    }

    /// Decides on a command of the user interface, or on the end of the
    /// command channel.
    pub fn on_command(&mut self, command: Option<UICommand>, now: u64) -> (step: StdoutStep)
        requires
            old(self).wf(),
        ensures
            (final(self)@, step@) == old(self)@.command(command, now),
            final(self).wf(),
    {
        match command {
            Some(c) => {
                let copied = self.screen.apply(c);
                let clipboard = match copied {
                    Some(text) => if text.as_str().is_empty() {
                        None
                    } else {
                        Some(text)
                    },
                    None => None,
                };
                self.draw(now, clipboard)
            },
            None => StdoutStep { ops: Vec::new(), clipboard: None, stop: true },
        }
    }

    /// Decides on a tick of the timer.
    pub fn on_tick(&mut self, now: u64) -> (step: StdoutStep)
        requires
            old(self).wf(),
        ensures
            (final(self)@, step@) == old(self)@.tick(now),
            final(self).wf(),
    {
        if self.screen.should_render_now(now) {
            self.draw(now, None)
        } else {
            StdoutStep { ops: Vec::new(), clipboard: None, stop: false }
        }
    }
}

} // verus!

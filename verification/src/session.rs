//! The course of the program: from one event to the next thing to do.

use vstd::prelude::*;

use crate::ansi;
use crate::ansi::Platform;
use crate::ansi::COLOR_RESET;
use crate::ansi::CURSOR_HOME;
use crate::ansi::SCREEN_CLEAR;
use crate::app::App;
use crate::app::AppModel;
use crate::app::Hold;
use crate::app::PauseScreen;
use crate::app::Show;
use crate::app::ShowModel;
use crate::app::Stage;
use crate::fire::Fire;
use crate::fire::FireModel;
use crate::frame;
use crate::frame::FrameBuffer;
use crate::frame::FrameModel;
use crate::frame::StatusModel;
use crate::frame::StatusText;
use crate::frame_laws;
use crate::memory::SetupError;
use crate::screens;
use crate::screens::FADE;
use crate::session_laws;
use crate::signals;
use crate::signals::Signals;
use crate::size::TermSize;
use crate::text;

verus! {

broadcast use text::group_text;

/// How long a step of the marquee is shown while it fades, in nanoseconds.
pub const FADE_TIME: u64 = 10_000_000;

/// How long a pair of lines of the marquee is held, in nanoseconds.
pub const HOLD_TIME: u64 = 1_000_000_000;

/// How long to wait at most before signals are looked at again, in nanoseconds.
pub const POLL_TIME: u64 = 25_000_000;

/// The number of pairs of lines of the marquee.
pub const MARQUEE_LINES: usize = 3;

/// The step of the marquee that holds a pair of lines; it fades in before and out after.
pub const HOLD_STEP: usize = 11;

/// The number of steps for each pair of lines.
pub const MARQUEE_STEPS: usize = 22;

/// What came of waiting for an answer.
#[derive(Clone, Copy, Debug, PartialEq, Eq, Structural)]
pub enum Answer {
    /// The answer is to quit.
    Quit,
    /// The answer is to go on.
    Continue,
    /// There is no answer yet.
    Pending,
    /// There will never be an answer.
    Closed,
    /// The answer cannot be read.
    Failed,
}

/// What came of an action.
pub enum Event {
    /// Nothing has been done yet.
    Start,
    /// The terminal has this size.
    Size(TermSize),
    /// This came of waiting for an answer.
    Answer(Answer),
    /// The wait is over.
    Woke,
    /// The program is in the foreground again.
    Resumed,
    /// What was written is on the terminal, and the signals so far were taken note of.
    Looked,
    /// These are the numbers for the status line.
    Status(StatusText),
}

/// Why the program fails.
#[derive(Clone, Copy, Debug, PartialEq, Eq, Structural)]
pub enum ExitError {
    /// A screen cannot be set up.
    Setup(SetupError),
    /// An answer cannot be read.
    Input,
}

/// What to do next, once everything written so far is on the terminal. Signals are taken note of
/// just before each step.
#[derive(Clone, Copy, Debug, PartialEq, Eq, Structural)]
pub enum Action {
    /// Look for signals.
    Look,
    /// Measure the terminal.
    Measure,
    /// Wait for the answer to the prompt, for [`POLL_TIME`] at most.
    AwaitAnswer,
    /// Wait for a number of nanoseconds.
    Sleep { nanos: u64 },
    /// Stop the program until it is in the foreground again.
    Suspend,
    /// Work out the numbers of the status line.
    Status,
    /// End the program.
    Exit { error: Option<ExitError> },
}

/// Why the program does not start: its input or its output is not a terminal.
#[derive(Clone, Copy, Debug, PartialEq, Eq, Structural)]
pub struct NotATerminal;

impl NotATerminal {
    /// The message shown to the user.
    pub fn message(self) -> (text: &'static str)
        ensures
            text@ == "stdin and stdout must be terminals"@,
    {
        "stdin and stdout must be terminals"
    }
}

/// Whether the program may start: both its input and its output have to be terminals.
pub fn check_streams(stdin_is_terminal: bool, stdout_is_terminal: bool) -> (result: Result<
    (),
    NotATerminal,
>)
    ensures
        result == (if stdin_is_terminal && stdout_is_terminal {
            Ok::<(), NotATerminal>(())
        } else {
            Err::<(), NotATerminal>(NotATerminal)
        }),
{
    if !stdin_is_terminal || !stdout_is_terminal {
        return Err(NotATerminal);
    }
    Ok(())
}

/// The sum, or the largest number where there is none.
pub open spec fn later(now: u64, nanos: u64) -> u64 {
    now.saturating_add(nanos)
}

/// The smaller of a span of time and [`POLL_TIME`].
pub open spec fn at_most_poll(nanos: u64) -> u64 {
    if nanos < POLL_TIME {
        nanos
    } else {
        POLL_TIME
    }
}

/// The color of a step of the marquee.
pub open spec fn step_color(frame: nat) -> nat {
    if frame < HOLD_STEP {
        FADE@[frame as int] as nat
    } else {
        FADE@[MARQUEE_STEPS - frame] as nat
    }
}

/// How long a step of the marquee lasts.
pub open spec fn step_time(frame: nat) -> u64 {
    if frame == HOLD_STEP {
        HOLD_TIME
    } else {
        FADE_TIME
    }
}

/// What a step of the marquee writes: nothing while a pair of lines is held.
pub open spec fn marquee_step(p: Platform, line: nat, frame: nat) -> Seq<char> {
    if frame == HOLD_STEP {
        Seq::empty()
    } else {
        screens::marquee_text(p, line, step_color(frame))
    }
}

impl ShowModel {
    /// A fire that was just lit, and no frame yet.
    pub open spec fn lit(size: TermSize, now: u64) -> ShowModel {
        let room = frame::frame_capacity(size, ansi::fg_table(), ansi::bg_table());
        ShowModel { fire: FireModel::lit(size), frame: FrameModel::blank(size, room, now as nat) }
    }
}

impl AppModel {
    /// Whether an event answers the action that is under way.
    pub open spec fn awaits(self, event: Event) -> bool {
        match self.hold {
            Hold::Looking => event is Looked,
            Hold::Suspended { .. } => event is Resumed,
            Hold::Resuming { .. } => event is Size,
            Hold::Redrawing { .. } => event is Looked,
            Hold::Running => match self.stage {
                Stage::Ready => event is Start,
                Stage::Prompt(_) => event is Answer,
                Stage::Measuring => event is Size,
                Stage::Marquee { .. } => event is Woke,
                Stage::Kindling => event is Size,
                Stage::Burning => event is Size && self.show.unwrap().frame.stats.frame_count
                    < u64::MAX,
                Stage::Painting => event matches Event::Status(s) && s@.numeric(),
                Stage::Over => false,
            },
        }
    }

    /// The end: the screen is given back.
    pub open spec fn ended(self, error: Option<ExitError>) -> (AppModel, Action) {
        (
            AppModel { stage: Stage::Over, hold: Hold::Running, show: None, ..self.completed() },
            Action::Exit { error },
        )
    }

    /// The end because of an interruption. The line break after a pair of lines of the marquee,
    /// if it is due, comes first.
    pub open spec fn stopped(self) -> (AppModel, Action) {
        match self.stage {
            Stage::Marquee { frame, .. } if frame + 1 == MARQUEE_STEPS => self.with_text(
                ansi::newline(self.platform),
            ).ended(None),
            _ => self.ended(None),
        }
    }

    /// Before anything else, signals are looked for.
    pub open spec fn looking(self) -> (AppModel, Action) {
        (AppModel { hold: Hold::Looking, ..self }, Action::Look)
    }

    /// The given action is under way.
    pub open spec fn acting(self, action: Action) -> (AppModel, Action) {
        (AppModel { hold: Hold::Running, ..self }, action)
    }

    /// Whether the program is to be suspended now.
    pub open spec fn suspends(self) -> bool {
        self.platform == Platform::Unix && !self.signals.interrupted
            && self.signals.suspend_requested
    }

    /// Suspended: the screen is given back, and the request is answered.
    pub open spec fn suspended(self, now: u64) -> AppModel {
        AppModel {
            signals: Signals { suspend_requested: false, ..self.signals },
            hold: Hold::Suspended { since: now },
            ..self.completed()
        }
    }

    /// A prompt is open.
    pub open spec fn asked(self, screen: PauseScreen) -> (AppModel, Action) {
        AppModel {
            stage: Stage::Prompt(screen),
            ..self.with_text(screens::prompt_text())
        }.looking()
    }

    /// The first step: a small terminal is warned about, any other one measured for the preview.
    pub open spec fn started(self) -> (AppModel, Action) {
        if !screens::roomy(self.term_sz) {
            self.with_text(screens::size_warning(self.platform, self.term_sz)).asked(
                PauseScreen::SizeWarning,
            )
        } else {
            AppModel { stage: Stage::Measuring, ..self }.looking()
        }
    }

    /// A prompt after an answer, or after none. An answer that cannot be read is an error even
    /// where the program was interrupted; an answer to go on then counts for nothing.
    pub open spec fn answered(self, screen: PauseScreen, answer: Answer) -> (AppModel, Action) {
        match answer {
            Answer::Quit => AppModel {
                signals: Signals { interrupted: true, ..self.signals },
                ..self
            }.ended(None),
            Answer::Failed => self.ended(Some(ExitError::Input)),
            Answer::Pending => self.looking(),
            _ => if self.signals.interrupted {
                self.ended(None)
            } else {
                match screen {
                    PauseScreen::SizeWarning => AppModel {
                        stage: Stage::Measuring,
                        ..self.with_text(COLOR_RESET@ + CURSOR_HOME@ + SCREEN_CLEAR@)
                    }.looking(),
                    PauseScreen::Capabilities => AppModel {
                        stage: Stage::Kindling,
                        ..self
                    }.looking(),
                }
            },
        }
    }

    /// A step of the marquee is shown.
    pub open spec fn marquee_shown(self, line: usize, frame: usize) -> (AppModel, Action) {
        AppModel {
            stage: Stage::Marquee { line, frame, deadline: None },
            ..self.with_text(marquee_step(self.platform, line as nat, frame as nat))
        }.looking()
    }

    /// The step of the marquee after the given one: the next one of the pair of lines, or the
    /// first one of the next pair, or the prompt after the last pair.
    pub open spec fn marquee_next(self, line: usize, frame: usize) -> (AppModel, Action) {
        if frame + 1 < MARQUEE_STEPS {
            self.marquee_shown(line, (frame + 1) as usize)
        } else {
            let m = self.with_text(ansi::newline(self.platform));
            if line + 1 < MARQUEE_LINES {
                m.marquee_shown((line + 1) as usize, 0)
            } else {
                m.asked(PauseScreen::Capabilities)
            }
        }
    }

    /// A step of the marquee that is on the terminal: it lasts from when it was first seen there,
    /// and the next one follows.
    pub open spec fn waited(self, line: usize, frame: usize, deadline: Option<u64>, now: u64) -> (
        AppModel,
        Action,
    ) {
        let end = match deadline {
            Some(deadline) => deadline,
            None => later(now, step_time(frame as nat)),
        };
        if end <= now {
            self.marquee_next(line, frame)
        } else {
            AppModel {
                stage: Stage::Marquee { line, frame, deadline: Some(end) },
                ..self
            }.acting(Action::Sleep { nanos: at_most_poll((end - now) as u64) })
        }
    }

    /// After a look for signals: the program ends if it was interrupted, is suspended if that was
    /// asked for and its stage allows it, and else goes on.
    pub open spec fn looked(self, now: u64) -> (AppModel, Action) {
        if self.signals.interrupted {
            self.stopped()
        } else if self.suspendable() && self.suspends() {
            (self.suspended(now), Action::Suspend)
        } else {
            match self.stage {
                Stage::Prompt(_) => self.acting(Action::AwaitAnswer),
                Stage::Marquee { line, frame, deadline } => self.waited(line, frame, deadline, now),
                _ => self.acting(Action::Measure),
            }
        }
    }

    /// The preview, on a terminal that was just measured. The marquee only starts if the program
    /// was not interrupted.
    pub open spec fn previewed(self, size: TermSize) -> (AppModel, Action) {
        match size.defect() {
            Some(e) => self.ended(Some(ExitError::Setup(SetupError::Size(e)))),
            None => {
                let m = AppModel {
                    term_sz: size,
                    ..self.with_text(
                        screens::preview(self.platform, size) + screens::marquee_field(
                            self.platform,
                        ),
                    )
                };
                if self.signals.interrupted {
                    m.ended(None)
                } else {
                    m.marquee_shown(0, 0)
                }
            },
        }
    }

    /// In the foreground again after a suspension. A program that was interrupted meanwhile ends;
    /// at a prompt it waits for an answer once more before.
    pub open spec fn continued(self, since: u64) -> (AppModel, Action) {
        if !self.signals.interrupted {
            (AppModel { hold: Hold::Resuming { since }, ..self }, Action::Measure)
        } else if self.stage is Prompt {
            self.acting(Action::AwaitAnswer)
        } else {
            self.stopped()
        }
    }

    /// After a suspension, on a terminal that was just measured: the screen is taken over again.
    pub open spec fn resumed(self, since: u64, size: TermSize) -> (AppModel, Action) {
        match size.defect() {
            Some(e) => self.ended(Some(ExitError::Setup(SetupError::Size(e)))),
            None => (
                AppModel {
                    term_sz: size,
                    active: true,
                    hold: Hold::Redrawing { since },
                    ..self.with_text(ansi::screen_on())
                },
                Action::Look,
            ),
        }
    }

    /// What was on the screen before a suspension is drawn anew, unless the program was
    /// interrupted meanwhile.
    pub open spec fn redrawn(self, since: u64, now: u64) -> (AppModel, Action) {
        match self.stage {
            Stage::Prompt(screen) => {
                let t = if self.signals.interrupted {
                    Seq::empty()
                } else {
                    match screen {
                        PauseScreen::SizeWarning => screens::size_warning(
                            self.platform,
                            self.term_sz,
                        ) + screens::prompt_text(),
                        PauseScreen::Capabilities => screens::preview(self.platform, self.term_sz)
                            + screens::prompt_text(),
                    }
                };
                self.with_text(t).acting(Action::AwaitAnswer)
            },
            Stage::Marquee { line, frame, .. } if !self.signals.interrupted => self.with_text(
                screens::preview(self.platform, self.term_sz) + screens::marquee_field(
                    self.platform,
                ),
            ).marquee_next(line, frame),
            Stage::Burning if !self.signals.interrupted => {
                let s = self.show.unwrap();
                let paused = now.saturating_sub(since) as nat;
                AppModel {
                    show: Some(ShowModel { frame: s.frame.postponed(paused), ..s }),
                    ..self
                }.acting(Action::Measure)
            },
            _ => self.stopped(),
        }
    }

    /// A fire is lit, if there is memory for it.
    pub open spec fn kindled(self, size: TermSize, memory: bool, now: u64) -> (AppModel, Action) {
        match size.defect() {
            Some(e) => self.ended(Some(ExitError::Setup(SetupError::Size(e)))),
            None => {
                let m = AppModel { term_sz: size, ..self };
                if memory {
                    AppModel {
                        stage: Stage::Burning,
                        show: Some(ShowModel::lit(size, now)),
                        ..m.with_text(SCREEN_CLEAR@)
                    }.looking()
                } else {
                    m.ended(Some(ExitError::Setup(SetupError::OutOfMemory)))
                }
            },
        }
    }

    /// The fire burns for a frame, which is drawn and counted.
    pub open spec fn drawn(self) -> (AppModel, Action) {
        let s = self.show.unwrap();
        let (fire, rng) = s.fire.advanced(self.rng);
        let frame = s.frame.drawn(fire, ansi::fg_table(), ansi::bg_table());
        (
            AppModel {
                rng,
                stage: Stage::Painting,
                show: Some(ShowModel { fire, frame }),
                ..self
            },
            Action::Status,
        )
    }

    /// The next frame, on a terminal that was just measured. Where its size has changed, the screen
    /// is cleared and a new fire is lit for it, if there is memory.
    pub open spec fn burned(self, size: TermSize, memory: bool, now: u64) -> (AppModel, Action) {
        match size.defect() {
            Some(e) => self.ended(Some(ExitError::Setup(SetupError::Size(e)))),
            None => if size == self.show.unwrap().frame.term_sz {
                self.drawn()
            } else if memory {
                AppModel {
                    term_sz: size,
                    show: Some(ShowModel::lit(size, now)),
                    ..self.with_text(SCREEN_CLEAR@)
                }.drawn()
            } else {
                self.ended(Some(ExitError::Setup(SetupError::OutOfMemory)))
            },
        }
    }

    /// A frame is written, with its status line.
    pub open spec fn painted(self, status: StatusModel) -> (AppModel, Action) {
        let s = self.show.unwrap();
        let frame = s.frame.with_status(status);
        AppModel {
            stage: Stage::Burning,
            show: Some(ShowModel { frame, ..s }),
            out: self.out + frame.bytes,
            ..self
        }.looking()
    }

    /// What an event leads to in the stage that it was awaited for.
    pub open spec fn proceeded(self, event: Event, memory: bool, now: u64) -> (AppModel, Action) {
        match (self.stage, event) {
            (Stage::Ready, _) => self.started(),
            (Stage::Prompt(screen), Event::Answer(answer)) => self.answered(screen, answer),
            (Stage::Measuring, Event::Size(size)) => self.previewed(size),
            (Stage::Marquee { .. }, _) => self.looking(),
            (Stage::Kindling, Event::Size(size)) => self.kindled(size, memory, now),
            (Stage::Burning, Event::Size(size)) => self.burned(size, memory, now),
            (_, Event::Status(status)) => self.painted(status@),
            _ => self.ended(None),
        }
    }

    /// What an event leads to. `memory` says whether there is memory for a new fire, should one be
    /// needed.
    pub open spec fn step(self, event: Event, memory: bool, now: u64) -> (AppModel, Action) {
        match (self.hold, event) {
            (Hold::Looking, _) => self.looked(now),
            (Hold::Suspended { since }, _) => self.continued(since),
            (Hold::Resuming { since }, Event::Size(size)) => self.resumed(since, size),
            (Hold::Redrawing { since }, _) => self.redrawn(since, now),
            _ => self.proceeded(event, memory, now),
        }
    }
}

/// The colors of the marquee are among the terminal's.
proof fn lemma_step_color(frame: nat)
    requires
        frame < MARQUEE_STEPS,
        frame != HOLD_STEP,
    ensures
        step_color(frame) < ansi::MAX_COLOR,
{
}

/// A fire that was just lit fills its terminal.
pub proof fn lemma_lit_consistent(size: TermSize, now: u64)
    requires
        size.valid(),
    ensures
        ShowModel::lit(size, now).consistent(),
{
    crate::fire::law_lit_fire_is_ready(size);
    frame_laws::lemma_frame_capacity(size);
}

/// The next frame keeps the fire as it has to be.
#[verifier::rlimit(50)]
pub proof fn lemma_drawn_consistent(app: AppModel)
    requires
        app.consistent(),
        app.stage is Burning,
        app.hold is Running,
        app.show.unwrap().frame.stats.frame_count < u64::MAX,
    ensures
        app.drawn().0.consistent(),
{
    let s = app.show.unwrap();
    crate::fire::law_advance_keeps_shape(s.fire, app.rng);
    crate::fire::law_fire_never_heats_up(s.fire, app.rng, crate::fire::MAX_HEAT);
    crate::fire::law_fire_stays_fed(s.fire, app.rng);
    crate::fire::law_advance_keeps_generator_going(s.fire, app.rng);
    let fire = s.fire.advanced(app.rng).0;
    let empty = StatusModel {
        min: Seq::empty(),
        avg: Seq::empty(),
        max: Seq::empty(),
        fps: Seq::empty(),
    };
    frame_laws::law_frame_fits_reserved_memory(fire, s.frame.term_sz, empty);
    frame_laws::lemma_frame_capacity(s.frame.term_sz);
}

impl App {
    /// Ends the program: gives the screen back.
    fn end(&mut self, error: Option<ExitError>) -> (action: Action)
        requires
            old(self).colored(),
        ensures
            (final(self)@, action) == old(self)@.ended(error),
            final(self).colored(),
    {
        self.complete();
        self.stage = Stage::Over;
        self.hold = Hold::Running;
        self.show = None;
        Action::Exit { error }
    }

    /// Ends the program because of an interruption.
    fn stop(&mut self) -> (action: Action)
        requires
            old(self).colored(),
        ensures
            (final(self)@, action) == old(self)@.stopped(),
            final(self).colored(),
    {
        match self.stage {
            Stage::Marquee { frame, .. } => {
                if frame == MARQUEE_STEPS - 1 {
                    self.emit_nl();
                }
            },
            _ => {},
        }
        self.end(None)
    }

    /// Has signals looked for.
    fn look_first(&mut self) -> (action: Action)
        requires
            old(self).colored(),
        ensures
            (final(self)@, action) == old(self)@.looking(),
            final(self).colored(),
    {
        self.hold = Hold::Looking;
        Action::Look
    }

    /// Starts an action.
    fn act(&mut self, action: Action) -> (next: Action)
        requires
            old(self).colored(),
        ensures
            (final(self)@, next) == old(self)@.acting(action),
            final(self).colored(),
    {
        self.hold = Hold::Running;
        action
    }

    /// Suspends the program if that was asked for: gives the screen back, and says that the process
    /// is to be stopped.
    pub fn handle_suspend(&mut self, now: u64) -> (suspended: bool)
        requires
            old(self).colored(),
        ensures
            suspended == old(self)@.suspends(),
            final(self)@ == (if old(self)@.suspends() {
                old(self)@.suspended(now)
            } else {
                old(self)@
            }),
            final(self).colored(),
    {
        match self.platform {
            Platform::Windows => {
                return false;
            },
            Platform::Unix => {},
        }
        if signals::interrupted(&self.signals) {
            return false;
        }
        if signals::take_suspend_request(&mut self.signals) {
            self.complete();
            self.hold = Hold::Suspended { since: now };
            true
        } else {
            false
        }
    }

    /// Opens a prompt.
    pub fn pause(&mut self, screen: PauseScreen) -> (action: Action)
        requires
            old(self).colored(),
        ensures
            (final(self)@, action) == old(self)@.asked(screen),
            final(self).colored(),
    {
        self.show_prompt();
        self.stage = Stage::Prompt(screen);
        self.look_first()
    }

    /// Goes on with an open prompt after an answer, or after none.
    pub fn pause_answered(&mut self, screen: PauseScreen, answer: Answer) -> (action: Action)
        requires
            old(self).colored(),
        ensures
            (final(self)@, action) == old(self)@.answered(screen, answer),
            final(self).colored(),
    {
        match answer {
            Answer::Quit => {
                self.signals.interrupted = true;
                self.end(None)
            },
            Answer::Failed => self.end(Some(ExitError::Input)),
            Answer::Pending => self.look_first(),
            Answer::Continue | Answer::Closed => {
                if signals::interrupted(&self.signals) {
                    return self.end(None);
                }
                match screen {
                    PauseScreen::SizeWarning => {
                        self.emit(COLOR_RESET);
                        self.emit(CURSOR_HOME);
                        self.emit(SCREEN_CLEAR);
                        self.stage = Stage::Measuring;
                    },
                    PauseScreen::Capabilities => {
                        self.stage = Stage::Kindling;
                    },
                }
                self.look_first()
            },
        }
    }

    /// Warns about a terminal that is too small for the preview.
    pub fn check_term_size(&mut self) -> (action: Action)
        requires
            old(self).colored(),
        ensures
            (final(self)@, action) == old(self)@.started(),
            final(self).colored(),
    {
        if !self.is_roomy() {
            self.show_size_warning();
            return self.pause(PauseScreen::SizeWarning);
        }
        self.stage = Stage::Measuring;
        self.look_first()
    }

    /// Shows a step of the marquee.
    fn show_marquee(&mut self, line: usize, frame: usize) -> (action: Action)
        requires
            old(self).colored(),
            frame < MARQUEE_STEPS,
        ensures
            (final(self)@, action) == old(self)@.marquee_shown(line, frame),
            final(self).colored(),
    {
        proof {
            text::lemma_utf8_empty();
        }
        if frame != HOLD_STEP {
            proof {
                lemma_step_color(frame as nat);
            }
            let fade: usize = if frame < HOLD_STEP {
                FADE[frame]
            } else {
                FADE[MARQUEE_STEPS - frame]
            };
            self.show_marquee_text(line, fade);
        }
        self.stage = Stage::Marquee { line, frame, deadline: None };
        self.look_first()
    }

    /// Shows the step of the marquee after the given one, or the prompt after the last.
    pub fn scroll_marquee(&mut self, line: usize, frame: usize) -> (action: Action)
        requires
            old(self).colored(),
            line < MARQUEE_LINES,
            frame < MARQUEE_STEPS,
        ensures
            (final(self)@, action) == old(self)@.marquee_next(line, frame),
            final(self).colored(),
    {
        if frame + 1 < MARQUEE_STEPS {
            self.show_marquee(line, frame + 1)
        } else {
            self.emit_nl();
            if line + 1 < MARQUEE_LINES {
                self.show_marquee(line + 1, 0)
            } else {
                self.pause(PauseScreen::Capabilities)
            }
        }
    }

    /// Waits while a step of the marquee is on the terminal, and goes on to the next one after.
    pub fn marquee_sleep(
        &mut self,
        line: usize,
        frame: usize,
        deadline: Option<u64>,
        now: u64,
    ) -> (action: Action)
        requires
            old(self).colored(),
            line < MARQUEE_LINES,
            frame < MARQUEE_STEPS,
        ensures
            (final(self)@, action) == old(self)@.waited(line, frame, deadline, now),
            final(self).colored(),
    {
        let end: u64 = match deadline {
            Some(deadline) => deadline,
            None => now.saturating_add(
                if frame == HOLD_STEP {
                    HOLD_TIME
                } else {
                    FADE_TIME
                },
            ),
        };
        if end <= now {
            return self.scroll_marquee(line, frame);
        }
        let remaining: u64 = end - now;
        let nanos: u64 = if remaining < POLL_TIME {
            remaining
        } else {
            POLL_TIME
        };
        self.stage = Stage::Marquee { line, frame, deadline: Some(end) };
        self.act(Action::Sleep { nanos })
    }

    /// Goes on after a look for signals.
    pub fn look(&mut self, now: u64) -> (action: Action)
        requires
            old(self).colored(),
            old(self)@.stage matches Stage::Marquee { line, frame, .. } ==> line < MARQUEE_LINES
                && frame < MARQUEE_STEPS,
        ensures
            (final(self)@, action) == old(self)@.looked(now),
            final(self).colored(),
    {
        if signals::interrupted(&self.signals) {
            return self.stop();
        }
        let suspendable = match self.stage {
            Stage::Prompt(_) | Stage::Marquee { .. } | Stage::Burning => true,
            _ => false,
        };
        if suspendable && self.handle_suspend(now) {
            return Action::Suspend;
        }
        match self.stage {
            Stage::Prompt(_) => self.act(Action::AwaitAnswer),
            Stage::Marquee { line, frame, deadline } => self.marquee_sleep(
                line,
                frame,
                deadline,
                now,
            ),
            _ => self.act(Action::Measure),
        }
    }

    /// Shows the preview on a terminal that was just measured, and starts the marquee.
    pub fn show_term_capabilities(&mut self, size: TermSize) -> (action: Action)
        requires
            old(self).colored(),
        ensures
            (final(self)@, action) == old(self)@.previewed(size),
            final(self).colored(),
    {
        match size.validate() {
            Err(e) => self.end(Some(ExitError::Setup(SetupError::Size(e)))),
            Ok(size) => {
                self.term_sz = size;
                self.show_capability_colors();
                self.prepare_marquee();
                if signals::interrupted(&self.signals) {
                    return self.end(None);
                }
                self.show_marquee(0, 0)
            },
        }
    }

    /// Goes on in the foreground after a suspension.
    pub fn return_to_foreground(&mut self, since: u64) -> (action: Action)
        requires
            old(self).colored(),
        ensures
            (final(self)@, action) == old(self)@.continued(since),
            final(self).colored(),
    {
        if !signals::interrupted(&self.signals) {
            self.hold = Hold::Resuming { since };
            return Action::Measure;
        }
        match self.stage {
            Stage::Prompt(_) => self.act(Action::AwaitAnswer),
            _ => self.stop(),
        }
    }

    /// Takes the screen over again after a suspension.
    pub fn resume(&mut self, since: u64, size: TermSize) -> (action: Action)
        requires
            old(self).colored(),
        ensures
            (final(self)@, action) == old(self)@.resumed(since, size),
            final(self).colored(),
    {
        match size.validate() {
            Err(e) => self.end(Some(ExitError::Setup(SetupError::Size(e)))),
            Ok(size) => {
                self.term_sz = size;
                self.terminal_active = true;
                self.hold = Hold::Redrawing { since };
                let on = ansi::term_on();
                self.emit(on.as_str());
                Action::Look
            },
        }
    }

    /// Draws anew what was on the screen before a suspension.
    #[verifier::rlimit(50)]
    pub fn redraw(&mut self, since: u64, now: u64) -> (action: Action)
        requires
            old(self).colored(),
            old(self)@.stage matches Stage::Marquee { line, frame, .. } ==> line < MARQUEE_LINES
                && frame < MARQUEE_STEPS,
            old(self)@.stage is Burning ==> old(self)@.show is Some,
        ensures
            (final(self)@, action) == old(self)@.redrawn(since, now),
            final(self).colored(),
    {
        proof {
            text::lemma_utf8_empty();
        }
        match self.stage {
            Stage::Prompt(screen) => {
                if !signals::interrupted(&self.signals) {
                    match screen {
                        PauseScreen::SizeWarning => {
                            self.show_size_warning();
                        },
                        PauseScreen::Capabilities => {
                            self.show_capability_colors();
                        },
                    }
                    self.show_prompt();
                }
                self.act(Action::AwaitAnswer)
            },
            Stage::Marquee { line, frame, .. } => {
                if signals::interrupted(&self.signals) {
                    return self.stop();
                }
                self.show_capability_colors();
                self.prepare_marquee();
                self.scroll_marquee(line, frame)
            },
            Stage::Burning => {
                if signals::interrupted(&self.signals) {
                    return self.stop();
                }
                let mut show = self.show.take().unwrap();
                show.frame.postpone(now.saturating_sub(since));
                self.show = Some(show);
                self.act(Action::Measure)
            },
            _ => self.stop(),
        }
    }

    /// Lights a fire for a terminal that can be drawn on, if there is memory for it.
    fn light(&self, size: TermSize, now: u64) -> (result: Result<Show, SetupError>)
        requires
            self.colored(),
            size.valid(),
        ensures
            match result {
                Ok(show) => show@ == ShowModel::lit(size, now),
                Err(e) => e == SetupError::OutOfMemory,
            },
    {
        let fire = match Fire::new(size) {
            Err(e) => {
                return Err(e);
            },
            Ok(fire) => fire,
        };
        proof {
            frame_laws::lemma_frame_capacity(size);
            assert(ansi::texts(self.fg@).len() == self.fg@.len());
            assert(ansi::texts(self.bg@).len() == self.bg@.len());
        }
        match FrameBuffer::new(size, self.fg.as_slice(), self.bg.as_slice(), now) {
            Err(e) => Err(e),
            Ok(frame) => Ok(Show { fire, frame }),
        }
    }

    /// Goes on with a fire that was just lit, or ends where there was no memory for it.
    pub fn kindle(&mut self, size: TermSize, show: Result<Show, SetupError>, now: u64) -> (action:
        Action)
        requires
            old(self).colored(),
            size.valid(),
            match show {
                Ok(show) => show@ == ShowModel::lit(size, now),
                Err(e) => e == SetupError::OutOfMemory,
            },
        ensures
            (final(self)@, action) == old(self)@.kindled(size, show is Ok, now),
            final(self).colored(),
    {
        self.term_sz = size;
        match show {
            Err(e) => self.end(Some(ExitError::Setup(e))),
            Ok(show) => {
                self.show = Some(show);
                self.stage = Stage::Burning;
                self.emit(SCREEN_CLEAR);
                self.look_first()
            },
        }
    }

    /// Lets the fire burn for a frame, draws the frame and counts it.
    fn draw_frame(&mut self) -> (action: Action)
        requires
            old(self).wf(),
            old(self)@.stage is Burning,
            old(self)@.hold is Running,
            old(self)@.show.unwrap().frame.stats.frame_count < u64::MAX,
        ensures
            (final(self)@, action) == old(self)@.drawn(),
            final(self).wf(),
    {
        proof {
            lemma_drawn_consistent(self@);
            crate::fire::law_fire_never_heats_up(
                self@.show.unwrap().fire,
                self@.rng,
                crate::fire::MAX_HEAT,
            );
            assert(ansi::texts(self.fg@).len() == self.fg@.len());
            assert(ansi::texts(self.bg@).len() == self.bg@.len());
        }
        let mut show = self.show.take().unwrap();
        show.fire.advance(&mut self.rng);
        show.frame.draw_fire(&show.fire, self.fg.as_slice(), self.bg.as_slice());
        show.frame.record_frame(show.frame.bytes.len() as u64);
        self.show = Some(show);
        self.stage = Stage::Painting;
        Action::Status
    }

    /// Draws the next frame on a terminal of the given size. `fresh` is the new fire for a terminal
    /// whose size has changed.
    pub fn burn(&mut self, size: TermSize, fresh: Option<Result<Show, SetupError>>, now: u64) -> (
        action: Action)
        requires
            old(self).wf(),
            old(self)@.stage is Burning,
            old(self)@.hold is Running,
            old(self)@.show.unwrap().frame.stats.frame_count < u64::MAX,
            size.valid(),
            fresh is Some <==> size != old(self)@.show.unwrap().frame.term_sz,
            fresh matches Some(show) ==> match show {
                Ok(show) => show@ == ShowModel::lit(size, now),
                Err(e) => e == SetupError::OutOfMemory,
            },
        ensures
            (final(self)@, action) == old(self)@.burned(size, fresh matches Some(Ok(_)), now),
            final(self).colored(),
    {
        match fresh {
            None => {},
            Some(Err(e)) => {
                return self.end(Some(ExitError::Setup(e)));
            },
            Some(Ok(show)) => {
                proof {
                    lemma_lit_consistent(size, now);
                }
                self.show = Some(show);
                self.term_sz = size;
                self.emit(SCREEN_CLEAR);
            },
        }
        self.draw_frame()
    }

    /// Writes a frame with its status line.
    pub fn paint(&mut self, status: &StatusText) -> (action: Action)
        requires
            old(self).wf(),
            old(self)@.stage is Painting,
            status@.numeric(),
        ensures
            (final(self)@, action) == old(self)@.painted(status@),
            final(self).colored(),
    {
        let mut show = self.show.take().unwrap();
        show.frame.paint(status, &mut self.out);
        self.show = Some(show);
        self.stage = Stage::Burning;
        self.look_first()
    }

    /// Goes on with the fire: lights it, draws its next frame, or writes the frame that was drawn.
    pub fn show_doom_fire(&mut self, event: Event, now: u64) -> (action: Action)
        requires
            old(self).wf(),
            old(self)@.hold is Running,
            old(self)@.stage is Kindling || old(self)@.stage is Burning || old(self)@.stage
                is Painting,
            old(self)@.awaits(event),
        ensures
            ({
                ||| (final(self)@, action) == old(self)@.proceeded(event, true, now)
                ||| (final(self)@, action) == old(self)@.proceeded(event, false, now)
            }),
            final(self).colored(),
    {
        match event {
            Event::Size(size) => {
                let size = match size.validate() {
                    Err(e) => {
                        return self.end(Some(ExitError::Setup(SetupError::Size(e))));
                    },
                    Ok(size) => size,
                };
                match self.stage {
                    Stage::Kindling => {
                        let show = self.light(size, now);
                        self.kindle(size, show, now)
                    },
                    _ => {
                        let same = match &self.show {
                            Some(show) => show.frame.term_sz == size,
                            None => true,
                        };
                        if same {
                            self.burn(size, None, now)
                        } else {
                            let show = self.light(size, now);
                            self.burn(size, Some(show), now)
                        }
                    },
                }
            },
            Event::Status(status) => self.paint(&status),
            _ => self.end(None),
        }
    }

    /// Whether an event answers the action that is under way, and the frame counter has room.
    pub fn accepts(&self, event: &Event) -> (yes: bool)
        requires
            self.wf(),
        ensures
            yes == self@.awaits(*event),
    {
        match self.hold {
            Hold::Looking => matches!(event, Event::Looked),
            Hold::Suspended { .. } => matches!(event, Event::Resumed),
            Hold::Resuming { .. } => matches!(event, Event::Size(_)),
            Hold::Redrawing { .. } => matches!(event, Event::Looked),
            Hold::Running => match self.stage {
                Stage::Ready => matches!(event, Event::Start),
                Stage::Prompt(_) => matches!(event, Event::Answer(_)),
                Stage::Measuring => matches!(event, Event::Size(_)),
                Stage::Marquee { .. } => matches!(event, Event::Woke),
                Stage::Kindling => matches!(event, Event::Size(_)),
                Stage::Burning => matches!(event, Event::Size(_)) && match &self.show {
                    Some(show) => show.frame.frame_count < u64::MAX,
                    None => false,
                },
                Stage::Painting => match event {
                    Event::Status(s) => text::is_number_text(s.min.as_str())
                        && text::is_number_text(s.avg.as_str()) && text::is_number_text(
                        s.max.as_str(),
                    ) && text::is_number_text(s.fps.as_str()),
                    _ => false,
                },
                Stage::Over => false,
            },
        }
    }

    /// Takes the next step after an event; see [`AppModel::step`]. Where a new fire is needed,
    /// there may be no memory for it; everything else is determined.
    #[verifier::rlimit(50)]
    pub fn run(&mut self, event: Event, now: u64) -> (action: Action)
        requires
            old(self).wf(),
            old(self)@.awaits(event),
        ensures
            ({
                ||| (final(self)@, action) == old(self)@.step(event, true, now)
                ||| (final(self)@, action) == old(self)@.step(event, false, now)
            }),
            final(self).wf(),
    {
        proof {
            session_laws::law_step_keeps_consistent(self@, event, true, now);
            session_laws::law_step_keeps_consistent(self@, event, false, now);
        }
        match self.hold {
            Hold::Looking => {
                return self.look(now);
            },
            Hold::Suspended { since } => {
                return self.return_to_foreground(since);
            },
            Hold::Resuming { since } => match event {
                Event::Size(size) => {
                    return self.resume(since, size);
                },
                _ => {
                    return self.end(None);
                },
            },
            Hold::Redrawing { since } => {
                return self.redraw(since, now);
            },
            Hold::Running => {},
        }
        match self.stage {
            Stage::Ready => self.check_term_size(),
            Stage::Prompt(screen) => match event {
                Event::Answer(answer) => self.pause_answered(screen, answer),
                _ => self.end(None),
            },
            Stage::Measuring => match event {
                Event::Size(size) => self.show_term_capabilities(size),
                _ => self.end(None),
            },
            Stage::Marquee { .. } => self.look_first(),
            _ => self.show_doom_fire(event, now),
        }
    }
}

} // verus!

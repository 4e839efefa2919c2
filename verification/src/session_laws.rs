//! What holds of every course of the program.

use vstd::prelude::*;

use crate::ansi;
use crate::ansi::Platform;
use crate::app::AppModel;
use crate::app::Hold;
use crate::app::PauseScreen;
use crate::app::Stage;
use crate::frame;
use crate::fire::FireModel;
use crate::frame::FrameModel;
use crate::frame::Stats;
use crate::frame::StatusText;
use crate::frame_laws;
use crate::memory::SetupError;
use crate::screens;
use crate::session;
use crate::session::Action;
use crate::session::Answer;
use crate::session::Event;
use crate::session::ExitError;
use crate::session::MARQUEE_STEPS;
use crate::signals::Signals;
use crate::size::TermSize;
use crate::text;

verus! {

broadcast use text::group_text;

/// How far the program is, as a number.
pub open spec fn rank(stage: Stage) -> nat {
    match stage {
        Stage::Ready => 0,
        Stage::Prompt(PauseScreen::SizeWarning) => 1,
        Stage::Measuring => 2,
        Stage::Marquee { .. } => 3,
        Stage::Prompt(PauseScreen::Capabilities) => 4,
        Stage::Kindling => 5,
        Stage::Burning => 6,
        Stage::Painting => 6,
        Stage::Over => 7,
    }
}

/// What gives the screen back, if it was taken over.
pub open spec fn farewell(app: AppModel) -> Seq<char> {
    if app.active {
        ansi::screen_off()
    } else {
        Seq::empty()
    }
}

/// Each step keeps what holds in every state.
#[verifier::rlimit(50)]
pub proof fn law_step_keeps_consistent(app: AppModel, event: Event, memory: bool, now: u64)
    requires
        app.consistent(),
        app.awaits(event),
    ensures
        app.step(event, memory, now).0.consistent(),
{
    match event {
        Event::Size(size) => {
            if size.valid() {
                session::lemma_lit_consistent(size, now);
                if app.stage is Burning && app.hold is Running {
                    session::lemma_drawn_consistent(app);
                    let fresh = AppModel {
                        term_sz: size,
                        show: Some(crate::app::ShowModel::lit(size, now)),
                        ..app.with_text(ansi::SCREEN_CLEAR@)
                    };
                    session::lemma_drawn_consistent(fresh);
                }
            }
        },
        Event::Status(status) => {
            if app.stage is Painting {
                let show = app.show.unwrap();
                frame_laws::law_frame_fits_reserved_memory(
                    show.fire,
                    show.frame.term_sz,
                    status@,
                );
            }
        },
        _ => {},
    }
}

/// One turn of a course: the signals that came, an event, when it came, and whether there was
/// memory for a new fire.
pub struct Turn {
    pub signals: Signals,
    pub event: Event,
    pub memory: bool,
    pub now: u64,
}

/// The state once signals were taken note of.
pub open spec fn signaled(app: AppModel, signals: Signals) -> AppModel {
    AppModel { signals: app.signals.joined(signals), ..app }
}

/// A course: the state of the program, and all that was handed out and written to the terminal.
#[verifier::ext_equal]
pub struct Course {
    pub app: AppModel,
    pub sent: Seq<u8>,
}

impl Course {
    /// The beginning: what takes the screen over was written.
    pub open spec fn begun(platform: Platform, size: TermSize, seed: u64) -> Course {
        let app = AppModel::begun(platform, size, seed);
        Course { app: app.handed_out().written(true), sent: app.out }
    }

    /// The state after a turn's step, before what it wrote is handed out.
    #[verifier::opaque]
    pub open spec fn stepped(self, turn: Turn) -> AppModel {
        signaled(self.app, turn.signals).step(turn.event, turn.memory, turn.now).0
    }

    /// After a turn whose output was handed out and written.
    pub open spec fn after(self, turn: Turn) -> Course {
        let app = self.stepped(turn);
        Course { app: app.handed_out().written(true), sent: self.sent + app.out }
    }

    /// After a number of turns.
    pub open spec fn after_turns(self, turns: Seq<Turn>) -> Course
        decreases turns.len(),
    {
        if turns.len() == 0 {
            self
        } else {
            self.after_turns(turns.drop_last()).after(turns.last())
        }
    }

    /// Whether each event answers the action that was under way.
    pub open spec fn proper(self, turns: Seq<Turn>) -> bool
        decreases turns.len(),
    {
        turns.len() > 0 ==> {
            &&& self.proper(turns.drop_last())
            &&& self.after_turns(turns.drop_last()).app.awaits(turns.last().event)
        }
    }
}

/// Whatever happens, what holds in every state holds from the beginning on. In particular the
/// screen is given back while the program is suspended and once it is over, and the fire fills the
/// terminal, has a color for each heat value and never burns out. After each write, the terminal
/// shows the program's screen exactly while the program has it.
#[verifier::rlimit(50)]
pub proof fn law_every_course_stays_consistent(
    platform: Platform,
    size: TermSize,
    seed: u64,
    turns: Seq<Turn>,
)
    requires
        size.valid(),
        Course::begun(platform, size, seed).proper(turns),
    ensures
        ({
            let app = Course::begun(platform, size, seed).after_turns(turns).app;
            app.consistent() && app.out.len() == 0 && app.taken == app.active
        }),
    decreases turns.len(),
{
    if turns.len() == 0 {
        assert(seed | 1 != 0) by (bit_vector);
    } else {
        let t = turns.last();
        law_every_course_stays_consistent(platform, size, seed, turns.drop_last());
        reveal(Course::stepped);
        let earlier = Course::begun(platform, size, seed).after_turns(turns.drop_last());
        law_step_keeps_consistent(
            signaled(earlier.app, t.signals),
            t.event,
            t.memory,
            t.now,
        );
    }
}

proof fn lemma_prefix<T>(a: Seq<T>, b: Seq<T>)
    ensures
        a.is_prefix_of(a + b),
        b.is_suffix_of(a + b),
{
    assert((a + b).subrange(0, a.len() as int) =~= a);
    assert((a + b).subrange((a + b).len() - b.len(), (a + b).len() as int) =~= b);
}

/// The program ends or is suspended only with the screen given back. The step that gives it back is
/// the one that ends or suspends the program, and the sequence that does so is the last thing it
/// writes.
#[verifier::rlimit(50)]
pub proof fn law_screen_is_given_back(app: AppModel, event: Event, memory: bool, now: u64)
    requires
        app.consistent(),
        app.awaits(event),
    ensures
        ({
            let (next, action) = app.step(event, memory, now);
            &&& action is Exit || action is Suspend ==> !next.active
            &&& app.active && !next.active ==> {
                &&& action is Exit || action is Suspend
                &&& text::utf8(ansi::screen_off()).is_suffix_of(next.out)
            }
        }),
{
    let (next, action) = app.step(event, memory, now);
    let off = text::utf8(ansi::screen_off());
    law_step_keeps_consistent(app, event, memory, now);
    assert forall|out: Seq<u8>| off.is_suffix_of(#[trigger] (out + off)) by {
        lemma_prefix(out, off);
    }
}

/// A suspended program writes nothing until it is in the foreground again and the terminal was
/// measured; then it takes the screen over first of all.
pub proof fn law_suspended_program_is_silent(app: AppModel, event: Event, memory: bool, now: u64)
    requires
        app.consistent(),
        app.awaits(event),
        app.hold is Suspended || app.hold is Resuming,
        !app.signals.interrupted,
        event matches Event::Size(size) ==> size.valid(),
    ensures
        ({
            let (next, action) = app.step(event, memory, now);
            &&& app.hold is Suspended ==> next.out == app.out && action == Action::Measure
            &&& app.hold is Resuming ==> next.out == app.out + text::utf8(ansi::screen_on())
                && next.hold is Redrawing && action == Action::Look
        }),
{
}

/// A program that was resumed and has the screen again draws anew what was on it: the warning or
/// the preview with the prompt, the preview with the marquee, or the next frame.
#[verifier::rlimit(50)]
pub proof fn law_resumed_program_redraws(app: AppModel, memory: bool, now: u64)
    requires
        app.consistent(),
        app.awaits(Event::Looked),
        app.hold is Redrawing,
        !app.signals.interrupted,
    ensures
        ({
            let (next, action) = app.step(Event::Looked, memory, now);
            let preview = screens::preview(app.platform, app.term_sz);
            match app.stage {
                Stage::Prompt(PauseScreen::SizeWarning) => next.out == app.out + text::utf8(
                    screens::size_warning(app.platform, app.term_sz) + screens::prompt_text(),
                ) && action == Action::AwaitAnswer,
                Stage::Prompt(PauseScreen::Capabilities) => next.out == app.out + text::utf8(
                    preview + screens::prompt_text(),
                ) && action == Action::AwaitAnswer,
                Stage::Marquee { .. } => (app.out + text::utf8(
                    preview + screens::marquee_field(app.platform),
                )).is_prefix_of(next.out),
                _ => next.out == app.out && next.stage == Stage::Burning && action
                    == Action::Measure,
            }
        }),
{
    let marquee = screens::preview(app.platform, app.term_sz) + screens::marquee_field(
        app.platform,
    );
    let base = app.out + text::utf8(marquee);
    assert forall|t: Seq<u8>| base.is_prefix_of(#[trigger] (base + t)) by {
        lemma_prefix(base, t);
    }
    assert forall|t: Seq<u8>, u: Seq<u8>|
        base.is_prefix_of(t) implies base.is_prefix_of(#[trigger] (t + u)) by {
        assert((t + u).subrange(0, base.len() as int) =~= t.subrange(0, base.len() as int));
    }
}

/// A look for signals that finds the program interrupted ends it without an error. Nothing is drawn
/// any more: all that is written is what gives the screen back, after the line break that ends a
/// pair of lines of the marquee if that was due.
pub proof fn law_interruption_ends_the_program(app: AppModel, memory: bool, now: u64)
    requires
        app.consistent(),
        app.hold is Looking,
        app.signals.interrupted,
    ensures
        ({
            let (next, action) = app.step(Event::Looked, memory, now);
            let break_due = app.stage matches Stage::Marquee { frame, .. } && frame + 1
                == MARQUEE_STEPS;
            &&& action == Action::Exit { error: None }
            &&& next.stage == Stage::Over
            &&& next.out == app.out + text::utf8(
                if break_due {
                    ansi::newline(app.platform)
                } else {
                    Seq::empty()
                },
            ) + text::utf8(farewell(app))
        }),
{
    text::lemma_utf8_empty();
}

/// How many more events a program that was interrupted takes at most.
pub open spec fn events_left(app: AppModel) -> nat {
    match app.hold {
        Hold::Looking => 1,
        Hold::Suspended { .. } => 3,
        Hold::Resuming { .. } => 4,
        Hold::Redrawing { .. } => 3,
        Hold::Running => match app.stage {
            Stage::Burning => 3,
            Stage::Over => 0,
            _ => 2,
        },
    }
}

/// A program that was interrupted does nothing but come to its end: each event brings it closer,
/// and after four at most it is over. It ends with an error only if what it was waiting for gives
/// one: an answer that cannot be read, a terminal that cannot be drawn on, or no memory for its
/// fire.
#[verifier::rlimit(50)]
pub proof fn law_interrupted_program_comes_to_its_end(
    app: AppModel,
    event: Event,
    memory: bool,
    now: u64,
)
    requires
        app.consistent(),
        app.awaits(event),
        app.signals.interrupted,
    ensures
        ({
            let (next, action) = app.step(event, memory, now);
            &&& next.signals.interrupted
            &&& events_left(app) <= 4
            &&& events_left(next) < events_left(app)
            &&& action is Exit <==> next.stage == Stage::Over
            &&& action matches Action::Exit { error: Some(e) } ==> match e {
                ExitError::Input => event == Event::Answer(Answer::Failed),
                ExitError::Setup(SetupError::Size(d)) => event matches Event::Size(size)
                    && size.defect() == Some(d),
                ExitError::Setup(SetupError::OutOfMemory) => event is Size && !memory,
            }
        }),
{
}

/// An answer that cannot be read ends the program with the error, interrupted or not.
pub proof fn law_failed_answer_ends_the_program(app: AppModel, memory: bool, now: u64)
    requires
        app.consistent(),
        app.awaits(Event::Answer(Answer::Failed)),
    ensures
        ({
            let (next, action) = app.step(Event::Answer(Answer::Failed), memory, now);
            &&& action == Action::Exit { error: Some(ExitError::Input) }
            &&& next.stage == Stage::Over
            &&& next.out == app.out + text::utf8(farewell(app))
        }),
{
    text::lemma_utf8_empty();
}

/// The answer to quit ends the program without an error, and without anything drawn any more.
pub proof fn law_quit_ends_the_program(app: AppModel, memory: bool, now: u64)
    requires
        app.consistent(),
        app.awaits(Event::Answer(Answer::Quit)),
    ensures
        ({
            let (next, action) = app.step(Event::Answer(Answer::Quit), memory, now);
            &&& action == Action::Exit { error: None }
            &&& next.stage == Stage::Over
            &&& next.out == app.out + text::utf8(farewell(app))
        }),
{
    text::lemma_utf8_empty();
}

/// A terminal that cannot be drawn on, whenever it is found to be one, ends the program with the
/// error, after the screen was given back; so it does even if the program was interrupted.
pub proof fn law_bad_size_ends_the_program(
    app: AppModel,
    size: TermSize,
    memory: bool,
    now: u64,
)
    requires
        app.consistent(),
        app.awaits(Event::Size(size)),
        !size.valid(),
    ensures
        ({
            let (next, action) = app.step(Event::Size(size), memory, now);
            &&& action == Action::Exit {
                error: Some(ExitError::Setup(SetupError::Size(size.defect().unwrap()))),
            }
            &&& next.stage == Stage::Over
            &&& next.out == app.out + text::utf8(farewell(app))
        }),
{
    text::lemma_utf8_empty();
}

/// The program only ever goes forward: from the warning to the preview, from the preview to the
/// fire, and from anywhere to the end.
pub proof fn law_program_goes_forward(app: AppModel, event: Event, memory: bool, now: u64)
    requires
        app.consistent(),
        app.awaits(event),
    ensures
        rank(app.step(event, memory, now).0.stage) >= rank(app.stage),
{
}

/// A prompt is only left by an answer (or for the end), and one answer never leaves two:
/// after the warning the terminal is measured for the preview, and after the preview for the fire.
pub proof fn law_one_answer_leaves_one_prompt(
    app: AppModel,
    event: Event,
    memory: bool,
    now: u64,
    screen: PauseScreen,
)
    requires
        app.consistent(),
        app.awaits(event),
        app.stage == Stage::Prompt(screen),
    ensures
        ({
            let next = app.step(event, memory, now).0.stage;
            &&& next == app.stage || next == Stage::Over || next == (match screen {
                PauseScreen::SizeWarning => Stage::Measuring,
                PauseScreen::Capabilities => Stage::Kindling,
            })
            &&& next != app.stage && next != Stage::Over ==> event == Event::Answer(
                Answer::Continue,
            ) || event == Event::Answer(Answer::Closed)
        }),
{
}

/// A terminal that is too small for the preview is warned about first; any other one is not.
pub proof fn law_small_terminal_is_warned(app: AppModel, memory: bool, now: u64)
    requires
        app.consistent(),
        app.awaits(Event::Start),
    ensures
        app.step(Event::Start, memory, now).0.stage == (if app.term_sz.width < 120
            || app.term_sz.height < 22 {
            Stage::Prompt(PauseScreen::SizeWarning)
        } else {
            Stage::Measuring
        }),
{
}

/// Each frame is drawn for the terminal as it was just measured, so the animation adapts to
/// resizing; a new fire is lit exactly where the size has changed. A frame that was begun is drawn
/// even if the program was interrupted.
#[verifier::rlimit(50)]
pub proof fn law_frame_fits_the_terminal(
    app: AppModel,
    size: TermSize,
    now: u64,
)
    requires
        app.consistent(),
        app.awaits(Event::Size(size)),
        app.stage == Stage::Burning,
        app.hold is Running,
        size.valid(),
    ensures
        ({
            let (next, action) = app.step(Event::Size(size), true, now);
            let before = app.show.unwrap();
            let after = next.show.unwrap();
            &&& action == Action::Status
            &&& after.frame.term_sz == size
            &&& frame_laws::fills(after.fire, size)
            &&& after.frame.bytes == text::utf8(
                frame::frame_text(after.fire, ansi::fg_table(), ansi::bg_table()),
            )
            &&& size == before.frame.term_sz ==> after.fire == before.fire.advanced(app.rng).0
                && next.out == app.out
            &&& size != before.frame.term_sz ==> after.fire == crate::fire::FireModel::lit(
                size,
            ).advanced(app.rng).0 && next.out == app.out + text::utf8(ansi::SCREEN_CLEAR@)
        }),
{
    law_step_keeps_consistent(app, Event::Size(size), true, now);
}

/// What is written once a frame was drawn is the fire, which fills the terminal, and the status
/// line below it. Signals are looked for only then.
pub proof fn law_painted_frame_is_the_fire(
    app: AppModel,
    status: StatusText,
    memory: bool,
    now: u64,
)
    requires
        app.consistent(),
        app.awaits(Event::Status(status)),
        app.stage == Stage::Painting,
    ensures
        ({
            let (next, action) = app.step(Event::Status(status), memory, now);
            let show = app.show.unwrap();
            let painted = frame::frame_text(show.fire, ansi::fg_table(), ansi::bg_table())
                + frame::status_text(show.frame.term_sz, status@);
            &&& frame_laws::fills(show.fire, show.frame.term_sz)
            &&& next.out == app.out + text::utf8(painted)
            &&& action == Action::Look
        }),
{
}

/// Each frame, from the measurement of the terminal to what is written: it has one half block for
/// each cell but those of the last row, no line break, and the status line in that last row. Where
/// the size differs from that of the frame before, the screen is cleared first, and the fire and
/// the statistics start anew; else both go on. Signals that come meanwhile change nothing of it.
#[verifier::rlimit(50)]
pub proof fn law_each_frame_fills_its_terminal(
    app: AppModel,
    size: TermSize,
    start: u64,
    signals: Signals,
    status: StatusText,
    memory: bool,
    now: u64,
)
    requires
        app.consistent(),
        app.awaits(Event::Size(size)),
        app.stage == Stage::Burning,
        app.hold is Running,
        size.valid(),
        status@.numeric(),
    ensures
        ({
            let before = app.show.unwrap();
            let same = size == before.frame.term_sz;
            let (drawn, status_due) = app.step(Event::Size(size), true, start);
            let (next, look_due) = signaled(drawn, signals).step(
                Event::Status(status),
                memory,
                now,
            );
            let fire = (if same {
                before.fire
            } else {
                FireModel::lit(size)
            }).advanced(app.rng).0;
            let cleared = if same {
                Seq::empty()
            } else {
                ansi::SCREEN_CLEAR@
            };
            let fire_text = frame::frame_text(fire, ansi::fg_table(), ansi::bg_table());
            let painted = fire_text + frame::status_text(size, status@);
            let stats = (if same {
                before.frame.stats
            } else {
                Stats::none()
            }).record(text::utf8(fire_text).len());
            &&& status_due == Action::Status && look_due == Action::Look
            &&& signaled(drawn, signals).awaits(Event::Status(status))
            &&& next.out == app.out + text::utf8(cleared + painted)
            &&& next.show.unwrap().frame.stats == stats
            &&& frame_laws::half_blocks(painted) == size.width * (size.height - 1)
            &&& frame_laws::unbroken(painted)
        }),
{
    text::lemma_utf8_empty();
    law_step_keeps_consistent(app, Event::Size(size), true, start);
    let drawn = app.step(Event::Size(size), true, start).0;
    let fire = drawn.show.unwrap().fire;
    frame_laws::law_frame_has_a_half_block_per_cell(fire, size, status@);
    frame_laws::lemma_frame_unbroken(fire, size, status@);
}

/// Where there is no memory for a fire that is needed, the program ends with the error, after the
/// screen was given back.
pub proof fn law_missing_memory_ends_the_program(app: AppModel, size: TermSize, now: u64)
    requires
        app.consistent(),
        app.awaits(Event::Size(size)),
        app.hold is Running,
        app.stage == Stage::Kindling || app.stage == Stage::Burning && size
            != app.show.unwrap().frame.term_sz,
        size.valid(),
    ensures
        ({
            let (next, action) = app.step(Event::Size(size), false, now);
            &&& action == Action::Exit { error: Some(ExitError::Setup(SetupError::OutOfMemory)) }
            &&& next.stage == Stage::Over
            &&& next.out == app.out + text::utf8(ansi::screen_off())
        }),
{
}

/// The time that the program was suspended does not count as time that the animation has run.
pub proof fn law_suspension_is_not_counted(frame: FrameModel, since: nat, now: nat)
    requires
        frame.start <= since <= now <= u64::MAX,
    ensures
        frame.postponed((now - since) as nat).elapsed(now) == frame.elapsed(since),
{
}

/// The program is only suspended where that was asked for, and each request suspends it once.
pub proof fn law_suspension_answers_a_request(app: AppModel, event: Event, memory: bool, now: u64)
    requires
        app.consistent(),
        app.awaits(event),
        app.step(event, memory, now).1 == Action::Suspend,
    ensures
        app.platform == Platform::Unix,
        app.signals.suspend_requested,
        !app.step(event, memory, now).0.signals.suspend_requested,
{
}

/// A look for signals that finds that suspension was asked for suspends the program, at a prompt,
/// in the marquee and between two frames; everywhere else the request waits.
pub proof fn law_look_suspends_the_program(app: AppModel, memory: bool, now: u64)
    requires
        app.consistent(),
        app.hold is Looking,
        app.suspends(),
    ensures
        ({
            let (next, action) = app.step(Event::Looked, memory, now);
            if app.suspendable() {
                &&& action == Action::Suspend
                &&& next.out == app.out + text::utf8(ansi::screen_off())
            } else {
                &&& action == Action::Measure
                &&& next.signals == app.signals
                &&& next.out == app.out
            }
        }),
{
}

} // verus!

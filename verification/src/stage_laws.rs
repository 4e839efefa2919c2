//! What each stage of the program does, on every terminal and at every time.

use vstd::prelude::*;

use crate::ansi;
use crate::ansi::Platform;
use crate::ansi::COLOR_DEF;
use crate::ansi::COLOR_RESET;
use crate::app::AppModel;
use crate::app::Hold;
use crate::app::PauseScreen;
use crate::app::Stage;
use crate::fire::FireModel;
use crate::frame::StatusText;
use crate::screens;
use crate::session;
use crate::session::Action;
use crate::session::Answer;
use crate::session::Event;
use crate::session_laws;
use crate::signals::Signals;
use crate::size::TermSize;
use crate::text;

verus! {

broadcast use text::group_text;

proof fn lemma_prefix(a: Seq<u8>, b: Seq<u8>)
    ensures
        a.is_prefix_of(a + b),
{
    assert((a + b).subrange(0, a.len() as int) =~= a);
}

proof fn lemma_prefix_grows(a: Seq<u8>, b: Seq<u8>, c: Seq<u8>)
    requires
        a.is_prefix_of(b),
    ensures
        a.is_prefix_of(b + c),
{
    assert((b + c).subrange(0, a.len() as int) =~= b.subrange(0, a.len() as int));
}

/// The preview says the size of the terminal that it is for, and everything below that line is the
/// same on all terminals.
pub proof fn law_preview_says_the_size(p: Platform, a: TermSize, b: TermSize) -> (charts: Seq<char>)
    ensures
        screens::preview(p, a) == COLOR_DEF@ + "Screen size: "@ + text::decimal(a.width as nat)
            + "w x "@ + text::decimal(a.height as nat) + "h"@ + charts,
        screens::preview(p, b) == COLOR_DEF@ + "Screen size: "@ + text::decimal(b.width as nat)
            + "w x "@ + text::decimal(b.height as nat) + "h"@ + charts,
{
    reveal(screens::preview);
    let nl = ansi::newline(p);
    let charts = nl + nl + screens::standard_chart(p) + screens::cube_chart(p)
        + screens::gray_chart(p);
    assert(screens::preview(p, a) =~= COLOR_DEF@ + "Screen size: "@ + text::decimal(
        a.width as nat,
    ) + "w x "@ + text::decimal(a.height as nat) + "h"@ + charts);
    assert(screens::preview(p, b) =~= COLOR_DEF@ + "Screen size: "@ + text::decimal(
        b.width as nat,
    ) + "w x "@ + text::decimal(b.height as nat) + "h"@ + charts);
    charts
}

/// The warning says, in red, what is wrong with the terminal: its height, its width or both, and
/// what is needed. Everything after that is the same for all terminals that are warned about. A
/// terminal with 120 columns and 22 rows or more has its size reported instead.
#[verifier::rlimit(50)]
pub proof fn law_warning_says_what_is_wrong(p: Platform, a: TermSize, b: TermSize) -> (advice: Seq<
    char,
>)
    ensures
        a.width >= 120 && a.height < 22 ==> screens::size_warning(p, a) == ansi::fg_color(9)
            + "Screen may be too short - height is "@ + text::decimal(a.height as nat)
            + " and need "@ + text::decimal(22) + "."@ + advice,
        a.width < 120 && a.height >= 22 ==> screens::size_warning(p, a) == ansi::fg_color(9)
            + "Screen may be too narrow - width is "@ + text::decimal(a.width as nat)
            + " and need "@ + text::decimal(120) + "."@ + advice,
        a.width < 120 && a.height < 22 ==> screens::size_warning(p, a) == ansi::fg_color(9)
            + "Screen is too small - have "@ + text::decimal(a.width as nat) + " x "@
            + text::decimal(a.height as nat) + " and need "@ + text::decimal(120) + " x "@
            + text::decimal(22) + advice,
        b.width < 120 && b.height >= 22 ==> screens::size_warning(p, b) == ansi::fg_color(9)
            + "Screen may be too narrow - width is "@ + text::decimal(b.width as nat)
            + " and need "@ + text::decimal(120) + "."@ + advice,
        a.width >= 120 && a.height >= 22 ==> screens::size_warning(p, a) == COLOR_DEF@
            + "Screen size: "@ + text::decimal(a.width as nat) + "w x "@ + text::decimal(
            a.height as nat,
        ) + "h"@ + ansi::newline(p) + ansi::newline(p),
{
    reveal(screens::size_warning);
    let nl = ansi::newline(p);
    let advice = nl + nl + ansi::bg_color(1) + ansi::fg_color(15)
        + "There may be rendering issues on the next screen; to correct, <q><enter>, resize and try again."@
        + ansi::LINE_CLEAR_TO_EOL@ + COLOR_RESET@ + nl + nl + "Continue?"@ + nl + nl;
    if a.width < 120 || a.height < 22 {
        assert(screens::size_warning(p, a) =~= ansi::fg_color(9) + screens::size_complaint(a)
            + advice);
    }
    if b.width < 120 || b.height < 22 {
        assert(screens::size_warning(p, b) =~= ansi::fg_color(9) + screens::size_complaint(b)
            + advice);
    }
    advice
}

/// The program starts with the size that was found, and neither signals nor a fire.
pub proof fn law_program_begins_on_its_terminal(platform: Platform, size: TermSize, seed: u64)
    ensures
        ({
            let app = AppModel::begun(platform, size, seed);
            &&& app.platform == platform && app.term_sz == size
            &&& app.rng % 2 == 1 && app.rng / 2 == seed / 2
            &&& app.active && !app.taken
            &&& !app.signals.interrupted && !app.signals.suspend_requested
            &&& app.stage == Stage::Ready && app.hold == Hold::Running && app.show is None
            &&& platform == Platform::Unix ==> app.out == text::utf8(ansi::screen_on())
            &&& platform == Platform::Windows ==> app.out == text::utf8(ansi::screen_on())
                + text::utf8("\x1B(B"@)
        }),
{
    assert((seed | 1) % 2 == 1 && (seed | 1) / 2 == seed / 2) by (bit_vector);
}

/// On a terminal with fewer than 120 columns or 22 rows, the program first shows the warning about
/// that size and opens its prompt; on any other it writes nothing and goes on to the preview.
pub proof fn law_start_warns_about_the_size(app: AppModel, memory: bool, now: u64)
    requires
        app.consistent(),
        app.awaits(Event::Start),
    ensures
        ({
            let (next, action) = app.step(Event::Start, memory, now);
            &&& action == Action::Look && next.hold == Hold::Looking
            &&& next.term_sz == app.term_sz && next.signals == app.signals
            &&& app.term_sz.width < 120 || app.term_sz.height < 22 ==> next.stage == Stage::Prompt(
                PauseScreen::SizeWarning,
            ) && next.out == app.out + text::utf8(
                screens::size_warning(app.platform, app.term_sz),
            ) + text::utf8(screens::prompt_text())
            &&& app.term_sz.width >= 120 && app.term_sz.height >= 22 ==> next.stage
                == Stage::Measuring && next.out == app.out
        }),
{
}

/// The preview is for the terminal as it was just measured, whatever size was known before: its
/// first line, which is the first thing written, holds the measured width and height. The marquee
/// starts then, unless the program was interrupted.
#[verifier::rlimit(50)]
pub proof fn law_preview_is_for_the_measured_size(
    app: AppModel,
    size: TermSize,
    memory: bool,
    now: u64,
)
    requires
        app.consistent(),
        app.awaits(Event::Size(size)),
        app.stage == Stage::Measuring,
        app.hold == Hold::Running,
        size.valid(),
    ensures
        ({
            let (next, action) = app.step(Event::Size(size), memory, now);
            let line = COLOR_DEF@ + "Screen size: "@ + text::decimal(size.width as nat) + "w x "@
                + text::decimal(size.height as nat) + "h"@;
            &&& next.term_sz == size
            &&& (app.out + text::utf8(line)).is_prefix_of(next.out)
            &&& !app.signals.interrupted ==> {
                &&& next.stage == Stage::Marquee { line: 0, frame: 0, deadline: None }
                &&& next.hold == Hold::Looking && action == Action::Look
            }
        }),
{
    let p = app.platform;
    let line = COLOR_DEF@ + "Screen size: "@ + text::decimal(size.width as nat) + "w x "@
        + text::decimal(size.height as nat) + "h"@;
    let charts = law_preview_says_the_size(p, size, size);
    let base = app.out + text::utf8(line);
    let next = app.step(Event::Size(size), memory, now).0;
    let field = text::utf8(screens::marquee_field(p));
    let first = text::utf8(session::marquee_step(p, 0, 0));
    let off = text::utf8(ansi::screen_off());
    assert(screens::preview(p, size) =~= line + charts);
    lemma_prefix(base, text::utf8(charts));
    assert(app.out + text::utf8(screens::preview(p, size)) =~= base + text::utf8(charts));
    lemma_prefix_grows(base, base + text::utf8(charts), field);
    lemma_prefix_grows(base, base + text::utf8(charts) + field, first);
    lemma_prefix_grows(base, base + text::utf8(charts) + field, off);
}

/// Two programs on the same kind of system show the same below the line with the size, whatever the
/// sizes and whenever they do it.
#[verifier::rlimit(50)]
pub proof fn law_preview_is_the_same_everywhere(
    a: AppModel,
    b: AppModel,
    size_a: TermSize,
    size_b: TermSize,
    now_a: u64,
    now_b: u64,
) -> (rest: Seq<char>)
    requires
        a.stage == Stage::Measuring,
        b.stage == Stage::Measuring,
        a.hold == Hold::Running,
        b.hold == Hold::Running,
        a.platform == b.platform,
        !a.signals.interrupted,
        !b.signals.interrupted,
        size_a.valid(),
        size_b.valid(),
    ensures
        ({
            let next_a = a.step(Event::Size(size_a), true, now_a).0;
            let next_b = b.step(Event::Size(size_b), true, now_b).0;
            &&& next_a.out == a.out + text::utf8(
                COLOR_DEF@ + "Screen size: "@ + text::decimal(size_a.width as nat) + "w x "@
                    + text::decimal(size_a.height as nat) + "h"@ + rest,
            )
            &&& next_b.out == b.out + text::utf8(
                COLOR_DEF@ + "Screen size: "@ + text::decimal(size_b.width as nat) + "w x "@
                    + text::decimal(size_b.height as nat) + "h"@ + rest,
            )
        }),
{
    let p = a.platform;
    let charts = law_preview_says_the_size(p, size_a, size_b);
    let rest = charts + screens::marquee_field(p) + session::marquee_step(p, 0, 0);
    rest
}

/// Return goes on: at either prompt, on every terminal, the answer to go on (or the end of all
/// answers) leads to the next stage and never to the end. After the warning the screen is cleared
/// and the terminal measured for the preview; after the preview nothing is written and the terminal
/// is measured for the fire. Unless a signal comes, the measurement is the next thing that is done.
pub proof fn law_return_goes_on(
    app: AppModel,
    screen: PauseScreen,
    answer: Answer,
    signals: Signals,
    memory: bool,
    now: u64,
    later: u64,
)
    requires
        app.consistent(),
        app.stage == Stage::Prompt(screen),
        app.hold == Hold::Running,
        !app.signals.interrupted,
        !signals.interrupted,
        answer == Answer::Continue || answer == Answer::Closed,
    ensures
        ({
            let (next, action) = app.step(Event::Answer(answer), memory, now);
            let (measuring, measure) = session_laws::signaled(next, signals).step(
                Event::Looked,
                memory,
                later,
            );
            &&& action == Action::Look && next.hold == Hold::Looking
            &&& next.active == app.active && next.term_sz == app.term_sz
            &&& screen == PauseScreen::SizeWarning ==> next.stage == Stage::Measuring && next.out
                == app.out + text::utf8("\x1B[0m"@ + "\x1B[1;1H"@ + "\x1B[2J"@)
            &&& screen == PauseScreen::Capabilities ==> next.stage == Stage::Kindling && next.out
                == app.out
            &&& measure == Action::Measure && measuring.stage == next.stage
            &&& measuring.hold == Hold::Running && measuring.out == next.out
            &&& forall|size: TermSize| #[trigger] measuring.awaits(Event::Size(size))
        }),
{
}

/// Without an answer a prompt stays as it is: nothing is written, and unless a signal came, the
/// program waits again.
pub proof fn law_open_prompt_waits(
    app: AppModel,
    screen: PauseScreen,
    signals: Signals,
    memory: bool,
    now: u64,
    later: u64,
)
    requires
        app.consistent(),
        app.stage == Stage::Prompt(screen),
        app.hold == Hold::Running,
        !app.signals.interrupted,
        !signals.interrupted,
        !app.signals.suspend_requested && !signals.suspend_requested || app.platform
            == Platform::Windows,
    ensures
        ({
            let (next, action) = app.step(Event::Answer(Answer::Pending), memory, now);
            let (waiting, again) = session_laws::signaled(next, signals).step(
                Event::Looked,
                memory,
                later,
            );
            &&& action == Action::Look && again == Action::AwaitAnswer
            &&& waiting.stage == app.stage && waiting.hold == Hold::Running
            &&& waiting.out == app.out && waiting.active == app.active
        }),
{
}

/// The program ends only for a reason: an interruption, the answer to quit, an answer that cannot
/// be read, a terminal that cannot be drawn on, or no memory for a fire.
#[verifier::rlimit(50)]
pub proof fn law_program_ends_only_for_a_reason(app: AppModel, event: Event, memory: bool, now: u64)
    requires
        app.consistent(),
        app.awaits(event),
    ensures
        ({
            let (next, action) = app.step(event, memory, now);
            action is Exit || next.stage == Stage::Over ==> {
                ||| app.signals.interrupted
                ||| event == Event::Answer(Answer::Quit)
                ||| event == Event::Answer(Answer::Failed)
                ||| event matches Event::Size(size) && (size.width == 0 || size.height < 2
                    || size.width * size.height > 1_000_000)
                ||| event is Size && !memory
            }
        }),
{
}

/// Each action is one that the program can be answered: what comes of it is awaited. Only a frame
/// counter that is full can keep a measurement from being so.
#[verifier::rlimit(50)]
pub proof fn law_each_action_is_answered(app: AppModel, event: Event, memory: bool, now: u64)
    requires
        app.consistent(),
        app.awaits(event),
    ensures
        ({
            let (next, action) = app.step(event, memory, now);
            match action {
                Action::Look => next.awaits(Event::Looked),
                Action::Measure => forall|size: TermSize|
                    (next.show matches Some(show) ==> show.frame.stats.frame_count < u64::MAX)
                        ==> #[trigger] next.awaits(Event::Size(size)),
                Action::AwaitAnswer => forall|answer: Answer| #[trigger]
                    next.awaits(Event::Answer(answer)),
                Action::Sleep { nanos } => next.awaits(Event::Woke) && 0 < nanos <= 25_000_000,
                Action::Suspend => next.awaits(Event::Resumed),
                Action::Status => forall|status: StatusText|
                    status@.numeric() ==> #[trigger] next.awaits(Event::Status(status)),
                Action::Exit { .. } => next.stage == Stage::Over && !next.active,
            }
        }),
{
}

/// What a look for signals leads to where none came: the answer is awaited at a prompt, and the
/// terminal measured before the preview, before the fire and before each frame. Nothing is written
/// and nothing else changes.
pub proof fn law_quiet_look_goes_on(app: AppModel, memory: bool, now: u64)
    requires
        app.consistent(),
        app.hold == Hold::Looking,
        app.stage !is Marquee,
        !app.signals.interrupted,
        !app.signals.suspend_requested || app.platform == Platform::Windows,
    ensures
        ({
            let (next, action) = app.step(Event::Looked, memory, now);
            &&& next == AppModel { hold: Hold::Running, ..app }
            &&& app.stage is Prompt ==> action == Action::AwaitAnswer
            &&& app.stage !is Prompt ==> action == Action::Measure
        }),
{
}

/// The color of the text at a step of the marquee: it fades in from the color of the field to black
/// in eleven steps, and after the step that holds it, out again in ten.
proof fn lemma_marquee_color(frame: nat)
    requires
        frame < 22,
        frame != 11,
    ensures
        ({
            let fade = seq![222nat, 221, 220, 215, 214, 184, 178, 130, 235, 58, 16];
            session::step_color(frame) == (if frame < 11 {
                fade[frame as int]
            } else {
                fade[22 - frame]
            })
        }),
{
}

/// How the marquee runs, on every terminal. A step lasts 10 milliseconds from when it is first seen
/// on the terminal, the one that holds a pair of lines a second; meanwhile the program sleeps for
/// at most 25 milliseconds at a time. Then the next step follows: there are 22 for each of the
/// three pairs of lines. A line break ends a pair, and the prompt follows the last.
#[verifier::rlimit(50)]
pub proof fn law_marquee_runs_its_course(
    app: AppModel,
    line: usize,
    frame: usize,
    deadline: Option<u64>,
    memory: bool,
    now: u64,
)
    requires
        app.consistent(),
        app.hold == Hold::Looking,
        app.stage == (Stage::Marquee { line, frame, deadline }),
        !app.signals.interrupted,
        !app.signals.suspend_requested || app.platform == Platform::Windows,
    ensures
        ({
            let (next, action) = app.step(Event::Looked, memory, now);
            let p = app.platform;
            let time = if frame == 11 {
                1_000_000_000int
            } else {
                10_000_000int
            };
            let end = match deadline {
                Some(d) => d as int,
                None => if now + time <= u64::MAX {
                    now + time
                } else {
                    u64::MAX as int
                },
            };
            let fade = seq![222nat, 221, 220, 215, 214, 184, 178, 130, 235, 58, 16];
            &&& next.term_sz == app.term_sz && next.signals == app.signals
            &&& end > now ==> {
                &&& next.stage == Stage::Marquee { line, frame, deadline: Some(end as u64) }
                &&& next.hold == Hold::Running && next.out == app.out
                &&& end - now <= 25_000_000 ==> action == (Action::Sleep {
                    nanos: (end - now) as u64,
                })
                &&& end - now > 25_000_000 ==> action == (Action::Sleep { nanos: 25_000_000 })
            }
            &&& end <= now ==> action == Action::Look && next.hold == Hold::Looking
            &&& end <= now && frame < 21 ==> next.stage == (Stage::Marquee {
                line,
                frame: (frame + 1) as usize,
                deadline: None,
            })
            &&& end <= now && frame < 10 ==> next.out == app.out + text::utf8(
                screens::marquee_text(p, line as nat, fade[frame + 1]),
            )
            &&& end <= now && frame == 10 ==> next.out == app.out
            &&& end <= now && 11 <= frame < 21 ==> next.out == app.out + text::utf8(
                screens::marquee_text(p, line as nat, fade[21 - frame]),
            )
            &&& end <= now && frame == 21 && line < 2 ==> {
                &&& next.stage == Stage::Marquee {
                    line: (line + 1) as usize,
                    frame: 0,
                    deadline: None,
                }
                &&& next.out == app.out + text::utf8(ansi::newline(p)) + text::utf8(
                    screens::marquee_text(p, (line + 1) as nat, 222),
                )
            }
            &&& end <= now && frame == 21 && line == 2 ==> {
                &&& next.stage == Stage::Prompt(PauseScreen::Capabilities)
                &&& next.out == app.out + text::utf8(ansi::newline(p)) + text::utf8(
                    screens::prompt_text(),
                )
            }
        }),
{
    text::lemma_utf8_empty();
    if frame < 21 && frame != 10 {
        lemma_marquee_color((frame + 1) as nat);
    }
    lemma_marquee_color(0);
}

/// A sleep of the marquee is only followed by a look for signals.
pub proof fn law_marquee_wakes_to_look(app: AppModel, memory: bool, now: u64)
    requires
        app.consistent(),
        app.stage is Marquee,
        app.hold == Hold::Running,
    ensures
        app.step(Event::Woke, memory, now) == (
            AppModel { hold: Hold::Looking, ..app },
            Action::Look,
        ),
{
}

/// The fire is lit for the terminal as it was just measured, on a cleared screen: two rows of heat
/// for each row but the last, hot at the bottom and cold everywhere else, and no frame counted.
pub proof fn law_fire_is_lit_for_the_measured_size(
    app: AppModel,
    size: TermSize,
    now: u64,
    x: nat,
    y: nat,
)
    requires
        app.consistent(),
        app.awaits(Event::Size(size)),
        app.stage == Stage::Kindling,
        app.hold == Hold::Running,
        size.valid(),
        x < size.width,
        y < 2 * (size.height - 1),
    ensures
        ({
            let (next, action) = app.step(Event::Size(size), true, now);
            let show = next.show.unwrap();
            &&& action == Action::Look && next.hold == Hold::Looking
            &&& next.stage == Stage::Burning && next.term_sz == size
            &&& next.out == app.out + text::utf8("\x1B[2J"@)
            &&& show.frame.term_sz == size && show.frame.stats.frame_count == 0
            &&& show.frame.stats.total_len == 0 && show.frame.bytes.len() == 0
            &&& show.fire.width == size.width && show.fire.height == 2 * (size.height - 1)
            &&& show.fire.pixels.len() == size.width * (2 * (size.height - 1))
            &&& y == 2 * (size.height - 1) - 1 ==> show.fire.pixels[(y * size.width + x) as int]
                == 25
            &&& y < 2 * (size.height - 1) - 1 ==> show.fire.pixels[(y * size.width + x) as int] == 0
        }),
{
    let w = size.width as nat;
    let h = (2 * (size.height - 1)) as nat;
    crate::fire::lemma_cell_index(w, h, x, y);
    assert(h == (size.height - 1) * 2);
    if y == h - 1 {
        assert(y * w + x >= (h - 1) * w);
    }
}

/// The animation has run for no time when its fire is lit, first or after a change of size, and
/// from then on for as long as the clock went on.
pub proof fn law_running_time_begins_with_the_fire(
    app: AppModel,
    size: TermSize,
    now: u64,
    t: nat,
)
    requires
        app.consistent(),
        app.awaits(Event::Size(size)),
        app.hold == Hold::Running,
        app.stage == Stage::Kindling || app.stage == Stage::Burning && size
            != app.show.unwrap().frame.term_sz,
        size.valid(),
    ensures
        ({
            let next = app.step(Event::Size(size), true, now).0;
            &&& next.show is Some
            &&& next.show.unwrap().frame.elapsed(now as nat) == 0
            &&& t >= now ==> next.show.unwrap().frame.elapsed(t) == t - now
            &&& t < now ==> next.show.unwrap().frame.elapsed(t) == 0
        }),
{
}

/// Drawing and writing frames leaves the running time to the clock: where the terminal's size stays
/// the same, the animation has run for as long as before at every time.
pub proof fn law_running_time_goes_on(
    app: AppModel,
    event: Event,
    memory: bool,
    now: u64,
    t: nat,
)
    requires
        app.consistent(),
        app.awaits(event),
        app.stage == Stage::Burning || app.stage == Stage::Painting,
        app.hold == Hold::Running || app.hold == Hold::Looking,
        app.step(event, memory, now).0.show is Some,
        event matches Event::Size(size) ==> size == app.show.unwrap().frame.term_sz,
    ensures
        app.step(event, memory, now).0.show.unwrap().frame.elapsed(t)
            == app.show.unwrap().frame.elapsed(t),
{
}

/// A suspension of the fire, from the look that finds the request at one time to the redrawing at a
/// later one: the screen is given back, nothing is written until the terminal was measured, the
/// screen is taken over again, and the fire goes on where it was. The animation has then run for as
/// long as when it was suspended, and from then on for as long as the clock goes on.
#[verifier::rlimit(50)]
pub proof fn law_fire_is_suspended_and_goes_on(
    app: AppModel,
    size: TermSize,
    memory: bool,
    since: u64,
    between: u64,
    now: u64,
    t: nat,
)
    requires
        app.consistent(),
        app.hold == Hold::Looking,
        app.stage == Stage::Burning,
        app.platform == Platform::Unix,
        !app.signals.interrupted,
        app.signals.suspend_requested,
        size.valid(),
        since <= now <= t <= u64::MAX,
        app.show.unwrap().frame.start <= since,
    ensures
        ({
            let (stopped, suspend) = app.step(Event::Looked, memory, since);
            let (back, measure) = stopped.step(Event::Resumed, memory, between);
            let (taken, look) = back.step(Event::Size(size), memory, between);
            let (on, again) = taken.step(Event::Looked, memory, now);
            let before = app.show.unwrap();
            let after = on.show.unwrap();
            &&& suspend == Action::Suspend && measure == Action::Measure
            &&& look == Action::Look && again == Action::Measure
            &&& !stopped.active && !back.active && taken.active && on.active
            &&& stopped.out == app.out + text::utf8(ansi::screen_off())
            &&& back.out == stopped.out
            &&& taken.out == back.out + text::utf8(ansi::screen_on())
            &&& on.out == taken.out
            &&& on.stage == Stage::Burning && on.hold == Hold::Running
            &&& !on.signals.suspend_requested && on.term_sz == size
            &&& after.fire == before.fire && after.frame.stats == before.frame.stats
            &&& after.frame.term_sz == before.frame.term_sz
            &&& after.frame.elapsed(now as nat) == before.frame.elapsed(since as nat)
            &&& after.frame.elapsed(t) == before.frame.elapsed(since as nat) + (t - now)
        }),
{
}

/// A suspension at a prompt or in the marquee: what is drawn anew is for the terminal as it was
/// measured after the suspension, whatever its size was before. A prompt stays open, and the
/// marquee goes on with its next step.
#[verifier::rlimit(50)]
pub proof fn law_screen_is_redrawn_for_the_new_size(
    app: AppModel,
    size: TermSize,
    memory: bool,
    since: u64,
    now: u64,
)
    requires
        app.consistent(),
        app.hold == (Hold::Resuming { since }),
        app.stage is Prompt || app.stage is Marquee,
        !app.signals.interrupted,
        size.valid(),
    ensures
        ({
            let (taken, look) = app.step(Event::Size(size), memory, now);
            let (next, action) = taken.step(Event::Looked, memory, now);
            let on = app.out + text::utf8(ansi::screen_on());
            let line = COLOR_DEF@ + "Screen size: "@ + text::decimal(size.width as nat) + "w x "@
                + text::decimal(size.height as nat) + "h"@;
            &&& look == Action::Look && taken.out == on && taken.active
            &&& next.term_sz == size && next.active
            &&& app.stage == Stage::Prompt(PauseScreen::SizeWarning) ==> {
                &&& next.stage == app.stage && action == Action::AwaitAnswer
                &&& next.out == on + text::utf8(screens::size_warning(app.platform, size))
                    + text::utf8(screens::prompt_text())
            }
            &&& app.stage == Stage::Prompt(PauseScreen::Capabilities) ==> {
                &&& next.stage == app.stage && action == Action::AwaitAnswer
                &&& (on + text::utf8(line)).is_prefix_of(next.out)
                &&& next.out == on + text::utf8(screens::preview(app.platform, size))
                    + text::utf8(screens::prompt_text())
            }
            &&& app.stage matches Stage::Marquee { line: pair, frame, .. } ==> {
                &&& (on + text::utf8(line)).is_prefix_of(next.out) && action == Action::Look
                &&& frame < 21 ==> next.stage == Stage::Marquee {
                    line: pair,
                    frame: (frame + 1) as usize,
                    deadline: None,
                }
                &&& frame == 21 && pair < 2 ==> next.stage == Stage::Marquee {
                    line: (pair + 1) as usize,
                    frame: 0,
                    deadline: None,
                }
                &&& frame == 21 && pair == 2 ==> next.stage == Stage::Prompt(
                    PauseScreen::Capabilities,
                )
            }
        }),
{
    let p = app.platform;
    let on = app.out + text::utf8(ansi::screen_on());
    let line = COLOR_DEF@ + "Screen size: "@ + text::decimal(size.width as nat) + "w x "@
        + text::decimal(size.height as nat) + "h"@;
    let charts = law_preview_says_the_size(p, size, size);
    let base = on + text::utf8(line);
    assert(screens::preview(p, size) =~= line + charts);
    lemma_prefix(base, text::utf8(charts));
    assert(on + text::utf8(screens::preview(p, size)) =~= base + text::utf8(charts));
    assert forall|b: Seq<u8>, c: Seq<u8>|
        base.is_prefix_of(b) implies base.is_prefix_of(#[trigger] (b + c)) by {
        lemma_prefix_grows(base, b, c);
    }
}

/// Whether there is memory matters only where a new fire is needed: before the first one, and where
/// the terminal's size has changed. Everything else is determined by the state, the event and the
/// time.
#[verifier::rlimit(50)]
pub proof fn law_memory_matters_only_for_a_new_fire(app: AppModel, event: Event, now: u64)
    requires
        app.consistent(),
        app.awaits(event),
        !(event is Size && app.hold == Hold::Running && app.stage == Stage::Kindling),
        !(event is Size && app.hold == Hold::Running && app.stage == Stage::Burning
            && event->Size_0 != app.show.unwrap().frame.term_sz),
    ensures
        app.step(event, true, now) == app.step(event, false, now),
{
}

/// A suspension gives the screen back, remembers when it began and answers the request; nothing
/// else of the program changes.
pub proof fn law_suspension_keeps_the_rest(app: AppModel, memory: bool, now: u64)
    requires
        app.consistent(),
        app.hold == Hold::Looking,
        app.stage is Prompt || app.stage is Marquee || app.stage is Burning,
        app.platform == Platform::Unix,
        !app.signals.interrupted,
        app.signals.suspend_requested,
        app.active,
    ensures
        app.step(Event::Looked, memory, now) == (
            AppModel {
                signals: Signals { interrupted: false, suspend_requested: false },
                hold: Hold::Suspended { since: now },
                active: false,
                out: app.out + text::utf8(ansi::screen_off()),
                ..app
            },
            Action::Suspend,
        ),
{
}

/// A program that was interrupted while it was suspended writes nothing about its screen any more.
/// At a prompt it waits for an answer once more; elsewhere it ends, in the marquee after the line
/// break that was due.
pub proof fn law_interrupted_suspension_ends(app: AppModel, memory: bool, now: u64)
    requires
        app.consistent(),
        app.hold is Suspended,
        app.signals.interrupted,
    ensures
        ({
            let (next, action) = app.step(Event::Resumed, memory, now);
            &&& !next.active
            &&& app.stage is Prompt ==> action == Action::AwaitAnswer && next.stage == app.stage
                && next.hold == Hold::Running && next.out == app.out
            &&& app.stage !is Prompt ==> action == (Action::Exit { error: None })
            &&& app.stage is Burning ==> next.out == app.out
            &&& app.stage matches Stage::Marquee { frame, .. } ==> next.out == app.out + text::utf8(
                if frame == 21 {
                    ansi::newline(app.platform)
                } else {
                    Seq::empty()
                },
            )
        }),
{
    text::lemma_utf8_empty();
}

/// A program that was interrupted just after it took the screen over again draws nothing anew. At a
/// prompt it waits for an answer once more; elsewhere it gives the screen back and ends.
pub proof fn law_interrupted_redrawing_ends(app: AppModel, memory: bool, now: u64)
    requires
        app.consistent(),
        app.hold is Redrawing,
        app.signals.interrupted,
    ensures
        ({
            let (next, action) = app.step(Event::Looked, memory, now);
            &&& app.stage is Prompt ==> action == Action::AwaitAnswer && next.stage == app.stage
                && next.hold == Hold::Running && next.out == app.out && next.active
            &&& app.stage !is Prompt ==> action == (Action::Exit { error: None }) && !next.active
            &&& app.stage is Burning ==> next.out == app.out + text::utf8(ansi::screen_off())
        }),
{
    text::lemma_utf8_empty();
}

/// Signals are never lost: what was asked for stays asked for, whatever other signals come and in
/// whatever order, and nothing is asked for that no signal asked for.
pub proof fn law_signals_add_up(a: Signals, b: Signals)
    ensures
        a.joined(b) == b.joined(a),
        a.joined(a) == a,
        a.joined(b).interrupted <==> a.interrupted || b.interrupted,
        a.joined(b).suspend_requested <==> a.suspend_requested || b.suspend_requested,
{
}

/// Each frame moves the fire and the generator on: both are what the frame before left, burned for
/// one frame, where the size is the same, and the frame that was drawn is counted. Where the size
/// has changed, a new fire burns for its first frame, with the generator as it was.
#[verifier::rlimit(50)]
pub proof fn law_frame_moves_fire_and_generator_on(app: AppModel, size: TermSize, now: u64)
    requires
        app.consistent(),
        app.awaits(Event::Size(size)),
        app.stage == Stage::Burning,
        app.hold == Hold::Running,
        size.valid(),
    ensures
        ({
            let (next, action) = app.step(Event::Size(size), true, now);
            let before = app.show.unwrap();
            let after = next.show.unwrap();
            let fire = if size == before.frame.term_sz {
                before.fire
            } else {
                FireModel::lit(size)
            };
            let count = if size == before.frame.term_sz {
                before.frame.stats.frame_count
            } else {
                0
            };
            &&& action == Action::Status && next.stage == Stage::Painting
            &&& (after.fire, next.rng) == fire.advanced(app.rng)
            &&& after.frame.stats.frame_count == count + 1
        }),
{
}

/// What no step changes: the kind of system and what the terminal shows are as they were, no signal
/// is lost but the request that a suspension answers, and none is added but by the answer to quit.
/// Only the drawing of a frame moves the generator, and while a fire goes on burning nothing else
/// changes it or what was counted. The known size only ever becomes the one that was measured.
#[verifier::rlimit(50)]
pub proof fn law_steps_leave_the_rest_alone(app: AppModel, event: Event, memory: bool, now: u64)
    requires
        app.consistent(),
        app.awaits(event),
    ensures
        ({
            let (next, action) = app.step(event, memory, now);
            let frame_due = app.stage == Stage::Burning && app.hold == Hold::Running;
            &&& next.platform == app.platform && next.taken == app.taken
            &&& next.signals.interrupted <==> app.signals.interrupted || event == Event::Answer(
                Answer::Quit,
            )
            &&& action != Action::Suspend ==> next.signals.suspend_requested
                == app.signals.suspend_requested
            &&& !frame_due ==> next.rng == app.rng
            &&& !frame_due && app.show is Some && next.show is Some ==> {
                &&& next.show.unwrap().fire == app.show.unwrap().fire
                &&& next.show.unwrap().frame.stats == app.show.unwrap().frame.stats
                &&& next.show.unwrap().frame.term_sz == app.show.unwrap().frame.term_sz
            }
            &&& next.term_sz == app.term_sz || event == Event::Size(next.term_sz)
        }),
{
}

} // verus!

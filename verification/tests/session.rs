//! Whole courses of the program, driven event by event.

use doom_fire::ansi::Platform;
use doom_fire::app::App;
use doom_fire::app::Hold;
use doom_fire::app::PauseScreen;
use doom_fire::app::Stage;
use doom_fire::frame::StatusText;
use doom_fire::memory::SetupError;
use doom_fire::session::Action;
use doom_fire::session::Answer;
use doom_fire::session::Event;
use doom_fire::session::ExitError;
use doom_fire::signals::Signals;
use doom_fire::size::SizeError;
use doom_fire::size::TermSize;

const PROMPT: &str = "\x1B[0mPress return to continue...";
const OFF: &str = "\x1b[0m\x1b[?25h\x1b[?1049l";
const ON: &str = "\x1b[?1049h";
const CLEAR: &str = "\x1b[2J";
const PX: &str = "\u{2580}";
const FRAME_END: &str = " fps ]\x1b[0K";
const POLL: u64 = 25_000_000;

const INTERRUPT: Signals = Signals { interrupted: true, suspend_requested: false };
const SUSPEND: Signals = Signals { interrupted: false, suspend_requested: true };

fn size(width: usize, height: usize) -> TermSize {
    TermSize { width, height }
}

fn numbers() -> Event {
    Event::Status(StatusText {
        min: "1.00 KiB".to_string(),
        avg: "1.50 KiB".to_string(),
        max: "2.00 KiB".to_string(),
        fps: "60.00".to_string(),
    })
}

/// A program under test, with a clock.
struct Program {
    app: App,
    now: u64,
}

impl Program {
    fn new(platform: Platform, width: usize, height: usize) -> Program {
        let app = App::new(platform, size(width, height), 7).unwrap();
        Program { app, now: 1_000 }
    }

    fn step(&mut self, event: Event) -> (Action, String) {
        let (mut action, mut text) = self.single_step(event);
        while action == Action::Look {
            let (next, more) = self.single_step(Event::Looked);
            action = next;
            text += &more;
        }
        (action, text)
    }

    fn single_step(&mut self, event: Event) -> (Action, String) {
        assert!(self.app.accepts(&event));
        let action = self.app.run(event, self.now);
        let text = String::from_utf8(self.app.take_output()).unwrap();
        self.app.output_written(true);
        assert_eq!(self.app.taken, self.app.terminal_active);
        (action, text)
    }

    /// Runs the marquee to its prompt, and returns what was written step by step.
    fn marquee(&mut self) -> Vec<String> {
        let (mut action, first) = {
            let measured = self.app.term_sz;
            self.step(Event::Size(measured))
        };
        let mut steps = vec![first];
        while let Action::Sleep { nanos } = action {
            assert!(nanos > 0 && nanos <= POLL);
            self.now += nanos;
            let (next, text) = self.step(Event::Woke);
            action = next;
            if !text.is_empty() {
                steps.push(text);
            }
        }
        assert_eq!(action, Action::AwaitAnswer);
        steps
    }

    /// Runs to the first measurement of the fire's loop.
    fn to_fire(&mut self) {
        let (mut action, _) = self.step(Event::Start);
        if action == Action::AwaitAnswer {
            action = self.step(Event::Answer(Answer::Continue)).0;
        }
        assert_eq!(action, Action::Measure);
        self.marquee();
        let (action, _) = self.step(Event::Answer(Answer::Continue));
        assert_eq!(action, Action::Measure);
        let measured = self.app.term_sz;
        let (action, text) = self.step(Event::Size(measured));
        assert_eq!(action, Action::Measure);
        assert_eq!(text, CLEAR);
        assert_eq!(self.app.stage, Stage::Burning);
    }

    fn frame(&mut self, width: usize, height: usize) -> String {
        let (action, cleared) = self.step(Event::Size(size(width, height)));
        assert_eq!(action, Action::Status);
        let (action, text) = self.step(numbers());
        assert_eq!(action, Action::Measure);
        format!("{cleared}{text}")
    }
}

#[test]
fn signals_and_quit_at_prompt_restore_screen() {
    for interrupt in [true, false] {
        let mut program = Program::new(Platform::Unix, 80, 24);
        let (action, text) = program.step(Event::Start);
        assert_eq!(action, Action::AwaitAnswer);
        assert!(text.starts_with(ON));
        assert!(text.ends_with(PROMPT));
        let event = if interrupt {
            program.app.note_signals(INTERRUPT);
            Event::Answer(Answer::Pending)
        } else {
            Event::Answer(Answer::Quit)
        };
        let (action, text) = program.step(event);
        assert_eq!(action, Action::Exit { error: None });
        assert_eq!(text, OFF);
        assert!(!program.app.terminal_active);
        assert!(!program.app.accepts(&Event::Start));
    }
}

#[test]
fn one_line_does_not_answer_two_prompts() {
    let mut program = Program::new(Platform::Unix, 80, 24);
    assert_eq!(program.step(Event::Start).0, Action::AwaitAnswer);
    let (action, text) = program.step(Event::Answer(Answer::Continue));
    assert_eq!(action, Action::Measure);
    assert_eq!(text, "\x1b[0m\x1b[1;1H\x1b[2J");
    let steps = program.marquee();
    assert!(steps[steps.len() - 1].ends_with(PROMPT));
    assert_eq!(program.app.stage, Stage::Prompt(PauseScreen::Capabilities));
    let (action, text) = program.step(Event::Answer(Answer::Quit));
    assert_eq!(action, Action::Exit { error: None });
    assert_eq!(text, OFF);
    assert!(!text.contains(PX));
}

#[test]
fn waiting_goes_on_without_an_answer() {
    let mut program = Program::new(Platform::Unix, 80, 24);
    program.step(Event::Start);
    for _ in 0..3 {
        let (action, text) = program.step(Event::Answer(Answer::Pending));
        assert_eq!(action, Action::AwaitAnswer);
        assert_eq!(text, "");
    }
    let (action, text) = program.step(Event::Answer(Answer::Failed));
    assert_eq!(action, Action::Exit { error: Some(ExitError::Input) });
    assert_eq!(text, OFF);
    let mut closed = Program::new(Platform::Unix, 80, 24);
    closed.step(Event::Start);
    assert_eq!(closed.step(Event::Answer(Answer::Closed)).0, Action::Measure);
}

#[test]
fn size_warnings_are_exact() {
    for (width, height, complaint) in [
        (80, 24, "Screen may be too narrow - width is 80 and need 120."),
        (120, 21, "Screen may be too short - height is 21 and need 22."),
        (119, 20, "Screen is too small - have 119 x 20 and need 120 x 22"),
    ] {
        let mut program = Program::new(Platform::Unix, width, height);
        program.app.take_output();
        let (_, text) = program.step(Event::Start);
        assert_eq!(
            text,
            format!(
                "\x1b[38;5;9m{complaint}\n\n\x1b[48;5;1m\x1b[38;5;15mThere may be rendering \
                 issues on the next screen; to correct, <q><enter>, resize and try again.\
                 \x1b[0K\x1b[0m\n\nContinue?\n\n{PROMPT}"
            )
        );
    }
    let mut roomy = Program::new(Platform::Unix, 120, 22);
    roomy.app.take_output();
    let (action, text) = roomy.step(Event::Start);
    assert_eq!((action, text.as_str()), (Action::Measure, ""));
}

/// The preview as it has to be.
fn expected_preview(width: usize, height: usize, nl: &str, sep: &str) -> String {
    let def = "\x1b[48;5;0m\x1b[38;5;15m";
    let fg = |i: usize| format!("\x1b[38;5;{i}m");
    let bg = |i: usize| format!("\x1b[48;5;{i}m");
    let mut s = format!("{def}Screen size: {width}w x {height}h{nl}{nl}");
    s += &format!("{def}{def}Standard colors:{nl}{}", fg(15));
    for i in 0..8 {
        s += &bg(i);
        if i == 7 {
            s += &fg(0);
        }
        s += &format!("{sep} {i:2}  ");
    }
    s += &format!("{def}{nl}{}", fg(15));
    for i in 8..16 {
        s += &bg(i);
        if i == 15 {
            s += &fg(0);
        }
        s += &format!("{sep} {i:2}  ");
    }
    s += &format!("{def}{nl}{nl}{def}{def}216 colors:{nl}");
    for row in 0..6 {
        for column in 0..36 {
            let i = row * 36 + 16 + column;
            s += &format!("{}{}{i:3}", bg(i), fg(if column > 17 { 0 } else { 15 }));
        }
        s += &format!("{def}{nl}");
    }
    s += &format!("{def}{nl}{def}{def}Grayscale:{nl}{}", fg(15));
    for i in 232..256 {
        if i > 243 {
            s += &fg(0);
        }
        s += &format!("{}{sep}{i} ", bg(i));
    }
    s + &format!("{def}{nl}{def}{nl}")
}

fn expected_marquee_field(nl: &str) -> String {
    let blank = format!("\x1b[0K{nl}");
    format!("\x1b7\x1b[48;5;222m{blank}{blank}{blank}{blank}")
}

fn expected_marquee(line: usize, fade: usize, nl: &str) -> String {
    let pairs = [
        [
            "  Things move along so rapidly nowadays that people saying \x1b[3mIt can't be done\x1b[23m are always being interrupted",
            "  by somebody doing it.                                                                    \x1b[3m-- Puck, 1902\x1b[23m",
        ],
        ["  Test your might!", "  \x1b[3m-- Mortal Kombat\x1b[23m"],
        ["  How much is the fish?", "             \x1b[3m-- Scooter\x1b[23m"],
    ];
    format!(
        "\x1b8\x1b[48;5;222m{nl}\x1b[38;5;{fade}m{}\x1b[0K{nl}{}\x1b[0K{nl}",
        pairs[line][0], pairs[line][1]
    )
}

#[test]
fn preview_and_marquee_are_exact() {
    let fade = [222, 221, 220, 215, 214, 184, 178, 130, 235, 58, 16];
    for (platform, nl, sep) in [
        (Platform::Unix, "\n", "\u{258f}"),
        (Platform::Windows, "\x1b[0K\x1b[1E\x1b[1G", "|"),
    ] {
        let mut program = Program::new(platform, 120, 24);
        program.step(Event::Start);
        let begin = program.now;
        let steps = program.marquee();
        // Three pairs of lines: eleven steps in, one second, ten steps out.
        assert_eq!(program.now - begin, 3 * (21 * 10_000_000 + 1_000_000_000));
        let mut expected = Vec::new();
        for line in 0..3 {
            let out: Vec<usize> = fade[1..].iter().rev().copied().collect();
            for (k, color) in fade.iter().chain(out.iter()).enumerate() {
                let mut text = expected_marquee(line, *color, nl);
                if line > 0 && k == 0 {
                    text = format!("{nl}{text}");
                }
                expected.push(text);
            }
        }
        expected[0] = format!(
            "{}{}{}",
            expected_preview(120, 24, nl, sep),
            expected_marquee_field(nl),
            expected[0]
        );
        expected.push(format!("{nl}{PROMPT}"));
        assert_eq!(steps, expected);
    }
}

#[test]
fn windows_output_starts_with_the_character_set() {
    let mut windows = Program::new(Platform::Windows, 120, 24);
    let text = String::from_utf8(windows.app.take_output()).unwrap();
    assert!(text.starts_with(ON));
    assert!(text.ends_with("\x1b[2J\x1b(B"));
    let mut unix = Program::new(Platform::Unix, 120, 24);
    let text = String::from_utf8(unix.app.take_output()).unwrap();
    assert!(text.ends_with("\x1b[2J"));
}

#[test]
fn frames_resize_and_sigterm_restores_screen() {
    let mut program = Program::new(Platform::Unix, 120, 24);
    program.to_fire();
    let frame = program.frame(120, 24);
    assert_eq!(frame.matches(PX).count(), 120 * 23);
    assert!(frame.contains("\x1b[24;1H"));
    assert!(frame.ends_with(FRAME_END));
    assert!(!frame.contains('\n'));
    let frame = program.frame(160, 30);
    assert!(frame.starts_with(CLEAR));
    assert!(frame.contains("\x1b[30;1H"));
    assert_eq!(frame.matches(PX).count(), 160 * 29);
    assert!(!frame.contains('\n'));
    let frame = program.frame(160, 30);
    assert!(!frame.contains(CLEAR));
    // A frame that was begun is completed first.
    program.app.note_signals(INTERRUPT);
    let (action, text) = program.step(Event::Size(size(120, 24)));
    assert_eq!((action, text.as_str()), (Action::Status, CLEAR));
    let (action, text) = program.step(numbers());
    assert_eq!(action, Action::Exit { error: None });
    assert_eq!(text.matches(PX).count(), 120 * 23);
    assert!(text.ends_with(&format!("{FRAME_END}{OFF}")));
}

#[test]
fn interruption_during_a_write_ends_the_program_before_the_next_frame() {
    let mut program = Program::new(Platform::Unix, 120, 24);
    program.to_fire();
    program.step(Event::Size(size(120, 24)));
    let (action, text) = program.single_step(numbers());
    assert_eq!(action, Action::Look);
    assert!(text.ends_with(FRAME_END));
    program.app.note_signals(INTERRUPT);
    let (action, text) = program.single_step(Event::Looked);
    assert_eq!((action, text.as_str()), (Action::Exit { error: None }, OFF));
}

#[test]
fn what_was_awaited_counts_before_an_interruption() {
    let mut answer = Program::new(Platform::Unix, 80, 24);
    answer.step(Event::Start);
    answer.app.note_signals(INTERRUPT);
    let (action, text) = answer.step(Event::Answer(Answer::Failed));
    assert_eq!(action, Action::Exit { error: Some(ExitError::Input) });
    assert_eq!(text, OFF);

    let mut going_on = Program::new(Platform::Unix, 80, 24);
    going_on.step(Event::Start);
    going_on.app.note_signals(INTERRUPT);
    let (action, text) = going_on.step(Event::Answer(Answer::Continue));
    assert_eq!((action, text.as_str()), (Action::Exit { error: None }, OFF));

    let too_small = Action::Exit {
        error: Some(ExitError::Setup(SetupError::Size(SizeError::TooSmall))),
    };
    let mut measured = Program::new(Platform::Unix, 120, 24);
    measured.step(Event::Start);
    measured.app.note_signals(INTERRUPT);
    assert_eq!(measured.step(Event::Size(size(120, 1))), (too_small, OFF.to_string()));

    let mut previewed = Program::new(Platform::Unix, 120, 24);
    previewed.step(Event::Start);
    previewed.app.note_signals(INTERRUPT);
    let (action, text) = previewed.step(Event::Size(size(120, 24)));
    assert_eq!(action, Action::Exit { error: None });
    assert_eq!(
        text,
        format!(
            "{}{}{OFF}",
            expected_preview(120, 24, "\n", "\u{258f}"),
            expected_marquee_field("\n")
        )
    );

    let mut kindled = Program::new(Platform::Unix, 120, 24);
    kindled.step(Event::Start);
    kindled.marquee();
    kindled.step(Event::Answer(Answer::Closed));
    kindled.app.note_signals(INTERRUPT);
    let (action, text) = kindled.step(Event::Size(size(120, 24)));
    assert_eq!(action, Action::Exit { error: None });
    assert_eq!(text, format!("{CLEAR}{OFF}"));

    let mut burning = Program::new(Platform::Unix, 120, 24);
    burning.to_fire();
    burning.app.note_signals(INTERRUPT);
    assert_eq!(burning.step(Event::Size(size(120, 0))), (too_small, OFF.to_string()));
}

#[test]
fn interruption_while_suspended_ends_the_program() {
    for answer in [Answer::Pending, Answer::Continue, Answer::Quit, Answer::Failed] {
        let error = match answer {
            Answer::Failed => Some(ExitError::Input),
            _ => None,
        };
        // Before the screen is taken over again: one more wait, without the screen.
        let mut stopped = Program::new(Platform::Unix, 80, 24);
        stopped.step(Event::Start);
        stopped.app.note_signals(SUSPEND);
        stopped.step(Event::Answer(Answer::Pending));
        stopped.app.note_signals(INTERRUPT);
        let (action, text) = stopped.step(Event::Resumed);
        assert_eq!((action, text.as_str()), (Action::AwaitAnswer, ""));
        let (action, text) = stopped.step(Event::Answer(answer));
        assert_eq!((action, text.as_str()), (Action::Exit { error }, ""));

        // After: nothing is drawn anew.
        let mut resumed = Program::new(Platform::Unix, 80, 24);
        let taken_over = String::from_utf8(resumed.app.take_output()).unwrap();
        resumed.step(Event::Start);
        resumed.app.note_signals(SUSPEND);
        resumed.step(Event::Answer(Answer::Pending));
        resumed.step(Event::Resumed);
        let (action, text) = resumed.single_step(Event::Size(size(80, 24)));
        assert_eq!((action, text), (Action::Look, taken_over));
        resumed.app.note_signals(INTERRUPT);
        let (action, text) = resumed.single_step(Event::Looked);
        assert_eq!((action, text.as_str()), (Action::AwaitAnswer, ""));
        let (action, text) = resumed.step(Event::Answer(answer));
        assert_eq!((action, text.as_str()), (Action::Exit { error }, OFF));
    }
    let mut fire = Program::new(Platform::Unix, 120, 24);
    fire.to_fire();
    fire.step(Event::Size(size(120, 24)));
    fire.app.note_signals(SUSPEND);
    fire.step(numbers());
    fire.step(Event::Resumed);
    fire.app.note_signals(INTERRUPT);
    let (action, text) = fire.step(Event::Size(size(120, 24)));
    assert_eq!(action, Action::Exit { error: None });
    assert!(text.starts_with(ON) && text.ends_with(OFF) && !text.contains(PX));
}

#[test]
fn screen_changes_hands_in_turn() {
    let mut program = Program::new(Platform::Unix, 80, 24);
    let mut written = String::from_utf8(program.app.take_output()).unwrap();
    written += &program.step(Event::Start).1;
    for _ in 0..3 {
        program.app.note_signals(SUSPEND);
        written += &program.step(Event::Answer(Answer::Pending)).1;
        written += &program.step(Event::Resumed).1;
        written += &program.step(Event::Size(size(80, 24))).1;
    }
    written += &program.step(Event::Answer(Answer::Continue)).1;
    written += &program.step(Event::Size(size(80, 1))).1;
    let changes: Vec<char> = written
        .match_indices("\x1b[?1049")
        .map(|(at, found)| written[at + found.len()..].chars().next().unwrap())
        .collect();
    assert_eq!(changes, vec!['h', 'l', 'h', 'l', 'h', 'l', 'h', 'l']);
}

#[test]
fn screen_is_restored_until_a_write_succeeds() {
    let mut program = Program::new(Platform::Unix, 80, 24);
    // Nothing was handed out yet, so there is nothing to give back.
    assert!(!program.app.taken);
    program.step(Event::Start);
    assert!(program.app.taken && !program.app.resumes_output());
    program.app.output_written(false);
    for _ in 0..3 {
        assert!(program.app.restore());
        assert!(program.app.resumes_output());
        assert_eq!(String::from_utf8(program.app.take_output()).unwrap(), OFF);
        program.app.output_written(false);
    }
    assert!(program.app.restore());
    program.app.take_output();
    program.app.output_written(true);
    assert!(!program.app.restore());
    assert!(program.app.take_output().is_empty());

    // The last step's own output fails.
    let mut quit = Program::new(Platform::Unix, 80, 24);
    quit.step(Event::Start);
    quit.app.run(Event::Answer(Answer::Quit), 0);
    assert!(quit.app.resumes_output());
    assert_eq!(String::from_utf8(quit.app.take_output()).unwrap(), OFF);
    quit.app.output_written(false);
    assert!(quit.app.restore());
    assert_eq!(String::from_utf8(quit.app.take_output()).unwrap(), OFF);

    let mut windows = Program::new(Platform::Windows, 80, 24);
    windows.step(Event::Start);
    assert!(windows.app.restore() && !windows.app.resumes_output());
}

#[test]
fn frames_are_counted() {
    let mut program = Program::new(Platform::Unix, 120, 24);
    program.to_fire();
    let mut total = 0;
    for n in 1..5 {
        let (_, _) = program.step(Event::Size(size(120, 24)));
        let show = program.app.show.as_ref().unwrap();
        total += show.frame.bytes.len() as u128;
        assert_eq!(show.frame.frame_count, n);
        assert_eq!(show.frame.total_len, total);
        assert!(show.frame.min_len <= show.frame.max_len);
        assert!(show.fire.pixels[45 * 120..].iter().all(|&px| px == 25));
        program.step(numbers());
    }
    let (_, _) = program.step(Event::Size(size(121, 24)));
    assert_eq!(program.app.show.as_ref().unwrap().frame.frame_count, 1);
}

#[test]
fn invalid_resize_restores_screen_before_error() {
    for (bad, error) in [
        (size(120, 1), SizeError::TooSmall),
        (size(1001, 1000), SizeError::TooLarge),
    ] {
        let expected = Action::Exit {
            error: Some(ExitError::Setup(SetupError::Size(error))),
        };
        let mut program = Program::new(Platform::Unix, 120, 24);
        program.to_fire();
        program.frame(120, 24);
        assert_eq!(program.step(Event::Size(bad)), (expected, OFF.to_string()));
        let mut early = Program::new(Platform::Unix, 120, 24);
        early.step(Event::Start);
        assert_eq!(early.step(Event::Size(bad)), (expected, OFF.to_string()));
    }
    assert_eq!(
        SizeError::TooSmall.message(),
        "terminal must be at least 1 column by 2 rows"
    );
}

#[test]
fn bad_dimensions_fail_before_entering_alternate_screen() {
    for (width, height) in [(usize::MAX, 22), (120, 0), (1001, 1000)] {
        assert!(App::new(Platform::Unix, size(width, height), 1).is_err());
    }
}

#[test]
fn wide_terminal_fills_its_frame() {
    let mut program = Program::new(Platform::Unix, 2000, 22);
    program.to_fire();
    assert_eq!(program.frame(2000, 22).matches(PX).count(), 2000 * 21);
}

#[test]
fn suspend_and_fg_restore_and_redraw_each_screen() {
    // At the warning, with a resize while suspended.
    let mut warned = Program::new(Platform::Unix, 80, 24);
    warned.step(Event::Start);
    warned.app.note_signals(SUSPEND);
    let (action, text) = warned.step(Event::Answer(Answer::Pending));
    assert_eq!((action, text.as_str()), (Action::Suspend, OFF));
    let (action, text) = warned.step(Event::Resumed);
    assert_eq!((action, text.as_str()), (Action::Measure, ""));
    let (action, text) = warned.step(Event::Size(size(160, 30)));
    assert_eq!(action, Action::AwaitAnswer);
    assert!(text.starts_with(ON));
    assert!(text.contains("Screen size: 160w x 30h"));
    assert!(!text.contains("too small"));
    assert!(text.ends_with(PROMPT));

    // In the marquee.
    let mut marquee = Program::new(Platform::Unix, 120, 24);
    marquee.step(Event::Start);
    marquee.step(Event::Size(size(120, 24)));
    marquee.app.note_signals(SUSPEND);
    let (action, text) = marquee.step(Event::Woke);
    assert_eq!((action, text.as_str()), (Action::Suspend, OFF));
    marquee.step(Event::Resumed);
    let (action, text) = marquee.step(Event::Size(size(121, 24)));
    assert_eq!(action, Action::Sleep { nanos: 10_000_000 });
    assert!(text.starts_with(ON));
    assert!(text.ends_with(&format!(
        "{}{}{}",
        expected_preview(121, 24, "\n", "\u{258f}"),
        expected_marquee_field("\n"),
        expected_marquee(0, 221, "\n")
    )));

    // At the prompt of the preview.
    let mut preview = Program::new(Platform::Unix, 120, 24);
    preview.step(Event::Start);
    preview.marquee();
    preview.app.note_signals(SUSPEND);
    let (action, text) = preview.step(Event::Answer(Answer::Pending));
    assert_eq!((action, text.as_str()), (Action::Suspend, OFF));
    preview.step(Event::Resumed);
    let (action, text) = preview.step(Event::Size(size(120, 24)));
    assert_eq!(action, Action::AwaitAnswer);
    assert!(text.ends_with(&format!(
        "{}{PROMPT}",
        expected_preview(120, 24, "\n", "\u{258f}")
    )));

    // In the fire, with a resize while suspended.
    let mut fire = Program::new(Platform::Unix, 120, 24);
    fire.to_fire();
    fire.frame(120, 24);
    let start = fire.app.show.as_ref().unwrap().frame.start;
    fire.step(Event::Size(size(120, 24)));
    fire.app.note_signals(SUSPEND);
    let (action, text) = fire.step(numbers());
    assert_eq!(action, Action::Suspend);
    assert!(text.ends_with(&format!("{FRAME_END}{OFF}")));
    let since = fire.now;
    assert_eq!(fire.app.hold, Hold::Suspended { since });
    fire.now += 5_000_000_000;
    fire.step(Event::Resumed);
    let (action, text) = fire.step(Event::Size(size(160, 30)));
    assert_eq!(action, Action::Measure);
    assert!(text.starts_with(ON));
    assert!(!text.contains(PX));
    assert_eq!(
        fire.app.show.as_ref().unwrap().frame.start,
        start + 5_000_000_000
    );
    let frame = fire.frame(160, 30);
    assert_eq!(frame.matches(PX).count(), 160 * 29);
}

#[test]
fn suspended_program_can_end() {
    let mut program = Program::new(Platform::Unix, 120, 24);
    program.to_fire();
    program.step(Event::Size(size(120, 24)));
    program.app.note_signals(SUSPEND);
    program.step(numbers());
    program.app.note_signals(INTERRUPT);
    let (action, text) = program.step(Event::Resumed);
    assert_eq!((action, text.as_str()), (Action::Exit { error: None }, ""));

    let mut shrunk = Program::new(Platform::Unix, 80, 24);
    shrunk.step(Event::Start);
    shrunk.app.note_signals(SUSPEND);
    shrunk.step(Event::Answer(Answer::Pending));
    shrunk.step(Event::Resumed);
    let (action, text) = shrunk.step(Event::Size(size(0, 0)));
    assert!(matches!(action, Action::Exit { error: Some(_) }));
    assert_eq!(text, "");
}

#[test]
fn windows_is_never_suspended() {
    let mut program = Program::new(Platform::Windows, 80, 24);
    program.step(Event::Start);
    program.app.note_signals(SUSPEND);
    let (action, text) = program.step(Event::Answer(Answer::Pending));
    assert_eq!((action, text.as_str()), (Action::AwaitAnswer, ""));
}

#[test]
fn interruption_in_the_marquee_ends_the_program() {
    let mut program = Program::new(Platform::Unix, 120, 24);
    program.step(Event::Start);
    program.step(Event::Size(size(120, 24)));
    program.app.note_signals(INTERRUPT);
    let (action, text) = program.step(Event::Woke);
    assert_eq!((action, text.as_str()), (Action::Exit { error: None }, OFF));

    let mut late = Program::new(Platform::Unix, 120, 24);
    late.step(Event::Start);
    late.step(Event::Size(size(120, 24)));
    while !matches!(late.app.stage, Stage::Marquee { line: 1, frame: 21, .. }) {
        late.now += POLL;
        late.step(Event::Woke);
    }
    late.app.note_signals(INTERRUPT);
    let (action, text) = late.step(Event::Woke);
    assert_eq!(action, Action::Exit { error: None });
    assert_eq!(text, format!("\n{OFF}"));
}

#[test]
fn interruption_at_the_start_still_warns() {
    let mut small = Program::new(Platform::Unix, 80, 24);
    small.app.note_signals(INTERRUPT);
    let (action, text) = small.step(Event::Start);
    assert_eq!(action, Action::Exit { error: None });
    assert!(text.contains("too narrow"));
    assert!(text.ends_with(OFF));
    let mut roomy = Program::new(Platform::Unix, 120, 24);
    roomy.app.take_output();
    roomy.app.note_signals(INTERRUPT);
    let (action, text) = roomy.step(Event::Start);
    assert_eq!((action, text.as_str()), (Action::Exit { error: None }, OFF));
}

#[test]
fn missing_memory_restores_screen_before_error() {
    let expected = Action::Exit {
        error: Some(ExitError::Setup(SetupError::OutOfMemory)),
    };
    let mut kindling = Program::new(Platform::Unix, 120, 24);
    kindling.app.take_output();
    let action = kindling.app.kindle(size(130, 24), Err(SetupError::OutOfMemory), 5);
    assert_eq!(action, expected);
    assert_eq!(String::from_utf8(kindling.app.take_output()).unwrap(), OFF);
    let mut burning = Program::new(Platform::Unix, 120, 24);
    burning.to_fire();
    let action = burning.app.burn(size(130, 24), Some(Err(SetupError::OutOfMemory)), 5);
    assert_eq!(action, expected);
    assert_eq!(String::from_utf8(burning.app.take_output()).unwrap(), OFF);
}

#[test]
fn screen_is_given_back_once() {
    let mut program = Program::new(Platform::Unix, 120, 24);
    program.app.take_output();
    program.app.complete();
    program.app.complete();
    assert_eq!(String::from_utf8(program.app.take_output()).unwrap(), OFF);
}

#[test]
fn only_the_awaited_event_is_accepted() {
    let mut program = Program::new(Platform::Unix, 120, 24);
    assert!(!program.app.accepts(&Event::Woke));
    assert!(!program.app.accepts(&Event::Size(size(120, 24))));
    program.to_fire();
    assert!(!program.app.accepts(&numbers()));
    assert!(!program.app.accepts(&Event::Answer(Answer::Quit)));
    program.step(Event::Size(size(120, 24)));
    assert!(program.app.accepts(&numbers()));
    assert!(!program.app.accepts(&Event::Status(StatusText {
        min: "\x1b[?1049h".to_string(),
        avg: String::new(),
        max: String::new(),
        fps: String::new(),
    })));
}

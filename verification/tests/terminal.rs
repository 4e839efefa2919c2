//! Text, sizes, prompts, signals and the Windows console.

use std::io;
use std::io::BufRead;

use doom_fire::ansi::init_colors;
use doom_fire::ansi::nl;
use doom_fire::ansi::sep;
use doom_fire::ansi::term_off;
use doom_fire::ansi::term_on;
use doom_fire::ansi::Platform;
use doom_fire::app::App;
use doom_fire::console::console_size;
use doom_fire::console::init_console;
use doom_fire::console::write_chunk;
use doom_fire::console::write_console;
use doom_fire::console::ConsoleReply;
use doom_fire::console::ConsoleSetup;
use doom_fire::console::ConsoleState;
use doom_fire::console::ConsoleStep;
use doom_fire::console::ConsoleWriteError;
use doom_fire::console::WROTE_ZERO;
use doom_fire::prompt::read_prompt;
use doom_fire::prompt::read_prompt_failed;
use doom_fire::prompt::PromptStep;
use doom_fire::session::check_streams;
use doom_fire::signals::bsd_abi;
use doom_fire::signals::can_access_terminal;
use doom_fire::signals::exit_signals;
use doom_fire::signals::handle_ctrl_c;
use doom_fire::signals::handle_signal;
use doom_fire::signals::interrupted;
use doom_fire::signals::linux_abi;
use doom_fire::signals::take_suspend_request;
use doom_fire::signals::wait_for_foreground;
use doom_fire::signals::ForegroundStep;
use doom_fire::signals::Signals;
use doom_fire::size::env_term_size;
use doom_fire::size::ioctl_term_size;
use doom_fire::size::term_size;
use doom_fire::size::SizeError;
use doom_fire::size::TermSize;
use doom_fire::text::append_decimal;
use doom_fire::text::decimal_len;
use doom_fire::text::is_number_text;
use doom_fire::text::parse_usize;
use doom_fire::text::push_decimal;
use doom_fire::text::push_padded;
use doom_fire::text::str_eq;

/// Answers a prompt from a reader.
fn answer(input: &mut impl BufRead) -> io::Result<bool> {
    let mut first = None;
    loop {
        let step = match input.fill_buf() {
            Ok(bytes) => read_prompt(&mut first, bytes),
            Err(error) => match read_prompt_failed(error.kind() == io::ErrorKind::Interrupted) {
                PromptStep::Again => continue,
                _ => return Err(error),
            },
        };
        match step {
            PromptStep::More { consumed } => input.consume(consumed),
            PromptStep::Done { consumed, quit } => {
                input.consume(consumed);
                return Ok(quit);
            }
            PromptStep::Again | PromptStep::Fail => unreachable!(),
        }
    }
}

/// A reader whose reads fail in places: an error kind stands for such a read.
struct Flaky {
    reads: Vec<Result<Vec<u8>, io::ErrorKind>>,
    consumed: usize,
}

impl io::Read for Flaky {
    fn read(&mut self, _: &mut [u8]) -> io::Result<usize> {
        unreachable!()
    }
}

impl BufRead for Flaky {
    fn fill_buf(&mut self) -> io::Result<&[u8]> {
        if let Some(Err(kind)) = self.reads.first() {
            let kind = *kind;
            self.reads.remove(0);
            return Err(kind.into());
        }
        match self.reads.first() {
            Some(Ok(bytes)) => Ok(bytes),
            _ => Ok(&[]),
        }
    }

    fn consume(&mut self, amount: usize) {
        self.consumed += amount;
        if let Some(Ok(bytes)) = self.reads.first_mut() {
            bytes.drain(..amount);
            if bytes.is_empty() {
                self.reads.remove(0);
            }
        }
    }
}

#[test]
fn interrupted_reads_are_tried_again_and_others_fail() {
    assert_eq!(read_prompt_failed(true), PromptStep::Again);
    assert_eq!(read_prompt_failed(false), PromptStep::Fail);
    let mut interrupted = Flaky {
        reads: vec![
            Err(io::ErrorKind::Interrupted),
            Ok(b"qu".to_vec()),
            Err(io::ErrorKind::Interrupted),
            Err(io::ErrorKind::Interrupted),
            Ok(b"it\nno".to_vec()),
        ],
        consumed: 0,
    };
    assert!(answer(&mut interrupted).unwrap());
    assert_eq!(interrupted.consumed, 5);
    assert!(!answer(&mut interrupted).unwrap());
    let mut broken = Flaky {
        reads: vec![
            Ok(b"qu".to_vec()),
            Err(io::ErrorKind::Interrupted),
            Err(io::ErrorKind::BrokenPipe),
            Ok(b"it\n".to_vec()),
        ],
        consumed: 0,
    };
    let error = answer(&mut broken).unwrap_err();
    assert_eq!(error.kind(), io::ErrorKind::BrokenPipe);
    assert_eq!(broken.consumed, 2);
    assert_eq!(broken.reads.len(), 1);
}

#[test]
fn prompts_consume_complete_lines_including_crlf() {
    for input in [b"x\nq\n".as_slice(), b"\r\nq\r\n", b"continue\nq\n"] {
        // Tiny buffers also exercise lines and CRLF split across reads.
        let mut reader = io::BufReader::with_capacity(1, input);
        assert!(!answer(&mut reader).unwrap());
        assert!(answer(&mut reader).unwrap());
        assert!(answer(&mut reader).unwrap()); // EOF
    }
}

#[test]
fn answers_do_not_depend_on_chunks() {
    let input = b"quit?\r\nno\n\nlast".as_slice();
    for capacity in 1..20 {
        let mut reader = io::BufReader::with_capacity(capacity, input);
        assert!(answer(&mut reader).unwrap());
        assert!(!answer(&mut reader).unwrap());
        assert!(!answer(&mut reader).unwrap());
        assert!(!answer(&mut reader).unwrap());
        assert!(answer(&mut reader).unwrap());
    }
}

#[test]
fn prompt_steps_are_exact() {
    let mut first = None;
    assert_eq!(read_prompt(&mut first, b"ab"), PromptStep::More { consumed: 2 });
    assert_eq!(first, Some(b'a'));
    assert_eq!(
        read_prompt(&mut first, b"q\nq\n"),
        PromptStep::Done { consumed: 2, quit: false }
    );
    let mut quit = Some(b'q');
    assert_eq!(
        read_prompt(&mut quit, b""),
        PromptStep::Done { consumed: 0, quit: true }
    );
    let mut other = Some(b'x');
    assert_eq!(
        read_prompt(&mut other, b""),
        PromptStep::Done { consumed: 0, quit: false }
    );
    let mut none = None;
    assert_eq!(
        read_prompt(&mut none, b""),
        PromptStep::Done { consumed: 0, quit: true }
    );
    assert_eq!(none, None);
}

#[test]
fn linux_terminal_abis_match_kernel_headers() {
    for arch in [
        "powerpc",
        "powerpc64",
        "mips",
        "mips64",
        "mips32r6",
        "mips64r6",
        "sparc",
        "sparc64",
    ] {
        assert_eq!(linux_abi(arch).winsize, 0x4008_7468);
    }
    assert_eq!(linux_abi("mips64").stop, 23);
    assert_eq!(linux_abi("mips64").suspend, 24);
    assert_eq!(linux_abi("sparc64").suspend, 18);
    for arch in ["x86", "x86_64", "aarch64", "arm", "riscv64", "loongarch64"] {
        assert_eq!(linux_abi(arch).winsize, 0x5413);
    }
}

#[test]
fn signals_are_told_apart() {
    for arch in ["x86_64", "mips", "powerpc", "sparc", ""] {
        let abi = linux_abi(arch);
        assert_eq!(exit_signals(abi), [2, 15, abi.suspend]);
        for sig in [2, 15] {
            let mut signals = Signals::none();
            handle_signal(&mut signals, sig, abi);
            assert!(interrupted(&signals));
            assert!(!take_suspend_request(&mut signals));
        }
        let mut signals = Signals::none();
        handle_signal(&mut signals, abi.suspend, abi);
        assert!(!interrupted(&signals));
        assert!(take_suspend_request(&mut signals));
        assert!(!take_suspend_request(&mut signals));
        assert_ne!(abi.suspend, abi.stop);
    }
    assert_eq!(linux_abi("x86_64").stop, 19);
    assert_eq!(linux_abi("sparc").stop, 17);
    assert_eq!(linux_abi("powerpc").output_on, 1);
    assert_eq!(
        (bsd_abi().winsize, bsd_abi().stop, bsd_abi().suspend, bsd_abi().output_on),
        (0x4008_7468, 17, 18, 2)
    );
    let mut joined = Signals::none();
    joined.join(Signals { interrupted: false, suspend_requested: true });
    joined.join(Signals { interrupted: true, suspend_requested: false });
    assert_eq!(joined, Signals { interrupted: true, suspend_requested: true });
    let mut console = Signals::none();
    assert!(!handle_ctrl_c(&mut console, 1));
    assert!(!interrupted(&console));
    assert!(handle_ctrl_c(&mut console, 0));
    assert!(interrupted(&console));
}

#[test]
fn background_start_waits_for_foreground() {
    let calm = Signals::none();
    let ending = Signals { interrupted: true, suspend_requested: false };
    assert!(can_access_terminal(-1, 7));
    assert!(can_access_terminal(7, 7));
    assert!(!can_access_terminal(8, 7));
    assert_eq!(wait_for_foreground(&calm, 8, 7), ForegroundStep::Stop);
    assert_eq!(wait_for_foreground(&calm, 7, 7), ForegroundStep::Proceed);
    assert_eq!(wait_for_foreground(&calm, -1, 7), ForegroundStep::Proceed);
    assert_eq!(wait_for_foreground(&ending, 8, 7), ForegroundStep::Proceed);
}

#[test]
fn redirected_streams_fail_without_ansi_output() {
    for (input, output) in [(false, false), (true, false), (false, true)] {
        let error = check_streams(input, output).unwrap_err();
        assert_eq!(error.message(), "stdin and stdout must be terminals");
    }
    assert!(check_streams(true, true).is_ok());
}

#[test]
fn numbers_are_read_as_the_standard_library_does() {
    for text in [
        "0", "7", "007", "120", "+22", "", "+", "-0", "-5", " 1", "1 ", "1_000", "++1", "1+",
        "18446744073709551615", "18446744073709551616", "99999999999999999999999", "4294967296",
        "\u{0663}", "1\u{258f}", "+\u{258f}", "0x10", "1e3",
    ] {
        assert_eq!(parse_usize(text), text.parse::<usize>().ok(), "{text:?}");
    }
}

#[test]
fn decimal_notation_is_exact_and_reads_back() {
    for n in [0, 9, 10, 99, 100, 255, 1_000_000, usize::MAX] {
        let mut s = String::from("n=");
        append_decimal(&mut s, n);
        assert_eq!(s, format!("n={n}"));
        let mut bytes = vec![b'n'];
        push_decimal(&mut bytes, n);
        assert_eq!(bytes, format!("n{n}").into_bytes());
        assert_eq!(parse_usize(&s[2..]), Some(n));
        assert_eq!(decimal_len(n), s.len() - 2);
        let mut field = Vec::new();
        push_padded(&mut field, n, 3);
        assert_eq!(field, format!("{n:3}").into_bytes());
    }
    assert!(str_eq("mips", "mips"));
    assert!(!str_eq("mips", "mips64"));
    assert!(!str_eq("mips", "MIPS"));
}

#[test]
fn terminal_size_has_its_sources_in_order() {
    let reported = TermSize { width: 80, height: 24 };
    let environment = TermSize { width: 120, height: 30 };
    assert_eq!(ioctl_term_size(0, 24, 80), Some(reported));
    assert_eq!(ioctl_term_size(-1, 24, 80), None);
    assert_eq!(ioctl_term_size(0, 0, 80), None);
    assert_eq!(ioctl_term_size(0, 24, 0), None);
    assert_eq!(env_term_size(Some("120"), Some("30")), Some(environment));
    assert_eq!(env_term_size(None, Some("30")), None);
    assert_eq!(env_term_size(Some("120"), None), None);
    assert_eq!(env_term_size(Some("wide"), Some("30")), None);
    assert_eq!(term_size(Some(reported), Some(environment)), reported);
    assert_eq!(term_size(None, Some(environment)), environment);
    assert_eq!(term_size(None, None), TermSize { width: 0, height: 0 });
    assert_eq!(term_size(None, None).validate(), Err(SizeError::TooSmall));
}

#[test]
fn bad_dimensions_of_the_environment_are_rejected() {
    for (columns, lines) in [
        ("18446744073709551615", "22"),
        ("120", "0"),
        ("1001", "1000"),
    ] {
        let size = term_size(ioctl_term_size(0, 0, 0), env_term_size(Some(columns), Some(lines)));
        assert!(size.validate().is_err());
        assert!(App::new(Platform::Unix, size, 1).is_err());
    }
}

/// Writes to a console whose calls give a row of replies; counts the calls.
fn write_all(mut remaining: usize, replies: &[(i32, u32)]) -> (usize, Result<(), ConsoleWriteError>) {
    let mut calls = 0;
    while remaining > 0 {
        let (ok, written) = replies[calls];
        calls += 1;
        match write_console(remaining, ok, written) {
            Ok(left) => remaining = left,
            Err(error) => return (calls, Err(error)),
        }
    }
    (calls, Ok(()))
}

#[test]
fn console_calls_go_on_until_all_is_written_or_one_fails() {
    assert_eq!(write_all(0, &[]), (0, Ok(())));
    assert_eq!(write_all(9, &[(1, 4), (1, 4), (1, 1), (0, 0)]), (3, Ok(())));
    assert_eq!(
        write_all(9, &[(1, 4), (1, 0), (1, 5)]),
        (2, Err(ConsoleWriteError::WroteZero))
    );
    assert_eq!(
        write_all(9, &[(1, 8), (0, 1), (1, 1)]),
        (2, Err(ConsoleWriteError::System))
    );
}

#[test]
fn numbers_are_told_from_other_text() {
    for text in ["", "0.00 B", "12.34 KiB", "inf", "NaN", "-1.50", "azAZ09"] {
        assert!(is_number_text(text), "{text:?}");
    }
    for text in ["\n", "1\r", "\x1b[?1049h", "1,5", "?", "[", "\u{2580}", "a/b", "@", "`", "{"] {
        assert!(!is_number_text(text), "{text:?}");
    }
}

#[test]
fn control_sequences_are_exact() {
    let fg = init_colors("38;5;");
    assert_eq!(fg.len(), 256);
    assert_eq!(fg[0], "\x1B[38;5;0m");
    assert_eq!(fg[255], "\x1B[38;5;255m");
    assert_eq!(init_colors("48;5;")[42], "\x1B[48;5;42m");
    assert_eq!(
        term_on(),
        "\x1B[?1049h\x1B[?25l\x1B[1;1H\x1B[48;5;0m\x1B[38;5;15m\x1B[2J"
    );
    assert_eq!(term_off(), "\x1B[0m\x1B[?25h\x1B[?1049l");
    assert_eq!(nl(Platform::Unix), "\n");
    assert_eq!(nl(Platform::Windows), "\x1B[0K\x1B[1E\x1B[1G");
    assert_eq!(sep(Platform::Unix), "\u{258f}");
    assert_eq!(sep(Platform::Windows), "|");
}

/// Sets a console up from a row of replies.
fn set_up(replies: &[ConsoleReply]) -> ConsoleSetup {
    let mut setup = ConsoleSetup::begin();
    for reply in replies {
        init_console(&mut setup, *reply);
    }
    setup
}

#[test]
fn console_setup_can_always_be_undone() {
    let handle = ConsoleReply::Handle(12);
    let mode = ConsoleReply::Mode { ok: 1, mode: 0x12 };
    let page = ConsoleReply::CodePage(437);
    let done = ConsoleReply::Changed { ok: 1 };
    let failed = ConsoleReply::Changed { ok: 0 };
    let original = Some(ConsoleState { mode: 0x12, code_page: 437 });
    assert_eq!(
        set_up(&[]),
        ConsoleSetup { step: ConsoleStep::GetHandle, mode: 0, original: None }
    );
    assert_eq!(set_up(&[ConsoleReply::Handle(0)]).step, ConsoleStep::Failed);
    assert_eq!(set_up(&[ConsoleReply::Handle(-1)]).step, ConsoleStep::Failed);
    assert_eq!(set_up(&[handle]).step, ConsoleStep::GetMode);
    let unreadable = set_up(&[handle, ConsoleReply::Mode { ok: 0, mode: 9 }]);
    assert_eq!((unreadable.step, unreadable.original), (ConsoleStep::Failed, None));
    assert_eq!(set_up(&[handle, mode]).step, ConsoleStep::GetCodePage);
    let pageless = set_up(&[handle, mode, ConsoleReply::CodePage(0)]);
    assert_eq!((pageless.step, pageless.original), (ConsoleStep::Failed, None));
    let known = set_up(&[handle, mode, page]);
    assert_eq!(known.step, ConsoleStep::SetMode { mode: 0x1F });
    assert_eq!(known.original, original);
    let refused = set_up(&[handle, mode, page, failed]);
    assert_eq!((refused.step, refused.original), (ConsoleStep::Failed, original));
    let changed = set_up(&[handle, mode, page, done]);
    assert_eq!(changed.step, ConsoleStep::SetCodePage { code_page: 65001 });
    let stuck = set_up(&[handle, mode, page, done, failed]);
    assert_eq!((stuck.step, stuck.original), (ConsoleStep::Failed, original));
    let ready = set_up(&[handle, mode, page, done, done]);
    assert_eq!((ready.step, ready.original), (ConsoleStep::Ready, original));
}

#[test]
fn console_window_is_measured() {
    assert_eq!(console_size(0, 0, 119, 29), TermSize { width: 120, height: 30 });
    assert_eq!(console_size(-5, 10, 4, 11), TermSize { width: 10, height: 2 });
    assert_eq!(
        console_size(i16::MIN, i16::MIN, i16::MAX, i16::MAX),
        TermSize { width: 65536, height: 65536 }
    );
    let inverted = console_size(10, 10, 0, 0);
    assert_eq!(inverted.width, (-9i32) as usize);
    assert!(inverted.validate().is_err());
    assert!(console_size(0, 9, 100, 7).validate().is_err());
    assert!(console_size(0, 0, -1, 7).validate().is_err());
}

#[test]
fn console_output_is_complete_or_fails() {
    assert_eq!(write_chunk(0), 0);
    assert_eq!(write_chunk(5), 5);
    assert_eq!(write_chunk(u32::MAX as usize), u32::MAX);
    assert_eq!(write_chunk(u32::MAX as usize + 1), u32::MAX);
    assert_eq!(write_console(10, 1, 4), Ok(6));
    assert_eq!(write_console(4, 1, 4), Ok(0));
    assert_eq!(write_console(10, 0, 0), Err(ConsoleWriteError::System));
    assert_eq!(write_console(10, 0, 11), Err(ConsoleWriteError::System));
    assert_eq!(write_console(10, 1, 0), Err(ConsoleWriteError::WroteZero));
    assert_eq!(WROTE_ZERO, "WriteConsoleA wrote zero bytes");
}

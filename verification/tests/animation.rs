//! The generator, the fire and its frames.

use doom_fire::ansi::init_colors;
use doom_fire::ansi::COLOR_DEF;
use doom_fire::ansi::CSI;
use doom_fire::ansi::LINE_CLEAR_TO_EOL;
use doom_fire::ansi::MAX_COLOR;
use doom_fire::ansi::PX;
use doom_fire::fire::Fire;
use doom_fire::fire::FIRE_PALETTE;
use doom_fire::frame::FrameBuffer;
use doom_fire::frame::StatusText;
use doom_fire::memory::reserved_buffer;
use doom_fire::memory::SetupError;
use doom_fire::rng::random_seed;
use doom_fire::rng::Rng;
use doom_fire::size::SizeError;
use doom_fire::size::TermSize;

fn status(min: &str, avg: &str, max: &str, fps: &str) -> StatusText {
    StatusText {
        min: min.to_string(),
        avg: avg.to_string(),
        max: max.to_string(),
        fps: fps.to_string(),
    }
}

fn usual_status() -> StatusText {
    status("10.71 KiB", "12.00 KiB", "13.37 KiB", "59.94")
}

#[test]
fn rng_range_is_bounded() {
    let mut rng = Rng { state: 1 };
    for _ in 0..1_000 {
        assert!(rng.next_0_to_3() <= 3);
    }
}

#[test]
fn rng_draws_are_exact() {
    let mut rng = Rng { state: 1 };
    assert_eq!(rng.next_u64(), 5180492295206395165);
    assert_eq!(rng.state, 33554433);
    assert_eq!(rng.next_u64(), 12380297144915551517);
    assert_eq!(rng.state, 1126174793148417);
    let mut low = Rng { state: 1 };
    let draws: Vec<usize> = (0..6).map(|_| low.next_0_to_3()).collect();
    assert_eq!(draws, vec![1, 1, 3, 1, 0, 1]);
    assert_eq!(low.clone().state, low.state);
}

#[test]
fn rng_states_neither_stick_nor_merge() {
    let mut rng = Rng::seeded(0);
    assert_eq!(rng.state, 1);
    assert_eq!(Rng::seeded(6).state, 7);
    let mut other = Rng { state: 2 };
    for _ in 0..1_000 {
        rng.next_u64();
        other.next_u64();
        assert_ne!(rng.state, 0);
        assert_ne!(rng.state, other.state);
        assert_ne!(rng.clone().next_u64(), other.clone().next_u64());
    }
}

#[test]
fn seed_falls_back_to_clock_and_process() {
    assert_eq!(random_seed(Some(99), Some(5), 7), 99);
    assert_eq!(random_seed(Some(0), Some(123456789), 4242), 0xa5a5_1f1f_f672_3d18);
    assert_eq!(random_seed(None, Some(123456789), 4242), 0xa5a5_1f1f_f672_3d18);
    assert_eq!(random_seed(None, Some((1u128 << 70) + 7), 1), 0xa5a5_1f1f_d00f_f00a);
    assert_eq!(random_seed(None, None, 4242), 0xa5a5_1f1f_f129_f00d);
    assert_eq!(
        random_seed(None, None, 4242),
        (4242u64).rotate_left(17) ^ 0xA5A5_1F1F_D00D_F00D
    );
}

#[test]
fn fire_palette_indexes_fit_color_table() {
    assert!(FIRE_PALETTE.iter().all(|idx| *idx < MAX_COLOR));
}

#[test]
fn rejects_invalid_and_excessive_dimensions() {
    for (width, height) in [
        (0, 24),
        (120, 0),
        (120, 1),
        (usize::MAX, 22),
        (120, usize::MAX),
        (1001, 1000),
    ] {
        assert!(TermSize { width, height }.validate().is_err());
        assert!(Fire::new(TermSize { width, height }).is_err());
    }
    assert!(TermSize {
        width: 1000,
        height: 1000
    }
    .validate()
    .is_ok());
}

#[test]
fn setup_errors_are_exact() {
    let small = TermSize { width: 0, height: 24 };
    let large = TermSize { width: 1001, height: 1000 };
    assert_eq!(small.validate(), Err(SizeError::TooSmall));
    assert_eq!(large.validate(), Err(SizeError::TooLarge));
    assert!(matches!(Fire::new(small), Err(SetupError::Size(SizeError::TooSmall))));
    assert!(matches!(Fire::new(large), Err(SetupError::Size(SizeError::TooLarge))));
    let fg = init_colors("38;5;");
    let bg = init_colors("48;5;");
    assert!(matches!(
        FrameBuffer::new(small, &fg, &bg, 0),
        Err(SetupError::Size(SizeError::TooSmall))
    ));
    assert!(matches!(
        FrameBuffer::new(large, &[], &[], 0),
        Err(SetupError::Size(SizeError::TooLarge))
    ));
    let fits = TermSize { width: 3, height: 3 };
    assert!(matches!(Fire::lit_in(fits, None), Err(SetupError::OutOfMemory)));
    assert!(matches!(
        FrameBuffer::blank_in(fits, None, 0),
        Err(SetupError::OutOfMemory)
    ));
    assert_eq!(
        SetupError::Size(SizeError::TooSmall).message(),
        "terminal must be at least 1 column by 2 rows"
    );
    assert_eq!(
        SizeError::TooLarge.message(),
        "terminal exceeds the limit of 1,000,000 cells"
    );
    assert_eq!(
        SetupError::OutOfMemory.message(),
        "memory allocation failed because the memory allocator returned an error"
    );
    assert_eq!(TermSize::default(), TermSize { width: 0, height: 0 });
}

#[test]
fn fire_burns_exactly() {
    let mut fire = Fire::new(TermSize { width: 3, height: 3 }).unwrap();
    assert_eq!((fire.width, fire.height), (3, 4));
    assert_eq!(fire.pixels, vec![0, 0, 0, 0, 0, 0, 0, 0, 0, 25, 25, 25]);
    let mut rng = Rng { state: 1 };
    fire.advance(&mut rng);
    assert_eq!(fire.pixels, vec![0, 0, 0, 0, 0, 0, 24, 24, 24, 25, 25, 25]);
    assert_eq!(rng.state, 12683848079143609325);
    fire.advance(&mut rng);
    assert_eq!(fire.pixels, vec![0, 0, 0, 24, 0, 0, 24, 25, 24, 25, 25, 25]);
    fire.advance(&mut rng);
    fire.advance(&mut rng);
    assert_eq!(
        fire.pixels,
        vec![24, 0, 0, 24, 24, 25, 25, 25, 24, 25, 25, 25]
    );
    assert_eq!(rng.state, 10112007899281928937);
}

#[test]
fn fire_stays_fed_and_never_heats_up() {
    for (width, height) in [(1, 2), (2, 3), (17, 9)] {
        let mut fire = Fire::new(TermSize { width, height }).unwrap();
        let mut rng = Rng { state: 99 };
        for _ in 0..200 {
            fire.advance(&mut rng);
            assert_eq!(fire.pixels.len(), width * (height - 1) * 2);
            assert!(fire.pixels[(fire.height - 1) * width..].iter().all(|&px| px == 25));
            assert!(fire.pixels.iter().all(|&px| px <= 25));
            assert_ne!(rng.state, 0);
        }
    }
}

#[test]
fn drawing_fire_does_not_allocate_after_initialization() {
    let fg = init_colors("38;5;");
    let bg = init_colors("48;5;");
    for (width, height) in [(120, 24), (200, 100)] {
        let size = TermSize { width, height };
        let fire = Fire::new(size).unwrap();
        let mut frame = FrameBuffer::new(size, &fg, &bg, 0).unwrap();
        let capacity = frame.bytes.capacity();
        let place = frame.bytes.as_ptr();
        frame.draw_fire(&fire, &fg, &bg);
        assert!(!frame.bytes.is_empty());
        assert_eq!(frame.bytes.capacity(), capacity);
        assert_eq!(frame.bytes.as_ptr(), place);
    }
}

#[test]
fn frames_keep_fire_and_status_inside_the_terminal() {
    let fg = init_colors("38;5;");
    let bg = init_colors("48;5;");
    for (width, height) in [(1, 2), (2, 3), (40, 10), (120, 24), (160, 30)] {
        let size = TermSize { width, height };
        let mut fire = Fire::new(size).unwrap();
        assert_eq!(fire.pixels.len(), width * (height - 1) * 2);
        assert!(fire.pixels[(fire.height - 1) * width..]
            .iter()
            .all(|&px| px == 25));
        let mut rng = Rng { state: 1 };
        for _ in 0..100 {
            fire.advance(&mut rng);
        }
        assert!(fire
            .pixels
            .iter()
            .all(|&px| usize::from(px) < FIRE_PALETTE.len()));
        let mut frame = FrameBuffer::new(size, &fg, &bg, 0).unwrap();
        frame.draw_fire(&fire, &fg, &bg);
        frame.record_frame(frame.bytes.len() as u64);
        frame.draw_status(&usual_status());
        let output = std::str::from_utf8(&frame.bytes).unwrap();
        assert!(!output.contains(['\r', '\n']));
        // Each row is explicitly positioned; the status has its own final row.
        for row in 1..height {
            let start = format!("{CSI}{row};1H");
            let end = format!("{CSI}{};1H", row + 1);
            let pixels = output
                .split_once(&start)
                .unwrap()
                .1
                .split_once(&end)
                .unwrap()
                .0;
            assert_eq!(pixels.matches(PX).count(), width);
        }
        let status_start = format!("{CSI}{height};1H{COLOR_DEF}");
        let status = output.split_once(&status_start).unwrap().1;
        let text = status.strip_suffix(LINE_CLEAR_TO_EOL).unwrap();
        assert!(text.is_ascii());
        assert!(text.len() < width);
    }
}

#[test]
fn wide_frames_allocate_for_area_and_do_not_grow_while_rendering() {
    let fg = init_colors("38;5;");
    let bg = init_colors("48;5;");
    let size = TermSize {
        width: 2000,
        height: 22,
    };
    let mut fire = Fire::new(size).unwrap();
    // Alternate colors to exercise the largest encoded frames.
    for (idx, px) in fire.pixels.iter_mut().enumerate() {
        *px = (idx % FIRE_PALETTE.len()) as u8;
    }
    let mut frame = FrameBuffer::new(size, &fg, &bg, 0).unwrap();
    let capacity = frame.bytes.capacity();
    assert!(capacity >= 25 * 2000 * 21 + 22 * 24 + 2000 + 128);
    assert!(capacity < 2 * 1024 * 1024);
    frame.draw_fire(&fire, &fg, &bg);
    frame.record_frame(frame.bytes.len() as u64);
    frame.draw_status(&usual_status());
    assert_eq!(frame.bytes.capacity(), capacity);
}

#[test]
fn buffers_are_reserved_or_refused() {
    assert!(reserved_buffer(0).unwrap().bytes.is_empty());
    let buffer = reserved_buffer(1000).unwrap();
    assert!(buffer.bytes.is_empty());
    assert!(buffer.bytes.capacity() >= 1000);
    assert!(reserved_buffer(usize::MAX).is_none());
    assert!(reserved_buffer(isize::MAX as usize + 1).is_none());
    let size = TermSize { width: 3, height: 3 };
    let lit = Fire::lit_in(size, reserved_buffer(12)).unwrap();
    assert_eq!(lit.pixels, Fire::new(size).unwrap().pixels);
    let fg = init_colors("38;5;");
    let bg = init_colors("48;5;");
    let room = reserved_buffer(FrameBuffer::capacity(size, &fg, &bg));
    let blank = FrameBuffer::blank_in(size, room, 9).unwrap();
    assert!(blank.bytes.is_empty() && blank.start == 9 && blank.term_sz == size);
}

#[test]
fn any_rectangle_burns() {
    let mut rng = Rng { state: 1 };
    for (width, height) in [(0, 4), (4, 0), (3, 1), (1, 1), (2, 3)] {
        let mut fire = Fire { width, height, pixels: vec![25; width * height] };
        for _ in 0..50 {
            fire.advance(&mut rng);
        }
        assert_eq!(fire.pixels.len(), width * height);
        assert!(fire.pixels.iter().all(|&px| px <= 25));
    }
}

#[test]
fn every_cell_but_the_last_row_has_a_half_block() {
    let fg = init_colors("38;5;");
    let bg = init_colors("48;5;");
    for (width, height, cells) in [(120, 24, 2760), (160, 30, 4640), (1, 2, 1)] {
        let size = TermSize { width, height };
        let mut frame = FrameBuffer::new(size, &fg, &bg, 0).unwrap();
        frame.draw_fire(&Fire::new(size).unwrap(), &fg, &bg);
        frame.draw_status(&usual_status());
        let output = std::str::from_utf8(&frame.bytes).unwrap();
        assert_eq!(output.matches(PX).count(), cells);
        assert!(output.contains(&format!("\x1B[{height};1H")));
        assert!(!output.contains('\n'));
    }
}

#[test]
fn reserved_memory_is_exact_and_enough() {
    let fg = init_colors("38;5;");
    let bg = init_colors("48;5;");
    let size = TermSize { width: 120, height: 24 };
    assert_eq!(FrameBuffer::capacity(size, &fg, &bg), 69_824);
    assert_eq!(Fire::capacity(size), 120 * 46);
    let mut fire = Fire::new(size).unwrap();
    assert!(fire.pixels.capacity() >= Fire::capacity(size));
    for (idx, px) in fire.pixels.iter_mut().enumerate() {
        *px = (idx * 7 % FIRE_PALETTE.len()) as u8;
    }
    let mut frame = FrameBuffer::new(size, &fg, &bg, 0).unwrap();
    assert!(frame.bytes.capacity() >= 69_824);
    frame.draw_fire(&fire, &fg, &bg);
    frame.draw_status(&usual_status());
    assert!(frame.bytes.len() <= 69_824);
    let largest = TermSize { width: 1000, height: 1000 };
    assert_eq!(FrameBuffer::capacity(largest, &fg, &bg), 25_000_128);
}

#[test]
fn averages_use_the_total_without_accumulated_rounding() {
    let mut frame = FrameBuffer::new(
        TermSize {
            width: 120,
            height: 24,
        },
        &init_colors("38;5;"),
        &init_colors("48;5;"),
        0,
    )
    .unwrap();
    assert_eq!(frame.frame_count, 0);
    assert_eq!(frame.total_len, 0);
    frame.record_frame(100);
    for _ in 1..1000 {
        frame.record_frame(200);
    }
    assert_eq!(frame.min_len, 100);
    assert_eq!(frame.max_len, 200);
    assert_eq!(frame.total_len, 199_900);
    assert_eq!(frame.frame_count, 1000);
    let average = frame.total_len as f64 / frame.frame_count as f64;
    assert_eq!(format!("{average:.2} B"), "199.90 B");
}

#[test]
fn frame_is_exact_and_sends_colors_only_where_they_change() {
    let fg = init_colors("38;5;");
    let bg = init_colors("48;5;");
    let size = TermSize { width: 2, height: 3 };
    let mut fire = Fire::new(size).unwrap();
    fire.pixels = vec![0, 1, 1, 1, 1, 25, 25, 25];
    let mut frame = FrameBuffer::new(size, &fg, &bg, 0).unwrap();
    frame.draw_fire(&fire, &fg, &bg);
    let expected = format!(
        "\x1B[1;1H\x1B[0m\x1B[48;5;0m\x1B[38;5;0m\
         \x1B[48;5;233m{PX}\x1B[38;5;233m{PX}\
         \x1B[2;1H\x1B[48;5;230m{PX}\x1B[38;5;230m{PX}"
    );
    assert_eq!(std::str::from_utf8(&frame.bytes).unwrap(), expected);
    frame.draw_status(&usual_status());
    assert_eq!(
        std::str::from_utf8(&frame.bytes).unwrap(),
        format!("{expected}\x1B[3;1H\x1B[48;5;0m\x1B[38;5;15mm\x1B[0K")
    );
}

#[test]
fn status_line_is_exact_where_there_is_room() {
    let fg = init_colors("38;5;");
    let bg = init_colors("48;5;");
    let line = "mem: 1.00 B min / 2.00 B avg / 3.00 B max [ 4.00 fps ]";
    let numbers = status("1.00 B", "2.00 B", "3.00 B", "4.00");
    for (width, shown) in [(200, line.len()), (55, line.len()), (54, 53), (1, 0)] {
        let size = TermSize { width, height: 2 };
        let mut frame = FrameBuffer::new(size, &fg, &bg, 0).unwrap();
        frame.draw_status(&numbers);
        assert_eq!(
            std::str::from_utf8(&frame.bytes).unwrap(),
            format!("\x1B[2;1H{COLOR_DEF}{}\x1B[0K", &line[..shown])
        );
        let mut out: Vec<u8> = vec![b'x'];
        frame.bytes.clear();
        frame.draw_str("y");
        frame.paint(&numbers, &mut out);
        assert_eq!(out[0..2], [b'x', b'y']);
        assert_eq!(out[1..], frame.bytes[..]);
    }
}

#[test]
fn pauses_are_left_out_of_the_running_time() {
    let fg = init_colors("38;5;");
    let bg = init_colors("48;5;");
    let size = TermSize { width: 2, height: 3 };
    let mut frame = FrameBuffer::new(size, &fg, &bg, 1_000).unwrap();
    assert_eq!(frame.elapsed(1_500), 500);
    assert_eq!(frame.elapsed(10), 0);
    frame.postpone(7_000);
    assert_eq!(frame.elapsed(8_500), 500);
    frame.postpone(u64::MAX);
    assert_eq!(frame.start, u64::MAX);
}

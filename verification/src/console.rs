//! The Windows console: how it is set up and given back, measured and written to.

use vstd::prelude::*;

use crate::size::TermSize;

verus! {

pub const ENABLE_PROCESSED_OUTPUT: u32 = 0x0001;

pub const ENABLE_VIRTUAL_TERMINAL_PROCESSING: u32 = 0x0004;

pub const DISABLE_NEWLINE_AUTO_RETURN: u32 = 0x0008;

/// The code page of UTF-8.
pub const CP_UTF8: u32 = 65001;

/// The next call that sets the console up.
#[derive(Clone, Copy, Debug, PartialEq, Eq, Structural)]
pub enum ConsoleStep {
    /// Get the handle of the standard output.
    GetHandle,
    /// Read the console's mode.
    GetMode,
    /// Read the console's output code page.
    GetCodePage,
    /// Set the mode.
    SetMode { mode: u32 },
    /// Set the output code page.
    SetCodePage { code_page: u32 },
    /// The console is set up.
    Ready,
    /// The last call failed.
    Failed,
}

/// What a call returned.
#[derive(Clone, Copy, Debug, PartialEq, Eq, Structural)]
pub enum ConsoleReply {
    /// A handle, as a number.
    Handle(isize),
    /// Whether the mode could be read (zero if not), and the mode.
    Mode { ok: i32, mode: u32 },
    /// The code page, zero if it could not be read.
    CodePage(u32),
    /// Whether a setting was accepted: zero if not.
    Changed { ok: i32 },
}

/// What the console was like before.
#[derive(Clone, Copy, Debug, PartialEq, Eq, Structural)]
pub struct ConsoleState {
    pub mode: u32,
    pub code_page: u32,
}

/// How far the setup of a console is.
#[derive(Clone, Copy, Debug, PartialEq, Eq, Structural)]
pub struct ConsoleSetup {
    pub step: ConsoleStep,
    /// The mode, once it was read.
    pub mode: u32,
    /// What the console must be given back as. It is known before the first change.
    pub original: Option<ConsoleState>,
}

/// The mode that the program works in: the mode that was found, and control sequences and plain
/// newlines besides.
pub open spec fn working_mode(mode: u32) -> u32 {
    mode | ENABLE_PROCESSED_OUTPUT | ENABLE_VIRTUAL_TERMINAL_PROCESSING
        | DISABLE_NEWLINE_AUTO_RETURN
}

impl ConsoleSetup {
    /// Whether a reply is one to the call that is due.
    pub open spec fn awaits(self, reply: ConsoleReply) -> bool {
        match self.step {
            ConsoleStep::GetHandle => reply is Handle,
            ConsoleStep::GetMode => reply is Mode,
            ConsoleStep::GetCodePage => reply is CodePage,
            ConsoleStep::SetMode { .. } => reply is Changed,
            ConsoleStep::SetCodePage { .. } => reply is Changed,
            ConsoleStep::Ready => false,
            ConsoleStep::Failed => false,
        }
    }

    /// Whether a reply reports success. A handle is missing if it is zero or -1.
    pub open spec fn succeeded(reply: ConsoleReply) -> bool {
        match reply {
            ConsoleReply::Handle(h) => h != 0 && h != -1,
            ConsoleReply::Mode { ok, .. } => ok != 0,
            ConsoleReply::CodePage(code_page) => code_page != 0,
            ConsoleReply::Changed { ok } => ok != 0,
        }
    }

    /// The setup after a reply.
    pub open spec fn after(self, reply: ConsoleReply) -> ConsoleSetup {
        if !ConsoleSetup::succeeded(reply) {
            ConsoleSetup { step: ConsoleStep::Failed, ..self }
        } else {
            match (self.step, reply) {
                (ConsoleStep::GetHandle, _) => ConsoleSetup { step: ConsoleStep::GetMode, ..self },
                (ConsoleStep::GetMode, ConsoleReply::Mode { mode, .. }) => ConsoleSetup {
                    step: ConsoleStep::GetCodePage,
                    mode,
                    ..self
                },
                (ConsoleStep::GetCodePage, ConsoleReply::CodePage(code_page)) => ConsoleSetup {
                    step: ConsoleStep::SetMode { mode: working_mode(self.mode) },
                    original: Some(ConsoleState { mode: self.mode, code_page }),
                    ..self
                },
                (ConsoleStep::SetMode { .. }, _) => ConsoleSetup {
                    step: ConsoleStep::SetCodePage { code_page: CP_UTF8 },
                    ..self
                },
                (ConsoleStep::SetCodePage { .. }, _) => ConsoleSetup {
                    step: ConsoleStep::Ready,
                    ..self
                },
                _ => self,
            }
        }
    }

    /// Where the setup begins.
    pub fn begin() -> (setup: ConsoleSetup)
        ensures
            setup == (ConsoleSetup { step: ConsoleStep::GetHandle, mode: 0, original: None }),
    {
        ConsoleSetup { step: ConsoleStep::GetHandle, mode: 0, original: None }
    }

    /// What every setup keeps: a change is only made, and the end only reached, once it is known
    /// what to give the console back as.
    pub open spec fn guarded(self) -> bool {
        match self.step {
            ConsoleStep::SetMode { mode } => self.original matches Some(o) && o.mode == self.mode
                && mode == working_mode(o.mode),
            ConsoleStep::SetCodePage { .. } => self.original matches Some(o) && o.mode == self.mode,
            ConsoleStep::Ready => self.original matches Some(o) && o.mode == self.mode,
            _ => true,
        }
    }
}

/// Goes on with the setup once the call that was due has returned.
pub fn init_console(setup: &mut ConsoleSetup, reply: ConsoleReply)
    requires
        old(setup).awaits(reply),
    ensures
        *final(setup) == old(setup).after(reply),
{
    match reply {
        ConsoleReply::Handle(handle) => {
            if handle == 0 || handle == -1 {
                setup.step = ConsoleStep::Failed;
            } else {
                setup.step = ConsoleStep::GetMode;
            }
        },
        ConsoleReply::Mode { ok, mode } => {
            if ok == 0 {
                setup.step = ConsoleStep::Failed;
            } else {
                setup.mode = mode;
                setup.step = ConsoleStep::GetCodePage;
            }
        },
        ConsoleReply::CodePage(code_page) => {
            if code_page == 0 {
                setup.step = ConsoleStep::Failed;
            } else {
                setup.original = Some(ConsoleState { mode: setup.mode, code_page });
                setup.step = ConsoleStep::SetMode {
                    mode: setup.mode | ENABLE_PROCESSED_OUTPUT
                        | ENABLE_VIRTUAL_TERMINAL_PROCESSING | DISABLE_NEWLINE_AUTO_RETURN,
                };
            }
        },
        ConsoleReply::Changed { ok } => {
            if ok == 0 {
                setup.step = ConsoleStep::Failed;
            } else {
                setup.step = match setup.step {
                    ConsoleStep::SetMode { .. } => ConsoleStep::SetCodePage {
                        code_page: CP_UTF8,
                    },
                    _ => ConsoleStep::Ready,
                };
            }
        },
    }
}

/// A setup that fails after a change still knows what to give the console back as, and no step
/// changes what that is once it is known.
pub proof fn law_console_can_be_given_back(setup: ConsoleSetup, reply: ConsoleReply)
    requires
        setup.awaits(reply),
        setup.guarded(),
    ensures
        setup.after(reply).guarded(),
        setup.step is SetMode || setup.step is SetCodePage ==> setup.after(reply).original
            == setup.original && setup.original is Some,
{
}

/// The working mode keeps every flag of the mode that was found.
pub proof fn law_working_mode_keeps_flags(mode: u32)
    ensures
        working_mode(mode) & mode == mode,
        working_mode(mode) & 0x000D == 0x000D,
{
    assert((mode | 0x0001u32 | 0x0004 | 0x0008) & mode == mode) by (bit_vector);
    assert((mode | 0x0001u32 | 0x0004 | 0x0008) & 0x000D == 0x000D) by (bit_vector);
}

/// The extent of a range of rows or columns, both ends included. It is not positive if the range
/// is upside down; as an unsigned number it is then zero or too large for any terminal.
pub open spec fn extent(first: i16, last: i16) -> usize {
    let n = last - first + 1;
    if n >= 0 {
        n as usize
    } else {
        (usize::MAX + 1 + n) as usize
    }
}

fn window_extent(first: i16, last: i16) -> (n: usize)
    ensures
        n == extent(first, last),
{
    let n: i32 = last as i32 - first as i32 + 1;
    if n >= 0 {
        n as usize
    } else {
        usize::MAX - (-(n + 1)) as usize
    }
}

/// The size of a console's window.
pub fn console_size(left: i16, top: i16, right: i16, bottom: i16) -> (size: TermSize)
    ensures
        size == (TermSize { height: extent(top, bottom), width: extent(left, right) }),
{
    TermSize { height: window_extent(top, bottom), width: window_extent(left, right) }
}

/// A window that is upside down or inside out is rejected like any size that cannot be drawn on.
pub proof fn law_inverted_window_is_rejected(left: i16, top: i16, right: i16, bottom: i16)
    requires
        right < left || bottom < top,
    ensures
        !(TermSize { height: extent(top, bottom), width: extent(left, right) }).valid(),
{
    let w = extent(left, right) as int;
    let h = extent(top, bottom) as int;
    if w >= 1 && h >= 2 {
        assert(w * h >= w && w * h >= h) by (nonlinear_arith)
            requires
                w >= 1,
                h >= 2,
        ;
    }
}

/// What is reported where a call wrote nothing.
pub const WROTE_ZERO: &'static str = "WriteConsoleA wrote zero bytes";

/// Why output to a console stopped.
#[derive(Clone, Copy, Debug, PartialEq, Eq, Structural)]
pub enum ConsoleWriteError {
    /// The call failed; the system knows why.
    System,
    /// The call wrote nothing; see [`WROTE_ZERO`].
    WroteZero,
}

/// What is wrong with what a call reported, if anything is.
pub open spec fn write_failure(ok: i32, written: u32) -> Option<ConsoleWriteError> {
    if ok == 0 {
        Some(ConsoleWriteError::System)
    } else if written == 0 {
        Some(ConsoleWriteError::WroteZero)
    } else {
        None
    }
}

/// What a call reported: whether it succeeded (zero if not), and how many bytes it wrote.
pub struct WriteReply {
    pub ok: i32,
    pub written: u32,
}

impl WriteReply {
    /// What is wrong with the reply, if anything is.
    pub open spec fn failure(self) -> Option<ConsoleWriteError> {
        write_failure(self.ok, self.written)
    }
}

/// The number of bytes that a row of calls wrote.
pub open spec fn bytes_written(replies: Seq<WriteReply>) -> nat
    decreases replies.len(),
{
    if replies.len() == 0 {
        0
    } else {
        replies[0].written as nat + bytes_written(replies.drop_first())
    }
}

/// How a write of `len` bytes goes whose calls give the replies of a row, one after another: how
/// many calls are made, and what comes of it; none if more calls would be made.
pub open spec fn write_all(len: nat, replies: Seq<WriteReply>) -> (
    nat,
    Option<Result<(), ConsoleWriteError>>,
)
    decreases replies.len(),
{
    if len == 0 {
        (0, Some(Ok(())))
    } else if replies.len() == 0 {
        (0, None)
    } else {
        match replies[0].failure() {
            Some(e) => (1, Some(Err(e))),
            None => {
                let rest = write_all((len - replies[0].written) as nat, replies.drop_first());
                (rest.0 + 1, rest.1)
            },
        }
    }
}

/// Whether no call that succeeds reports more bytes than it was given.
pub open spec fn proper_replies(len: nat, replies: Seq<WriteReply>) -> bool
    decreases replies.len(),
{
    replies.len() > 0 && replies[0].ok != 0 ==> {
        &&& replies[0].written <= len
        &&& proper_replies((len - replies[0].written) as nat, replies.drop_first())
    }
}

/// Whether all of the first `n` calls succeeded.
pub open spec fn all_succeed(replies: Seq<WriteReply>, n: nat) -> bool {
    forall|i: int| 0 <= i < n ==> (#[trigger] replies[i]).failure() is None
}

/// Output is complete or fails. It succeeds exactly if the calls that were made all succeeded and
/// together wrote all bytes; otherwise it fails with the first call that did, after which none is
/// made, and before which less than all bytes were written.
pub proof fn law_console_output_is_complete_or_fails(len: nat, replies: Seq<WriteReply>)
    requires
        proper_replies(len, replies),
    ensures
        ({
            let (n, outcome) = write_all(len, replies);
            &&& n <= replies.len()
            &&& match outcome {
                Some(Ok(_)) => all_succeed(replies, n) && bytes_written(replies.take(n as int))
                    == len,
                Some(Err(e)) => n >= 1 && replies[n - 1].failure() == Some(e) && all_succeed(
                    replies,
                    (n - 1) as nat,
                ) && bytes_written(replies.take(n - 1)) < len,
                None => n == replies.len() && all_succeed(replies, n) && bytes_written(replies)
                    < len,
            }
        }),
    decreases replies.len(),
{
    assert(replies.take(0) =~= Seq::<WriteReply>::empty());
    if len > 0 && replies.len() > 0 && replies[0].failure() is None {
        let rest = replies.drop_first();
        let left = (len - replies[0].written) as nat;
        law_console_output_is_complete_or_fails(left, rest);
        let (m, outcome) = write_all(left, rest);
        let good = if outcome matches Some(Err(_)) {
            (m - 1) as nat
        } else {
            m
        };
        assert forall|i: int| 0 <= i < good + 1 implies (#[trigger] replies[i]).failure()
            is None by {
            if i > 0 {
                assert(rest[i - 1].failure() is None);
            }
        }
        assert(replies.take((good + 1) as int).drop_first() =~= rest.take(good as int));
        assert(rest.take(rest.len() as int) =~= rest);
        assert(replies.take(replies.len() as int) =~= replies);
    }
}

/// How many of the remaining bytes to write in one call: all, or as many as the call can take.
pub fn write_chunk(remaining: usize) -> (chunk: u32)
    ensures
        chunk == (if remaining <= u32::MAX {
            remaining as int
        } else {
            u32::MAX as int
        }),
{
    if remaining <= u32::MAX as usize {
        remaining as u32
    } else {
        u32::MAX
    }
}

/// How many bytes remain after a call. It is an error if the call failed or wrote nothing.
pub fn write_console(remaining: usize, ok: i32, written: u32) -> (result: Result<
    usize,
    ConsoleWriteError,
>)
    requires
        ok != 0 ==> written <= remaining,
    ensures
        result == (match write_failure(ok, written) {
            Some(e) => Err::<usize, ConsoleWriteError>(e),
            None => Ok::<usize, ConsoleWriteError>((remaining - written) as usize),
        }),
{
    if ok == 0 {
        return Err(ConsoleWriteError::System);
    }
    if written == 0 {
        return Err(ConsoleWriteError::WroteZero);
    }
    Ok(remaining - written as usize)
}

/// The working mode changes no flag but the three that the program needs.
pub proof fn law_working_mode_changes_nothing_else(mode: u32)
    ensures
        working_mode(mode) & !0x000Du32 == mode & !0x000Du32,
        working_mode(mode) == mode | 0x000D,
{
    assert((mode | 0x0001u32 | 0x0004 | 0x0008) & !0x000Du32 == mode & !0x000Du32)
        by (bit_vector);
    assert((mode | 0x0001u32 | 0x0004 | 0x0008) == mode | 0x000D) by (bit_vector);
}

/// The setup of a console whose calls all succeed: the mode is read and then the code page, the
/// console gets its working mode and then the code page of UTF-8, and what it was like is known. A
/// call that fails ends the setup at once, and changes nothing of what is known.
pub proof fn law_console_is_set_up_in_order(
    start: ConsoleSetup,
    handle: isize,
    mode: u32,
    code_page: u32,
    ok: i32,
    failed: ConsoleSetup,
    reply: ConsoleReply,
)
    requires
        start.step == ConsoleStep::GetHandle,
        start.original is None,
        handle != 0,
        handle != -1,
        ok != 0,
        code_page != 0,
        failed.awaits(reply),
        match reply {
            ConsoleReply::Handle(h) => h == 0 || h == -1,
            ConsoleReply::Mode { ok, .. } => ok == 0,
            ConsoleReply::CodePage(c) => c == 0,
            ConsoleReply::Changed { ok } => ok == 0,
        },
    ensures
        ({
            let a = start.after(ConsoleReply::Handle(handle));
            let b = a.after(ConsoleReply::Mode { ok, mode });
            let c = b.after(ConsoleReply::CodePage(code_page));
            let d = c.after(ConsoleReply::Changed { ok });
            let e = d.after(ConsoleReply::Changed { ok });
            &&& a.step == ConsoleStep::GetMode && b.step == ConsoleStep::GetCodePage
            &&& c.step == ConsoleStep::SetMode { mode: mode | 0x000D }
            &&& c.original == Some(ConsoleState { mode, code_page })
            &&& d.step == ConsoleStep::SetCodePage { code_page: 65001 }
            &&& e.step == ConsoleStep::Ready && e.original == c.original
            &&& failed.after(reply).step == ConsoleStep::Failed
            &&& failed.after(reply).original == failed.original
        }),
{
    law_working_mode_changes_nothing_else(mode);
}

/// A window is as wide as it has columns and as high as it has rows, both ends included.
pub proof fn law_window_counts_both_ends(first: i16, last: i16)
    ensures
        last >= first ==> extent(first, last) == last - first + 1,
        last == first - 1 ==> extent(first, last) == 0,
        last < first - 1 ==> extent(first, last) > 1_000_000,
{
}

} // verus!

//! Signals and job control: what they mean, and when the terminal may be used.

use vstd::prelude::*;

use crate::text::str_eq;

verus! {

/// The signal that an interrupt key sends.
pub const SIGINT: i32 = 2;

/// The signal that asks a process to end.
pub const SIGTERM: i32 = 15;

/// The control event that an interrupt key causes on a Windows console.
pub const CTRL_C_EVENT: u32 = 0;

/// What the signals so far ask for.
#[derive(Clone, Copy, Debug, PartialEq, Eq, Structural)]
pub struct Signals {
    /// The program is to end.
    pub interrupted: bool,
    /// The program is to be suspended.
    pub suspend_requested: bool,
}

/// The numbers by which a system's terminal interface goes.
#[derive(Clone, Copy, Debug, PartialEq, Eq, Structural)]
pub struct TerminalAbi {
    /// The request for the window size.
    pub winsize: u64,
    /// The signal that stops a process and cannot be caught.
    pub stop: i32,
    /// The signal that a suspend key sends.
    pub suspend: i32,
    /// The action that resumes paused output; the action below it pauses output.
    pub output_on: i32,
}

/// What to do while the terminal may belong to another job.
#[derive(Clone, Copy, Debug, PartialEq, Eq, Structural)]
pub enum ForegroundStep {
    /// Stop until the job is continued, then look again.
    Stop,
    /// Go on.
    Proceed,
}

/// Whether the architecture is a MIPS.
pub open spec fn is_mips(arch: Seq<char>) -> bool {
    arch == "mips"@ || arch == "mips64"@ || arch == "mips32r6"@ || arch == "mips64r6"@
}

/// Whether the architecture is a PowerPC.
pub open spec fn is_powerpc(arch: Seq<char>) -> bool {
    arch == "powerpc"@ || arch == "powerpc64"@
}

/// Whether the architecture is a SPARC.
pub open spec fn is_sparc(arch: Seq<char>) -> bool {
    arch == "sparc"@ || arch == "sparc64"@
}

/// The terminal interface of Linux, which differs between architectures.
pub open spec fn linux_abi_of(arch: Seq<char>) -> TerminalAbi {
    if is_mips(arch) {
        TerminalAbi { winsize: 0x4008_7468, stop: 23, suspend: 24, output_on: 1 }
    } else if is_powerpc(arch) {
        TerminalAbi { winsize: 0x4008_7468, stop: 19, suspend: 20, output_on: 1 }
    } else if is_sparc(arch) {
        TerminalAbi { winsize: 0x4008_7468, stop: 17, suspend: 18, output_on: 1 }
    } else {
        TerminalAbi { winsize: 0x5413, stop: 19, suspend: 20, output_on: 1 }
    }
}

/// The terminal interface of Linux on an architecture.
pub fn linux_abi(arch: &str) -> (abi: TerminalAbi)
    ensures
        abi == linux_abi_of(arch@),
{
    if str_eq(arch, "mips") || str_eq(arch, "mips64") || str_eq(arch, "mips32r6") || str_eq(
        arch,
        "mips64r6",
    ) {
        TerminalAbi { winsize: 0x4008_7468, stop: 23, suspend: 24, output_on: 1 }
    } else if str_eq(arch, "powerpc") || str_eq(arch, "powerpc64") {
        TerminalAbi { winsize: 0x4008_7468, stop: 19, suspend: 20, output_on: 1 }
    } else if str_eq(arch, "sparc") || str_eq(arch, "sparc64") {
        TerminalAbi { winsize: 0x4008_7468, stop: 17, suspend: 18, output_on: 1 }
    } else {
        TerminalAbi { winsize: 0x5413, stop: 19, suspend: 20, output_on: 1 }
    }
}

/// The terminal interface of Apple's systems and of the BSDs.
pub fn bsd_abi() -> (abi: TerminalAbi)
    ensures
        abi == (TerminalAbi { winsize: 0x4008_7468, stop: 17, suspend: 18, output_on: 2 }),
{
    TerminalAbi { winsize: 0x4008_7468, stop: 17, suspend: 18, output_on: 2 }
}

/// The signals to catch.
pub fn exit_signals(abi: TerminalAbi) -> (signals: [i32; 3])
    ensures
        signals@ == seq![SIGINT, SIGTERM, abi.suspend],
{
    let signals: [i32; 3] = [SIGINT, SIGTERM, abi.suspend];
    assert(signals@ =~= seq![SIGINT, SIGTERM, abi.suspend]);
    signals
}

impl Signals {
    /// Before any signal.
    pub fn none() -> (signals: Signals)
        ensures
            signals == (Signals { interrupted: false, suspend_requested: false }),
    {
        Signals { interrupted: false, suspend_requested: false }
    }

    /// What both ask for.
    pub open spec fn joined(self, other: Signals) -> Signals {
        Signals {
            interrupted: self.interrupted || other.interrupted,
            suspend_requested: self.suspend_requested || other.suspend_requested,
        }
    }

    /// What is asked for once a signal was caught.
    pub open spec fn caught(self, sig: i32, abi: TerminalAbi) -> Signals {
        if sig == abi.suspend {
            Signals { suspend_requested: true, ..self }
        } else {
            Signals { interrupted: true, ..self }
        }
    }

    /// Adds what other signals ask for.
    pub fn join(&mut self, other: Signals)
        ensures
            *final(self) == old(self).joined(other),
    {
        self.interrupted = self.interrupted || other.interrupted;
        self.suspend_requested = self.suspend_requested || other.suspend_requested;
    }
}

/// Takes note of a caught signal: the suspend key asks for suspension, any other signal for the
/// end.
pub fn handle_signal(signals: &mut Signals, sig: i32, abi: TerminalAbi)
    ensures
        *final(signals) == (if sig == abi.suspend {
            Signals { suspend_requested: true, ..*old(signals) }
        } else {
            Signals { interrupted: true, ..*old(signals) }
        }),
        *final(signals) == old(signals).caught(sig, abi),
{
    if sig == abi.suspend {
        signals.suspend_requested = true;
    } else {
        signals.interrupted = true;
    }
}

/// Takes note of a control event of a Windows console. Only the interrupt key is handled; for any
/// other event the answer is that the system is to do so.
pub fn handle_ctrl_c(signals: &mut Signals, ctrl_type: u32) -> (handled: bool)
    ensures
        handled == (ctrl_type == CTRL_C_EVENT),
        *final(signals) == (if ctrl_type == CTRL_C_EVENT {
            Signals { interrupted: true, ..*old(signals) }
        } else {
            *old(signals)
        }),
{
    if ctrl_type != CTRL_C_EVENT {
        return false;
    }
    signals.interrupted = true;
    true
}

/// Whether the program is to end.
pub fn interrupted(signals: &Signals) -> (yes: bool)
    ensures
        yes == signals.interrupted,
{
    signals.interrupted
}

/// Whether suspension was asked for. The request counts once: taking it clears it.
pub fn take_suspend_request(signals: &mut Signals) -> (requested: bool)
    ensures
        requested == old(signals).suspend_requested,
        *final(signals) == (Signals { suspend_requested: false, ..*old(signals) }),
{
    let requested = signals.suspend_requested;
    signals.suspend_requested = false;
    requested
}

/// Whether the program is in the foreground of its terminal, or there is no foreground to be in.
pub open spec fn in_foreground(foreground: i32, own: i32) -> bool {
    foreground == own || foreground < 0
}

/// Whether the terminal may be used: it is if the program is in its foreground group, and also if
/// there is no such group, which the system reports by a negative number.
pub fn can_access_terminal(foreground: i32, own: i32) -> (yes: bool)
    ensures
        yes == (foreground < 0 || foreground == own),
        yes == in_foreground(foreground, own),
{
    foreground < 0 || foreground == own
}

/// Whether to stop before the terminal is used: so it is until the program is in the foreground,
/// unless it is to end.
pub fn wait_for_foreground(signals: &Signals, foreground: i32, own: i32) -> (step: ForegroundStep)
    ensures
        step == (if !signals.interrupted && foreground >= 0 && foreground != own {
            ForegroundStep::Stop
        } else {
            ForegroundStep::Proceed
        }),
        step == ForegroundStep::Proceed <==> signals.interrupted || in_foreground(foreground, own),
{
    if !interrupted(signals) && !can_access_terminal(foreground, own) {
        ForegroundStep::Stop
    } else {
        ForegroundStep::Proceed
    }
}

/// On every architecture the suspend key's signal is none of those that end the program, and not
/// the one that cannot be caught.
pub proof fn law_suspend_signal_is_distinct(arch: Seq<char>)
    ensures
        linux_abi_of(arch).suspend != SIGINT,
        linux_abi_of(arch).suspend != SIGTERM,
        linux_abi_of(arch).suspend != linux_abi_of(arch).stop,
{
}

/// What a caught signal asks for, on every architecture: the one of the suspend key asks for
/// suspension, and every other one, those that interrupt and terminate among them, for the end. The
/// order in which two come does not matter, and a second time changes nothing.
pub proof fn law_signals_are_told_apart(signals: Signals, arch: Seq<char>, a: i32, b: i32)
    ensures
        ({
            let abi = linux_abi_of(arch);
            &&& signals.caught(2, abi) == (Signals { interrupted: true, ..signals })
            &&& signals.caught(15, abi) == (Signals { interrupted: true, ..signals })
            &&& signals.caught(abi.suspend, abi) == (Signals { suspend_requested: true, ..signals })
            &&& signals.caught(a, abi).caught(b, abi) == signals.caught(b, abi).caught(a, abi)
            &&& signals.caught(a, abi).caught(a, abi) == signals.caught(a, abi)
            &&& a != abi.suspend ==> signals.caught(a, abi).interrupted
        }),
{
}

/// A program has the terminal exactly if its group is the one in the foreground; where there is
/// none, every program has it.
pub proof fn law_one_group_has_the_terminal(foreground: i32, a: i32, b: i32)
    ensures
        foreground >= 0 && in_foreground(foreground, a) && in_foreground(foreground, b) ==> a == b,
        foreground >= 0 ==> in_foreground(foreground, foreground),
        foreground < 0 ==> in_foreground(foreground, a),
{
}

/// The numbers of Linux: three families of architectures have their own, all others the same.
pub proof fn law_linux_numbers(arch: Seq<char>)
    ensures
        ({
            let abi = linux_abi_of(arch);
            let mips = arch == "mips"@ || arch == "mips64"@ || arch == "mips32r6"@ || arch
                == "mips64r6"@;
            let powerpc = arch == "powerpc"@ || arch == "powerpc64"@;
            let sparc = arch == "sparc"@ || arch == "sparc64"@;
            &&& abi.output_on == 1 && abi.suspend == abi.stop + 1
            &&& abi.winsize == (if mips || powerpc || sparc {
                0x4008_7468u64
            } else {
                0x5413u64
            })
            &&& mips ==> abi.stop == 23
            &&& !mips && !powerpc && sparc ==> abi.stop == 17
            &&& !mips && (powerpc || !sparc) ==> abi.stop == 19
        }),
{
}

} // verus!

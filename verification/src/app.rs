//! The program's state, and the output that it collects.

use vstd::prelude::*;

use crate::ansi;
use crate::ansi::Platform;
use crate::ansi::BG_KIND;
use crate::ansi::CHAR_SET_ASCII;
use crate::ansi::FG_KIND;
use crate::ansi::MAX_COLOR;
use crate::fire::Fire;
use crate::fire::FireModel;
use crate::frame;
use crate::frame::FrameBuffer;
use crate::frame::FrameModel;
use crate::frame_laws;
use crate::rng::Rng;
use crate::signals::Signals;
use crate::size::SizeError;
use crate::size::TermSize;
use crate::text;

verus! {

broadcast use text::group_text;

/// The screens that wait for an answer.
#[derive(Clone, Copy, Debug, PartialEq, Eq, Structural)]
pub enum PauseScreen {
    SizeWarning,
    Capabilities,
}

/// How far the program is.
#[derive(Clone, Copy, Debug, PartialEq, Eq, Structural)]
pub enum Stage {
    /// The screen was taken over.
    Ready,
    /// A prompt waits for an answer.
    Prompt(PauseScreen),
    /// The terminal is measured for the preview.
    Measuring,
    /// The marquee runs below the preview: step `frame` of its pair of lines `line`, until
    /// `deadline`, which is set once the step is on the terminal.
    Marquee { line: usize, frame: usize, deadline: Option<u64> },
    /// The terminal is measured for the fire.
    Kindling,
    /// The terminal is measured for the next frame.
    Burning,
    /// A frame waits for its status line.
    Painting,
    /// Nothing is left to do.
    Over,
}

/// What has to come before the program goes on with its stage.
#[derive(Clone, Copy, Debug, PartialEq, Eq, Structural)]
pub enum Hold {
    /// Nothing: it waits for what its stage needs.
    Running,
    /// What was written goes to the terminal, and then it looks for signals.
    Looking,
    /// It is stopped since a point in time.
    Suspended { since: u64 },
    /// It runs again, and the terminal is being measured anew.
    Resuming { since: u64 },
    /// It has taken the screen over again, and looks for signals before it draws.
    Redrawing { since: u64 },
}

/// A fire and the frame that it is drawn in.
pub struct Show {
    pub fire: Fire,
    pub frame: FrameBuffer,
}

/// The state of the program. What it writes is collected in `out`, for the caller to write to the
/// terminal.
pub struct App {
    pub platform: Platform,
    pub term_sz: TermSize,
    pub fg: Vec<String>,
    pub bg: Vec<String>,
    pub rng: Rng,
    pub terminal_active: bool,
    /// Whether the terminal may still show the program's screen: so it does until what gives it
    /// back was written without a failure.
    pub taken: bool,
    pub signals: Signals,
    pub stage: Stage,
    pub hold: Hold,
    pub show: Option<Show>,
    pub out: Vec<u8>,
}

/// What a fire and its frame are.
#[verifier::ext_equal]
pub struct ShowModel {
    pub fire: FireModel,
    pub frame: FrameModel,
}

/// What the state of the program is.
#[verifier::ext_equal]
pub struct AppModel {
    pub platform: Platform,
    pub term_sz: TermSize,
    pub rng: u64,
    pub active: bool,
    pub taken: bool,
    pub signals: Signals,
    pub stage: Stage,
    pub hold: Hold,
    pub show: Option<ShowModel>,
    pub out: Seq<u8>,
}

impl View for Show {
    type V = ShowModel;

    open spec fn view(&self) -> ShowModel {
        ShowModel { fire: self.fire@, frame: self.frame@ }
    }
}

impl View for App {
    type V = AppModel;

    open spec fn view(&self) -> AppModel {
        AppModel {
            platform: self.platform,
            term_sz: self.term_sz,
            rng: self.rng.state,
            active: self.terminal_active,
            taken: self.taken,
            signals: self.signals,
            stage: self.stage,
            hold: self.hold,
            show: match self.show {
                Some(s) => Some(s@),
                None => None,
            },
            out: self.out@,
        }
    }
}

impl ShowModel {
    /// The fire fills the terminal that the frame is for and is fed, the frames were counted, and
    /// the frame fits in the room that was reserved for it.
    pub open spec fn consistent(self) -> bool {
        &&& self.frame.term_sz.valid()
        &&& self.frame.room == frame::frame_capacity(
            self.frame.term_sz,
            ansi::fg_table(),
            ansi::bg_table(),
        )
        &&& self.frame.bytes.len() <= self.frame.room
        &&& frame_laws::fills(self.fire, self.frame.term_sz)
        &&& self.fire.fed()
        &&& self.frame.stats.bounded()
    }

    /// The frame is the fire, drawn.
    pub open spec fn shows_fire(self) -> bool {
        self.frame.bytes == text::utf8(
            frame::frame_text(self.fire, ansi::fg_table(), ansi::bg_table()),
        )
    }
}

impl AppModel {
    /// The same state with more text written.
    pub open spec fn with_text(self, t: Seq<char>) -> AppModel {
        AppModel { out: self.out + text::utf8(t), ..self }
    }

    /// Whether the stage is one in which the program can be suspended.
    pub open spec fn suspendable(self) -> bool {
        self.stage is Prompt || self.stage is Marquee || self.stage is Burning
    }

    /// Whether the program is neither suspended nor over.
    pub open spec fn on_screen(self) -> bool {
        self.stage != Stage::Over && self.hold !is Suspended && self.hold !is Resuming
    }

    /// Whether the program was interrupted while it was suspended at a prompt. It waits for an
    /// answer once more, without the screen, and then ends.
    pub open spec fn leaving(self) -> bool {
        self.stage is Prompt && self.signals.interrupted && self.hold !is Redrawing
    }

    /// What holds in every state.
    pub open spec fn consistent(self) -> bool {
        &&& self.term_sz.valid()
        &&& self.rng != 0
        &&& self.active ==> self.on_screen()
        &&& self.on_screen() ==> self.active || self.leaving()
        &&& self.stage is Over ==> self.hold is Running
        &&& self.hold is Looking ==> self.suspendable() || self.stage is Measuring || self.stage
            is Kindling
        &&& self.hold is Suspended || self.hold is Resuming || self.hold is Redrawing
            ==> self.suspendable()
        &&& self.stage matches Stage::Marquee { line, frame, .. } ==> line < 3 && frame < 22
        &&& self.show is Some <==> self.stage is Burning || self.stage is Painting
        &&& self.show matches Some(s) ==> s.consistent()
        &&& self.stage is Painting ==> self.show.unwrap().shows_fire()
    }

    /// The state in which the screen was just taken over.
    pub open spec fn begun(platform: Platform, size: TermSize, seed: u64) -> AppModel {
        let on = match platform {
            Platform::Unix => ansi::screen_on(),
            Platform::Windows => ansi::screen_on() + CHAR_SET_ASCII@,
        };
        AppModel {
            platform,
            term_sz: size,
            rng: seed | 1,
            active: true,
            taken: false,
            signals: Signals { interrupted: false, suspend_requested: false },
            stage: Stage::Ready,
            hold: Hold::Running,
            show: None,
            out: text::utf8(on),
        }
    }

    /// The screen was given back, if it had been taken over.
    pub open spec fn completed(self) -> AppModel {
        if self.active {
            AppModel { active: false, ..self.with_text(ansi::screen_off()) }
        } else {
            self
        }
    }

    /// What was written was handed out, to be written to the terminal.
    pub open spec fn handed_out(self) -> AppModel {
        AppModel { taken: self.taken || self.active, out: Seq::empty(), ..self }
    }

    /// What was handed out was written to the terminal, or could not be.
    pub open spec fn written(self, ok: bool) -> AppModel {
        if ok {
            AppModel { taken: self.active, ..self }
        } else {
            self
        }
    }

    /// The end, whatever else was to come: only what gives the screen back is left to be written,
    /// if the terminal may still show it.
    pub open spec fn restored(self) -> AppModel {
        if self.taken {
            AppModel {
                active: false,
                stage: Stage::Over,
                hold: Hold::Running,
                show: None,
                out: text::utf8(ansi::screen_off()),
                ..self
            }
        } else {
            self
        }
    }

    /// Whether paused output has to be resumed before the next write, which gives the screen back.
    pub open spec fn resumes_output(self) -> bool {
        self.platform == Platform::Unix && self.taken && !self.active
    }
}

impl App {
    /// The color tables hold the sequences of all colors.
    pub open spec fn colored(&self) -> bool {
        &&& ansi::texts(self.fg@) == ansi::fg_table()
        &&& ansi::texts(self.bg@) == ansi::bg_table()
    }

    /// What holds of every program state.
    pub open spec fn wf(&self) -> bool {
        self.colored() && self@.consistent()
    }

    /// Takes over the screen of a terminal that can be drawn on; fails, with nothing written, for
    /// any other.
    pub fn new(platform: Platform, size: TermSize, seed: u64) -> (result: Result<App, SizeError>)
        ensures
            match result {
                Ok(app) => size.valid() && app.wf() && app@ == AppModel::begun(
                    platform,
                    size,
                    seed,
                ),
                Err(e) => size.defect() == Some(e),
            },
    {
        let fg = ansi::init_colors(FG_KIND);
        let bg = ansi::init_colors(BG_KIND);
        let term_sz = match size.validate() {
            Ok(size) => size,
            Err(e) => {
                return Err(e);
            },
        };
        assert(seed | 1 != 0) by (bit_vector);
        let mut app = App {
            platform,
            term_sz,
            fg,
            bg,
            rng: Rng::seeded(seed),
            terminal_active: true,
            taken: false,
            signals: Signals::none(),
            stage: Stage::Ready,
            hold: Hold::Running,
            show: None,
            out: Vec::new(),
        };
        let on = ansi::term_on();
        app.emit(on.as_str());
        assert(app.out@ =~= text::utf8(ansi::screen_on()));
        match platform {
            Platform::Unix => {},
            Platform::Windows => {
                app.emit(CHAR_SET_ASCII);
            },
        }
        Ok(app)
    }

    /// Writes bytes.
    pub fn emit_bytes(&mut self, bytes: &[u8])
        ensures
            final(self)@ == (AppModel { out: old(self)@.out + bytes@, ..old(self)@ }),
            final(self).fg == old(self).fg,
            final(self).bg == old(self).bg,
    {
        text::push_bytes(&mut self.out, bytes);
    }

    /// Writes a text.
    pub fn emit(&mut self, s: &str)
        ensures
            final(self)@ == old(self)@.with_text(s@),
            final(self).fg == old(self).fg,
            final(self).bg == old(self).bg,
    {
        text::push_str(&mut self.out, s);
    }

    /// Writes a number.
    pub fn emit_decimal(&mut self, n: usize)
        ensures
            final(self)@ == old(self)@.with_text(text::decimal(n as nat)),
            final(self).fg == old(self).fg,
            final(self).bg == old(self).bg,
    {
        text::push_decimal(&mut self.out, n);
    }

    /// Writes a number, set to the right in a field.
    pub fn emit_padded(&mut self, n: usize, width: usize)
        ensures
            final(self)@ == old(self)@.with_text(text::padded(n as nat, width as nat)),
            final(self).fg == old(self).fg,
            final(self).bg == old(self).bg,
    {
        text::push_padded(&mut self.out, n, width);
    }

    /// Selects a foreground color.
    pub fn emit_fg(&mut self, idx: usize)
        requires
            old(self).colored(),
            idx < MAX_COLOR,
        ensures
            final(self)@ == old(self)@.with_text(ansi::fg_color(idx as nat)),
            final(self).fg == old(self).fg,
            final(self).bg == old(self).bg,
    {
        assert(ansi::texts(self.fg@).len() == self.fg@.len());
        assert(ansi::texts(self.fg@)[idx as int] == ansi::fg_color(idx as nat));
        text::push_str(&mut self.out, self.fg[idx].as_str());
    }

    /// Selects a background color.
    pub fn emit_bg(&mut self, idx: usize)
        requires
            old(self).colored(),
            idx < MAX_COLOR,
        ensures
            final(self)@ == old(self)@.with_text(ansi::bg_color(idx as nat)),
            final(self).fg == old(self).fg,
            final(self).bg == old(self).bg,
    {
        assert(ansi::texts(self.bg@).len() == self.bg@.len());
        assert(ansi::texts(self.bg@)[idx as int] == ansi::bg_color(idx as nat));
        text::push_str(&mut self.out, self.bg[idx].as_str());
    }

    /// Ends a line.
    pub fn emit_nl(&mut self)
        ensures
            final(self)@ == old(self)@.with_text(ansi::newline(old(self).platform)),
            final(self).fg == old(self).fg,
            final(self).bg == old(self).bg,
    {
        self.emit(ansi::nl(self.platform));
    }

    /// Gives the screen back, unless that was done before.
    pub fn complete(&mut self)
        ensures
            final(self)@ == old(self)@.completed(),
            final(self).fg == old(self).fg,
            final(self).bg == old(self).bg,
    {
        if self.terminal_active {
            let off = ansi::term_off();
            self.emit(off.as_str());
            self.terminal_active = false;
        }
    }

    /// Takes note of what signals ask for.
    pub fn note_signals(&mut self, signals: Signals)
        ensures
            final(self)@ == (AppModel {
                signals: old(self)@.signals.joined(signals),
                ..old(self)@
            }),
            final(self).fg == old(self).fg,
            final(self).bg == old(self).bg,
    {
        self.signals.join(signals);
    }

    /// Hands out what was written since it was last handed out, for the caller to write to the
    /// terminal.
    pub fn take_output(&mut self) -> (bytes: Vec<u8>)
        ensures
            bytes@ == old(self)@.out,
            final(self)@ == old(self)@.handed_out(),
            final(self).fg == old(self).fg,
            final(self).bg == old(self).bg,
    {
        let mut bytes: Vec<u8> = Vec::new();
        bytes.append(&mut self.out);
        assert(bytes@ =~= old(self)@.out);
        self.taken = self.taken || self.terminal_active;
        bytes
    }

    /// Takes note of whether what was handed out could be written. Where it could not, the screen
    /// still has to be given back.
    pub fn output_written(&mut self, ok: bool)
        ensures
            final(self)@ == old(self)@.written(ok),
            final(self).fg == old(self).fg,
            final(self).bg == old(self).bg,
    {
        if ok {
            self.taken = self.terminal_active;
        }
    }

    /// Whether paused output has to be resumed before what is to be handed out is written.
    pub fn resumes_output(&self) -> (yes: bool)
        ensures
            yes == self@.resumes_output(),
    {
        match self.platform {
            Platform::Unix => self.taken && !self.terminal_active,
            Platform::Windows => false,
        }
    }

    /// Ends the program, whatever it was doing. Says whether the screen is still to be given back;
    /// what does so is then all that is left to be handed out.
    pub fn restore(&mut self) -> (due: bool)
        ensures
            due == old(self)@.taken,
            final(self)@ == old(self)@.restored(),
            final(self).fg == old(self).fg,
            final(self).bg == old(self).bg,
    {
        if !self.taken {
            return false;
        }
        self.terminal_active = false;
        self.stage = Stage::Over;
        self.hold = Hold::Running;
        self.show = None;
        self.out.clear();
        let off = ansi::term_off();
        self.emit(off.as_str());
        assert(self.out@ =~= text::utf8(ansi::screen_off()));
        true
    }
}

/// Giving the screen back twice is the same as giving it back once.
pub proof fn law_screen_is_given_back_once(app: AppModel)
    ensures
        !app.completed().active,
        app.completed().completed() == app.completed(),
{
}

/// Once the program has the screen, it has to be given back until a write has done so. A write that
/// succeeds leaves nothing to do if it gave the screen back; after one that fails, the screen is
/// still to be given back, whatever was written.
pub proof fn law_written_output_decides(app: AppModel)
    ensures
        app.handed_out().written(true).taken == app.active,
        app.active || app.taken ==> app.handed_out().written(false).taken,
{
}

/// What gives the screen back in the end is exactly that, on Unix after paused output was resumed.
/// Once it is written, there is nothing more to write; where that fails, the same is tried again.
pub proof fn law_screen_is_restored_until_written(app: AppModel)
    requires
        app.taken,
    ensures
        ({
            let m = app.restored();
            let done = m.handed_out().written(true);
            let failed = m.handed_out().written(false);
            &&& m.out == text::utf8(ansi::screen_off())
            &&& m.resumes_output() <==> m.platform == Platform::Unix
            &&& !done.taken && done.restored() == done && done.out.len() == 0
            &&& failed.taken && failed.restored() == m
        }),
{
    let m = app.restored();
    assert(m.handed_out().written(false).restored() =~= m);
}

/// Paused output is resumed exactly where the next write gives back a screen that the terminal may
/// still show, and only on Unix.
pub proof fn law_output_is_resumed_for_the_giving_back(app: AppModel)
    ensures
        app.resumes_output() <==> app.platform == Platform::Unix && app.taken && !app.active,
        app.active && app.taken && app.platform == Platform::Unix ==> app.completed(
        ).resumes_output(),
{
}

} // verus!

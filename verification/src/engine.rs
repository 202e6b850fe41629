//! The animation engine: which character is shown at which tick, and the
//! frame that each tick sends to the strip.
//!
//! The engine never touches the hardware. Each tick it is handed the
//! foreground colour of the moment and hands back the frame to transmit.

use vstd::prelude::*;
use vstd::arithmetic::div_mod::{
    lemma_add_mod_noop,
    lemma_div_of0,
    lemma_fundamental_div_mod,
    lemma_fundamental_div_mod_converse,
    lemma_mod_add_multiples_vanish,
    lemma_mod_breakdown,
    lemma_mod_pos_bound,
    lemma_small_mod,
};
use crate::brightness::{scale_frame, scaled_frame, scaled_pixel};
use crate::font::font_rows;
use crate::pixel::{Pixel, STRIP_LEN};
use crate::raster::{cell_lit, painted, render_ascii};

verus! {

/// Ticks that a character stays on the matrix unless told otherwise.
pub const DEFAULT_DWELL_TICKS: usize = 30;

/// Brightness numerator unless told otherwise: one 256th of full power, so
/// that a fully lit matrix stays within what a USB supply delivers.
pub const DEFAULT_BRIGHTNESS: u8 = 1;

/// Milliseconds from one tick to the next.
pub const TICK_MILLIS: u32 = 16;

/// The index of the character shown at tick `iteration`, for a message of
/// `len` characters that each stay for `dwell_ticks` ticks.
pub open spec fn char_index_at(iteration: nat, dwell_ticks: nat, len: nat) -> nat {
    (iteration / dwell_ticks) % len
}

/// Tick `j` of character `k` in any pass through the message shows
/// character `k`: each pass takes `dwell_ticks * len` ticks and shows every
/// character once, in order, for `dwell_ticks` ticks.
pub proof fn lemma_char_index_in_pass(pass: nat, k: nat, j: nat, dwell_ticks: nat, len: nat)
    requires
        k < len,
        j < dwell_ticks,
    ensures
        char_index_at(pass * (dwell_ticks * len) + k * dwell_ticks + j, dwell_ticks, len) == k,
{
    let i = pass * (dwell_ticks * len) + k * dwell_ticks + j;
    let q = pass * len + k;
    assert(i == q * dwell_ticks + j) by (nonlinear_arith)
        requires
            i == pass * (dwell_ticks * len) + k * dwell_ticks + j,
            q == pass * len + k,
    ;
    lemma_fundamental_div_mod_converse(i as int, dwell_ticks as int, q as int, j as int);
    lemma_fundamental_div_mod_converse(q as int, len as int, pass as int, k as int);
}

/// The character index repeats with period `dwell_ticks * len`.
pub proof fn lemma_char_index_period(iteration: nat, dwell_ticks: nat, len: nat)
    requires
        dwell_ticks > 0,
        len > 0,
    ensures
        char_index_at(iteration + dwell_ticks * len, dwell_ticks, len) == char_index_at(
            iteration,
            dwell_ticks,
            len,
        ),
{
    let q = iteration / dwell_ticks;
    let r = iteration % dwell_ticks;
    lemma_fundamental_div_mod(iteration as int, dwell_ticks as int);
    lemma_mod_pos_bound(iteration as int, dwell_ticks as int);
    assert(iteration + dwell_ticks * len == (q + len) * dwell_ticks + r) by (nonlinear_arith)
        requires
            iteration == dwell_ticks * q + r,
    ;
    lemma_fundamental_div_mod_converse(
        (iteration + dwell_ticks * len) as int,
        dwell_ticks as int,
        (q + len) as int,
        r as int,
    );
    lemma_mod_add_multiples_vanish(q as int, len as int);
}

/// The index is 0 during the first `dwell_ticks` ticks of every stretch of
/// `dwell_ticks * len` ticks, and at no other tick.
pub proof fn lemma_char_index_zero(iteration: nat, dwell_ticks: nat, len: nat)
    requires
        dwell_ticks > 0,
        len > 0,
    ensures
        char_index_at(iteration, dwell_ticks, len) == 0 <==> iteration % (dwell_ticks * len)
            < dwell_ticks,
{
    let idx = char_index_at(iteration, dwell_ticks, len);
    lemma_mod_breakdown(iteration as int, dwell_ticks as int, len as int);
    lemma_mod_pos_bound(iteration as int, dwell_ticks as int);
    assert(idx > 0 ==> dwell_ticks * idx >= dwell_ticks) by (nonlinear_arith);
    assert(idx == 0 ==> dwell_ticks * idx == 0) by (nonlinear_arith);
}

/// From one tick to the next the index either stays or moves on by one,
/// wrapping at the end of the message; it moves exactly when the new tick
/// count is a multiple of `dwell_ticks`. No character is skipped.
pub proof fn lemma_char_index_step(iteration: nat, dwell_ticks: nat, len: nat)
    requires
        dwell_ticks > 0,
        len > 0,
    ensures
        char_index_at(iteration + 1, dwell_ticks, len) == (if (iteration + 1) % dwell_ticks == 0 {
            (char_index_at(iteration, dwell_ticks, len) + 1) % len
        } else {
            char_index_at(iteration, dwell_ticks, len)
        }),
{
    let q = iteration / dwell_ticks;
    let r = iteration % dwell_ticks;
    lemma_fundamental_div_mod(iteration as int, dwell_ticks as int);
    lemma_mod_pos_bound(iteration as int, dwell_ticks as int);
    if r + 1 < dwell_ticks {
        assert(iteration + 1 == q * dwell_ticks + (r + 1)) by (nonlinear_arith)
            requires
                iteration == dwell_ticks * q + r,
        ;
        lemma_fundamental_div_mod_converse(
            (iteration + 1) as int,
            dwell_ticks as int,
            q as int,
            (r + 1) as int,
        );
    } else {
        assert(iteration + 1 == (q + 1) * dwell_ticks + 0) by (nonlinear_arith)
            requires
                iteration == dwell_ticks * q + r,
                r + 1 == dwell_ticks,
        ;
        lemma_fundamental_div_mod_converse(
            (iteration + 1) as int,
            dwell_ticks as int,
            (q + 1) as int,
            0,
        );
        lemma_add_mod_noop(q as int, 1, len as int);
        if len == 1 {
            assert((q % len + 1) % len == 0 && (q + 1) % len == 0);
        } else {
            lemma_small_mod(1, len);
        }
    }
}

/// Computes the index of the character shown at tick `iteration`.
pub fn char_index(iteration: usize, dwell_ticks: usize, message_len: usize) -> (index: usize)
    requires
        dwell_ticks > 0,
        message_len > 0,
    ensures
        index == char_index_at(iteration as nat, dwell_ticks as nat, message_len as nat),
        index < message_len,
{
    iteration / dwell_ticks % message_len
}

/// What an [`Animation`] holds, as plain mathematical values.
pub struct AnimationView {
    /// The text that scrolls by, one character at a time.
    pub message: Seq<u8>,
    /// Ticks that each character stays on the matrix.
    pub dwell_ticks: nat,
    /// Numerator, over 256, that every emitted channel is scaled by.
    pub brightness: u8,
    /// Ticks since the start, counted in a machine word.
    pub iteration: nat,
    /// Index into `message` of the character on show.
    pub char_index: nat,
    /// The strip as last painted, before brightness scaling.
    pub frame: Seq<Pixel>,
}

/// The colour that the strip is filled with before the first tick paints it.
pub open spec fn standby_colour() -> Pixel {
    Pixel { r: 0, g: 128, b: 0 }
}

impl AnimationView {
    /// A state is well formed when it has something to show and
    /// `char_index` is the index that belongs to `iteration`.
    pub open spec fn wf(self) -> bool {
        &&& self.message.len() > 0
        &&& 0 < self.dwell_ticks <= usize::MAX
        &&& self.iteration <= usize::MAX
        &&& self.char_index == char_index_at(self.iteration, self.dwell_ticks, self.message.len())
        &&& self.frame.len() == STRIP_LEN
    }

    /// The state before the first tick.
    pub open spec fn initial(message: Seq<u8>, dwell_ticks: nat, brightness: u8) -> AnimationView {
        AnimationView {
            message,
            dwell_ticks,
            brightness,
            iteration: 0,
            char_index: 0,
            frame: Seq::new(STRIP_LEN as nat, |i: int| standby_colour()),
        }
    }

    /// The character on show.
    pub open spec fn symbol(self) -> u8 {
        self.message[self.char_index as int]
    }

    /// The strip once the character on show is painted in `fg` on black.
    pub open spec fn composed(self, fg: Pixel) -> Seq<Pixel> {
        painted(self.frame, font_rows(self.symbol()), fg, Some(Pixel::dark()))
    }

    /// The frame that a tick with foreground `fg` sends out: the composed
    /// strip, scaled down to the configured brightness.
    pub open spec fn emitted(self, fg: Pixel) -> Seq<Pixel> {
        scaled_frame(self.composed(fg), self.brightness)
    }

    /// The tick count after this one. The counter is a machine word and
    /// starts over at 0 after its largest value.
    pub open spec fn next_iteration(self) -> nat {
        if self.iteration >= usize::MAX {
            0
        } else {
            self.iteration + 1
        }
    }

    /// The state with the tick counted and the character index brought up
    /// to date.
    pub open spec fn advanced(self) -> AnimationView {
        AnimationView {
            iteration: self.next_iteration(),
            char_index: char_index_at(self.next_iteration(), self.dwell_ticks, self.message.len()),
            ..self
        }
    }

    /// The state after a whole tick with foreground `fg`.
    pub open spec fn ticked(self, fg: Pixel) -> AnimationView {
        AnimationView { frame: self.composed(fg), ..self.advanced() }
    }
}

/// An emitted frame shows the character in the scaled foreground colour and
/// is dark everywhere else, whatever the strip held before.
pub proof fn lemma_emitted_cells(state: AnimationView, fg: Pixel, i: int)
    requires
        state.wf(),
        0 <= i < STRIP_LEN,
    ensures
        state.emitted(fg).len() == STRIP_LEN,
        state.emitted(fg)[i] == (if cell_lit(font_rows(state.symbol()), i) {
            scaled_pixel(fg, state.brightness)
        } else {
            Pixel::dark()
        }),
{
    assert(0int * state.brightness as int / 256 == 0);
}

/// Counting a tick never skips a character. While the counter has room, the
/// index stays where it is or moves on by one, wrapping at the end of the
/// message, and it moves exactly when the new count is a multiple of the
/// dwell time. When the counter is at its largest value, it starts over and
/// the message starts again from its first character.
pub proof fn lemma_advanced_char_index(state: AnimationView)
    requires
        state.wf(),
    ensures
        state.advanced().wf(),
        state.iteration < usize::MAX ==> state.advanced().iteration == state.iteration + 1,
        state.iteration < usize::MAX ==> state.advanced().char_index == (if (state.iteration + 1)
            % state.dwell_ticks == 0 {
            (state.char_index + 1) % state.message.len()
        } else {
            state.char_index
        }),
        state.iteration == usize::MAX ==> state.advanced().iteration == 0,
        state.iteration == usize::MAX ==> state.advanced().char_index == 0,
{
    lemma_char_index_step(state.iteration, state.dwell_ticks, state.message.len());
    lemma_div_of0(state.dwell_ticks as int);
    lemma_small_mod(0, state.message.len());
}

/// The scrolling-text animation: its settings, its tick counter and the
/// strip it paints.
pub struct Animation<'a> {
    message: &'a [u8],
    dwell_ticks: usize,
    brightness: u8,
    iteration: usize,
    char_index: usize,
    frame: [Pixel; STRIP_LEN],
}

impl<'a> View for Animation<'a> {
    type V = AnimationView;

    closed spec fn view(&self) -> AnimationView {
        AnimationView {
            message: self.message@,
            dwell_ticks: self.dwell_ticks as nat,
            brightness: self.brightness,
            iteration: self.iteration as nat,
            char_index: self.char_index as nat,
            frame: self.frame@,
        }
    }
}

impl<'a> Animation<'a> {
    /// Whether the state is well formed. Every state that this module hands
    /// out is.
    pub open spec fn wf(&self) -> bool {
        self@.wf()
    }

    /// Starts an animation of `message` at its first character.
    ///
    /// `brightness` is the numerator, over 256, that emitted frames are
    /// scaled by.
    pub fn new(message: &'a [u8], dwell_ticks: usize, brightness: u8) -> (anim: Self)
        requires
            message@.len() > 0,
            dwell_ticks > 0,
        ensures
            anim.wf(),
            anim@ == AnimationView::initial(message@, dwell_ticks as nat, brightness),
    {
        let standby = Pixel::new(0, 128, 0);
        let anim = Animation {
            message,
            dwell_ticks,
            brightness,
            iteration: 0,
            char_index: 0,
            frame: [standby;STRIP_LEN],
        };
        proof {
            lemma_div_of0(dwell_ticks as int);
            lemma_small_mod(0, message@.len());
            assert(anim@.frame =~= AnimationView::initial(
                message@,
                dwell_ticks as nat,
                brightness,
            ).frame);
        }
        anim
    }

    /// Ticks counted so far.
    pub fn iteration(&self) -> (n: usize)
        ensures
            n == self@.iteration,
    {
        self.iteration
    }

    /// Index into the message of the character on show.
    pub fn char_index(&self) -> (index: usize)
        ensures
            index == self@.char_index,
    {
        self.char_index
    }

    /// The character on show.
    pub fn current_symbol(&self) -> (symbol: u8)
        requires
            self.wf(),
        ensures
            symbol == self@.symbol(),
    {
        self.message[self.char_index]
    }

    /// The text that scrolls by.
    pub fn message(&self) -> (message: &'a [u8])
        ensures
            message@ == self@.message,
    {
        self.message
    }

    /// Ticks that each character stays on the matrix.
    pub fn dwell_ticks(&self) -> (ticks: usize)
        ensures
            ticks == self@.dwell_ticks,
    {
        self.dwell_ticks
    }

    /// Numerator, over 256, that emitted frames are scaled by.
    pub fn brightness(&self) -> (numerator: u8)
        ensures
            numerator == self@.brightness,
    {
        self.brightness
    }

    /// The strip as last painted, before brightness scaling.
    pub fn frame(&self) -> (frame: &[Pixel; STRIP_LEN])
        ensures
            frame@ == self@.frame,
    {
        &self.frame
    }

    /// Paints the character on show onto the strip, in `fg` on black.
    pub fn compose(&mut self, fg: Pixel)
        requires
            old(self).wf(),
        ensures
            final(self).wf(),
            final(self)@ == (AnimationView { frame: old(self)@.composed(fg), ..old(self)@ }),
    {
        let symbol = self.message[self.char_index];
        render_ascii(&mut self.frame, symbol, fg, Some(Pixel::black()));
    }

    /// Counts the tick and moves on to the character that belongs to the
    /// new count.
    pub fn advance(&mut self)
        requires
            old(self).wf(),
        ensures
            final(self).wf(),
            final(self)@ == old(self)@.advanced(),
    {
        self.iteration = self.iteration.wrapping_add(1);
        self.char_index = char_index(self.iteration, self.dwell_ticks, self.message.len());
    }

    /// Runs one tick: paints the character on show in `fg`, scales the strip
    /// to the configured brightness for sending, and advances the state.
    ///
    /// Returns the frame to send to the strip.
    pub fn tick(&mut self, fg: Pixel) -> (emitted: [Pixel; STRIP_LEN])
        requires
            old(self).wf(),
        ensures
            final(self).wf(),
            final(self)@ == old(self)@.ticked(fg),
            emitted@ == old(self)@.emitted(fg),
    {
        self.compose(fg);
        let emitted = scale_frame(&self.frame, self.brightness);
        self.advance();
        emitted
    }
}

} // verus!

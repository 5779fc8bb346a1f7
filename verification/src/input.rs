//! The input state machine: a raw key code is classified into an intent,
//! and the intent mutates the shared render/timing state.

use vstd::prelude::*;

verus! {

/// Key code reported for an up arrow.
pub const ARROW_UP: i32 = 65;

/// Key code reported for a down arrow.
pub const ARROW_DOWN: i32 = 66;

/// The closed set of intents a keypress can carry.
#[derive(Debug, PartialEq, Eq, Structural, Clone, Copy)]
pub enum InputType {
    Quit,
    Continue,
    IncreaseTimeout,
    DecreaseTimeout,
    Up,
    Down,
}

/// The intent of a raw key code: arrows and `j`/`k` navigate, and the
/// remaining keys are read by their low byte, `q` to quit and `a`/`s` to
/// adjust the timeout; everything else continues unchanged.
pub open spec fn spec_classify(c: i32) -> InputType {
    if c == ARROW_DOWN || c == 'j' as i32 {
        InputType::Down
    } else if c == ARROW_UP || c == 'k' as i32 {
        InputType::Up
    } else if c & 0xff == 'q' as i32 {
        InputType::Quit
    } else if c & 0xff == 'a' as i32 {
        InputType::IncreaseTimeout
    } else if c & 0xff == 's' as i32 {
        InputType::DecreaseTimeout
    } else {
        InputType::Continue
    }
}

/// A timeout one step higher: 10 ms more, clamped at 1000 ms.
pub open spec fn spec_increase_timeout(t: int) -> int {
    if t > 990 {
        1000
    } else {
        t + 10
    }
}

/// A timeout one step lower: 10 ms less, clamped at the 10 ms floor.
pub open spec fn spec_decrease_timeout(t: int) -> int {
    if t < 20 {
        10
    } else {
        t - 10
    }
}

/// A requested timeout forced into `[10, 1000]` and rounded down to a
/// multiple of 10.
pub open spec fn spec_clamp_timeout(t: int) -> int {
    if t < 10 {
        10
    } else if t > 1000 {
        1000
    } else {
        (t / 10) * 10
    }
}

/// What an intent does to the timeout: increase and decrease move it one
/// clamped step; every other intent leaves it alone.
pub open spec fn spec_apply_timeout(input: InputType, t: int) -> int {
    match input {
        InputType::IncreaseTimeout => spec_increase_timeout(t),
        InputType::DecreaseTimeout => spec_decrease_timeout(t),
        _ => t,
    }
}

/// Repeated timeout increases approach 1000 ms monotonically and never
/// exceed it; repeated decreases approach the 10 ms floor monotonically
/// and never drop below it; both keep the timeout a multiple of 10.
pub proof fn lemma_timeout_clamping(t: int)
    ensures
        spec_increase_timeout(t) <= 1000,
        t <= 1000 ==> t <= spec_increase_timeout(t),
        spec_decrease_timeout(t) >= 10,
        t >= 10 ==> spec_decrease_timeout(t) <= t,
        t % 10 == 0 ==> spec_increase_timeout(t) % 10 == 0 && spec_decrease_timeout(t) % 10 == 0,
{
}

/// The mutable simulation parameters: the keyboard-poll timeout in
/// milliseconds and the character drawn for a live cell.
pub struct State {
    pub timeout: i32,
    pub draw_char: char,
}

impl State {
    pub fn new(timeout: i32, draw_char: char) -> (s: State)
        ensures
            s.timeout == timeout,
            s.draw_char == draw_char,
    {
        State { timeout, draw_char }
    }

    pub fn get_timeout(&self) -> (t: i32)
        ensures
            t == self.timeout,
    {
        self.timeout
    }

    pub fn get_draw_char(&self) -> (c: char)
        ensures
            c == self.draw_char,
    {
        self.draw_char
    }

    pub fn set_timeout(&mut self, timeout: i32)
        ensures
            final(self).timeout == timeout,
            final(self).draw_char == old(self).draw_char,
    {
        self.timeout = timeout;
    }

    pub fn set_draw_char(&mut self, draw_char: char)
        ensures
            final(self).draw_char == draw_char,
            final(self).timeout == old(self).timeout,
    {
        self.draw_char = draw_char;
    }
}

/// Forces a requested timeout into `[10, 1000]` as a multiple of 10.
pub fn clamp_timeout(t: i32) -> (r: i32)
    ensures
        r == spec_clamp_timeout(t as int),
        10 <= r <= 1000,
        r % 10 == 0,
{
    if t < 10 {
        10
    } else if t > 1000 {
        1000
    } else {
        proof {
            assert(10 <= (t as int / 10) * 10 <= 1000 && ((t as int / 10) * 10) % 10 == 0)
                by (nonlinear_arith)
                requires
                    10 <= t <= 1000,
            ;
        }
        (t / 10) * 10
    }
}

/// Classifies raw key codes into intents and applies their effect on the
/// shared state.
pub struct InputHandler {
    pub input: InputType,
}

impl InputHandler {
    pub fn new() -> (h: InputHandler)
        ensures
            h.input == InputType::Continue,
    {
        InputHandler { input: InputType::Continue }
    }

    /// Classifies the key code `c`, remembers the intent, and applies the
    /// timeout effect it carries; the caller must hand the new timeout to
    /// its next keyboard poll.
    pub fn handle_input(&mut self, c: i32, state: &mut State) -> (input: InputType)
        ensures
            input == spec_classify(c),
            final(self).input == input,
            final(state).draw_char == old(state).draw_char,
            final(state).timeout == spec_apply_timeout(input, old(state).timeout as int),
    {
        let input = if c == ARROW_DOWN || c == 'j' as i32 {
            InputType::Down
        } else if c == ARROW_UP || c == 'k' as i32 {
            InputType::Up
        } else if c & 0xff == 'q' as i32 {
            InputType::Quit
        } else if c & 0xff == 'a' as i32 {
            InputType::IncreaseTimeout
        } else if c & 0xff == 's' as i32 {
            InputType::DecreaseTimeout
        } else {
            InputType::Continue
        };
        self.input = input;
        match input {
            InputType::IncreaseTimeout => {
                if state.timeout > 990 {
                    state.timeout = 1000;
                } else {
                    state.timeout = state.timeout + 10;
                }
            },
            InputType::DecreaseTimeout => {
                if state.timeout < 20 {
                    state.timeout = 10;
                } else {
                    state.timeout = state.timeout - 10;
                }
            },
            _ => {},
        }
        input
    }
}

} // verus!

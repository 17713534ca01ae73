//! The few texts of a player's screen that depend on the state of the
//! session.

use vstd::prelude::*;

verus! {

/// The animation state of the text shown while a player waits for an
/// opponent: how many dots the text ended with last.
pub struct WaitingText {
    pub state: u8,
}

/// The label on a player's screen that says whose turn it is.
pub struct TurnIndicator;

/// A row of `n` dots.
pub open spec fn dots(n: nat) -> Seq<char> {
    Seq::new(n, |i: int| '.')
}

/// The number of dots after a given number: one more, and after three, none.
pub open spec fn next_dots(state: u8) -> u8 {
    if state + 1 > 2 {
        0
    } else {
        (state + 1) as u8
    }
}

/// Advances the waiting text by one beat: the text is "Waiting for
/// Opponent" with one dot more than last time, and after three dots the
/// count starts over.
pub fn update_waiting_text(waiting_text: &mut WaitingText) -> (text: String)
    requires
        old(waiting_text).state < u8::MAX,
    ensures
        text@ == "Waiting for Opponent"@ + dots((old(waiting_text).state + 1) as nat),
        final(waiting_text).state == next_dots(old(waiting_text).state),
{
    waiting_text.state = waiting_text.state + 1;
    let mut text: String = "Waiting for Opponent".to_owned();
    let mut i: u8 = 0;
    assert(text@ =~= "Waiting for Opponent"@ + dots(0));
    while i < waiting_text.state
        invariant
            i <= waiting_text.state,
            text@ == "Waiting for Opponent"@ + dots(i as nat),
        decreases waiting_text.state - i,
    {
        proof {
            reveal_strlit(".");
        }
        text.append(".");
        i = i + 1;
        assert(text@ =~= "Waiting for Opponent"@ + dots(i as nat));
    }
    if waiting_text.state > 2 {
        waiting_text.state = 0;
    }
    text
}

impl TurnIndicator {
    /// The label's text: whether it is the player's own turn or the
    /// opponent's.
    pub fn label(is_self_turn: bool) -> (text: &'static str)
        ensures
            is_self_turn ==> text@ == "Your Turn"@,
            !is_self_turn ==> text@ == "Opponent's Turn"@,
    {
        if is_self_turn {
            "Your Turn"
        } else {
            "Opponent's Turn"
        }
    }
}

} // verus!

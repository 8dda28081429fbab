//! What the host wrapper reports when a tick fails.
use vstd::prelude::*;

verus! {

/// A failure that ended a tick early.
pub struct TickFailure {
    pub description: String,
    /// The underlying cause, where there is one.
    pub cause: Option<String>,
}

/// The warning lines to log for a tick's outcome: none for a tick that
/// completed; for a failed one its description, then `cause: ` and the cause
/// where there is one.
pub fn game_loop_catch(outcome: Result<(), TickFailure>) -> (lines: Vec<String>)
    ensures
        match outcome {
            Ok(()) => lines@.len() == 0,
            Err(f) => match f.cause {
                None => lines@.len() == 1 && lines@[0]@ == f.description@,
                Some(c) => lines@.len() == 2 && lines@[0]@ == f.description@
                    && lines@[1]@ == seq!['c', 'a', 'u', 's', 'e', ':', ' '] + c@,
            },
        },
{
    let mut lines: Vec<String> = Vec::new();
    match outcome {
        Ok(()) => {},
        Err(f) => {
            lines.push(f.description);
            match f.cause {
                Some(c) => {
                    let mut line = String::from_str("cause: ");
                    proof { reveal_strlit("cause: "); }
                    line.append(c.as_str());
                    lines.push(line);
                },
                None => {},
            }
        },
    }
    lines
}

} // verus!

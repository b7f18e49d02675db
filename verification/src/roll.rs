//! The roll of a die with as many faces as the requester likes.

use rand::Rng;
use vstd::prelude::*;
use vstd::string::StringExecFns;
use crate::commands::{CommandKind, SlashCommand};
use crate::text::{append_decimal, decimal};

verus! {

/// Rolls a number.
pub struct Roll;

impl SlashCommand for Roll {
    open spec fn which() -> CommandKind {
        CommandKind::Roll
    }

    fn kind() -> CommandKind {
        CommandKind::Roll
    }
}

/// The number of faces: rolls come out below it.
#[derive(Clone, Copy, Debug, PartialEq, Eq, Structural)]
pub struct RollArgs {
    pub limit: u64,
}

/// The limit that an optional whole number asks for: a hundred where none
/// is given, zero where it is negative.
pub open spec fn limit_of(given: Option<i64>) -> u64 {
    match given {
        None => 100,
        Some(v) => if v < 0 {
            0
        } else {
            v as u64
        },
    }
}

impl RollArgs {
    /// Reads the optional limit of a roll command.
    pub fn parse_options(given: Option<i64>) -> (args: RollArgs)
        ensures
            args.limit == limit_of(given),
    {
        match given {
            None => RollArgs { limit: 100 },
            Some(v) => if v < 0 {
                RollArgs { limit: 0 }
            } else {
                RollArgs { limit: v as u64 }
            },
        }
    }
}

/// What the requester reads after rolling `rolled`.
pub open spec fn roll_text(rolled: u64) -> Seq<char> {
    "You rolled "@ + decimal(rolled as nat) + "! :game_die:"@
}

/// Calls `gen_range` of the `rand` crate on the thread's generator with the
/// range from zero up to, not including, `limit`. The call panics on an
/// empty range, hence the demand on `limit`. Of the outcome only its range
/// is claimed: it is at least zero and below `limit`.
#[verifier::external_body]
fn pick_below(limit: u64) -> (rolled: u64)
    requires
        limit > 0,
    ensures
        rolled < limit,
{
    rand::thread_rng().gen_range(0..limit)
}

/// Announces a roll.
pub fn roll_message(rolled: u64) -> (text: String)
    ensures
        text@ == roll_text(rolled),
{
    let mut text = String::from_str("You rolled ");
    append_decimal(&mut text, rolled);
    text.append("! :game_die:");
    text
}

/// Rolls a number below the limit and announces it. With a limit of zero
/// there is nothing to roll.
pub fn roll(args: RollArgs) -> (text: Option<String>)
    ensures
        args.limit == 0 <==> text is None,
        text is Some ==> exists|rolled: u64|
            rolled < args.limit && text.unwrap()@ == roll_text(rolled),
{
    if args.limit == 0 {
        None
    } else {
        let rolled = pick_below(args.limit);
        Some(roll_message(rolled))
    }
}

} // verus!

//! The words in which the requester is answered.

use vstd::prelude::*;
use vstd::string::StringExecFns;
use crate::admission::AdmissionError;
use crate::digits::{digits_of, DigitIter};
use crate::protocol::{Announcement, CommandError};
use crate::track::{label_of, VolumeLevel};

verus! {

/// The character for one decimal digit.
pub open spec fn digit_char(digit: u32) -> char {
    if digit == 0 {
        '0'
    } else if digit == 1 {
        '1'
    } else if digit == 2 {
        '2'
    } else if digit == 3 {
        '3'
    } else if digit == 4 {
        '4'
    } else if digit == 5 {
        '5'
    } else if digit == 6 {
        '6'
    } else if digit == 7 {
        '7'
    } else if digit == 8 {
        '8'
    } else {
        '9'
    }
}

/// A row of digits as characters.
pub open spec fn numeral(digits: Seq<u32>) -> Seq<char> {
    Seq::new(digits.len(), |i: int| digit_char(digits[i]))
}

/// A number in decimal.
pub open spec fn decimal(n: nat) -> Seq<char> {
    numeral(digits_of(n))
}

/// The digits behind the point for a number of thousandths below one,
/// without trailing zeros.
pub open spec fn fraction_digits(thousandths: nat) -> Seq<u32> {
    let hundreds = (thousandths / 100) as u32;
    let tens = ((thousandths / 10) % 10) as u32;
    let ones = (thousandths % 10) as u32;
    if tens == 0 && ones == 0 {
        seq![hundreds]
    } else if ones == 0 {
        seq![hundreds, tens]
    } else {
        seq![hundreds, tens, ones]
    }
}

/// A volume as a decimal number: the whole part, and behind a point the
/// thousandths, as far as they are not zero.
pub open spec fn volume_text(volume: VolumeLevel) -> Seq<char> {
    if volume.millis % 1000 == 0 {
        decimal((volume.millis / 1000) as nat)
    } else {
        decimal((volume.millis / 1000) as nat) + "."@ + numeral(
            fraction_digits((volume.millis % 1000) as nat),
        )
    }
}

/// What the requester reads when the operation was carried out.
pub open spec fn announcement_text(a: Announcement) -> Seq<char> {
    match a {
        Announcement::Started(metadata) => "Started playing "@ + label_of(metadata),
        Announcement::Queued(metadata) => "Added "@ + label_of(metadata) + " to the queue"@,
        Announcement::StartedSaying(metadata) => "Started saying "@ + label_of(metadata),
        Announcement::QueuedSpeech(metadata) => "Added TTS "@ + label_of(metadata)
            + " to the queue"@,
        Announcement::Paused => "Paused the current song!"@,
        Announcement::Resumed => "Resumed the current song!"@,
        Announcement::Skipped { count } => "Skipped "@ + decimal(count as nat) + (if count == 1 {
            " song!"@
        } else {
            " songs!"@
        }),
        Announcement::Stopped => "Stopped playing music!"@,
        Announcement::Cleared => "Cleared song queue!"@,
        Announcement::VolumeChanged(volume) => "Changed volume to "@ + volume_text(volume) + "!"@,
        Announcement::Connected => "Joined your voice channel!"@,
    }
}

/// What the requester reads when it was not. A guild without a session and
/// a session with an empty queue read the same: nothing plays.
pub open spec fn error_text(e: CommandError) -> Seq<char> {
    match e {
        CommandError::ZeroSkip => "Stop trying to break the bot."@,
        CommandError::NegativeVolume => "The volume can't be negative!"@,
        CommandError::Admission(AdmissionError::NotInVoiceChannel) => "You aren't in a voice channel!"@,
        CommandError::Admission(AdmissionError::DifferentChannel) => "You aren't in the same voice channel as me!"@,
        CommandError::NoActiveSession => "No song is currently playing!"@,
        CommandError::QueueEmpty => "No song is currently playing!"@,
        CommandError::JoinFailed => "Failed to join voice channel! Blame Joshi :c"@,
        CommandError::SkipFailed { .. } => "Failed to skip all of the songs! Blame Joshi :c"@,
        CommandError::ClearFailed => "Failed to clear the whole queue! Blame Joshi :c"@,
        CommandError::PauseFailed => "Failed to pause the song! Blame Joshi :c"@,
        CommandError::ResumeFailed => "Failed to resume the song! Blame Joshi :c"@,
        CommandError::TrackFailed => "Something went wrong, blame bade"@,
    }
}

/// The character for one decimal digit, as a text of its own.
fn digit_text(digit: u32) -> (s: &'static str)
    ensures
        s@ == seq![digit_char(digit)],
{
    proof {
        reveal_strlit("0");
        reveal_strlit("1");
        reveal_strlit("2");
        reveal_strlit("3");
        reveal_strlit("4");
        reveal_strlit("5");
        reveal_strlit("6");
        reveal_strlit("7");
        reveal_strlit("8");
        reveal_strlit("9");
    }
    let s = match digit {
        0 => "0",
        1 => "1",
        2 => "2",
        3 => "3",
        4 => "4",
        5 => "5",
        6 => "6",
        7 => "7",
        8 => "8",
        _ => "9",
    };
    assert(s@ =~= seq![digit_char(digit)]);
    s
}

/// Writes `n` in decimal behind `text`.
pub fn append_decimal(text: &mut String, n: u64)
    ensures
        final(text)@ == old(text)@ + decimal(n as nat),
{
    let mut rest = DigitIter::new(n);
    let ghost all = rest@;
    let ghost start = text@;
    let ghost done: int = 0;
    loop
        invariant
            0 <= done <= all.len(),
            rest@ == all.skip(done),
            text@ == start + numeral(all.take(done)),
        ensures
            text@ == start + numeral(all),
        decreases rest@.len(),
    {
        match rest.next() {
            Some(digit) => {
                text.append(digit_text(digit));
                proof {
                    assert(digit == all[done]);
                    assert(all.skip(done).skip(1) =~= all.skip(done + 1));
                    assert(numeral(all.take(done)) + seq![digit_char(digit)] =~= numeral(
                        all.take(done + 1),
                    ));
                    assert(text@ =~= start + numeral(all.take(done + 1)));
                    done = done + 1;
                }
            },
            None => {
                assert(all.take(done) =~= all);
                break ;
            },
        }
    }
}

/// Writes the digits behind the point for `part` thousandths behind `text`.
fn append_fraction(text: &mut String, part: u64)
    requires
        part < 1000,
    ensures
        final(text)@ == old(text)@ + numeral(fraction_digits(part as nat)),
{
    let hundreds: u32 = (part / 100) as u32;
    let tens: u32 = ((part / 10) % 10) as u32;
    let ones: u32 = (part % 10) as u32;
    text.append(digit_text(hundreds));
    if tens == 0 && ones == 0 {
        assert(numeral(seq![hundreds]) =~= seq![digit_char(hundreds)]);
    } else if ones == 0 {
        text.append(digit_text(tens));
        assert(numeral(seq![hundreds, tens]) =~= seq![digit_char(hundreds)] + seq![
            digit_char(tens),
        ]);
        assert(text@ =~= old(text)@ + numeral(seq![hundreds, tens]));
    } else {
        text.append(digit_text(tens));
        text.append(digit_text(ones));
        assert(numeral(seq![hundreds, tens, ones]) =~= seq![digit_char(hundreds)] + seq![
            digit_char(tens),
        ] + seq![digit_char(ones)]);
        assert(text@ =~= old(text)@ + numeral(seq![hundreds, tens, ones]));
    }
}

/// Writes a volume behind `text`.
pub fn append_volume(text: &mut String, volume: VolumeLevel)
    ensures
        final(text)@ == old(text)@ + volume_text(volume),
{
    let whole: u64 = volume.millis / 1000;
    let part: u64 = volume.millis % 1000;
    append_decimal(text, whole);
    if part != 0 {
        text.append(".");
        append_fraction(text, part);
        assert(text@ =~= old(text)@ + volume_text(volume));
    }
}

impl Announcement {
    /// The announcement in words.
    pub fn text(&self) -> (s: String)
        ensures
            s@ == announcement_text(*self),
    {
        match self {
            Announcement::Started(metadata) => {
                let mut s = String::from_str("Started playing ");
                let label = metadata.label();
                s.append(label.as_str());
                s
            },
            Announcement::Queued(metadata) => {
                let mut s = String::from_str("Added ");
                let label = metadata.label();
                s.append(label.as_str());
                s.append(" to the queue");
                s
            },
            Announcement::StartedSaying(metadata) => {
                let mut s = String::from_str("Started saying ");
                let label = metadata.label();
                s.append(label.as_str());
                s
            },
            Announcement::QueuedSpeech(metadata) => {
                let mut s = String::from_str("Added TTS ");
                let label = metadata.label();
                s.append(label.as_str());
                s.append(" to the queue");
                s
            },
            Announcement::Paused => String::from_str("Paused the current song!"),
            Announcement::Resumed => String::from_str("Resumed the current song!"),
            Announcement::Skipped { count } => {
                let mut s = String::from_str("Skipped ");
                append_decimal(&mut s, *count as u64);
                if *count == 1 {
                    s.append(" song!");
                } else {
                    s.append(" songs!");
                }
                s
            },
            Announcement::Connected => String::from_str("Joined your voice channel!"),
            Announcement::Stopped => String::from_str("Stopped playing music!"),
            Announcement::Cleared => String::from_str("Cleared song queue!"),
            Announcement::VolumeChanged(volume) => {
                let mut s = String::from_str("Changed volume to ");
                append_volume(&mut s, *volume);
                s.append("!");
                s
            },
        }
    }
}

impl CommandError {
    /// The refusal or failure in words.
    pub fn text(&self) -> (s: String)
        ensures
            s@ == error_text(*self),
    {
        match self {
            CommandError::ZeroSkip => String::from_str("Stop trying to break the bot."),
            CommandError::NegativeVolume => String::from_str("The volume can't be negative!"),
            CommandError::Admission(AdmissionError::NotInVoiceChannel) => String::from_str(
                "You aren't in a voice channel!",
            ),
            CommandError::Admission(AdmissionError::DifferentChannel) => String::from_str(
                "You aren't in the same voice channel as me!",
            ),
            CommandError::NoActiveSession => String::from_str("No song is currently playing!"),
            CommandError::QueueEmpty => String::from_str("No song is currently playing!"),
            CommandError::JoinFailed => String::from_str(
                "Failed to join voice channel! Blame Joshi :c",
            ),
            CommandError::SkipFailed { .. } => String::from_str(
                "Failed to skip all of the songs! Blame Joshi :c",
            ),
            CommandError::ClearFailed => String::from_str(
                "Failed to clear the whole queue! Blame Joshi :c",
            ),
            CommandError::PauseFailed => String::from_str("Failed to pause the song! Blame Joshi :c"),
            CommandError::ResumeFailed => String::from_str(
                "Failed to resume the song! Blame Joshi :c",
            ),
            CommandError::TrackFailed => String::from_str("Something went wrong, blame bade"),
        }
    }
}

} // verus!

//! The command-line surface, and the choice of operating mode from what was
//! given on the command line.

use vstd::prelude::*;
use crate::text::same_text;
use crate::failure::Failure;

verus! {

/// One argument of a subcommand.
pub struct ArgSpec {
    pub name: &'static str,
    pub help: &'static str,
    /// Whether the argument stores the value it is given.
    pub stores_value: bool,
    /// How many values the argument takes.
    pub num_args: usize,
}

/// One subcommand, reachable by name, by short flag and by long flag.
pub struct SubcommandSpec {
    pub name: &'static str,
    pub short_flag: char,
    pub long_flag: &'static str,
    pub about: &'static str,
    pub args: Vec<ArgSpec>,
}

/// The whole command-line surface.
pub struct CommandSpec {
    pub name: &'static str,
    pub subcommands: Vec<SubcommandSpec>,
}

/// The operating mode of one run.
pub enum Mode {
    /// Capture credentials from the first device that discovery yields.
    Discover,
    /// Play one media item with the persisted credentials.
    Play { media: String },
}

/// Describes the command line: the program `spotipy` with the subcommand
/// `discover`, which takes nothing, and the subcommand `play`, which takes
/// the one value `track`.
pub fn cli() -> (c: CommandSpec)
    ensures
        c.name@ == "spotipy"@,
        c.subcommands@.len() == 2,
        c.subcommands@[0].name@ == "discover"@,
        c.subcommands@[0].short_flag == 'D',
        c.subcommands@[0].long_flag@ == "discover"@,
        c.subcommands@[0].about@
            == "Use zeroconf to discover a spotify instance, fetch the credentials and save them"@,
        c.subcommands@[0].args@.len() == 0,
        c.subcommands@[1].name@ == "play"@,
        c.subcommands@[1].short_flag == 'P',
        c.subcommands@[1].long_flag@ == "play"@,
        c.subcommands@[1].about@
            == "Play a track using the track_id of spotify for example: spotify:track:76K8P2HwfKq8gPxOWoBQkG"@,
        c.subcommands@[1].args@.len() == 1,
        c.subcommands@[1].args@[0].name@ == "track"@,
        c.subcommands@[1].args@[0].help@ == "track"@,
        c.subcommands@[1].args@[0].stores_value,
        c.subcommands@[1].args@[0].num_args == 1,
{
    let discover = SubcommandSpec {
        name: "discover",
        short_flag: 'D',
        long_flag: "discover",
        about: "Use zeroconf to discover a spotify instance, fetch the credentials and save them",
        args: Vec::new(),
    };
    let mut play_args: Vec<ArgSpec> = Vec::new();
    play_args.push(ArgSpec { name: "track", help: "track", stores_value: true, num_args: 1 });
    let play = SubcommandSpec {
        name: "play",
        short_flag: 'P',
        long_flag: "play",
        about: "Play a track using the track_id of spotify for example: spotify:track:76K8P2HwfKq8gPxOWoBQkG",
        args: play_args,
    };
    let mut subcommands: Vec<SubcommandSpec> = Vec::new();
    subcommands.push(discover);
    subcommands.push(play);
    CommandSpec { name: "spotipy", subcommands }
}

/// The mode that an invocation selects: `discover` with no operand, or
/// `play` with exactly one. Every other shape is a usage error; no mode is
/// assumed.
pub open spec fn mode_of(subcommand: Option<String>, operands: Seq<String>) -> Result<
    Mode,
    Failure,
> {
    match subcommand {
        Some(name) => if name@ == "discover"@ && operands.len() == 0 {
            Ok(Mode::Discover)
        } else if name@ == "play"@ && operands.len() == 1 {
            Ok(Mode::Play { media: operands[0] })
        } else {
            Err(Failure::Usage)
        },
        None => Err(Failure::Usage),
    }
}

/// Selects the operating mode from the subcommand named on the command
/// line and the media identifiers given to it.
pub fn select_mode(subcommand: Option<String>, operands: Vec<String>) -> (out: Result<
    Mode,
    Failure,
>)
    ensures
        out == mode_of(subcommand, operands@),
{
    let mut operands = operands;
    match &subcommand {
        Some(name) => {
            if same_text(name.as_str(), "discover") && operands.len() == 0 {
                Ok(Mode::Discover)
            } else if same_text(name.as_str(), "play") && operands.len() == 1 {
                match operands.pop() {
                    Some(media) => Ok(Mode::Play { media }),
                    None => Err(Failure::Usage),
                }
            } else {
                Err(Failure::Usage)
            }
        },
        None => Err(Failure::Usage),
    }
}

} // verus!

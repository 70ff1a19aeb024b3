//! Parsed profile commands and their dispatch to store operations.

use vstd::prelude::*;

verus! {

/// Arguments of the view subcommand: the profile to show, or the selected
/// one when absent.
pub struct ViewArgs {
    pub id: Option<String>,
}

/// A parsed profile subcommand.
pub enum Subcommands {
    /// Create a new profile.
    Create,
    /// Select a profile.
    Select,
    /// Back up the profiles using version control.
    Backup,
    /// View a profile.
    View(ViewArgs),
}

/// A parsed profile command.
pub struct Command {
    pub subcommand: Subcommands,
}

/// The store operation a profile command dispatches to.
pub enum Op {
    CreateProfile,
    SelectProfile,
    BackupProfiles,
    ViewProfile(Option<String>),
}

/// Dispatch a parsed profile command to the operation it names.
pub fn parse(command: Command) -> (r: Op)
    ensures
        command.subcommand is Create ==> r == Op::CreateProfile,
        command.subcommand is Select ==> r == Op::SelectProfile,
        command.subcommand is Backup ==> r == Op::BackupProfiles,
        command.subcommand matches Subcommands::View(a) ==> r == Op::ViewProfile(a.id),
{
    match command.subcommand {
        Subcommands::Create => Op::CreateProfile,
        Subcommands::Select => Op::SelectProfile,
        Subcommands::Backup => Op::BackupProfiles,
        Subcommands::View(args) => Op::ViewProfile(args.id),
    }
}

} // verus!

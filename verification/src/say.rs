//! The echo command repeats what it was given, with mentions made harmless.
//! Which mentions are cleaned depends on where the command was given.

use vstd::prelude::*;

verus! {

/// How the text of an echo is cleaned before it is sent.
#[derive(Debug, Clone, Copy, PartialEq, Eq, Structural)]
pub struct Cleaning {
    /// Channel mentions are replaced by the channel's name.
    pub clean_channel: bool,
    /// Role mentions are replaced by the role's name.
    pub clean_role: bool,
    /// Mentioned users are shown under the name they bear in the guild.
    pub display_as_member: bool,
}

/// The cleaning of an echo. Channel mentions ping nobody and are left alone.
/// In a guild, role mentions are cleaned and mentioned users are shown by
/// their display name there; elsewhere role mentions are left alone too.
pub fn cleaning_for(in_guild: bool) -> (cleaning: Cleaning)
    ensures
        cleaning == (Cleaning {
            clean_channel: false,
            clean_role: in_guild,
            display_as_member: in_guild,
        }),
{
    Cleaning { clean_channel: false, clean_role: in_guild, display_as_member: in_guild }
}

} // verus!

use vstd::prelude::*;

use crate::pages::Pages;
use crate::pagination::{CommandCountPagination, PaginationBuilder, PaginationKind};
use crate::policy::CommandFlags;

verus! {

/// An uploaded file as the skin commands see it.
pub struct AttachmentData {
    pub filename: String,
    pub url: String,
}

/// Add a skin to the skinlist.
pub struct SkinAdd {
    pub skin: AttachmentData,
}

/// Remove a skin from the skinlist, by its position.
pub struct SkinRemove {
    pub index: usize,
}

/// Skinlist configuration: restricted to the bot owner and answered
/// at once, without a deferral.
pub enum Skin {
    Add(SkinAdd),
    Remove(SkinRemove),
}

impl Skin {
    /// The policy switches of the `skin` command.
    pub fn flags() -> (r: CommandFlags)
        ensures
            r.wf(),
            r.only_owner,
            r.skip_defer,
            !r.defer,
            !r.authority,
            !r.ephemeral,
            !r.only_guilds,
    {
        CommandFlags {
            authority: false,
            defer: false,
            ephemeral: false,
            only_guilds: false,
            only_owner: true,
            skip_defer: true,
        }
    }
}

/// Display a list of popular commands.
pub struct Commands;

impl Commands {
    /// The policy switches of the `commands` command.
    pub fn flags() -> (r: CommandFlags)
        ensures
            r.wf(),
            r.skip_defer,
            !r.defer,
            !r.authority,
            !r.ephemeral,
            !r.only_guilds,
            !r.only_owner,
    {
        CommandFlags {
            authority: false,
            defer: false,
            ephemeral: false,
            only_guilds: false,
            only_owner: false,
            skip_defer: true,
        }
    }
}

/// How many command-count entries one page shows.
pub const COMMANDS_PER_PAGE: usize = 15;

/// The `commands` handler's response: no aggregator feeds the counts,
/// so the list is presented empty, paginated from when the process
/// came up.
pub fn commands(booted_up: String) -> (r: PaginationBuilder)
    ensures
        r.pages.wf(),
        r.pages.index == 0,
        r.pages.last_index == 0,
        r.pages.per_page == COMMANDS_PER_PAGE,
        r.kind matches PaginationKind::CommandCount(k) && k.booted_up == booted_up && k.cmds@.len()
            == 0,
        r.start_by_callback,
        !r.defer_components,
{
    let cmds: Vec<(String, u32)> = Vec::new();
    let pages = Pages::new(COMMANDS_PER_PAGE, cmds.len());
    let kind = PaginationKind::CommandCount(
        Box::new(CommandCountPagination { booted_up, cmds }),
    );

    PaginationBuilder::new(kind, pages)
}

/// Invite me to your server.
pub struct Invite;

impl Invite {
    /// The policy switches of the `invite` command.
    pub fn flags() -> (r: CommandFlags)
        ensures
            r.wf(),
            r.skip_defer,
            !r.defer,
            !r.authority,
            !r.ephemeral,
            !r.only_guilds,
            !r.only_owner,
    {
        CommandFlags {
            authority: false,
            defer: false,
            ephemeral: false,
            only_guilds: false,
            only_owner: false,
            skip_defer: true,
        }
    }
}

/// A self-contained embed response.
pub struct EmbedData {
    pub title: String,
    pub description: String,
    pub footer: String,
}

/// The `invite` handler's response: the invite link under a fixed
/// title, with the default prefix noted underneath.
pub fn invite(invite_link: &str) -> (r: EmbedData)
    ensures
        r.title@ == "Invite me to your server!"@,
        r.description@ == invite_link@,
        r.footer@ == "The initial prefix will be <"@,
{
    EmbedData {
        title: String::from_str("Invite me to your server!"),
        description: String::from_str(invite_link),
        footer: String::from_str("The initial prefix will be <"),
    }
}

} // verus!

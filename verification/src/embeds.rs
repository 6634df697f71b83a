use vstd::prelude::*;

use crate::configs::GuildConfig;
use crate::util::{spec_dec_chars, u64_to_string};

verus! {

/// One field of an embed.
pub struct EmbedField {
    pub name: String,
    pub value: String,
}

/// A toggle shown as a field: the label of whichever side is active.
pub fn create_field(name: &str, value: bool, if_true: &str, if_false: &str) -> (r: EmbedField)
    ensures
        r.name@ == name@,
        r.value@ == if value {
            if_true@
        } else {
            if_false@
        },
{
    EmbedField {
        name: String::from_str(name),
        value: if value {
            String::from_str(if_true)
        } else {
            String::from_str(if_false)
        },
    }
}

/// What the chat cache knows of a guild, as the embed needs it.
pub struct GuildData {
    pub icon: Option<String>,
    pub id: u64,
    pub name: String,
}

/// Each item wrapped in `pre`/`post`, the items joined with `, `.
pub open spec fn spec_wrapped_list(items: Seq<Seq<char>>, pre: Seq<char>, post: Seq<char>) -> Seq<
    char,
>
    decreases items.len(),
{
    if items.len() == 0 {
        Seq::empty()
    } else if items.len() == 1 {
        pre + items[0] + post
    } else {
        spec_wrapped_list(items.drop_last(), pre, post) + ", "@ + pre + items.last() + post
    }
}

/// Build the joined list of `items`, each wrapped in `pre`/`post`.
fn wrapped_list(items: &Vec<String>, pre: &str, post: &str) -> (r: String)
    ensures
        r@ == spec_wrapped_list(items.deep_view(), pre@, post@),
{
    let mut out = String::new();
    let n = items.len();
    let mut i: usize = 0;

    while i < n
        invariant
            i <= n,
            n == items@.len(),
            items.deep_view().len() == items@.len(),
            forall|j: int| 0 <= j < n ==> items.deep_view()[j] == #[trigger] items@[j]@,
            out@ == spec_wrapped_list(items.deep_view().take(i as int), pre@, post@),
        decreases n - i,
    {
        if i > 0 {
            out.append(", ");
        }
        out.append(pre);
        out.append(items[i].as_str());
        out.append(post);

        proof {
            let views = items.deep_view();
            assert(views.take(i as int + 1).drop_last() =~= views.take(i as int));
            assert(views.take(i as int + 1).last() == views[i as int]);
            if i == 0 {
                assert(views.take(1).len() == 1);
            }
        }

        i = i + 1;
    }

    proof {
        assert(items.deep_view().take(n as int) =~= items.deep_view());
    }

    out
}

/// The icon address of a guild: animated hashes (an `a_` prefix) are
/// served as GIF, the rest as WebP.
pub open spec fn spec_icon_url(id: nat, hash: Seq<char>) -> Seq<char> {
    "https://cdn.discordapp.com/icons/"@ + spec_dec_chars(id) + "/"@ + hash + "."@ + (if hash.len()
        >= 2 && hash[0] == 'a' && hash[1] == '_' {
        "gif"@
    } else {
        "webp"@
    })
}

fn icon_url(id: u64, hash: &String) -> (r: String)
    ensures
        r@ == spec_icon_url(id as nat, hash@),
{
    let mut url = String::from_str("https://cdn.discordapp.com/icons/");
    let num = u64_to_string(id);
    url.append(num.as_str());
    url.append("/");
    url.append(hash.as_str());
    url.append(".");

    let animated = hash.as_str().unicode_len() >= 2 && hash.as_str().get_char(0) == 'a'
        && hash.as_str().get_char(1) == '_';

    if animated {
        url.append("gif");
    } else {
        url.append("webp");
    }

    url
}

/// The description block of the server configuration embed.
pub open spec fn spec_server_config_description(
    authorities: Seq<Seq<char>>,
    prefixes: Seq<Seq<char>>,
    track_limit: nat,
) -> Seq<char> {
    "```\nAuthorities: "@ + (if authorities.len() == 0 {
        "None"@
    } else {
        spec_wrapped_list(authorities, "@"@, Seq::empty())
    }) + "\nPrefixes: "@ + spec_wrapped_list(prefixes, "`"@, "`"@) + "\nDefault track limit: "@
        + spec_dec_chars(track_limit) + "\n```\n"@
}

/// The embed the server configuration command responds with.
pub struct ServerConfigEmbed {
    pub author_name: String,
    pub author_icon_url: Option<String>,
    pub description: String,
    pub fields: Vec<EmbedField>,
    pub footer: String,
    pub title: String,
}

impl ServerConfigEmbed {
    /// Render the guild's configuration: who may administrate, which
    /// prefixes are live, the track limit, and the two toggles.
    pub fn new(guild: GuildData, config: GuildConfig, authorities: &Vec<String>) -> (r: Self)
        ensures
            r.title@ == "Current server configuration:"@,
            r.footer@ == "*: Only applies if not set in the member's user config"@,
            r.author_name == guild.name,
            match (guild.icon, r.author_icon_url) {
                (Some(hash), Some(url)) => url@ == spec_icon_url(guild.id as nat, hash@),
                (None, None) => true,
                _ => false,
            },
            r.description@ == spec_server_config_description(
                authorities.deep_view(),
                config.prefixes.deep_view(),
                config.track_limit as nat,
            ),
            r.fields@.len() == 2,
            r.fields@[0].name@ == "Song commands"@,
            r.fields@[0].value@ == if config.with_lyrics {
                "enabled"@
            } else {
                "disabled"@
            },
            r.fields@[1].name@ == "Retries*"@,
            r.fields@[1].value@ == if config.show_retries {
                "show"@
            } else {
                "hide"@
            },
    {
        let author_icon_url = match &guild.icon {
            Some(hash) => Some(icon_url(guild.id, hash)),
            None => None,
        };

        let mut description = String::from_str("```\nAuthorities: ");

        if authorities.len() == 0 {
            description.append("None");
        } else {
            let list = wrapped_list(authorities, "@", "");
            proof {
                reveal_strlit("");
            }
            description.append(list.as_str());
        }

        description.append("\nPrefixes: ");
        let prefixes = wrapped_list(&config.prefixes, "`", "`");
        description.append(prefixes.as_str());

        description.append("\nDefault track limit: ");
        let limit = u64_to_string(config.track_limit as u64);
        description.append(limit.as_str());
        description.append("\n```\n");

        proof {
            reveal_strlit("");
            assert(""@ =~= Seq::<char>::empty());
            assert(description@ =~= spec_server_config_description(
                authorities.deep_view(),
                config.prefixes.deep_view(),
                config.track_limit as nat,
            ));
        }

        let mut fields: Vec<EmbedField> = Vec::new();
        fields.push(create_field("Song commands", config.with_lyrics, "enabled", "disabled"));
        fields.push(create_field("Retries*", config.show_retries, "show", "hide"));

        ServerConfigEmbed {
            author_name: guild.name,
            author_icon_url,
            description,
            fields,
            footer: String::from_str("*: Only applies if not set in the member's user config"),
            title: String::from_str("Current server configuration:"),
        }
    }
}

} // verus!

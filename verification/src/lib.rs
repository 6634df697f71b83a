//! The dispatch and interaction runtime of a chat command bot: a
//! unified entry point that demultiplexes prefix text invocations and
//! structured slash interactions, enforces per-invocation policy,
//! drives stateful paginated responses, and decides the retries and
//! rate limits of the outbound HTTP client. The transport — gateway,
//! REST and persistent store — stays outside; the library works on
//! plain values and hands decisions back.

mod buckets;
mod commands;
mod config;
mod configs;
mod dispatch;
mod embeds;
mod http;
mod pages;
mod pagination;
mod policy;
mod rate;
mod registry;
mod replay;
mod util;

pub use buckets::{spec_bucket_take, Bucket, BucketName, Buckets, MemberRatelimit, MAX_BUCKET_TIME};
pub use commands::{
    commands, invite, AttachmentData, Commands, EmbedData, Invite, Skin, SkinAdd, SkinRemove,
    COMMANDS_PER_PAGE,
};
pub use config::{
    parse_id_list, parse_u16, parse_u64_model, spec_parse_id_list, BotConfig, ConfigError, Paths,
    Tokens,
};
pub use configs::{
    default_guild_config, first_matching_prefix, lemma_first_matching_prefix_matches,
    lemma_guild_config_write_read, lemma_guild_updates_serialize, AuthorityRef, Context,
    GuildConfig, GuildConfigView, UserConfig, DEFAULT_PREFIX,
};
pub use dispatch::{
    handle_command, handle_message, location_text, log_command, parse_invoke, skip_whitespace, spec_parse_invoke,
    word_end, MessageInvoke, PrefixCommand, PrefixCommands,
};
pub use embeds::{
    create_field, spec_icon_url, spec_server_config_description, EmbedField, GuildData,
    ServerConfigEmbed,
};
pub use http::{
    backoff_ms, error_for_status, get_request_plan, lemma_backoff_schedule,
    lemma_limiter_starts_full, lemma_request_uses_matching_limiter, limiter_initial_tokens,
    limiter_max, spec_limiter_model, spec_limiter_ok,
    limiter_refill_amount, limiter_refill_interval_ms, map_file_step, map_file_url,
    post_request_plan, spec_backoff_ms, spec_backoff_total_ms, urlencoded_of, ClientError,
    FetchOutcome, HttpMethod, HttpRatelimiters, RequestPlan, RetryStep, Site, StatusError,
    MAP_FILE_ATTEMPTS, MY_USER_AGENT, OSU_BASE,
};
pub use pages::{
    lemma_pages_invariant, lemma_start_end_start_restores, ActionRow, Button, ButtonStyle,
    ComponentKind, Pages,
};
pub use pagination::{
    spec_modal_input_ok, spec_modal_page, CommandCountPagination, ComponentOutcome,
    InitialMessage, ModalOutcome, PageContent,
    Pagination, PaginationBuilder, PaginationKind, PaginationManager, PAGINATION_MODAL_ID,
};
pub use policy::{
    check_authority, pre_process_command, process_prefix_command, spec_cooldown_message, spec_slash_gate,
    spec_has_authority, CommandFlags, PolicyDecision, ProcessResult,
};
pub use rate::{
    lemma_burst_completion, lemma_map_file_burst_spacing, lemma_serve_preserves_wf,
    spec_full_bucket, spec_refilled,
    spec_serve, spec_serve_n, RateLimiterModel,
};
pub use registry::{lemma_registered_name_found, trie_entries, SlashCommand, SlashCommands};
pub use replay::{spec_replay_name, ReplayData, ReplaySlim, ReplayStatus, TimePoints};
pub use util::{
    all_digits, dec_value, last_multiple, parse_u64, spec_dec_chars, str_eq, to_lowercase,
    u64_to_string, unicode_whitespace,
};

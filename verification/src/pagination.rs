use vstd::prelude::*;

use std::collections::HashMap;

use crate::pages::{ActionRow, ComponentKind, Pages};
use crate::util::{all_digits, dec_value, parse_u64, str_eq};

verus! {

/// The data a command-count page is rendered from: when the process
/// came up and the per-command invocation counts.
pub struct CommandCountPagination {
    pub booted_up: String,
    pub cmds: Vec<(String, u32)>,
}

impl CommandCountPagination {
    /// The entries shown on the page that starts at `pages.index`.
    pub fn build_page(&self, pages: &Pages) -> (r: Vec<(String, u32)>)
        ensures
            r@ == self.cmds@.subrange(
                spec_window_start(self.cmds@.len() as int, pages.index as int),
                spec_window_end(
                    self.cmds@.len() as int,
                    pages.index as int,
                    pages.per_page as int,
                ),
            ),
    {
        let len = self.cmds.len();
        let start = if pages.index < len {
            pages.index
        } else {
            len
        };
        let end = if len - start < pages.per_page {
            len
        } else {
            start + pages.per_page
        };

        let mut out: Vec<(String, u32)> = Vec::new();
        let mut i: usize = start;

        while i < end
            invariant
                start <= i <= end <= len,
                len == self.cmds@.len(),
                out@ == self.cmds@.subrange(start as int, i as int),
            decreases end - i,
        {
            let entry = &self.cmds[i];
            out.push((entry.0.clone(), entry.1));
            proof {
                assert(self.cmds@.subrange(start as int, i as int + 1) =~= self.cmds@.subrange(
                    start as int,
                    i as int,
                ).push(self.cmds@[i as int]));
            }
            i = i + 1;
        }

        proof {
            assert(end as int == spec_window_end(len as int, pages.index as int, pages.per_page as int));
        }

        out
    }
}

/// First entry of the window a page shows.
pub open spec fn spec_window_start(len: int, index: int) -> int {
    if index < len {
        index
    } else {
        len
    }
}

/// One past the last entry of the window a page shows.
pub open spec fn spec_window_end(len: int, index: int, per_page: int) -> int {
    if spec_window_start(len, index) + per_page < len {
        spec_window_start(len, index) + per_page
    } else {
        len
    }
}

/// The rendering strategy of a session, with the data it renders from.
pub enum PaginationKind {
    CommandCount(Box<CommandCountPagination>),
}

/// One rendered page.
pub enum PageContent {
    CommandCount { booted_up: String, entries: Vec<(String, u32)> },
}

impl PaginationKind {
    /// Render the page that starts at `pages.index`: a pure function
    /// of the strategy state and the cursor.
    pub fn build_page(&self, pages: &Pages) -> (r: PageContent)
        ensures
            self.spec_page(*pages, r),
    {
        match self {
            Self::CommandCount(kind) => PageContent::CommandCount {
                booted_up: kind.booted_up.clone(),
                entries: kind.build_page(pages),
            },
        }
    }

    /// What `build_page` returns.
    pub open spec fn spec_page(&self, pages: Pages, r: PageContent) -> bool {
        match self {
            Self::CommandCount(kind) => r matches PageContent::CommandCount {
                booted_up,
                entries,
            } && booted_up@ == kind.booted_up@ && entries@ == kind.cmds@.subrange(
                spec_window_start(kind.cmds@.len() as int, pages.index as int),
                spec_window_end(
                    kind.cmds@.len() as int,
                    pages.index as int,
                    pages.per_page as int,
                ),
            ),
        }
    }
}

/// A live paginated response: the session stored under the published
/// message id.
pub struct Pagination {
    pub author: u64,
    pub component_kind: ComponentKind,
    pub defer_components: bool,
    pub kind: PaginationKind,
    pub pages: Pages,
}

impl Pagination {
    pub open spec fn wf(&self) -> bool {
        self.pages.wf()
    }

    /// Whether `user` opened this session.
    pub fn is_author(&self, user: u64) -> (r: bool)
        ensures
            r == (self.author == user),
    {
        self.author == user
    }

    /// Render the current page.
    pub fn build_page(&self) -> (r: PageContent)
        ensures
            self.kind.spec_page(self.pages, r),
    {
        self.kind.build_page(&self.pages)
    }

    /// Render the current page and its component rows.
    pub fn build(&self) -> (r: (PageContent, Vec<ActionRow>))
        requires
            self.wf(),
        ensures
            self.kind.spec_page(self.pages, r.0),
            self.pages.spec_components_for(self.component_kind, r.1),
    {
        let page = self.kind.build_page(&self.pages);
        let components = self.pages.components(self.component_kind);

        (page, components)
    }
}

/// How a paginated response is published: by an interaction callback
/// or, for an already-deferred interaction, by a follow-up update.
pub struct PaginationBuilder {
    pub kind: PaginationKind,
    pub pages: Pages,
    pub attachment: Option<(String, Vec<u8>)>,
    pub content: Option<String>,
    pub start_by_callback: bool,
    pub defer_components: bool,
    pub component_kind: ComponentKind,
}

impl PaginationBuilder {
    pub fn new(kind: PaginationKind, pages: Pages) -> (r: Self)
        ensures
            r.kind == kind,
            r.pages == pages,
            r.attachment is None,
            r.content is None,
            r.start_by_callback == true,
            r.defer_components == false,
            r.component_kind == ComponentKind::Default,
    {
        Self {
            kind,
            pages,
            attachment: None,
            content: None,
            start_by_callback: true,
            defer_components: false,
            component_kind: ComponentKind::Default,
        }
    }

    /// Add an attachment to the initial message which
    /// will stick throughout all pages.
    pub fn attachment(self, name: String, bytes: Vec<u8>) -> (r: Self)
        ensures
            r == (Self { attachment: Some((name, bytes)), ..self }),
    {
        Self { attachment: Some((name, bytes)), ..self }
    }

    /// Add content to the initial message which
    /// will stick throughout all pages.
    pub fn content(self, content: String) -> (r: Self)
        ensures
            r == (Self { content: Some(content), ..self }),
    {
        Self { content: Some(content), ..self }
    }

    /// By default, the initial message is sent by callback, which only
    /// works when the invoke came from a message or from an interaction
    /// that was not deferred. After this call it is sent by updating,
    /// which also works for interactions that were already deferred.
    pub fn start_by_update(self) -> (r: Self)
        ensures
            r == (Self { start_by_callback: false, ..self }),
    {
        Self { start_by_callback: false, ..self }
    }

    /// By default, a page update is sent by callback, which only works
    /// when the page renders quickly. After this call, component
    /// interactions are deferred first and the page edited afterwards.
    pub fn defer_components(self) -> (r: Self)
        ensures
            r == (Self { defer_components: true, ..self }),
    {
        Self { defer_components: true, ..self }
    }

    /// "Compact", "Medium", and "Full" button components.
    pub fn profile_components(self) -> (r: Self)
        ensures
            r == (Self { component_kind: ComponentKind::Profile, ..self }),
    {
        Self { component_kind: ComponentKind::Profile, ..self }
    }

    /// "Jump start", "Step back", and "Step" button components.
    pub fn map_search_components(self) -> (r: Self)
        ensures
            r == (Self { component_kind: ComponentKind::MapSearch, ..self }),
    {
        Self { component_kind: ComponentKind::MapSearch, ..self }
    }

    /// Prepare the initial message of this response, and the session to
    /// store under the published message id. A session exists exactly
    /// when the page set has more than one page.
    pub fn start(self, author: u64) -> (r: (InitialMessage, Option<Pagination>))
        requires
            self.pages.wf(),
        ensures
            self.kind.spec_page(self.pages, r.0.page),
            self.pages.spec_components_for(self.component_kind, r.0.components),
            r.0.attachment == self.attachment,
            r.0.content == self.content,
            r.0.by_callback == self.start_by_callback,
            self.pages.last_index == 0 ==> r.1 is None,
            self.pages.last_index > 0 ==> (r.1 matches Some(session) && session == (Pagination {
                author,
                component_kind: self.component_kind,
                defer_components: self.defer_components,
                kind: self.kind,
                pages: self.pages,
            })),
    {
        let page = self.kind.build_page(&self.pages);
        let components = self.pages.components(self.component_kind);

        let message = InitialMessage {
            page,
            components,
            attachment: self.attachment,
            content: self.content,
            by_callback: self.start_by_callback,
        };

        if self.pages.last_index == 0 {
            (message, None)
        } else {
            let session = Pagination {
                author,
                component_kind: self.component_kind,
                defer_components: self.defer_components,
                kind: self.kind,
                pages: self.pages,
            };

            (message, Some(session))
        }
    }
}

/// The first message of a paginated response, ready to publish.
pub struct InitialMessage {
    pub page: PageContent,
    pub components: Vec<ActionRow>,
    pub attachment: Option<(String, Vec<u8>)>,
    pub content: Option<String>,
    pub by_callback: bool,
}

/// The custom id of the page-number modal: submissions carrying it
/// are routed to `PaginationManager::handle_modal`.
pub const PAGINATION_MODAL_ID: &'static str = "pagination_page";

/// The page transition a component id asks for, if it asks for one.
/// The profile buttons select a detail level, which is the 0-based
/// page they jump to.
pub open spec fn spec_component_transition(p: Pages, id: Seq<char>) -> Option<Pages> {
    if id == "pagination_start"@ {
        Some(Pages::spec_jump_start(p))
    } else if id == "pagination_back"@ {
        Some(Pages::spec_step_back(p))
    } else if id == "pagination_step"@ {
        Some(Pages::spec_step(p))
    } else if id == "pagination_end"@ {
        Some(Pages::spec_jump_end(p))
    } else if id == "profile_compact"@ {
        Some(Pages::spec_set_page(p, 1))
    } else if id == "profile_medium"@ {
        Some(Pages::spec_set_page(p, 2))
    } else if id == "profile_full"@ {
        Some(Pages::spec_set_page(p, 3))
    } else {
        None
    }
}

/// What pressing a button on a stored session leads to. The caller
/// resets the session's timeout exactly for `OpenModal` and `Update`.
pub enum ComponentOutcome {
    /// No session is stored under the message: the press is ignored.
    NoSession,
    /// The acting user did not open the session: reject with an
    /// ephemeral notice, leave the session untouched.
    NotAuthor,
    /// The custom page button: open the page-number modal.
    OpenModal,
    /// The component id belongs to no known button.
    Unknown,
    /// The page changed: edit the message to the new page, after a
    /// deferred acknowledgement when `defer` is set.
    Update { page: PageContent, components: Vec<ActionRow>, defer: bool },
}

/// What a page-number modal submission leads to.
pub enum ModalOutcome {
    NoSession,
    NotAuthor,
    /// The text field held no page number.
    BadInput,
    Update { page: PageContent, components: Vec<ActionRow>, defer: bool },
}

/// Whether the modal's text field holds a page number: nonempty, all
/// digits, and a value that fits.
pub open spec fn spec_modal_input_ok(input: Seq<char>) -> bool {
    input.len() > 0 && all_digits(input) && dec_value(input) <= u64::MAX
}

/// The page a modal submission asks for, clamped into `usize`; the
/// cursor then clamps it into the page range.
pub open spec fn spec_modal_page(input: Seq<char>) -> usize {
    if dec_value(input) > usize::MAX {
        usize::MAX
    } else {
        dec_value(input) as usize
    }
}

/// The live sessions, keyed by the published message id. Each message
/// has at most one session, the map key making that so.
pub struct PaginationManager {
    pub sessions: HashMap<u64, Pagination>,
}

impl PaginationManager {
    pub open spec fn wf(&self) -> bool {
        forall|m: u64| self.sessions@.contains_key(m) ==> (#[trigger] self.sessions@[m]).wf()
    }

    pub fn new() -> (r: Self)
        ensures
            r.wf(),
            r.sessions@ == Map::<u64, Pagination>::empty(),
    {
        Self { sessions: HashMap::new() }
    }

    /// Store the session of a freshly published message.
    pub fn insert(&mut self, msg: u64, session: Pagination)
        requires
            old(self).wf(),
            session.wf(),
        ensures
            final(self).wf(),
            final(self).sessions@ == old(self).sessions@.insert(msg, session),
    {
        self.sessions.insert(msg, session);
    }

    /// Drop the session of `msg` after its timeout elapsed, returning
    /// whether one was still stored; when it was, the caller strips the
    /// component rows off the message so it becomes inert.
    pub fn timeout_remove(&mut self, msg: u64) -> (r: bool)
        requires
            old(self).wf(),
        ensures
            final(self).wf(),
            r == old(self).sessions@.contains_key(msg),
            final(self).sessions@ == old(self).sessions@.remove(msg),
    {
        self.sessions.remove(&msg).is_some()
    }

    /// One button press on the message `msg` by `user`.
    pub fn handle_component(&mut self, msg: u64, user: u64, custom_id: &str) -> (r:
        ComponentOutcome)
        requires
            old(self).wf(),
        ensures
            final(self).wf(),
            match r {
                ComponentOutcome::NoSession => {
                    &&& !old(self).sessions@.contains_key(msg)
                    &&& final(self).sessions@ == old(self).sessions@
                },
                ComponentOutcome::NotAuthor => {
                    &&& old(self).sessions@.contains_key(msg)
                    &&& old(self).sessions@[msg].author != user
                    &&& final(self).sessions@ == old(self).sessions@
                },
                ComponentOutcome::OpenModal => {
                    &&& old(self).sessions@.contains_key(msg)
                    &&& old(self).sessions@[msg].author == user
                    &&& custom_id@ == "pagination_custom"@
                    &&& final(self).sessions@ == old(self).sessions@
                },
                ComponentOutcome::Unknown => {
                    &&& old(self).sessions@.contains_key(msg)
                    &&& old(self).sessions@[msg].author == user
                    &&& custom_id@ != "pagination_custom"@
                    &&& spec_component_transition(old(self).sessions@[msg].pages, custom_id@)
                        is None
                    &&& final(self).sessions@ == old(self).sessions@
                },
                ComponentOutcome::Update { page, components, defer } => {
                    let session = old(self).sessions@[msg];
                    &&& old(self).sessions@.contains_key(msg)
                    &&& session.author == user
                    &&& spec_component_transition(session.pages, custom_id@) matches Some(np)
                        && final(self).sessions@ == old(self).sessions@.insert(
                        msg,
                        Pagination { pages: np, ..session },
                    ) && session.kind.spec_page(np, page) && np.spec_components_for(
                        session.component_kind,
                        components,
                    )
                    &&& defer == session.defer_components
                },
            },
    {
        let session = match self.sessions.remove(&msg) {
            Some(session) => session,
            None => {
                return ComponentOutcome::NoSession;
            },
        };

        if !session.is_author(user) {
            self.sessions.insert(msg, session);
            return ComponentOutcome::NotAuthor;
        }

        if str_eq(custom_id, "pagination_custom") {
            self.sessions.insert(msg, session);
            return ComponentOutcome::OpenModal;
        }

        let mut session = session;

        if str_eq(custom_id, "pagination_start") {
            session.pages.jump_start();
        } else if str_eq(custom_id, "pagination_back") {
            session.pages.step_back();
        } else if str_eq(custom_id, "pagination_step") {
            session.pages.step();
        } else if str_eq(custom_id, "pagination_end") {
            session.pages.jump_end();
        } else if str_eq(custom_id, "profile_compact") {
            session.pages.set_page(1);
        } else if str_eq(custom_id, "profile_medium") {
            session.pages.set_page(2);
        } else if str_eq(custom_id, "profile_full") {
            session.pages.set_page(3);
        } else {
            self.sessions.insert(msg, session);
            return ComponentOutcome::Unknown;
        }

        let (page, components) = session.build();
        let defer = session.defer_components;
        self.sessions.insert(msg, session);

        ComponentOutcome::Update { page, components, defer }
    }

    /// A submission of the page-number modal for the message `msg`:
    /// parse the 1-based page and clamp it into range.
    pub fn handle_modal(&mut self, msg: u64, user: u64, input: &str) -> (r: ModalOutcome)
        requires
            old(self).wf(),
        ensures
            final(self).wf(),
            match r {
                ModalOutcome::NoSession => {
                    &&& !old(self).sessions@.contains_key(msg)
                    &&& final(self).sessions@ == old(self).sessions@
                },
                ModalOutcome::NotAuthor => {
                    &&& old(self).sessions@.contains_key(msg)
                    &&& old(self).sessions@[msg].author != user
                    &&& final(self).sessions@ == old(self).sessions@
                },
                ModalOutcome::BadInput => {
                    &&& old(self).sessions@.contains_key(msg)
                    &&& old(self).sessions@[msg].author == user
                    &&& !spec_modal_input_ok(input@)
                    &&& final(self).sessions@ == old(self).sessions@
                },
                ModalOutcome::Update { page, components, defer } => {
                    let session = old(self).sessions@[msg];
                    let np = Pages::spec_set_page(session.pages, spec_modal_page(input@));
                    &&& old(self).sessions@.contains_key(msg)
                    &&& session.author == user
                    &&& spec_modal_input_ok(input@)
                    &&& final(self).sessions@ == old(self).sessions@.insert(
                        msg,
                        Pagination { pages: np, ..session },
                    )
                    &&& session.kind.spec_page(np, page)
                    &&& np.spec_components_for(session.component_kind, components)
                    &&& defer == session.defer_components
                },
            },
    {
        let session = match self.sessions.remove(&msg) {
            Some(session) => session,
            None => {
                return ModalOutcome::NoSession;
            },
        };

        if !session.is_author(user) {
            self.sessions.insert(msg, session);
            return ModalOutcome::NotAuthor;
        }

        let page_number = match parse_u64(input) {
            Some(n) => n,
            None => {
                self.sessions.insert(msg, session);
                return ModalOutcome::BadInput;
            },
        };

        let page_number = if page_number > usize::MAX as u64 {
            usize::MAX
        } else {
            page_number as usize
        };

        let mut session = session;
        session.pages.set_page(page_number);

        let (page, components) = session.build();
        let defer = session.defer_components;

        proof {
            assert(page_number == spec_modal_page(input@));
            assert(session.pages == Pages::spec_set_page(
                old(self).sessions@[msg].pages,
                spec_modal_page(input@),
            ));
        }

        self.sessions.insert(msg, session);

        ModalOutcome::Update { page, components, defer }
    }
}

} // verus!

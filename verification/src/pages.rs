use vstd::prelude::*;

use crate::util::{last_multiple, spec_last_multiple};

verus! {

/// Visual style of a button, as the chat platform defines it.
#[derive(Clone, Copy, PartialEq, Eq, Structural, Debug)]
pub enum ButtonStyle {
    Secondary,
    Success,
}

/// One button of a message component row. `custom_id` is the wire
/// contract: the component interaction reports it back verbatim.
pub struct Button {
    pub custom_id: String,
    pub disabled: bool,
    pub emoji: Option<String>,
    pub label: Option<String>,
    pub style: ButtonStyle,
}

/// A horizontal row of buttons attached to a message.
pub struct ActionRow {
    pub components: Vec<Button>,
}

/// Which button set a paginated message carries.
#[derive(Clone, Copy, PartialEq, Eq, Structural, Debug)]
pub enum ComponentKind {
    Default,
    MapSearch,
    Profile,
}

/// Page cursor of a paginated response.
///
/// `index` is the offset of the first entry of the current page,
/// `last_index` the offset of the first entry of the last page, and
/// `per_page` how many entries one page shows. Every reachable value
/// keeps `index` a multiple of `per_page` and `0 <= index <= last_index`.
#[derive(Clone, Copy, Debug)]
pub struct Pages {
    pub index: usize,
    pub last_index: usize,
    pub per_page: usize,
}

impl Pages {
    /// The invariant every constructor establishes and every page
    /// transition preserves.
    pub open spec fn wf(&self) -> bool {
        &&& self.per_page >= 1
        &&& self.index <= self.last_index
        &&& self.last_index < usize::MAX
        &&& self.index % self.per_page == 0
        &&& self.last_index % self.per_page == 0
    }

    /// `per_page`: how many entries per page.
    ///
    /// `amount`: how many entries in total.
    pub fn new(per_page: usize, amount: usize) -> (r: Self)
        requires
            per_page >= 1,
        ensures
            r.wf(),
            r.index == 0,
            r.per_page == per_page,
            r.last_index == spec_last_multiple(per_page as nat, amount as nat),
    {
        let last_index = last_multiple(per_page, amount);

        proof {
            vstd::arithmetic::div_mod::lemma_small_mod(0, per_page as nat);
        }

        Self { index: 0, per_page, last_index }
    }

    /// 1-based number of the current page.
    pub fn curr_page(&self) -> (r: usize)
        requires
            self.wf(),
        ensures
            r == self.index / self.per_page + 1,
    {
        proof {
            vstd::arithmetic::div_mod::lemma_div_nonincreasing(self.index as int, self.per_page as int);
            vstd::arithmetic::div_mod::lemma_div_pos_is_pos(self.index as int, self.per_page as int);
        }
        self.index / self.per_page + 1
    }

    /// 1-based number of the last page.
    pub fn last_page(&self) -> (r: usize)
        requires
            self.wf(),
        ensures
            r == self.last_index / self.per_page + 1,
    {
        proof {
            vstd::arithmetic::div_mod::lemma_div_nonincreasing(
                self.last_index as int,
                self.per_page as int,
            );
            vstd::arithmetic::div_mod::lemma_div_pos_is_pos(
                self.last_index as int,
                self.per_page as int,
            );
        }
        self.last_index / self.per_page + 1
    }

    /// Jump to the first page.
    pub open spec fn spec_jump_start(p: Pages) -> Pages {
        Pages { index: 0, ..p }
    }

    pub fn jump_start(&mut self)
        requires
            old(self).wf(),
        ensures
            final(self).wf(),
            *final(self) == Pages::spec_jump_start(*old(self)),
    {
        proof {
            vstd::arithmetic::div_mod::lemma_small_mod(0, self.per_page as nat);
        }
        self.index = 0;
    }

    /// Step one page back, stopping at the first page.
    pub open spec fn spec_step_back(p: Pages) -> Pages {
        if p.index >= p.per_page {
            Pages { index: (p.index - p.per_page) as usize, ..p }
        } else {
            Pages { index: 0, ..p }
        }
    }

    pub fn step_back(&mut self)
        requires
            old(self).wf(),
        ensures
            final(self).wf(),
            *final(self) == Pages::spec_step_back(*old(self)),
    {
        if self.index >= self.per_page {
            proof {
                vstd::arithmetic::div_mod::lemma_mod_sub_multiples_vanish(
                    self.index as int,
                    self.per_page as int,
                );
            }
            self.index = self.index - self.per_page;
        } else {
            proof {
                vstd::arithmetic::div_mod::lemma_small_mod(0, self.per_page as nat);
            }
            self.index = 0;
        }
    }

    /// Step one page forward, stopping at the last page.
    pub open spec fn spec_step(p: Pages) -> Pages {
        if p.index + p.per_page <= p.last_index {
            Pages { index: (p.index + p.per_page) as usize, ..p }
        } else {
            Pages { index: p.last_index, ..p }
        }
    }

    pub fn step(&mut self)
        requires
            old(self).wf(),
        ensures
            final(self).wf(),
            *final(self) == Pages::spec_step(*old(self)),
    {
        if self.last_index - self.index >= self.per_page {
            proof {
                vstd::arithmetic::div_mod::lemma_mod_add_multiples_vanish(
                    self.index as int,
                    self.per_page as int,
                );
                assert((self.per_page + self.index) as int == self.index as int
                    + self.per_page as int);
            }
            self.index = self.index + self.per_page;
        } else {
            self.index = self.last_index;
        }
    }

    /// Jump to the last page.
    pub open spec fn spec_jump_end(p: Pages) -> Pages {
        Pages { index: p.last_index, ..p }
    }

    pub fn jump_end(&mut self)
        requires
            old(self).wf(),
        ensures
            final(self).wf(),
            *final(self) == Pages::spec_jump_end(*old(self)),
    {
        self.index = self.last_index;
    }

    /// Jump to the 1-based page `page`, clamped into the valid range.
    pub open spec fn spec_set_page(p: Pages, page: usize) -> Pages {
        if page <= 1 {
            Pages { index: 0, ..p }
        } else if (page - 1) * p.per_page <= p.last_index {
            Pages { index: ((page - 1) * p.per_page) as usize, ..p }
        } else {
            Pages { index: p.last_index, ..p }
        }
    }

    pub fn set_page(&mut self, page: usize)
        requires
            old(self).wf(),
        ensures
            final(self).wf(),
            *final(self) == Pages::spec_set_page(*old(self), page),
    {
        if page <= 1 {
            proof {
                vstd::arithmetic::div_mod::lemma_small_mod(0, self.per_page as nat);
            }
            self.index = 0;
        } else {
            let pages_before = page - 1;
            let max_pages_before = self.last_index / self.per_page;

            proof {
                vstd::arithmetic::div_mod::lemma_fundamental_div_mod(
                    self.last_index as int,
                    self.per_page as int,
                );
                vstd::arithmetic::mul::lemma_mul_is_commutative(
                    self.per_page as int,
                    max_pages_before as int,
                );
                assert(self.last_index as int == max_pages_before as int * self.per_page as int);
            }

            if pages_before <= max_pages_before {
                proof {
                    vstd::arithmetic::div_mod::lemma_mod_multiples_basic(
                        pages_before as int,
                        self.per_page as int,
                    );
                    vstd::arithmetic::mul::lemma_mul_inequality(
                        pages_before as int,
                        max_pages_before as int,
                        self.per_page as int,
                    );
                }
                self.index = pages_before * self.per_page;
            } else {
                proof {
                    assert((pages_before as int) * (self.per_page as int)
                        > self.last_index as int) by (nonlinear_arith)
                        requires
                            pages_before as int >= max_pages_before as int + 1,
                            self.last_index as int == max_pages_before as int
                                * self.per_page as int,
                            self.per_page as int >= 1,
                            max_pages_before as int >= 0,
                    ;
                }
                self.index = self.last_index;
            }
        }
    }
}

/// What the navigation buttons of a row promise: id, enabled state,
/// secondary styling and no label.
pub open spec fn nav_button_spec(b: Button, id: Seq<char>, disabled: bool) -> bool {
    &&& b.custom_id@ == id
    &&& b.disabled == disabled
    &&& b.style == ButtonStyle::Secondary
    &&& b.label is None
}

/// What the profile selection buttons promise: id, enabled state,
/// success styling and a label.
pub open spec fn profile_button_spec(b: Button, id: Seq<char>, disabled: bool, label: Seq<char>) -> bool {
    &&& b.custom_id@ == id
    &&& b.disabled == disabled
    &&& b.style == ButtonStyle::Success
    &&& b.label matches Some(l) && l@ == label
}

impl Pages {
    /// What `components` returns for the given button set.
    pub open spec fn spec_components_for(&self, kind: ComponentKind, r: Vec<ActionRow>) -> bool {
        match kind {
            ComponentKind::Default => self.spec_default_components(r),
            ComponentKind::MapSearch => self.spec_map_search_components(r),
            ComponentKind::Profile => self.spec_profile_components(r),
        }
    }

    /// The component rows for the given button set.
    pub fn components(&self, kind: ComponentKind) -> (r: Vec<ActionRow>)
        requires
            self.wf(),
        ensures
            self.spec_components_for(kind, r),
    {
        match kind {
            ComponentKind::Default => self.default_components(),
            ComponentKind::MapSearch => self.map_search_components(),
            ComponentKind::Profile => self.profile_components(),
        }
    }

    /// The full navigation row: jump to start, one step back, jump to a
    /// chosen page, one step forward, jump to end. The backward buttons
    /// are disabled exactly on the first page, the forward buttons
    /// exactly on the last, and the row is empty when there is a single
    /// page only.
    pub open spec fn spec_default_components(&self, r: Vec<ActionRow>) -> bool {
        if self.last_index == 0 {
            r@.len() == 0
        } else {
            &&& r@.len() == 1
            &&& r@[0].components@.len() == 5
            &&& nav_button_spec(r@[0].components@[0], "pagination_start"@, self.index == 0)
            &&& nav_button_spec(r@[0].components@[1], "pagination_back"@, self.index == 0)
            &&& nav_button_spec(r@[0].components@[2], "pagination_custom"@, false)
            &&& nav_button_spec(
                r@[0].components@[3],
                "pagination_step"@,
                self.index == self.last_index,
            )
            &&& nav_button_spec(
                r@[0].components@[4],
                "pagination_end"@,
                self.index == self.last_index,
            )
        }
    }

    pub fn default_components(&self) -> (r: Vec<ActionRow>)
        requires
            self.wf(),
        ensures
            self.spec_default_components(r),
    {
        if self.last_index == 0 {
            return Vec::new();
        }

        let jump_start = Button {
            custom_id: String::from_str("pagination_start"),
            disabled: self.index == 0,
            emoji: Some(String::from_str("\u{23ee}\u{fe0f}")),
            label: None,
            style: ButtonStyle::Secondary,
        };

        let single_step_back = Button {
            custom_id: String::from_str("pagination_back"),
            disabled: self.index == 0,
            emoji: Some(String::from_str("\u{23ea}")),
            label: None,
            style: ButtonStyle::Secondary,
        };

        let jump_custom = Button {
            custom_id: String::from_str("pagination_custom"),
            disabled: false,
            emoji: Some(String::from_str("*\u{fe0f}\u{20e3}")),
            label: None,
            style: ButtonStyle::Secondary,
        };

        let single_step = Button {
            custom_id: String::from_str("pagination_step"),
            disabled: self.index == self.last_index,
            emoji: Some(String::from_str("\u{23e9}")),
            label: None,
            style: ButtonStyle::Secondary,
        };

        let jump_end = Button {
            custom_id: String::from_str("pagination_end"),
            disabled: self.index == self.last_index,
            emoji: Some(String::from_str("\u{23ed}\u{fe0f}")),
            label: None,
            style: ButtonStyle::Secondary,
        };

        let mut components: Vec<Button> = Vec::new();
        components.push(jump_start);
        components.push(single_step_back);
        components.push(jump_custom);
        components.push(single_step);
        components.push(jump_end);

        let mut rows: Vec<ActionRow> = Vec::new();
        rows.push(ActionRow { components });

        rows
    }

    /// The profile detail selection: one button per detail level, the
    /// active level disabled. `index` doubles as the selected level.
    pub open spec fn spec_profile_components(&self, r: Vec<ActionRow>) -> bool {
        &&& r@.len() == 1
        &&& r@[0].components@.len() == 3
        &&& profile_button_spec(
            r@[0].components@[0],
            "profile_compact"@,
            self.index == 0,
            "Compact"@,
        )
        &&& profile_button_spec(
            r@[0].components@[1],
            "profile_medium"@,
            self.index == 1,
            "Medium"@,
        )
        &&& profile_button_spec(r@[0].components@[2], "profile_full"@, self.index == 2, "Full"@)
    }

    pub fn profile_components(&self) -> (r: Vec<ActionRow>)
        ensures
            self.spec_profile_components(r),
    {
        let compact = Button {
            custom_id: String::from_str("profile_compact"),
            disabled: self.index == 0,
            emoji: None,
            label: Some(String::from_str("Compact")),
            style: ButtonStyle::Success,
        };

        let medium = Button {
            custom_id: String::from_str("profile_medium"),
            disabled: self.index == 1,
            emoji: None,
            label: Some(String::from_str("Medium")),
            style: ButtonStyle::Success,
        };

        let full = Button {
            custom_id: String::from_str("profile_full"),
            disabled: self.index == 2,
            emoji: None,
            label: Some(String::from_str("Full")),
            style: ButtonStyle::Success,
        };

        let mut components: Vec<Button> = Vec::new();
        components.push(compact);
        components.push(medium);
        components.push(full);

        let mut rows: Vec<ActionRow> = Vec::new();
        rows.push(ActionRow { components });

        rows
    }

    /// The reduced navigation row of the map search results: jump to
    /// start, one step back, one step forward; empty for a single page.
    pub open spec fn spec_map_search_components(&self, r: Vec<ActionRow>) -> bool {
        if self.last_index == 0 {
            r@.len() == 0
        } else {
            &&& r@.len() == 1
            &&& r@[0].components@.len() == 3
            &&& nav_button_spec(r@[0].components@[0], "pagination_start"@, self.index == 0)
            &&& nav_button_spec(r@[0].components@[1], "pagination_back"@, self.index == 0)
            &&& nav_button_spec(
                r@[0].components@[2],
                "pagination_step"@,
                self.index == self.last_index,
            )
        }
    }

    pub fn map_search_components(&self) -> (r: Vec<ActionRow>)
        requires
            self.wf(),
        ensures
            self.spec_map_search_components(r),
    {
        if self.last_index == 0 {
            return Vec::new();
        }

        let jump_start = Button {
            custom_id: String::from_str("pagination_start"),
            disabled: self.index == 0,
            emoji: None,
            label: None,
            style: ButtonStyle::Secondary,
        };

        let single_step_back = Button {
            custom_id: String::from_str("pagination_back"),
            disabled: self.index == 0,
            emoji: None,
            label: None,
            style: ButtonStyle::Secondary,
        };

        let single_step = Button {
            custom_id: String::from_str("pagination_step"),
            disabled: self.index == self.last_index,
            emoji: None,
            label: None,
            style: ButtonStyle::Secondary,
        };

        let mut components: Vec<Button> = Vec::new();
        components.push(jump_start);
        components.push(single_step_back);
        components.push(single_step);

        let mut rows: Vec<ActionRow> = Vec::new();
        rows.push(ActionRow { components });

        rows
    }
}

/// Law: a reachable page cursor always sits at a page boundary inside
/// the valid range. Every constructor and every transition of `Pages`
/// ensures `wf`, which is exactly this.
pub proof fn lemma_pages_invariant(p: Pages)
    requires
        p.wf(),
    ensures
        p.index % p.per_page == 0,
        0 <= p.index <= p.last_index,
{
}

/// Law: pressing jump-to-start, then jump-to-end, then jump-to-start
/// again restores the state a fresh response shows. The rendered page
/// is a pure function of the cursor, so the embed is restored with it.
pub proof fn lemma_start_end_start_restores(p: Pages)
    requires
        p.index == 0,
    ensures
        Pages::spec_jump_start(Pages::spec_jump_end(Pages::spec_jump_start(p))) == p,
{
}

} // verus!

use vstd::prelude::*;
use crate::shell::{ShellEffect, ShellMessage, ShellModel, ShellViewTab, ProcessOutcome, shell_step, shell_effect_ok, shell_finished};

verus! {

/// The content tabs, one identifier each.
#[derive(Clone, Copy, Debug, PartialEq, Eq, Structural)]
pub enum TabId {
    Login,
    Ferris,
    Counter,
    Settings,
    Shell,
}

/// How many tabs are registered.
pub const TAB_COUNT: usize = 5;

/// A tab's place in the tab bar, in registration order.
pub open spec fn position_spec(id: TabId) -> nat {
    match id {
        TabId::Shell => 0,
        TabId::Login => 1,
        TabId::Ferris => 2,
        TabId::Counter => 3,
        TabId::Settings => 4,
    }
}

/// The tab registered at a place of the tab bar.
pub open spec fn tab_at_spec(i: nat) -> Option<TabId> {
    if i == 0 {
        Some(TabId::Shell)
    } else if i == 1 {
        Some(TabId::Login)
    } else if i == 2 {
        Some(TabId::Ferris)
    } else if i == 3 {
        Some(TabId::Counter)
    } else if i == 4 {
        Some(TabId::Settings)
    } else {
        None
    }
}

impl TabId {
    pub fn position(self) -> (r: usize)
        ensures
            r == position_spec(self),
            r < TAB_COUNT,
    {
        match self {
            TabId::Shell => 0,
            TabId::Login => 1,
            TabId::Ferris => 2,
            TabId::Counter => 3,
            TabId::Settings => 4,
        }
    }

    /// The tab at a place of the tab bar; a place past the last tab names none.
    pub fn at(i: usize) -> (r: Option<TabId>)
        ensures
            r == tab_at_spec(i as nat),
    {
        if i == 0 {
            Some(TabId::Shell)
        } else if i == 1 {
            Some(TabId::Login)
        } else if i == 2 {
            Some(TabId::Ferris)
        } else if i == 3 {
            Some(TabId::Counter)
        } else if i == 4 {
            Some(TabId::Settings)
        } else {
            None
        }
    }
}

/// Places and identifiers match one to one.
pub proof fn lemma_positions_match(id: TabId, i: nat)
    ensures
        tab_at_spec(position_spec(id)) == Some(id),
        position_spec(id) < TAB_COUNT,
        tab_at_spec(i) is Some <==> i < TAB_COUNT,
        tab_at_spec(i) is Some ==> position_spec(tab_at_spec(i).unwrap()) == i,
{
}

/// The router's state, as values.
pub struct RouterModel {
    pub active: TabId,
    pub shell: ShellModel,
}

/// The tab router: which tab is active, and the tabs' own state. A tab keeps
/// its state while another one is shown.
pub struct TabRouter {
    active: TabId,
    shell: ShellViewTab,
}

impl View for TabRouter {
    type V = RouterModel;

    closed spec fn view(&self) -> RouterModel {
        RouterModel { active: self.active, shell: self.shell@ }
    }
}

impl TabRouter {
    pub fn new(active: TabId) -> (r: Self)
        ensures
            r@.active == active,
            r@.shell.output.len() == 0,
            r@.shell.input.len() == 0,
    {
        TabRouter { active, shell: ShellViewTab::new() }
    }

    pub fn active_tab(&self) -> (r: TabId)
        ensures
            r == self@.active,
    {
        self.active
    }

    /// Makes a tab the active one; selecting the active tab changes nothing.
    pub fn select(&mut self, id: TabId)
        ensures
            final(self)@ == (RouterModel { active: id, ..old(self)@ }),
    {
        self.active = id;
    }

    /// The place in the tab bar whose content is drawn.
    pub fn render_active(&self) -> (r: usize)
        ensures
            r == position_spec(self@.active),
    {
        self.active.position()
    }

    pub fn shell(&self) -> (r: &ShellViewTab)
        ensures
            r@ == self@.shell,
    {
        &self.shell
    }

    /// Hands a message to the terminal tab, whether it is shown or not.
    pub fn dispatch_shell(&mut self, message: ShellMessage) -> (e: ShellEffect)
        ensures
            final(self)@ == (RouterModel { shell: shell_step(old(self)@.shell, message), ..old(self)@ }),
            shell_effect_ok(old(self)@.shell, message, e),
    {
        self.shell.update(message)
    }

    /// Hands the outcome of a command back to the terminal tab.
    pub fn finish_shell_command(&mut self, outcome: &ProcessOutcome)
        ensures
            final(self)@ == (RouterModel {
                shell: shell_finished(old(self)@.shell, outcome.captured_text@),
                ..old(self)@
            }),
    {
        self.shell.finish_command(outcome);
    }
}

} // verus!

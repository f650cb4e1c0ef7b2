//! State of the stash-message popup, the worktrees tab and the revision log
//! tab: what they show and what they ask the application to do.

use vstd::prelude::*;

verus! {

/// How a stash is taken.
#[derive(Copy, Clone, PartialEq, Eq, Debug, Structural)]
pub struct StashingOptions {
    pub stash_untracked: bool,
    pub keep_index: bool,
}

impl Default for StashingOptions {
    fn default() -> (r: Self)
        ensures
            !r.stash_untracked,
            !r.keep_index,
    {
        StashingOptions { stash_untracked: false, keep_index: false }
    }
}

/// The tabs of the application.
#[derive(Copy, Clone, PartialEq, Eq, Debug, Structural)]
pub enum AppTabs {
    Status,
    Log,
    Files,
    Stashing,
    Stashlist,
}

/// What a component asks the application to do.
#[derive(Clone, PartialEq, Eq, Debug)]
pub enum InternalEvent {
    TabSwitch(AppTabs),
    ShowErrorMsg(String),
}

/// A stash to take: in the repository at `repo`, with the message, if one
/// was typed, and the options.
#[derive(Clone, PartialEq, Eq, Debug)]
pub struct StashRequest {
    pub repo: String,
    pub message: Option<String>,
    pub stash_untracked: bool,
    pub keep_index: bool,
}

/// What became of a key press.
#[derive(Clone, PartialEq, Eq, Debug)]
pub enum EventOutcome {
    NotConsumed,
    Consumed,
    /// Consumed, and the stash is to be taken.
    Stash(StashRequest),
}

/// The popup that asks for a stash message.
pub struct StashMsgComponent {
    repo: String,
    options: StashingOptions,
    input: String,
    visible: bool,
}

impl StashMsgComponent {
    pub closed spec fn spec_repo(&self) -> Seq<char> {
        self.repo@
    }

    pub closed spec fn spec_options(&self) -> StashingOptions {
        self.options
    }

    pub closed spec fn spec_input(&self) -> Seq<char> {
        self.input@
    }

    pub closed spec fn spec_visible(&self) -> bool {
        self.visible
    }

    /// A hidden popup with an empty message and the default options.
    pub fn new(repo: String) -> (r: Self)
        ensures
            r.spec_repo() == repo@,
            r.spec_options() == (StashingOptions { stash_untracked: false, keep_index: false }),
            r.spec_input().len() == 0,
            !r.spec_visible(),
    {
        StashMsgComponent { repo, options: StashingOptions::default(), input: String::new(), visible: false }
    }

    /// Sets the options of the next stash.
    pub fn options(&mut self, options: StashingOptions)
        ensures
            final(self).spec_options() == options,
            final(self).spec_repo() == old(self).spec_repo(),
            final(self).spec_input() == old(self).spec_input(),
            final(self).spec_visible() == old(self).spec_visible(),
    {
        self.options = options;
    }

    /// The options of the next stash.
    pub fn stashing_options(&self) -> (r: StashingOptions)
        ensures
            r == self.spec_options(),
    {
        self.options
    }

    /// The message as typed so far.
    pub fn input(&self) -> (r: &str)
        ensures
            r@ == self.spec_input(),
    {
        self.input.as_str()
    }

    /// The typed message is now `text`.
    pub fn set_input(&mut self, text: String)
        ensures
            final(self).spec_input() == text@,
            final(self).spec_options() == old(self).spec_options(),
            final(self).spec_repo() == old(self).spec_repo(),
            final(self).spec_visible() == old(self).spec_visible(),
    {
        self.input = text;
    }

    pub fn is_visible(&self) -> (r: bool)
        ensures
            r == self.spec_visible(),
    {
        self.visible
    }

    pub fn close(&mut self)
        ensures
            !final(self).spec_visible(),
            final(self).spec_options() == old(self).spec_options(),
            final(self).spec_repo() == old(self).spec_repo(),
            final(self).spec_input() == old(self).spec_input(),
    {
        self.visible = false;
    }

    pub fn show(&mut self)
        ensures
            final(self).spec_visible(),
            final(self).spec_options() == old(self).spec_options(),
            final(self).spec_repo() == old(self).spec_repo(),
            final(self).spec_input() == old(self).spec_input(),
    {
        self.visible = true;
    }

    /// A key press that the message input did not take. A hidden popup
    /// ignores it; a visible one consumes it, and on enter asks for the
    /// stash: with the typed message, none where nothing was typed.
    pub fn on_key(&self, is_enter: bool) -> (r: EventOutcome)
        ensures
            !self.spec_visible() ==> r == EventOutcome::NotConsumed,
            self.spec_visible() && !is_enter ==> r == EventOutcome::Consumed,
            self.spec_visible() && is_enter ==> (r matches EventOutcome::Stash(req) && req.repo@
                == self.spec_repo() && req.stash_untracked == self.spec_options().stash_untracked
                && req.keep_index == self.spec_options().keep_index && (self.spec_input().len() == 0
                ==> req.message is None) && (self.spec_input().len() > 0 ==> req.message is Some
                && req.message->0@ == self.spec_input())),
    {
        if !self.visible {
            return EventOutcome::NotConsumed;
        }
        if !is_enter {
            return EventOutcome::Consumed;
        }
        let message = if self.input.as_str().is_empty() {
            None
        } else {
            Some(self.input.clone())
        };
        EventOutcome::Stash(
            StashRequest {
                repo: self.repo.clone(),
                message,
                stash_untracked: self.options.stash_untracked,
                keep_index: self.options.keep_index,
            },
        )
    }

    /// The stash that `on_key` asked for was taken (`Ok`) or failed with
    /// the given message. The popup closes either way; on success the
    /// message is cleared and the stash list is shown, on failure the error
    /// is shown.
    pub fn stash_done(&mut self, result: Result<(), String>) -> (r: InternalEvent)
        ensures
            !final(self).spec_visible(),
            final(self).spec_options() == old(self).spec_options(),
            final(self).spec_repo() == old(self).spec_repo(),
            result is Ok ==> final(self).spec_input().len() == 0 && r == InternalEvent::TabSwitch(AppTabs::Stashlist),
            result is Err ==> final(self).spec_input() == old(self).spec_input() && r
                == InternalEvent::ShowErrorMsg(result->Err_0),
    {
        self.visible = false;
        match result {
            Ok(()) => {
                self.input = String::new();
                InternalEvent::TabSwitch(AppTabs::Stashlist)
            },
            Err(msg) => InternalEvent::ShowErrorMsg(msg),
        }
    }
}

/// One worktree of the repository.
#[derive(Clone, PartialEq, Eq, Debug)]
pub struct WorkTree {
    pub name: String,
    pub path: String,
    pub is_locked: bool,
    pub is_valid: bool,
}

/// The tab that lists the repository's worktrees.
pub struct WorkTreesTab {
    repo: String,
    visible: bool,
    worktrees: Vec<WorkTree>,
}

impl WorkTreesTab {
    pub closed spec fn spec_repo(&self) -> Seq<char> {
        self.repo@
    }

    pub closed spec fn spec_visible(&self) -> bool {
        self.visible
    }

    pub closed spec fn spec_worktrees(&self) -> Seq<WorkTree> {
        self.worktrees@
    }

    /// A hidden tab with no worktrees listed yet.
    pub fn new(repo: String) -> (r: Self)
        ensures
            r.spec_repo() == repo@,
            !r.spec_visible(),
            r.spec_worktrees().len() == 0,
    {
        WorkTreesTab { repo, visible: false, worktrees: Vec::new() }
    }

    /// The repository whose worktrees are listed.
    pub fn repo(&self) -> (r: &str)
        ensures
            r@ == self.spec_repo(),
    {
        self.repo.as_str()
    }

    /// A new reading of the worktrees, `None` where it failed. A visible
    /// tab lists a successful reading; otherwise the list stays as it was.
    pub fn update(&mut self, worktrees: Option<Vec<WorkTree>>)
        ensures
            final(self).spec_visible() == old(self).spec_visible(),
            final(self).spec_repo() == old(self).spec_repo(),
            old(self).spec_visible() && worktrees is Some ==> final(self).spec_worktrees() == worktrees->0@,
            !(old(self).spec_visible() && worktrees is Some) ==> final(self).spec_worktrees() == old(
                self,
            ).spec_worktrees(),
    {
        if self.visible {
            if let Some(w) = worktrees {
                self.worktrees = w;
            }
        }
    }

    /// The worktrees listed.
    pub fn worktrees(&self) -> (r: &Vec<WorkTree>)
        ensures
            r@ == self.spec_worktrees(),
    {
        &self.worktrees
    }

    pub fn is_visible(&self) -> (r: bool)
        ensures
            r == self.spec_visible(),
    {
        self.visible
    }

    pub fn close(&mut self)
        ensures
            !final(self).spec_visible(),
            final(self).spec_repo() == old(self).spec_repo(),
            final(self).spec_worktrees() == old(self).spec_worktrees(),
    {
        self.visible = false;
    }

    /// Makes the tab visible; the caller then updates it with a fresh
    /// reading.
    pub fn show(&mut self)
        ensures
            final(self).spec_visible(),
            final(self).spec_repo() == old(self).spec_repo(),
            final(self).spec_worktrees() == old(self).spec_worktrees(),
    {
        self.visible = true;
    }
}

/// The revision log tab.
#[derive(Default, Clone, Copy, PartialEq, Eq, Debug)]
pub struct Revlog {}

} // verus!

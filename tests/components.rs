use asyncgit::{
    AppTabs, EventOutcome, InternalEvent, Revlog, StashMsgComponent, StashRequest, StashingOptions, WorkTree,
    WorkTreesTab,
};

#[test]
fn stash_popup_starts_hidden_with_defaults() {
    let c = StashMsgComponent::new("/repo".to_string());
    assert!(!c.is_visible());
    assert_eq!(c.input(), "");
    assert_eq!(c.on_key(true), EventOutcome::NotConsumed);
    assert_eq!(StashingOptions::default(), StashingOptions { stash_untracked: false, keep_index: false });
}

#[test]
fn stash_popup_enter_asks_for_stash() {
    let mut c = StashMsgComponent::new("/repo".to_string());
    c.options(StashingOptions { stash_untracked: true, keep_index: false });
    c.show();
    assert_eq!(c.on_key(false), EventOutcome::Consumed);
    assert_eq!(
        c.on_key(true),
        EventOutcome::Stash(StashRequest {
            repo: "/repo".to_string(),
            message: None,
            stash_untracked: true,
            keep_index: false
        })
    );
    c.set_input("wip".to_string());
    assert_eq!(
        c.on_key(true),
        EventOutcome::Stash(StashRequest {
            repo: "/repo".to_string(),
            message: Some("wip".to_string()),
            stash_untracked: true,
            keep_index: false
        })
    );
}

#[test]
fn stash_popup_done() {
    let mut c = StashMsgComponent::new("/repo".to_string());
    c.show();
    c.set_input("wip".to_string());
    assert_eq!(c.stash_done(Ok(())), InternalEvent::TabSwitch(AppTabs::Stashlist));
    assert!(!c.is_visible());
    assert_eq!(c.input(), "");
    c.show();
    c.set_input("again".to_string());
    assert_eq!(c.stash_done(Err("locked".to_string())), InternalEvent::ShowErrorMsg("locked".to_string()));
    assert!(!c.is_visible());
    assert_eq!(c.input(), "again");
    c.show();
    c.close();
    assert!(!c.is_visible());
}

#[test]
fn worktrees_tab_updates_only_when_visible() {
    let w = WorkTree { name: "main".to_string(), path: "/repo".to_string(), is_locked: false, is_valid: true };
    let mut tab = WorkTreesTab::new("/repo".to_string());
    assert!(!tab.is_visible());
    assert_eq!(tab.repo(), "/repo");
    tab.update(Some(vec![w.clone()]));
    assert!(tab.worktrees().is_empty());
    tab.show();
    tab.update(Some(vec![w.clone()]));
    assert_eq!(tab.worktrees(), &vec![w.clone()]);
    tab.update(None);
    assert_eq!(tab.worktrees(), &vec![w]);
    tab.close();
    assert!(!tab.is_visible());
}

#[test]
fn revlog_is_empty_state() {
    assert_eq!(Revlog::default(), Revlog {});
}

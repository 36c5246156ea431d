use role_reactions::reaction::{
    reaction_activate, toggle, EmojiRef, Member, ReactionEvent, ReactionKind, ReactionOutcome,
    ReactionPhase, RoleChange,
};
use role_reactions::rule::{RoleReactionRule, StoreError};

fn event(kind: ReactionKind, member_user_id: Option<u64>, emoji: EmojiRef) -> ReactionEvent {
    ReactionEvent { kind, guild_id: Some(100), channel_id: 200, user_id: Some(7), member_user_id, emoji }
}

fn event_with_member_only(kind: ReactionKind) -> ReactionEvent {
    ReactionEvent { kind, guild_id: Some(100), channel_id: 200, user_id: None, member_user_id: Some(7), emoji: EmojiRef::Custom(300) }
}

/// Runs one event to its end against a member with `roles`, a store holding `rule`, and a guild
/// with `guild_roles`; returns the outcome and the member's roles afterwards.
fn run(
    e: ReactionEvent,
    roles: &mut Vec<u64>,
    rule: Option<RoleReactionRule>,
    guild_roles: &[u64],
) -> (ReactionOutcome, usize) {
    let mut phase = reaction_activate(e);
    let mut calls = 0;
    loop {
        phase = match phase {
            ReactionPhase::Done(outcome) => return (outcome, calls),
            p @ ReactionPhase::FetchMember { user_id, .. } => {
                p.after_member(Some(Member { user_id, roles: roles.clone() }))
            }
            p @ ReactionPhase::LookupRule { .. } => p.after_lookup(Ok(rule)),
            p @ ReactionPhase::FetchRoles { .. } => p.after_roles(Some(guild_roles.to_vec())),
            p @ ReactionPhase::ChangeRole { role_id, change, .. } => {
                match change {
                    RoleChange::Add => roles.push(role_id),
                    RoleChange::Remove => roles.retain(|r| *r != role_id),
                }
                p.after_change(true)
            }
        };
        calls += 1;
    }
}

fn configured() -> Option<RoleReactionRule> {
    Some(RoleReactionRule::new(100, 200, 300, 400))
}

#[test]
fn reaction_add_then_remove_toggles_role() {
    let mut roles = vec![1];
    let (first, _) = run(event(ReactionKind::Added, None, EmojiRef::Custom(300)), &mut roles, configured(), &[1, 400]);
    assert_eq!(first, ReactionOutcome::Applied(RoleChange::Add));
    assert!(roles.contains(&400));
    let (second, _) = run(event(ReactionKind::Removed, None, EmojiRef::Custom(300)), &mut roles, configured(), &[1, 400]);
    assert_eq!(second, ReactionOutcome::Applied(RoleChange::Remove));
    assert!(!roles.contains(&400));
}

#[test]
fn double_delivery_is_observable() {
    let mut roles = vec![];
    let e = event(ReactionKind::Added, None, EmojiRef::Custom(300));
    let (once, _) = run(e.clone(), &mut roles, configured(), &[400]);
    assert_eq!(once, ReactionOutcome::Applied(RoleChange::Add));
    let (twice, _) = run(e, &mut roles, configured(), &[400]);
    assert_eq!(twice, ReactionOutcome::Applied(RoleChange::Remove));
    assert!(!roles.contains(&400));
}

#[test]
fn added_and_removed_reactions_behave_alike() {
    for held in [false, true] {
        let start = if held { vec![400] } else { vec![] };
        let mut a = start.clone();
        let mut b = start.clone();
        let ra = run(event(ReactionKind::Added, None, EmojiRef::Custom(300)), &mut a, configured(), &[400]);
        let rb = run(event(ReactionKind::Removed, None, EmojiRef::Custom(300)), &mut b, configured(), &[400]);
        assert_eq!(ra, rb);
        assert_eq!(a, b);
    }
}

#[test]
fn unicode_emoji_is_ignored_at_once() {
    let mut roles = vec![400];
    let e = event(ReactionKind::Added, None, EmojiRef::Unicode("\u{1F642}".to_string()));
    let (outcome, calls) = run(e, &mut roles, configured(), &[400]);
    assert_eq!(outcome, ReactionOutcome::Ignored);
    assert_eq!(calls, 0);
    assert_eq!(roles, vec![400]);
}

#[test]
fn direct_message_is_ignored() {
    let mut e = event(ReactionKind::Added, None, EmojiRef::Custom(300));
    e.guild_id = None;
    assert!(matches!(reaction_activate(e), ReactionPhase::Done(ReactionOutcome::Ignored)));
}

#[test]
fn event_member_is_fetched_afresh() {
    let phase = reaction_activate(event_with_member_only(ReactionKind::Added));
    assert!(matches!(phase, ReactionPhase::FetchMember { guild_id: 100, user_id: 7, channel_id: 200, emoji_id: 300 }));
    let phase = reaction_activate(event(ReactionKind::Added, Some(7), EmojiRef::Custom(300)));
    assert!(matches!(phase, ReactionPhase::FetchMember { user_id: 7, .. }));
}

#[test]
fn double_delivery_with_member_is_observable() {
    let mut roles = vec![1];
    let e = event(ReactionKind::Added, Some(7), EmojiRef::Custom(300));
    let (once, _) = run(e.clone(), &mut roles, configured(), &[1, 400]);
    assert_eq!(once, ReactionOutcome::Applied(RoleChange::Add));
    assert!(roles.contains(&400));
    let (twice, _) = run(e, &mut roles, configured(), &[1, 400]);
    assert_eq!(twice, ReactionOutcome::Applied(RoleChange::Remove));
    assert_eq!(roles, vec![1]);
    let only_member = event_with_member_only(ReactionKind::Added);
    let (third, _) = run(only_member.clone(), &mut roles, configured(), &[1, 400]);
    let (fourth, _) = run(only_member, &mut roles, configured(), &[1, 400]);
    assert_eq!((third, fourth), (ReactionOutcome::Applied(RoleChange::Add), ReactionOutcome::Applied(RoleChange::Remove)));
    assert_eq!(roles, vec![1]);
}

#[test]
fn missing_user_and_member_ends_without_change() {
    let mut e = event(ReactionKind::Added, None, EmojiRef::Custom(300));
    e.user_id = None;
    assert!(matches!(reaction_activate(e), ReactionPhase::Done(ReactionOutcome::MemberUnavailable)));
}

#[test]
fn member_fetch_failure_ends_quietly() {
    let phase = reaction_activate(event(ReactionKind::Added, None, EmojiRef::Custom(300)));
    assert!(matches!(phase, ReactionPhase::FetchMember { guild_id: 100, user_id: 7, channel_id: 200, emoji_id: 300 }));
    assert!(matches!(phase.after_member(None), ReactionPhase::Done(ReactionOutcome::MemberUnavailable)));
}

#[test]
fn no_rule_and_store_failure_end_without_change() {
    let mut roles = vec![];
    let (outcome, _) = run(event(ReactionKind::Added, None, EmojiRef::Custom(300)), &mut roles, None, &[400]);
    assert_eq!(outcome, ReactionOutcome::NoRule);
    let lookup = ReactionPhase::LookupRule { guild_id: 100, channel_id: 200, emoji_id: 300, member: Member { user_id: 7, roles: vec![] } };
    assert!(matches!(
        lookup.after_lookup(Err(StoreError::Unavailable)),
        ReactionPhase::Done(ReactionOutcome::StoreFailed(StoreError::Unavailable))
    ));
}

#[test]
fn deleted_role_is_reported_missing() {
    let mut roles = vec![];
    let (outcome, _) = run(event(ReactionKind::Added, None, EmojiRef::Custom(300)), &mut roles, configured(), &[1, 2]);
    assert_eq!(outcome, ReactionOutcome::RoleMissing);
    assert!(roles.is_empty());
}

#[test]
fn platform_failures_are_reported() {
    let fetch = ReactionPhase::FetchRoles { guild_id: 100, member: Member { user_id: 7, roles: vec![] }, role_id: 400 };
    assert!(matches!(fetch.after_roles(None), ReactionPhase::Done(ReactionOutcome::PlatformFailed)));
    let change = ReactionPhase::ChangeRole { guild_id: 100, user_id: 7, role_id: 400, change: RoleChange::Add };
    assert!(matches!(change.after_change(false), ReactionPhase::Done(ReactionOutcome::PlatformFailed)));
}

#[test]
fn change_targets_member_and_role() {
    let fetch = ReactionPhase::FetchRoles { guild_id: 100, member: Member { user_id: 7, roles: vec![400] }, role_id: 400 };
    assert!(matches!(
        fetch.after_roles(Some(vec![400])),
        ReactionPhase::ChangeRole { guild_id: 100, user_id: 7, role_id: 400, change: RoleChange::Remove }
    ));
}

#[test]
fn done_phase_is_final() {
    let done = ReactionPhase::Done(ReactionOutcome::NoRule);
    assert!(done.is_done());
    let done = done.after_member(Some(Member { user_id: 1, roles: vec![] }));
    let done = done.after_lookup(Ok(configured()));
    let done = done.after_roles(Some(vec![400]));
    let done = done.after_change(true);
    assert!(matches!(done, ReactionPhase::Done(ReactionOutcome::NoRule)));
}

#[test]
fn toggle_follows_membership() {
    assert_eq!(toggle(&Member { user_id: 1, roles: vec![3, 400] }, 400), RoleChange::Remove);
    assert_eq!(toggle(&Member { user_id: 1, roles: vec![3] }, 400), RoleChange::Add);
    assert_eq!(toggle(&Member { user_id: 1, roles: vec![] }, 400), RoleChange::Add);
}

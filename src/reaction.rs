//! The reaction handler: from a reaction event to the role change it calls for.
//!
//! Handling an event takes several platform and store calls. The handler is a state machine:
//! each phase names the call to make next, and the result of that call moves it on, until a
//! `Done` phase says how the event ended.
use vstd::prelude::*;

use crate::rule::{RoleReactionRule, StoreError};

verus! {

#[derive(Clone, Copy, Debug, PartialEq, Eq, Structural)]
pub enum ReactionKind {
    Added,
    Removed,
}

/// The emoji of a reaction: a custom emoji has an id, a Unicode glyph has none.
#[derive(Clone, Debug)]
pub enum EmojiRef {
    Custom(u64),
    Unicode(String),
}

/// A user's membership in a guild: the roles the user holds.
#[derive(Clone, Debug)]
pub struct Member {
    pub user_id: u64,
    pub roles: Vec<u64>,
}

/// A reaction added to or removed from a message.
#[derive(Clone, Debug)]
pub struct ReactionEvent {
    pub kind: ReactionKind,
    /// Absent for direct messages.
    pub guild_id: Option<u64>,
    pub channel_id: u64,
    pub user_id: Option<u64>,
    /// The user id of the reacting member, when the platform sends the member along. Its roles
    /// are not taken from the event: they may be stale, so the member is always fetched.
    pub member_user_id: Option<u64>,
    pub emoji: EmojiRef,
}

#[derive(Clone, Copy, Debug, PartialEq, Eq, Structural)]
pub enum RoleChange {
    Add,
    Remove,
}

/// How handling an event ended.
#[derive(Clone, Copy, Debug, PartialEq, Eq, Structural)]
pub enum ReactionOutcome {
    /// Not a guild event, or not a custom emoji.
    Ignored,
    /// The reacting member could not be had.
    MemberUnavailable,
    /// No rule is configured for the channel and emoji.
    NoRule,
    /// The rule lookup failed.
    StoreFailed(StoreError),
    /// The rule's role no longer exists in the guild.
    RoleMissing,
    /// The platform refused a call.
    PlatformFailed,
    /// The role was granted or revoked.
    Applied(RoleChange),
}

/// Where the handling of one event stands; each phase but `Done` names the next call to make.
#[derive(Clone, Debug)]
pub enum ReactionPhase {
    Done(ReactionOutcome),
    /// Fetch the member `user_id` of the guild.
    FetchMember { guild_id: u64, user_id: u64, channel_id: u64, emoji_id: u64 },
    /// Look up the rule for the channel and emoji.
    LookupRule { guild_id: u64, channel_id: u64, emoji_id: u64, member: Member },
    /// Fetch the ids of the guild's roles.
    FetchRoles { guild_id: u64, member: Member, role_id: u64 },
    /// Grant or revoke the role.
    ChangeRole { guild_id: u64, user_id: u64, role_id: u64, change: RoleChange },
}

/// The change that a reaction calls for: revoke a held role, grant one not held. Which kind
/// of reaction arrived plays no part.
pub open spec fn toggle_for(holds: bool) -> RoleChange {
    if holds {
        RoleChange::Remove
    } else {
        RoleChange::Add
    }
}

/// The roles a member holds once a change of `role_id` is made.
pub open spec fn roles_after(roles: Set<u64>, role_id: u64, change: RoleChange) -> Set<u64> {
    match change {
        RoleChange::Add => roles.insert(role_id),
        RoleChange::Remove => roles.remove(role_id),
    }
}

/// The reacting user: the event's user id, else the id of the member it carries.
pub open spec fn reacting_user(e: ReactionEvent) -> Option<u64> {
    match e.user_id {
        Some(u) => Some(u),
        None => e.member_user_id,
    }
}

/// The first phase for an event: direct messages and Unicode emoji are ignored; otherwise the
/// reacting member is fetched, so that its current roles decide the change.
pub open spec fn start_phase(e: ReactionEvent) -> ReactionPhase {
    match (e.guild_id, e.emoji) {
        (Some(guild_id), EmojiRef::Custom(emoji_id)) => match reacting_user(e) {
            Some(user_id) => ReactionPhase::FetchMember { guild_id, user_id, channel_id: e.channel_id, emoji_id },
            None => ReactionPhase::Done(ReactionOutcome::MemberUnavailable),
        },
        _ => ReactionPhase::Done(ReactionOutcome::Ignored),
    }
}

/// Whether `roles` holds `role_id`.
pub fn holds_role(roles: &Vec<u64>, role_id: u64) -> (r: bool)
    ensures
        r == roles@.contains(role_id),
{
    let mut i: usize = 0;
    while i < roles.len()
        invariant
            i <= roles@.len(),
            forall|j: int| 0 <= j < i ==> roles@[j] != role_id,
        decreases roles@.len() - i,
    {
        if roles[i] == role_id {
            assert(roles@[i as int] == role_id);
            return true;
        }
        i = i + 1;
    }
    false
}

/// The change a reaction calls for on `member`.
pub fn toggle(member: &Member, role_id: u64) -> (r: RoleChange)
    ensures
        r == toggle_for(member.roles@.contains(role_id)),
{
    if holds_role(&member.roles, role_id) {
        RoleChange::Remove
    } else {
        RoleChange::Add
    }
}

/// Starts handling a reaction event.
pub fn reaction_activate(event: ReactionEvent) -> (r: ReactionPhase)
    ensures
        r == start_phase(event),
{
    let guild_id = match event.guild_id {
        Some(g) => g,
        None => return ReactionPhase::Done(ReactionOutcome::Ignored),
    };
    let emoji_id = match event.emoji {
        EmojiRef::Custom(id) => id,
        EmojiRef::Unicode(_) => return ReactionPhase::Done(ReactionOutcome::Ignored),
    };
    let user_id = match event.user_id {
        Some(u) => u,
        None => match event.member_user_id {
            Some(u) => u,
            None => return ReactionPhase::Done(ReactionOutcome::MemberUnavailable),
        },
    };
    ReactionPhase::FetchMember { guild_id, user_id, channel_id: event.channel_id, emoji_id }
}

impl ReactionPhase {
    /// Moves on from `FetchMember` with the member, if it could be fetched. Any other phase
    /// is returned as it is.
    pub fn after_member(self, fetched: Option<Member>) -> (r: ReactionPhase)
        ensures
            match self {
                ReactionPhase::FetchMember { guild_id, channel_id, emoji_id, .. } => match fetched {
                    Some(member) => r == ReactionPhase::LookupRule { guild_id, channel_id, emoji_id, member },
                    None => r == ReactionPhase::Done(ReactionOutcome::MemberUnavailable),
                },
                _ => r == self,
            },
    {
        match self {
            ReactionPhase::FetchMember { guild_id, channel_id, emoji_id, .. } => match fetched {
                Some(member) => ReactionPhase::LookupRule { guild_id, channel_id, emoji_id, member },
                None => ReactionPhase::Done(ReactionOutcome::MemberUnavailable),
            },
            _ => self,
        }
    }

    /// Moves on from `LookupRule` with what the lookup gave. Any other phase is returned as it is.
    pub fn after_lookup(self, found: Result<Option<RoleReactionRule>, StoreError>) -> (r: ReactionPhase)
        ensures
            match self {
                ReactionPhase::LookupRule { guild_id, member, .. } => match found {
                    Err(e) => r == ReactionPhase::Done(ReactionOutcome::StoreFailed(e)),
                    Ok(None) => r == ReactionPhase::Done(ReactionOutcome::NoRule),
                    Ok(Some(rule)) => r == ReactionPhase::FetchRoles { guild_id, member, role_id: rule.role_id },
                },
                _ => r == self,
            },
    {
        match self {
            ReactionPhase::LookupRule { guild_id, member, .. } => match found {
                Err(e) => ReactionPhase::Done(ReactionOutcome::StoreFailed(e)),
                Ok(None) => ReactionPhase::Done(ReactionOutcome::NoRule),
                Ok(Some(rule)) => ReactionPhase::FetchRoles { guild_id, member, role_id: rule.role_id },
            },
            _ => self,
        }
    }

    /// Moves on from `FetchRoles` with the guild's role ids, if they could be fetched: the
    /// role is granted if the member lacks it and revoked if the member holds it. Any other
    /// phase is returned as it is.
    pub fn after_roles(self, guild_roles: Option<Vec<u64>>) -> (r: ReactionPhase)
        ensures
            match self {
                ReactionPhase::FetchRoles { guild_id, member, role_id } => match guild_roles {
                    None => r == ReactionPhase::Done(ReactionOutcome::PlatformFailed),
                    Some(ids) => if ids@.contains(role_id) {
                        r == ReactionPhase::ChangeRole {
                            guild_id,
                            user_id: member.user_id,
                            role_id,
                            change: toggle_for(member.roles@.contains(role_id)),
                        }
                    } else {
                        r == ReactionPhase::Done(ReactionOutcome::RoleMissing)
                    },
                },
                _ => r == self,
            },
    {
        match self {
            ReactionPhase::FetchRoles { guild_id, member, role_id } => match guild_roles {
                None => ReactionPhase::Done(ReactionOutcome::PlatformFailed),
                Some(ids) => {
                    if holds_role(&ids, role_id) {
                        let change = toggle(&member, role_id);
                        ReactionPhase::ChangeRole { guild_id, user_id: member.user_id, role_id, change }
                    } else {
                        ReactionPhase::Done(ReactionOutcome::RoleMissing)
                    }
                },
            },
            _ => self,
        }
    }

    /// Moves on from `ChangeRole` by whether the platform made the change. Any other phase is
    /// returned as it is.
    pub fn after_change(self, succeeded: bool) -> (r: ReactionPhase)
        ensures
            match self {
                ReactionPhase::ChangeRole { change, .. } => if succeeded {
                    r == ReactionPhase::Done(ReactionOutcome::Applied(change))
                } else {
                    r == ReactionPhase::Done(ReactionOutcome::PlatformFailed)
                },
                _ => r == self,
            },
    {
        match self {
            ReactionPhase::ChangeRole { change, .. } => if succeeded {
                ReactionPhase::Done(ReactionOutcome::Applied(change))
            } else {
                ReactionPhase::Done(ReactionOutcome::PlatformFailed)
            },
            _ => self,
        }
    }

    pub fn is_done(&self) -> (r: bool)
        ensures
            r == (*self is Done),
    {
        match self {
            ReactionPhase::Done(_) => true,
            _ => false,
        }
    }
}

/// The handler does not deduplicate events. Every delivery of an event on a guild and custom
/// emoji begins by fetching the member afresh, and the change is chosen from the roles fetched
/// then; so a second delivery of the same event, after the first change was made, calls for the
/// opposite change, which leaves the member's roles as they were before the first.
pub proof fn lemma_double_delivery_toggles_back(e: ReactionEvent, roles: Set<u64>, role_id: u64)
    requires
        e.guild_id is Some,
        e.emoji is Custom,
        reacting_user(e) is Some,
    ensures
        start_phase(e) is FetchMember,
        ({
            let first = toggle_for(roles.contains(role_id));
            let between = roles_after(roles, role_id, first);
            let second = toggle_for(between.contains(role_id));
            &&& first != second
            &&& roles_after(between, role_id, second).contains(role_id) == roles.contains(role_id)
        }),
{
}

/// Added and removed reactions are handled alike: two events that differ only in their kind
/// start the same way, and no later phase reads the event.
pub proof fn lemma_kind_is_irrelevant(a: ReactionEvent, b: ReactionEvent)
    requires
        a.guild_id == b.guild_id,
        a.channel_id == b.channel_id,
        a.user_id == b.user_id,
        a.member_user_id == b.member_user_id,
        a.emoji == b.emoji,
    ensures
        start_phase(a) == start_phase(b),
{
}

/// A reaction with a Unicode emoji ends at once: no member fetch, rule lookup or role change.
pub proof fn lemma_unicode_emoji_is_inert(e: ReactionEvent)
    requires
        e.emoji is Unicode,
    ensures
        start_phase(e) == ReactionPhase::Done(ReactionOutcome::Ignored),
{
}

} // verus!

//! The configuration repository: the set of role-reaction rules and the operations on it.
use vstd::prelude::*;

use crate::rule::{Flag, RoleReactionRule, matches_triple, same_binding};

verus! {

/// Every rule of `guild_id`, in stored order.
pub open spec fn guild_rules(s: Seq<RoleReactionRule>, guild_id: u64) -> Seq<RoleReactionRule> {
    s.filter(|r: RoleReactionRule| r.guild_id == guild_id)
}

pub open spec fn has_binding(s: Seq<RoleReactionRule>, rule: RoleReactionRule) -> bool {
    exists|i: int| 0 <= i < s.len() && same_binding(#[trigger] s[i], rule)
}

/// Inserting a rule unless one with the same binding is already stored.
pub open spec fn upsert_spec(s: Seq<RoleReactionRule>, rule: RoleReactionRule) -> Seq<RoleReactionRule> {
    if has_binding(s, rule) {
        s
    } else {
        s.push(rule)
    }
}

/// Dropping every rule of the (guild, channel, role) triple, whatever its emoji.
pub open spec fn delete_spec(s: Seq<RoleReactionRule>, guild_id: u64, channel_id: u64, role_id: u64) -> Seq<
    RoleReactionRule,
> {
    s.filter(|r: RoleReactionRule| !matches_triple(r, guild_id, channel_id, role_id))
}

/// Setting `flag` to `value` on every rule of the (guild, channel, role) triple.
pub open spec fn set_flag_spec(
    s: Seq<RoleReactionRule>,
    guild_id: u64,
    channel_id: u64,
    role_id: u64,
    flag: Flag,
    value: bool,
) -> Seq<RoleReactionRule> {
    s.map_values(
        |r: RoleReactionRule|
            if matches_triple(r, guild_id, channel_id, role_id) {
                r.with_flag_spec(flag, value)
            } else {
                r
            },
    )
}

pub open spec fn fires_on(r: RoleReactionRule, channel_id: u64, emoji_id: u64) -> bool {
    r.channel_id == channel_id && r.emoji_id == emoji_id
}

/// `s[i]` is the rule that a reaction in `channel_id` with `emoji_id` resolves to: the first
/// of the rules with the smallest role among those that fire there.
pub open spec fn is_lookup_choice(s: Seq<RoleReactionRule>, channel_id: u64, emoji_id: u64, i: int) -> bool {
    &&& 0 <= i < s.len()
    &&& fires_on(s[i], channel_id, emoji_id)
    &&& forall|j: int|
        0 <= j < s.len() && fires_on(#[trigger] s[j], channel_id, emoji_id) ==> s[i].role_id <= s[j].role_id
    &&& forall|j: int|
        0 <= j < i && fires_on(#[trigger] s[j], channel_id, emoji_id) ==> s[i].role_id < s[j].role_id
}

/// No two stored rules share a binding.
pub open spec fn unique_bindings(s: Seq<RoleReactionRule>) -> bool {
    forall|i: int, j: int| 0 <= i < j < s.len() ==> !same_binding(#[trigger] s[i], #[trigger] s[j])
}

/// Among `rules`, the one a reaction in `channel_id` with `emoji_id` resolves to: the first of
/// those with the smallest role.
pub fn pick_rule(rules: &Vec<RoleReactionRule>, channel_id: u64, emoji_id: u64) -> (r: Option<RoleReactionRule>)
    ensures
        r is None <==> forall|i: int| 0 <= i < rules@.len() ==> !fires_on(#[trigger] rules@[i], channel_id, emoji_id),
        r matches Some(rule) ==> exists|i: int| is_lookup_choice(rules@, channel_id, emoji_id, i) && rules@[i] == rule,
{
    let mut best: Option<usize> = None;
    let mut i: usize = 0;
    while i < rules.len()
        invariant
            i <= rules@.len(),
            best is None ==> forall|j: int| 0 <= j < i ==> !fires_on(#[trigger] rules@[j], channel_id, emoji_id),
            best matches Some(b) ==> b < i && is_lookup_choice(rules@.subrange(0, i as int), channel_id, emoji_id, b as int),
        decreases rules@.len() - i,
    {
        let r = rules[i];
        if r.channel_id == channel_id && r.emoji_id == emoji_id {
            match best {
                None => {
                    best = Some(i);
                },
                Some(b) => {
                    if r.role_id < rules[b].role_id {
                        best = Some(i);
                    }
                },
            }
        }
        proof {
            let s = rules@.subrange(0, i + 1);
            let p = rules@.subrange(0, i as int);
            assert forall|j: int| 0 <= j < i implies #[trigger] s[j] == p[j] by {}
        }
        i = i + 1;
    }
    assert(rules@.subrange(0, rules@.len() as int) =~= rules@);
    match best {
        None => None,
        Some(b) => {
            assert(is_lookup_choice(rules@, channel_id, emoji_id, b as int));
            assert(fires_on(rules@[b as int], channel_id, emoji_id));
            Some(rules[b])
        },
    }
}

/// An in-memory repository of role-reaction rules.
pub struct RuleStore {
    rules: Vec<RoleReactionRule>,
}

impl View for RuleStore {
    type V = Seq<RoleReactionRule>;

    closed spec fn view(&self) -> Seq<RoleReactionRule> {
        self.rules@
    }
}

impl RuleStore {
    pub open spec fn wf(&self) -> bool {
        unique_bindings(self@)
    }

    pub fn new() -> (r: RuleStore)
        ensures
            r@ == Seq::<RoleReactionRule>::empty(),
            r.wf(),
    {
        RuleStore { rules: Vec::new() }
    }

    /// Every rule of the guild, in stored order.
    pub fn list_for_guild(&self, guild_id: u64) -> (r: Vec<RoleReactionRule>)
        ensures
            r@ == guild_rules(self@, guild_id),
    {
        let mut out: Vec<RoleReactionRule> = Vec::new();
        let mut i: usize = 0;
        while i < self.rules.len()
            invariant
                i <= self.rules@.len(),
                out@ == guild_rules(self.rules@.subrange(0, i as int), guild_id),
            decreases self.rules@.len() - i,
        {
            proof {
                let s = self.rules@.subrange(0, i + 1);
                assert(s.drop_last() =~= self.rules@.subrange(0, i as int));
                reveal(Seq::filter);
            }
            if self.rules[i].guild_id == guild_id {
                out.push(self.rules[i]);
            }
            i = i + 1;
        }
        assert(self.rules@.subrange(0, self.rules@.len() as int) =~= self.rules@);
        out
    }

    /// The rule a reaction in `channel_id` with `emoji_id` resolves to, if any; among several,
    /// the first with the smallest role.
    pub fn lookup_by_channel_and_emoji(&self, channel_id: u64, emoji_id: u64) -> (r: Option<RoleReactionRule>)
        ensures
            r is None <==> forall|i: int| 0 <= i < self@.len() ==> !fires_on(#[trigger] self@[i], channel_id, emoji_id),
            r matches Some(rule) ==> exists|i: int| is_lookup_choice(self@, channel_id, emoji_id, i) && self@[i] == rule,
    {
        assert(self@ == self.rules@);
        pick_rule(&self.rules, channel_id, emoji_id)
    }

}

proof fn lemma_unique_bindings_filter(s: Seq<RoleReactionRule>, p: spec_fn(RoleReactionRule) -> bool)
    requires
        unique_bindings(s),
    ensures
        unique_bindings(s.filter(p)),
    decreases s.len(),
{
    reveal(Seq::filter);
    if s.len() > 0 {
        let rest = s.drop_last();
        assert(unique_bindings(rest)) by {
            assert forall|i: int, j: int| 0 <= i < j < rest.len() implies !same_binding(
                #[trigger] rest[i],
                #[trigger] rest[j],
            ) by {
                assert(rest[i] == s[i] && rest[j] == s[j]);
            }
        }
        lemma_unique_bindings_filter(rest, p);
        let fr = rest.filter(p);
        if p(s.last()) {
            let f = fr.push(s.last());
            assert forall|i: int, j: int| 0 <= i < j < f.len() implies !same_binding(
                #[trigger] f[i],
                #[trigger] f[j],
            ) by {
                if j == f.len() - 1 {
                    assert(fr.contains(f[i]));
                    rest.lemma_filter_contains_rev(p, f[i]);
                    let k = choose|k: int| 0 <= k < rest.len() && rest[k] == f[i];
                    assert(s[k] == f[i]);
                    assert(!same_binding(s[k], s[s.len() - 1]));
                } else {
                    assert(f[i] == fr[i] && f[j] == fr[j]);
                }
            }
        }
    }
}

proof fn lemma_unique_bindings_set_flag(
    s: Seq<RoleReactionRule>,
    guild_id: u64,
    channel_id: u64,
    role_id: u64,
    flag: Flag,
    value: bool,
)
    requires
        unique_bindings(s),
    ensures
        unique_bindings(set_flag_spec(s, guild_id, channel_id, role_id, flag, value)),
{
    let t = set_flag_spec(s, guild_id, channel_id, role_id, flag, value);
    assert forall|i: int, j: int| 0 <= i < j < t.len() implies !same_binding(#[trigger] t[i], #[trigger] t[j]) by {
        assert(same_binding(t[i], s[i]) && same_binding(t[j], s[j]));
    }
}

impl RuleStore {
    /// Inserts `rule` unless a rule with the same guild, channel, emoji and role is stored.
    pub fn upsert(&mut self, rule: RoleReactionRule)
        requires
            old(self).wf(),
        ensures
            final(self)@ == upsert_spec(old(self)@, rule),
            final(self).wf(),
    {
        let mut i: usize = 0;
        let mut found = false;
        while i < self.rules.len()
            invariant
                i <= self.rules@.len(),
                found ==> has_binding(self.rules@, rule),
                !found ==> forall|j: int| 0 <= j < i ==> !same_binding(#[trigger] self.rules@[j], rule),
            decreases self.rules@.len() - i,
        {
            let r = self.rules[i];
            if r.guild_id == rule.guild_id && r.channel_id == rule.channel_id && r.emoji_id == rule.emoji_id
                && r.role_id == rule.role_id {
                found = true;
            }
            i = i + 1;
        }
        if !found {
            self.rules.push(rule);
            proof {
                let s = self.rules@;
                assert forall|a: int, b: int| 0 <= a < b < s.len() implies !same_binding(#[trigger] s[a], #[trigger] s[b]) by {
                    if b == s.len() - 1 {
                        assert(s[a] == old(self).rules@[a]);
                    } else {
                        assert(s[a] == old(self).rules@[a] && s[b] == old(self).rules@[b]);
                    }
                }
            }
        }
    }

    /// Deletes every rule of the (guild, channel, role) triple, whatever its emoji.
    pub fn delete_by_guild_channel_role(&mut self, guild_id: u64, channel_id: u64, role_id: u64)
        requires
            old(self).wf(),
        ensures
            final(self)@ == delete_spec(old(self)@, guild_id, channel_id, role_id),
            final(self).wf(),
    {
        let mut kept: Vec<RoleReactionRule> = Vec::new();
        let mut i: usize = 0;
        while i < self.rules.len()
            invariant
                i <= self.rules@.len(),
                kept@ == delete_spec(self.rules@.subrange(0, i as int), guild_id, channel_id, role_id),
            decreases self.rules@.len() - i,
        {
            proof {
                let s = self.rules@.subrange(0, i + 1);
                assert(s.drop_last() =~= self.rules@.subrange(0, i as int));
                reveal(Seq::filter);
            }
            let r = self.rules[i];
            if !(r.guild_id == guild_id && r.channel_id == channel_id && r.role_id == role_id) {
                kept.push(r);
            }
            i = i + 1;
        }
        assert(self.rules@.subrange(0, self.rules@.len() as int) =~= self.rules@);
        proof {
            lemma_unique_bindings_filter(
                self.rules@,
                |r: RoleReactionRule| !matches_triple(r, guild_id, channel_id, role_id),
            );
        }
        self.rules = kept;
    }

    /// Sets `flag` to `value` on every rule of the (guild, channel, role) triple.
    pub fn set_flag(&mut self, guild_id: u64, channel_id: u64, role_id: u64, flag: Flag, value: bool)
        requires
            old(self).wf(),
        ensures
            final(self)@ == set_flag_spec(old(self)@, guild_id, channel_id, role_id, flag, value),
            final(self).wf(),
    {
        let ghost before = self.rules@;
        let mut i: usize = 0;
        while i < self.rules.len()
            invariant
                i <= self.rules@.len(),
                self.rules@.len() == before.len(),
                forall|j: int| 0 <= j < i ==> #[trigger] self.rules@[j] == set_flag_spec(before, guild_id, channel_id, role_id, flag, value)[j],
                forall|j: int| i <= j < before.len() ==> #[trigger] self.rules@[j] == before[j],
            decreases self.rules@.len() - i,
        {
            let r = self.rules[i];
            if r.guild_id == guild_id && r.channel_id == channel_id && r.role_id == role_id {
                let updated = r.with_flag(flag, value);
                self.rules.set(i, updated);
            }
            i = i + 1;
        }
        assert(self.rules@ =~= set_flag_spec(before, guild_id, channel_id, role_id, flag, value));
        proof {
            lemma_unique_bindings_set_flag(before, guild_id, channel_id, role_id, flag, value);
        }
    }
}

/// Upserting the same rule twice has the effect of upserting it once.
pub proof fn lemma_upsert_absorbs(s: Seq<RoleReactionRule>, rule: RoleReactionRule)
    ensures
        upsert_spec(upsert_spec(s, rule), rule) == upsert_spec(s, rule),
{
    if !has_binding(s, rule) {
        let t = s.push(rule);
        assert(same_binding(t[s.len() as int], rule));
    }
}

/// After deleting a (guild, channel, role) triple, listing the guild shows no rule of that
/// channel and role, whatever its emoji.
pub proof fn lemma_delete_breadth(s: Seq<RoleReactionRule>, guild_id: u64, channel_id: u64, role_id: u64)
    ensures
        forall|i: int|
            0 <= i < guild_rules(delete_spec(s, guild_id, channel_id, role_id), guild_id).len() ==> {
                let r = #[trigger] guild_rules(delete_spec(s, guild_id, channel_id, role_id), guild_id)[i];
                !(r.channel_id == channel_id && r.role_id == role_id)
            },
{
    let kept_pred = |r: RoleReactionRule| !matches_triple(r, guild_id, channel_id, role_id);
    let guild_pred = |r: RoleReactionRule| r.guild_id == guild_id;
    let d = delete_spec(s, guild_id, channel_id, role_id);
    let l = guild_rules(d, guild_id);
    assert forall|i: int| 0 <= i < l.len() implies !(#[trigger] l[i].channel_id == channel_id && l[i].role_id
        == role_id) by {
        d.lemma_filter_pred(guild_pred, i);
        assert(l.contains(l[i]));
        d.lemma_filter_contains_rev(guild_pred, l[i]);
        let k = choose|k: int| 0 <= k < d.len() && d[k] == l[i];
        s.lemma_filter_pred(kept_pred, k);
    }
}

/// After upserting a rule, listing its guild shows a rule with its guild, channel, emoji and role.
pub proof fn lemma_upsert_then_list_has_binding(s: Seq<RoleReactionRule>, rule: RoleReactionRule)
    ensures
        has_binding(guild_rules(upsert_spec(s, rule), rule.guild_id), rule),
{
    let t = upsert_spec(s, rule);
    let guild_pred = |r: RoleReactionRule| r.guild_id == rule.guild_id;
    let k = if has_binding(s, rule) {
        choose|k: int| 0 <= k < s.len() && same_binding(#[trigger] s[k], rule)
    } else {
        s.len() as int
    };
    assert(same_binding(t[k], rule));
    t.lemma_filter_contains(guild_pred, k);
    let l = guild_rules(t, rule.guild_id);
    let j = choose|j: int| 0 <= j < l.len() && l[j] == t[k];
    assert(same_binding(l[j], rule));
}

/// After upserting a rule, listing its guild shows a rule equal to it on every field, unless a
/// rule with the same binding but other flags was stored before (the upsert then keeps that one).
pub proof fn lemma_upsert_then_list_contains(s: Seq<RoleReactionRule>, rule: RoleReactionRule)
    requires
        forall|i: int| 0 <= i < s.len() && same_binding(#[trigger] s[i], rule) ==> s[i] == rule,
    ensures
        guild_rules(upsert_spec(s, rule), rule.guild_id).contains(rule),
{
    let t = upsert_spec(s, rule);
    let guild_pred = |r: RoleReactionRule| r.guild_id == rule.guild_id;
    let k = if has_binding(s, rule) {
        choose|k: int| 0 <= k < s.len() && same_binding(#[trigger] s[k], rule)
    } else {
        s.len() as int
    };
    assert(t[k] == rule);
    t.lemma_filter_contains(guild_pred, k);
}

} // verus!

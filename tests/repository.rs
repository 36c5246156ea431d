use role_reactions::repository::RuleStore;
use role_reactions::rule::{Flag, RoleReactionRule};

fn rule(guild: u64, channel: u64, emoji: u64, role: u64) -> RoleReactionRule {
    RoleReactionRule::new(guild, channel, emoji, role)
}

#[test]
fn empty_store_lists_nothing() {
    let store = RuleStore::new();
    assert!(store.list_for_guild(100).is_empty());
    assert_eq!(store.lookup_by_channel_and_emoji(200, 300), None);
}

#[test]
fn upsert_twice_stores_once() {
    let mut store = RuleStore::new();
    let r = rule(100, 200, 300, 400);
    store.upsert(r);
    let once = store.list_for_guild(100);
    store.upsert(r);
    assert_eq!(store.list_for_guild(100), once);
    assert_eq!(once, vec![r]);
    assert_eq!(store.lookup_by_channel_and_emoji(200, 300), Some(r));
}

#[test]
fn upsert_keeps_existing_flags() {
    let mut store = RuleStore::new();
    let r = rule(100, 200, 300, 400);
    store.upsert(r);
    store.set_flag(100, 200, 400, Flag::Eureka, true);
    store.upsert(r);
    let listed = store.list_for_guild(100);
    assert_eq!(listed.len(), 1);
    assert!(listed[0].eureka);
}

#[test]
fn upsert_then_list_contains_rule() {
    let mut store = RuleStore::new();
    store.upsert(rule(101, 1, 2, 3));
    let r = RoleReactionRule { guild_id: 100, channel_id: 200, emoji_id: 300, role_id: 400, eureka: false, bozja: true };
    store.upsert(r);
    let listed = store.list_for_guild(100);
    assert!(listed.contains(&r));
    assert!(listed.iter().all(|x| x.guild_id == 100));
}

#[test]
fn list_is_per_guild_in_insertion_order() {
    let mut store = RuleStore::new();
    let a = rule(100, 200, 300, 400);
    let b = rule(999, 200, 301, 400);
    let c = rule(100, 201, 302, 401);
    store.upsert(a);
    store.upsert(b);
    store.upsert(c);
    assert_eq!(store.list_for_guild(100), vec![a, c]);
    assert_eq!(store.list_for_guild(999), vec![b]);
    assert!(store.list_for_guild(5).is_empty());
}

#[test]
fn delete_removes_every_emoji_of_the_pair() {
    let mut store = RuleStore::new();
    store.upsert(rule(100, 200, 300, 400));
    store.upsert(rule(100, 200, 301, 400));
    let other_role = rule(100, 200, 302, 401);
    let other_guild = rule(7, 200, 300, 400);
    store.upsert(other_role);
    store.upsert(other_guild);
    store.delete_by_guild_channel_role(100, 200, 400);
    let listed = store.list_for_guild(100);
    assert!(listed.iter().all(|r| !(r.channel_id == 200 && r.role_id == 400)));
    assert_eq!(listed, vec![other_role]);
    assert_eq!(store.list_for_guild(7), vec![other_guild]);
}

#[test]
fn delete_without_match_is_a_no_op() {
    let mut store = RuleStore::new();
    let r = rule(100, 200, 300, 400);
    store.upsert(r);
    store.delete_by_guild_channel_role(100, 200, 999);
    assert_eq!(store.list_for_guild(100), vec![r]);
}

#[test]
fn set_flag_updates_all_rules_of_the_triple() {
    let mut store = RuleStore::new();
    store.upsert(rule(100, 200, 300, 400));
    store.upsert(rule(100, 200, 301, 400));
    store.upsert(rule(100, 200, 302, 401));
    store.set_flag(100, 200, 400, Flag::Bozja, true);
    let listed = store.list_for_guild(100);
    assert_eq!(listed.len(), 3);
    assert!(listed[0].bozja && listed[1].bozja && !listed[2].bozja);
    assert!(!listed[0].eureka);
    store.set_flag(100, 200, 400, Flag::Bozja, false);
    assert!(store.list_for_guild(100).iter().all(|r| !r.bozja));
}

#[test]
fn set_flag_without_match_changes_nothing() {
    let mut store = RuleStore::new();
    let r = rule(100, 200, 300, 400);
    store.upsert(r);
    store.set_flag(100, 201, 400, Flag::Eureka, true);
    assert_eq!(store.list_for_guild(100), vec![r]);
}

#[test]
fn lookup_prefers_smallest_role() {
    let mut store = RuleStore::new();
    let high = rule(100, 200, 300, 500);
    let low = rule(100, 200, 300, 400);
    store.upsert(high);
    store.upsert(low);
    store.upsert(rule(100, 200, 301, 1));
    assert_eq!(store.lookup_by_channel_and_emoji(200, 300), Some(low));
    assert_eq!(store.lookup_by_channel_and_emoji(201, 300), None);
}

#[test]
fn lookup_ties_go_to_the_first_stored() {
    let mut store = RuleStore::new();
    let first = rule(1, 200, 300, 400);
    let second = rule(2, 200, 300, 400);
    store.upsert(first);
    store.upsert(second);
    assert_eq!(store.lookup_by_channel_and_emoji(200, 300), Some(first));
}

#[test]
fn rule_flags_read_and_write() {
    let r = rule(1, 2, 3, 4);
    assert!(!r.flag(Flag::Eureka) && !r.flag(Flag::Bozja));
    let e = r.with_flag(Flag::Eureka, true);
    assert!(e.flag(Flag::Eureka) && !e.flag(Flag::Bozja));
    assert_eq!(e.with_flag(Flag::Eureka, false), r);
    assert!(r.with_flag(Flag::Bozja, true).bozja);
}

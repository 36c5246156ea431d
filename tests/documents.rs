use role_reactions::documents::{
    binding_filter, decode_all, document_to_insert, guild_filter, lookup_filter, triple_filter, FieldCondition,
};
use role_reactions::rule::{Flag, RoleReactionInfo, RoleReactionRule, SlashCommandInfo, StoreError};

fn pairs(filter: &[FieldCondition]) -> Vec<(String, String)> {
    filter.iter().map(|c| (c.field.clone(), c.text.clone())).collect()
}

fn owned(items: &[(&str, &str)]) -> Vec<(String, String)> {
    items.iter().map(|(a, b)| (a.to_string(), b.to_string())).collect()
}

fn doc(guild: &str, channel: &str, emoji: &str, role: &str) -> RoleReactionInfo {
    RoleReactionInfo {
        guild_id: guild.to_string(),
        channel_id: channel.to_string(),
        emoji_id: emoji.to_string(),
        role_id: role.to_string(),
        eureka: None,
        bozja: None,
    }
}

#[test]
fn document_holds_decimal_identifiers() {
    let rule = RoleReactionRule { guild_id: 100, channel_id: 200, emoji_id: 300, role_id: u64::MAX, eureka: true, bozja: false };
    let info = RoleReactionInfo::from_rule(&rule);
    assert_eq!(info.guild_id, "100");
    assert_eq!(info.channel_id, "200");
    assert_eq!(info.emoji_id, "300");
    assert_eq!(info.role_id, "18446744073709551615");
    assert_eq!(info.eureka, Some(true));
    assert_eq!(info.bozja, Some(false));
    assert_eq!(info.to_rule(), Ok(rule));
}

#[test]
fn missing_flags_read_as_false() {
    let rule = doc("1", "2", "3", "4").to_rule().unwrap();
    assert_eq!(rule, RoleReactionRule::new(1, 2, 3, 4));
    assert!(!rule.flag(Flag::Eureka) && !rule.flag(Flag::Bozja));
}

#[test]
fn unreadable_identifier_is_corrupt() {
    assert_eq!(doc("1", "2", "\u{1F642}", "4").to_rule(), Err(StoreError::Corrupt));
    assert_eq!(doc("x", "2", "3", "4").to_rule(), Err(StoreError::Corrupt));
    assert_eq!(doc("1", "", "3", "4").to_rule(), Err(StoreError::Corrupt));
    assert_eq!(doc("1", "2", "3", "18446744073709551616").to_rule(), Err(StoreError::Corrupt));
}

#[test]
fn decode_all_skips_corrupt_documents() {
    let docs = vec![doc("1", "2", "3", "4"), doc("1", "2", "bad", "4"), doc("1", "2", "5", "6")];
    assert_eq!(decode_all(&docs), vec![RoleReactionRule::new(1, 2, 3, 4), RoleReactionRule::new(1, 2, 5, 6)]);
    assert!(decode_all(&Vec::new()).is_empty());
}

#[test]
fn filters_name_their_fields_in_decimal() {
    assert_eq!(pairs(&guild_filter(100)), owned(&[("guild_id", "100")]));
    assert_eq!(pairs(&lookup_filter(200, 300)), owned(&[("channel_id", "200"), ("emoji_id", "300")]));
    let rule = RoleReactionRule::new(100, 200, 300, 400);
    assert_eq!(
        pairs(&binding_filter(&rule)),
        owned(&[("guild_id", "100"), ("channel_id", "200"), ("emoji_id", "300"), ("role_id", "400")])
    );
    assert_eq!(
        pairs(&triple_filter(100, 200, 400)),
        owned(&[("guild_id", "100"), ("channel_id", "200"), ("role_id", "400")])
    );
}

#[test]
fn flag_fields() {
    assert_eq!(Flag::Eureka.field_name(), "eureka");
    assert_eq!(Flag::Bozja.field_name(), "bozja");
}

#[test]
fn slash_command_document() {
    let info = SlashCommandInfo::new("rolereactions".to_string(), 987654321);
    assert_eq!(info.name, "rolereactions");
    assert_eq!(info.command_id, "987654321");
}

#[test]
fn upsert_inserts_only_when_nothing_was_found() {
    let rule = RoleReactionRule::new(100, 200, 300, 400);
    assert!(document_to_insert(true, &rule).is_none());
    let doc = document_to_insert(false, &rule).unwrap();
    assert_eq!((doc.guild_id.as_str(), doc.channel_id.as_str(), doc.emoji_id.as_str(), doc.role_id.as_str()), ("100", "200", "300", "400"));
    assert_eq!((doc.eureka, doc.bozja), (Some(false), Some(false)));
}

//! Role-reaction rules, their flags, and the document form the store keeps them in.
use vstd::prelude::*;

use crate::decimal::{decimal_of, format_u64, parse_u64, parse_u64_spec, lemma_parse_format_round_trip};

verus! {

/// A named annotation that can be set on a rule.
#[derive(Clone, Copy, Debug, PartialEq, Eq, Structural)]
pub enum Flag {
    Eureka,
    Bozja,
}

/// Grants `role_id` to members who react with the custom emoji `emoji_id` in `channel_id`.
#[derive(Clone, Copy, Debug, PartialEq, Eq, Structural)]
pub struct RoleReactionRule {
    pub guild_id: u64,
    pub channel_id: u64,
    pub emoji_id: u64,
    pub role_id: u64,
    pub eureka: bool,
    pub bozja: bool,
}

/// Two rules name the same binding: guild, channel, emoji and role agree.
pub open spec fn same_binding(a: RoleReactionRule, b: RoleReactionRule) -> bool {
    a.guild_id == b.guild_id && a.channel_id == b.channel_id && a.emoji_id == b.emoji_id
        && a.role_id == b.role_id
}

/// A rule belongs to the (guild, channel, role) triple, whatever its emoji.
pub open spec fn matches_triple(r: RoleReactionRule, guild_id: u64, channel_id: u64, role_id: u64) -> bool {
    r.guild_id == guild_id && r.channel_id == channel_id && r.role_id == role_id
}

impl RoleReactionRule {
    pub open spec fn flag_spec(self, flag: Flag) -> bool {
        match flag {
            Flag::Eureka => self.eureka,
            Flag::Bozja => self.bozja,
        }
    }

    pub open spec fn with_flag_spec(self, flag: Flag, value: bool) -> RoleReactionRule {
        match flag {
            Flag::Eureka => RoleReactionRule { eureka: value, ..self },
            Flag::Bozja => RoleReactionRule { bozja: value, ..self },
        }
    }

    /// A rule with no flag set.
    pub fn new(guild_id: u64, channel_id: u64, emoji_id: u64, role_id: u64) -> (r: RoleReactionRule)
        ensures
            r.guild_id == guild_id,
            r.channel_id == channel_id,
            r.emoji_id == emoji_id,
            r.role_id == role_id,
            !r.eureka,
            !r.bozja,
    {
        RoleReactionRule { guild_id, channel_id, emoji_id, role_id, eureka: false, bozja: false }
    }

    pub fn flag(&self, flag: Flag) -> (r: bool)
        ensures
            r == self.flag_spec(flag),
    {
        match flag {
            Flag::Eureka => self.eureka,
            Flag::Bozja => self.bozja,
        }
    }

    pub fn with_flag(&self, flag: Flag, value: bool) -> (r: RoleReactionRule)
        ensures
            r == self.with_flag_spec(flag, value),
    {
        match flag {
            Flag::Eureka => RoleReactionRule { eureka: value, ..*self },
            Flag::Bozja => RoleReactionRule { bozja: value, ..*self },
        }
    }
}

/// Ways the store can fail.
#[derive(Clone, Copy, Debug, PartialEq, Eq, Structural)]
pub enum StoreError {
    /// The store could not be reached or refused the operation.
    Unavailable,
    /// A stored document could not be decoded.
    Corrupt,
}

/// A rule as the document store keeps it: identifiers as decimal text, flags optional.
#[derive(Clone, Debug)]
pub struct RoleReactionInfo {
    pub guild_id: String,
    pub channel_id: String,
    pub emoji_id: String,
    pub role_id: String,
    pub eureka: Option<bool>,
    pub bozja: Option<bool>,
}

pub open spec fn flag_or_false(f: Option<bool>) -> bool {
    match f {
        Some(b) => b,
        None => false,
    }
}

/// The rule a document denotes, if each identifier field reads as a 64-bit integer.
pub open spec fn decode_spec(
    guild_id: Seq<char>,
    channel_id: Seq<char>,
    emoji_id: Seq<char>,
    role_id: Seq<char>,
    eureka: Option<bool>,
    bozja: Option<bool>,
) -> Option<RoleReactionRule> {
    match (
        parse_u64_spec(guild_id),
        parse_u64_spec(channel_id),
        parse_u64_spec(emoji_id),
        parse_u64_spec(role_id),
    ) {
        (Some(g), Some(c), Some(e), Some(r)) => Some(
            RoleReactionRule {
                guild_id: g,
                channel_id: c,
                emoji_id: e,
                role_id: r,
                eureka: flag_or_false(eureka),
                bozja: flag_or_false(bozja),
            },
        ),
        _ => None,
    }
}

impl RoleReactionInfo {
    pub open spec fn decoded(&self) -> Option<RoleReactionRule> {
        decode_spec(self.guild_id@, self.channel_id@, self.emoji_id@, self.role_id@, self.eureka, self.bozja)
    }

    /// The document that stores `rule`.
    pub fn from_rule(rule: &RoleReactionRule) -> (r: RoleReactionInfo)
        ensures
            r.guild_id@ == decimal_of(rule.guild_id as nat),
            r.channel_id@ == decimal_of(rule.channel_id as nat),
            r.emoji_id@ == decimal_of(rule.emoji_id as nat),
            r.role_id@ == decimal_of(rule.role_id as nat),
            r.eureka == Some(rule.eureka),
            r.bozja == Some(rule.bozja),
    {
        RoleReactionInfo {
            guild_id: format_u64(rule.guild_id),
            channel_id: format_u64(rule.channel_id),
            emoji_id: format_u64(rule.emoji_id),
            role_id: format_u64(rule.role_id),
            eureka: Some(rule.eureka),
            bozja: Some(rule.bozja),
        }
    }

    /// Reads the rule back; a field that is not a 64-bit integer makes the document corrupt.
    pub fn to_rule(&self) -> (r: Result<RoleReactionRule, StoreError>)
        ensures
            match self.decoded() {
                Some(rule) => r == Ok::<RoleReactionRule, StoreError>(rule),
                None => r == Err::<RoleReactionRule, StoreError>(StoreError::Corrupt),
            },
    {
        let g = parse_u64(self.guild_id.as_str());
        let c = parse_u64(self.channel_id.as_str());
        let e = parse_u64(self.emoji_id.as_str());
        let ro = parse_u64(self.role_id.as_str());
        match (g, c, e, ro) {
            (Some(g), Some(c), Some(e), Some(ro)) => {
                let eureka = match self.eureka {
                    Some(b) => b,
                    None => false,
                };
                let bozja = match self.bozja {
                    Some(b) => b,
                    None => false,
                };
                Ok(RoleReactionRule { guild_id: g, channel_id: c, emoji_id: e, role_id: ro, eureka, bozja })
            },
            _ => Err(StoreError::Corrupt),
        }
    }
}

/// Storing a rule and reading the document back gives the same rule.
pub proof fn lemma_document_round_trip(rule: RoleReactionRule)
    ensures
        decode_spec(
            decimal_of(rule.guild_id as nat),
            decimal_of(rule.channel_id as nat),
            decimal_of(rule.emoji_id as nat),
            decimal_of(rule.role_id as nat),
            Some(rule.eureka),
            Some(rule.bozja),
        ) == Some(rule),
{
    lemma_parse_format_round_trip(rule.guild_id);
    lemma_parse_format_round_trip(rule.channel_id);
    lemma_parse_format_round_trip(rule.emoji_id);
    lemma_parse_format_round_trip(rule.role_id);
}

/// A registered application command, as the document store keeps it.
#[derive(Clone, Debug)]
pub struct SlashCommandInfo {
    pub name: String,
    pub command_id: String,
}

impl SlashCommandInfo {
    pub fn new(name: String, command_id: u64) -> (r: SlashCommandInfo)
        ensures
            r.name@ == name@,
            r.command_id@ == decimal_of(command_id as nat),
    {
        SlashCommandInfo { name, command_id: format_u64(command_id) }
    }
}

} // verus!

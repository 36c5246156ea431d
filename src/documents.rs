//! Queries on the document store: which stored documents an operation selects, and reading a
//! batch of documents back as rules.
use vstd::prelude::*;

use crate::decimal::{decimal_of, format_u64, lemma_decimal_of_injective};
use crate::repository::fires_on;
use crate::rule::{Flag, RoleReactionInfo, RoleReactionRule, matches_triple, same_binding};

verus! {

/// A condition on a stored document: the field `field` holds exactly `text`.
#[derive(Clone, Debug)]
pub struct FieldCondition {
    pub field: String,
    pub text: String,
}

/// The text a document holds in an identifier field, if it has such a field.
pub open spec fn field_text(doc: RoleReactionInfo, field: Seq<char>) -> Option<Seq<char>> {
    if field == "guild_id"@ {
        Some(doc.guild_id@)
    } else if field == "channel_id"@ {
        Some(doc.channel_id@)
    } else if field == "emoji_id"@ {
        Some(doc.emoji_id@)
    } else if field == "role_id"@ {
        Some(doc.role_id@)
    } else {
        None
    }
}

/// A document meets every condition of a filter.
pub open spec fn doc_matches(doc: RoleReactionInfo, filter: Seq<FieldCondition>) -> bool {
    forall|i: int| 0 <= i < filter.len() ==> field_text(doc, (#[trigger] filter[i]).field@) == Some(filter[i].text@)
}

/// The document `from_rule` writes for a rule.
pub open spec fn is_document_of(doc: RoleReactionInfo, rule: RoleReactionRule) -> bool {
    &&& doc.guild_id@ == decimal_of(rule.guild_id as nat)
    &&& doc.channel_id@ == decimal_of(rule.channel_id as nat)
    &&& doc.emoji_id@ == decimal_of(rule.emoji_id as nat)
    &&& doc.role_id@ == decimal_of(rule.role_id as nat)
}

pub open spec fn is_condition(c: FieldCondition, field: Seq<char>, value: u64) -> bool {
    c.field@ == field && c.text@ == decimal_of(value as nat)
}

fn condition(field: &str, value: u64) -> (r: FieldCondition)
    ensures
        is_condition(r, field@, value),
{
    FieldCondition { field: String::from_str(field), text: format_u64(value) }
}

/// Selects the documents of a guild.
pub fn guild_filter(guild_id: u64) -> (r: Vec<FieldCondition>)
    ensures
        r@.len() == 1,
        is_condition(r@[0], "guild_id"@, guild_id),
{
    let mut r: Vec<FieldCondition> = Vec::new();
    r.push(condition("guild_id", guild_id));
    r
}

/// Selects the documents that fire on a reaction in `channel_id` with `emoji_id`.
pub fn lookup_filter(channel_id: u64, emoji_id: u64) -> (r: Vec<FieldCondition>)
    ensures
        r@.len() == 2,
        is_condition(r@[0], "channel_id"@, channel_id),
        is_condition(r@[1], "emoji_id"@, emoji_id),
{
    let mut r: Vec<FieldCondition> = Vec::new();
    r.push(condition("channel_id", channel_id));
    r.push(condition("emoji_id", emoji_id));
    r
}

/// Selects the documents with the binding of `rule`: guild, channel, emoji and role.
pub fn binding_filter(rule: &RoleReactionRule) -> (r: Vec<FieldCondition>)
    ensures
        r@.len() == 4,
        is_condition(r@[0], "guild_id"@, rule.guild_id),
        is_condition(r@[1], "channel_id"@, rule.channel_id),
        is_condition(r@[2], "emoji_id"@, rule.emoji_id),
        is_condition(r@[3], "role_id"@, rule.role_id),
{
    let mut r: Vec<FieldCondition> = Vec::new();
    r.push(condition("guild_id", rule.guild_id));
    r.push(condition("channel_id", rule.channel_id));
    r.push(condition("emoji_id", rule.emoji_id));
    r.push(condition("role_id", rule.role_id));
    r
}

/// Selects the documents of a (guild, channel, role) triple, whatever their emoji.
pub fn triple_filter(guild_id: u64, channel_id: u64, role_id: u64) -> (r: Vec<FieldCondition>)
    ensures
        r@.len() == 3,
        is_condition(r@[0], "guild_id"@, guild_id),
        is_condition(r@[1], "channel_id"@, channel_id),
        is_condition(r@[2], "role_id"@, role_id),
{
    let mut r: Vec<FieldCondition> = Vec::new();
    r.push(condition("guild_id", guild_id));
    r.push(condition("channel_id", channel_id));
    r.push(condition("role_id", role_id));
    r
}

pub open spec fn flag_field(flag: Flag) -> Seq<char> {
    match flag {
        Flag::Eureka => "eureka"@,
        Flag::Bozja => "bozja"@,
    }
}

impl Flag {
    /// The document field that holds the flag.
    pub fn field_name(&self) -> (r: &'static str)
        ensures
            r@ == flag_field(*self),
    {
        match self {
            Flag::Eureka => "eureka",
            Flag::Bozja => "bozja",
        }
    }
}

proof fn lemma_field_names_distinct()
    ensures
        "guild_id"@ != "channel_id"@,
        "guild_id"@ != "emoji_id"@,
        "guild_id"@ != "role_id"@,
        "channel_id"@ != "emoji_id"@,
        "channel_id"@ != "role_id"@,
        "emoji_id"@ != "role_id"@,
{
    reveal_strlit("guild_id");
    reveal_strlit("channel_id");
    reveal_strlit("emoji_id");
    reveal_strlit("role_id");
    assert("guild_id"@[0] != "channel_id"@[0]);
    assert("guild_id"@[0] != "emoji_id"@[0]);
    assert("guild_id"@[0] != "role_id"@[0]);
    assert("channel_id"@[0] != "emoji_id"@[0]);
    assert("channel_id"@[0] != "role_id"@[0]);
    assert("emoji_id"@[0] != "role_id"@[0]);
}

/// The binding filter of a rule selects exactly the stored rules with the same binding.
pub proof fn lemma_binding_filter_selects(filter: Seq<FieldCondition>, rule: RoleReactionRule, doc: RoleReactionInfo, stored: RoleReactionRule)
    requires
        filter.len() == 4,
        is_condition(filter[0], "guild_id"@, rule.guild_id),
        is_condition(filter[1], "channel_id"@, rule.channel_id),
        is_condition(filter[2], "emoji_id"@, rule.emoji_id),
        is_condition(filter[3], "role_id"@, rule.role_id),
        is_document_of(doc, stored),
    ensures
        doc_matches(doc, filter) <==> same_binding(stored, rule),
{
    lemma_field_names_distinct();
    lemma_decimal_of_injective(stored.guild_id, rule.guild_id);
    lemma_decimal_of_injective(stored.channel_id, rule.channel_id);
    lemma_decimal_of_injective(stored.emoji_id, rule.emoji_id);
    lemma_decimal_of_injective(stored.role_id, rule.role_id);
    if same_binding(stored, rule) {
        assert forall|i: int| 0 <= i < filter.len() implies field_text(doc, (#[trigger] filter[i]).field@) == Some(filter[i].text@) by {
            if i == 0 {} else if i == 1 {} else if i == 2 {} else {}
        }
    } else if doc_matches(doc, filter) {
        assert(field_text(doc, filter[0].field@) == Some(filter[0].text@));
        assert(field_text(doc, filter[1].field@) == Some(filter[1].text@));
        assert(field_text(doc, filter[2].field@) == Some(filter[2].text@));
        assert(field_text(doc, filter[3].field@) == Some(filter[3].text@));
    }
}

/// The triple filter selects exactly the stored rules of that (guild, channel, role) triple,
/// whatever their emoji.
pub proof fn lemma_triple_filter_selects(
    filter: Seq<FieldCondition>,
    guild_id: u64,
    channel_id: u64,
    role_id: u64,
    doc: RoleReactionInfo,
    stored: RoleReactionRule,
)
    requires
        filter.len() == 3,
        is_condition(filter[0], "guild_id"@, guild_id),
        is_condition(filter[1], "channel_id"@, channel_id),
        is_condition(filter[2], "role_id"@, role_id),
        is_document_of(doc, stored),
    ensures
        doc_matches(doc, filter) <==> matches_triple(stored, guild_id, channel_id, role_id),
{
    lemma_field_names_distinct();
    lemma_decimal_of_injective(stored.guild_id, guild_id);
    lemma_decimal_of_injective(stored.channel_id, channel_id);
    lemma_decimal_of_injective(stored.role_id, role_id);
    if matches_triple(stored, guild_id, channel_id, role_id) {
        assert forall|i: int| 0 <= i < filter.len() implies field_text(doc, (#[trigger] filter[i]).field@) == Some(filter[i].text@) by {
            if i == 0 {} else if i == 1 {} else {}
        }
    } else if doc_matches(doc, filter) {
        assert(field_text(doc, filter[0].field@) == Some(filter[0].text@));
        assert(field_text(doc, filter[1].field@) == Some(filter[1].text@));
        assert(field_text(doc, filter[2].field@) == Some(filter[2].text@));
    }
}

/// The guild filter selects exactly the stored rules of that guild.
pub proof fn lemma_guild_filter_selects(filter: Seq<FieldCondition>, guild_id: u64, doc: RoleReactionInfo, stored: RoleReactionRule)
    requires
        filter.len() == 1,
        is_condition(filter[0], "guild_id"@, guild_id),
        is_document_of(doc, stored),
    ensures
        doc_matches(doc, filter) <==> stored.guild_id == guild_id,
{
    lemma_decimal_of_injective(stored.guild_id, guild_id);
    if stored.guild_id == guild_id {
        assert forall|i: int| 0 <= i < filter.len() implies field_text(doc, (#[trigger] filter[i]).field@) == Some(filter[i].text@) by {}
    } else if doc_matches(doc, filter) {
        assert(field_text(doc, filter[0].field@) == Some(filter[0].text@));
    }
}

/// The lookup filter selects exactly the stored rules that fire in that channel with that emoji.
pub proof fn lemma_lookup_filter_selects(
    filter: Seq<FieldCondition>,
    channel_id: u64,
    emoji_id: u64,
    doc: RoleReactionInfo,
    stored: RoleReactionRule,
)
    requires
        filter.len() == 2,
        is_condition(filter[0], "channel_id"@, channel_id),
        is_condition(filter[1], "emoji_id"@, emoji_id),
        is_document_of(doc, stored),
    ensures
        doc_matches(doc, filter) <==> fires_on(stored, channel_id, emoji_id),
{
    lemma_field_names_distinct();
    lemma_decimal_of_injective(stored.channel_id, channel_id);
    lemma_decimal_of_injective(stored.emoji_id, emoji_id);
    if fires_on(stored, channel_id, emoji_id) {
        assert forall|i: int| 0 <= i < filter.len() implies field_text(doc, (#[trigger] filter[i]).field@) == Some(filter[i].text@) by {
            if i == 0 {} else {}
        }
    } else if doc_matches(doc, filter) {
        assert(field_text(doc, filter[0].field@) == Some(filter[0].text@));
        assert(field_text(doc, filter[1].field@) == Some(filter[1].text@));
    }
}

/// The document an upsert of `rule` writes, given whether the binding filter found a stored
/// document: none when one was found, else the document of `rule`.
pub fn document_to_insert(found: bool, rule: &RoleReactionRule) -> (r: Option<RoleReactionInfo>)
    ensures
        found ==> r is None,
        !found ==> (r matches Some(doc) && is_document_of(doc, *rule) && doc.eureka == Some(rule.eureka)
            && doc.bozja == Some(rule.bozja)),
{
    if found {
        None
    } else {
        Some(RoleReactionInfo::from_rule(rule))
    }
}

/// The rules that a batch of documents denotes, in order; documents that do not decode are
/// left out.
pub open spec fn decode_all_spec(docs: Seq<RoleReactionInfo>) -> Seq<RoleReactionRule>
    decreases docs.len(),
{
    if docs.len() == 0 {
        Seq::empty()
    } else {
        let rest = decode_all_spec(docs.drop_last());
        match docs.last().decoded() {
            Some(rule) => rest.push(rule),
            None => rest,
        }
    }
}

/// Reads a batch of stored documents back as rules, skipping those that do not decode.
pub fn decode_all(docs: &Vec<RoleReactionInfo>) -> (r: Vec<RoleReactionRule>)
    ensures
        r@ == decode_all_spec(docs@),
{
    let mut out: Vec<RoleReactionRule> = Vec::new();
    let mut i: usize = 0;
    while i < docs.len()
        invariant
            i <= docs@.len(),
            out@ == decode_all_spec(docs@.subrange(0, i as int)),
        decreases docs@.len() - i,
    {
        proof {
            assert(docs@.subrange(0, i + 1).drop_last() =~= docs@.subrange(0, i as int));
        }
        match docs[i].to_rule() {
            Ok(rule) => out.push(rule),
            Err(_) => {},
        }
        i = i + 1;
    }
    assert(docs@.subrange(0, docs@.len() as int) =~= docs@);
    out
}

} // verus!

//! The administrative command dispatcher: authorization, argument extraction, the repository
//! request each command makes, and the response it gets.
use vstd::prelude::*;

use crate::catalog::{Command, command_named};
use crate::decimal::{decimal_of, format_u64, parse_u64, parse_u64_spec};
use crate::repository::{RuleStore, delete_spec, guild_rules, set_flag_spec, upsert_spec};
use crate::rule::{Flag, RoleReactionRule, StoreError};

verus! {

/// The "manage roles" bit of a platform permission set.
pub const MANAGE_ROLES: u64 = 0x1000_0000;

/// The colour of the embed that lists a guild's rules (red 52, green 152, blue 219).
pub const LIST_COLOUR: u32 = 0x3498DB;

pub open spec fn manages_roles(permissions: u64) -> bool {
    permissions & MANAGE_ROLES == MANAGE_ROLES
}

/// Whether a permission set includes "manage roles".
pub fn can_manage_roles(permissions: u64) -> (r: bool)
    ensures
        r == manages_roles(permissions),
{
    permissions & MANAGE_ROLES == MANAGE_ROLES
}

/// The value of a command argument, typed as the platform delivers it.
#[derive(Clone, Debug)]
pub enum OptionValue {
    Channel(u64),
    Role(u64),
    Text(String),
}

/// A named argument of an invocation.
#[derive(Clone, Debug)]
pub struct CommandOption {
    pub name: String,
    pub value: OptionValue,
}

/// A command invocation as the platform delivers it.
#[derive(Clone, Debug)]
pub struct Invocation {
    pub name: String,
    pub guild_id: Option<u64>,
    /// The invoker's permission bits in the guild; 0 where they are unknown.
    pub permissions: u64,
    pub options: Vec<CommandOption>,
}

/// A user-supplied argument that is missing or not of the expected form.
#[derive(Clone, Copy, Debug, PartialEq, Eq, Structural)]
pub enum ParseError {
    /// A required argument is absent or has the wrong type.
    MissingOption,
    /// The emoji id is not a 64-bit integer (a Unicode emoji, for one).
    InvalidEmoji,
}

/// What a command asks of the repository.
#[derive(Clone, Copy, Debug, PartialEq, Eq, Structural)]
pub enum StoreRequest {
    List { guild_id: u64 },
    Upsert(RoleReactionRule),
    Delete { guild_id: u64, channel_id: u64, role_id: u64 },
    SetFlag { guild_id: u64, channel_id: u64, role_id: u64, flag: Flag, value: bool },
}

/// A reply to an invocation.
#[derive(Clone, Debug)]
pub enum Response {
    Message(String),
    Embed { title: String, description: String, colour: u32 },
}

pub enum ResponseView {
    Message(Seq<char>),
    Embed { title: Seq<char>, description: Seq<char>, colour: u32 },
}

impl View for Response {
    type V = ResponseView;

    open spec fn view(&self) -> ResponseView {
        match self {
            Response::Message(m) => ResponseView::Message(m@),
            Response::Embed { title, description, colour } => ResponseView::Embed {
                title: title@,
                description: description@,
                colour: *colour,
            },
        }
    }
}

/// What to do with an invocation.
#[derive(Clone, Debug)]
pub enum CommandPlan {
    /// Nothing: no guild, an unknown command, or an invoker without "manage roles".
    Ignore,
    /// Reply without touching the repository.
    Respond(Response),
    /// Make this repository request, then reply with [`list_response`] or [`mutation_response`].
    Execute(StoreRequest),
}

pub enum PlanView {
    Ignore,
    Respond(ResponseView),
    Execute(StoreRequest),
}

impl View for CommandPlan {
    type V = PlanView;

    open spec fn view(&self) -> PlanView {
        match self {
            CommandPlan::Ignore => PlanView::Ignore,
            CommandPlan::Respond(r) => PlanView::Respond(r@),
            CommandPlan::Execute(q) => PlanView::Execute(*q),
        }
    }
}

/// The value of the first argument named `name`, looking from index `i` on.
pub open spec fn option_named_from(opts: Seq<CommandOption>, name: Seq<char>, i: int) -> Option<OptionValue>
    decreases opts.len() - i,
{
    if i < 0 || i >= opts.len() {
        None
    } else if opts[i].name@ == name {
        Some(opts[i].value)
    } else {
        option_named_from(opts, name, i + 1)
    }
}

pub open spec fn option_named(opts: Seq<CommandOption>, name: Seq<char>) -> Option<OptionValue> {
    option_named_from(opts, name, 0)
}

pub open spec fn channel_arg(opts: Seq<CommandOption>) -> Option<u64> {
    match option_named(opts, "channel"@) {
        Some(OptionValue::Channel(c)) => Some(c),
        _ => None,
    }
}

pub open spec fn role_arg(opts: Seq<CommandOption>) -> Option<u64> {
    match option_named(opts, "role"@) {
        Some(OptionValue::Role(r)) => Some(r),
        _ => None,
    }
}

/// The emoji id argument: absent or mistyped, unreadable, or a 64-bit id.
pub open spec fn emoji_arg(opts: Seq<CommandOption>) -> Result<u64, ParseError> {
    match option_named(opts, "emoji_id"@) {
        Some(OptionValue::Text(t)) => match parse_u64_spec(t@) {
            Some(e) => Ok(e),
            None => Err(ParseError::InvalidEmoji),
        },
        _ => Err(ParseError::MissingOption),
    }
}

/// The (channel, role) arguments, read in that order.
pub open spec fn channel_role_args(opts: Seq<CommandOption>) -> Result<(u64, u64), ParseError> {
    match (channel_arg(opts), role_arg(opts)) {
        (Some(c), Some(r)) => Ok((c, r)),
        _ => Err(ParseError::MissingOption),
    }
}

/// The (channel, emoji, role) arguments, read in that order: the first failure is reported.
pub open spec fn rule_args(opts: Seq<CommandOption>) -> Result<(u64, u64, u64), ParseError> {
    match channel_arg(opts) {
        None => Err(ParseError::MissingOption),
        Some(c) => match emoji_arg(opts) {
            Err(e) => Err(e),
            Ok(e) => match role_arg(opts) {
                None => Err(ParseError::MissingOption),
                Some(r) => Ok((c, e, r)),
            },
        },
    }
}

pub open spec fn parse_error_message(e: ParseError) -> Seq<char> {
    match e {
        ParseError::MissingOption => "Failed to read the command options."@,
        ParseError::InvalidEmoji => "Failed to parse emoji. Make sure the ID is correct, and that the emoji you are using is not a Unicode emote."@,
    }
}

/// The plan for command `c` invoked in `guild_id` by an invoker with `permissions`.
pub open spec fn command_plan_spec(c: Command, guild_id: u64, permissions: u64, opts: Seq<CommandOption>) -> PlanView {
    if !manages_roles(permissions) {
        PlanView::Ignore
    } else {
        match c {
            Command::ListRoleReactions => PlanView::Execute(StoreRequest::List { guild_id }),
            Command::AddRoleReaction => match rule_args(opts) {
                Err(e) => PlanView::Respond(ResponseView::Message(parse_error_message(e))),
                Ok((ch, e, r)) => PlanView::Execute(
                    StoreRequest::Upsert(
                        RoleReactionRule {
                            guild_id,
                            channel_id: ch,
                            emoji_id: e,
                            role_id: r,
                            eureka: false,
                            bozja: false,
                        },
                    ),
                ),
            },
            Command::RemoveRoleReaction => match channel_role_args(opts) {
                Err(e) => PlanView::Respond(ResponseView::Message(parse_error_message(e))),
                Ok((ch, r)) => PlanView::Execute(StoreRequest::Delete { guild_id, channel_id: ch, role_id: r }),
            },
            Command::SetFlag(flag) => match channel_role_args(opts) {
                Err(e) => PlanView::Respond(ResponseView::Message(parse_error_message(e))),
                Ok((ch, r)) => PlanView::Execute(
                    StoreRequest::SetFlag { guild_id, channel_id: ch, role_id: r, flag, value: true },
                ),
            },
            Command::UnsetFlag(flag) => match channel_role_args(opts) {
                Err(e) => PlanView::Respond(ResponseView::Message(parse_error_message(e))),
                Ok((ch, r)) => PlanView::Execute(
                    StoreRequest::SetFlag { guild_id, channel_id: ch, role_id: r, flag, value: false },
                ),
            },
        }
    }
}

/// The plan for an invocation: commands outside a guild and unknown names are ignored.
pub open spec fn plan_spec(inv: Invocation) -> PlanView {
    match inv.guild_id {
        None => PlanView::Ignore,
        Some(g) => match command_named(inv.name@) {
            Some(c) => command_plan_spec(c, g, inv.permissions, inv.options@),
            None => PlanView::Ignore,
        },
    }
}

fn find_option<'a>(options: &'a Vec<CommandOption>, name: &str) -> (r: Option<&'a OptionValue>)
    ensures
        match r {
            Some(v) => option_named(options@, name@) == Some(*v),
            None => option_named(options@, name@) is None,
        },
{
    let wanted = String::from_str(name);
    let mut i: usize = 0;
    while i < options.len()
        invariant
            i <= options@.len(),
            wanted@ == name@,
            option_named(options@, name@) == option_named_from(options@, name@, i as int),
        decreases options@.len() - i,
    {
        if options[i].name == wanted {
            return Some(&options[i].value);
        }
        i = i + 1;
    }
    None
}

fn read_channel(options: &Vec<CommandOption>) -> (r: Option<u64>)
    ensures
        r == channel_arg(options@),
{
    match find_option(options, "channel") {
        Some(OptionValue::Channel(c)) => Some(*c),
        _ => None,
    }
}

fn read_role(options: &Vec<CommandOption>) -> (r: Option<u64>)
    ensures
        r == role_arg(options@),
{
    match find_option(options, "role") {
        Some(OptionValue::Role(r)) => Some(*r),
        _ => None,
    }
}

fn read_emoji_id(options: &Vec<CommandOption>) -> (r: Result<u64, ParseError>)
    ensures
        r == emoji_arg(options@),
{
    match find_option(options, "emoji_id") {
        Some(OptionValue::Text(t)) => match parse_u64(t.as_str()) {
            Some(e) => Ok(e),
            None => Err(ParseError::InvalidEmoji),
        },
        _ => Err(ParseError::MissingOption),
    }
}

/// Reads the channel, emoji id and role of a rule from the arguments.
pub fn read_role_reaction_info(options: &Vec<CommandOption>) -> (r: Result<(u64, u64, u64), ParseError>)
    ensures
        r == rule_args(options@),
{
    let channel_id = match read_channel(options) {
        Some(c) => c,
        None => return Err(ParseError::MissingOption),
    };
    let emoji_id = match read_emoji_id(options) {
        Ok(e) => e,
        Err(e) => return Err(e),
    };
    match read_role(options) {
        Some(role_id) => Ok((channel_id, emoji_id, role_id)),
        None => Err(ParseError::MissingOption),
    }
}

/// Reads the channel and role arguments.
pub fn read_channel_and_role(options: &Vec<CommandOption>) -> (r: Result<(u64, u64), ParseError>)
    ensures
        r == channel_role_args(options@),
{
    match (read_channel(options), read_role(options)) {
        (Some(c), Some(r)) => Ok((c, r)),
        _ => Err(ParseError::MissingOption),
    }
}

fn parse_error_response(e: ParseError) -> (r: Response)
    ensures
        r@ == ResponseView::Message(parse_error_message(e)),
{
    match e {
        ParseError::MissingOption => Response::Message(String::from_str("Failed to read the command options.")),
        ParseError::InvalidEmoji => Response::Message(
            String::from_str(
                "Failed to parse emoji. Make sure the ID is correct, and that the emoji you are using is not a Unicode emote.",
            ),
        ),
    }
}

/// `rolereactions`: list the guild's rules.
pub fn role_reactions(guild_id: u64, permissions: u64) -> (r: CommandPlan)
    ensures
        r@ == command_plan_spec(Command::ListRoleReactions, guild_id, permissions, seq![]),
{
    if !can_manage_roles(permissions) {
        return CommandPlan::Ignore;
    }
    CommandPlan::Execute(StoreRequest::List { guild_id })
}

/// `addrolereaction`: store a rule for the (channel, emoji, role) arguments.
pub fn add_role_reaction(guild_id: u64, permissions: u64, options: &Vec<CommandOption>) -> (r: CommandPlan)
    ensures
        r@ == command_plan_spec(Command::AddRoleReaction, guild_id, permissions, options@),
{
    if !can_manage_roles(permissions) {
        return CommandPlan::Ignore;
    }
    match read_role_reaction_info(options) {
        Err(e) => CommandPlan::Respond(parse_error_response(e)),
        Ok((channel_id, emoji_id, role_id)) => CommandPlan::Execute(
            StoreRequest::Upsert(RoleReactionRule::new(guild_id, channel_id, emoji_id, role_id)),
        ),
    }
}

/// `removerolereaction`: delete every rule of the (channel, role) arguments.
pub fn remove_role_reaction(guild_id: u64, permissions: u64, options: &Vec<CommandOption>) -> (r: CommandPlan)
    ensures
        r@ == command_plan_spec(Command::RemoveRoleReaction, guild_id, permissions, options@),
{
    if !can_manage_roles(permissions) {
        return CommandPlan::Ignore;
    }
    match read_channel_and_role(options) {
        Err(e) => CommandPlan::Respond(parse_error_response(e)),
        Ok((channel_id, role_id)) => CommandPlan::Execute(StoreRequest::Delete { guild_id, channel_id, role_id }),
    }
}

fn flag_command(guild_id: u64, permissions: u64, options: &Vec<CommandOption>, flag: Flag, value: bool) -> (r: CommandPlan)
    ensures
        r@ == command_plan_spec(
            if value { Command::SetFlag(flag) } else { Command::UnsetFlag(flag) },
            guild_id,
            permissions,
            options@,
        ),
{
    if !can_manage_roles(permissions) {
        return CommandPlan::Ignore;
    }
    match read_channel_and_role(options) {
        Err(e) => CommandPlan::Respond(parse_error_response(e)),
        Ok((channel_id, role_id)) => CommandPlan::Execute(
            StoreRequest::SetFlag { guild_id, channel_id, role_id, flag, value },
        ),
    }
}

/// `seteurekarole`: set the Eureka flag on the rules of the (channel, role) arguments.
pub fn declare_eureka_role(guild_id: u64, permissions: u64, options: &Vec<CommandOption>) -> (r: CommandPlan)
    ensures
        r@ == command_plan_spec(Command::SetFlag(Flag::Eureka), guild_id, permissions, options@),
{
    flag_command(guild_id, permissions, options, Flag::Eureka, true)
}

/// `setbozjarole`: set the Bozja flag on the rules of the (channel, role) arguments.
pub fn declare_bozja_role(guild_id: u64, permissions: u64, options: &Vec<CommandOption>) -> (r: CommandPlan)
    ensures
        r@ == command_plan_spec(Command::SetFlag(Flag::Bozja), guild_id, permissions, options@),
{
    flag_command(guild_id, permissions, options, Flag::Bozja, true)
}

/// `unseteurekarole`: clear the Eureka flag on the rules of the (channel, role) arguments.
pub fn undeclare_eureka_role(guild_id: u64, permissions: u64, options: &Vec<CommandOption>) -> (r: CommandPlan)
    ensures
        r@ == command_plan_spec(Command::UnsetFlag(Flag::Eureka), guild_id, permissions, options@),
{
    flag_command(guild_id, permissions, options, Flag::Eureka, false)
}

/// `unsetbozjarole`: clear the Bozja flag on the rules of the (channel, role) arguments.
pub fn undeclare_bozja_role(guild_id: u64, permissions: u64, options: &Vec<CommandOption>) -> (r: CommandPlan)
    ensures
        r@ == command_plan_spec(Command::UnsetFlag(Flag::Bozja), guild_id, permissions, options@),
{
    flag_command(guild_id, permissions, options, Flag::Bozja, false)
}

/// Routes an invocation by its command name.
pub fn plan_command(inv: &Invocation) -> (r: CommandPlan)
    ensures
        r@ == plan_spec(*inv),
{
    let guild_id = match inv.guild_id {
        Some(g) => g,
        None => return CommandPlan::Ignore,
    };
    let c = match Command::from_name(inv.name.as_str()) {
        Some(c) => c,
        None => return CommandPlan::Ignore,
    };
    match c {
        Command::ListRoleReactions => role_reactions(guild_id, inv.permissions),
        Command::AddRoleReaction => add_role_reaction(guild_id, inv.permissions, &inv.options),
        Command::RemoveRoleReaction => remove_role_reaction(guild_id, inv.permissions, &inv.options),
        Command::SetFlag(Flag::Eureka) => declare_eureka_role(guild_id, inv.permissions, &inv.options),
        Command::SetFlag(Flag::Bozja) => declare_bozja_role(guild_id, inv.permissions, &inv.options),
        Command::UnsetFlag(Flag::Eureka) => undeclare_eureka_role(guild_id, inv.permissions, &inv.options),
        Command::UnsetFlag(Flag::Bozja) => undeclare_bozja_role(guild_id, inv.permissions, &inv.options),
    }
}

/// The line that lists one rule: channel, emoji and role mentions.
pub open spec fn rule_line_spec(r: RoleReactionRule) -> Seq<char> {
    "<#"@ + decimal_of(r.channel_id as nat) + "> <:e:"@ + decimal_of(r.emoji_id as nat) + ">: <@&"@
        + decimal_of(r.role_id as nat) + ">\n"@
}

pub open spec fn rule_lines(s: Seq<RoleReactionRule>) -> Seq<char>
    decreases s.len(),
{
    if s.len() == 0 {
        Seq::empty()
    } else {
        rule_lines(s.drop_last()) + rule_line_spec(s.last())
    }
}

/// The reply to `rolereactions` in a guild called `guild_name`, given what the listing gave.
pub open spec fn list_response_spec(guild_name: Seq<char>, outcome: Result<Seq<RoleReactionRule>, StoreError>) -> ResponseView {
    match outcome {
        Err(_) => ResponseView::Message("Failed to retrieve role reactions for this guild."@),
        Ok(rules) => if rules.len() == 0 {
            ResponseView::Message("No role reactions are registered for this guild."@)
        } else {
            ResponseView::Embed {
                title: guild_name + " Role Reactions"@,
                description: "**Role reactions:**\n"@ + rule_lines(rules),
                colour: LIST_COLOUR,
            }
        },
    }
}

/// The reply to a repository change, by whether the store carried it out.
pub open spec fn mutation_message(req: StoreRequest, ok: bool) -> Seq<char> {
    match req {
        StoreRequest::List { .. } => Seq::empty(),
        StoreRequest::Upsert(_) => if ok { "Role reaction added."@ } else { "Failed to add role reaction."@ },
        StoreRequest::Delete { .. } => if ok {
            "Role reaction removed."@
        } else {
            "Failed to remove role reaction."@
        },
        StoreRequest::SetFlag { flag: Flag::Eureka, value: true, .. } => if ok {
            "Role reaction set to Eureka role."@
        } else {
            "Failed to set Eureka flag on role."@
        },
        StoreRequest::SetFlag { flag: Flag::Bozja, value: true, .. } => if ok {
            "Role reaction set to Bozja role."@
        } else {
            "Failed to set Bozja flag on role."@
        },
        StoreRequest::SetFlag { flag: Flag::Eureka, value: false, .. } => if ok {
            "Role reaction unset as Eureka role."@
        } else {
            "Failed to unset Eureka flag on role."@
        },
        StoreRequest::SetFlag { flag: Flag::Bozja, value: false, .. } => if ok {
            "Role reaction unset as Bozja role."@
        } else {
            "Failed to unset Bozja flag on role."@
        },
    }
}

/// Writes the line that lists `rule`.
pub fn rule_line(rule: &RoleReactionRule) -> (r: String)
    ensures
        r@ == rule_line_spec(*rule),
{
    let mut line = String::from_str("<#");
    line.append(format_u64(rule.channel_id).as_str());
    line.append("> <:e:");
    line.append(format_u64(rule.emoji_id).as_str());
    line.append(">: <@&");
    line.append(format_u64(rule.role_id).as_str());
    line.append(">\n");
    line
}

/// The reply to `rolereactions`: a message when the listing failed or is empty, else an embed
/// with one line per rule.
pub fn list_response(guild_name: &str, outcome: &Result<Vec<RoleReactionRule>, StoreError>) -> (r: Response)
    ensures
        r@ == list_response_spec(
            guild_name@,
            match outcome {
                Ok(v) => Ok(v@),
                Err(e) => Err(*e),
            },
        ),
{
    match outcome {
        Err(_) => Response::Message(String::from_str("Failed to retrieve role reactions for this guild.")),
        Ok(rules) => {
            if rules.len() == 0 {
                return Response::Message(String::from_str("No role reactions are registered for this guild."));
            }
            let mut description = String::from_str("**Role reactions:**\n");
            let ghost head = description@;
            let mut i: usize = 0;
            while i < rules.len()
                invariant
                    i <= rules@.len(),
                    description@ == head + rule_lines(rules@.subrange(0, i as int)),
                decreases rules@.len() - i,
            {
                proof {
                    assert(rules@.subrange(0, i + 1).drop_last() =~= rules@.subrange(0, i as int));
                }
                let line = rule_line(&rules[i]);
                description.append(line.as_str());
                proof {
                    assert(description@ =~= head + rule_lines(rules@.subrange(0, i + 1)));
                }
                i = i + 1;
            }
            assert(rules@.subrange(0, rules@.len() as int) =~= rules@);
            let mut title = String::from_str(guild_name);
            title.append(" Role Reactions");
            Response::Embed { title, description, colour: LIST_COLOUR }
        },
    }
}

/// The reply to a repository change, by whether the store carried it out.
pub fn mutation_response(req: &StoreRequest, outcome: &Result<(), StoreError>) -> (r: Response)
    requires
        !(req is List),
    ensures
        r@ == ResponseView::Message(mutation_message(*req, outcome is Ok)),
{
    let ok = outcome.is_ok();
    let text: &str = match req {
        StoreRequest::List { .. } => "",
        StoreRequest::Upsert(_) => if ok { "Role reaction added." } else { "Failed to add role reaction." },
        StoreRequest::Delete { .. } => if ok { "Role reaction removed." } else { "Failed to remove role reaction." },
        StoreRequest::SetFlag { flag, value, .. } => match (flag, value) {
            (Flag::Eureka, true) => if ok { "Role reaction set to Eureka role." } else { "Failed to set Eureka flag on role." },
            (Flag::Bozja, true) => if ok { "Role reaction set to Bozja role." } else { "Failed to set Bozja flag on role." },
            (Flag::Eureka, false) => if ok {
                "Role reaction unset as Eureka role."
            } else {
                "Failed to unset Eureka flag on role."
            },
            (Flag::Bozja, false) => if ok {
                "Role reaction unset as Bozja role."
            } else {
                "Failed to unset Bozja flag on role."
            },
        },
    };
    Response::Message(String::from_str(text))
}

/// What a repository request does to the stored rules.
pub open spec fn apply_spec(s: Seq<RoleReactionRule>, req: StoreRequest) -> Seq<RoleReactionRule> {
    match req {
        StoreRequest::List { .. } => s,
        StoreRequest::Upsert(rule) => upsert_spec(s, rule),
        StoreRequest::Delete { guild_id, channel_id, role_id } => delete_spec(s, guild_id, channel_id, role_id),
        StoreRequest::SetFlag { guild_id, channel_id, role_id, flag, value } => set_flag_spec(
            s,
            guild_id,
            channel_id,
            role_id,
            flag,
            value,
        ),
    }
}

/// The stored rules after a plan is carried out.
pub open spec fn store_after(s: Seq<RoleReactionRule>, plan: PlanView) -> Seq<RoleReactionRule> {
    match plan {
        PlanView::Execute(req) => apply_spec(s, req),
        _ => s,
    }
}

/// The reply to a request that the store carried out, given the rules before it.
pub open spec fn reply_spec(s: Seq<RoleReactionRule>, req: StoreRequest, guild_name: Seq<char>) -> ResponseView {
    match req {
        StoreRequest::List { guild_id } => list_response_spec(guild_name, Ok(guild_rules(s, guild_id))),
        _ => ResponseView::Message(mutation_message(req, true)),
    }
}

/// Carries out an invocation against `store`, in a guild called `guild_name`: the reply, if one
/// is owed.
pub fn handle_command(store: &mut RuleStore, inv: &Invocation, guild_name: &str) -> (r: Option<Response>)
    requires
        old(store).wf(),
    ensures
        final(store).wf(),
        final(store)@ == store_after(old(store)@, plan_spec(*inv)),
        match plan_spec(*inv) {
            PlanView::Ignore => r is None,
            PlanView::Respond(v) => r matches Some(x) && x@ == v,
            PlanView::Execute(req) => r matches Some(x) && x@ == reply_spec(old(store)@, req, guild_name@),
        },
{
    match plan_command(inv) {
        CommandPlan::Ignore => None,
        CommandPlan::Respond(response) => Some(response),
        CommandPlan::Execute(req) => {
            let done: Result<(), StoreError> = Ok(());
            match req {
                StoreRequest::List { guild_id } => {
                    let rules = store.list_for_guild(guild_id);
                    Some(list_response(guild_name, &Ok(rules)))
                },
                StoreRequest::Upsert(rule) => {
                    store.upsert(rule);
                    Some(mutation_response(&req, &done))
                },
                StoreRequest::Delete { guild_id, channel_id, role_id } => {
                    store.delete_by_guild_channel_role(guild_id, channel_id, role_id);
                    Some(mutation_response(&req, &done))
                },
                StoreRequest::SetFlag { guild_id, channel_id, role_id, flag, value } => {
                    store.set_flag(guild_id, channel_id, role_id, flag, value);
                    Some(mutation_response(&req, &done))
                },
            }
        },
    }
}

/// The reply to a plain chat message: `~ping` gets `Pong!`, anything else nothing.
pub fn message_reply(content: &str) -> (r: Option<&'static str>)
    ensures
        content@ == "~ping"@ ==> (r matches Some(t) && t@ == "Pong!"@),
        content@ != "~ping"@ ==> r is None,
{
    if String::from_str(content) == String::from_str("~ping") {
        Some("Pong!")
    } else {
        None
    }
}

/// An invocation by someone without "manage roles" is ignored: it changes no stored rule and
/// gets no reply.
pub proof fn lemma_unauthorized_is_inert(inv: Invocation, s: Seq<RoleReactionRule>)
    requires
        !manages_roles(inv.permissions),
    ensures
        plan_spec(inv) is Ignore,
        store_after(s, plan_spec(inv)) == s,
{
}

} // verus!

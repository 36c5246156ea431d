//! The administrative commands: their names and the argument schema published for each.
use vstd::prelude::*;

use crate::rule::Flag;

verus! {

/// An administrative command.
#[derive(Clone, Copy, Debug, PartialEq, Eq, Structural)]
pub enum Command {
    /// Lists the rules of the guild.
    ListRoleReactions,
    /// Adds a rule.
    AddRoleReaction,
    /// Removes every rule of a (channel, role) pair.
    RemoveRoleReaction,
    /// Sets a flag on the rules of a (channel, role) pair.
    SetFlag(Flag),
    /// Clears a flag on the rules of a (channel, role) pair.
    UnsetFlag(Flag),
}

/// The type of value that a command argument takes.
#[derive(Clone, Copy, Debug, PartialEq, Eq, Structural)]
pub enum OptionKind {
    Channel,
    Text,
    Role,
}

/// One argument of a published command.
#[derive(Clone, Debug)]
pub struct OptionSpec {
    pub name: String,
    pub description: String,
    pub kind: OptionKind,
    pub required: bool,
}

/// A command as it is published to the platform.
#[derive(Clone, Debug)]
pub struct CommandSpec {
    pub name: String,
    pub description: String,
    pub options: Vec<OptionSpec>,
}

pub open spec fn command_name(c: Command) -> Seq<char> {
    match c {
        Command::ListRoleReactions => "rolereactions"@,
        Command::AddRoleReaction => "addrolereaction"@,
        Command::RemoveRoleReaction => "removerolereaction"@,
        Command::SetFlag(Flag::Eureka) => "seteurekarole"@,
        Command::SetFlag(Flag::Bozja) => "setbozjarole"@,
        Command::UnsetFlag(Flag::Eureka) => "unseteurekarole"@,
        Command::UnsetFlag(Flag::Bozja) => "unsetbozjarole"@,
    }
}

pub open spec fn command_description(c: Command) -> Seq<char> {
    match c {
        Command::ListRoleReactions => "Retrieve the list of role reactions for this guild."@,
        Command::AddRoleReaction => "Add a role reaction to this guild."@,
        Command::RemoveRoleReaction => "Remove a role reaction from this guild."@,
        Command::SetFlag(Flag::Eureka) => "Sets a registered role reaction to be used as the Eureka special role."@,
        Command::SetFlag(Flag::Bozja) => "Sets a registered role reaction to be used as the Bozja special role."@,
        Command::UnsetFlag(Flag::Eureka) => "Unsets a registered role reaction as the Eureka special role."@,
        Command::UnsetFlag(Flag::Bozja) => "Unsets a registered role reaction as the Bozja special role."@,
    }
}

/// The arguments of a command, in order: name, description and kind. All are required.
pub open spec fn option_schema(c: Command) -> Seq<(Seq<char>, Seq<char>, OptionKind)> {
    match c {
        Command::ListRoleReactions => seq![],
        Command::AddRoleReaction => seq![
            ("channel"@, "The channel to add a role reaction to."@, OptionKind::Channel),
            ("emoji_id"@, "The ID of the emoji to add a reaction with."@, OptionKind::Text),
            ("role"@, "The role to add a reaction for."@, OptionKind::Role),
        ],
        Command::RemoveRoleReaction => seq![
            ("channel"@, "The channel to remove the role reaction from."@, OptionKind::Channel),
            ("role"@, "The role to remove the reaction for."@, OptionKind::Role),
        ],
        Command::SetFlag(_) => seq![
            ("channel"@, "The channel the existing role reaction is in."@, OptionKind::Channel),
            ("role"@, "The role ID of the role."@, OptionKind::Role),
        ],
        Command::UnsetFlag(_) => seq![
            ("channel"@, "The channel the role reaction is in."@, OptionKind::Channel),
            ("role"@, "The role ID of the role."@, OptionKind::Role),
        ],
    }
}

/// The command invoked under a name, if any.
pub open spec fn command_named(name: Seq<char>) -> Option<Command> {
    if name == "rolereactions"@ {
        Some(Command::ListRoleReactions)
    } else if name == "addrolereaction"@ {
        Some(Command::AddRoleReaction)
    } else if name == "removerolereaction"@ {
        Some(Command::RemoveRoleReaction)
    } else if name == "seteurekarole"@ {
        Some(Command::SetFlag(Flag::Eureka))
    } else if name == "setbozjarole"@ {
        Some(Command::SetFlag(Flag::Bozja))
    } else if name == "unseteurekarole"@ {
        Some(Command::UnsetFlag(Flag::Eureka))
    } else if name == "unsetbozjarole"@ {
        Some(Command::UnsetFlag(Flag::Bozja))
    } else {
        None
    }
}

/// The order in which the commands are published.
pub open spec fn catalog_order() -> Seq<Command> {
    seq![
        Command::ListRoleReactions,
        Command::AddRoleReaction,
        Command::RemoveRoleReaction,
        Command::SetFlag(Flag::Eureka),
        Command::SetFlag(Flag::Bozja),
        Command::UnsetFlag(Flag::Eureka),
        Command::UnsetFlag(Flag::Bozja),
    ]
}

/// `spec` is what is published for `c`.
pub open spec fn describes(spec: CommandSpec, c: Command) -> bool {
    &&& spec.name@ == command_name(c)
    &&& spec.description@ == command_description(c)
    &&& spec.options@.len() == option_schema(c).len()
    &&& forall|i: int|
        0 <= i < spec.options@.len() ==> {
            let o = #[trigger] spec.options@[i];
            &&& o.name@ == option_schema(c)[i].0
            &&& o.description@ == option_schema(c)[i].1
            &&& o.kind == option_schema(c)[i].2
            &&& o.required
        }
}

fn required_option(name: &str, description: &str, kind: OptionKind) -> (r: OptionSpec)
    ensures
        r.name@ == name@,
        r.description@ == description@,
        r.kind == kind,
        r.required,
{
    OptionSpec { name: String::from_str(name), description: String::from_str(description), kind, required: true }
}

impl Command {
    /// The name the command is published and invoked under.
    pub fn name(&self) -> (r: &'static str)
        ensures
            r@ == command_name(*self),
    {
        match self {
            Command::ListRoleReactions => "rolereactions",
            Command::AddRoleReaction => "addrolereaction",
            Command::RemoveRoleReaction => "removerolereaction",
            Command::SetFlag(Flag::Eureka) => "seteurekarole",
            Command::SetFlag(Flag::Bozja) => "setbozjarole",
            Command::UnsetFlag(Flag::Eureka) => "unseteurekarole",
            Command::UnsetFlag(Flag::Bozja) => "unsetbozjarole",
        }
    }

    /// The command invoked under `name`, if any.
    pub fn from_name(name: &str) -> (r: Option<Command>)
        ensures
            r == command_named(name@),
    {
        let n = String::from_str(name);
        if n == String::from_str("rolereactions") {
            Some(Command::ListRoleReactions)
        } else if n == String::from_str("addrolereaction") {
            Some(Command::AddRoleReaction)
        } else if n == String::from_str("removerolereaction") {
            Some(Command::RemoveRoleReaction)
        } else if n == String::from_str("seteurekarole") {
            Some(Command::SetFlag(Flag::Eureka))
        } else if n == String::from_str("setbozjarole") {
            Some(Command::SetFlag(Flag::Bozja))
        } else if n == String::from_str("unseteurekarole") {
            Some(Command::UnsetFlag(Flag::Eureka))
        } else if n == String::from_str("unsetbozjarole") {
            Some(Command::UnsetFlag(Flag::Bozja))
        } else {
            None
        }
    }

    /// What is published for this command.
    pub fn spec(&self) -> (r: CommandSpec)
        ensures
            describes(r, *self),
    {
        let mut options: Vec<OptionSpec> = Vec::new();
        let description: &str = match self {
            Command::ListRoleReactions => "Retrieve the list of role reactions for this guild.",
            Command::AddRoleReaction => {
                options.push(required_option("channel", "The channel to add a role reaction to.", OptionKind::Channel));
                options.push(required_option("emoji_id", "The ID of the emoji to add a reaction with.", OptionKind::Text));
                options.push(required_option("role", "The role to add a reaction for.", OptionKind::Role));
                "Add a role reaction to this guild."
            },
            Command::RemoveRoleReaction => {
                options.push(required_option("channel", "The channel to remove the role reaction from.", OptionKind::Channel));
                options.push(required_option("role", "The role to remove the reaction for.", OptionKind::Role));
                "Remove a role reaction from this guild."
            },
            Command::SetFlag(flag) => {
                options.push(required_option("channel", "The channel the existing role reaction is in.", OptionKind::Channel));
                options.push(required_option("role", "The role ID of the role.", OptionKind::Role));
                match flag {
                    Flag::Eureka => "Sets a registered role reaction to be used as the Eureka special role.",
                    Flag::Bozja => "Sets a registered role reaction to be used as the Bozja special role.",
                }
            },
            Command::UnsetFlag(flag) => {
                options.push(required_option("channel", "The channel the role reaction is in.", OptionKind::Channel));
                options.push(required_option("role", "The role ID of the role.", OptionKind::Role));
                match flag {
                    Flag::Eureka => "Unsets a registered role reaction as the Eureka special role.",
                    Flag::Bozja => "Unsets a registered role reaction as the Bozja special role.",
                }
            },
        };
        CommandSpec { name: String::from_str(self.name()), description: String::from_str(description), options }
    }
}

/// The group of administrative commands that the agent publishes.
pub struct RoleReactions;

impl RoleReactions {
    /// The full catalog, in publishing order; it is declared anew on every start.
    pub fn commands() -> (r: Vec<CommandSpec>)
        ensures
            r@.len() == catalog_order().len(),
            forall|i: int| 0 <= i < r@.len() ==> describes(#[trigger] r@[i], catalog_order()[i]),
    {
        let all = [
            Command::ListRoleReactions,
            Command::AddRoleReaction,
            Command::RemoveRoleReaction,
            Command::SetFlag(Flag::Eureka),
            Command::SetFlag(Flag::Bozja),
            Command::UnsetFlag(Flag::Eureka),
            Command::UnsetFlag(Flag::Bozja),
        ];
        let mut out: Vec<CommandSpec> = Vec::new();
        let mut i: usize = 0;
        while i < 7
            invariant
                i <= 7,
                all@ == catalog_order(),
                out@.len() == i,
                forall|j: int| 0 <= j < i ==> describes(#[trigger] out@[j], catalog_order()[j]),
            decreases 7 - i,
        {
            let s = all[i].spec();
            out.push(s);
            i = i + 1;
        }
        out
    }
}

} // verus!

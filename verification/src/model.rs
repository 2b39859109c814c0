//! The shape of a command invocation: a tree of named options and a side
//! table of the entities that the options and context menus refer to.

use serenity::model::channel::{Attachment, Message, PartialChannel};
use serenity::model::guild::{PartialMember, Role};
use serenity::model::user::User;
use std::collections::HashMap;
use vstd::prelude::*;

verus! {

/// `serenity::model::user::User`, carried through without looking inside.
#[verifier::external_type_specification]
#[verifier::external_body]
pub struct ExUser(User);

/// `serenity::model::guild::PartialMember`, carried through without looking inside.
#[verifier::external_type_specification]
#[verifier::external_body]
pub struct ExPartialMember(PartialMember);

/// `serenity::model::channel::PartialChannel`, carried through without looking inside.
#[verifier::external_type_specification]
#[verifier::external_body]
pub struct ExPartialChannel(PartialChannel);

/// `serenity::model::guild::Role`, carried through without looking inside.
#[verifier::external_type_specification]
#[verifier::external_body]
pub struct ExRole(Role);

/// `serenity::model::channel::Attachment`, carried through without looking inside.
#[verifier::external_type_specification]
#[verifier::external_body]
pub struct ExAttachment(Attachment);

/// `serenity::model::channel::Message`, carried through without looking inside.
#[verifier::external_type_specification]
#[verifier::external_body]
pub struct ExMessage(Message);

/// How a command was invoked.
#[derive(Clone, Copy, Debug, PartialEq, Eq, Structural)]
pub enum CommandKind {
    /// A slash command typed into the chat input.
    ChatInput,
    /// A context-menu command on a user.
    User,
    /// A context-menu command on a message.
    Message,
    /// A kind this library does not know.
    Unknown,
}

/// The declared kind of an option.
#[derive(Clone, Copy, Debug, PartialEq, Eq, Structural)]
pub enum OptionKind {
    SubCommand,
    SubCommandGroup,
    String,
    Integer,
    Boolean,
    User,
    Channel,
    Role,
    Mentionable,
    Number,
    Attachment,
    Unknown,
}

/// A short tag for the variant of a resolved value, for error messages.
#[derive(Clone, Copy, Debug, PartialEq, Eq, Structural)]
pub enum OptionValueType {
    String,
    Integer,
    Boolean,
    User,
    Channel,
    Role,
    Number,
    Attachment,
    Unknown,
}

/// The concrete value that an option was resolved to.
#[derive(Debug)]
pub enum ResolvedValue {
    String(String),
    Integer(i64),
    Boolean(bool),
    /// A user, with the member profile of the guild the command ran in.
    User(User, Option<PartialMember>),
    Channel(PartialChannel),
    Role(Role),
    /// A number, as the bits of its IEEE 754 double-precision encoding.
    Number(u64),
    Attachment(Attachment),
    /// A variant this library does not know.
    Unknown,
}

/// One named argument, or a subcommand or group that contains others.
#[derive(Debug)]
pub struct CommandOption {
    pub name: String,
    pub kind: OptionKind,
    pub value: Option<ResolvedValue>,
    pub suboptions: Vec<CommandOption>,
}

/// The entities that an invocation refers to, by id.
#[derive(Debug)]
pub struct ResolvedEntities {
    pub users: HashMap<u64, User>,
    /// The guild member profiles of the users, by the id of the user.
    pub members: HashMap<u64, PartialMember>,
    pub roles: HashMap<u64, Role>,
    pub channels: HashMap<u64, PartialChannel>,
    pub messages: HashMap<u64, Message>,
    pub attachments: HashMap<u64, Attachment>,
}

/// One received command invocation.
#[derive(Debug)]
pub struct Invocation {
    pub kind: CommandKind,
    pub options: Vec<CommandOption>,
    pub resolved: ResolvedEntities,
}

impl Default for ResolvedEntities {
    /// A table that refers to nothing.
    fn default() -> (r: Self)
        ensures
            r.users@ == Map::<u64, User>::empty(),
            r.members@ == Map::<u64, PartialMember>::empty(),
            r.roles@ == Map::<u64, Role>::empty(),
            r.channels@ == Map::<u64, PartialChannel>::empty(),
            r.messages@ == Map::<u64, Message>::empty(),
            r.attachments@ == Map::<u64, Attachment>::empty(),
    {
        ResolvedEntities {
            users: HashMap::new(),
            members: HashMap::new(),
            roles: HashMap::new(),
            channels: HashMap::new(),
            messages: HashMap::new(),
            attachments: HashMap::new(),
        }
    }
}

impl OptionKind {
    /// A subcommand or a group of subcommands: an option that holds options.
    pub open spec fn spec_is_container(self) -> bool {
        self is SubCommand || self is SubCommandGroup
    }

    /// Tells a subcommand or group from an ordinary option.
    #[verifier::when_used_as_spec(spec_is_container)]
    pub fn is_container(self) -> (r: bool)
        ensures
            r == self.spec_is_container(),
    {
        match self {
            OptionKind::SubCommand | OptionKind::SubCommandGroup => true,
            _ => false,
        }
    }
}

impl OptionValueType {
    /// The kind that an option is declared with when it holds a value of this type.
    pub open spec fn spec_option_kind(self) -> OptionKind {
        match self {
            OptionValueType::String => OptionKind::String,
            OptionValueType::Integer => OptionKind::Integer,
            OptionValueType::Boolean => OptionKind::Boolean,
            OptionValueType::User => OptionKind::User,
            OptionValueType::Channel => OptionKind::Channel,
            OptionValueType::Role => OptionKind::Role,
            OptionValueType::Number => OptionKind::Number,
            OptionValueType::Attachment => OptionKind::Attachment,
            OptionValueType::Unknown => OptionKind::Unknown,
        }
    }

    /// The kind that an option is declared with when it holds a value of this type.
    #[verifier::when_used_as_spec(spec_option_kind)]
    pub fn option_kind(self) -> (r: OptionKind)
        ensures
            r == self.spec_option_kind(),
    {
        match self {
            OptionValueType::String => OptionKind::String,
            OptionValueType::Integer => OptionKind::Integer,
            OptionValueType::Boolean => OptionKind::Boolean,
            OptionValueType::User => OptionKind::User,
            OptionValueType::Channel => OptionKind::Channel,
            OptionValueType::Role => OptionKind::Role,
            OptionValueType::Number => OptionKind::Number,
            OptionValueType::Attachment => OptionKind::Attachment,
            OptionValueType::Unknown => OptionKind::Unknown,
        }
    }

    /// The word for this type in error messages.
    pub open spec fn spec_label(self) -> &'static str {
        match self {
            OptionValueType::String => "String",
            OptionValueType::Integer => "Integer",
            OptionValueType::Boolean => "Boolean",
            OptionValueType::User => "User",
            OptionValueType::Channel => "Channel",
            OptionValueType::Role => "Role",
            OptionValueType::Number => "Number",
            OptionValueType::Attachment => "Attachment",
            OptionValueType::Unknown => "Unknown",
        }
    }

    /// The word for this type in error messages.
    #[verifier::when_used_as_spec(spec_label)]
    pub fn label(self) -> (r: &'static str)
        ensures
            r == self.spec_label(),
    {
        match self {
            OptionValueType::String => "String",
            OptionValueType::Integer => "Integer",
            OptionValueType::Boolean => "Boolean",
            OptionValueType::User => "User",
            OptionValueType::Channel => "Channel",
            OptionValueType::Role => "Role",
            OptionValueType::Number => "Number",
            OptionValueType::Attachment => "Attachment",
            OptionValueType::Unknown => "Unknown",
        }
    }
}

impl ResolvedValue {
    /// The tag of each variant.
    pub open spec fn kind_tag(self) -> OptionValueType {
        match self {
            ResolvedValue::String(_) => OptionValueType::String,
            ResolvedValue::Integer(_) => OptionValueType::Integer,
            ResolvedValue::Boolean(_) => OptionValueType::Boolean,
            ResolvedValue::User(_, _) => OptionValueType::User,
            ResolvedValue::Channel(_) => OptionValueType::Channel,
            ResolvedValue::Role(_) => OptionValueType::Role,
            ResolvedValue::Number(_) => OptionValueType::Number,
            ResolvedValue::Attachment(_) => OptionValueType::Attachment,
            ResolvedValue::Unknown => OptionValueType::Unknown,
        }
    }

    /// Names the variant of this value.
    pub fn describe(&self) -> (r: OptionValueType)
        ensures
            r == self.kind_tag(),
    {
        match self {
            ResolvedValue::String(_) => OptionValueType::String,
            ResolvedValue::Integer(_) => OptionValueType::Integer,
            ResolvedValue::Boolean(_) => OptionValueType::Boolean,
            ResolvedValue::User(_, _) => OptionValueType::User,
            ResolvedValue::Channel(_) => OptionValueType::Channel,
            ResolvedValue::Role(_) => OptionValueType::Role,
            ResolvedValue::Number(_) => OptionValueType::Number,
            ResolvedValue::Attachment(_) => OptionValueType::Attachment,
            ResolvedValue::Unknown => OptionValueType::Unknown,
        }
    }
}

} // verus!

//! The single user or message that a context-menu command was invoked on.

use crate::error::{texts, Error, ErrorView};
use crate::model::{CommandKind, ResolvedEntities};
use serenity::model::channel::Message;
use serenity::model::guild::PartialMember;
use serenity::model::user::User;
use std::collections::HashMap;
use vstd::prelude::*;

verus! {

/// How the error names the user that is looked for.
pub const USER: &'static str = "user";

/// How the error names the member profile that is looked for.
pub const MEMBER: &'static str = "member";

/// How the error names the message that is looked for.
pub const MESSAGE: &'static str = "message";

/// The only entry of a table: none if the table is empty, an error that
/// carries the label if it holds more than one.
pub open spec fn sole_entry<V>(table: Map<u64, V>, label: Seq<char>) -> Result<
    Option<(u64, V)>,
    ErrorView,
> {
    if table.len() == 0 {
        Ok(None)
    } else if table.len() == 1 {
        Ok(Some((table.dom().choose(), table[table.dom().choose()])))
    } else {
        Err(ErrorView::Trailing(seq![label]))
    }
}

/// The only entry of a table, which has to be there.
pub open spec fn required_entry<V>(table: Map<u64, V>, label: Seq<char>) -> Result<
    (u64, V),
    ErrorView,
> {
    match sole_entry(table, label) {
        Err(e) => Err(e),
        Ok(None) => Err(ErrorView::MissingOption(label)),
        Ok(Some(entry)) => Ok(entry),
    }
}

/// The user that a user context menu was invoked on, with the member
/// profile if there is one.
pub open spec fn target_user(kind: CommandKind, resolved: ResolvedEntities) -> Result<
    (User, Option<PartialMember>),
    ErrorView,
> {
    if kind != CommandKind::User {
        Err(ErrorView::NotUser)
    } else {
        match required_entry(resolved.users@, USER@) {
            Err(e) => Err(e),
            Ok((_, user)) => match sole_entry(resolved.members@, MEMBER@) {
                Err(e) => Err(e),
                Ok(None) => Ok((user, None)),
                Ok(Some((_, member))) => Ok((user, Some(member))),
            },
        }
    }
}

/// The message that a message context menu was invoked on.
pub open spec fn target_message(kind: CommandKind, resolved: ResolvedEntities) -> Result<
    Message,
    ErrorView,
> {
    if kind != CommandKind::Message {
        Err(ErrorView::NotMessage)
    } else {
        match required_entry(resolved.messages@, MESSAGE@) {
            Err(e) => Err(e),
            Ok((_, message)) => Ok(message),
        }
    }
}

/// A visitor for the target of a context-menu command.
#[derive(Debug)]
pub struct TargetVisitor<'a>(CommandKind, &'a ResolvedEntities);

impl<'a> TargetVisitor<'a> {
    /// How the command was invoked.
    pub closed spec fn kind(&self) -> CommandKind {
        self.0
    }

    /// The entities that the invocation refers to.
    pub closed spec fn resolved(&self) -> ResolvedEntities {
        *self.1
    }

    /// A visitor over the kind and the entities of one invocation.
    pub fn new(kind: CommandKind, resolved: &'a ResolvedEntities) -> (r: Self)
        ensures
            r.kind() == kind,
            r.resolved() == *resolved,
    {
        TargetVisitor(kind, resolved)
    }

    fn pull_single_opt<V>(map: &'a HashMap<u64, V>, name: &'static str) -> (r: Result<
        Option<(&'a u64, &'a V)>,
        Error,
    >)
        ensures
            match sole_entry(map@, name@) {
                Err(e) => r matches Err(x) && x@ == e,
                Ok(None) => r is Ok && r->Ok_0 is None,
                Ok(Some((k, v))) => r matches Ok(Some(pair)) && *pair.0 == k && *pair.1 == v,
            },
    {
        broadcast use vstd::std_specs::hash::group_hash_axioms;

        let mut first: Option<(&'a u64, &'a V)> = None;
        for pair in it: map.iter()
            invariant
                first is None <==> it.index() == 0,
                first matches Some(p) ==> it.index() == 1 && p == it.seq()[0],
        {
            if first.is_some() {
                let mut names: Vec<String> = Vec::new();
                names.push(name.to_owned());
                assert(texts(names@) =~= seq![name@]);
                return Err(Error::Trailing(names));
            }
            first = Some(pair);
        }
        proof {
            if let Some(p) = first {
                let key = map@.dom().choose();
                assert(map@.dom().contains(key));
                assert(map@.contains_key(*p.0));
                if *p.0 != key {
                    assert(map@.dom().remove(key).remove(*p.0).len() == map@.len() - 2);
                }
            }
        }
        Ok(first)
    }

    fn pull_single<V>(map: &'a HashMap<u64, V>, name: &'static str) -> (r: Result<
        (&'a u64, &'a V),
        Error,
    >)
        ensures
            match required_entry(map@, name@) {
                Err(e) => r matches Err(x) && x@ == e,
                Ok((k, v)) => r matches Ok(pair) && *pair.0 == k && *pair.1 == v,
            },
    {
        match Self::pull_single_opt(map, name) {
            Err(e) => Err(e),
            Ok(None) => Err(Error::MissingOption(name.to_owned())),
            Ok(Some(pair)) => Ok(pair),
        }
    }

    /// The user that the command was invoked on, with the member profile if
    /// the command ran in a guild.
    pub fn user(self) -> (r: Result<(&'a User, Option<&'a PartialMember>), Error>)
        ensures
            match target_user(self.kind(), self.resolved()) {
                Err(e) => r matches Err(x) && x@ == e,
                Ok((user, None)) => r == Ok::<(&'a User, Option<&'a PartialMember>), Error>(
                    (&user, None),
                ),
                Ok((user, Some(member))) => r == Ok::<
                    (&'a User, Option<&'a PartialMember>),
                    Error,
                >((&user, Some(&member))),
            },
    {
        if !(self.0 == CommandKind::User) {
            return Err(Error::NotUser);
        }
        let (_uid, user) = match Self::pull_single(&self.1.users, USER) {
            Err(e) => {
                return Err(e);
            },
            Ok(pair) => pair,
        };
        match Self::pull_single_opt(&self.1.members, MEMBER) {
            Err(e) => Err(e),
            Ok(None) => Ok((user, None)),
            Ok(Some((_, member))) => Ok((user, Some(member))),
        }
    }

    /// The message that the command was invoked on.
    pub fn message(self) -> (r: Result<&'a Message, Error>)
        ensures
            match target_message(self.kind(), self.resolved()) {
                Err(e) => r matches Err(x) && x@ == e,
                Ok(message) => r == Ok::<&'a Message, Error>(&message),
            },
    {
        if !(self.0 == CommandKind::Message) {
            return Err(Error::NotMessage);
        }
        match Self::pull_single(&self.1.messages, MESSAGE) {
            Err(e) => Err(e),
            Ok((_mid, message)) => Ok(message),
        }
    }
}

} // verus!

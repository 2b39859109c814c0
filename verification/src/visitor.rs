//! The visitor through which a handler takes its arguments out of an
//! invocation, and the check that it took them all.

use crate::error::{
    slice_texts, texts, Error, ErrorView, OPTION_AFTER_SUBCOMMAND, SUBCOMMAND_AFTER_OPTION,
};
use crate::model::{CommandKind, CommandOption, Invocation, OptionValueType, ResolvedValue};
use crate::options::{
    below, descend, lists_keys, names_of, nesting, option_map, option_names, OptionMap,
};
use crate::target::TargetVisitor;
use serenity::model::channel::{Attachment, PartialChannel};
use serenity::model::guild::{PartialMember, Role};
use serenity::model::user::User;
use vstd::prelude::*;

verus! {

/// What a visitor knows of its invocation.
pub enum VisitorView {
    /// The options have not been looked at.
    Init,
    /// The options have been looked at.
    Built {
        /// The subcommand path, until the handler has taken it.
        pending: Option<Seq<Seq<char>>>,
        /// The options of the invoked subcommand that are not consumed yet.
        remaining: Map<Seq<char>, CommandOption>,
    },
}

/// The state of a visitor that has looked at the options, with no
/// subcommand path pending.
pub open spec fn ready(remaining: Map<Seq<char>, CommandOption>) -> VisitorView {
    VisitorView::Built { pending: None, remaining }
}

/// The state of a visitor that has looked at the options and holds a
/// subcommand path that the handler has not taken yet.
pub open spec fn waiting(
    path: Seq<Seq<char>>,
    remaining: Map<Seq<char>, CommandOption>,
) -> VisitorView {
    VisitorView::Built { pending: Some(path), remaining }
}

/// What the first look at the options of an invocation finds.
pub open spec fn first_access(inv: Invocation) -> Result<VisitorView, ErrorView> {
    if inv.kind != CommandKind::ChatInput {
        Err(ErrorView::NotChatInput)
    } else {
        match descend(inv.options@) {
            Err(e) => Err(e),
            Ok(d) => Ok(
                VisitorView::Built {
                    pending: if d.path.len() > 0 {
                        Some(d.path)
                    } else {
                        None
                    },
                    remaining: option_map(d.leaf),
                },
            ),
        }
    }
}

/// The state in which an access finds the visitor: the options are looked at
/// on the first access, and never again.
pub open spec fn accessed(inv: Invocation, state: VisitorView) -> Result<VisitorView, ErrorView> {
    match state {
        VisitorView::Init => first_access(inv),
        VisitorView::Built { .. } => Ok(state),
    }
}

/// What an option yields to an accessor that expects the given type: the
/// declared kind must be the expected one, and so must the type of the
/// value, if the option has one.
pub open spec fn extract(name: Seq<char>, expected: OptionValueType, opt: CommandOption) -> Result<
    Option<ResolvedValue>,
    ErrorView,
> {
    if opt.kind != expected.option_kind() {
        Err(ErrorView::BadOptionType(name, expected.label()@, opt.kind))
    } else {
        match opt.value {
            None => Ok(None),
            Some(v) => if v.kind_tag() == expected {
                Ok(Some(v))
            } else {
                Err(ErrorView::BadOptionValueType(name, expected.label()@, v.kind_tag()))
            },
        }
    }
}

/// A typed accessor: the state it leaves and what it yields. While the
/// subcommand path is pending it fails and changes nothing. After that the
/// named option is consumed, whether or not it is of the expected type; an
/// option that is not there yields no value.
pub open spec fn option_step(
    inv: Invocation,
    state: VisitorView,
    name: Seq<char>,
    expected: OptionValueType,
) -> (VisitorView, Result<Option<ResolvedValue>, ErrorView>) {
    match accessed(inv, state) {
        Err(e) => (state, Err(e)),
        Ok(VisitorView::Built { pending: Some(path), remaining }) => (
            waiting(path, remaining),
            Err(ErrorView::UnhandledSubcommand(path)),
        ),
        Ok(VisitorView::Built { pending: None, remaining }) => (
            ready(remaining.remove(name)),
            if remaining.contains_key(name) {
                extract(name, expected, remaining[name])
            } else {
                Ok(None)
            },
        ),
        Ok(VisitorView::Init) => (state, Ok(None)),
    }
}

/// The subcommand accessor: the state it leaves and what it yields. It hands
/// the pending path out, once.
pub open spec fn subcommand_step(inv: Invocation, state: VisitorView) -> (
    VisitorView,
    Result<Seq<Seq<char>>, ErrorView>,
) {
    match accessed(inv, state) {
        Err(e) => (state, Err(e)),
        Ok(VisitorView::Built { pending: Some(path), remaining }) => (ready(remaining), Ok(path)),
        Ok(built) => (built, Err(ErrorView::MissingSubcommand)),
    }
}

/// Whether the final check may end with the given result. A visitor that
/// never looked at the options of a slash command fails with the names of
/// the top-level options, in order. One that did fails with the names of the
/// options that are left, each once, in no stated order.
pub open spec fn finish_allows(
    inv: Invocation,
    state: VisitorView,
    result: Result<(), ErrorView>,
) -> bool {
    match state {
        VisitorView::Init => result == if inv.kind == CommandKind::ChatInput && inv.options@.len()
            > 0 {
            Err(ErrorView::Trailing(names_of(inv.options@)))
        } else {
            Ok(())
        },
        VisitorView::Built { remaining, .. } => if remaining.dom().is_empty() {
            result == Ok::<(), ErrorView>(())
        } else {
            result matches Err(ErrorView::Trailing(names)) && lists_keys(names, remaining)
        },
    }
}

/// The outcome of asking for one option: its name, and its value if it was supplied.
#[derive(Debug)]
pub struct OptionVisitor<'a, T>(&'a str, Option<T>);

impl<'a, T> View for OptionVisitor<'a, T> {
    type V = (Seq<char>, Option<T>);

    closed spec fn view(&self) -> (Seq<char>, Option<T>) {
        (self.0@, self.1)
    }
}

impl<'a, T> OptionVisitor<'a, T> {
    /// The value, if the option was supplied.
    pub fn optional(self) -> (r: Option<T>)
        ensures
            r == self@.1,
    {
        self.1
    }

    /// The value, or an error that names the option if it was not supplied.
    pub fn required(self) -> (r: Result<T, Error>)
        ensures
            match self@.1 {
                Some(v) => r == Ok::<T, Error>(v),
                None => r matches Err(e) && e@ == ErrorView::MissingOption(self@.0),
            },
    {
        match self.1 {
            Some(v) => Ok(v),
            None => Err(Error::MissingOption(self.0.to_owned())),
        }
    }
}

fn owned_path(path: &Vec<&str>) -> (r: Vec<String>)
    ensures
        texts(r@) == slice_texts(path@),
{
    let mut out: Vec<String> = Vec::new();
    let mut i: usize = 0;
    while i < path.len()
        invariant
            i <= path.len(),
            out.len() == i,
            forall|k: int| 0 <= k < i ==> (#[trigger] out[k])@ == path[k]@,
        decreases path.len() - i,
    {
        out.push(path[i].to_owned());
        i = i + 1;
    }
    assert(texts(out@) =~= slice_texts(path@));
    out
}

#[derive(Debug)]
enum VisitorState<'a> {
    Init,
    SlashCommand(Option<Vec<&'a str>>, OptionMap<'a>),
}

/// A visitor for extracting data from a command invocation.
#[derive(Debug)]
pub struct CommandVisitor<'a> {
    inv: &'a Invocation,
    state: VisitorState<'a>,
}

impl<'a> View for CommandVisitor<'a> {
    type V = VisitorView;

    closed spec fn view(&self) -> VisitorView {
        match self.state {
            VisitorState::Init => VisitorView::Init,
            VisitorState::SlashCommand(pending, opts) => VisitorView::Built {
                pending: match pending {
                    Some(path) => Some(slice_texts(path@)),
                    None => None,
                },
                remaining: opts@,
            },
        }
    }
}

impl<'a> CommandVisitor<'a> {
    /// The invocation that this visitor reads.
    pub closed spec fn invocation(&self) -> Invocation {
        *self.inv
    }

    /// Once the options have been looked at, the visitor holds a part of
    /// what that look found, and nothing else.
    #[verifier::type_invariant]
    spec fn holds_what_was_found(&self) -> bool {
        match self.state {
            VisitorState::Init => true,
            VisitorState::SlashCommand(_, opts) => {
                &&& first_access(*self.inv) matches Ok(VisitorView::Built { pending, remaining })
                &&& self@->pending is None || self@->pending == pending
                &&& opts@.submap_of(remaining)
            },
        }
    }

    /// What a typed accessor does when called on this visitor: the state it
    /// leaves and what it yields.
    pub open spec fn asked(&self, name: Seq<char>, expected: OptionValueType) -> (
        VisitorView,
        Result<Option<ResolvedValue>, ErrorView>,
    ) {
        option_step(self.invocation(), self@, name, expected)
    }

    /// What the subcommand accessor does when called on this visitor: the
    /// state it leaves and what it yields.
    pub open spec fn asked_subcommand(&self) -> (VisitorView, Result<Seq<Seq<char>>, ErrorView>) {
        subcommand_step(self.invocation(), self@)
    }

    /// Wrap a reference to an invocation in a new visitor.
    pub fn new(inv: &'a Invocation) -> (r: Self)
        ensures
            r@ == VisitorView::Init,
            r.invocation() == *inv,
    {
        CommandVisitor { inv, state: VisitorState::Init }
    }

    fn is_built(&self) -> (r: bool)
        ensures
            r == (self@ is Built),
    {
        match &self.state {
            VisitorState::Init => false,
            VisitorState::SlashCommand(_, _) => true,
        }
    }

    /// Looks at the options on the first access: follows the subcommands
    /// down and enters the options found there by name.
    #[verifier::loop_isolation(false)]
    fn visit_opts(&mut self) -> (r: Result<(), Error>)
        ensures
            final(self).invocation() == old(self).invocation(),
            match accessed(old(self).invocation(), old(self)@) {
                Ok(state) => r is Ok && final(self)@ == state,
                Err(e) => r matches Err(x) && x@ == e && final(self)@ == old(self)@,
            },
    {
        proof {
            use_type_invariant(&*self);
        }
        if self.is_built() {
            return Ok(());
        }
        if !(self.inv.kind == CommandKind::ChatInput) {
            return Err(Error::NotChatInput);
        }
        let top: &'a Vec<CommandOption> = &self.inv.options;
        let mut path: Vec<&'a str> = Vec::new();
        let mut level: &'a Vec<CommandOption> = top;
        assert(slice_texts(path@) + descend(level@)->Ok_0.path =~= descend(level@)->Ok_0.path);
        while level.len() > 0 && level[0].kind.is_container()
            invariant
                descend(top@) == below(slice_texts(path@), descend(level@)),
            decreases nesting(level@),
        {
            let opt: &'a CommandOption = &level[0];
            let ghost before = slice_texts(path@);
            path.push(opt.name.as_str());
            if level.len() > 1 {
                return Err(Error::Malformed(OPTION_AFTER_SUBCOMMAND));
            }
            proof {
                assert(slice_texts(path@) =~= before + seq![opt.name@]);
                let rest = descend(opt.suboptions@);
                if rest is Ok {
                    assert(before + (seq![opt.name@] + rest->Ok_0.path) =~= (before
                        + seq![opt.name@]) + rest->Ok_0.path);
                }
            }
            level = &opt.suboptions;
        }
        let mut opts = OptionMap::new();
        let mut i: usize = 0;
        while i < level.len()
            invariant
                i <= level.len(),
                opts@ == option_map(level@.take(i as int)),
                forall|k: int| 0 <= k < i ==> !(#[trigger] level[k]).kind.is_container(),
            decreases level.len() - i,
        {
            let opt: &'a CommandOption = &level[i];
            if opt.kind.is_container() {
                return Err(Error::Malformed(SUBCOMMAND_AFTER_OPTION));
            }
            opts.insert(opt);
            proof {
                let next = level@.take(i + 1);
                assert(next.drop_last() =~= level@.take(i as int));
                assert(next.last() == *opt);
            }
            i = i + 1;
        }
        assert(level@.take(i as int) =~= level@);
        let pending = if path.len() == 0 {
            None
        } else {
            Some(path)
        };
        self.state = VisitorState::SlashCommand(pending, opts);
        Ok(())
    }

    /// Takes the named option out of those that are left.
    fn visit_opt(&mut self, name: &str) -> (r: Result<Option<&'a CommandOption>, Error>)
        ensures
            final(self).invocation() == old(self).invocation(),
            match accessed(old(self).invocation(), old(self)@) {
                Err(e) => r matches Err(x) && x@ == e && final(self)@ == old(self)@,
                Ok(VisitorView::Built { pending: Some(path), remaining }) => {
                    &&& r matches Err(x) && x@ == ErrorView::UnhandledSubcommand(path)
                    &&& final(self)@ == waiting(path, remaining)
                },
                Ok(VisitorView::Built { pending: None, remaining }) => {
                    &&& r == Ok::<Option<&'a CommandOption>, Error>(
                        if remaining.contains_key(name@) {
                            Some(&remaining[name@])
                        } else {
                            None
                        },
                    )
                    &&& final(self)@ == ready(remaining.remove(name@))
                },
                Ok(VisitorView::Init) => false,
            },
    {
        match self.visit_opts() {
            Err(e) => {
                return Err(e);
            },
            Ok(()) => {},
        }
        proof {
            use_type_invariant(&*self);
        }
        let mut state = VisitorState::Init;
        std::mem::swap(&mut state, &mut self.state);
        let found = match &mut state {
            VisitorState::Init => Ok(None),
            VisitorState::SlashCommand(pending, opts) => {
                match pending {
                    Some(path) => Err(Error::UnhandledSubcommand(owned_path(path))),
                    None => Ok(opts.remove(name)),
                }
            },
        };
        self.state = state;
        found
    }

    /// Takes the named option out and checks it against the expected type.
    fn visit_basic(&mut self, name: &str, expected: OptionValueType) -> (r: Result<
        Option<&'a ResolvedValue>,
        Error,
    >)
        ensures
            final(self).invocation() == old(self).invocation(),
            final(self)@ == old(self).asked(name@, expected).0,
            match old(self).asked(name@, expected).1 {
                Err(e) => r matches Err(x) && x@ == e,
                Ok(Some(v)) => r == Ok::<Option<&'a ResolvedValue>, Error>(Some(&v)),
                Ok(None) => r == Ok::<Option<&'a ResolvedValue>, Error>(None),
            },
    {
        let opt = match self.visit_opt(name) {
            Err(e) => {
                return Err(e);
            },
            Ok(None) => {
                return Ok(None);
            },
            Ok(Some(opt)) => opt,
        };
        if !(opt.kind == expected.option_kind()) {
            return Err(Error::BadOptionType(name.to_owned(), expected.label(), opt.kind));
        }
        match &opt.value {
            None => Ok(None),
            Some(v) => {
                let actual = v.describe();
                if actual == expected {
                    Ok(Some(v))
                } else {
                    Err(Error::BadOptionValueType(name.to_owned(), expected.label(), actual))
                }
            },
        }
    }

    /// Visit a string argument.
    pub fn visit_string(&mut self, name: &'a str) -> (r: Result<
        OptionVisitor<'a, &'a String>,
        Error,
    >)
        ensures
            final(self).invocation() == old(self).invocation(),
            final(self)@ == old(self).asked(name@, OptionValueType::String).0,
            match old(self).asked(name@, OptionValueType::String).1 {
                Err(e) => r matches Err(x) && x@ == e,
                Ok(Some(ResolvedValue::String(s))) => r matches Ok(o) && o@ == (name@, Some(&s)),
                Ok(_) => r matches Ok(o) && o@ == (name@, None::<&'a String>),
            },
    {
        match self.visit_basic(name, OptionValueType::String) {
            Err(e) => Err(e),
            Ok(Some(ResolvedValue::String(s))) => Ok(OptionVisitor(name, Some(s))),
            Ok(_) => Ok(OptionVisitor(name, None)),
        }
    }

    /// Visit an integer argument.
    pub fn visit_i64(&mut self, name: &'a str) -> (r: Result<OptionVisitor<'a, i64>, Error>)
        ensures
            final(self).invocation() == old(self).invocation(),
            final(self)@ == old(self).asked(name@, OptionValueType::Integer).0,
            match old(self).asked(name@, OptionValueType::Integer).1 {
                Err(e) => r matches Err(x) && x@ == e,
                Ok(Some(ResolvedValue::Integer(i))) => r matches Ok(o) && o@ == (name@, Some(i)),
                Ok(_) => r matches Ok(o) && o@ == (name@, None::<i64>),
            },
    {
        match self.visit_basic(name, OptionValueType::Integer) {
            Err(e) => Err(e),
            Ok(Some(ResolvedValue::Integer(i))) => Ok(OptionVisitor(name, Some(*i))),
            Ok(_) => Ok(OptionVisitor(name, None)),
        }
    }

    /// Visit a Boolean argument.
    pub fn visit_bool(&mut self, name: &'a str) -> (r: Result<OptionVisitor<'a, bool>, Error>)
        ensures
            final(self).invocation() == old(self).invocation(),
            final(self)@ == old(self).asked(name@, OptionValueType::Boolean).0,
            match old(self).asked(name@, OptionValueType::Boolean).1 {
                Err(e) => r matches Err(x) && x@ == e,
                Ok(Some(ResolvedValue::Boolean(b))) => r matches Ok(o) && o@ == (name@, Some(b)),
                Ok(_) => r matches Ok(o) && o@ == (name@, None::<bool>),
            },
    {
        match self.visit_basic(name, OptionValueType::Boolean) {
            Err(e) => Err(e),
            Ok(Some(ResolvedValue::Boolean(b))) => Ok(OptionVisitor(name, Some(*b))),
            Ok(_) => Ok(OptionVisitor(name, None)),
        }
    }

    /// Visit a user argument: the user, and the member profile if the
    /// command ran in a guild.
    pub fn visit_user(&mut self, name: &'a str) -> (r: Result<
        OptionVisitor<'a, (&'a User, &'a Option<PartialMember>)>,
        Error,
    >)
        ensures
            final(self).invocation() == old(self).invocation(),
            final(self)@ == old(self).asked(name@, OptionValueType::User).0,
            match old(self).asked(name@, OptionValueType::User).1 {
                Err(e) => r matches Err(x) && x@ == e,
                Ok(Some(ResolvedValue::User(u, m))) => r matches Ok(o) && o@ == (
                    name@,
                    Some((&u, &m)),
                ),
                Ok(_) => r matches Ok(o) && o@ == (
                    name@,
                    None::<(&'a User, &'a Option<PartialMember>)>,
                ),
            },
    {
        match self.visit_basic(name, OptionValueType::User) {
            Err(e) => Err(e),
            Ok(Some(ResolvedValue::User(u, m))) => Ok(OptionVisitor(name, Some((u, m)))),
            Ok(_) => Ok(OptionVisitor(name, None)),
        }
    }

    /// Visit a channel argument.
    pub fn visit_channel(&mut self, name: &'a str) -> (r: Result<
        OptionVisitor<'a, &'a PartialChannel>,
        Error,
    >)
        ensures
            final(self).invocation() == old(self).invocation(),
            final(self)@ == old(self).asked(name@, OptionValueType::Channel).0,
            match old(self).asked(name@, OptionValueType::Channel).1 {
                Err(e) => r matches Err(x) && x@ == e,
                Ok(Some(ResolvedValue::Channel(c))) => r matches Ok(o) && o@ == (name@, Some(&c)),
                Ok(_) => r matches Ok(o) && o@ == (name@, None::<&'a PartialChannel>),
            },
    {
        match self.visit_basic(name, OptionValueType::Channel) {
            Err(e) => Err(e),
            Ok(Some(ResolvedValue::Channel(c))) => Ok(OptionVisitor(name, Some(c))),
            Ok(_) => Ok(OptionVisitor(name, None)),
        }
    }

    /// Visit a role argument.
    pub fn visit_role(&mut self, name: &'a str) -> (r: Result<OptionVisitor<'a, &'a Role>, Error>)
        ensures
            final(self).invocation() == old(self).invocation(),
            final(self)@ == old(self).asked(name@, OptionValueType::Role).0,
            match old(self).asked(name@, OptionValueType::Role).1 {
                Err(e) => r matches Err(x) && x@ == e,
                Ok(Some(ResolvedValue::Role(role))) => r matches Ok(o) && o@ == (
                    name@,
                    Some(&role),
                ),
                Ok(_) => r matches Ok(o) && o@ == (name@, None::<&'a Role>),
            },
    {
        match self.visit_basic(name, OptionValueType::Role) {
            Err(e) => Err(e),
            Ok(Some(ResolvedValue::Role(role))) => Ok(OptionVisitor(name, Some(role))),
            Ok(_) => Ok(OptionVisitor(name, None)),
        }
    }

    /// Visit a number argument. The value is handed out as the bits of its
    /// IEEE 754 double-precision encoding.
    pub fn visit_number(&mut self, name: &'a str) -> (r: Result<OptionVisitor<'a, u64>, Error>)
        ensures
            final(self).invocation() == old(self).invocation(),
            final(self)@ == old(self).asked(name@, OptionValueType::Number).0,
            match old(self).asked(name@, OptionValueType::Number).1 {
                Err(e) => r matches Err(x) && x@ == e,
                Ok(Some(ResolvedValue::Number(bits))) => r matches Ok(o) && o@ == (
                    name@,
                    Some(bits),
                ),
                Ok(_) => r matches Ok(o) && o@ == (name@, None::<u64>),
            },
    {
        match self.visit_basic(name, OptionValueType::Number) {
            Err(e) => Err(e),
            Ok(Some(ResolvedValue::Number(bits))) => Ok(OptionVisitor(name, Some(*bits))),
            Ok(_) => Ok(OptionVisitor(name, None)),
        }
    }

    /// Visit an attachment argument.
    pub fn visit_attachment(&mut self, name: &'a str) -> (r: Result<
        OptionVisitor<'a, &'a Attachment>,
        Error,
    >)
        ensures
            final(self).invocation() == old(self).invocation(),
            final(self)@ == old(self).asked(name@, OptionValueType::Attachment).0,
            match old(self).asked(name@, OptionValueType::Attachment).1 {
                Err(e) => r matches Err(x) && x@ == e,
                Ok(Some(ResolvedValue::Attachment(a))) => r matches Ok(o) && o@ == (
                    name@,
                    Some(&a),
                ),
                Ok(_) => r matches Ok(o) && o@ == (name@, None::<&'a Attachment>),
            },
    {
        match self.visit_basic(name, OptionValueType::Attachment) {
            Err(e) => Err(e),
            Ok(Some(ResolvedValue::Attachment(a))) => Ok(OptionVisitor(name, Some(a))),
            Ok(_) => Ok(OptionVisitor(name, None)),
        }
    }

    /// Extract the invoked subcommand path from the input arguments.
    pub fn visit_subcmd(&mut self) -> (r: Result<Vec<&'a str>, Error>)
        ensures
            final(self).invocation() == old(self).invocation(),
            final(self)@ == old(self).asked_subcommand().0,
            match old(self).asked_subcommand().1 {
                Err(e) => r matches Err(x) && x@ == e,
                Ok(path) => r matches Ok(p) && slice_texts(p@) == path,
            },
    {
        match self.visit_opts() {
            Err(e) => {
                return Err(e);
            },
            Ok(()) => {},
        }
        proof {
            use_type_invariant(&*self);
        }
        let mut state = VisitorState::Init;
        std::mem::swap(&mut state, &mut self.state);
        let taken = match &mut state {
            VisitorState::Init => Err(Error::MissingSubcommand),
            VisitorState::SlashCommand(pending, _) => {
                match pending.take() {
                    Some(path) => Ok(path),
                    None => Err(Error::MissingSubcommand),
                }
            },
        };
        self.state = state;
        taken
    }

    /// Visit the target of this context menu command.
    pub fn target(&self) -> (r: TargetVisitor<'a>)
        ensures
            r.kind() == self.invocation().kind,
            r.resolved() == self.invocation().resolved,
    {
        TargetVisitor::new(self.inv.kind, &self.inv.resolved)
    }

    /// Checks that the handler consumed every option that was supplied.
    pub fn finish(self) -> (r: Result<(), Error>)
        ensures
            finish_allows(
                self.invocation(),
                self@,
                match r {
                    Ok(()) => Ok(()),
                    Err(e) => Err(e@),
                },
            ),
    {
        match self.state {
            VisitorState::Init => {
                if self.inv.kind == CommandKind::ChatInput && self.inv.options.len() > 0 {
                    return Err(Error::Trailing(option_names(&self.inv.options)));
                }
            },
            VisitorState::SlashCommand(_, opts) => {
                if !opts.is_empty() {
                    return Err(Error::Trailing(opts.names()));
                }
            },
        }
        Ok(())
    }
}

} // verus!

//! What holds of every invocation and every sequence of accesses.

use crate::error::ErrorView;
use crate::model::{CommandKind, CommandOption, Invocation, OptionValueType, ResolvedEntities};
use crate::options::{descend, has_container, leads_to, names_of, option_map, Descent};
use crate::target::{target_user, USER};
use crate::visitor::{
    accessed, extract, finish_allows, option_step, ready, subcommand_step, waiting, VisitorView,
};
use vstd::prelude::*;

verus! {

/// The lookup that a list of options gives holds exactly the names that
/// occur in the list.
pub proof fn law_supplied_names(opts: Seq<CommandOption>)
    ensures
        option_map(opts).dom() == names_of(opts).to_set(),
    decreases opts.len(),
{
    let names = names_of(opts);
    if opts.len() == 0 {
        assert(option_map(opts).dom() =~= names.to_set());
    } else {
        let front = opts.drop_last();
        law_supplied_names(front);
        assert forall|n: Seq<char>| option_map(opts).dom().contains(n) <==> names.to_set().contains(
            n,
        ) by {
            if names_of(front).contains(n) {
                let i = choose|i: int| 0 <= i < front.len() && names_of(front)[i] == n;
                assert(names[i] == n);
            }
            if names.contains(n) {
                let i = choose|i: int| 0 <= i < names.len() && names[i] == n;
                if i < front.len() {
                    assert(names_of(front)[i] == n);
                }
            }
            assert(names[opts.len() - 1] == opts.last().name@);
        }
        assert(option_map(opts).dom() =~= names.to_set());
    }
}

/// Where no two options of a list have one name, the lookup finds each
/// option of the list under its name.
pub proof fn law_supplied_option(opts: Seq<CommandOption>, i: int)
    requires
        names_of(opts).no_duplicates(),
        0 <= i < opts.len(),
    ensures
        option_map(opts).contains_key(opts[i].name@),
        option_map(opts)[opts[i].name@] == opts[i],
    decreases opts.len(),
{
    let names = names_of(opts);
    let last = opts.len() - 1;
    assert(names[i] == opts[i].name@);
    assert(names[last] == opts[last].name@);
    if i < last {
        let front = opts.drop_last();
        assert(names_of(front) =~= names.drop_last());
        law_supplied_option(front, i);
    }
}

/// The way down ends well exactly on the lists that lead through
/// subcommands and groups, each alone in its list, down to ordinary options;
/// it then gives the names passed and those options.
pub proof fn law_descent(opts: Seq<CommandOption>, path: Seq<Seq<char>>, leaf: Seq<CommandOption>)
    ensures
        leads_to(opts, path, leaf) <==> descend(opts) == Ok::<Descent, ErrorView>(
            Descent { path, leaf },
        ),
    decreases path.len(),
{
    if path.len() == 0 {
        assert(path =~= Seq::<Seq<char>>::empty());
        if leads_to(opts, path, leaf) && opts.len() > 0 {
            assert(!opts[0].kind.is_container());
        }
        if descend(opts) == Ok::<Descent, ErrorView>(Descent { path, leaf }) {
            if opts.len() > 0 && opts[0].kind.is_container() {
                let rest = descend(opts[0].suboptions@);
                assert((seq![opts[0].name@] + rest->Ok_0.path).len() > 0);
            }
        }
    } else {
        if opts.len() == 1 && opts[0].kind.is_container() {
            let rest = descend(opts[0].suboptions@);
            law_descent(opts[0].suboptions@, path.drop_first(), leaf);
            if leads_to(opts, path, leaf) {
                assert(seq![opts[0].name@] + path.drop_first() =~= path);
            }
            if descend(opts) == Ok::<Descent, ErrorView>(Descent { path, leaf }) {
                assert((seq![opts[0].name@] + rest->Ok_0.path)[0] == path[0]);
                assert(rest->Ok_0.path =~= path.drop_first()) by {
                    assert((seq![opts[0].name@] + rest->Ok_0.path).drop_first()
                        =~= rest->Ok_0.path);
                }
            }
        } else if !has_container(opts) {
            assert(descend(opts)->Ok_0.path.len() == 0);
        }
    }
}

/// The state that a run of typed accessors leaves, each given by the name
/// and the type it asks for.
pub open spec fn after_options(
    inv: Invocation,
    state: VisitorView,
    asked: Seq<(Seq<char>, OptionValueType)>,
) -> VisitorView
    decreases asked.len(),
{
    if asked.len() == 0 {
        state
    } else {
        option_step(
            inv,
            after_options(inv, state, asked.drop_last()),
            asked.last().0,
            asked.last().1,
        ).0
    }
}

/// The names that a run of typed accessors asks for.
pub open spec fn asked_names(asked: Seq<(Seq<char>, OptionValueType)>) -> Set<Seq<char>> {
    asked.map_values(|a: (Seq<char>, OptionValueType)| a.0).to_set()
}

/// On a slash command whose options lead through subcommands of some names
/// down to some ordinary options, the first call of the subcommand accessor
/// yields exactly those names, and a typed accessor after it works on those
/// options.
pub proof fn law_subcommand_path(
    inv: Invocation,
    path: Seq<Seq<char>>,
    leaf: Seq<CommandOption>,
    name: Seq<char>,
    expected: OptionValueType,
)
    requires
        inv.kind == CommandKind::ChatInput,
        leads_to(inv.options@, path, leaf),
        path.len() > 0,
    ensures
        ({
            let supplied = option_map(leaf);
            let taken = subcommand_step(inv, VisitorView::Init);
            &&& taken.1 == Ok::<Seq<Seq<char>>, ErrorView>(path)
            &&& taken.0 == ready(supplied)
            &&& option_step(inv, taken.0, name, expected).0 == ready(supplied.remove(name))
            &&& option_step(inv, taken.0, name, expected).1 == if supplied.contains_key(name) {
                extract(name, expected, supplied[name])
            } else {
                Ok(None)
            }
        }),
{
    law_descent(inv.options@, path, leaf);
}

/// After any run of typed accessors on a slash command without a pending
/// subcommand path, the options that are left are those that were supplied
/// and were not asked for. The final check then succeeds if and only if none
/// is left; otherwise it fails with the names of those that are left, each
/// once.
pub proof fn law_finish_exhaustive(
    inv: Invocation,
    state: VisitorView,
    asked: Seq<(Seq<char>, OptionValueType)>,
    result: Result<(), ErrorView>,
)
    requires
        accessed(inv, state) matches Ok(VisitorView::Built { pending: None, .. }),
        state is Built || asked.len() > 0,
        finish_allows(inv, after_options(inv, state, asked), result),
    ensures
        ({
            let supplied = accessed(inv, state)->Ok_0->remaining;
            let left = supplied.remove_keys(asked_names(asked));
            &&& after_options(inv, state, asked) == ready(left)
            &&& result is Ok <==> left.dom().is_empty()
            &&& result is Err ==> (result->Err_0 matches ErrorView::Trailing(names)
                && names.no_duplicates() && names.to_set() == left.dom())
        }),
{
    lemma_after_options(inv, state, asked);
}

proof fn lemma_after_options(
    inv: Invocation,
    state: VisitorView,
    asked: Seq<(Seq<char>, OptionValueType)>,
)
    requires
        accessed(inv, state) matches Ok(VisitorView::Built { pending: None, .. }),
        state is Built || asked.len() > 0,
    ensures
        after_options(inv, state, asked) == ready(
            accessed(inv, state)->Ok_0->remaining.remove_keys(asked_names(asked)),
        ),
    decreases asked.len(),
{
    let supplied = accessed(inv, state)->Ok_0->remaining;
    let names = asked.map_values(|a: (Seq<char>, OptionValueType)| a.0);
    if asked.len() == 0 {
        assert(supplied.remove_keys(asked_names(asked)) =~= supplied);
    } else {
        let front = asked.drop_last();
        let front_names = front.map_values(|a: (Seq<char>, OptionValueType)| a.0);
        assert(front_names =~= names.drop_last());
        assert(names[asked.len() - 1] == asked.last().0);
        assert forall|n: Seq<char>| names.contains(n) <==> front_names.contains(n) || n
            == asked.last().0 by {
            if names.contains(n) {
                let i = choose|i: int| 0 <= i < names.len() && names[i] == n;
                if i < front_names.len() {
                    assert(front_names[i] == n);
                }
            }
            if front_names.contains(n) {
                let i = choose|i: int| 0 <= i < front_names.len() && front_names[i] == n;
                assert(names[i] == n);
            }
        }
        if front.len() == 0 && state is Init {
            assert(supplied.remove_keys(asked_names(front)) =~= supplied);
        } else {
            lemma_after_options(inv, state, front);
        }
        assert(supplied.remove_keys(asked_names(front)).remove(asked.last().0)
            =~= supplied.remove_keys(asked_names(asked)));
    }
}

/// A typed accessor that finds its option declared with the expected kind
/// yields the value if it is of the expected type, and otherwise fails with
/// an error that names the option, the expected type and the actual one.
pub proof fn law_accessor_value(
    inv: Invocation,
    remaining: Map<Seq<char>, CommandOption>,
    name: Seq<char>,
    expected: OptionValueType,
)
    requires
        remaining.contains_key(name),
        remaining[name].kind == expected.option_kind(),
        remaining[name].value is Some,
    ensures
        ({
            let value = remaining[name].value->Some_0;
            let yielded = option_step(inv, ready(remaining), name, expected).1;
            &&& value.kind_tag() == expected ==> (yielded is Ok && yielded->Ok_0 == Some(value))
            &&& value.kind_tag() != expected ==> (yielded is Err && yielded->Err_0
                == ErrorView::BadOptionValueType(name, expected.label()@, value.kind_tag()))
        }),
{
}

/// On a slash command whose options lead through subcommands, every typed
/// accessor that is called before the subcommand accessor fails with an
/// error that carries the path, however many were called before it, and the
/// path stays pending.
pub proof fn law_pending_subcommand(
    inv: Invocation,
    path: Seq<Seq<char>>,
    leaf: Seq<CommandOption>,
    asked: Seq<(Seq<char>, OptionValueType)>,
    name: Seq<char>,
    expected: OptionValueType,
)
    requires
        inv.kind == CommandKind::ChatInput,
        leads_to(inv.options@, path, leaf),
        path.len() > 0,
    ensures
        ({
            let state = after_options(inv, VisitorView::Init, asked);
            let step = option_step(inv, state, name, expected);
            &&& state == if asked.len() == 0 {
                VisitorView::Init
            } else {
                waiting(path, option_map(leaf))
            }
            &&& step.0 == waiting(path, option_map(leaf))
            &&& step.1 is Err
            &&& step.1->Err_0 == ErrorView::UnhandledSubcommand(path)
        }),
    decreases asked.len(),
{
    law_descent(inv.options@, path, leaf);
    if asked.len() > 0 {
        law_pending_subcommand(
            inv,
            path,
            leaf,
            asked.drop_last(),
            asked.last().0,
            asked.last().1,
        );
    }
}

/// An option that was consumed is not found a second time.
pub proof fn law_consumed_once(
    inv: Invocation,
    remaining: Map<Seq<char>, CommandOption>,
    name: Seq<char>,
    first: OptionValueType,
    second: OptionValueType,
)
    ensures
        ({
            let state = ready(remaining);
            let after = option_step(inv, state, name, first).0;
            let again = option_step(inv, after, name, second);
            &&& again.0 == after
            &&& again.1 is Ok
            &&& again.1->Ok_0 is None
        }),
{
    assert(remaining.remove(name).remove(name) =~= remaining.remove(name));
}

/// A target user is only found on a user context menu with exactly one
/// resolved user, and is that user. On every other kind of command the
/// target user is refused; on a user context menu without a resolved user it
/// is missing, and with two or more resolved users they are left over.
pub proof fn law_target_user(kind: CommandKind, resolved: ResolvedEntities)
    ensures
        target_user(kind, resolved) matches Ok((user, _)) ==> (kind == CommandKind::User
            && resolved.users@.len() == 1 && resolved.users@.contains_value(user)),
        kind != CommandKind::User ==> (target_user(kind, resolved) is Err && target_user(
            kind,
            resolved,
        )->Err_0 == ErrorView::NotUser),
        kind == CommandKind::User && resolved.users@.len() == 0 ==> (target_user(kind, resolved)
            is Err && target_user(kind, resolved)->Err_0 == ErrorView::MissingOption(USER@)),
        kind == CommandKind::User && resolved.users@.len() >= 2 ==> (target_user(kind, resolved)
            is Err && target_user(kind, resolved)->Err_0 == ErrorView::Trailing(seq![USER@])),
{
    broadcast use vstd::std_specs::hash::group_hash_axioms;

    let users = resolved.users@;
    if users.len() == 1 {
        assert(users.dom().finite());
        assert(users.dom().contains(users.dom().choose()));
    }
}

} // verus!

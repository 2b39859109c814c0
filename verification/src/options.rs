//! From the option list of an invocation to the subcommand path and the
//! options that the invoked subcommand was given.

use crate::error::{texts, ErrorView, OPTION_AFTER_SUBCOMMAND, SUBCOMMAND_AFTER_OPTION};
use crate::model::CommandOption;
use vstd::prelude::*;

verus! {

/// The names of a list of options, in order.
pub open spec fn names_of(opts: Seq<CommandOption>) -> Seq<Seq<char>> {
    opts.map_values(|o: CommandOption| o.name@)
}

/// Whether a subcommand or group stands anywhere in a list of options.
pub open spec fn has_container(opts: Seq<CommandOption>) -> bool {
    exists|i: int| 0 <= i < opts.len() && (#[trigger] opts[i]).kind.is_container()
}

/// Where the way down through subcommands and groups ends: the names passed
/// on the way, and the options found at the end of it.
pub struct Descent {
    pub path: Seq<Seq<char>>,
    pub leaf: Seq<CommandOption>,
}

/// Puts the names already passed before the outcome of the rest of the way.
pub open spec fn below(prefix: Seq<Seq<char>>, rest: Result<Descent, ErrorView>) -> Result<
    Descent,
    ErrorView,
> {
    match rest {
        Ok(d) => Ok(Descent { path: prefix + d.path, leaf: d.leaf }),
        Err(e) => Err(e),
    }
}

/// The way down from a list of options. A subcommand or group must stand
/// alone in its list; the way goes on through its own options. Where the
/// first option is an ordinary one, the list must hold ordinary options only,
/// and the way ends there.
pub open spec fn descend(opts: Seq<CommandOption>) -> Result<Descent, ErrorView>
    decreases opts,
{
    if opts.len() > 0 && opts[0].kind.is_container() {
        if opts.len() > 1 {
            Err(ErrorView::Malformed(OPTION_AFTER_SUBCOMMAND@))
        } else {
            below(seq![opts[0].name@], descend(opts[0].suboptions@))
        }
    } else if has_container(opts) {
        Err(ErrorView::Malformed(SUBCOMMAND_AFTER_OPTION@))
    } else {
        Ok(Descent { path: Seq::empty(), leaf: opts })
    }
}

/// Whether a list of options leads through subcommands and groups of the
/// given names, each alone in its list, down to the given ordinary options.
pub open spec fn leads_to(
    opts: Seq<CommandOption>,
    path: Seq<Seq<char>>,
    leaf: Seq<CommandOption>,
) -> bool
    decreases path.len(),
{
    if path.len() == 0 {
        opts == leaf && !has_container(leaf)
    } else {
        &&& opts.len() == 1
        &&& opts[0].kind.is_container()
        &&& opts[0].name@ == path[0]
        &&& leads_to(opts[0].suboptions@, path.drop_first(), leaf)
    }
}

/// How many subcommands and groups lie below one another at the head of a list.
pub open spec fn nesting(opts: Seq<CommandOption>) -> nat
    decreases opts,
{
    if opts.len() > 0 {
        1 + nesting(opts[0].suboptions@)
    } else {
        0
    }
}

/// The lookup from name to option that a list of options gives; of two
/// options with one name the later one stays.
pub open spec fn option_map(opts: Seq<CommandOption>) -> Map<Seq<char>, CommandOption>
    decreases opts.len(),
{
    if opts.len() == 0 {
        Map::empty()
    } else {
        option_map(opts.drop_last()).insert(opts.last().name@, opts.last())
    }
}

/// The names of a list of options, in order.
pub fn option_names(opts: &Vec<CommandOption>) -> (r: Vec<String>)
    ensures
        texts(r@) == names_of(opts@),
{
    let mut out: Vec<String> = Vec::new();
    let mut i: usize = 0;
    while i < opts.len()
        invariant
            i <= opts.len(),
            out.len() == i,
            forall|k: int| 0 <= k < i ==> (#[trigger] out[k])@ == opts[k].name@,
        decreases opts.len() - i,
    {
        out.push(opts[i].name.clone());
        i = i + 1;
    }
    assert(texts(out@) =~= names_of(opts@));
    out
}

/// Whether a list names each key of a lookup exactly once.
pub open spec fn lists_keys(names: Seq<Seq<char>>, m: Map<Seq<char>, CommandOption>) -> bool {
    names.no_duplicates() && names.to_set() == m.dom()
}

/// Whether no two entries have one name.
spec fn distinct(entries: Seq<&CommandOption>) -> bool {
    forall|i: int, j: int|
        0 <= i < j < entries.len() ==> (#[trigger] entries[i]).name@ != (
        #[trigger] entries[j]).name@
}

/// Whether an entry has the given name.
spec fn holds(entries: Seq<&CommandOption>, name: Seq<char>) -> bool {
    exists|i: int| 0 <= i < entries.len() && (#[trigger] entries[i]).name@ == name
}

/// Where the entry of the given name stands.
spec fn index_of(entries: Seq<&CommandOption>, name: Seq<char>) -> int {
    choose|i: int| 0 <= i < entries.len() && (#[trigger] entries[i]).name@ == name
}

/// The lookup that entries with distinct names give.
spec fn lookup(entries: Seq<&CommandOption>) -> Map<Seq<char>, CommandOption> {
    Map::new(
        |name: Seq<char>| holds(entries, name),
        |name: Seq<char>| *entries[index_of(entries, name)],
    )
}

proof fn lemma_lookup_entry(entries: Seq<&CommandOption>, i: int)
    requires
        distinct(entries),
        0 <= i < entries.len(),
    ensures
        lookup(entries).contains_key(entries[i].name@),
        lookup(entries)[entries[i].name@] == *entries[i],
{
    let j = index_of(entries, entries[i].name@);
    if j < i {
        assert(entries[j].name@ != entries[i].name@);
    } else if i < j {
        assert(entries[i].name@ != entries[j].name@);
    }
}

proof fn lemma_lookup_remove(entries: Seq<&CommandOption>, i: int)
    requires
        distinct(entries),
        0 <= i < entries.len(),
    ensures
        distinct(entries.remove(i)),
        lookup(entries.remove(i)) == lookup(entries).remove(entries[i].name@),
{
    let rest = entries.remove(i);
    let shift = |k: int|
        if k < i {
            k
        } else {
            k + 1
        };
    assert forall|a: int, b: int| 0 <= a < b < rest.len() implies (#[trigger] rest[a]).name@ != (
    #[trigger] rest[b]).name@ by {
        assert(entries[shift(a)].name@ != entries[shift(b)].name@);
    }
    assert forall|n: Seq<char>| #[trigger]
        lookup(rest).contains_key(n) <==> lookup(entries).remove(entries[i].name@).contains_key(
            n,
        ) by {
        if holds(rest, n) {
            let k = index_of(rest, n);
            let b = shift(k);
            assert(entries[b].name@ == n);
            if b < i {
                assert(entries[b].name@ != entries[i].name@);
            } else {
                assert(entries[i].name@ != entries[b].name@);
            }
        }
        if holds(entries, n) && n != entries[i].name@ {
            let b = index_of(entries, n);
            let k = if b < i {
                b
            } else {
                b - 1
            };
            assert(rest[k].name@ == n);
        }
    }
    assert forall|n: Seq<char>| #[trigger] lookup(rest).contains_key(n) implies lookup(rest)[n]
        == lookup(entries)[n] by {
        let k = index_of(rest, n);
        lemma_lookup_entry(entries, shift(k));
    }
    assert(lookup(rest) =~= lookup(entries).remove(entries[i].name@));
}

proof fn lemma_lookup_push(entries: Seq<&CommandOption>, opt: &CommandOption)
    requires
        distinct(entries),
        !lookup(entries).contains_key(opt.name@),
    ensures
        distinct(entries.push(opt)),
        lookup(entries.push(opt)) == lookup(entries).insert(opt.name@, *opt),
{
    let more = entries.push(opt);
    assert forall|a: int, b: int| 0 <= a < b < more.len() implies (#[trigger] more[a]).name@ != (
    #[trigger] more[b]).name@ by {
        if b < entries.len() {
            assert(entries[a].name@ != entries[b].name@);
        } else {
            lemma_lookup_entry(entries, a);
        }
    }
    assert forall|n: Seq<char>| #[trigger]
        lookup(more).contains_key(n) <==> lookup(entries).insert(opt.name@, *opt).contains_key(
            n,
        ) by {
        if holds(more, n) {
            let k = index_of(more, n);
            if k < entries.len() {
                assert(entries[k].name@ == n);
            }
        }
        if holds(entries, n) {
            assert(more[index_of(entries, n)].name@ == n);
        }
        assert(more[entries.len() as int].name@ == opt.name@);
    }
    assert forall|n: Seq<char>| #[trigger] lookup(more).contains_key(n) implies lookup(more)[n]
        == lookup(entries).insert(opt.name@, *opt)[n] by {
        let k = index_of(more, n);
        lemma_lookup_entry(more, k);
        if k < entries.len() {
            lemma_lookup_entry(entries, k);
        }
    }
    assert(lookup(more) =~= lookup(entries).insert(opt.name@, *opt));
}

/// The options that were supplied and not yet consumed, found by name.
#[derive(Debug)]
pub struct OptionMap<'a> {
    entries: Vec<&'a CommandOption>,
}

impl<'a> View for OptionMap<'a> {
    type V = Map<Seq<char>, CommandOption>;

    closed spec fn view(&self) -> Map<Seq<char>, CommandOption> {
        lookup(self.entries@)
    }
}

impl<'a> OptionMap<'a> {
    /// No two entries have one name.
    #[verifier::type_invariant]
    spec fn distinct_names(&self) -> bool {
        distinct(self.entries@)
    }

    /// A lookup that holds nothing.
    pub fn new() -> (r: Self)
        ensures
            r@ == Map::<Seq<char>, CommandOption>::empty(),
    {
        let r = OptionMap { entries: Vec::new() };
        assert(r@ =~= Map::<Seq<char>, CommandOption>::empty());
        r
    }

    fn position(&self, name: &str) -> (r: Option<usize>)
        ensures
            match r {
                Some(i) => i < self.entries.len() && self.entries[i as int].name@ == name@,
                None => !self@.contains_key(name@),
            },
    {
        let key = name.to_owned();
        let mut i: usize = 0;
        while i < self.entries.len()
            invariant
                i <= self.entries.len(),
                key@ == name@,
                forall|k: int| 0 <= k < i ==> (#[trigger] self.entries[k]).name@ != name@,
            decreases self.entries.len() - i,
        {
            if self.entries[i].name == key {
                return Some(i);
            }
            i = i + 1;
        }
        None
    }

    /// Enters an option under its name, in place of any other of that name.
    pub fn insert(&mut self, opt: &'a CommandOption)
        ensures
            final(self)@ == old(self)@.insert(opt.name@, *opt),
    {
        proof {
            use_type_invariant(&*self);
        }
        let found = self.position(opt.name.as_str());
        let mut entries = Vec::new();
        std::mem::swap(&mut entries, &mut self.entries);
        if let Some(i) = found {
            proof {
                lemma_lookup_remove(entries@, i as int);
            }
            entries.remove(i);
        }
        proof {
            lemma_lookup_push(entries@, opt);
            assert(old(self)@.remove(opt.name@).insert(opt.name@, *opt) =~= old(self)@.insert(
                opt.name@,
                *opt,
            ));
        }
        entries.push(opt);
        self.entries = entries;
    }

    /// Takes out the option of the given name, if there is one.
    pub fn remove(&mut self, name: &str) -> (r: Option<&'a CommandOption>)
        ensures
            final(self)@ == old(self)@.remove(name@),
            r == if old(self)@.contains_key(name@) {
                Some(&old(self)@[name@])
            } else {
                None
            },
    {
        proof {
            use_type_invariant(&*self);
        }
        match self.position(name) {
            None => {
                assert(self@.remove(name@) =~= self@);
                None
            },
            Some(i) => {
                proof {
                    lemma_lookup_entry(self.entries@, i as int);
                    lemma_lookup_remove(self.entries@, i as int);
                }
                let mut entries = Vec::new();
                std::mem::swap(&mut entries, &mut self.entries);
                let opt = entries.remove(i);
                self.entries = entries;
                Some(opt)
            },
        }
    }

    /// Whether every option has been consumed.
    pub fn is_empty(&self) -> (r: bool)
        ensures
            r == self@.dom().is_empty(),
    {
        let r = self.entries.len() == 0;
        proof {
            use_type_invariant(self);
            if !r {
                lemma_lookup_entry(self.entries@, 0);
            }
        }
        r
    }

    /// The names of the options that are left, each once.
    pub fn names(&self) -> (r: Vec<String>)
        ensures
            lists_keys(texts(r@), self@),
    {
        proof {
            use_type_invariant(self);
        }
        let mut out: Vec<String> = Vec::new();
        let mut i: usize = 0;
        while i < self.entries.len()
            invariant
                i <= self.entries.len(),
                out.len() == i,
                forall|k: int| 0 <= k < i ==> (#[trigger] out[k])@ == self.entries[k].name@,
            decreases self.entries.len() - i,
        {
            out.push(self.entries[i].name.clone());
            i = i + 1;
        }
        proof {
            let names = texts(out@);
            assert forall|a: int, b: int| 0 <= a < names.len() && 0 <= b < names.len() && a
                != b implies names[a] != names[b] by {
                assert(names[a] == out[a]@ && names[b] == out[b]@);
                if a < b {
                    assert(self.entries[a].name@ != self.entries[b].name@);
                } else {
                    assert(self.entries[b].name@ != self.entries[a].name@);
                }
            }
            assert forall|n: Seq<char>| names.to_set().contains(n) <==> self@.dom().contains(
                n,
            ) by {
                if names.contains(n) {
                    let k = choose|k: int| 0 <= k < names.len() && names[k] == n;
                    assert(names[k] == out[k]@);
                    lemma_lookup_entry(self.entries@, k);
                }
                if holds(self.entries@, n) {
                    let k = index_of(self.entries@, n);
                    assert(names[k] == out[k]@);
                }
            }
            assert(names.to_set() =~= self@.dom());
        }
        out
    }
}

} // verus!

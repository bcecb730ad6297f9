//! The registry of declared names.

use crate::il::value::{clone_named_types, named_type_views, Type, TypeView};
use vstd::prelude::*;
use vstd::string::*;

verus! {

/// What an operation on a [`NameRegistry`] reports.
#[derive(Debug)]
pub enum NameRegistryResult {
    /// The operation succeeded and has nothing to hand back.
    Success,
    /// The type declared for the name that was asked for.
    Type(Type),
    /// The name is declared already; the registry was left as it was.
    NamePresentError(String),
    /// The name is not declared.
    NameNotFoundError(String),
}

/// The mathematical value of a [`NameRegistryResult`].
pub enum NameRegistryResultView {
    Success,
    Type(TypeView),
    NamePresentError(Seq<char>),
    NameNotFoundError(Seq<char>),
}

impl View for NameRegistryResult {
    type V = NameRegistryResultView;

    open spec fn view(&self) -> NameRegistryResultView {
        match self {
            NameRegistryResult::Success => NameRegistryResultView::Success,
            NameRegistryResult::Type(t) => NameRegistryResultView::Type(t@),
            NameRegistryResult::NamePresentError(name) => {
                NameRegistryResultView::NamePresentError(name@)
            },
            NameRegistryResult::NameNotFoundError(name) => {
                NameRegistryResultView::NameNotFoundError(name@)
            },
        }
    }
}

/// The names that are declared, each with its type. Its value is a map from
/// name to type, and no name is held twice. A copy made with `clone` shares
/// nothing with the registry it was made from.
#[derive(Debug)]
pub struct NameRegistry {
    names: Vec<(String, Type)>,
}

/// What `add` reports for `name` in a registry that holds `names`.
pub open spec fn add_outcome(names: Map<Seq<char>, TypeView>, name: Seq<char>)
    -> NameRegistryResultView {
    if names.contains_key(name) {
        NameRegistryResultView::NamePresentError(name)
    } else {
        NameRegistryResultView::Success
    }
}

/// What a registry that held `names` holds after `add` of `name` with `ty`:
/// a name that is present keeps its type.
pub open spec fn after_add(names: Map<Seq<char>, TypeView>, name: Seq<char>, ty: TypeView) -> Map<
    Seq<char>,
    TypeView,
> {
    if names.contains_key(name) {
        names
    } else {
        names.insert(name, ty)
    }
}

/// What `get` reports for `name` in a registry that holds `names`.
pub open spec fn get_outcome(names: Map<Seq<char>, TypeView>, name: Seq<char>)
    -> NameRegistryResultView {
    if names.contains_key(name) {
        NameRegistryResultView::Type(names[name])
    } else {
        NameRegistryResultView::NameNotFoundError(name)
    }
}

/// Adding a name that is not declared succeeds; afterwards the name is
/// declared, and `get` gives the type it was added with.
pub proof fn lemma_add_new_name(names: Map<Seq<char>, TypeView>, name: Seq<char>, ty: TypeView)
    requires
        !names.contains_key(name),
    ensures
        add_outcome(names, name) == NameRegistryResultView::Success,
        after_add(names, name, ty).contains_key(name),
        get_outcome(after_add(names, name, ty), name) == NameRegistryResultView::Type(ty),
{
}

/// Adding a name that is declared already fails with `NamePresentError` of
/// that name, and `get` gives what it gave before: the first type.
pub proof fn lemma_add_present_name(
    names: Map<Seq<char>, TypeView>,
    name: Seq<char>,
    ty: TypeView,
)
    requires
        names.contains_key(name),
    ensures
        add_outcome(names, name) == NameRegistryResultView::NamePresentError(name),
        after_add(names, name, ty) == names,
        get_outcome(after_add(names, name, ty), name) == get_outcome(names, name),
        get_outcome(names, name) == NameRegistryResultView::Type(names[name]),
{
}

/// Adding a name touches no other name.
pub proof fn lemma_add_keeps_other_names(
    names: Map<Seq<char>, TypeView>,
    name: Seq<char>,
    ty: TypeView,
    other: Seq<char>,
)
    requires
        other != name,
    ensures
        after_add(names, name, ty).contains_key(other) == names.contains_key(other),
        get_outcome(after_add(names, name, ty), other) == get_outcome(names, other),
{
}

/// Scope isolation: where a registry is copied and a name that is new to it
/// is added to the copy, the copy holds everything the registry held and
/// the new name besides, and the registry itself still lacks the name.
pub proof fn lemma_scope_isolation(
    parent: NameRegistry,
    child: NameRegistry,
    child_after: NameRegistry,
    name: Seq<char>,
    ty: TypeView,
)
    requires
        child@ == parent@,
        !parent@.contains_key(name),
        child_after@ == after_add(child@, name, ty),
    ensures
        forall|n: Seq<char>| #[trigger]
            parent@.contains_key(n) ==> get_outcome(child_after@, n) == get_outcome(parent@, n),
        get_outcome(child_after@, name) == NameRegistryResultView::Type(ty),
        !parent@.contains_key(name),
        get_outcome(parent@, name) == NameRegistryResultView::NameNotFoundError(name),
{
}

/// The map that a list of declarations writes, first to last.
spec fn declarations(entries: Seq<(Seq<char>, TypeView)>) -> Map<Seq<char>, TypeView>
    decreases entries.len(),
{
    if entries.len() == 0 {
        Map::empty()
    } else {
        declarations(entries.drop_last()).insert(entries.last().0, entries.last().1)
    }
}

/// No name is declared twice.
spec fn names_distinct(entries: Seq<(Seq<char>, TypeView)>) -> bool {
    forall|i: int, j: int| 0 <= i < j < entries.len() ==> entries[i].0 != entries[j].0
}

/// A name is in the map exactly if some declaration of the list has it.
proof fn lemma_declared_names(entries: Seq<(Seq<char>, TypeView)>, name: Seq<char>)
    ensures
        declarations(entries).contains_key(name) <==> exists|i: int|
            0 <= i < entries.len() && #[trigger] entries[i].0 == name,
    decreases entries.len(),
{
    if entries.len() > 0 {
        let front = entries.drop_last();
        lemma_declared_names(front, name);
        if declarations(entries).contains_key(name) && entries.last().0 != name {
            let i = choose|i: int| 0 <= i < front.len() && #[trigger] front[i].0 == name;
            assert(entries[i].0 == name);
        }
        if exists|i: int| 0 <= i < entries.len() && #[trigger] entries[i].0 == name {
            let i = choose|i: int| 0 <= i < entries.len() && #[trigger] entries[i].0 == name;
            if i < entries.len() - 1 {
                assert(front[i].0 == name);
            }
        }
    }
}

/// Where no name is declared twice, the map gives each declared name the
/// type of its one declaration.
proof fn lemma_declared_type(entries: Seq<(Seq<char>, TypeView)>, i: int)
    requires
        names_distinct(entries),
        0 <= i < entries.len(),
    ensures
        declarations(entries).contains_key(entries[i].0),
        declarations(entries)[entries[i].0] == entries[i].1,
    decreases entries.len(),
{
    let front = entries.drop_last();
    if i < entries.len() - 1 {
        assert(names_distinct(front)) by {
            assert forall|a: int, b: int| 0 <= a < b < front.len() implies front[a].0
                != front[b].0 by {
                assert(front[a] == entries[a] && front[b] == entries[b]);
            }
        }
        lemma_declared_type(front, i);
    }
}

impl NameRegistry {
    #[verifier::type_invariant]
    spec fn well_formed(&self) -> bool {
        names_distinct(named_type_views(self.names@))
    }
}

impl View for NameRegistry {
    type V = Map<Seq<char>, TypeView>;

    closed spec fn view(&self) -> Map<Seq<char>, TypeView> {
        declarations(named_type_views(self.names@))
    }
}

impl NameRegistry {
    /// A registry in which no name is declared.
    pub fn new() -> (r: NameRegistry)
        ensures
            r@ == Map::<Seq<char>, TypeView>::empty(),
    {
        NameRegistry { names: Vec::new() }
    }

    /// Whether `name` is declared.
    pub fn is_defined(&self, name: &str) -> (b: bool)
        ensures
            b == self@.contains_key(name@),
    {
        self.position(name).is_some()
    }

    /// The type declared for `name`, or `NameNotFoundError` with the name.
    pub fn get(&self, name: &str) -> (r: NameRegistryResult)
        ensures
            r@ == get_outcome(self@, name@),
    {
        match self.position(name) {
            Some(i) => NameRegistryResult::Type(self.names[i].1.clone()),
            None => NameRegistryResult::NameNotFoundError(String::from_str(name)),
        }
    }

    /// Declares `name` with type `ty`. A name that is declared already keeps
    /// its type, and `NamePresentError` with the name comes back.
    pub fn add(&mut self, name: &str, ty: Type) -> (r: NameRegistryResult)
        ensures
            r@ == add_outcome(old(self)@, name@),
            final(self)@ == after_add(old(self)@, name@, ty@),
    {
        if self.is_defined(name) {
            return NameRegistryResult::NamePresentError(String::from_str(name));
        }
        proof {
            use_type_invariant(&*self);
            lemma_declared_names(named_type_views(self.names@), name@);
        }
        let mut names: Vec<(String, Type)> = Vec::new();
        std::mem::swap(&mut names, &mut self.names);
        let ghost before = named_type_views(names@);
        names.push((String::from_str(name), ty));
        proof {
            let after = named_type_views(names@);
            assert(after.drop_last() =~= before);
            assert(names_distinct(after)) by {
                assert forall|i: int, j: int| 0 <= i < j < after.len() implies after[i].0
                    != after[j].0 by {
                    assert(after[i] == before[i]);
                    if j < before.len() {
                        assert(after[j] == before[j]);
                    }
                }
            }
        }
        self.names = names;
        NameRegistryResult::Success
    }

    /// Where `name` is declared in the list, if it is.
    fn position(&self, name: &str) -> (r: Option<usize>)
        ensures
            r is Some <==> self@.contains_key(name@),
            r matches Some(i) ==> i < self.names@.len() && self.names@[i as int].0@ == name@
                && self.names@[i as int].1@ == self@[name@],
    {
        let key = String::from_str(name);
        let ghost entries = named_type_views(self.names@);
        proof {
            use_type_invariant(self);
            lemma_declared_names(entries, name@);
        }
        let mut i: usize = 0;
        while i < self.names.len()
            invariant
                i <= self.names@.len(),
                key@ == name@,
                entries == named_type_views(self.names@),
                names_distinct(entries),
                forall|j: int| 0 <= j < i ==> entries[j].0 != name@,
            decreases self.names@.len() - i,
        {
            if self.names[i].0 == key {
                proof {
                    lemma_declared_type(entries, i as int);
                }
                return Some(i);
            }
            i += 1;
        }
        None
    }
}

impl Clone for NameRegistry {
    /// A copy that holds the same names with the same types. What is
    /// declared in the copy afterwards is declared in the copy alone.
    fn clone(&self) -> (r: NameRegistry)
        ensures
            r@ == self@,
    {
        proof {
            use_type_invariant(self);
        }
        NameRegistry { names: clone_named_types(&self.names) }
    }
}

} // verus!

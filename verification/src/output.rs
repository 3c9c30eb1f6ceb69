//! The accumulator of emitted declarations, with the registry of
//! implementors that generation consults.

use vstd::prelude::*;
use vstd::string::*;
use crate::names::same_text;
use crate::code::{Declaration, DeclarationView, Duplicate};
use crate::error::{GenError, GenErrorView};

verus! {

/// An interface with the object types that implement it, in the order in
/// which they were registered.
#[derive(Debug, PartialEq, Eq)]
pub struct Implementors {
    pub interface: String,
    pub implementors: Vec<String>,
}

/// The mathematical model of an [`Implementors`].
pub ghost struct ImplementorsView {
    pub interface: Seq<char>,
    pub implementors: Seq<Seq<char>>,
}

impl DeepView for Implementors {
    type V = ImplementorsView;

    open spec fn deep_view(&self) -> ImplementorsView {
        ImplementorsView {
            interface: self.interface@,
            implementors: self.implementors.deep_view(),
        }
    }
}

impl Duplicate for Implementors {
    fn duplicate(&self) -> (copy: Implementors) {
        Implementors {
            interface: self.interface.clone(),
            implementors: self.implementors.duplicate(),
        }
    }
}

/// The implementors registered for an interface: those of the first entry
/// with that name.
pub open spec fn implementors_of(registry: Seq<ImplementorsView>, interface: Seq<char>) -> Option<
    Seq<Seq<char>>,
>
    decreases registry.len(),
{
    if registry.len() == 0 {
        None
    } else if registry[0].interface == interface {
        Some(registry[0].implementors)
    } else {
        implementors_of(registry.drop_first(), interface)
    }
}

/// A registry after one more implementor is registered for an interface: the
/// interface's entry holds it last, unless it held it already; an interface
/// without an entry gets one, after the others.
pub open spec fn with_implementor(
    registry: Seq<ImplementorsView>,
    interface: Seq<char>,
    implementor: Seq<char>,
) -> Seq<ImplementorsView>
    decreases registry.len(),
{
    if registry.len() == 0 {
        seq![ImplementorsView { interface, implementors: seq![implementor] }]
    } else if registry[0].interface == interface {
        if registry[0].implementors.contains(implementor) {
            registry
        } else {
            seq![
                ImplementorsView {
                    interface,
                    implementors: registry[0].implementors.push(implementor),
                },
            ] + registry.drop_first()
        }
    } else {
        seq![registry[0]] + with_implementor(registry.drop_first(), interface, implementor)
    }
}

/// Whether a registry names each interface once, and under each interface
/// each implementor once.
pub open spec fn registry_wf(registry: Seq<ImplementorsView>) -> bool {
    &&& forall|i: int, j: int|
        0 <= i < j < registry.len() ==> registry[i].interface != registry[j].interface
    &&& forall|i: int| 0 <= i < registry.len() ==> (#[trigger] registry[i]).implementors.no_duplicates()
}

/// In a well-formed registry, no implementor is registered twice for an
/// interface.
pub proof fn lemma_registered_once(registry: Seq<ImplementorsView>, interface: Seq<char>)
    requires
        registry_wf(registry),
        implementors_of(registry, interface) is Some,
    ensures
        implementors_of(registry, interface)->0.no_duplicates(),
    decreases registry.len(),
{
    if registry.len() > 0 && registry[0].interface != interface {
        let rest = registry.drop_first();
        assert forall|i: int| 0 <= i < rest.len() implies (
        #[trigger] rest[i]).implementors.no_duplicates() by {
            assert(rest[i] == registry[i + 1]);
        }
        assert forall|i: int, j: int| 0 <= i < j < rest.len() implies rest[i].interface
            != rest[j].interface by {
            assert(rest[i] == registry[i + 1]);
            assert(rest[j] == registry[j + 1]);
        }
        lemma_registered_once(rest, interface);
    }
}

/// Registering an implementor for an interface whose first entry is at `i`
/// changes that entry alone, and only if it does not hold the implementor.
pub proof fn lemma_with_implementor_found(
    registry: Seq<ImplementorsView>,
    interface: Seq<char>,
    implementor: Seq<char>,
    i: int,
)
    requires
        0 <= i < registry.len(),
        registry[i].interface == interface,
        forall|j: int| 0 <= j < i ==> registry[j].interface != interface,
    ensures
        with_implementor(registry, interface, implementor) == (if registry[i].implementors.contains(
            implementor,
        ) {
            registry
        } else {
            registry.update(
                i,
                ImplementorsView {
                    interface,
                    implementors: registry[i].implementors.push(implementor),
                },
            )
        }),
    decreases i,
{
    let entry = ImplementorsView {
        interface,
        implementors: registry[i].implementors.push(implementor),
    };
    if i == 0 {
        assert(seq![entry] + registry.drop_first() =~= registry.update(0, entry));
    } else {
        let rest = registry.drop_first();
        assert(rest[i - 1] == registry[i]);
        assert forall|j: int| 0 <= j < i - 1 implies rest[j].interface != interface by {
            assert(rest[j] == registry[j + 1]);
        }
        lemma_with_implementor_found(rest, interface, implementor, i - 1);
        assert(seq![registry[0]] + rest =~= registry);
        assert(seq![registry[0]] + rest.update(i - 1, entry) =~= registry.update(i, entry));
    }
}

/// Registering an implementor for an interface without an entry adds an
/// entry for it, after the others.
pub proof fn lemma_with_implementor_absent(
    registry: Seq<ImplementorsView>,
    interface: Seq<char>,
    implementor: Seq<char>,
)
    requires
        forall|j: int| 0 <= j < registry.len() ==> registry[j].interface != interface,
    ensures
        with_implementor(registry, interface, implementor) == registry.push(
            ImplementorsView { interface, implementors: seq![implementor] },
        ),
    decreases registry.len(),
{
    let entry = ImplementorsView { interface, implementors: seq![implementor] };
    if registry.len() == 0 {
        assert(seq![entry] =~= registry.push(entry));
    } else {
        let rest = registry.drop_first();
        assert forall|j: int| 0 <= j < rest.len() implies rest[j].interface != interface by {
            assert(rest[j] == registry[j + 1]);
        }
        lemma_with_implementor_absent(rest, interface, implementor);
        assert(seq![registry[0]] + rest.push(entry) =~= registry.push(entry));
    }
}

/// Registering an implementor keeps a registry well formed.
pub proof fn lemma_with_implementor_wf(
    registry: Seq<ImplementorsView>,
    interface: Seq<char>,
    implementor: Seq<char>,
)
    requires
        registry_wf(registry),
    ensures
        registry_wf(with_implementor(registry, interface, implementor)),
{
    let after = with_implementor(registry, interface, implementor);
    if exists|i: int| 0 <= i < registry.len() && registry[i].interface == interface {
        let i = choose|i: int| 0 <= i < registry.len() && registry[i].interface == interface;
        lemma_with_implementor_found(registry, interface, implementor, i);
        if !registry[i].implementors.contains(implementor) {
            let names = registry[i].implementors;
            assert forall|a: int, b: int|
                0 <= a < names.push(implementor).len() && 0 <= b < names.push(implementor).len()
                    && a != b implies names.push(implementor)[a] != names.push(implementor)[b] by {
                if a < names.len() && b < names.len() {
                } else if a < names.len() {
                    assert(names.contains(names[a]));
                } else {
                    assert(names.contains(names[b]));
                }
            }
            assert forall|k: int| 0 <= k < after.len() implies (
            #[trigger] after[k]).implementors.no_duplicates() by {
                if k != i {
                    assert(after[k] == registry[k]);
                }
            }
        }
    } else {
        lemma_with_implementor_absent(registry, interface, implementor);
        assert forall|k: int| 0 <= k < after.len() implies (
        #[trigger] after[k]).implementors.no_duplicates() by {
            if k < registry.len() {
                assert(after[k] == registry[k]);
            }
        }
    }
}

/// The mathematical model of an [`Output`].
pub ghost struct OutputView {
    pub tokens: Seq<DeclarationView>,
    pub interface_implementors: Seq<ImplementorsView>,
}

/// The declarations emitted so far, in order, and the registry of
/// implementors.
#[derive(Debug, PartialEq, Eq)]
pub struct Output {
    tokens: Vec<Declaration>,
    interface_implementors: Vec<Implementors>,
}

impl DeepView for Output {
    type V = OutputView;

    closed spec fn deep_view(&self) -> OutputView {
        OutputView {
            tokens: self.tokens.deep_view(),
            interface_implementors: self.interface_implementors.deep_view(),
        }
    }
}

/// What a step of generation does to the accumulator: it appends the
/// declarations that are due and returns, or it fails with the error that is
/// due and appends nothing. The registry stays as it is.
pub open spec fn emits(
    before: OutputView,
    after: OutputView,
    returned: Result<(), GenError>,
    due: Result<Seq<DeclarationView>, GenErrorView>,
) -> bool {
    &&& after.interface_implementors == before.interface_implementors
    &&& match due {
        Ok(declarations) => returned is Ok && after.tokens == before.tokens + declarations,
        Err(error) => returned is Err && returned->Err_0.deep_view() == error && after.tokens
            == before.tokens,
    }
}

/// Whether a name is among the given names.
pub fn contains_name(names: &Vec<String>, name: &str) -> (found: bool)
    ensures
        found == names.deep_view().contains(name@),
{
    let mut i: usize = 0;
    while i < names.len()
        invariant
            i <= names.len(),
            forall|j: int| 0 <= j < i ==> names@[j]@ != name@,
        decreases names.len() - i,
    {
        if same_text(names[i].as_str(), name) {
            assert(names.deep_view()[i as int] == name@);
            return true;
        }
        i += 1;
    }
    assert forall|j: int| 0 <= j < names.deep_view().len() implies names.deep_view()[j]
        != name@ by {
        assert(names.deep_view()[j] == names@[j]@);
    }
    false
}

/// The names of a sequence, each once, in the order in which they first
/// occur.
pub open spec fn distinct(names: Seq<Seq<char>>) -> Seq<Seq<char>>
    decreases names.len(),
{
    if names.len() == 0 {
        Seq::empty()
    } else {
        let before = distinct(names.drop_last());
        if before.contains(names.last()) {
            before
        } else {
            before.push(names.last())
        }
    }
}

/// The distinct names of a sequence hold each name of the sequence, once,
/// and no other.
pub proof fn lemma_distinct(names: Seq<Seq<char>>)
    ensures
        distinct(names).no_duplicates(),
        forall|name: Seq<char>| distinct(names).contains(name) <==> names.contains(name),
        distinct(names).len() <= names.len(),
        names.len() > 0 ==> distinct(names).len() > 0,
    decreases names.len(),
{
    if names.len() > 0 {
        let front = names.drop_last();
        let before = distinct(front);
        lemma_distinct(front);
        assert forall|name: Seq<char>| distinct(names).contains(name) <==> names.contains(
            name,
        ) by {
            if names.contains(name) {
                let i = choose|i: int| 0 <= i < names.len() && names[i] == name;
                if i < names.len() - 1 {
                    assert(front[i] == name);
                    assert(front.contains(name));
                    assert(before.contains(name));
                    let k = choose|k: int| 0 <= k < before.len() && before[k] == name;
                    assert(distinct(names)[k] == name);
                } else if !before.contains(names.last()) {
                    assert(distinct(names)[before.len() as int] == name);
                } else {
                    assert(before.contains(name));
                }
            }
            if distinct(names).contains(name) {
                let k = choose|k: int| 0 <= k < distinct(names).len() && distinct(names)[k] == name;
                if k < before.len() {
                    assert(before[k] == name);
                    assert(before.contains(name));
                    assert(front.contains(name));
                    let i = choose|i: int| 0 <= i < front.len() && front[i] == name;
                    assert(names[i] == name);
                } else {
                    assert(names[names.len() - 1] == name);
                }
            }
        }
        if !before.contains(names.last()) {
            assert forall|a: int, b: int|
                0 <= a < before.len() + 1 && 0 <= b < before.len() + 1 && a != b implies before.push(
                names.last(),
            )[a] != before.push(names.last())[b] by {
                if a < before.len() && b < before.len() {
                } else if a < before.len() {
                    assert(before.contains(before[a]));
                } else {
                    assert(before.contains(before[b]));
                }
            }
        } else {
            let k = choose|k: int| 0 <= k < before.len() && before[k] == names.last();
        }
    }
}

/// Names of which none occurs twice are their own distinct names.
pub proof fn lemma_distinct_unchanged(names: Seq<Seq<char>>)
    requires
        names.no_duplicates(),
    ensures
        distinct(names) == names,
    decreases names.len(),
{
    if names.len() > 0 {
        let front = names.drop_last();
        lemma_distinct_unchanged(front);
        if front.contains(names.last()) {
            let i = choose|i: int| 0 <= i < front.len() && front[i] == names.last();
            assert(names[i] == names[names.len() - 1]);
        }
        assert(front.push(names.last()) =~= names);
    }
}

/// Keeps each name once, where it first occurs.
pub fn distinct_names(names: &Vec<String>) -> (kept: Vec<String>)
    ensures
        kept.deep_view() == distinct(names.deep_view()),
{
    let mut kept: Vec<String> = Vec::new();
    let ghost all = names.deep_view();
    let mut i: usize = 0;
    assert(all.take(0).len() == 0);
    assert(kept.deep_view() =~= Seq::<Seq<char>>::empty());
    while i < names.len()
        invariant
            i <= names.len(),
            all == names.deep_view(),
            kept.deep_view() == distinct(all.take(i as int)),
        decreases names.len() - i,
    {
        proof {
            assert(all.take(i as int + 1).drop_last() == all.take(i as int));
            assert(all.take(i as int + 1).last() == names@[i as int]@);
        }
        if !contains_name(&kept, names[i].as_str()) {
            let ghost before = kept.deep_view();
            kept.push(names[i].clone());
            assert(kept.deep_view() =~= before.push(names@[i as int]@));
        }
        i += 1;
    }
    assert(all.take(i as int) == all);
    kept
}

impl Output {
    /// Whether the registry is well formed.
    pub open spec fn wf(&self) -> bool {
        registry_wf(self.deep_view().interface_implementors)
    }

    /// An accumulator without declarations and without implementors.
    pub fn new() -> (out: Output)
        ensures
            out.wf(),
            out.deep_view().tokens == Seq::<DeclarationView>::empty(),
            out.deep_view().interface_implementors == Seq::<ImplementorsView>::empty(),
    {
        let out = Output { tokens: Vec::new(), interface_implementors: Vec::new() };
        assert(out.deep_view().tokens =~= Seq::<DeclarationView>::empty());
        assert(out.deep_view().interface_implementors =~= Seq::<ImplementorsView>::empty());
        out
    }

    /// Appends one declaration.
    pub fn extend(&mut self, declaration: Declaration)
        ensures
            final(self).deep_view().tokens == old(self).deep_view().tokens.push(
                declaration.deep_view(),
            ),
            final(self).deep_view().interface_implementors == old(
                self,
            ).deep_view().interface_implementors,
    {
        self.tokens.push(declaration);
        assert(self.tokens.deep_view() =~= old(self).tokens.deep_view().push(
            declaration.deep_view(),
        ));
    }

    /// Appends declarations, in their order.
    pub fn extend_all(&mut self, declarations: Vec<Declaration>)
        ensures
            final(self).deep_view().tokens == old(self).deep_view().tokens
                + declarations.deep_view(),
            final(self).deep_view().interface_implementors == old(
                self,
            ).deep_view().interface_implementors,
    {
        let mut declarations = declarations;
        let ghost added = declarations.deep_view();
        self.tokens.append(&mut declarations);
        assert(self.tokens.deep_view() =~= old(self).tokens.deep_view() + added);
    }

    /// An accumulator with the same registry and no declarations.
    pub fn clone_without_tokens(&self) -> (fresh: Output)
        ensures
            fresh.deep_view().tokens == Seq::<DeclarationView>::empty(),
            fresh.deep_view().interface_implementors == self.deep_view().interface_implementors,
    {
        let fresh = Output {
            tokens: Vec::new(),
            interface_implementors: self.interface_implementors.duplicate(),
        };
        assert(fresh.deep_view().tokens =~= Seq::<DeclarationView>::empty());
        fresh
    }

    /// The declarations emitted, in order.
    pub fn tokens(self) -> (tokens: Vec<Declaration>)
        ensures
            tokens.deep_view() == self.deep_view().tokens,
    {
        self.tokens
    }

    /// Registers an implementor for an interface, after those registered
    /// before; one that is registered already is not registered again.
    pub fn register(&mut self, interface: &str, implementor: &str)
        ensures
            final(self).deep_view().tokens == old(self).deep_view().tokens,
            final(self).deep_view().interface_implementors == with_implementor(
                old(self).deep_view().interface_implementors,
                interface@,
                implementor@,
            ),
            old(self).wf() ==> final(self).wf(),
    {
        let ghost registry = self.interface_implementors.deep_view();
        proof {
            if registry_wf(registry) {
                lemma_with_implementor_wf(registry, interface@, implementor@);
            }
        }
        let mut i: usize = 0;
        while i < self.interface_implementors.len()
            invariant
                i <= self.interface_implementors.len(),
                *self == *old(self),
                registry == self.interface_implementors.deep_view(),
                forall|j: int| 0 <= j < i ==> registry[j].interface != interface@,
            decreases self.interface_implementors.len() - i,
        {
            if same_text(self.interface_implementors[i].interface.as_str(), interface) {
                proof {
                    lemma_with_implementor_found(registry, interface@, implementor@, i as int);
                }
                let known = contains_name(&self.interface_implementors[i].implementors, implementor);
                if !known {
                    let mut names = self.interface_implementors[i].implementors.duplicate();
                    names.push(String::from_str(implementor));
                    assert(names.deep_view() =~= registry[i as int].implementors.push(implementor@));
                    let entry = Implementors {
                        interface: String::from_str(interface),
                        implementors: names,
                    };
                    self.interface_implementors.set(i, entry);
                    assert(self.interface_implementors.deep_view() =~= registry.update(
                        i as int,
                        entry.deep_view(),
                    ));
                }
                return ;
            }
            i += 1;
        }
        proof {
            lemma_with_implementor_absent(registry, interface@, implementor@);
        }
        let mut names: Vec<String> = Vec::new();
        names.push(String::from_str(implementor));
        assert(names.deep_view() =~= seq![implementor@]);
        let entry = Implementors { interface: String::from_str(interface), implementors: names };
        self.interface_implementors.push(entry);
        assert(self.interface_implementors.deep_view() =~= registry.push(entry.deep_view()));
    }

    /// Looks up the implementors registered for an interface.
    pub fn implementors(&self, interface: &str) -> (found: Option<&Vec<String>>)
        ensures
            found.deep_view() == implementors_of(
                self.deep_view().interface_implementors,
                interface@,
            ),
    {
        let ghost registry = self.interface_implementors.deep_view();
        let mut i: usize = 0;
        assert(registry.skip(0) == registry);
        while i < self.interface_implementors.len()
            invariant
                i <= self.interface_implementors.len(),
                registry == self.interface_implementors.deep_view(),
                implementors_of(registry, interface@) == implementors_of(
                    registry.skip(i as int),
                    interface@,
                ),
            decreases self.interface_implementors.len() - i,
        {
            let entry = &self.interface_implementors[i];
            proof {
                assert(registry.skip(i as int)[0] == entry.deep_view());
                assert(registry.skip(i as int).drop_first() == registry.skip(i as int + 1));
            }
            if same_text(entry.interface.as_str(), interface) {
                return Some(&entry.implementors);
            }
            i += 1;
        }
        None
    }

    /// The registry of implementors.
    pub fn interface_implementors(&self) -> (registry: &Vec<Implementors>)
        ensures
            registry.deep_view() == self.deep_view().interface_implementors,
    {
        &self.interface_implementors
    }
}

} // verus!

//! The pass that fills the registry of implementors, before any definition
//! is compiled.

use vstd::prelude::*;
use crate::output::{with_implementor, ImplementorsView, Output};
use crate::schema::{Definition, DefinitionView, Document, TypeDefinition, TypeDefinitionView};

verus! {

/// A registry after an object type is registered for each of the interfaces
/// it implements, in the order in which it names them.
pub open spec fn object_implementors(
    registry: Seq<ImplementorsView>,
    interfaces: Seq<Seq<char>>,
    object: Seq<char>,
) -> Seq<ImplementorsView>
    decreases interfaces.len(),
{
    if interfaces.len() == 0 {
        registry
    } else {
        with_implementor(
            object_implementors(registry, interfaces.drop_last(), object),
            interfaces.last(),
            object,
        )
    }
}

/// A registry after one definition: only an object type adds to it.
pub open spec fn definition_implementors(
    registry: Seq<ImplementorsView>,
    definition: DefinitionView,
) -> Seq<ImplementorsView> {
    match definition {
        DefinitionView::TypeDefinition(TypeDefinitionView::Object(object)) => object_implementors(
            registry,
            object.implements_interfaces,
            object.name,
        ),
        _ => registry,
    }
}

/// A registry after the definitions of a document, taken in order.
pub open spec fn document_implementors(
    registry: Seq<ImplementorsView>,
    definitions: Seq<DefinitionView>,
) -> Seq<ImplementorsView>
    decreases definitions.len(),
{
    if definitions.len() == 0 {
        registry
    } else {
        definition_implementors(
            document_implementors(registry, definitions.drop_last()),
            definitions.last(),
        )
    }
}

/// Registers every object type of a document for the interfaces it
/// implements, in one pass over the definitions.
pub fn collect_implementors(doc: &Document, out: &mut Output)
    ensures
        final(out).deep_view().tokens == old(out).deep_view().tokens,
        final(out).deep_view().interface_implementors == document_implementors(
            old(out).deep_view().interface_implementors,
            doc.deep_view(),
        ),
        old(out).wf() ==> final(out).wf(),
{
    let ghost all = doc.deep_view();
    let ghost start = out.deep_view().interface_implementors;
    let mut i: usize = 0;
    assert(all.take(0).len() == 0);
    while i < doc.definitions.len()
        invariant
            i <= doc.definitions.len(),
            all == doc.deep_view(),
            start == old(out).deep_view().interface_implementors,
            out.deep_view().tokens == old(out).deep_view().tokens,
            out.deep_view().interface_implementors == document_implementors(
                start,
                all.take(i as int),
            ),
            old(out).wf() ==> out.wf(),
        decreases doc.definitions.len() - i,
    {
        proof {
            assert(all.take(i as int + 1).drop_last() == all.take(i as int));
            assert(all.take(i as int + 1).last() == doc.definitions@[i as int].deep_view());
        }
        match &doc.definitions[i] {
            Definition::TypeDefinition(TypeDefinition::Object(object)) => {
                let ghost before = out.deep_view().interface_implementors;
                let ghost interfaces = object.implements_interfaces.deep_view();
                let mut k: usize = 0;
                assert(interfaces.take(0).len() == 0);
                while k < object.implements_interfaces.len()
                    invariant
                        k <= object.implements_interfaces.len(),
                        interfaces == object.implements_interfaces.deep_view(),
                        out.deep_view().tokens == old(out).deep_view().tokens,
                        out.deep_view().interface_implementors == object_implementors(
                            before,
                            interfaces.take(k as int),
                            object.name@,
                        ),
                        old(out).wf() ==> out.wf(),
                    decreases object.implements_interfaces.len() - k,
                {
                    proof {
                        assert(interfaces.take(k as int + 1).drop_last() == interfaces.take(
                            k as int,
                        ));
                        assert(interfaces.take(k as int + 1).last()
                            == object.implements_interfaces@[k as int]@);
                    }
                    out.register(object.implements_interfaces[k].as_str(), object.name.as_str());
                    k += 1;
                }
                assert(interfaces.take(k as int) == interfaces);
            },
            _ => {},
        }
        i += 1;
    }
    assert(all.take(i as int) == all);
}

} // verus!

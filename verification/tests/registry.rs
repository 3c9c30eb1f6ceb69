use juniper_from_schema::code::Declaration;
use juniper_from_schema::output::{contains_name, distinct_names, Implementors, Output};
use juniper_from_schema::registry::collect_implementors;
use juniper_from_schema::schema::{
    Definition, Document, InterfaceType, ObjectType, TypeDefinition, UnionType,
};

fn s(text: &str) -> String {
    text.to_string()
}

fn object(name: &str, interfaces: &[&str]) -> Definition {
    Definition::TypeDefinition(TypeDefinition::Object(ObjectType {
        description: None,
        name: s(name),
        implements_interfaces: interfaces.iter().map(|i| s(i)).collect(),
        directives: vec![],
        fields: vec![],
    }))
}

#[test]
fn a_new_accumulator_is_empty() {
    let out = Output::new();
    assert_eq!(out.interface_implementors(), &vec![]);
    assert_eq!(out.implementors("Entity"), None);
    assert_eq!(out.tokens(), vec![]);
}

#[test]
fn implementors_are_kept_in_order_and_once() {
    let mut out = Output::new();
    out.register("Entity", "Post");
    out.register("Node", "Post");
    out.register("Entity", "User");
    out.register("Entity", "Post");
    out.register("Node", "Post");
    assert_eq!(out.implementors("Entity"), Some(&vec![s("Post"), s("User")]));
    assert_eq!(out.implementors("Node"), Some(&vec![s("Post")]));
    assert_eq!(out.implementors("Other"), None);
    assert_eq!(
        out.interface_implementors(),
        &vec![
            Implementors { interface: s("Entity"), implementors: vec![s("Post"), s("User")] },
            Implementors { interface: s("Node"), implementors: vec![s("Post")] },
        ]
    );
}

#[test]
fn registering_leaves_the_declarations_alone() {
    let mut out = Output::new();
    out.extend(Declaration::EnumFromNameTrait);
    out.register("Entity", "Post");
    assert_eq!(out.tokens(), vec![Declaration::EnumFromNameTrait]);
}

#[test]
fn declarations_are_kept_in_order() {
    let mut out = Output::new();
    out.extend(Declaration::EnumFromNameTrait);
    out.extend_all(vec![
        Declaration::Scalar { name: s("A"), description: None },
        Declaration::Scalar { name: s("B"), description: None },
    ]);
    out.extend(Declaration::Scalar { name: s("C"), description: None });
    out.extend_all(vec![]);
    assert_eq!(
        out.tokens(),
        vec![
            Declaration::EnumFromNameTrait,
            Declaration::Scalar { name: s("A"), description: None },
            Declaration::Scalar { name: s("B"), description: None },
            Declaration::Scalar { name: s("C"), description: None },
        ]
    );
}

#[test]
fn a_clone_without_tokens_keeps_the_registry() {
    let mut out = Output::new();
    out.register("Entity", "Post");
    out.extend(Declaration::EnumFromNameTrait);
    let fresh = out.clone_without_tokens();
    assert_eq!(fresh.implementors("Entity"), Some(&vec![s("Post")]));
    assert_eq!(fresh.tokens(), vec![]);
    assert_eq!(out.tokens(), vec![Declaration::EnumFromNameTrait]);
}

#[test]
fn names_among_names() {
    let names = vec![s("Post"), s("User")];
    assert!(contains_name(&names, "Post"));
    assert!(contains_name(&names, "User"));
    assert!(!contains_name(&names, "post"));
    assert!(!contains_name(&vec![], "Post"));
}

#[test]
fn each_name_once_where_it_first_occurs() {
    let names = vec![s("b"), s("a"), s("b"), s("c"), s("a")];
    assert_eq!(distinct_names(&names), vec![s("b"), s("a"), s("c")]);
    assert_eq!(distinct_names(&vec![]), Vec::<String>::new());
    assert_eq!(distinct_names(&vec![s("x")]), vec![s("x")]);
}

#[test]
fn one_pass_over_the_object_types() {
    let doc = Document {
        definitions: vec![
            object("Post", &["Entity", "Node"]),
            Definition::TypeDefinition(TypeDefinition::Interface(InterfaceType {
                description: None,
                name: s("Entity"),
                directives: vec![],
                fields: vec![],
            })),
            object("Loner", &[]),
            Definition::TypeDefinition(TypeDefinition::Union(UnionType {
                description: None,
                name: s("Either"),
                directives: vec![],
                types: vec![s("Post"), s("User")],
            })),
            Definition::TypeExtension,
            object("User", &["Node", "Entity", "Node"]),
            object("Post", &["Entity"]),
        ],
    };
    let mut out = Output::new();
    collect_implementors(&doc, &mut out);
    assert_eq!(
        out.interface_implementors(),
        &vec![
            Implementors { interface: s("Entity"), implementors: vec![s("Post"), s("User")] },
            Implementors { interface: s("Node"), implementors: vec![s("Post"), s("User")] },
        ]
    );
    assert_eq!(out.implementors("Either"), None);
    assert_eq!(out.tokens(), vec![]);
}

#[test]
fn a_document_without_object_types_registers_nothing() {
    let mut out = Output::new();
    collect_implementors(&Document { definitions: vec![] }, &mut out);
    assert_eq!(out.interface_implementors(), &vec![]);
}

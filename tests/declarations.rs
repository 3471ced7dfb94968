use comemo_track::declare::{expand, method, DeclError, ImplItem, MethodDecl, Receiver, Visibility};

fn decl(name: &str, vis: Visibility, receiver: Receiver, extra: usize, output: Option<&str>) -> ImplItem {
    ImplItem::Method(MethodDecl {
        name: name.to_string(),
        vis,
        receiver,
        extra_inputs: extra,
        output: output.map(|s| s.to_string()),
    })
}

fn good(name: &str, vis: Visibility, output: &str) -> ImplItem {
    decl(name, vis, Receiver::Shared, 0, Some(output))
}

fn err_of(item: &ImplItem) -> Option<DeclError> {
    method(item).err()
}

#[test]
fn accepts_shared_accessor() {
    let item = good("len", Visibility::Public, "usize");
    let m = method(&item).unwrap();
    assert_eq!(m.name, "len");
    assert_eq!(m.output.as_deref(), Some("usize"));
}

#[test]
fn rejects_non_method() {
    assert_eq!(err_of(&ImplItem::Other), Some(DeclError::NotAMethod));
}

#[test]
fn rejects_restricted_visibility() {
    let item = decl("len", Visibility::Restricted, Receiver::Shared, 0, Some("usize"));
    assert_eq!(err_of(&item), Some(DeclError::UnsupportedVisibility));
}

#[test]
fn rejects_missing_self() {
    let item = decl("len", Visibility::Inherited, Receiver::Missing, 0, Some("usize"));
    assert_eq!(err_of(&item), Some(DeclError::MissingSelf));
}

#[test]
fn rejects_self_by_value_and_exclusive() {
    let by_value = decl("len", Visibility::Inherited, Receiver::ByValue, 0, Some("usize"));
    assert_eq!(err_of(&by_value), Some(DeclError::SelfNotShared));
    let exclusive = decl("len", Visibility::Inherited, Receiver::Exclusive, 0, Some("usize"));
    assert_eq!(err_of(&exclusive), Some(DeclError::SelfNotShared));
}

#[test]
fn rejects_extra_arguments() {
    let item = decl("at", Visibility::Public, Receiver::Shared, 1, Some("u8"));
    assert_eq!(err_of(&item), Some(DeclError::ExtraArguments));
}

#[test]
fn rejects_missing_return_type() {
    let item = decl("touch", Visibility::Public, Receiver::Shared, 0, None);
    assert_eq!(err_of(&item), Some(DeclError::MissingReturnType));
}

#[test]
fn earlier_rule_wins() {
    let item = decl("f", Visibility::Restricted, Receiver::Missing, 2, None);
    assert_eq!(err_of(&item), Some(DeclError::UnsupportedVisibility));
    let item = decl("f", Visibility::Public, Receiver::Exclusive, 2, None);
    assert_eq!(err_of(&item), Some(DeclError::SelfNotShared));
}

#[test]
fn messages() {
    assert_eq!(DeclError::NotAMethod.message(), "only methods are supported");
    assert_eq!(DeclError::UnsupportedVisibility.message(), "only private and public methods are supported");
    assert_eq!(DeclError::MissingSelf.message(), "method must take self");
    assert_eq!(DeclError::SelfNotShared.message(), "must take self by shared reference");
    assert_eq!(
        DeclError::ExtraArguments.message(),
        "currently, only methods without extra arguments are supported"
    );
    assert_eq!(DeclError::MissingReturnType.message(), "method must have a return type");
}

#[test]
fn expand_lists_accessors_in_order() {
    let items = vec![good("len", Visibility::Inherited, "usize"), good("name", Visibility::Public, "String")];
    let accessors = expand(&items).unwrap();
    assert_eq!(accessors.len(), 2);
    assert_eq!(accessors[0].name, "len");
    assert_eq!(accessors[0].output, "usize");
    assert!(!accessors[0].public);
    assert_eq!(accessors[1].name, "name");
    assert_eq!(accessors[1].output, "String");
    assert!(accessors[1].public);
}

#[test]
fn expand_empty_block() {
    assert_eq!(expand(&vec![]).unwrap().len(), 0);
}

#[test]
fn expand_reports_first_error() {
    let items = vec![
        good("len", Visibility::Public, "usize"),
        decl("set", Visibility::Public, Receiver::Exclusive, 1, None),
        ImplItem::Other,
    ];
    assert_eq!(expand(&items).err(), Some(DeclError::SelfNotShared));
}

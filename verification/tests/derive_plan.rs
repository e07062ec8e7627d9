use omeet::derive_plan::attrs::{parse_sync_attrs, AttrInput, Diagnostic, SyncAttrs, SyncMetaItem};
use omeet::derive_plan::plan::{plan_expansion, to_pascal_case, FieldSelection, select_fields};
use omeet::derive_plan::state::{parse_state, DataShape, DeriveInput, FieldInput, FieldType};
use omeet::derive_plan::validate::validate_state;

fn sync(items: Vec<SyncMetaItem>) -> AttrInput {
    AttrInput { is_sync: true, items }
}

fn plain_type(name: &str) -> FieldType {
    FieldType { last_segment: Some(name.to_owned()), first_arg_is_type: false }
}

fn field(name: &str, ty: FieldType, attrs: Vec<AttrInput>) -> FieldInput {
    FieldInput { ident: name.to_owned(), ty, attrs }
}

fn diag(at: &str, message: &str) -> Diagnostic {
    Diagnostic { at: at.to_owned(), message: message.to_owned() }
}

#[test]
fn sync_attrs_read_flags_and_rename() {
    let attrs = vec![
        AttrInput { is_sync: false, items: vec![SyncMetaItem::Unsupported("ignored".to_owned())] },
        sync(vec![SyncMetaItem::Id, SyncMetaItem::Rename(Ok("key".to_owned()))]),
    ];
    let parsed = parse_sync_attrs(&attrs).expect("valid attributes");
    assert!(parsed.is_id);
    assert!(!parsed.is_skip);
    assert_eq!(parsed.wire_name("id"), "key");
    assert_eq!(SyncAttrs::new().wire_name("plain"), "plain");
}

#[test]
fn sync_attrs_reject_duplicates_and_unknown_items() {
    let twice = vec![sync(vec![SyncMetaItem::Skip]), sync(vec![SyncMetaItem::Skip])];
    assert_eq!(parse_sync_attrs(&twice), Err(diag("skip", "duplicate `skip` attribute")));
    let renamed_twice = vec![sync(vec![
        SyncMetaItem::Rename(Ok("a".to_owned())),
        SyncMetaItem::Rename(Ok("b".to_owned())),
    ])];
    assert_eq!(parse_sync_attrs(&renamed_twice), Err(diag("rename", "duplicate `rename` attribute")));
    let unknown = vec![sync(vec![SyncMetaItem::Unsupported("flatten".to_owned()), SyncMetaItem::Id])];
    assert_eq!(parse_sync_attrs(&unknown), Err(diag("flatten", "unsupported `sync` attribute")));
    let malformed = vec![sync(vec![SyncMetaItem::With(Err("expected path".to_owned()))])];
    assert_eq!(parse_sync_attrs(&malformed), Err(diag("with", "expected path")));
}

#[test]
fn parse_state_refuses_non_named_structs() {
    let tuple = DeriveInput { ident: "Pair".to_owned(), shape: DataShape::TupleStruct };
    assert_eq!(
        parse_state(tuple),
        Err(diag("Pair", "SyncableState only supports named-field structs"))
    );
    let enumeration = DeriveInput { ident: "Choice".to_owned(), shape: DataShape::Enum };
    assert_eq!(
        parse_state(enumeration),
        Err(diag("Choice", "SyncableState can only be derived for structs"))
    );
}

#[test]
fn validate_state_reports_every_problem_in_field_order() {
    let input = DeriveInput {
        ident: "Broken".to_owned(),
        shape: DataShape::NamedStruct(vec![
            field("a", plain_type("String"), vec![sync(vec![SyncMetaItem::Id])]),
            field("b", plain_type("String"), vec![sync(vec![SyncMetaItem::Id, SyncMetaItem::Skip])]),
            field("c", plain_type("SyncableString"), vec![sync(vec![SyncMetaItem::Rename(Ok("a".to_owned()))])]),
            field("d", plain_type("SyncableString"), vec![sync(vec![SyncMetaItem::With(Ok("codec".to_owned()))])]),
        ]),
    };
    let state = parse_state(input).expect("attributes read");
    let errors = validate_state(&state).expect_err("checks fail");
    assert_eq!(
        errors,
        vec![
            diag("b", "duplicate #[sync(id)] fields: `a` and `b`"),
            diag("b", "a field cannot use both #[sync(id)] and #[sync(skip)]"),
            diag("c", "wire name collision for `a` between fields `a` and `c`"),
            diag("d", "#[sync(with = ...)] is not supported in v1"),
        ]
    );
}

#[test]
fn plan_selects_fields_for_each_generated_item() {
    let input = DeriveInput {
        ident: "Board".to_owned(),
        shape: DataShape::NamedStruct(vec![
            field("id", plain_type("String"), vec![sync(vec![SyncMetaItem::Id])]),
            field("title", plain_type("SyncableString"), vec![]),
            field("cache", plain_type("Cache"), vec![sync(vec![SyncMetaItem::Skip])]),
            field(
                "card_items",
                FieldType { last_segment: Some("SyncableVec".to_owned()), first_arg_is_type: true },
                vec![sync(vec![SyncMetaItem::Rename(Ok("cards".to_owned()))])],
            ),
        ]),
    };
    let plan = plan_expansion(input).expect("valid struct");
    assert_eq!(plan.included, vec![0, 1, 3]);
    assert_eq!(plan.routable, vec![1, 3]);
    assert_eq!(plan.skipped, vec![2]);
    assert_eq!(plan.stable_id, Some(0));
    assert_eq!(plan.state.fields[3].wire_name, "cards");
    assert_eq!(
        plan.vec_identity_assertions,
        vec![(3, "SyncableStateFieldCardItemsVecElementsMustHaveSyncIdStableIdContract".to_owned())]
    );
    assert_eq!(select_fields(&plan.state, FieldSelection::SyncableVecs), vec![3]);
}

#[test]
fn plan_fails_with_all_diagnostics() {
    let input = DeriveInput {
        ident: "Dup".to_owned(),
        shape: DataShape::NamedStruct(vec![
            field("x", plain_type("SyncableString"), vec![]),
            field("y", plain_type("SyncableString"), vec![sync(vec![SyncMetaItem::Rename(Ok("x".to_owned()))])]),
        ]),
    };
    let errors = plan_expansion(input).expect_err("collision");
    assert_eq!(errors, vec![diag("y", "wire name collision for `x` between fields `x` and `y`")]);
}

#[test]
fn pascal_case_drops_underscores_and_capitalizes_words() {
    assert_eq!(to_pascal_case("card_items"), "CardItems");
    assert_eq!(to_pascal_case("_leading__double"), "LeadingDouble");
    assert_eq!(to_pascal_case("already"), "Already");
    assert_eq!(to_pascal_case(""), "");
    assert_eq!(to_pascal_case("ß_x"), "SSX");
}

fn generic_type(name: &str) -> FieldType {
    FieldType { last_segment: Some(name.to_owned()), first_arg_is_type: true }
}

fn named(ident: &str, fields: Vec<FieldInput>) -> DeriveInput {
    DeriveInput { ident: ident.to_owned(), shape: DataShape::NamedStruct(fields) }
}

#[test]
fn derive_ui_contract() {
    // derive_ok: an id field and a renamed string field.
    let demo = plan_expansion(named(
        "DemoState",
        vec![
            field("id", plain_type("String"), vec![sync(vec![SyncMetaItem::Id])]),
            field("title", plain_type("SyncableString"), vec![sync(vec![SyncMetaItem::Rename(Ok("headline".to_owned()))])]),
        ],
    ))
    .expect("derive_ok plans");
    assert_eq!(demo.state.fields[0].wire_name, "id");
    assert_eq!(demo.state.fields[1].wire_name, "headline");
    assert_eq!(demo.included, vec![0, 1]);
    assert_eq!(demo.routable, vec![1]);
    assert_eq!(demo.stable_id, Some(0));

    // container_fields_ok: vec and map fields.
    let containers = plan_expansion(named(
        "DocumentState",
        vec![
            field("rows", generic_type("SyncableVec"), vec![]),
            field("notes", generic_type("SyncableMap"), vec![]),
        ],
    ))
    .expect("container_fields_ok plans");
    assert_eq!(containers.routable, vec![0, 1]);
    assert_eq!(
        containers.vec_identity_assertions,
        vec![(0, "SyncableStateFieldRowsVecElementsMustHaveSyncIdStableIdContract".to_owned())]
    );

    // duplicate_id
    let duplicate = plan_expansion(named(
        "DuplicateIdState",
        vec![
            field("first_id", plain_type("String"), vec![sync(vec![SyncMetaItem::Id])]),
            field("second_id", plain_type("String"), vec![sync(vec![SyncMetaItem::Id])]),
            field("title", plain_type("SyncableString"), vec![]),
        ],
    ));
    assert_eq!(
        duplicate.expect_err("duplicate_id fails"),
        vec![diag("second_id", "duplicate #[sync(id)] fields: `first_id` and `second_id`")]
    );

    // tuple_struct
    let tuple = plan_expansion(DeriveInput { ident: "TupleState".to_owned(), shape: DataShape::TupleStruct });
    assert_eq!(
        tuple.expect_err("tuple_struct fails"),
        vec![diag("TupleState", "SyncableState only supports named-field structs")]
    );

    // rename_conflict
    let conflict = plan_expansion(named(
        "RenameConflictState",
        vec![
            field("name", plain_type("SyncableString"), vec![sync(vec![SyncMetaItem::Rename(Ok("title".to_owned()))])]),
            field("title", plain_type("SyncableString"), vec![]),
        ],
    ));
    assert_eq!(
        conflict.expect_err("rename_conflict fails"),
        vec![diag("title", "wire name collision for `title` between fields `name` and `title`")]
    );

    // with_attr_rejected
    let with = plan_expansion(named(
        "WithAttrState",
        vec![field("title", plain_type("SyncableString"), vec![sync(vec![SyncMetaItem::With(Ok("custom_codec".to_owned()))])])],
    ));
    assert_eq!(
        with.expect_err("with_attr_rejected fails"),
        vec![diag("title", "#[sync(with = ...)] is not supported in v1")]
    );

    // vec_missing_id: the plan holds the element type to the stable-id
    // contract; the compile error comes from that bound.
    let rows = plan_expansion(named("DocumentState", vec![field("rows", generic_type("SyncableVec"), vec![])]))
        .expect("vec_missing_id plans its assertion");
    assert_eq!(
        rows.vec_identity_assertions,
        vec![(0, "SyncableStateFieldRowsVecElementsMustHaveSyncIdStableIdContract".to_owned())]
    );
}

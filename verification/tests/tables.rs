use ormlite_attr::naming::names_primary_key;
use ormlite_attr::syntax::{
    ColumnAttributes, DeriveInput, Field, GenericArgument, Ident, ModelAttributes, Path,
    PathArguments, PathSegment, Type,
};
use ormlite_attr::table::{check_fields, infer_primary_key, read_columns};
use ormlite_attr::{ColumnMetadata, SyndecodeError, TableMetadata};

fn ident(name: &str) -> Ident {
    Ident { name: name.to_string() }
}

fn path(names: &[&str]) -> Path {
    Path {
        segments: names
            .iter()
            .map(|n| PathSegment { ident: ident(n), arguments: PathArguments::Absent })
            .collect(),
    }
}

fn plain(name: &str) -> Type {
    Type::Path(path(&[name]))
}

fn join_of(inner: &str) -> Type {
    Type::Path(Path {
        segments: vec![PathSegment {
            ident: ident("Join"),
            arguments: PathArguments::AngleBracketed(vec![GenericArgument::Type(plain(inner))]),
        }],
    })
}

fn no_options() -> ColumnAttributes {
    ColumnAttributes {
        primary_key: false,
        default: false,
        many_to_one_key: None,
        many_to_many_table_name: None,
        one_to_many_foreign_key: None,
    }
}

fn marked() -> ColumnAttributes {
    ColumnAttributes { primary_key: true, ..no_options() }
}

fn field(name: &str, attrs: Vec<ColumnAttributes>) -> Field {
    Field { ident: ident(name), ty: plain("i32"), attrs }
}

fn table_named(table: &str) -> ModelAttributes {
    ModelAttributes { table: Some(table.to_string()), insertable: None }
}

fn insertable(name: &str) -> ModelAttributes {
    ModelAttributes { table: None, insertable: Some(ident(name)) }
}

fn strukt(name: &str, attrs: Vec<ModelAttributes>, fields: Vec<Field>) -> DeriveInput {
    DeriveInput { ident: ident(name), attrs, fields }
}

fn columns(fields: Vec<Field>) -> Vec<ColumnMetadata> {
    read_columns(&fields).unwrap()
}

fn names(columns: &[ColumnMetadata]) -> Vec<String> {
    columns.iter().map(|c| c.column_name.clone()).collect()
}

fn defaults(columns: &[ColumnMetadata]) -> Vec<bool> {
    columns.iter().map(|c| c.has_database_default).collect()
}

#[test]
fn names_of_a_primary_key() {
    let t = "user".to_string();
    assert!(names_primary_key(&"id".to_string(), &t));
    assert!(names_primary_key(&"uuid".to_string(), &t));
    assert!(names_primary_key(&"user_id".to_string(), &t));
    assert!(names_primary_key(&"user_uuid".to_string(), &t));
    assert!(!names_primary_key(&"ID".to_string(), &t));
    assert!(!names_primary_key(&"Id".to_string(), &t));
    assert!(!names_primary_key(&"user".to_string(), &t));
    assert!(!names_primary_key(&"userid".to_string(), &t));
    assert!(!names_primary_key(&"_id".to_string(), &t));
    assert!(!names_primary_key(&"users_id".to_string(), &t));
    assert!(!names_primary_key(&"user_id ".to_string(), &t));
    assert!(!names_primary_key(&"".to_string(), &t));
    assert!(names_primary_key(&"_id".to_string(), &String::new()));
    assert!(names_primary_key(&"_uuid".to_string(), &String::new()));
}

#[test]
fn table_name_is_the_struct_name_in_snake_case() {
    let ast = strukt("UserAccount", vec![], vec![field("user_account_id", vec![])]);
    let table = TableMetadata::try_from(&ast).unwrap();
    assert_eq!(table.table_name, "user_account");
    assert_eq!(table.struct_name.name, "UserAccount");
    assert_eq!(table.primary_key, Some("user_account_id".to_string()));
    assert!(table.columns[0].has_database_default);

    let ast = strukt("UserAccount", vec![], vec![field("user_account_uuid", vec![])]);
    let table = TableMetadata::try_from(&ast).unwrap();
    assert_eq!(table.primary_key, Some("user_account_uuid".to_string()));

    let ast = strukt("UserAccount", vec![], vec![field("UserAccount_id", vec![])]);
    let e = TableMetadata::try_from(&ast).unwrap_err();
    assert_eq!(
        e.message(),
        "No column marked with #[primary_key], and no column named id, uuid, user_account_id, or user_account_uuid"
    );
}

#[test]
fn default_name_is_used_only_without_a_table_attribute() {
    let ast = strukt("User", vec![], vec![field("people_id", vec![])]);
    let table = TableMetadata::try_from_with_default_name(&ast, "people".to_string()).unwrap();
    assert_eq!(table.table_name, "people");
    assert_eq!(table.primary_key, Some("people_id".to_string()));

    let ast = strukt("User", vec![table_named("users")], vec![field("people_id", vec![])]);
    let e = TableMetadata::try_from_with_default_name(&ast, "people".to_string()).unwrap_err();
    assert!(matches!(e, SyndecodeError::MissingPrimaryKey { table_name } if table_name == "users"));
}

#[test]
fn last_struct_attribute_decides() {
    let ast = strukt(
        "User",
        vec![
            table_named("first"),
            insertable("NewUser"),
            ModelAttributes { table: Some("second".to_string()), insertable: Some(ident("Other")) },
            ModelAttributes { table: None, insertable: None },
        ],
        vec![field("second_id", vec![])],
    );
    let builder = TableMetadata::builder_from_struct_attributes(&ast).unwrap();
    assert_eq!(builder.table_name, Some("second".to_string()));
    assert_eq!(builder.struct_name.as_ref().map(|i| i.name.as_str()), Some("User"));
    assert_eq!(builder.insert_struct, Some(Some("Other".to_string())));
    assert!(builder.primary_key.is_none());
    assert!(builder.columns.is_none());
    let table = TableMetadata::try_from(&ast).unwrap();
    assert_eq!(table.table_name, "second");
    assert_eq!(table.insert_struct, Some("Other".to_string()));
    assert_eq!(table.primary_key, Some("second_id".to_string()));
}

#[test]
fn struct_without_attributes_settles_little() {
    let ast = strukt("User", vec![], vec![]);
    let builder = TableMetadata::builder_from_struct_attributes(&ast).unwrap();
    assert_eq!(builder.table_name, None);
    assert_eq!(builder.struct_name.as_ref().map(|i| i.name.as_str()), Some("User"));
    assert_eq!(builder.insert_struct, Some(None));
    assert!(builder.primary_key.is_none());
    assert!(builder.columns.is_none());
}

#[test]
fn columns_follow_the_fields() {
    let ast = strukt(
        "Event",
        vec![],
        vec![
            field("zeta", vec![]),
            field("id", vec![]),
            field("alpha", vec![ColumnAttributes { default: true, ..no_options() }]),
            field("id", vec![]),
            field("mid", vec![]),
        ],
    );
    let table = TableMetadata::try_from(&ast).unwrap();
    assert_eq!(table.columns.len(), 5);
    assert_eq!(names(&table.columns), vec!["zeta", "id", "alpha", "id", "mid"]);
    assert_eq!(defaults(&table.columns), vec![false, true, true, false, false]);
    assert_eq!(table.primary_key, Some("id".to_string()));
}

#[test]
fn struct_without_fields_has_no_primary_key() {
    let ast = strukt("Empty", vec![], vec![]);
    let e = TableMetadata::try_from(&ast).unwrap_err();
    assert!(matches!(e, SyndecodeError::MissingPrimaryKey { table_name } if table_name == "empty"));
    assert!(read_columns(&vec![]).unwrap().is_empty());
}

#[test]
fn first_marked_column_wins() {
    let mut cols = columns(vec![
        field("id", vec![]),
        field("code", vec![marked()]),
        field("uuid", vec![]),
        field("other", vec![marked()]),
    ]);
    let key = infer_primary_key(&mut cols, &"t".to_string());
    assert_eq!(key, Some("code".to_string()));
    assert_eq!(defaults(&cols), vec![false, true, false, true]);
    assert_eq!(names(&cols), vec!["id", "code", "uuid", "other"]);
}

#[test]
fn first_named_column_wins_where_none_is_marked() {
    let mut cols = columns(vec![
        field("name", vec![]),
        field("t_uuid", vec![]),
        field("id", vec![]),
        field("uuid", vec![]),
        field("t_id", vec![]),
    ]);
    let key = infer_primary_key(&mut cols, &"t".to_string());
    assert_eq!(key, Some("t_uuid".to_string()));
    assert_eq!(defaults(&cols), vec![false, true, false, false, false]);
    assert!(cols.iter().all(|c| !c.marked_primary_key));
}

#[test]
fn no_candidate_leaves_the_columns_alone() {
    let mut cols = columns(vec![
        field("name", vec![]),
        field("x_id", vec![ColumnAttributes { default: true, ..no_options() }]),
    ]);
    let key = infer_primary_key(&mut cols, &"t".to_string());
    assert_eq!(key, None);
    assert_eq!(defaults(&cols), vec![false, true]);
    let mut none: Vec<ColumnMetadata> = vec![];
    assert_eq!(infer_primary_key(&mut none, &"t".to_string()), None);
    assert!(none.is_empty());
}

#[test]
fn first_failing_field_gives_the_error() {
    let fields = vec![
        field("id", vec![]),
        Field { ident: ident("first"), ty: join_of("A"), attrs: vec![] },
        Field { ident: ident("second"), ty: join_of("B"), attrs: vec![] },
    ];
    let e = read_columns(&fields).unwrap_err();
    assert!(matches!(e, SyndecodeError::JoinMissingDirective { column } if column == "first"));
    let ast = strukt("T", vec![], fields);
    let e = TableMetadata::try_from(&ast).unwrap_err();
    assert!(matches!(e, SyndecodeError::JoinMissingDirective { column } if column == "first"));
}

#[test]
fn failing_field_comes_before_the_missing_primary_key() {
    let ast = strukt(
        "T",
        vec![],
        vec![Field { ident: ident("owner"), ty: join_of("A"), attrs: vec![] }],
    );
    let e = TableMetadata::try_from(&ast).unwrap_err();
    assert!(matches!(e, SyndecodeError::JoinMissingDirective { column } if column == "owner"));
}

#[test]
fn builder_completes_with_the_name_it_holds() {
    let mut builder = TableMetadata::builder();
    builder.struct_name(ident("User"));
    builder.insert_struct(None);
    builder.table_name("people".to_string());
    let fields = vec![field("people_id", vec![]), field("user_id", vec![])];
    let table = builder.complete_with_default_name("user".to_string(), &fields).unwrap();
    assert_eq!(table.table_name, "people");
    assert_eq!(table.primary_key, Some("people_id".to_string()));
    assert_eq!(defaults(&table.columns), vec![true, false]);
    assert_eq!(builder.table_name, Some("people".to_string()));
    assert_eq!(builder.primary_key, Some(Some("people_id".to_string())));
    assert_eq!(builder.columns.as_ref().map(|c| names(c)), Some(vec![
        "people_id".to_string(),
        "user_id".to_string(),
    ]));
}

#[test]
fn builder_completes_without_a_primary_key() {
    let mut builder = TableMetadata::builder();
    builder.struct_name(ident("Note"));
    builder.insert_struct(None);
    let ast = strukt("Note", vec![], vec![field("title", vec![])]);
    let table = builder.complete_with_struct_body(&ast).unwrap();
    assert_eq!(table.table_name, "note");
    assert_eq!(table.primary_key, None);
    assert_eq!(names(&table.columns), vec!["title"]);
    assert_eq!(builder.table_name, Some("note".to_string()));
    assert_eq!(builder.primary_key, Some(None));
}

#[test]
fn builder_without_struct_name_cannot_complete() {
    let mut builder = TableMetadata::builder();
    let ast = strukt("Note", vec![], vec![field("id", vec![])]);
    let e = builder.complete_with_struct_body(&ast).unwrap_err();
    assert!(matches!(e, SyndecodeError::BuilderIncomplete { field } if field == "struct_name"));
    assert_eq!(builder.table_name, Some("note".to_string()));
    assert_eq!(builder.primary_key, Some(Some("id".to_string())));
    builder.struct_name(ident("Note"));
    let e = builder.build().unwrap_err();
    assert!(matches!(e, SyndecodeError::BuilderIncomplete { field } if field == "insert_struct"));
}

#[test]
fn builder_keeps_its_name_when_a_field_fails() {
    let mut builder = TableMetadata::builder();
    builder.struct_name(ident("Order"));
    builder.insert_struct(None);
    let fields = vec![Field { ident: ident("customer"), ty: join_of("Customer"), attrs: vec![] }];
    let e = builder.complete_with_default_name("order".to_string(), &fields).unwrap_err();
    assert!(matches!(e, SyndecodeError::JoinMissingDirective { column } if column == "customer"));
    assert_eq!(builder.table_name, Some("order".to_string()));
    assert!(builder.primary_key.is_none());
    assert!(builder.columns.is_none());
}

#[test]
fn marked_key_keeps_named_columns_plain() {
    let ast = strukt(
        "Item",
        vec![],
        vec![field("id", vec![]), field("sku", vec![marked()]), field("item_id", vec![])],
    );
    let table = TableMetadata::try_from(&ast).unwrap();
    assert_eq!(table.primary_key, Some("sku".to_string()));
    assert_eq!(defaults(&table.columns), vec![false, true, false]);
    for c in &table.columns {
        assert!(!c.marked_primary_key || c.has_database_default);
    }
}

#[test]
fn fields_with_empty_keys_are_found() {
    let good = ColumnAttributes { many_to_one_key: Some(path(&["a", "b"])), ..no_options() };
    let empty = ColumnAttributes { many_to_one_key: Some(path(&[])), ..no_options() };
    assert!(check_fields(&vec![]));
    assert!(check_fields(&vec![field("a", vec![]), field("b", vec![good])]));
    assert!(!check_fields(&vec![field("a", vec![]), field("b", vec![no_options(), empty])]));
}

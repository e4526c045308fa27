use ormlite_attr::syntax::{
    ColumnAttributes, DeriveInput, Field, GenericArgument, Ident, ModelAttributes, Path,
    PathArguments, PathSegment, Type,
};
use ormlite_attr::{ColumnMetadata, SyndecodeError, TableMetadata};

fn ident(name: &str) -> Ident {
    Ident { name: name.to_string() }
}

fn path(names: &[&str]) -> Path {
    Path {
        segments: names
            .iter()
            .map(|n| PathSegment { ident: ident(n), arguments: PathArguments::Absent })
            .collect(),
    }
}

fn plain(name: &str) -> Type {
    Type::Path(path(&[name]))
}

fn join_of(inner: &str) -> Type {
    Type::Path(Path {
        segments: vec![PathSegment {
            ident: ident("Join"),
            arguments: PathArguments::AngleBracketed(vec![GenericArgument::Type(plain(inner))]),
        }],
    })
}

fn no_options() -> ColumnAttributes {
    ColumnAttributes {
        primary_key: false,
        default: false,
        many_to_one_key: None,
        many_to_many_table_name: None,
        one_to_many_foreign_key: None,
    }
}

fn field(name: &str, ty: Type, attrs: Vec<ColumnAttributes>) -> Field {
    Field { ident: ident(name), ty, attrs }
}

fn names(columns: &[ColumnMetadata]) -> Vec<String> {
    columns.iter().map(|c| c.column_name.clone()).collect()
}

#[test]
fn primary_key_is_inferred_from_id() {
    let ast = DeriveInput {
        ident: ident("User"),
        attrs: vec![],
        fields: vec![field("id", plain("i32"), vec![]), field("name", plain("String"), vec![])],
    };
    let table = TableMetadata::try_from(&ast).unwrap();
    assert_eq!(table.table_name, "user");
    assert_eq!(table.struct_name.name, "User");
    assert_eq!(table.primary_key, Some("id".to_string()));
    assert_eq!(table.insert_struct, None);
    assert_eq!(names(&table.columns), vec!["id", "name"]);
    assert!(table.columns[0].has_database_default);
    assert!(!table.columns[0].marked_primary_key);
    assert!(!table.columns[1].has_database_default);
    assert!(!table.columns[1].marked_primary_key);
}

#[test]
fn marked_column_is_the_primary_key() {
    let marked = ColumnAttributes { primary_key: true, ..no_options() };
    let ast = DeriveInput {
        ident: ident("Item"),
        attrs: vec![],
        fields: vec![
            field("sku", plain("String"), vec![marked]),
            field("price", plain("i64"), vec![]),
        ],
    };
    let table = TableMetadata::try_from(&ast).unwrap();
    assert_eq!(table.primary_key, Some("sku".to_string()));
    assert_eq!(table.table_name, "item");
    assert!(table.columns[0].marked_primary_key);
    assert!(table.columns[0].has_database_default);
    assert!(!table.columns[1].marked_primary_key);
    assert!(!table.columns[1].has_database_default);
}

#[test]
fn struct_name_pattern_is_not_used_under_another_table_name() {
    let ast = DeriveInput {
        ident: ident("Customer"),
        attrs: vec![ModelAttributes {
            table: Some("customers".to_string()),
            insertable: Some(ident("NewCustomer")),
        }],
        fields: vec![
            field("customer_id", plain("i32"), vec![]),
            field("email", plain("String"), vec![]),
        ],
    };
    let e = TableMetadata::try_from(&ast).unwrap_err();
    match &e {
        SyndecodeError::MissingPrimaryKey { table_name } => assert_eq!(table_name, "customers"),
        other => panic!("unexpected error {:?}", other),
    }
    assert_eq!(
        e.message(),
        "No column marked with #[primary_key], and no column named id, uuid, customers_id, or customers_uuid"
    );
}

#[test]
fn table_attribute_overrides_the_name() {
    let ast = DeriveInput {
        ident: ident("Customer"),
        attrs: vec![ModelAttributes {
            table: Some("customers".to_string()),
            insertable: Some(ident("NewCustomer")),
        }],
        fields: vec![
            field("customers_id", plain("i32"), vec![]),
            field("email", plain("String"), vec![]),
        ],
    };
    let table = TableMetadata::try_from(&ast).unwrap();
    assert_eq!(table.table_name, "customers");
    assert_eq!(table.insert_struct, Some("NewCustomer".to_string()));
    assert_eq!(table.primary_key, Some("customers_id".to_string()));
    assert!(table.columns[0].has_database_default);
    assert!(!table.columns[0].marked_primary_key);
}

#[test]
fn missing_primary_key_is_an_error() {
    let ast = DeriveInput {
        ident: ident("Note"),
        attrs: vec![],
        fields: vec![
            field("title", plain("String"), vec![]),
            field("body", plain("String"), vec![]),
        ],
    };
    let e = TableMetadata::try_from(&ast).unwrap_err();
    match &e {
        SyndecodeError::MissingPrimaryKey { table_name } => assert_eq!(table_name, "note"),
        other => panic!("unexpected error {:?}", other),
    }
    let message = e.message();
    assert!(message.contains("note_id"));
    assert!(message.contains("note_uuid"));
    assert_eq!(
        message,
        "No column marked with #[primary_key], and no column named id, uuid, note_id, or note_uuid"
    );
}

#[test]
fn join_without_directive_is_an_error() {
    let ast = DeriveInput {
        ident: ident("Order"),
        attrs: vec![],
        fields: vec![
            field("id", plain("i32"), vec![]),
            field("customer", join_of("Customer"), vec![]),
        ],
    };
    let e = TableMetadata::try_from(&ast).unwrap_err();
    match &e {
        SyndecodeError::JoinMissingDirective { column } => assert_eq!(column, "customer"),
        other => panic!("unexpected error {:?}", other),
    }
    assert_eq!(
        e.message(),
        "Column customer is a Join. You must specify one of: many_to_one_key, many_to_many_table_name, or one_to_many_foreign_key"
    );
}

#[test]
fn join_with_directive_is_read() {
    let key = ColumnAttributes {
        many_to_one_key: Some(path(&["local", "customer_id"])),
        ..no_options()
    };
    let ast = DeriveInput {
        ident: ident("Order"),
        attrs: vec![],
        fields: vec![
            field("id", plain("i32"), vec![]),
            field("customer", join_of("Customer"), vec![key]),
        ],
    };
    let table = TableMetadata::try_from(&ast).unwrap();
    let column = &table.columns[1];
    assert_eq!(column.column_name, "customer");
    assert_eq!(column.many_to_one_key.as_ref().map(|i| i.name.as_str()), Some("customer_id"));
    assert!(column.many_to_many_table_name.is_none());
    assert!(column.one_to_many_foreign_key.is_none());
    assert!(column.is_join());
    assert_eq!(column.joined_struct().map(|i| i.name), Some("Customer".to_string()));
}

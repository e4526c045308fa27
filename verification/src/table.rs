//! The metadata of a table, and how it is put together from a struct.

use crate::column::{
    check_keys, column_of, ident_option_view, incomplete, is_join_type, join_directives_given,
    keys_have_segments, last_set, lemma_join_column_has_one_directive,
    lemma_join_directives_given, lemma_last_set_is_given, lemma_last_set_push,
    lemma_marked_column_has_default,
    lemma_plain_column_has_no_join, says_how_to_join, ColumnMetadata, ColumnMetadataView,
};
use crate::error::{SyndecodeError, SyndecodeErrorView};
use crate::naming::{is_primary_key_name, names_primary_key, snake_case, to_snake_case};
use crate::syntax::{DeriveInput, Field, Ident, ModelAttributes};
use vstd::prelude::*;

verus! {

/// All the metadata we can capture about a table.
#[derive(Debug)]
pub struct TableMetadata {
    pub table_name: String,
    pub struct_name: Ident,
    pub primary_key: Option<String>,
    pub columns: Vec<ColumnMetadata>,
    pub insert_struct: Option<String>,
}

/// The mathematical value of a [`TableMetadata`].
pub ghost struct TableMetadataView {
    pub table_name: Seq<char>,
    pub struct_name: Seq<char>,
    pub primary_key: Option<Seq<char>>,
    pub columns: Seq<ColumnMetadataView>,
    pub insert_struct: Option<Seq<char>>,
}

impl View for TableMetadata {
    type V = TableMetadataView;

    open spec fn view(&self) -> TableMetadataView {
        TableMetadataView {
            table_name: self.table_name@,
            struct_name: self.struct_name@,
            primary_key: string_option_view(self.primary_key),
            columns: columns_view(self.columns),
            insert_struct: string_option_view(self.insert_struct),
        }
    }
}

/// Gathers the fields of a [`TableMetadata`] one by one. A field that was
/// never set is `None`.
#[derive(Debug)]
pub struct TableMetadataBuilder {
    pub table_name: Option<String>,
    pub struct_name: Option<Ident>,
    pub primary_key: Option<Option<String>>,
    pub columns: Option<Vec<ColumnMetadata>>,
    pub insert_struct: Option<Option<String>>,
}

/// The mathematical value of a [`TableMetadataBuilder`].
pub ghost struct TableMetadataBuilderView {
    pub table_name: Option<Seq<char>>,
    pub struct_name: Option<Seq<char>>,
    pub primary_key: Option<Option<Seq<char>>>,
    pub columns: Option<Seq<ColumnMetadataView>>,
    pub insert_struct: Option<Option<Seq<char>>>,
}

impl View for TableMetadataBuilder {
    type V = TableMetadataBuilderView;

    open spec fn view(&self) -> TableMetadataBuilderView {
        TableMetadataBuilderView {
            table_name: string_option_view(self.table_name),
            struct_name: ident_option_view(self.struct_name),
            primary_key: match self.primary_key {
                Some(k) => Some(string_option_view(k)),
                None => None,
            },
            columns: match self.columns {
                Some(c) => Some(columns_view(c)),
                None => None,
            },
            insert_struct: match self.insert_struct {
                Some(s) => Some(string_option_view(s)),
                None => None,
            },
        }
    }
}

impl TableMetadataBuilderView {
    /// The builder with no field set.
    pub open spec fn unset() -> TableMetadataBuilderView {
        TableMetadataBuilderView {
            table_name: None,
            struct_name: None,
            primary_key: None,
            columns: None,
            insert_struct: None,
        }
    }

    /// The name of the first field, in the order of declaration, that is not
    /// set; `None` where all are.
    pub open spec fn first_unset(self) -> Option<Seq<char>> {
        if self.table_name is None {
            Some("table_name"@)
        } else if self.struct_name is None {
            Some("struct_name"@)
        } else if self.primary_key is None {
            Some("primary_key"@)
        } else if self.columns is None {
            Some("columns"@)
        } else if self.insert_struct is None {
            Some("insert_struct"@)
        } else {
            None
        }
    }

    /// The table that the fields make up, once all are set.
    pub open spec fn built(self) -> TableMetadataView
        recommends
            self.first_unset() is None,
    {
        TableMetadataView {
            table_name: self.table_name->0,
            struct_name: self.struct_name->0,
            primary_key: self.primary_key->0,
            columns: self.columns->0,
            insert_struct: self.insert_struct->0,
        }
    }

    /// What building gives: the table, or the first field that is missing.
    pub open spec fn build_result(self) -> Result<TableMetadataView, SyndecodeErrorView> {
        match self.first_unset() {
            Some(field) => Err(SyndecodeErrorView::BuilderIncomplete { field }),
            None => Ok(self.built()),
        }
    }
}

/// The value of what putting a table together gives.
pub open spec fn table_result_view(r: Result<TableMetadata, SyndecodeError>) -> Result<
    TableMetadataView,
    SyndecodeErrorView,
> {
    match r {
        Ok(t) => Ok(t@),
        Err(e) => Err(e@),
    }
}

fn clone_string_option(s: &Option<String>) -> (r: Option<String>)
    ensures
        string_option_view(r) == string_option_view(*s),
{
    match s {
        Some(s) => Some(s.clone()),
        None => None,
    }
}

fn clone_columns(columns: &Vec<ColumnMetadata>) -> (r: Vec<ColumnMetadata>)
    ensures
        columns_view(r) == columns_view(*columns),
{
    let mut copy: Vec<ColumnMetadata> = Vec::new();
    let mut i: usize = 0;
    while i < columns.len()
        invariant
            i <= columns@.len(),
            copy@.len() == i,
            forall|j: int| 0 <= j < i ==> (#[trigger] copy@[j])@ == columns@[j]@,
        decreases columns@.len() - i,
    {
        copy.push(columns[i].clone());
        i = i + 1;
    }
    assert(columns_view(copy) =~= columns_view(*columns));
    copy
}

impl Default for TableMetadataBuilder {
    fn default() -> (r: TableMetadataBuilder)
        ensures
            r@ == TableMetadataBuilderView::unset(),
    {
        TableMetadataBuilder {
            table_name: None,
            struct_name: None,
            primary_key: None,
            columns: None,
            insert_struct: None,
        }
    }
}

impl TableMetadata {
    /// A builder with no field set.
    pub fn builder() -> (r: TableMetadataBuilder)
        ensures
            r@ == TableMetadataBuilderView::unset(),
    {
        TableMetadataBuilder::default()
    }
}

impl TableMetadataBuilder {
    pub fn table_name(&mut self, value: String)
        ensures
            *final(self) == (TableMetadataBuilder { table_name: Some(value), ..*old(self) }),
    {
        self.table_name = Some(value);
    }

    pub fn struct_name(&mut self, value: Ident)
        ensures
            *final(self) == (TableMetadataBuilder { struct_name: Some(value), ..*old(self) }),
    {
        self.struct_name = Some(value);
    }

    pub fn primary_key(&mut self, value: Option<String>)
        ensures
            *final(self) == (TableMetadataBuilder { primary_key: Some(value), ..*old(self) }),
    {
        self.primary_key = Some(value);
    }

    pub fn columns(&mut self, value: Vec<ColumnMetadata>)
        ensures
            *final(self) == (TableMetadataBuilder { columns: Some(value), ..*old(self) }),
    {
        self.columns = Some(value);
    }

    pub fn insert_struct(&mut self, value: Option<String>)
        ensures
            *final(self) == (TableMetadataBuilder { insert_struct: Some(value), ..*old(self) }),
    {
        self.insert_struct = Some(value);
    }

    /// The table, where every field is set; else the error that names the
    /// first field that is not.
    pub fn build(&self) -> (r: Result<TableMetadata, SyndecodeError>)
        ensures
            table_result_view(r) == self@.build_result(),
    {
        let Some(table_name) = &self.table_name else {
            return Err(incomplete("table_name"));
        };
        let Some(struct_name) = &self.struct_name else {
            return Err(incomplete("struct_name"));
        };
        let Some(primary_key) = &self.primary_key else {
            return Err(incomplete("primary_key"));
        };
        let Some(columns) = &self.columns else {
            return Err(incomplete("columns"));
        };
        let Some(insert_struct) = &self.insert_struct else {
            return Err(incomplete("insert_struct"));
        };
        Ok(
            TableMetadata {
                table_name: table_name.clone(),
                struct_name: struct_name.clone(),
                primary_key: clone_string_option(primary_key),
                columns: clone_columns(columns),
                insert_struct: clone_string_option(insert_struct),
            },
        )
    }
}

/// The values of the columns of a table, in order.
pub open spec fn columns_view(columns: Vec<ColumnMetadata>) -> Seq<ColumnMetadataView> {
    columns@.map_values(|c: ColumnMetadata| c@)
}

/// The value of a string that may be absent.
pub open spec fn string_option_view(s: Option<String>) -> Option<Seq<char>> {
    match s {
        Some(s) => Some(s@),
        None => None,
    }
}

/// Whether `i` is the place of the first column that is marked as the primary
/// key.
pub open spec fn first_marked_at(columns: Seq<ColumnMetadataView>, i: int) -> bool {
    &&& 0 <= i < columns.len()
    &&& columns[i].marked_primary_key
    &&& forall|j: int| 0 <= j < i ==> !(#[trigger] columns[j]).marked_primary_key
}

/// Whether `i` is the place of the first column whose name is one by which
/// the primary key of the table `table_name` is recognised.
pub open spec fn first_named_at(
    columns: Seq<ColumnMetadataView>,
    table_name: Seq<char>,
    i: int,
) -> bool {
    &&& 0 <= i < columns.len()
    &&& is_primary_key_name(columns[i].column_name, table_name)
    &&& forall|j: int|
        0 <= j < i ==> !is_primary_key_name((#[trigger] columns[j]).column_name, table_name)
}

/// The place of the column that is the primary key only by its name: there is
/// one where no column is marked and a column has such a name.
pub open spec fn inferred_key_index(
    columns: Seq<ColumnMetadataView>,
    table_name: Seq<char>,
) -> Option<int> {
    if exists|i: int| first_marked_at(columns, i) {
        None
    } else if exists|i: int| first_named_at(columns, table_name, i) {
        Some(choose|i: int| first_named_at(columns, table_name, i))
    } else {
        None
    }
}

/// The place of the column that is the primary key: the first that is marked,
/// or where none is, the first that has the name of a primary key.
pub open spec fn primary_key_index(
    columns: Seq<ColumnMetadataView>,
    table_name: Seq<char>,
) -> Option<int> {
    if exists|i: int| first_marked_at(columns, i) {
        Some(choose|i: int| first_marked_at(columns, i))
    } else {
        inferred_key_index(columns, table_name)
    }
}

/// The name of the column that is the primary key.
pub open spec fn primary_key_of(
    columns: Seq<ColumnMetadataView>,
    table_name: Seq<char>,
) -> Option<Seq<char>> {
    match primary_key_index(columns, table_name) {
        Some(i) => Some(columns[i].column_name),
        None => None,
    }
}

/// The columns once the primary key is settled: a column that is the primary
/// key only by its name gets its value from the database.
pub open spec fn with_inferred_key(
    columns: Seq<ColumnMetadataView>,
    table_name: Seq<char>,
) -> Seq<ColumnMetadataView> {
    match inferred_key_index(columns, table_name) {
        Some(i) => columns.update(
            i,
            ColumnMetadataView { has_database_default: true, ..columns[i] },
        ),
        None => columns,
    }
}

/// Settles the primary key of the table `table_name` among its columns and
/// returns its name. A column that is chosen for its name alone is made to
/// take its value from the database.
pub fn infer_primary_key(columns: &mut Vec<ColumnMetadata>, table_name: &String) -> (r: Option<
    String,
>)
    ensures
        string_option_view(r) == primary_key_of(columns_view(*old(columns)), table_name@),
        columns_view(*final(columns)) == with_inferred_key(
            columns_view(*old(columns)),
            table_name@,
        ),
{
    let ghost before = columns_view(*columns);
    let mut i: usize = 0;
    while i < columns.len()
        invariant
            i <= columns@.len(),
            before == columns_view(*columns),
            before == columns_view(*old(columns)),
            forall|j: int| 0 <= j < i ==> !(#[trigger] before[j]).marked_primary_key,
        decreases columns@.len() - i,
    {
        if columns[i].marked_primary_key {
            assert(first_marked_at(before, i as int));
            return Some(columns[i].column_name.clone());
        }
        i = i + 1;
    }
    let mut k: usize = 0;
    while k < columns.len()
        invariant
            k <= columns@.len(),
            before == columns_view(*columns),
            before == columns_view(*old(columns)),
            forall|j: int| 0 <= j < before.len() ==> !(#[trigger] before[j]).marked_primary_key,
            forall|j: int|
                0 <= j < k ==> !is_primary_key_name((#[trigger] before[j]).column_name, table_name@),
        decreases columns@.len() - k,
    {
        if names_primary_key(&columns[k].column_name, table_name) {
            assert(first_named_at(before, table_name@, k as int));
            let name = columns[k].column_name.clone();
            columns[k].has_database_default = true;
            assert(columns_view(*columns) =~= with_inferred_key(before, table_name@));
            return Some(name);
        }
        k = k + 1;
    }
    None
}

/// The table name that the attributes on the struct give.
pub open spec fn given_table(attrs: Seq<ModelAttributes>) -> Option<String> {
    last_set(attrs.map_values(|a: ModelAttributes| a.table))
}

/// The struct for inserts that the attributes on the struct name.
pub open spec fn given_insertable(attrs: Seq<ModelAttributes>) -> Option<Ident> {
    last_set(attrs.map_values(|a: ModelAttributes| a.insertable))
}

/// The name of the table: the one that the attributes give, else
/// `default_name`.
pub open spec fn resolved_table_name(
    attrs: Seq<ModelAttributes>,
    default_name: Seq<char>,
) -> Seq<char> {
    match given_table(attrs) {
        Some(name) => name@,
        None => default_name,
    }
}

/// What a struct's name and attributes settle of the table: its name where
/// an attribute gives one, the struct's name, and the struct for inserts.
pub open spec fn settled_by(
    ident: Seq<char>,
    attrs: Seq<ModelAttributes>,
) -> TableMetadataBuilderView {
    TableMetadataBuilderView {
        table_name: string_option_view(given_table(attrs)),
        struct_name: Some(ident),
        primary_key: None,
        columns: None,
        insert_struct: Some(ident_option_view(given_insertable(attrs))),
    }
}

/// Each path given for `many_to_one_key` on a field has a segment.
pub open spec fn fields_well_formed(fields: Seq<Field>) -> bool {
    forall|i: int| 0 <= i < fields.len() ==> keys_have_segments((#[trigger] fields[i]).attrs@)
}

/// Decides [`fields_well_formed`].
pub fn check_fields(fields: &Vec<Field>) -> (r: bool)
    ensures
        r == fields_well_formed(fields@),
{
    let mut i: usize = 0;
    while i < fields.len()
        invariant
            i <= fields@.len(),
            forall|j: int| 0 <= j < i ==> keys_have_segments((#[trigger] fields@[j]).attrs@),
        decreases fields@.len() - i,
    {
        if !check_keys(&fields[i].attrs) {
            return false;
        }
        i = i + 1;
    }
    true
}

/// Whether `i` is the place of the first field that cannot be read as a
/// column.
pub open spec fn fails_first_at(fields: Seq<Field>, i: int) -> bool {
    &&& 0 <= i < fields.len()
    &&& column_of(fields[i]) is Err
    &&& forall|j: int| 0 <= j < i ==> column_of(#[trigger] fields[j]) is Ok
}

/// The columns of the fields, in the order of the fields; or the error of the
/// first field that cannot be read as a column.
pub open spec fn columns_of(fields: Seq<Field>) -> Result<
    Seq<ColumnMetadataView>,
    SyndecodeErrorView,
> {
    if exists|i: int| fails_first_at(fields, i) {
        let i = choose|i: int| fails_first_at(fields, i);
        Err(column_of(fields[i])->Err_0)
    } else {
        Ok(Seq::new(fields.len(), |i: int| column_of(fields[i])->Ok_0))
    }
}

/// The value of what reading the fields gives.
pub open spec fn columns_result_view(r: Result<Vec<ColumnMetadata>, SyndecodeError>) -> Result<
    Seq<ColumnMetadataView>,
    SyndecodeErrorView,
> {
    match r {
        Ok(c) => Ok(columns_view(c)),
        Err(e) => Err(e@),
    }
}

/// Reads each field as a column, in order, and stops at the first that
/// fails.
pub fn read_columns(fields: &Vec<Field>) -> (r: Result<Vec<ColumnMetadata>, SyndecodeError>)
    requires
        fields_well_formed(fields@),
    ensures
        columns_result_view(r) == columns_of(fields@),
{
    let mut columns: Vec<ColumnMetadata> = Vec::new();
    let mut i: usize = 0;
    while i < fields.len()
        invariant
            i <= fields@.len(),
            fields_well_formed(fields@),
            columns@.len() == i,
            forall|j: int| 0 <= j < i ==> column_of(#[trigger] fields@[j]) == Ok::<
                ColumnMetadataView,
                SyndecodeErrorView,
            >(columns@[j]@),
        decreases fields@.len() - i,
    {
        match ColumnMetadata::try_from(&fields[i]) {
            Ok(column) => {
                columns.push(column);
            },
            Err(e) => {
                assert(fails_first_at(fields@, i as int));
                return Err(e);
            },
        }
        i = i + 1;
    }
    assert(columns_view(columns) =~= Seq::new(
        fields@.len(),
        |i: int| column_of(fields@[i])->Ok_0,
    ));
    Ok(columns)
}

/// What completing a builder with the fields of a struct gives, where
/// `default_name` is the table's name unless the builder holds one: the
/// builder afterwards, and the table or the error.
pub open spec fn completed(
    builder: TableMetadataBuilderView,
    default_name: Seq<char>,
    fields: Seq<Field>,
) -> (TableMetadataBuilderView, Result<TableMetadataView, SyndecodeErrorView>) {
    let table_name = match builder.table_name {
        Some(name) => name,
        None => default_name,
    };
    let named = TableMetadataBuilderView { table_name: Some(table_name), ..builder };
    match columns_of(fields) {
        Err(e) => (named, Err(e)),
        Ok(columns) => {
            let filled = TableMetadataBuilderView {
                primary_key: Some(primary_key_of(columns, table_name)),
                columns: Some(with_inferred_key(columns, table_name)),
                ..named
            };
            (filled, filled.build_result())
        },
    }
}

/// The metadata of the table that a struct describes, where `default_name` is
/// the table's name unless an attribute gives one.
pub open spec fn table_with_default_name(ast: DeriveInput, default_name: Seq<char>) -> Result<
    TableMetadataView,
    SyndecodeErrorView,
> {
    let table_name = resolved_table_name(ast.attrs@, default_name);
    match columns_of(ast.fields@) {
        Err(e) => Err(e),
        Ok(columns) => match primary_key_of(columns, table_name) {
            None => Err(SyndecodeErrorView::MissingPrimaryKey { table_name }),
            Some(key) => Ok(
                TableMetadataView {
                    table_name,
                    struct_name: ast.ident@,
                    primary_key: Some(key),
                    columns: with_inferred_key(columns, table_name),
                    insert_struct: ident_option_view(given_insertable(ast.attrs@)),
                },
            ),
        },
    }
}

/// The metadata of the table that a struct describes. Unless an attribute
/// names the table, its name is the struct's name in snake case.
pub open spec fn table_of(ast: DeriveInput) -> Result<TableMetadataView, SyndecodeErrorView> {
    table_with_default_name(ast, snake_case(ast.ident@))
}

proof fn lemma_model_attrs_step(attrs: Seq<ModelAttributes>, i: int)
    requires
        0 <= i < attrs.len(),
    ensures
        given_table(attrs.take(i + 1)) == if attrs[i].table is Some {
            attrs[i].table
        } else {
            given_table(attrs.take(i))
        },
        given_insertable(attrs.take(i + 1)) == if attrs[i].insertable is Some {
            attrs[i].insertable
        } else {
            given_insertable(attrs.take(i))
        },
{
    let a = attrs.take(i);
    let b = attrs.take(i + 1);
    assert(b =~= a.push(attrs[i]));
    let t = |m: ModelAttributes| m.table;
    assert(b.map_values(t) =~= a.map_values(t).push(attrs[i].table));
    lemma_last_set_push(a.map_values(t), attrs[i].table);
    let n = |m: ModelAttributes| m.insertable;
    assert(b.map_values(n) =~= a.map_values(n).push(attrs[i].insertable));
    lemma_last_set_push(a.map_values(n), attrs[i].insertable);
}

impl TableMetadata {
    /// A builder that holds what the struct's name and attributes settle: the
    /// struct's name, the table's name where an attribute gives one, and the
    /// struct for inserts, which the last attribute that names one decides.
    pub fn builder_from_struct_attributes(ast: &DeriveInput) -> (r: Result<
        TableMetadataBuilder,
        SyndecodeError,
    >)
        ensures
            r is Ok,
            r->Ok_0@ == settled_by(ast.ident@, ast.attrs@),
    {
        let mut builder = TableMetadata::builder();
        builder.insert_struct(None);
        builder.struct_name(ast.ident.clone());
        let mut i: usize = 0;
        while i < ast.attrs.len()
            invariant
                i <= ast.attrs@.len(),
                builder@ == settled_by(ast.ident@, ast.attrs@.take(i as int)),
            decreases ast.attrs@.len() - i,
        {
            proof {
                lemma_model_attrs_step(ast.attrs@, i as int);
            }
            let args = &ast.attrs[i];
            if let Some(value) = &args.table {
                builder.table_name(value.clone());
            }
            if let Some(value) = &args.insertable {
                builder.insert_struct(Some(value.name.clone()));
            }
            i = i + 1;
        }
        assert(ast.attrs@.take(i as int) =~= ast.attrs@);
        Ok(builder)
    }
}

impl TableMetadataBuilder {
    /// Completes the builder with the fields of the struct and builds the
    /// table. The table's name is the one the builder holds, else
    /// `default_name`. The fields are read as columns; the first that fails
    /// ends the work with its error. Then the primary key is settled among the
    /// columns: that no column qualifies is no error here, the table then has
    /// no primary key.
    pub fn complete_with_default_name(&mut self, default_name: String, fields: &Vec<Field>) -> (r:
        Result<TableMetadata, SyndecodeError>)
        requires
            fields_well_formed(fields@),
        ensures
            (final(self)@, table_result_view(r)) == completed(old(self)@, default_name@, fields@),
    {
        if self.table_name.is_none() {
            self.table_name = Some(default_name);
        }
        let mut cols = match read_columns(fields) {
            Ok(cols) => cols,
            Err(e) => {
                return Err(e);
            },
        };
        let primary_key = match &self.table_name {
            Some(table_name) => infer_primary_key(&mut cols, table_name),
            None => None,
        };
        self.primary_key(primary_key);
        self.columns(cols);
        self.build()
    }

    /// Completes the builder with the fields of the struct and builds the
    /// table, as [`TableMetadataBuilder::complete_with_default_name`] does with
    /// the struct's name in snake case for the default name.
    pub fn complete_with_struct_body(&mut self, ast: &DeriveInput) -> (r: Result<
        TableMetadata,
        SyndecodeError,
    >)
        requires
            fields_well_formed(ast.fields@),
        ensures
            (final(self)@, table_result_view(r)) == completed(
                old(self)@,
                snake_case(ast.ident@),
                ast.fields@,
            ),
    {
        let model_lowercased = to_snake_case(&ast.ident.name);
        self.complete_with_default_name(model_lowercased, &ast.fields)
    }
}

impl TableMetadata {
    /// The metadata of the table that the struct describes, where
    /// `default_name` is the table's name unless an attribute gives one. Fails
    /// where a field cannot be read as a column, and where no column is the
    /// primary key.
    pub fn try_from_with_default_name(ast: &DeriveInput, default_name: String) -> (r: Result<
        TableMetadata,
        SyndecodeError,
    >)
        requires
            fields_well_formed(ast.fields@),
        ensures
            table_result_view(r) == table_with_default_name(*ast, default_name@),
    {
        let mut builder = match TableMetadata::builder_from_struct_attributes(ast) {
            Ok(builder) => builder,
            Err(e) => {
                return Err(e);
            },
        };
        let result = builder.complete_with_default_name(default_name, &ast.fields);
        require_primary_key(result)
    }

    /// The metadata of the table that the struct describes. Unless an
    /// attribute names the table, its name is the struct's name in snake case.
    /// Fails where a field cannot be read as a column, and where no column is
    /// the primary key.
    pub fn try_from(ast: &DeriveInput) -> (r: Result<TableMetadata, SyndecodeError>)
        requires
            fields_well_formed(ast.fields@),
        ensures
            table_result_view(r) == table_of(*ast),
    {
        let model_lowercased = to_snake_case(&ast.ident.name);
        TableMetadata::try_from_with_default_name(ast, model_lowercased)
    }
}

/// A table without a primary key is an error; anything else is handed on.
fn require_primary_key(result: Result<TableMetadata, SyndecodeError>) -> (r: Result<
    TableMetadata,
    SyndecodeError,
>)
    ensures
        table_result_view(r) == match table_result_view(result) {
            Ok(t) => if t.primary_key is None {
                Err(SyndecodeErrorView::MissingPrimaryKey { table_name: t.table_name })
            } else {
                Ok(t)
            },
            Err(e) => Err(e),
        },
{
    match result {
        Ok(meta) => {
            if meta.primary_key.is_none() {
                Err(SyndecodeError::MissingPrimaryKey { table_name: meta.table_name })
            } else {
                Ok(meta)
            }
        },
        Err(e) => Err(e),
    }
}

/// Where the primary key is settled, its column is the first that is marked,
/// or, with no column marked, the first that has the name of a primary key;
/// where it is not, no column is marked or so named.
pub proof fn lemma_primary_key_index(columns: Seq<ColumnMetadataView>, table_name: Seq<char>)
    ensures
        match primary_key_index(columns, table_name) {
            Some(i) => {
                ||| first_marked_at(columns, i) && inferred_key_index(columns, table_name) is None
                ||| {
                    &&& first_named_at(columns, table_name, i)
                    &&& inferred_key_index(columns, table_name) == Some(i)
                    &&& forall|j: int|
                        0 <= j < columns.len() ==> !(#[trigger] columns[j]).marked_primary_key
                }
            },
            None => forall|j: int|
                0 <= j < columns.len() ==> {
                    &&& !(#[trigger] columns[j]).marked_primary_key
                    &&& !is_primary_key_name(columns[j].column_name, table_name)
                },
        },
{
    if !(exists|i: int| first_marked_at(columns, i)) {
        assert forall|j: int| 0 <= j < columns.len() implies !(
        #[trigger] columns[j]).marked_primary_key by {
            if columns[j].marked_primary_key {
                lemma_first_marked_exists(columns, j);
            }
        }
        if !(exists|i: int| first_named_at(columns, table_name, i)) {
            assert forall|j: int| 0 <= j < columns.len() implies !is_primary_key_name(
                (#[trigger] columns[j]).column_name,
                table_name,
            ) by {
                if is_primary_key_name(columns[j].column_name, table_name) {
                    lemma_first_named_exists(columns, table_name, j);
                }
            }
        }
    }
}

/// Where a column is marked as the primary key, there is a first such column.
pub proof fn lemma_first_marked_exists(columns: Seq<ColumnMetadataView>, at: int)
    requires
        0 <= at < columns.len(),
        columns[at].marked_primary_key,
    ensures
        exists|i: int| first_marked_at(columns, i),
    decreases at,
{
    if exists|j: int| 0 <= j < at && (#[trigger] columns[j]).marked_primary_key {
        let j = choose|j: int| 0 <= j < at && (#[trigger] columns[j]).marked_primary_key;
        lemma_first_marked_exists(columns, j);
    } else {
        assert(first_marked_at(columns, at));
    }
}

/// Where a column has the name of a primary key, there is a first such column.
pub proof fn lemma_first_named_exists(
    columns: Seq<ColumnMetadataView>,
    table_name: Seq<char>,
    at: int,
)
    requires
        0 <= at < columns.len(),
        is_primary_key_name(columns[at].column_name, table_name),
    ensures
        exists|i: int| first_named_at(columns, table_name, i),
    decreases at,
{
    if exists|j: int|
        0 <= j < at && is_primary_key_name((#[trigger] columns[j]).column_name, table_name) {
        let j = choose|j: int|
            0 <= j < at && is_primary_key_name((#[trigger] columns[j]).column_name, table_name);
        lemma_first_named_exists(columns, table_name, j);
    } else {
        assert(first_named_at(columns, table_name, at));
    }
}

/// The columns are those of the fields, one for one and in the same order;
/// an error is that of the first field that cannot be read, which is a join
/// without a directive.
pub proof fn lemma_columns_of(fields: Seq<Field>)
    ensures
        match columns_of(fields) {
            Ok(columns) => {
                &&& columns.len() == fields.len()
                &&& forall|i: int|
                    0 <= i < fields.len() ==> column_of(#[trigger] fields[i]) == Ok::<
                        ColumnMetadataView,
                        SyndecodeErrorView,
                    >(columns[i])
            },
            Err(e) => exists|i: int|
                fails_first_at(fields, i) && e == (SyndecodeErrorView::JoinMissingDirective {
                    column: fields[i].ident@,
                }),
        },
{
    if exists|i: int| fails_first_at(fields, i) {
        let i = choose|i: int| fails_first_at(fields, i);
        assert(fails_first_at(fields, i) && columns_of(fields)->Err_0 == (
        SyndecodeErrorView::JoinMissingDirective { column: fields[i].ident@ }));
    } else {
        assert forall|i: int| 0 <= i < fields.len() implies column_of(#[trigger] fields[i])
            is Ok by {
            if column_of(fields[i]) is Err {
                lemma_first_failure_exists(fields, i);
            }
        }
    }
}

/// Where a field cannot be read as a column, there is a first such field.
pub proof fn lemma_first_failure_exists(fields: Seq<Field>, at: int)
    requires
        0 <= at < fields.len(),
        column_of(fields[at]) is Err,
    ensures
        exists|i: int| fails_first_at(fields, i),
    decreases at,
{
    if exists|j: int| 0 <= j < at && column_of(#[trigger] fields[j]) is Err {
        let j = choose|j: int| 0 <= j < at && column_of(#[trigger] fields[j]) is Err;
        lemma_first_failure_exists(fields, j);
    } else {
        assert(fails_first_at(fields, at));
    }
}

/// Where each field whose type is a join has an attribute that says how the
/// join is made, the table has a primary key, or there is none to be had and
/// the error says so.
pub proof fn lemma_primary_key_or_missing(ast: DeriveInput, default_name: Seq<char>)
    requires
        forall|i: int|
            0 <= i < ast.fields@.len() && is_join_type((#[trigger] ast.fields@[i]).ty@)
                ==> says_how_to_join(ast.fields@[i].attrs@),
    ensures
        match table_with_default_name(ast, default_name) {
            Ok(t) => t.primary_key is Some,
            Err(e) => e == (SyndecodeErrorView::MissingPrimaryKey {
                table_name: resolved_table_name(ast.attrs@, default_name),
            }),
        },
{
    let fields = ast.fields@;
    lemma_columns_of(fields);
    if columns_of(fields) is Err {
        let i = choose|i: int| fails_first_at(fields, i);
        lemma_join_directives_given(fields[i].ident@, fields[i].ty@, fields[i].attrs@);
    }
}

/// The table has one column for each field, in the order of the fields: each
/// is the column that its field is read as, but that the column chosen as the
/// primary key for its name takes its value from the database.
pub proof fn lemma_columns_follow_fields(ast: DeriveInput, default_name: Seq<char>)
    ensures
        table_with_default_name(ast, default_name) matches Ok(t) ==> {
            &&& t.columns.len() == ast.fields@.len()
            &&& forall|i: int|
                0 <= i < ast.fields@.len() ==> {
                    &&& column_of(#[trigger] ast.fields@[i]) is Ok
                    &&& t.columns[i].column_name == ast.fields@[i].ident@
                    &&& t.columns[i] == (ColumnMetadataView {
                        has_database_default: t.columns[i].has_database_default,
                        ..column_of(ast.fields@[i])->Ok_0
                    })
                }
        },
{
    lemma_columns_of(ast.fields@);
    if columns_of(ast.fields@) is Ok {
        lemma_primary_key_index(
            columns_of(ast.fields@)->Ok_0,
            resolved_table_name(ast.attrs@, default_name),
        );
    }
}

/// Where no attribute names the table, its name is the struct's name in snake
/// case, in the table and in the error that no column is the primary key.
pub proof fn lemma_default_table_name(ast: DeriveInput)
    requires
        forall|i: int| 0 <= i < ast.attrs@.len() ==> (#[trigger] ast.attrs@[i]).table is None,
    ensures
        match table_of(ast) {
            Ok(t) => t.table_name == snake_case(ast.ident@),
            Err(SyndecodeErrorView::MissingPrimaryKey { table_name }) => table_name == snake_case(
                ast.ident@,
            ),
            Err(_) => true,
        },
{
    let tables = ast.attrs@.map_values(|a: ModelAttributes| a.table);
    lemma_last_set_is_given(tables);
    if last_set(tables) is Some {
        let i = choose|i: int| 0 <= i < tables.len() && (#[trigger] tables[i]) is Some;
        assert(ast.attrs@[i].table is Some);
    }
}

impl TableMetadataView {
    /// Whether the column at `i` is the primary key of the table, by its name
    /// and by right: it is the first column that is marked, or, where none is
    /// marked, the first that has the name of a primary key under the table's
    /// name.
    pub open spec fn primary_key_at(self, i: int) -> bool {
        &&& 0 <= i < self.columns.len()
        &&& self.primary_key == Some(self.columns[i].column_name)
        &&& {
            ||| first_marked_at(self.columns, i)
            ||| {
                &&& first_named_at(self.columns, self.table_name, i)
                &&& forall|j: int|
                    0 <= j < self.columns.len() ==> !(
                    #[trigger] self.columns[j]).marked_primary_key
            }
        }
    }
}

/// The primary key of the table is the name of one of its columns: of the
/// first that is marked, or, where none is marked, of the first that has the
/// name of a primary key. Either way that column takes its value from the
/// database.
pub proof fn lemma_primary_key_names_a_column(ast: DeriveInput, default_name: Seq<char>)
    ensures
        table_with_default_name(ast, default_name) matches Ok(t) ==> exists|i: int|
            t.primary_key_at(i) && t.columns[i].has_database_default,
{
    lemma_columns_of(ast.fields@);
    if table_with_default_name(ast, default_name) is Ok {
        let t = table_with_default_name(ast, default_name)->Ok_0;
        let columns = columns_of(ast.fields@)->Ok_0;
        lemma_primary_key_index(columns, t.table_name);
        lemma_marked_key_has_default(ast, default_name);
        let i = primary_key_index(columns, t.table_name)->0;
        if first_marked_at(columns, i) {
            assert(first_marked_at(t.columns, i));
        } else {
            assert(first_named_at(t.columns, t.table_name, i));
            assert forall|j: int| 0 <= j < t.columns.len() implies !(
            #[trigger] t.columns[j]).marked_primary_key by {
                assert(!columns[j].marked_primary_key);
            }
        }
        assert(t.primary_key_at(i) && t.columns[i].has_database_default);
    }
}

/// Where no column of the table is marked as the primary key, the primary key
/// is the first column that has the name of one, and that column takes its
/// value from the database.
pub proof fn lemma_inferred_key_has_default(ast: DeriveInput, default_name: Seq<char>)
    ensures
        table_with_default_name(ast, default_name) matches Ok(t) ==> {
            ||| exists|i: int|
                0 <= i < t.columns.len() && (#[trigger] t.columns[i]).marked_primary_key
            ||| exists|i: int|
                {
                    &&& #[trigger] first_named_at(t.columns, t.table_name, i)
                    &&& t.primary_key == Some(t.columns[i].column_name)
                    &&& t.columns[i].has_database_default
                }
        },
{
    lemma_primary_key_names_a_column(ast, default_name);
    if table_with_default_name(ast, default_name) is Ok {
        let t = table_with_default_name(ast, default_name)->Ok_0;
        let i = choose|i: int| t.primary_key_at(i) && t.columns[i].has_database_default;
        if first_marked_at(t.columns, i) {
            assert(t.columns[i].marked_primary_key);
        } else {
            assert(first_named_at(t.columns, t.table_name, i));
        }
    }
}

/// A field whose type is no join, and none of whose attributes says how a
/// join is made, gives a column of the table with none of the three join
/// fields set.
pub proof fn lemma_plain_fields_have_no_join(ast: DeriveInput, default_name: Seq<char>, i: int)
    requires
        0 <= i < ast.fields@.len(),
        !is_join_type(ast.fields@[i].ty@),
        !says_how_to_join(ast.fields@[i].attrs@),
    ensures
        table_with_default_name(ast, default_name) matches Ok(t) ==> {
            &&& t.columns[i].many_to_one_key is None
            &&& t.columns[i].many_to_many_table_name is None
            &&& t.columns[i].one_to_many_foreign_key is None
        },
{
    lemma_columns_follow_fields(ast, default_name);
    lemma_plain_column_has_no_join(ast.fields@[i]);
}

/// A field whose type is a join, and whose attributes give at most one of the
/// three ways to make a join, gives a column of the table with exactly one of
/// the three join fields set; where they give none, there is no table, and
/// the error is that of a join without a directive.
pub proof fn lemma_join_fields_have_one_directive(
    ast: DeriveInput,
    default_name: Seq<char>,
    i: int,
)
    requires
        0 <= i < ast.fields@.len(),
        is_join_type(ast.fields@[i].ty@),
        join_directives_given(ast.fields@[i].attrs@) <= 1,
    ensures
        table_with_default_name(ast, default_name) matches Ok(t) ==> t.columns[i].join_fields_set()
            == 1,
        !says_how_to_join(ast.fields@[i].attrs@) ==> (table_with_default_name(ast, default_name)
            matches Err(e) && e is JoinMissingDirective),
{
    lemma_columns_follow_fields(ast, default_name);
    lemma_columns_of(ast.fields@);
    lemma_join_column_has_one_directive(ast.fields@[i]);
    lemma_join_directives_given(ast.fields@[i].ident@, ast.fields@[i].ty@, ast.fields@[i].attrs@);
}

/// Each column of the table that is marked as the primary key takes its value
/// from the database.
pub proof fn lemma_marked_key_has_default(ast: DeriveInput, default_name: Seq<char>)
    ensures
        table_with_default_name(ast, default_name) matches Ok(t) ==> forall|i: int|
            0 <= i < t.columns.len() && (#[trigger] t.columns[i]).marked_primary_key
                ==> t.columns[i].has_database_default,
{
    lemma_columns_follow_fields(ast, default_name);
    if table_with_default_name(ast, default_name) is Ok {
        let t = table_with_default_name(ast, default_name)->Ok_0;
        let columns = columns_of(ast.fields@)->Ok_0;
        lemma_columns_of(ast.fields@);
        assert forall|i: int|
            0 <= i < t.columns.len() && (#[trigger] t.columns[i]).marked_primary_key implies
            t.columns[i].has_database_default by {
            lemma_marked_column_has_default(ast.fields@[i]);
            assert(column_of(ast.fields@[i]) is Ok);
        }
    }
}

} // verus!

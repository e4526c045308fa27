//! The metadata of one column, and how it is read off a field.

use crate::error::{SyndecodeError, SyndecodeErrorView};
use crate::syntax::{
    ColumnAttributes, Field, GenericArgument, GenericArgumentView, Ident, Path, PathArguments,
    PathArgumentsView, PathView, Type, TypeView, argument_view, arguments_view,
    path_view, type_view,
};
use vstd::prelude::*;

verus! {

/// All the metadata we can capture about a column.
#[derive(Debug)]
pub struct ColumnMetadata {
    pub column_name: String,
    pub column_type: Type,
    /// Only says whether the primary key is marked (with an attribute). The
    /// table's metadata says which column is the primary key.
    pub marked_primary_key: bool,
    pub has_database_default: bool,
    pub identifier: Ident,
    /// Only for joins.
    pub many_to_one_key: Option<Ident>,
    /// Only for joins.
    pub many_to_many_table_name: Option<Path>,
    /// Only for joins.
    pub one_to_many_foreign_key: Option<Path>,
}

/// The mathematical value of a [`ColumnMetadata`].
pub ghost struct ColumnMetadataView {
    pub column_name: Seq<char>,
    pub column_type: TypeView,
    pub marked_primary_key: bool,
    pub has_database_default: bool,
    pub identifier: Seq<char>,
    pub many_to_one_key: Option<Seq<char>>,
    pub many_to_many_table_name: Option<PathView>,
    pub one_to_many_foreign_key: Option<PathView>,
}

/// The value of an identifier that may be absent.
pub open spec fn ident_option_view(ident: Option<Ident>) -> Option<Seq<char>> {
    match ident {
        Some(i) => Some(i@),
        None => None,
    }
}

/// The value of a path that may be absent.
pub open spec fn path_option_view(path: Option<Path>) -> Option<PathView> {
    match path {
        Some(p) => Some(p@),
        None => None,
    }
}

impl View for ColumnMetadata {
    type V = ColumnMetadataView;

    open spec fn view(&self) -> ColumnMetadataView {
        ColumnMetadataView {
            column_name: self.column_name@,
            column_type: self.column_type@,
            marked_primary_key: self.marked_primary_key,
            has_database_default: self.has_database_default,
            identifier: self.identifier@,
            many_to_one_key: ident_option_view(self.many_to_one_key),
            many_to_many_table_name: path_option_view(self.many_to_many_table_name),
            one_to_many_foreign_key: path_option_view(self.one_to_many_foreign_key),
        }
    }
}

/// Whether a type is a join: a path whose last segment is named `Join`,
/// whatever stands before that segment or between its angle brackets.
pub open spec fn is_join_type(ty: TypeView) -> bool {
    match ty {
        TypeView::Path(p) => p.segments.len() > 0 && p.segments.last().ident == "Join"@,
        TypeView::Other(_) => false,
    }
}

/// The name of the struct that a join type joins to: the last segment of the
/// path that is the last argument between the angle brackets of `Join`. `None`
/// where the type is no join, or is not of that shape.
pub open spec fn joined_struct_name(ty: TypeView) -> Option<Seq<char>> {
    if !is_join_type(ty) {
        None
    } else {
        match ty->Path_0.segments.last().arguments {
            PathArgumentsView::AngleBracketed(args) => if args.len() > 0 {
                match args.last() {
                    GenericArgumentView::Type(TypeView::Path(inner)) => if inner.segments.len()
                        > 0 {
                        Some(inner.segments.last().ident)
                    } else {
                        None
                    },
                    _ => None,
                }
            } else {
                None
            },
            _ => None,
        }
    }
}

/// Decides [`is_join_type`].
pub fn ty_is_join(ty: &Type) -> (r: bool)
    ensures
        r == is_join_type(ty@),
{
    match ty {
        Type::Path(p) => {
            let n = p.segments.len();
            if n == 0 {
                false
            } else {
                p.segments[n - 1].ident.name == String::from_str("Join")
            }
        },
        Type::Other(_) => false,
    }
}

impl ColumnMetadata {
    /// Whether the column's type is a join.
    pub fn is_join(&self) -> (r: bool)
        ensures
            r == is_join_type(self@.column_type),
    {
        ty_is_join(&self.column_type)
    }

    /// The name of the struct that the column joins to, where its type is a
    /// join of the expected shape.
    pub fn joined_struct(&self) -> (r: Option<Ident>)
        ensures
            ident_option_view(r) == joined_struct_name(self@.column_type),
    {
        proof {
            reveal_with_fuel(type_view, 2);
            reveal_with_fuel(path_view, 2);
        }
        if !self.is_join() {
            return None;
        }
        let Type::Path(path) = &self.column_type else {
            return None;
        };
        let n = path.segments.len();
        if n == 0 {
            return None;
        }
        let PathArguments::AngleBracketed(args) = &path.segments[n - 1].arguments else {
            return None;
        };
        let m = args.len();
        if m == 0 {
            return None;
        }
        assert(arguments_view(path.segments@[n - 1].arguments)->AngleBracketed_0.last()
            == argument_view(args@[m - 1]));
        let GenericArgument::Type(Type::Path(inner)) = &args[m - 1] else {
            return None;
        };
        let k = inner.segments.len();
        if k == 0 {
            return None;
        }
        assert(path_view(*inner).segments.last().ident == inner.segments@[k - 1].ident@);
        Some(inner.segments[k - 1].ident.clone())
    }
}

impl Clone for ColumnMetadata {
    fn clone(&self) -> (r: ColumnMetadata)
        ensures
            r@ == self@,
    {
        ColumnMetadata {
            column_name: self.column_name.clone(),
            column_type: self.column_type.clone(),
            marked_primary_key: self.marked_primary_key,
            has_database_default: self.has_database_default,
            identifier: self.identifier.clone(),
            many_to_one_key: clone_ident_option(&self.many_to_one_key),
            many_to_many_table_name: clone_path_option(&self.many_to_many_table_name),
            one_to_many_foreign_key: clone_path_option(&self.one_to_many_foreign_key),
        }
    }
}

/// Gathers the fields of a [`ColumnMetadata`] one by one. A field that was
/// never set is `None`.
#[derive(Debug)]
pub struct ColumnMetadataBuilder {
    pub column_name: Option<String>,
    pub column_type: Option<Type>,
    pub marked_primary_key: Option<bool>,
    pub has_database_default: Option<bool>,
    pub identifier: Option<Ident>,
    pub many_to_one_key: Option<Option<Ident>>,
    pub many_to_many_table_name: Option<Option<Path>>,
    pub one_to_many_foreign_key: Option<Option<Path>>,
}

impl Default for ColumnMetadataBuilder {
    fn default() -> (r: ColumnMetadataBuilder)
        ensures
            r == ColumnMetadataBuilder::unset(),
    {
        ColumnMetadataBuilder {
            column_name: None,
            column_type: None,
            marked_primary_key: None,
            has_database_default: None,
            identifier: None,
            many_to_one_key: None,
            many_to_many_table_name: None,
            one_to_many_foreign_key: None,
        }
    }
}

impl ColumnMetadata {
    /// A builder with no field set.
    pub fn builder() -> (r: ColumnMetadataBuilder)
        ensures
            r == ColumnMetadataBuilder::unset(),
    {
        ColumnMetadataBuilder::default()
    }
}

impl ColumnMetadataBuilder {
    /// The builder with no field set.
    pub open spec fn unset() -> ColumnMetadataBuilder {
        ColumnMetadataBuilder {
            column_name: None,
            column_type: None,
            marked_primary_key: None,
            has_database_default: None,
            identifier: None,
            many_to_one_key: None,
            many_to_many_table_name: None,
            one_to_many_foreign_key: None,
        }
    }

    /// The name of the first field, in the order of declaration, that is not
    /// set; `None` where all are.
    pub open spec fn first_unset(&self) -> Option<Seq<char>> {
        if self.column_name is None {
            Some("column_name"@)
        } else if self.column_type is None {
            Some("column_type"@)
        } else if self.marked_primary_key is None {
            Some("marked_primary_key"@)
        } else if self.has_database_default is None {
            Some("has_database_default"@)
        } else if self.identifier is None {
            Some("identifier"@)
        } else if self.many_to_one_key is None {
            Some("many_to_one_key"@)
        } else if self.many_to_many_table_name is None {
            Some("many_to_many_table_name"@)
        } else if self.one_to_many_foreign_key is None {
            Some("one_to_many_foreign_key"@)
        } else {
            None
        }
    }

    /// The column that the fields make up, once all are set.
    pub open spec fn built(&self) -> ColumnMetadataView
        recommends
            self.first_unset() is None,
    {
        ColumnMetadataView {
            column_name: self.column_name->0@,
            column_type: self.column_type->0@,
            marked_primary_key: self.marked_primary_key->0,
            has_database_default: self.has_database_default->0,
            identifier: self.identifier->0@,
            many_to_one_key: ident_option_view(self.many_to_one_key->0),
            many_to_many_table_name: path_option_view(self.many_to_many_table_name->0),
            one_to_many_foreign_key: path_option_view(self.one_to_many_foreign_key->0),
        }
    }

    /// What [`ColumnMetadataBuilder::build`] returns: the column, or the first
    /// field that is missing.
    pub open spec fn build_result(&self) -> Result<ColumnMetadataView, SyndecodeErrorView> {
        match self.first_unset() {
            Some(field) => Err(SyndecodeErrorView::BuilderIncomplete { field }),
            None => Ok(self.built()),
        }
    }

    pub fn column_name(&mut self, value: String)
        ensures
            *final(self) == (ColumnMetadataBuilder { column_name: Some(value), ..*old(self) }),
    {
        self.column_name = Some(value);
    }

    pub fn column_type(&mut self, value: Type)
        ensures
            *final(self) == (ColumnMetadataBuilder { column_type: Some(value), ..*old(self) }),
    {
        self.column_type = Some(value);
    }

    pub fn marked_primary_key(&mut self, value: bool)
        ensures
            *final(self) == (ColumnMetadataBuilder {
                marked_primary_key: Some(value),
                ..*old(self)
            }),
    {
        self.marked_primary_key = Some(value);
    }

    pub fn has_database_default(&mut self, value: bool)
        ensures
            *final(self) == (ColumnMetadataBuilder {
                has_database_default: Some(value),
                ..*old(self)
            }),
    {
        self.has_database_default = Some(value);
    }

    pub fn identifier(&mut self, value: Ident)
        ensures
            *final(self) == (ColumnMetadataBuilder { identifier: Some(value), ..*old(self) }),
    {
        self.identifier = Some(value);
    }

    pub fn many_to_one_key(&mut self, value: Option<Ident>)
        ensures
            *final(self) == (ColumnMetadataBuilder { many_to_one_key: Some(value), ..*old(self) }),
    {
        self.many_to_one_key = Some(value);
    }

    pub fn many_to_many_table_name(&mut self, value: Option<Path>)
        ensures
            *final(self) == (ColumnMetadataBuilder {
                many_to_many_table_name: Some(value),
                ..*old(self)
            }),
    {
        self.many_to_many_table_name = Some(value);
    }

    pub fn one_to_many_foreign_key(&mut self, value: Option<Path>)
        ensures
            *final(self) == (ColumnMetadataBuilder {
                one_to_many_foreign_key: Some(value),
                ..*old(self)
            }),
    {
        self.one_to_many_foreign_key = Some(value);
    }

    /// The column, where every field is set; else the error that names the
    /// first field that is not.
    pub fn build(&self) -> (r: Result<ColumnMetadata, SyndecodeError>)
        ensures
            column_result_view(r) == self.build_result(),
    {
        let Some(column_name) = &self.column_name else {
            return Err(incomplete("column_name"));
        };
        let Some(column_type) = &self.column_type else {
            return Err(incomplete("column_type"));
        };
        let Some(marked_primary_key) = self.marked_primary_key else {
            return Err(incomplete("marked_primary_key"));
        };
        let Some(has_database_default) = self.has_database_default else {
            return Err(incomplete("has_database_default"));
        };
        let Some(identifier) = &self.identifier else {
            return Err(incomplete("identifier"));
        };
        let Some(many_to_one_key) = &self.many_to_one_key else {
            return Err(incomplete("many_to_one_key"));
        };
        let Some(many_to_many_table_name) = &self.many_to_many_table_name else {
            return Err(incomplete("many_to_many_table_name"));
        };
        let Some(one_to_many_foreign_key) = &self.one_to_many_foreign_key else {
            return Err(incomplete("one_to_many_foreign_key"));
        };
        Ok(
            ColumnMetadata {
                column_name: column_name.clone(),
                column_type: column_type.clone(),
                marked_primary_key,
                has_database_default,
                identifier: identifier.clone(),
                many_to_one_key: clone_ident_option(many_to_one_key),
                many_to_many_table_name: clone_path_option(many_to_many_table_name),
                one_to_many_foreign_key: clone_path_option(one_to_many_foreign_key),
            },
        )
    }
}

/// The last of the values that is set: where an option is given more than
/// once, the later value replaces the earlier.
pub open spec fn last_set<T>(values: Seq<Option<T>>) -> Option<T>
    decreases values.len(),
{
    if values.len() == 0 {
        None
    } else if values.last() is Some {
        values.last()
    } else {
        last_set(values.drop_last())
    }
}

/// Whether one of the attributes marks the primary key.
pub open spec fn marks_primary_key(attrs: Seq<ColumnAttributes>) -> bool {
    exists|i: int| 0 <= i < attrs.len() && (#[trigger] attrs[i]).primary_key
}

/// Whether one of the attributes says that the database supplies a value:
/// `default`, or `primary_key`, which says so too.
pub open spec fn gives_database_default(attrs: Seq<ColumnAttributes>) -> bool {
    exists|i: int| 0 <= i < attrs.len() && ((#[trigger] attrs[i]).primary_key || attrs[i].default)
}

/// The path that the attributes give for `many_to_one_key`.
pub open spec fn given_many_to_one_key(attrs: Seq<ColumnAttributes>) -> Option<Path> {
    last_set(attrs.map_values(|a: ColumnAttributes| a.many_to_one_key))
}

/// The path that the attributes give for `many_to_many_table_name`.
pub open spec fn given_many_to_many_table_name(attrs: Seq<ColumnAttributes>) -> Option<Path> {
    last_set(attrs.map_values(|a: ColumnAttributes| a.many_to_many_table_name))
}

/// The path that the attributes give for `one_to_many_foreign_key`.
pub open spec fn given_one_to_many_foreign_key(attrs: Seq<ColumnAttributes>) -> Option<Path> {
    last_set(attrs.map_values(|a: ColumnAttributes| a.one_to_many_foreign_key))
}

/// The identifier of a path's last segment, of a path that may be absent.
pub open spec fn last_ident(path: Option<Path>) -> Option<Seq<char>> {
    match path {
        Some(p) => Some(p@.segments.last().ident),
        None => None,
    }
}

/// Each path given for `many_to_one_key` has a segment.
pub open spec fn keys_have_segments(attrs: Seq<ColumnAttributes>) -> bool {
    forall|i: int|
        0 <= i < attrs.len() ==> match (#[trigger] attrs[i]).many_to_one_key {
            Some(p) => p.segments@.len() > 0,
            None => true,
        }
}

/// Decides [`keys_have_segments`].
pub fn check_keys(attrs: &Vec<ColumnAttributes>) -> (r: bool)
    ensures
        r == keys_have_segments(attrs@),
{
    let mut i: usize = 0;
    while i < attrs.len()
        invariant
            i <= attrs@.len(),
            forall|j: int|
                0 <= j < i ==> match (#[trigger] attrs@[j]).many_to_one_key {
                    Some(p) => p.segments@.len() > 0,
                    None => true,
                },
        decreases attrs@.len() - i,
    {
        if let Some(p) = &attrs[i].many_to_one_key {
            if p.segments.len() == 0 {
                return false;
            }
        }
        i = i + 1;
    }
    true
}

/// The column that a field's name, its type and a sequence of attributes
/// describe.
pub open spec fn described_column(
    ident: Seq<char>,
    ty: TypeView,
    attrs: Seq<ColumnAttributes>,
) -> ColumnMetadataView {
    ColumnMetadataView {
        column_name: ident,
        column_type: ty,
        marked_primary_key: marks_primary_key(attrs),
        has_database_default: gives_database_default(attrs),
        identifier: ident,
        many_to_one_key: last_ident(given_many_to_one_key(attrs)),
        many_to_many_table_name: path_option_view(given_many_to_many_table_name(attrs)),
        one_to_many_foreign_key: path_option_view(given_one_to_many_foreign_key(attrs)),
    }
}

impl ColumnMetadataView {
    /// Whether the column says how a join is made.
    pub open spec fn has_join_directive(self) -> bool {
        ||| self.many_to_one_key is Some
        ||| self.many_to_many_table_name is Some
        ||| self.one_to_many_foreign_key is Some
    }
}

/// What reading a field gives: the column it describes, or an error where its
/// type is a join and no attribute says how the join is made.
pub open spec fn column_of(f: Field) -> Result<ColumnMetadataView, SyndecodeErrorView> {
    let column = described_column(f.ident@, f.ty@, f.attrs@);
    if is_join_type(f.ty@) && !column.has_join_directive() {
        Err(SyndecodeErrorView::JoinMissingDirective { column: f.ident@ })
    } else {
        Ok(column)
    }
}

/// Giving one more value leaves the last one set, unless the new one is set.
pub proof fn lemma_last_set_push<T>(values: Seq<Option<T>>, value: Option<T>)
    ensures
        last_set(values.push(value)) == if value is Some {
            value
        } else {
            last_set(values)
        },
{
    assert(values.push(value).drop_last() =~= values);
}

/// A value is set at last exactly where one of the values is set.
pub proof fn lemma_last_set_is_given<T>(values: Seq<Option<T>>)
    ensures
        last_set(values) is Some <==> exists|i: int|
            0 <= i < values.len() && (#[trigger] values[i]) is Some,
    decreases values.len(),
{
    if values.len() > 0 {
        let front = values.drop_last();
        lemma_last_set_is_given(front);
        if values.last() is Some {
            assert(values[values.len() - 1] is Some);
        } else if last_set(front) is Some {
            let i = choose|i: int| 0 <= i < front.len() && (#[trigger] front[i]) is Some;
            assert(values[i] is Some);
        } else if exists|i: int| 0 <= i < values.len() && (#[trigger] values[i]) is Some {
            let i = choose|i: int| 0 <= i < values.len() && (#[trigger] values[i]) is Some;
            assert(front[i] is Some);
        }
    }
}

/// Whether one of the attributes says how a join is made, in any of the
/// three ways.
pub open spec fn says_how_to_join(attrs: Seq<ColumnAttributes>) -> bool {
    exists|i: int|
        0 <= i < attrs.len() && {
            ||| (#[trigger] attrs[i]).many_to_one_key is Some
            ||| attrs[i].many_to_many_table_name is Some
            ||| attrs[i].one_to_many_foreign_key is Some
        }
}

/// How many of the three ways to make a join the attributes give.
pub open spec fn join_directives_given(attrs: Seq<ColumnAttributes>) -> nat {
    let a: nat = if given_many_to_one_key(attrs) is Some { 1 } else { 0 };
    let b: nat = if given_many_to_many_table_name(attrs) is Some { 1 } else { 0 };
    let c: nat = if given_one_to_many_foreign_key(attrs) is Some { 1 } else { 0 };
    a + b + c
}

impl ColumnMetadataView {
    /// How many of the three join fields are set.
    pub open spec fn join_fields_set(self) -> nat {
        let a: nat = if self.many_to_one_key is Some { 1 } else { 0 };
        let b: nat = if self.many_to_many_table_name is Some { 1 } else { 0 };
        let c: nat = if self.one_to_many_foreign_key is Some { 1 } else { 0 };
        a + b + c
    }
}

/// A column that is marked as the primary key takes its value from the
/// database.
pub proof fn lemma_marked_column_has_default(f: Field)
    ensures
        described_column(f.ident@, f.ty@, f.attrs@).marked_primary_key ==> described_column(
            f.ident@,
            f.ty@,
            f.attrs@,
        ).has_database_default,
        column_of(f) matches Ok(c) ==> (c.marked_primary_key ==> c.has_database_default),
{
    let attrs = f.attrs@;
    if marks_primary_key(attrs) {
        let i = choose|i: int| 0 <= i < attrs.len() && (#[trigger] attrs[i]).primary_key;
        assert(attrs[i].primary_key || attrs[i].default);
    }
}

/// The attributes give one of the three ways to make a join exactly where
/// one of them says how a join is made, and the column they describe has as
/// many join fields set as they give ways.
pub proof fn lemma_join_directives_given(ident: Seq<char>, ty: TypeView, attrs: Seq<ColumnAttributes>)
    ensures
        says_how_to_join(attrs) <==> join_directives_given(attrs) >= 1,
        described_column(ident, ty, attrs).join_fields_set() == join_directives_given(attrs),
        described_column(ident, ty, attrs).has_join_directive() == says_how_to_join(attrs),
{
    let keys = attrs.map_values(|a: ColumnAttributes| a.many_to_one_key);
    let tables = attrs.map_values(|a: ColumnAttributes| a.many_to_many_table_name);
    let foreign = attrs.map_values(|a: ColumnAttributes| a.one_to_many_foreign_key);
    lemma_last_set_is_given(keys);
    lemma_last_set_is_given(tables);
    lemma_last_set_is_given(foreign);
    if says_how_to_join(attrs) {
        let i = choose|i: int|
            0 <= i < attrs.len() && {
                ||| (#[trigger] attrs[i]).many_to_one_key is Some
                ||| attrs[i].many_to_many_table_name is Some
                ||| attrs[i].one_to_many_foreign_key is Some
            };
        assert(keys[i] is Some || tables[i] is Some || foreign[i] is Some);
    }
    if last_set(keys) is Some {
        let i = choose|i: int| 0 <= i < keys.len() && (#[trigger] keys[i]) is Some;
        assert(attrs[i].many_to_one_key is Some);
    }
    if last_set(tables) is Some {
        let i = choose|i: int| 0 <= i < tables.len() && (#[trigger] tables[i]) is Some;
        assert(attrs[i].many_to_many_table_name is Some);
    }
    if last_set(foreign) is Some {
        let i = choose|i: int| 0 <= i < foreign.len() && (#[trigger] foreign[i]) is Some;
        assert(attrs[i].one_to_many_foreign_key is Some);
    }
}

/// A field whose type is no join, and none of whose attributes says how a
/// join is made, is read as a column with none of the three join fields set.
pub proof fn lemma_plain_column_has_no_join(f: Field)
    requires
        !is_join_type(f.ty@),
        !says_how_to_join(f.attrs@),
    ensures
        column_of(f) matches Ok(c) && c.many_to_one_key is None && c.many_to_many_table_name
            is None && c.one_to_many_foreign_key is None,
{
    lemma_join_directives_given(f.ident@, f.ty@, f.attrs@);
}

/// A field whose type is a join, and whose attributes give at most one of the
/// three ways to make a join, is read as a column with exactly one of the
/// three join fields set, or is refused for want of any.
pub proof fn lemma_join_column_has_one_directive(f: Field)
    requires
        is_join_type(f.ty@),
        join_directives_given(f.attrs@) <= 1,
    ensures
        match column_of(f) {
            Ok(c) => c.join_fields_set() == 1,
            Err(e) => !says_how_to_join(f.attrs@) && e == (
            SyndecodeErrorView::JoinMissingDirective { column: f.ident@ }),
        },
{
    lemma_join_directives_given(f.ident@, f.ty@, f.attrs@);
}

proof fn lemma_attrs_step(attrs: Seq<ColumnAttributes>, i: int)
    requires
        0 <= i < attrs.len(),
    ensures
        marks_primary_key(attrs.take(i + 1)) == (marks_primary_key(attrs.take(i))
            || attrs[i].primary_key),
        gives_database_default(attrs.take(i + 1)) == (gives_database_default(attrs.take(i))
            || attrs[i].primary_key || attrs[i].default),
        given_many_to_one_key(attrs.take(i + 1)) == if attrs[i].many_to_one_key is Some {
            attrs[i].many_to_one_key
        } else {
            given_many_to_one_key(attrs.take(i))
        },
        given_many_to_many_table_name(attrs.take(i + 1))
            == if attrs[i].many_to_many_table_name is Some {
            attrs[i].many_to_many_table_name
        } else {
            given_many_to_many_table_name(attrs.take(i))
        },
        given_one_to_many_foreign_key(attrs.take(i + 1))
            == if attrs[i].one_to_many_foreign_key is Some {
            attrs[i].one_to_many_foreign_key
        } else {
            given_one_to_many_foreign_key(attrs.take(i))
        },
{
    let a = attrs.take(i);
    let b = attrs.take(i + 1);
    assert(b =~= a.push(attrs[i]));
    if marks_primary_key(b) {
        let j = choose|j: int| 0 <= j < b.len() && (#[trigger] b[j]).primary_key;
        if j < i {
            assert(a[j].primary_key);
        }
    }
    if marks_primary_key(a) {
        let j = choose|j: int| 0 <= j < a.len() && (#[trigger] a[j]).primary_key;
        assert(b[j].primary_key);
    }
    if gives_database_default(b) {
        let j = choose|j: int| 0 <= j < b.len() && ((#[trigger] b[j]).primary_key || b[j].default);
        if j < i {
            assert(a[j].primary_key || a[j].default);
        }
    }
    if gives_database_default(a) {
        let j = choose|j: int| 0 <= j < a.len() && ((#[trigger] a[j]).primary_key || a[j].default);
        assert(b[j].primary_key || b[j].default);
    }
    if attrs[i].primary_key || attrs[i].default {
        assert(b[i].primary_key || b[i].default);
    }
    let k1 = |c: ColumnAttributes| c.many_to_one_key;
    assert(b.map_values(k1) =~= a.map_values(k1).push(attrs[i].many_to_one_key));
    lemma_last_set_push(a.map_values(k1), attrs[i].many_to_one_key);
    let k2 = |c: ColumnAttributes| c.many_to_many_table_name;
    assert(b.map_values(k2) =~= a.map_values(k2).push(attrs[i].many_to_many_table_name));
    lemma_last_set_push(a.map_values(k2), attrs[i].many_to_many_table_name);
    let k3 = |c: ColumnAttributes| c.one_to_many_foreign_key;
    assert(b.map_values(k3) =~= a.map_values(k3).push(attrs[i].one_to_many_foreign_key));
    lemma_last_set_push(a.map_values(k3), attrs[i].one_to_many_foreign_key);
}

impl ColumnMetadata {
    /// Reads the metadata of a column off a field: its name and type, and what
    /// its attributes say, a later attribute replacing what an earlier one
    /// gave. Fails where the type is a join and no attribute says how the join
    /// is made.
    pub fn try_from(f: &Field) -> (r: Result<ColumnMetadata, SyndecodeError>)
        requires
            keys_have_segments(f.attrs@),
        ensures
            column_result_view(r) == column_of(*f),
    {
        let mut builder = ColumnMetadata::builder();
        builder.column_name(f.ident.name.clone());
        builder.identifier(f.ident.clone());
        builder.column_type(f.ty.clone());
        builder.marked_primary_key(false);
        builder.has_database_default(false);
        builder.many_to_one_key(None);
        builder.many_to_many_table_name(None);
        builder.one_to_many_foreign_key(None);
        let mut has_join_directive = false;
        let mut i: usize = 0;
        while i < f.attrs.len()
            invariant
                i <= f.attrs@.len(),
                keys_have_segments(f.attrs@),
                builder.first_unset() is None,
                builder.built() == described_column(f.ident@, f.ty@, f.attrs@.take(i as int)),
                has_join_directive == builder.built().has_join_directive(),
            decreases f.attrs@.len() - i,
        {
            proof {
                lemma_attrs_step(f.attrs@, i as int);
            }
            let args = &f.attrs[i];
            if args.primary_key {
                builder.marked_primary_key(true);
                builder.has_database_default(true);
            }
            if args.default {
                builder.has_database_default(true);
            }
            if let Some(value) = &args.many_to_one_key {
                let ident = value.segments[value.segments.len() - 1].ident.clone();
                builder.many_to_one_key(Some(ident));
                has_join_directive = true;
            }
            if let Some(value) = &args.many_to_many_table_name {
                builder.many_to_many_table_name(Some(value.clone()));
                has_join_directive = true;
            }
            if let Some(value) = &args.one_to_many_foreign_key {
                builder.one_to_many_foreign_key(Some(value.clone()));
                has_join_directive = true;
            }
            i = i + 1;
        }
        assert(f.attrs@.take(i as int) =~= f.attrs@);
        if ty_is_join(&f.ty) && !has_join_directive {
            return Err(SyndecodeError::JoinMissingDirective { column: f.ident.name.clone() });
        }
        builder.build()
    }
}

/// The value of what building or reading a column gives.
pub open spec fn column_result_view(r: Result<ColumnMetadata, SyndecodeError>) -> Result<
    ColumnMetadataView,
    SyndecodeErrorView,
> {
    match r {
        Ok(c) => Ok(c@),
        Err(e) => Err(e@),
    }
}

/// The error of a builder that lacks `field`.
pub(crate) fn incomplete(field: &str) -> (e: SyndecodeError)
    ensures
        e@ == (SyndecodeErrorView::BuilderIncomplete { field: field@ }),
{
    SyndecodeError::BuilderIncomplete { field: String::from_str(field) }
}

pub(crate) fn clone_ident_option(ident: &Option<Ident>) -> (r: Option<Ident>)
    ensures
        ident_option_view(r) == ident_option_view(*ident),
{
    match ident {
        Some(i) => Some(i.clone()),
        None => None,
    }
}

pub(crate) fn clone_path_option(path: &Option<Path>) -> (r: Option<Path>)
    ensures
        path_option_view(r) == path_option_view(*path),
{
    match path {
        Some(p) => Some(p.clone()),
        None => None,
    }
}

} // verus!

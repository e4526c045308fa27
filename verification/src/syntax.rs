//! The syntactic description of a struct that the metadata is extracted from.
//!
//! The types here hold, as plain values, what the extraction reads of a parsed
//! declaration: identifiers, the shape of type expressions and paths, and the
//! options of the attributes addressed to this crate.

use vstd::prelude::*;

verus! {

/// An identifier, by its text.
#[derive(Debug)]
pub struct Ident {
    pub name: String,
}

/// One argument between the angle brackets of a path segment.
#[derive(Debug)]
pub enum GenericArgument {
    /// A type argument, as in `Join<Customer>`.
    Type(Type),
    /// A lifetime, a constant, a binding or a constraint, as written.
    Other(String),
}

/// What follows the identifier of a path segment.
#[derive(Debug)]
pub enum PathArguments {
    /// Nothing, as in `String`.
    Absent,
    /// Arguments in angle brackets, as in `Vec<u8>`.
    AngleBracketed(Vec<GenericArgument>),
    /// Arguments in parentheses, as in `Fn(u8) -> u8`, as written.
    Parenthesized(String),
}

/// One segment of a path: an identifier and its arguments.
#[derive(Debug)]
pub struct PathSegment {
    pub ident: Ident,
    pub arguments: PathArguments,
}

/// A path such as `std::vec::Vec<u8>`, as the sequence of its segments.
#[derive(Debug)]
pub struct Path {
    pub segments: Vec<PathSegment>,
}

/// A type expression. Only the path shape is taken apart.
#[derive(Debug)]
pub enum Type {
    /// A path-shaped type, as in `i32` or `crate::Join<Customer>`.
    Path(Path),
    /// Any other type expression (a reference, a tuple, an array, ...), as written.
    Other(String),
}

/// The options of one attribute on a field.
#[derive(Debug)]
pub struct ColumnAttributes {
    /// The column is the primary key.
    pub primary_key: bool,
    /// The database supplies a value where an insert gives none.
    pub default: bool,
    /// The column of this table that holds the key of the joined row.
    pub many_to_one_key: Option<Path>,
    /// The table that joins the two sides of a many-to-many relation.
    pub many_to_many_table_name: Option<Path>,
    /// The column of the joined table that holds the key of this row.
    pub one_to_many_foreign_key: Option<Path>,
}

/// The options of one attribute on the struct itself.
#[derive(Debug)]
pub struct ModelAttributes {
    /// The name of the table.
    pub table: Option<String>,
    /// The name of the struct that holds what an insert takes.
    pub insertable: Option<Ident>,
}

/// A named field of the struct, with its attributes in the order written.
#[derive(Debug)]
pub struct Field {
    pub ident: Ident,
    pub ty: Type,
    pub attrs: Vec<ColumnAttributes>,
}

/// The struct: its name, its attributes and its fields, each in the order
/// written.
#[derive(Debug)]
pub struct DeriveInput {
    pub ident: Ident,
    pub attrs: Vec<ModelAttributes>,
    pub fields: Vec<Field>,
}

/// The mathematical value of a [`GenericArgument`].
pub ghost enum GenericArgumentView {
    Type(TypeView),
    Other(Seq<char>),
}

/// The mathematical value of a [`PathArguments`].
pub ghost enum PathArgumentsView {
    Absent,
    AngleBracketed(Seq<GenericArgumentView>),
    Parenthesized(Seq<char>),
}

/// The mathematical value of a [`PathSegment`].
pub ghost struct PathSegmentView {
    pub ident: Seq<char>,
    pub arguments: PathArgumentsView,
}

/// The mathematical value of a [`Path`].
pub ghost struct PathView {
    pub segments: Seq<PathSegmentView>,
}

/// The mathematical value of a [`Type`].
pub ghost enum TypeView {
    Path(PathView),
    Other(Seq<char>),
}

impl View for Ident {
    type V = Seq<char>;

    open spec fn view(&self) -> Seq<char> {
        self.name@
    }
}

/// The value of a type expression.
pub open spec fn type_view(ty: Type) -> TypeView
    decreases ty,
{
    match ty {
        Type::Path(p) => TypeView::Path(path_view(p)),
        Type::Other(s) => TypeView::Other(s@),
    }
}

/// The value of a path: the values of its segments, in order.
pub open spec fn path_view(p: Path) -> PathView
    decreases p,
{
    PathView {
        segments: Seq::new(
            p.segments@.len(),
            |i: int|
                if 0 <= i < p.segments@.len() {
                    segment_view(p.segments@[i])
                } else {
                    arbitrary()
                },
        ),
    }
}

/// The value of a path segment.
pub open spec fn segment_view(s: PathSegment) -> PathSegmentView
    decreases s,
{
    PathSegmentView { ident: s.ident@, arguments: arguments_view(s.arguments) }
}

/// The value of the arguments of a path segment.
pub open spec fn arguments_view(a: PathArguments) -> PathArgumentsView
    decreases a,
{
    match a {
        PathArguments::Absent => PathArgumentsView::Absent,
        PathArguments::AngleBracketed(args) => PathArgumentsView::AngleBracketed(
            Seq::new(
                args@.len(),
                |i: int|
                    if 0 <= i < args@.len() {
                        argument_view(args@[i])
                    } else {
                        arbitrary()
                    },
            ),
        ),
        PathArguments::Parenthesized(s) => PathArgumentsView::Parenthesized(s@),
    }
}

/// The value of one argument between angle brackets.
pub open spec fn argument_view(a: GenericArgument) -> GenericArgumentView
    decreases a,
{
    match a {
        GenericArgument::Type(ty) => GenericArgumentView::Type(type_view(ty)),
        GenericArgument::Other(s) => GenericArgumentView::Other(s@),
    }
}

impl View for Type {
    type V = TypeView;

    open spec fn view(&self) -> TypeView {
        type_view(*self)
    }
}

impl View for Path {
    type V = PathView;

    open spec fn view(&self) -> PathView {
        path_view(*self)
    }
}

impl View for PathSegment {
    type V = PathSegmentView;

    open spec fn view(&self) -> PathSegmentView {
        segment_view(*self)
    }
}

/// A copy of a type expression, with the same value.
fn clone_type(ty: &Type) -> (r: Type)
    ensures
        type_view(r) == type_view(*ty),
    decreases ty,
{
    match ty {
        Type::Path(p) => Type::Path(clone_path(p)),
        Type::Other(s) => Type::Other(s.clone()),
    }
}

/// A copy of a path, segment by segment.
fn clone_path(p: &Path) -> (r: Path)
    ensures
        path_view(r) == path_view(*p),
    decreases p,
{
    let mut segments: Vec<PathSegment> = Vec::new();
    let mut i: usize = 0;
    while i < p.segments.len()
        invariant
            i <= p.segments@.len(),
            segments@.len() == i,
            forall|j: int|
                0 <= j < i ==> segment_view(#[trigger] segments@[j]) == segment_view(
                    p.segments@[j],
                ),
        decreases p.segments@.len() - i,
    {
        let s = clone_segment(&p.segments[i]);
        segments.push(s);
        i = i + 1;
    }
    let r = Path { segments };
    assert(path_view(r).segments =~= path_view(*p).segments);
    r
}

/// A copy of a path segment.
fn clone_segment(s: &PathSegment) -> (r: PathSegment)
    ensures
        segment_view(r) == segment_view(*s),
    decreases s,
{
    PathSegment { ident: s.ident.clone(), arguments: clone_arguments(&s.arguments) }
}

/// A copy of the arguments of a path segment, argument by argument.
fn clone_arguments(a: &PathArguments) -> (r: PathArguments)
    ensures
        arguments_view(r) == arguments_view(*a),
    decreases a,
{
    match a {
        PathArguments::Absent => PathArguments::Absent,
        PathArguments::AngleBracketed(args) => {
            let mut copy: Vec<GenericArgument> = Vec::new();
            let mut i: usize = 0;
            while i < args.len()
                invariant
                    *a == PathArguments::AngleBracketed(*args),
                    i <= args@.len(),
                    copy@.len() == i,
                    forall|j: int|
                        0 <= j < i ==> argument_view(#[trigger] copy@[j]) == argument_view(
                            args@[j],
                        ),
                decreases args@.len() - i,
            {
                // The arguments are a part of `a`, so each of them is smaller.
                assert(a->AngleBracketed_0 == *args);
                let c = clone_argument(&args[i]);
                copy.push(c);
                i = i + 1;
            }
            let r = PathArguments::AngleBracketed(copy);
            assert(arguments_view(r)->AngleBracketed_0 =~= arguments_view(*a)->AngleBracketed_0);
            r
        },
        PathArguments::Parenthesized(s) => PathArguments::Parenthesized(s.clone()),
    }
}

/// A copy of one argument between angle brackets.
fn clone_argument(a: &GenericArgument) -> (r: GenericArgument)
    ensures
        argument_view(r) == argument_view(*a),
    decreases a,
{
    match a {
        GenericArgument::Type(ty) => GenericArgument::Type(clone_type(ty)),
        GenericArgument::Other(s) => GenericArgument::Other(s.clone()),
    }
}

impl Clone for Ident {
    fn clone(&self) -> (r: Ident)
        ensures
            r@ == self@,
    {
        Ident { name: self.name.clone() }
    }
}

impl Clone for Type {
    fn clone(&self) -> (r: Type)
        ensures
            r@ == self@,
    {
        clone_type(self)
    }
}

impl Clone for Path {
    fn clone(&self) -> (r: Path)
        ensures
            r@ == self@,
    {
        clone_path(self)
    }
}

} // verus!

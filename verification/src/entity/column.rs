//! Column descriptors and the enumeration of a closed set of items.

use vstd::prelude::*;

verus! {

/// A closed set of items that can be enumerated in declaration order.
pub trait Iterable: Sized {
    /// Every item, once, in declaration order.
    spec fn spec_iter() -> Seq<Self>;

    /// Every item, once, in declaration order.
    fn iter() -> (v: Vec<Self>)
        ensures
            v@ == Self::spec_iter(),
    ;

    /// No item is missing from the enumeration.
    proof fn lemma_iter_complete(item: Self)
        ensures
            Self::spec_iter().contains(item),
    ;

    /// No item occurs twice in the enumeration.
    proof fn lemma_iter_distinct()
        ensures
            Self::spec_iter().no_duplicates(),
    ;
}

/// An identifier with a fixed name.
pub trait IdenStatic: Copy {
    /// The name of the identifier.
    spec fn spec_name(&self) -> Seq<char>;

    /// The name of the identifier.
    fn as_str(&self) -> (s: &'static str)
        ensures
            s@ == self.spec_name(),
    ;
}

/// The length of a text column.
#[derive(Clone, Copy, Debug, PartialEq, Eq, Structural)]
pub enum StringLen {
    /// A bounded length.
    N(u32),
    /// The backend's largest length.
    Max,
    /// No length declared.
    Unbounded,
}

/// The declared type of a column.
#[derive(Clone, Copy, Debug, PartialEq, Eq, Structural)]
pub enum ColumnType {
    Boolean,
    TinyInteger,
    SmallInteger,
    Integer,
    BigInteger,
    TinyUnsigned,
    SmallUnsigned,
    Unsigned,
    BigUnsigned,
    Char,
    String(StringLen),
    Binary,
}

/// The descriptor of a column: its declared type and its flags.
#[derive(Clone, Copy, Debug, PartialEq, Eq, Structural)]
pub struct ColumnDef {
    pub col_type: ColumnType,
    pub null: bool,
    pub unique: bool,
    pub indexed: bool,
}

impl ColumnType {
    /// The descriptor of a column of this type: not null, not unique, not
    /// indexed.
    pub fn def(self) -> (d: ColumnDef)
        ensures
            d == (ColumnDef { col_type: self, null: false, unique: false, indexed: false }),
    {
        ColumnDef { col_type: self, null: false, unique: false, indexed: false }
    }
}

impl ColumnDef {
    /// The same column, nullable.
    pub fn nullable(self) -> (d: ColumnDef)
        ensures
            d == (ColumnDef { null: true, ..self }),
    {
        ColumnDef { col_type: self.col_type, null: true, unique: self.unique, indexed: self.indexed }
    }

    /// The same column, nullable.
    pub fn null(self) -> (d: ColumnDef)
        ensures
            d == (ColumnDef { null: true, ..self }),
    {
        self.nullable()
    }

    /// The same column, unique.
    pub fn unique(self) -> (d: ColumnDef)
        ensures
            d == (ColumnDef { unique: true, ..self }),
    {
        ColumnDef { col_type: self.col_type, null: self.null, unique: true, indexed: self.indexed }
    }

    /// The same column, indexed.
    pub fn indexed(self) -> (d: ColumnDef)
        ensures
            d == (ColumnDef { indexed: true, ..self }),
    {
        ColumnDef { col_type: self.col_type, null: self.null, unique: self.unique, indexed: true }
    }

    /// The declared type.
    pub fn get_column_type(&self) -> (t: ColumnType)
        ensures
            t == self.col_type,
    {
        self.col_type
    }

    /// Whether the column is nullable.
    pub fn is_null(&self) -> (b: bool)
        ensures
            b == self.null,
    {
        self.null
    }
}

/// A column of an entity.
pub trait ColumnTrait: IdenStatic + Iterable {
    /// The descriptor of the column.
    spec fn spec_def(&self) -> ColumnDef;

    /// The descriptor of the column.
    fn def(&self) -> (d: ColumnDef)
        ensures
            d == self.spec_def(),
    ;
}

} // verus!

//! The parts of a parsed SQL statement that column definitions are made of.

use vstd::prelude::*;

verus! {

/// An identifier, with the quote it was written in, if any.
#[derive(Clone, Debug, PartialEq, Eq, Hash)]
pub struct Ident {
    pub value: String,
    pub quote_style: Option<char>,
}

impl Ident {
    /// The unquoted identifier `value`.
    pub fn new(value: &str) -> (ident: Ident)
        ensures
            ident.value@ == value@,
            ident.quote_style is None,
    {
        Ident { value: value.to_string(), quote_style: None }
    }

    /// A copy of the identifier.
    pub fn duplicate(&self) -> (ident: Ident)
        ensures
            ident == *self,
    {
        Ident { value: self.value.clone(), quote_style: self.quote_style }
    }
}

/// A name of one or more parts, such as `catalog.schema.table`.
#[derive(Clone, Debug, PartialEq, Eq, Hash)]
pub struct ObjectName(pub Vec<Ident>);

/// How a timestamp type speaks of time zones.
#[derive(Clone, Copy, Debug, PartialEq, Eq, Hash)]
pub enum TimezoneInfo {
    /// The type says nothing of time zones.
    Unspecified,
    WithTimeZone,
    WithoutTimeZone,
    Tz,
}

/// A data type as SQL writes it.
#[derive(Clone, Debug, PartialEq, Eq, Hash)]
pub enum DataType {
    Char(Option<u64>),
    Varchar(Option<u64>),
    Text,
    String,
    Binary(Option<u64>),
    Varbinary(Option<u64>),
    Blob(Option<u64>),
    Decimal(Option<u64>, Option<u64>),
    Float(Option<u64>),
    TinyInt(Option<u64>),
    SmallInt(Option<u64>),
    Int(Option<u64>),
    BigInt(Option<u64>),
    Real,
    Double,
    Boolean,
    Date,
    Time,
    Timestamp(Option<u64>, TimezoneInfo),
    Interval,
    Uuid,
    Custom(ObjectName, Vec<String>),
}

impl DataType {
    /// Whether `other` is the same type as this one: for a custom type the
    /// same name and the same arguments, else the same in all.
    pub open spec fn is_same(self, other: DataType) -> bool {
        match (self, other) {
            (DataType::Custom(name, arguments), DataType::Custom(other_name, other_arguments)) => {
                name.0@ == other_name.0@ && arguments@ == other_arguments@
            },
            (DataType::Custom(_, _), _) => false,
            _ => self == other,
        }
    }

    /// A copy of the same type.
    pub fn duplicate(&self) -> (t: DataType)
        ensures
            t.is_same(*self),
    {
        match self {
            DataType::Custom(name, arguments) => {
                let mut parts: Vec<Ident> = Vec::new();
                let mut i: usize = 0;
                while i < name.0.len()
                    invariant
                        i <= name.0@.len(),
                        parts@ == name.0@.take(i as int),
                    decreases name.0@.len() - i,
                {
                    parts.push(name.0[i].duplicate());
                    proof {
                        assert(name.0@.take(i + 1) =~= name.0@.take(i as int).push(name.0@[i as int]));
                    }
                    i += 1;
                }
                let mut copies: Vec<String> = Vec::new();
                let mut j: usize = 0;
                while j < arguments.len()
                    invariant
                        j <= arguments@.len(),
                        parts@ == name.0@.take(name.0@.len() as int),
                        copies@ == arguments@.take(j as int),
                    decreases arguments@.len() - j,
                {
                    copies.push(arguments[j].clone());
                    proof {
                        assert(arguments@.take(j + 1) =~= arguments@.take(j as int).push(
                            arguments@[j as int],
                        ));
                    }
                    j += 1;
                }
                proof {
                    assert(name.0@.take(name.0@.len() as int) =~= name.0@);
                    assert(arguments@.take(arguments@.len() as int) =~= arguments@);
                }
                DataType::Custom(ObjectName(parts), copies)
            },
            DataType::Char(n) => DataType::Char(*n),
            DataType::Varchar(n) => DataType::Varchar(*n),
            DataType::Text => DataType::Text,
            DataType::String => DataType::String,
            DataType::Binary(n) => DataType::Binary(*n),
            DataType::Varbinary(n) => DataType::Varbinary(*n),
            DataType::Blob(n) => DataType::Blob(*n),
            DataType::Decimal(p, q) => DataType::Decimal(*p, *q),
            DataType::Float(n) => DataType::Float(*n),
            DataType::TinyInt(n) => DataType::TinyInt(*n),
            DataType::SmallInt(n) => DataType::SmallInt(*n),
            DataType::Int(n) => DataType::Int(*n),
            DataType::BigInt(n) => DataType::BigInt(*n),
            DataType::Real => DataType::Real,
            DataType::Double => DataType::Double,
            DataType::Boolean => DataType::Boolean,
            DataType::Date => DataType::Date,
            DataType::Time => DataType::Time,
            DataType::Timestamp(n, zone) => DataType::Timestamp(*n, *zone),
            DataType::Interval => DataType::Interval,
            DataType::Uuid => DataType::Uuid,
        }
    }
}

/// A literal value.
#[derive(Clone, Debug, PartialEq, Eq, Hash)]
pub enum Value {
    /// A number as written, and whether it carries the suffix for a long.
    Number(String, bool),
    SingleQuotedString(String),
    DoubleQuotedString(String),
    NationalStringLiteral(String),
    HexStringLiteral(String),
    Boolean(bool),
    Null,
    Placeholder(String),
}

/// An expression, as far as a default of a column looks at it.
#[derive(Clone, Debug, PartialEq, Eq, Hash)]
pub enum Expr {
    /// A literal.
    Value(Value),
    /// A call of a function, as it is written, such as
    /// `CURRENT_TIMESTAMP()`.
    Function(String),
    /// A plain identifier.
    Identifier(Ident),
    /// Any other expression, as it is written.
    Other(String),
}

impl Value {
    /// A copy of the literal.
    pub fn duplicate(&self) -> (v: Value)
        ensures
            v == *self,
    {
        match self {
            Value::Number(n, long) => Value::Number(n.clone(), *long),
            Value::SingleQuotedString(s) => Value::SingleQuotedString(s.clone()),
            Value::DoubleQuotedString(s) => Value::DoubleQuotedString(s.clone()),
            Value::NationalStringLiteral(s) => Value::NationalStringLiteral(s.clone()),
            Value::HexStringLiteral(s) => Value::HexStringLiteral(s.clone()),
            Value::Boolean(b) => Value::Boolean(*b),
            Value::Null => Value::Null,
            Value::Placeholder(s) => Value::Placeholder(s.clone()),
        }
    }
}

impl Expr {
    /// A copy of the expression.
    pub fn duplicate(&self) -> (e: Expr)
        ensures
            e == *self,
    {
        match self {
            Expr::Value(v) => Expr::Value(v.duplicate()),
            Expr::Function(f) => Expr::Function(f.clone()),
            Expr::Identifier(i) => Expr::Identifier(i.duplicate()),
            Expr::Other(o) => Expr::Other(o.clone()),
        }
    }
}

/// An option of a column definition.
#[derive(Clone, Debug, PartialEq, Eq, Hash)]
pub enum ColumnOption {
    Null,
    NotNull,
    Default(Expr),
    Unique { is_primary: bool },
    Comment(String),
}

/// An option of a column definition, with the name of its constraint, if it
/// has one.
#[derive(Clone, Debug, PartialEq, Eq, Hash)]
pub struct ColumnOptionDef {
    pub name: Option<Ident>,
    pub option: ColumnOption,
}

/// The definition of a column.
#[derive(Clone, Debug, PartialEq, Eq, Hash)]
pub struct ColumnDef {
    pub name: Ident,
    pub data_type: DataType,
    pub collation: Option<ObjectName>,
    pub options: Vec<ColumnOptionDef>,
}

} // verus!

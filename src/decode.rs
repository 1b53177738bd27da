use vstd::prelude::*;
use vstd::string::*;

verus! {

/// A decimal number: `mantissa * 10^(-scale)`, as NUMERIC and DECIMAL results
/// come back.
#[derive(Clone, Copy, Debug, PartialEq, Eq, Structural)]
pub struct Decimal {
    pub mantissa: i128,
    pub scale: u32,
}

/// The value of one cell of a returned row, as far as decoding reads it.
#[derive(Clone, Debug, PartialEq, Eq)]
pub enum Cell {
    /// SQL NULL.
    Null,
    /// A signed integer.
    Int(i64),
    /// An unsigned integer.
    UInt(u64),
    /// A boolean.
    Bool(bool),
    /// A decimal number.
    Decimal(Decimal),
    /// Text.
    Text(String),
    /// A value of another kind (floating point, bytes, ...).
    Other,
}

/// Why a returned cell could not be decoded.
#[derive(Clone, Copy, Debug, PartialEq, Eq, Structural)]
pub enum DecodeError {
    /// The row holds no column of the looked-up name.
    Missing,
    /// The cell is NULL.
    Null,
    /// The cell holds a value of another kind than the target type.
    Mismatch,
    /// The cell holds an integer that the target type cannot represent.
    OutOfRange,
}

/// The error of an aggregate query.
#[derive(Clone, Debug, PartialEq, Eq)]
pub enum DbErr {
    /// The connection or its SQL dialect rejected the statement; the message
    /// is the connection's own.
    Exec(String),
    /// A row came back, but its result cell could not be decoded.
    Decode(DecodeError),
}

/// A type that a single cell can be decoded into, with a zero value.
pub trait Decodable: Sized {
    /// What decoding `cell` gives.
    spec fn decode_spec(cell: Cell) -> Result<Self, DecodeError>;

    /// The zero value of the type.
    spec fn zero_spec() -> Self;

    /// Decodes `cell`.
    fn decode(cell: &Cell) -> (r: Result<Self, DecodeError>)
        ensures
            r == Self::decode_spec(*cell),
    ;

    /// The zero value of the type.
    fn zero() -> (r: Self)
        ensures
            r == Self::zero_spec(),
    ;
}

/// The error for a cell that is not an integer.
pub open spec fn non_integer_error(cell: Cell) -> DecodeError {
    match cell {
        Cell::Null => DecodeError::Null,
        _ => DecodeError::Mismatch,
    }
}

/// The integer that `cell` holds, if it holds one: an integer, or a decimal
/// of scale 0.
pub open spec fn integer_of(cell: Cell) -> Option<int> {
    match cell {
        Cell::Int(v) => Some(v as int),
        Cell::UInt(v) => Some(v as int),
        Cell::Decimal(d) => if d.scale == 0 {
            Some(d.mantissa as int)
        } else {
            None
        },
        _ => None,
    }
}

/// Decoding into an integer type whose values are `lo ..= hi`: the integer
/// of the cell if it lies in that range.
pub open spec fn decode_integer(cell: Cell, lo: int, hi: int) -> Result<int, DecodeError> {
    match integer_of(cell) {
        Some(v) => if lo <= v <= hi {
            Ok(v)
        } else {
            Err(DecodeError::OutOfRange)
        },
        None => Err(non_integer_error(cell)),
    }
}

impl Decodable for i64 {
    open spec fn decode_spec(cell: Cell) -> Result<i64, DecodeError> {
        match decode_integer(cell, i64::MIN as int, i64::MAX as int) {
            Ok(v) => Ok(v as i64),
            Err(e) => Err(e),
        }
    }

    open spec fn zero_spec() -> i64 {
        0
    }

    fn decode(cell: &Cell) -> (r: Result<i64, DecodeError>) {
        match cell {
            Cell::Decimal(d) => if d.scale == 0 && i64::MIN as i128 <= d.mantissa && d.mantissa <= i64::MAX as i128 {
                Ok(d.mantissa as i64)
            } else if d.scale == 0 {
                Err(DecodeError::OutOfRange)
            } else {
                Err(DecodeError::Mismatch)
            },
            Cell::Int(v) => Ok(*v),
            Cell::UInt(v) => if *v <= i64::MAX as u64 {
                Ok(*v as i64)
            } else {
                Err(DecodeError::OutOfRange)
            },
            Cell::Null => Err(DecodeError::Null),
            _ => Err(DecodeError::Mismatch),
        }
    }

    fn zero() -> (r: i64) {
        0
    }
}

impl Decodable for u64 {
    open spec fn decode_spec(cell: Cell) -> Result<u64, DecodeError> {
        match decode_integer(cell, 0, u64::MAX as int) {
            Ok(v) => Ok(v as u64),
            Err(e) => Err(e),
        }
    }

    open spec fn zero_spec() -> u64 {
        0
    }

    fn decode(cell: &Cell) -> (r: Result<u64, DecodeError>) {
        match cell {
            Cell::Decimal(d) => if d.scale == 0 && 0 <= d.mantissa && d.mantissa <= u64::MAX as i128 {
                Ok(d.mantissa as u64)
            } else if d.scale == 0 {
                Err(DecodeError::OutOfRange)
            } else {
                Err(DecodeError::Mismatch)
            },
            Cell::Int(v) => if *v >= 0 {
                Ok(*v as u64)
            } else {
                Err(DecodeError::OutOfRange)
            },
            Cell::UInt(v) => Ok(*v),
            Cell::Null => Err(DecodeError::Null),
            _ => Err(DecodeError::Mismatch),
        }
    }

    fn zero() -> (r: u64) {
        0
    }
}

impl Decodable for i32 {
    open spec fn decode_spec(cell: Cell) -> Result<i32, DecodeError> {
        match decode_integer(cell, i32::MIN as int, i32::MAX as int) {
            Ok(v) => Ok(v as i32),
            Err(e) => Err(e),
        }
    }

    open spec fn zero_spec() -> i32 {
        0
    }

    fn decode(cell: &Cell) -> (r: Result<i32, DecodeError>) {
        match cell {
            Cell::Decimal(d) => if d.scale == 0 && i32::MIN as i128 <= d.mantissa && d.mantissa <= i32::MAX as i128 {
                Ok(d.mantissa as i32)
            } else if d.scale == 0 {
                Err(DecodeError::OutOfRange)
            } else {
                Err(DecodeError::Mismatch)
            },
            Cell::Int(v) => if i32::MIN as i64 <= *v && *v <= i32::MAX as i64 {
                Ok(*v as i32)
            } else {
                Err(DecodeError::OutOfRange)
            },
            Cell::UInt(v) => if *v <= i32::MAX as u64 {
                Ok(*v as i32)
            } else {
                Err(DecodeError::OutOfRange)
            },
            Cell::Null => Err(DecodeError::Null),
            _ => Err(DecodeError::Mismatch),
        }
    }

    fn zero() -> (r: i32) {
        0
    }
}

impl Decodable for u32 {
    open spec fn decode_spec(cell: Cell) -> Result<u32, DecodeError> {
        match decode_integer(cell, 0, u32::MAX as int) {
            Ok(v) => Ok(v as u32),
            Err(e) => Err(e),
        }
    }

    open spec fn zero_spec() -> u32 {
        0
    }

    fn decode(cell: &Cell) -> (r: Result<u32, DecodeError>) {
        match cell {
            Cell::Decimal(d) => if d.scale == 0 && 0 <= d.mantissa && d.mantissa <= u32::MAX as i128 {
                Ok(d.mantissa as u32)
            } else if d.scale == 0 {
                Err(DecodeError::OutOfRange)
            } else {
                Err(DecodeError::Mismatch)
            },
            Cell::Int(v) => if 0 <= *v && *v <= u32::MAX as i64 {
                Ok(*v as u32)
            } else {
                Err(DecodeError::OutOfRange)
            },
            Cell::UInt(v) => if *v <= u32::MAX as u64 {
                Ok(*v as u32)
            } else {
                Err(DecodeError::OutOfRange)
            },
            Cell::Null => Err(DecodeError::Null),
            _ => Err(DecodeError::Mismatch),
        }
    }

    fn zero() -> (r: u32) {
        0
    }
}

impl Decodable for bool {
    open spec fn decode_spec(cell: Cell) -> Result<bool, DecodeError> {
        match cell {
            Cell::Bool(b) => Ok(b),
            Cell::Null => Err(DecodeError::Null),
            _ => Err(DecodeError::Mismatch),
        }
    }

    open spec fn zero_spec() -> bool {
        false
    }

    fn decode(cell: &Cell) -> (r: Result<bool, DecodeError>) {
        match cell {
            Cell::Bool(b) => Ok(*b),
            Cell::Null => Err(DecodeError::Null),
            _ => Err(DecodeError::Mismatch),
        }
    }

    fn zero() -> (r: bool) {
        false
    }
}

impl Decodable for Decimal {
    open spec fn decode_spec(cell: Cell) -> Result<Decimal, DecodeError> {
        match cell {
            Cell::Int(v) => Ok(Decimal { mantissa: v as i128, scale: 0 }),
            Cell::UInt(v) => Ok(Decimal { mantissa: v as i128, scale: 0 }),
            Cell::Decimal(d) => Ok(d),
            Cell::Null => Err(DecodeError::Null),
            _ => Err(DecodeError::Mismatch),
        }
    }

    open spec fn zero_spec() -> Decimal {
        Decimal { mantissa: 0, scale: 0 }
    }

    fn decode(cell: &Cell) -> (r: Result<Decimal, DecodeError>) {
        match cell {
            Cell::Int(v) => Ok(Decimal { mantissa: *v as i128, scale: 0 }),
            Cell::UInt(v) => Ok(Decimal { mantissa: *v as i128, scale: 0 }),
            Cell::Decimal(d) => Ok(*d),
            Cell::Null => Err(DecodeError::Null),
            _ => Err(DecodeError::Mismatch),
        }
    }

    fn zero() -> (r: Decimal) {
        Decimal { mantissa: 0, scale: 0 }
    }
}

/// The cell of the first column named `name`, if any.
pub open spec fn first_cell(columns: Seq<(Seq<char>, Cell)>, name: Seq<char>) -> Option<Cell>
    decreases columns.len(),
{
    if columns.len() == 0 {
        None
    } else if columns[0].0 == name {
        Some(columns[0].1)
    } else {
        first_cell(columns.drop_first(), name)
    }
}

/// A returned row: named cells, in the order of the statement's columns.
#[derive(Clone, Debug)]
pub struct Row {
    columns: Vec<(String, Cell)>,
}

impl View for Row {
    type V = Seq<(Seq<char>, Cell)>;

    closed spec fn view(&self) -> Seq<(Seq<char>, Cell)> {
        self.columns@.map_values(|p: (String, Cell)| (p.0@, p.1))
    }
}

impl Row {
    /// A row without columns.
    pub fn new() -> (r: Row)
        ensures
            r@ == Seq::<(Seq<char>, Cell)>::empty(),
    {
        let r = Row { columns: Vec::new() };
        assert(r@ =~= Seq::<(Seq<char>, Cell)>::empty());
        r
    }

    /// Appends a column named `name` that holds `cell`.
    pub fn push(&mut self, name: String, cell: Cell)
        ensures
            final(self)@ == old(self)@.push((name@, cell)),
    {
        let ghost name_view = name@;
        self.columns.push((name, cell));
        assert(self@ =~= old(self)@.push((name_view, cell)));
    }

    /// The cell of the first column named `name`, if any.
    pub fn get(&self, name: &str) -> (r: Option<&Cell>)
        ensures
            r == (match first_cell(self@, name@) {
                Some(c) => Some(&c),
                None => None::<&Cell>,
            }),
    {
        let key = String::from_str(name);
        let mut i: usize = 0;
        assert(self@.subrange(0, self@.len() as int) =~= self@);
        while i < self.columns.len()
            invariant
                i <= self.columns@.len(),
                key@ == name@,
                first_cell(self@, name@) == first_cell(self@.subrange(i as int, self@.len() as int), name@),
            decreases self.columns@.len() - i,
        {
            assert(self@.subrange(i as int, self@.len() as int).drop_first() =~= self@.subrange(
                i + 1,
                self@.len() as int,
            ));
            assert(self@[i as int] == (self.columns@[i as int].0@, self.columns@[i as int].1));
            if self.columns[i].0 == key {
                return Some(&self.columns[i].1);
            }
            i = i + 1;
        }
        None
    }

    /// Decodes the cell of the column named `prefix` followed by `column`.
    pub fn try_get<N: Decodable>(&self, prefix: &str, column: &str) -> (r: Result<N, DecodeError>)
        ensures
            r == (match first_cell(self@, prefix@ + column@) {
                Some(c) => N::decode_spec(c),
                None => Err(DecodeError::Missing),
            }),
    {
        let mut name = String::from_str(prefix);
        name.append(column);
        match self.get(name.as_str()) {
            Some(c) => N::decode(c),
            None => Err(DecodeError::Missing),
        }
    }
}

} // verus!

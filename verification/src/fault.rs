//! Why a declaration is refused.

use vstd::prelude::*;
use vstd::string::*;

verus! {

/// What is wrong with one declaration.
#[derive(Debug, Clone, Copy, PartialEq, Eq, Structural)]
pub enum Fault {
    /// A field has a name other than `table`, `index`, `pk` or `sk`, or a
    /// value that is not a string.
    UnrecognizedField,
    /// The entry names neither a table nor an index.
    UnrecognizedShape,
    /// The table name is empty.
    EmptyTableName,
    /// The entry names no partition key.
    MissingPartitionKey,
    /// The partition-key attribute name is empty.
    EmptyPartitionKey,
    /// The sort key names the same attribute as the partition key.
    SortKeyIsPartitionKey,
    /// An earlier entry already declared the table.
    DuplicateTable,
    /// An earlier index already has the operation name of this one.
    NameCollision,
}

/// Why the entries of a record type make no schema.
#[derive(Debug, Clone, Copy, PartialEq, Eq, Structural)]
pub enum ConfigurationError {
    /// No entry declares the table, so there is no primary key.
    MissingTable,
    /// The entry at position `entry`, counted from zero, is refused for
    /// `fault`.
    InvalidEntry { entry: usize, fault: Fault },
}

/// The message that goes with a fault.
pub open spec fn fault_message(fault: Fault) -> Seq<char> {
    match fault {
        Fault::UnrecognizedField => "unrecognized field: expected table, index, pk or sk with a string value"@,
        Fault::UnrecognizedShape => "entry names neither a table nor an index"@,
        Fault::EmptyTableName => "table name is empty"@,
        Fault::MissingPartitionKey => "entry names no partition key"@,
        Fault::EmptyPartitionKey => "partition key is empty"@,
        Fault::SortKeyIsPartitionKey => "sort key names the same attribute as the partition key"@,
        Fault::DuplicateTable => "table is declared more than once"@,
        Fault::NameCollision => "index shares its operation name with an earlier index"@,
    }
}

/// The message that goes with a refusal.
pub open spec fn refusal_message(error: ConfigurationError) -> Seq<char> {
    match error {
        ConfigurationError::MissingTable => "no entry declares a table"@,
        ConfigurationError::InvalidEntry { entry, fault } => fault_message(fault),
    }
}

/// The character of one decimal digit.
pub open spec fn digit(value: nat) -> char {
    if value == 0 {
        '0'
    } else if value == 1 {
        '1'
    } else if value == 2 {
        '2'
    } else if value == 3 {
        '3'
    } else if value == 4 {
        '4'
    } else if value == 5 {
        '5'
    } else if value == 6 {
        '6'
    } else if value == 7 {
        '7'
    } else if value == 8 {
        '8'
    } else {
        '9'
    }
}

/// A number written in decimal digits, without leading zeros.
pub open spec fn decimal(number: nat) -> Seq<char>
    decreases number,
{
    if number < 10 {
        seq![digit(number)]
    } else {
        decimal(number / 10).push(digit(number % 10))
    }
}

/// The full message of a refusal: which entry is refused, counted from
/// zero, and what is wrong with it.
pub open spec fn full_message(error: ConfigurationError) -> Seq<char> {
    match error {
        ConfigurationError::MissingTable => refusal_message(error),
        ConfigurationError::InvalidEntry { entry, fault } => "entry "@ + decimal(entry as nat)
            + ": "@ + fault_message(fault),
    }
}

/// One decimal digit as text.
fn digit_text(value: usize) -> (text: &'static str)
    requires
        value < 10,
    ensures
        text@ == seq![digit(value as nat)],
{
    proof {
        reveal_strlit("0");
        reveal_strlit("1");
        reveal_strlit("2");
        reveal_strlit("3");
        reveal_strlit("4");
        reveal_strlit("5");
        reveal_strlit("6");
        reveal_strlit("7");
        reveal_strlit("8");
        reveal_strlit("9");
    }
    let text = if value == 0 {
        "0"
    } else if value == 1 {
        "1"
    } else if value == 2 {
        "2"
    } else if value == 3 {
        "3"
    } else if value == 4 {
        "4"
    } else if value == 5 {
        "5"
    } else if value == 6 {
        "6"
    } else if value == 7 {
        "7"
    } else if value == 8 {
        "8"
    } else {
        "9"
    };
    assert(text@ =~= seq![digit(value as nat)]);
    text
}

/// Writes a number in decimal digits.
pub fn write_decimal(number: usize) -> (text: String)
    ensures
        text@ == decimal(number as nat),
    decreases number,
{
    if number < 10 {
        String::from_str(digit_text(number))
    } else {
        let text = write_decimal(number / 10).concat(digit_text(number % 10));
        assert(text@ =~= decimal(number as nat));
        text
    }
}

impl Fault {
    /// Says what is wrong.
    pub fn description(&self) -> (text: &'static str)
        ensures
            text@ == fault_message(*self),
    {
        match self {
            Fault::UnrecognizedField => "unrecognized field: expected table, index, pk or sk with a string value",
            Fault::UnrecognizedShape => "entry names neither a table nor an index",
            Fault::EmptyTableName => "table name is empty",
            Fault::MissingPartitionKey => "entry names no partition key",
            Fault::EmptyPartitionKey => "partition key is empty",
            Fault::SortKeyIsPartitionKey => "sort key names the same attribute as the partition key",
            Fault::DuplicateTable => "table is declared more than once",
            Fault::NameCollision => "index shares its operation name with an earlier index",
        }
    }
}

impl ConfigurationError {
    /// Says why the entries are refused. Which entry is meant is in `entry`.
    pub fn description(&self) -> (text: &'static str)
        ensures
            text@ == refusal_message(*self),
    {
        match self {
            ConfigurationError::MissingTable => "no entry declares a table",
            ConfigurationError::InvalidEntry { entry: _, fault } => fault.description(),
        }
    }

    /// Says which entry is refused and why.
    pub fn message(&self) -> (text: String)
        ensures
            text@ == full_message(*self),
    {
        match self {
            ConfigurationError::MissingTable => String::from_str(self.description()),
            ConfigurationError::InvalidEntry { entry, fault } => {
                String::from_str("entry ").concat(write_decimal(*entry).as_str()).concat(
                    ": ",
                ).concat(fault.description())
            },
        }
    }

    /// The position of the entry that is refused, where one is.
    pub fn entry(&self) -> (position: Option<usize>)
        ensures
            position == match *self {
                ConfigurationError::MissingTable => None,
                ConfigurationError::InvalidEntry { entry, fault } => Some(entry),
            },
    {
        match self {
            ConfigurationError::MissingTable => None,
            ConfigurationError::InvalidEntry { entry, fault: _ } => Some(*entry),
        }
    }
}

} // verus!

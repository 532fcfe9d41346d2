//! The closed error taxonomy of the data-access layer, and its fixed
//! JSON rendering: every failure is reported as `{"error": "<message>"}`.

use vstd::prelude::*;
use vstd::string::StringExecFns;

verus! {

/// Mathematical image of an error value.
pub enum ErrorView {
    MultipleResults { table: Seq<char> },
    RecordNotFound { table: Seq<char> },
    DBInsertError { table: Seq<char> },
    DBUpdateError { table: Seq<char> },
    TwootMaxCharExceeded { numchar: int },
    InvalidConversion { message: Seq<char> },
}

/// Every way a data-access operation can fail.
///
/// `RecordNotFound` is overloaded: it reports both a lookup that matched
/// zero rows and a query or insert whose execution failed.
#[derive(Debug)]
pub enum TwotterError {
    /// A by-key lookup expected to be unique matched more than one row.
    MultipleResults { table: String },
    /// A lookup matched zero rows, or a query or insert execution failed.
    RecordNotFound { table: String },
    /// An insert execution failed.
    DBInsertError { table: String },
    /// An update execution failed.
    DBUpdateError { table: String },
    /// Submitted content exceeded the character limit; carries the
    /// actual submitted length.
    TwootMaxCharExceeded { numchar: usize },
    /// Reserved for type-conversion failures.
    InvalidConversion { message: String },
}

impl View for TwotterError {
    type V = ErrorView;

    open spec fn view(&self) -> ErrorView {
        match self {
            TwotterError::MultipleResults { table } => ErrorView::MultipleResults {
                table: table@,
            },
            TwotterError::RecordNotFound { table } => ErrorView::RecordNotFound { table: table@ },
            TwotterError::DBInsertError { table } => ErrorView::DBInsertError { table: table@ },
            TwotterError::DBUpdateError { table } => ErrorView::DBUpdateError { table: table@ },
            TwotterError::TwootMaxCharExceeded { numchar } => ErrorView::TwootMaxCharExceeded {
                numchar: *numchar as int,
            },
            TwotterError::InvalidConversion { message } => ErrorView::InvalidConversion {
                message: message@,
            },
        }
    }
}

/// The decimal digit characters, least to greatest.
pub open spec fn digit_char(d: nat) -> char {
    if d == 0 {
        '0'
    } else if d == 1 {
        '1'
    } else if d == 2 {
        '2'
    } else if d == 3 {
        '3'
    } else if d == 4 {
        '4'
    } else if d == 5 {
        '5'
    } else if d == 6 {
        '6'
    } else if d == 7 {
        '7'
    } else if d == 8 {
        '8'
    } else {
        '9'
    }
}

/// The decimal rendering of a number, most significant digit first,
/// without leading zeros (the number zero renders as "0").
pub open spec fn decimal_view(n: nat) -> Seq<char>
    decreases n,
{
    if n < 10 {
        seq![digit_char(n)]
    } else {
        decimal_view(n / 10).push(digit_char(n % 10))
    }
}

fn digit_str(d: usize) -> (r: &'static str)
    requires
        d < 10,
    ensures
        r@ == seq![digit_char(d as nat)],
{
    let r: &'static str = if d == 0 {
        "0"
    } else if d == 1 {
        "1"
    } else if d == 2 {
        "2"
    } else if d == 3 {
        "3"
    } else if d == 4 {
        "4"
    } else if d == 5 {
        "5"
    } else if d == 6 {
        "6"
    } else if d == 7 {
        "7"
    } else if d == 8 {
        "8"
    } else {
        "9"
    };
    proof {
        reveal_strlit("0");
        reveal_strlit("1");
        reveal_strlit("2");
        reveal_strlit("3");
        reveal_strlit("4");
        reveal_strlit("5");
        reveal_strlit("6");
        reveal_strlit("7");
        reveal_strlit("8");
        reveal_strlit("9");
        assert(r@ =~= seq![digit_char(d as nat)]);
    }
    r
}

/// Renders a number in decimal.
pub fn decimal_string(n: usize) -> (r: String)
    ensures
        r@ == decimal_view(n as nat),
    decreases n,
{
    if n < 10 {
        String::from_str(digit_str(n))
    } else {
        let mut s = decimal_string(n / 10);
        s.append(digit_str(n % 10));
        proof {
            assert(s@ =~= decimal_view(n as nat));
        }
        s
    }
}

/// The JSON body that reports an error: `{"error": "<message>"}`.
pub open spec fn error_message(e: ErrorView) -> Seq<char> {
    match e {
        ErrorView::MultipleResults { table } => "{\"error\": \""@ + table
            + " has multiple results, expected one.\"}"@,
        ErrorView::RecordNotFound { table } => "{\"error\": \"Record in "@ + table
            + " not found.\"}"@,
        ErrorView::DBInsertError { table } => "{\"error\": \"Could not insert record in table "@
            + table + "\"}"@,
        ErrorView::DBUpdateError { table } => "{\"error\": \"Could not update record in table "@
            + table + "\"}"@,
        ErrorView::TwootMaxCharExceeded { numchar } => {
            "{\"error\": \"Maximum number of characters exceeded ("@ + decimal_view(
                numchar as nat,
            ) + ")\"}"@
        },
        ErrorView::InvalidConversion { message } => "{\"error\": \""@ + message + "\"}"@,
    }
}

impl TwotterError {
    /// The fixed JSON rendering of this error.
    pub fn render(&self) -> (r: String)
        ensures
            r@ == error_message(self@),
    {
        match self {
            TwotterError::MultipleResults { table } => {
                let mut s = String::from_str("{\"error\": \"");
                s.append(table.as_str());
                s.append(" has multiple results, expected one.\"}");
                proof {
                    assert(s@ =~= error_message(self@));
                }
                s
            },
            TwotterError::RecordNotFound { table } => {
                let mut s = String::from_str("{\"error\": \"Record in ");
                s.append(table.as_str());
                s.append(" not found.\"}");
                proof {
                    assert(s@ =~= error_message(self@));
                }
                s
            },
            TwotterError::DBInsertError { table } => {
                let mut s = String::from_str("{\"error\": \"Could not insert record in table ");
                s.append(table.as_str());
                s.append("\"}");
                proof {
                    assert(s@ =~= error_message(self@));
                }
                s
            },
            TwotterError::DBUpdateError { table } => {
                let mut s = String::from_str("{\"error\": \"Could not update record in table ");
                s.append(table.as_str());
                s.append("\"}");
                proof {
                    assert(s@ =~= error_message(self@));
                }
                s
            },
            TwotterError::TwootMaxCharExceeded { numchar } => {
                let mut s = String::from_str(
                    "{\"error\": \"Maximum number of characters exceeded (",
                );
                let digits = decimal_string(*numchar);
                s.append(digits.as_str());
                s.append(")\"}");
                proof {
                    assert(s@ =~= error_message(self@));
                }
                s
            },
            TwotterError::InvalidConversion { message } => {
                let mut s = String::from_str("{\"error\": \"");
                s.append(message.as_str());
                s.append("\"}");
                proof {
                    assert(s@ =~= error_message(self@));
                }
                s
            },
        }
    }
}

} // verus!

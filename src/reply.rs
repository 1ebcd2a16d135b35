use vstd::prelude::*;
use vstd::string::StringExecFns;
use crate::models::Reconfigure;

verus! {

/// The class of an HTTP answer, independent of the server that renders it.
#[derive(Debug, Clone, Copy, PartialEq, Eq, Structural)]
pub enum Status {
    Success,
    NoContent,
    TemporaryRedirect,
    BadRequest,
    Forbidden,
    NotFound,
    InternalError,
    NotImplemented,
}

/// A status with a short human-readable body.
#[derive(Debug, Clone)]
pub struct Reply {
    pub status: Status,
    pub body: String,
}

/// The character of a decimal digit.
pub open spec fn digit(d: int) -> char {
    if d == 0 { '0' }
    else if d == 1 { '1' }
    else if d == 2 { '2' }
    else if d == 3 { '3' }
    else if d == 4 { '4' }
    else if d == 5 { '5' }
    else if d == 6 { '6' }
    else if d == 7 { '7' }
    else if d == 8 { '8' }
    else { '9' }
}

/// The decimal representation of a natural number, most significant digit first.
pub open spec fn decimal_of(n: nat) -> Seq<char>
    decreases n,
{
    if n < 10 {
        seq![digit(n as int)]
    } else {
        decimal_of(n / 10).push(digit((n % 10) as int))
    }
}

/// The one-character text of a decimal digit.
fn digit_text(d: u64) -> (r: &'static str)
    requires
        d < 10,
    ensures
        r@ == seq![digit(d as int)],
{
    proof {
        reveal_strlit("0");
        reveal_strlit("1");
        reveal_strlit("2");
        reveal_strlit("3");
        reveal_strlit("4");
        reveal_strlit("5");
        reveal_strlit("6");
        reveal_strlit("7");
        reveal_strlit("8");
        reveal_strlit("9");
    }
    if d == 0 {
        "0"
    } else if d == 1 {
        "1"
    } else if d == 2 {
        "2"
    } else if d == 3 {
        "3"
    } else if d == 4 {
        "4"
    } else if d == 5 {
        "5"
    } else if d == 6 {
        "6"
    } else if d == 7 {
        "7"
    } else if d == 8 {
        "8"
    } else {
        "9"
    }
}

/// Appends the decimal digits of `n` to `out`.
fn append_decimal(n: u64, out: &mut String)
    ensures
        final(out)@ == old(out)@ + decimal_of(n as nat),
    decreases n,
{
    if n >= 10 {
        append_decimal(n / 10, out);
    }
    out.append(digit_text(n % 10));
    assert(out@ =~= old(out)@ + decimal_of(n as nat));
}

/// The decimal text of a non-negative number, as a token is handed out.
pub fn decimal(n: i64) -> (r: String)
    requires
        n >= 0,
    ensures
        r@ == decimal_of(n as nat),
{
    let mut out = String::new();
    append_decimal(n as u64, &mut out);
    assert(out@ =~= decimal_of(n as nat));
    out
}

/// Why a database write did not take.
#[derive(Debug, Clone, Copy, PartialEq, Eq, Structural)]
pub enum WriteError {
    /// The store reported a number of rows other than the write needs.
    RowCount,
    /// The store reported an error.
    Storage,
}

/// A token insert takes when the store reports at least one row written.
pub open spec fn token_write_verdict(affected: Result<usize, ()>) -> Result<(), WriteError> {
    match affected {
        Ok(n) => if n == 0 {
            Err(WriteError::RowCount)
        } else {
            Ok(())
        },
        Err(()) => Err(WriteError::Storage),
    }
}

/// A user insert takes when the store reports exactly one row written.
pub open spec fn user_write_verdict(affected: Result<usize, ()>) -> Result<(), WriteError> {
    match affected {
        Ok(n) => if n == 1 {
            Ok(())
        } else {
            Err(WriteError::RowCount)
        },
        Err(()) => Err(WriteError::Storage),
    }
}

/// Whether a token insert took, from what the store reported.
pub fn token_write_outcome(affected: Result<usize, ()>) -> (r: Result<(), WriteError>)
    ensures
        r == token_write_verdict(affected),
{
    match affected {
        Ok(n) => if n == 0 {
            Err(WriteError::RowCount)
        } else {
            Ok(())
        },
        Err(()) => Err(WriteError::Storage),
    }
}

/// Whether a user insert took, from what the store reported.
pub fn user_write_outcome(affected: Result<usize, ()>) -> (r: Result<(), WriteError>)
    ensures
        r == user_write_verdict(affected),
{
    match affected {
        Ok(n) => if n == 1 {
            Ok(())
        } else {
            Err(WriteError::RowCount)
        },
        Err(()) => Err(WriteError::Storage),
    }
}

/// Changing a registered redirect is not available yet: the request is
/// answered as such, whatever it holds.
pub fn reconfigure(req: &Reconfigure) -> (r: Reply)
    ensures
        r.status == Status::NotImplemented,
        r.body@ == "Not implemented"@,
{
    Reply { status: Status::NotImplemented, body: "Not implemented".to_string() }
}

} // verus!

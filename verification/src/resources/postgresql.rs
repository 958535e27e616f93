//! The PostgreSQL side of the control plane: the statements handed to the
//! SQL adapter and the connection parameters of one backend.
//!
//! One adapter is connected per configured backend at process start; a lost
//! connection is fatal to the process by design, so reconciliations never
//! reconnect. The statements below are plain DDL with pre-validated,
//! interpolated identifiers; the adapter executes them without parameters.
use vstd::prelude::*;
use vstd::string::*;
use crate::controller::Action;
use crate::Error;

pub mod database;
pub mod user;

verus! {

/// The port under which issued credentials name the backend.
pub const POSTGRESQL_PORT: u16 = 5432;

/// One DDL statement for the SQL adapter, with every identifier already
/// resolved.
#[derive(Debug)]
pub enum SqlStatement {
    /// Creates the database `name` owned by `owner` with the given
    /// connection limit.
    CreateDatabase { name: String, owner: String, connection_limit: u32 },
    /// Drops the database `name`.
    DropDatabase { name: String },
    /// Creates the login role `name` with this password and connection
    /// limit.
    CreateUser { name: String, password: String, connection_limit: u32 },
    /// Drops the login role `name`.
    DropUser { name: String },
}

/// The character of one decimal digit.
pub open spec fn spec_digit_char(d: int) -> char {
    if d == 0 {
        '0'
    } else if d == 1 {
        '1'
    } else if d == 2 {
        '2'
    } else if d == 3 {
        '3'
    } else if d == 4 {
        '4'
    } else if d == 5 {
        '5'
    } else if d == 6 {
        '6'
    } else if d == 7 {
        '7'
    } else if d == 8 {
        '8'
    } else {
        '9'
    }
}

/// The decimal digits of `n`, most significant first, without leading
/// zeroes (a lone zero for zero itself).
pub open spec fn spec_u32_decimal(n: int) -> Seq<char>
    decreases n,
{
    if n < 10 {
        seq![spec_digit_char(n)]
    } else {
        spec_u32_decimal(n / 10).push(spec_digit_char(n % 10))
    }
}

/// The one-character text of a decimal digit.
fn digit_str(d: u32) -> (r: &'static str)
    requires
        d < 10,
    ensures
        r@ == seq![spec_digit_char(d as int)],
{
    let r: &'static str = match d {
        0 => "0",
        1 => "1",
        2 => "2",
        3 => "3",
        4 => "4",
        5 => "5",
        6 => "6",
        7 => "7",
        8 => "8",
        _ => "9",
    };
    proof {
        reveal_strlit("0");
        reveal_strlit("1");
        reveal_strlit("2");
        reveal_strlit("3");
        reveal_strlit("4");
        reveal_strlit("5");
        reveal_strlit("6");
        reveal_strlit("7");
        reveal_strlit("8");
        reveal_strlit("9");
        assert(r@ =~= seq![spec_digit_char(d as int)]);
    }
    r
}

/// Writes `n` in decimal.
pub fn u32_decimal(n: u32) -> (r: String)
    ensures
        r@ == spec_u32_decimal(n as int),
    decreases n,
{
    if n < 10 {
        digit_str(n).to_owned()
    } else {
        let mut s = u32_decimal(n / 10);
        s.append(digit_str(n % 10));
        proof {
            assert(s@ =~= spec_u32_decimal(n as int / 10).push(spec_digit_char(n as int % 10)));
        }
        s
    }
}

/// The exact DDL text of one statement, as the adapter executes it.
pub open spec fn spec_render(s: &SqlStatement) -> Seq<char> {
    match s {
        SqlStatement::CreateDatabase { name, owner, connection_limit } => "CREATE DATABASE \""@
            + name@ + "\" OWNER \""@ + owner@ + "\" CONNECTION LIMIT "@ + spec_u32_decimal(
            *connection_limit as int,
        ),
        SqlStatement::DropDatabase { name } => "DROP DATABASE \""@ + name@ + "\""@,
        SqlStatement::CreateUser { name, password, connection_limit } => "CREATE USER \""@ + name@
            + "\" WITH PASSWORD '"@ + password@ + "' CONNECTION LIMIT "@ + spec_u32_decimal(
            *connection_limit as int,
        ),
        SqlStatement::DropUser { name } => "DROP USER \""@ + name@ + "\""@,
    }
}

/// Renders one statement to the DDL text the adapter executes.
pub fn render(s: &SqlStatement) -> (r: String)
    ensures
        r@ == spec_render(s),
{
    match s {
        SqlStatement::CreateDatabase { name, owner, connection_limit } => {
            let mut r: String = "CREATE DATABASE \"".to_owned();
            r.append(name.as_str());
            r.append("\" OWNER \"");
            r.append(owner.as_str());
            r.append("\" CONNECTION LIMIT ");
            r.append(u32_decimal(*connection_limit).as_str());
            r
        },
        SqlStatement::DropDatabase { name } => {
            let mut r: String = "DROP DATABASE \"".to_owned();
            r.append(name.as_str());
            r.append("\"");
            r
        },
        SqlStatement::CreateUser { name, password, connection_limit } => {
            let mut r: String = "CREATE USER \"".to_owned();
            r.append(name.as_str());
            r.append("\" WITH PASSWORD '");
            r.append(password.as_str());
            r.append("' CONNECTION LIMIT ");
            r.append(u32_decimal(*connection_limit).as_str());
            r
        },
        SqlStatement::DropUser { name } => {
            let mut r: String = "DROP USER \"".to_owned();
            r.append(name.as_str());
            r.append("\"");
            r
        },
    }
}

/// Final Cleanup step of both SQL-backed kinds, after the adapter ran the
/// drop statement: terminal only once that one call succeeded; otherwise
/// the adapter error, retried by the driver.
pub fn on_cleaned(execute_succeeded: bool) -> (r: Result<Action, Error>)
    ensures
        execute_succeeded ==> r == Ok::<Action, Error>(Action::AwaitChange),
        !execute_succeeded ==> r == Err::<Action, Error>(Error::SqlError),
{
    if execute_succeeded {
        Ok(Action::AwaitChange)
    } else {
        Err(Error::SqlError)
    }
}

/// What the connection string of one backend is made of.
pub open spec fn spec_connection_string(
    host: Seq<char>,
    user: Seq<char>,
    password: Seq<char>,
    dbname: Seq<char>,
    sslmode: Seq<char>,
) -> Seq<char> {
    "host="@ + host + " user="@ + user + " password="@ + password + " dbname="@ + dbname
        + " sslmode="@ + sslmode
}

/// Builds the connection string under which the unverified shell opens one
/// backend's connection.
pub fn connection_string(
    host: &String,
    user: &String,
    password: &String,
    dbname: &String,
    sslmode: &String,
) -> (r: String)
    ensures
        r@ == spec_connection_string(host@, user@, password@, dbname@, sslmode@),
{
    let mut r: String = "host=".to_owned();
    r.append(host.as_str());
    r.append(" user=");
    r.append(user.as_str());
    r.append(" password=");
    r.append(password.as_str());
    r.append(" dbname=");
    r.append(dbname.as_str());
    r.append(" sslmode=");
    r.append(sslmode.as_str());
    r
}

} // verus!

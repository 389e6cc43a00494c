//! The user record, the canonical column order, and the mapping from
//! database rows to records.

use vstd::prelude::*;

use crate::errors::MyError;

verus! {

/// Mathematical view of a user record: the contents of its four fields.
pub ghost struct UserView {
    pub email: Seq<char>,
    pub first_name: Seq<char>,
    pub last_name: Seq<char>,
    pub username: Seq<char>,
}

/// One row of the `users` table as the service exposes it.
///
/// All four fields are always populated (possibly with empty strings). The
/// backing store assigns a surrogate numeric identifier for lookups, which
/// this record deliberately does not carry.
#[derive(Debug)]
pub struct User {
    pub email: String,
    pub first_name: String,
    pub last_name: String,
    pub username: String,
}

impl View for User {
    type V = UserView;

    open spec fn view(&self) -> UserView {
        UserView {
            email: self.email@,
            first_name: self.first_name@,
            last_name: self.last_name@,
            username: self.username@,
        }
    }
}

impl PartialEq for User {
    fn eq(&self, other: &User) -> (r: bool) {
        self.email == other.email && self.first_name == other.first_name
            && self.last_name == other.last_name && self.username == other.username
    }
}

impl vstd::std_specs::cmp::PartialEqSpecImpl for User {
    open spec fn obeys_eq_spec() -> bool {
        true
    }

    open spec fn eq_spec(&self, other: &User) -> bool {
        self@ == other@
    }
}

/// The canonical ordered list of column names: the single source of truth
/// from which statement text and parameter bindings are both derived, so the
/// two can never drift apart.
pub open spec fn spec_field_names() -> Seq<Seq<char>> {
    seq!["email"@, "first_name"@, "last_name"@, "username"@]
}

/// The value a record holds for position `i` of the canonical column order.
pub open spec fn spec_field_value(u: UserView, i: int) -> Seq<char> {
    if i == 0 {
        u.email
    } else if i == 1 {
        u.first_name
    } else if i == 2 {
        u.last_name
    } else {
        u.username
    }
}

/// The value a record holds for the column called `name`, if that is a
/// canonical column.
pub open spec fn spec_field_of(u: UserView, name: Seq<char>) -> Option<Seq<char>> {
    if name == "email"@ {
        Some(u.email)
    } else if name == "first_name"@ {
        Some(u.first_name)
    } else if name == "last_name"@ {
        Some(u.last_name)
    } else if name == "username"@ {
        Some(u.username)
    } else {
        None
    }
}

/// The canonical column names, in order, as string slices.
pub fn field_names() -> (r: Vec<&'static str>)
    ensures
        r@.len() == spec_field_names().len(),
        forall|i: int| 0 <= i < r@.len() ==> r@[i]@ == spec_field_names()[i],
{
    let mut v: Vec<&'static str> = Vec::new();
    v.push("email");
    v.push("first_name");
    v.push("last_name");
    v.push("username");
    v
}

/// One column of a returned database row: its name and its text value.
#[derive(Debug)]
pub struct DbColumn {
    pub name: String,
    pub value: String,
}

impl View for DbColumn {
    type V = (Seq<char>, Seq<char>);

    open spec fn view(&self) -> (Seq<char>, Seq<char>) {
        (self.name@, self.value@)
    }
}

/// A database row as handed to the library: named text columns, in whatever
/// order the backend returned them.
#[derive(Debug)]
pub struct DbRow {
    pub columns: Vec<DbColumn>,
}

impl View for DbRow {
    type V = Seq<(Seq<char>, Seq<char>)>;

    open spec fn view(&self) -> Seq<(Seq<char>, Seq<char>)> {
        self.columns@.map_values(|c: DbColumn| c@)
    }
}

/// The value of the first column called `name` in a row, if any: lookup is
/// by column name, never by position.
pub open spec fn row_lookup(cols: Seq<(Seq<char>, Seq<char>)>, name: Seq<char>) -> Option<
    Seq<char>,
>
    decreases cols.len(),
{
    if cols.len() == 0 {
        None
    } else if cols[0].0 == name {
        Some(cols[0].1)
    } else {
        row_lookup(cols.drop_first(), name)
    }
}

/// What a row maps to: a record built from the four canonical columns, or
/// nothing if one of them is absent.
pub open spec fn spec_map_row(row: Seq<(Seq<char>, Seq<char>)>) -> Option<UserView> {
    match (
        row_lookup(row, "email"@),
        row_lookup(row, "first_name"@),
        row_lookup(row, "last_name"@),
        row_lookup(row, "username"@),
    ) {
        (Some(e), Some(f), Some(l), Some(u)) => Some(
            UserView { email: e, first_name: f, last_name: l, username: u },
        ),
        _ => None,
    }
}

/// The first canonical column, in canonical order, that a row is missing.
pub open spec fn spec_missing_field(row: Seq<(Seq<char>, Seq<char>)>) -> Option<Seq<char>> {
    if row_lookup(row, "email"@) is None {
        Some("email"@)
    } else if row_lookup(row, "first_name"@) is None {
        Some("first_name"@)
    } else if row_lookup(row, "last_name"@) is None {
        Some("last_name"@)
    } else if row_lookup(row, "username"@) is None {
        Some("username"@)
    } else {
        None
    }
}

/// The value of the first column called `name`, scanning left to right.
fn row_get(row: &DbRow, name: &String) -> (r: Option<String>)
    ensures
        (match r {
            Some(v) => row_lookup(row@, name@) == Some(v@),
            None => row_lookup(row@, name@) is None,
        }),
{
    let n = row.columns.len();
    let mut i: usize = 0;
    proof {
        assert(row@.skip(0) =~= row@);
    }
    while i < n
        invariant
            n == row.columns.len(),
            0 <= i <= n,
            row@.len() == n,
            row_lookup(row@, name@) == row_lookup(row@.skip(i as int), name@),
        decreases n - i,
    {
        proof {
            assert(row@.skip(i as int)[0] == row@[i as int]);
            assert(row@[i as int] == row.columns@[i as int]@);
        }
        if row.columns[i].name == *name {
            return Some(row.columns[i].value.clone());
        }
        proof {
            assert(row@.skip(i as int).drop_first() =~= row@.skip(i as int + 1));
        }
        i += 1;
    }
    proof {
        assert(row@.skip(n as int) =~= Seq::<(Seq<char>, Seq<char>)>::empty());
    }
    None
}

impl User {
    /// Builds a record from a returned row by position-independent
    /// column-name lookup, per the canonical column list; reports the first
    /// missing canonical column as a mapping error.
    pub fn from_row(row: &DbRow) -> (r: Result<User, MyError>)
        ensures
            (match r {
                Ok(u) => spec_map_row(row@) == Some(u@),
                Err(e) => {
                    &&& spec_map_row(row@) is None
                    &&& e matches MyError::PGMError(m) && Some(m@) == spec_missing_field(row@)
                },
            }),
    {
        let email_name: String = "email".to_owned();
        let first_name_name: String = "first_name".to_owned();
        let last_name_name: String = "last_name".to_owned();
        let username_name: String = "username".to_owned();
        let email = match row_get(row, &email_name) {
            Some(v) => v,
            None => {
                return Err(MyError::PGMError(email_name));
            },
        };
        let first_name = match row_get(row, &first_name_name) {
            Some(v) => v,
            None => {
                return Err(MyError::PGMError(first_name_name));
            },
        };
        let last_name = match row_get(row, &last_name_name) {
            Some(v) => v,
            None => {
                return Err(MyError::PGMError(last_name_name));
            },
        };
        let username = match row_get(row, &username_name) {
            Some(v) => v,
            None => {
                return Err(MyError::PGMError(username_name));
            },
        };
        Ok(User { email, first_name, last_name, username })
    }
}

} // verus!

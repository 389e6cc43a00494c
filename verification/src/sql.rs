//! Construction of the parameterized SQL statements and of their parameter
//! bindings, both derived from the canonical column list.

use vstd::prelude::*;
use vstd::string::StringExecFns;

use crate::models::{field_names, spec_field_names, spec_field_of, spec_field_value, User, UserView};

verus! {

/// A list of column names joined with `", "`.
pub open spec fn spec_join_fields(names: Seq<Seq<char>>) -> Seq<char>
    decreases names.len(),
{
    if names.len() == 0 {
        Seq::empty()
    } else if names.len() == 1 {
        names[0]
    } else {
        spec_join_fields(names.drop_last()) + ", "@ + names.last()
    }
}

/// The canonical column list as it appears in every statement.
pub open spec fn spec_table_fields() -> Seq<char> {
    spec_join_fields(spec_field_names())
}

/// The INSERT statement: columns in canonical order, one positional
/// parameter per column in the same order, echoing the inserted row back.
pub open spec fn spec_add_user_stmt() -> Seq<char> {
    "INSERT INTO testing.users("@ + spec_table_fields()
        + ") VALUES ($1, $2, $3, $4) RETURNING "@ + spec_table_fields()
}

/// The SELECT over all rows, with the canonical column list.
pub open spec fn spec_get_users_stmt() -> Seq<char> {
    "SELECT "@ + spec_table_fields() + " FROM testing.users"@
}

/// The SELECT filtered by the numeric identifier parameter `$1`.
pub open spec fn spec_get_user_by_id_stmt() -> Seq<char> {
    "SELECT "@ + spec_table_fields() + " FROM testing.users WHERE id = $1"@
}

/// Joins the canonical column names with `", "`.
pub fn sql_table_fields() -> (r: String)
    ensures
        r@ == spec_table_fields(),
        r@ == "email, first_name, last_name, username"@,
{
    let names = field_names();
    let n = names.len();
    let mut r = String::new();
    let mut i: usize = 0;
    proof {
        assert(spec_field_names().take(0) =~= Seq::<Seq<char>>::empty());
        assert(r@ =~= spec_join_fields(spec_field_names().take(0)));
    }
    while i < n
        invariant
            n == names@.len(),
            0 <= i <= n,
            names@.len() == spec_field_names().len(),
            forall|j: int| 0 <= j < names@.len() ==> names@[j]@ == spec_field_names()[j],
            r@ == spec_join_fields(spec_field_names().take(i as int)),
        decreases n - i,
    {
        if i > 0 {
            r.append(", ");
        }
        r.append(names[i]);
        proof {
            let prefix = spec_field_names().take(i as int + 1);
            assert(prefix.drop_last() =~= spec_field_names().take(i as int));
            assert(prefix.last() == spec_field_names()[i as int]);
            if i == 0 {
                assert(r@ =~= spec_join_fields(prefix));
            }
        }
        i += 1;
    }
    proof {
        assert(spec_field_names().take(spec_field_names().len() as int) =~= spec_field_names());
        lemma_table_fields_literal();
    }
    r
}

/// Builds the INSERT statement text.
pub fn add_user_stmt() -> (r: String)
    ensures
        r@ == spec_add_user_stmt(),
{
    let fields = sql_table_fields();
    let mut r: String = "INSERT INTO testing.users(".to_owned();
    r.append(fields.as_str());
    r.append(") VALUES ($1, $2, $3, $4) RETURNING ");
    r.append(fields.as_str());
    r
}

/// Builds the SELECT-all statement text.
pub fn get_users_stmt() -> (r: String)
    ensures
        r@ == spec_get_users_stmt(),
{
    let fields = sql_table_fields();
    let mut r: String = "SELECT ".to_owned();
    r.append(fields.as_str());
    r.append(" FROM testing.users");
    r
}

/// Builds the SELECT-by-identifier statement text; its single parameter
/// `$1` is the numeric identifier.
pub fn get_user_by_id_stmt() -> (r: String)
    ensures
        r@ == spec_get_user_by_id_stmt(),
{
    let fields = sql_table_fields();
    let mut r: String = "SELECT ".to_owned();
    r.append(fields.as_str());
    r.append(" FROM testing.users WHERE id = $1");
    r
}

/// Binds a record's fields as statement parameters: parameter `$i+1` is the
/// value of column `i` of the canonical order.
pub fn bind_params(u: &User) -> (r: Vec<String>)
    ensures
        r@.len() == spec_field_names().len(),
        forall|i: int| 0 <= i < r@.len() ==> r@[i]@ == spec_field_value(u@, i),
{
    let mut v: Vec<String> = Vec::new();
    v.push(u.email.clone());
    v.push(u.first_name.clone());
    v.push(u.last_name.clone());
    v.push(u.username.clone());
    v
}

/// Law: statement text and binding order cannot drift apart. For every
/// position of the canonical order, the value bound as parameter `$i+1` is
/// exactly the record's value for the column named at position `i` of the
/// statement's column list.
pub proof fn lemma_params_match_columns(u: UserView, i: int)
    requires
        0 <= i < spec_field_names().len(),
    ensures
        spec_field_of(u, spec_field_names()[i]) == Some(spec_field_value(u, i)),
{
    reveal_strlit("email");
    reveal_strlit("first_name");
    reveal_strlit("last_name");
    reveal_strlit("username");
    let ne = "email"@;
    let nf = "first_name"@;
    let nl = "last_name"@;
    let nu = "username"@;
    assert(ne.len() == 5 && nf.len() == 10 && nl.len() == 9 && nu.len() == 8);
    if i == 0 {
        assert(spec_field_names()[i] == ne);
    } else if i == 1 {
        assert(spec_field_names()[i] == nf);
        assert(nf != ne);
    } else if i == 2 {
        assert(spec_field_names()[i] == nl);
        assert(nl != ne && nl != nf);
    } else {
        assert(spec_field_names()[i] == nu);
        assert(nu != ne && nu != nf && nu != nl);
    }
}

/// The joined canonical column list, written out.
pub proof fn lemma_table_fields_literal()
    ensures
        spec_table_fields() == "email, first_name, last_name, username"@,
{
    reveal_strlit("email");
    reveal_strlit("first_name");
    reveal_strlit("last_name");
    reveal_strlit("username");
    reveal_strlit(", ");
    reveal_strlit("email, first_name, last_name, username");
    let e = "email"@;
    let f = "first_name"@;
    let l = "last_name"@;
    let u = "username"@;
    let s1 = seq![e];
    let s2 = seq![e, f];
    let s3 = seq![e, f, l];
    let names = spec_field_names();
    assert(names.drop_last() =~= s3);
    assert(s3.drop_last() =~= s2);
    assert(s2.drop_last() =~= s1);
    assert(spec_join_fields(s1) == e);
    assert(spec_join_fields(s2) == e + ", "@ + f);
    assert(spec_join_fields(s3) == (e + ", "@ + f) + ", "@ + l);
    assert(spec_join_fields(names) == ((e + ", "@ + f) + ", "@ + l) + ", "@ + u);
    assert(((e + ", "@ + f) + ", "@ + l) + ", "@ + u
        =~= "email, first_name, last_name, username"@);
}

} // verus!

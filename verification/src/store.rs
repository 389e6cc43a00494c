//! A mathematical model of the backing `users` table, and the laws the
//! repository obeys against it.
//!
//! The store is modelled as a sequence of rows, each a surrogate numeric
//! identifier with the record's four fields. The spec functions here state
//! what result set each statement built by the SQL module yields against a
//! given store; the proof functions relate those result sets to the row
//! mapping that the repository's contracts are stated over.

use vstd::prelude::*;

use crate::models::{row_lookup, spec_map_row, UserView};

verus! {

/// The single row the INSERT's RETURNING clause echoes for an inserted
/// record: the canonical columns, in canonical order, holding the record's
/// fields — the same correspondence the parameter binding uses.
pub open spec fn spec_returning_row(u: UserView) -> Seq<(Seq<char>, Seq<char>)> {
    seq![
        ("email"@, u.email),
        ("first_name"@, u.first_name),
        ("last_name"@, u.last_name),
        ("username"@, u.username),
    ]
}

/// The result set of the SELECT over all rows: one row per stored record,
/// in store order, with the canonical columns.
pub open spec fn spec_select_all(store: Seq<(u32, UserView)>) -> Seq<Seq<(Seq<char>, Seq<char>)>> {
    store.map_values(|p: (u32, UserView)| spec_returning_row(p.1))
}

/// The result set of the SELECT by identifier: the rows stored under `id`,
/// in store order, with the canonical columns.
pub open spec fn spec_select_by_id(store: Seq<(u32, UserView)>, id: u32) -> Seq<
    Seq<(Seq<char>, Seq<char>)>,
>
    decreases store.len(),
{
    if store.len() == 0 {
        Seq::empty()
    } else {
        let rest = spec_select_by_id(store.drop_first(), id);
        if store[0].0 == id {
            seq![spec_returning_row(store[0].1)] + rest
        } else {
            rest
        }
    }
}

/// Law: round trip through the store. The row the INSERT echoes for a
/// record maps back to exactly that record, so a created record's four
/// fields equal the input fields.
pub proof fn lemma_create_round_trip(u: UserView)
    ensures
        spec_map_row(spec_returning_row(u)) == Some(u),
{
    reveal_strlit("email");
    reveal_strlit("first_name");
    reveal_strlit("last_name");
    reveal_strlit("username");
    let ne = "email"@;
    let nf = "first_name"@;
    let nl = "last_name"@;
    let nu = "username"@;
    assert(ne.len() == 5 && nf.len() == 10 && nl.len() == 9 && nu.len() == 8);
    let r = spec_returning_row(u);
    let r1 = seq![(nf, u.first_name), (nl, u.last_name), (nu, u.username)];
    let r2 = seq![(nl, u.last_name), (nu, u.username)];
    let r3 = seq![(nu, u.username)];
    assert(r.drop_first() =~= r1);
    assert(r1.drop_first() =~= r2);
    assert(r2.drop_first() =~= r3);
    assert(row_lookup(r, ne) == Some(u.email));
    assert(row_lookup(r1, nf) == Some(u.first_name));
    assert(row_lookup(r, nf) == Some(u.first_name));
    assert(row_lookup(r2, nl) == Some(u.last_name));
    assert(row_lookup(r1, nl) == Some(u.last_name));
    assert(row_lookup(r, nl) == Some(u.last_name));
    assert(row_lookup(r3, nu) == Some(u.username));
    assert(row_lookup(r2, nu) == Some(u.username));
    assert(row_lookup(r1, nu) == Some(u.username));
    assert(row_lookup(r, nu) == Some(u.username));
}

/// Law: distinct inputs create distinct records. When two create payloads
/// differ, the records their echoed rows map to differ as well.
pub proof fn lemma_create_distinct(u1: UserView, u2: UserView)
    requires
        u1 != u2,
    ensures
        spec_map_row(spec_returning_row(u1)) != spec_map_row(spec_returning_row(u2)),
{
    lemma_create_round_trip(u1);
    lemma_create_round_trip(u2);
}

/// Law: listing reads back the store. The SELECT over all rows yields one
/// row per stored record and each maps back to the stored record; on an
/// empty store the result set is empty, which the listing operation turns
/// into the valid empty sequence, never an error.
pub proof fn lemma_list_round_trip(store: Seq<(u32, UserView)>)
    ensures
        spec_select_all(store).len() == store.len(),
        forall|j: int|
            0 <= j < store.len() ==> spec_map_row(spec_select_all(store)[j]) == Some(store[j].1),
{
    assert forall|j: int|
        0 <= j < store.len() implies spec_map_row(spec_select_all(store)[j]) == Some(
        store[j].1,
    ) by {
        lemma_create_round_trip(store[j].1);
    }
}

/// Law: an absent identifier selects nothing. If no stored row carries
/// `id`, the SELECT by identifier yields the empty result set — which the
/// lookup operation turns into `NotFound`, never a query error.
pub proof fn lemma_get_absent(store: Seq<(u32, UserView)>, id: u32)
    requires
        forall|j: int| 0 <= j < store.len() ==> store[j].0 != id,
    ensures
        spec_select_by_id(store, id).len() == 0,
    decreases store.len(),
{
    if store.len() > 0 {
        assert(store[0].0 != id);
        assert forall|j: int| 0 <= j < store.drop_first().len() implies store.drop_first()[j].0
            != id by {
            assert(store.drop_first()[j] == store[j + 1]);
        }
        lemma_get_absent(store.drop_first(), id);
    }
}

/// Law: a present identifier selects its unique record. If exactly one
/// stored row carries `id`, the SELECT by identifier yields exactly that
/// record's row, and the row maps back to the stored record — so the
/// lookup returns it with its stored field values.
pub proof fn lemma_get_present(store: Seq<(u32, UserView)>, id: u32, k: int)
    requires
        0 <= k < store.len(),
        store[k].0 == id,
        forall|j: int| 0 <= j < store.len() && j != k ==> store[j].0 != id,
    ensures
        spec_select_by_id(store, id) =~= seq![spec_returning_row(store[k].1)],
        spec_map_row(spec_returning_row(store[k].1)) == Some(store[k].1),
    decreases store.len(),
{
    lemma_create_round_trip(store[k].1);
    if k == 0 {
        assert forall|j: int| 0 <= j < store.drop_first().len() implies store.drop_first()[j].0
            != id by {
            assert(store.drop_first()[j] == store[j + 1]);
        }
        lemma_get_absent(store.drop_first(), id);
        assert(spec_select_by_id(store.drop_first(), id) =~= Seq::empty());
        assert(spec_select_by_id(store, id) =~= seq![spec_returning_row(store[0].1)]
            + Seq::empty());
    } else {
        assert forall|j: int|
            0 <= j < store.drop_first().len() && j != k - 1 implies store.drop_first()[j].0
            != id by {
            assert(store.drop_first()[j] == store[j + 1]);
        }
        assert(store.drop_first()[k - 1] == store[k]);
        lemma_get_present(store.drop_first(), id, k - 1);
        assert(store[0].0 != id);
    }
}

} // verus!

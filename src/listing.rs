//! Turning the entries of a list reply into maps keyed by identifier.
use vstd::prelude::*;
use crate::error::ExportError;
use crate::index::{first_wins, insert_first, is_first, lemma_first_wins};
use crate::sanitize::{sanitize_names, sanitized, strip_quotes, unquoted};

verus! {

/// An organization entry read from a list reply: the JSON text of its `id`
/// and of its `name`, each `None` where the field is missing.
pub type OrgEntry = (Option<String>, Option<String>);

pub open spec fn is_complete(e: (Option<Seq<char>>, Option<Seq<char>>)) -> bool {
    e.0 is Some && e.1 is Some
}

/// The (sanitized id, sanitized name) pairs of complete organization entries.
pub open spec fn org_pairs(es: Seq<(Option<Seq<char>>, Option<Seq<char>>)>) -> Seq<(Seq<char>, Seq<char>)> {
    es.map_values(|e: (Option<Seq<char>>, Option<Seq<char>>)| (sanitized(e.0->Some_0), sanitized(e.1->Some_0)))
}

/// The (uid, position) pairs of the entries that have a uid, in order; a uid
/// is the JSON text of the field with its quotes removed.
pub open spec fn uid_pairs(us: Seq<Option<Seq<char>>>) -> Seq<(Seq<char>, usize)>
    decreases us.len(),
{
    if us.len() == 0 {
        Seq::empty()
    } else {
        let rest = uid_pairs(us.drop_last());
        match us.last() {
            Some(u) => rest.push((unquoted(u), (us.len() - 1) as usize)),
            None => rest,
        }
    }
}

pub open spec fn missing_org_field_message() -> Seq<char> {
    "organization without id or name"@
}

/// Builds the map from sanitized organization id to sanitized name; the first
/// entry of an id wins. An entry without `id` or `name` makes the reply
/// unreadable.
pub fn orgs_from_entries(entries: &Vec<OrgEntry>) -> (r: Result<Vec<(String, String)>, ExportError>)
    ensures
        r is Err <==> exists|i: int| 0 <= i < entries@.len() && !is_complete(#[trigger] entries.deep_view()[i]),
        r matches Err(e) ==> e matches ExportError::Parse(m) && m@ == missing_org_field_message(),
        r matches Ok(m) ==> m.deep_view() == first_wins(org_pairs(entries.deep_view())),
{
    let ghost es = entries.deep_view();
    let mut out: Vec<(String, String)> = Vec::new();
    let mut i: usize = 0;
    while i < entries.len()
        invariant
            i <= entries@.len(),
            es == entries.deep_view(),
            forall|l: int| 0 <= l < i ==> is_complete(#[trigger] es[l]),
            out.deep_view() == first_wins(org_pairs(es.take(i as int))),
        decreases entries@.len() - i,
    {
        assert(es[i as int] == entries@[i as int].deep_view());
        match (&entries[i].0, &entries[i].1) {
            (Some(id), Some(name)) => {
                let k = sanitize_names(id.clone());
                let v = sanitize_names(name.clone());
                proof {
                    let next = org_pairs(es.take(i + 1));
                    assert(next.drop_last() =~= org_pairs(es.take(i as int)));
                    assert(next.last() == (k@, v@));
                }
                insert_first(&mut out, k, v);
            },
            _ => {
                let msg = String::from_str("organization without id or name");
                return Err(ExportError::Parse(msg));
            },
        }
        i = i + 1;
    }
    assert(es.take(i as int) =~= es);
    Ok(out)
}

/// Maps each uid to the position of the first entry that has it; entries
/// without a uid are left out.
pub fn uid_index(uids: &Vec<Option<String>>) -> (r: Vec<(String, usize)>)
    ensures
        r.deep_view() == first_wins(uid_pairs(uids.deep_view())),
{
    let ghost us = uids.deep_view();
    let mut out: Vec<(String, usize)> = Vec::new();
    let mut i: usize = 0;
    while i < uids.len()
        invariant
            i <= uids@.len(),
            us == uids.deep_view(),
            out.deep_view() == first_wins(uid_pairs(us.take(i as int))),
        decreases uids@.len() - i,
    {
        assert(us.take(i + 1).drop_last() =~= us.take(i as int));
        assert(us[i as int] == uids@[i as int].deep_view());
        match &uids[i] {
            Some(u) => {
                let k = strip_quotes(u.clone());
                assert(us.take(i + 1).last() == Some(u@));
                assert(uid_pairs(us.take(i + 1)) == uid_pairs(us.take(i as int)).push((k@, i)));
                assert(uid_pairs(us.take(i as int)).push((k@, i)).drop_last() =~= uid_pairs(us.take(i as int)));
                insert_first(&mut out, k, i);
            },
            None => {
                assert(uid_pairs(us.take(i + 1)) == uid_pairs(us.take(i as int)));
            },
        }
        i = i + 1;
    }
    assert(us.take(i as int) =~= us);
    out
}

pub(crate) proof fn lemma_uid_pairs_have_uid(us: Seq<Option<Seq<char>>>)
    requires
        us.len() <= usize::MAX,
    ensures
        forall|k: int| 0 <= k < uid_pairs(us).len() ==> {
            let p = #[trigger] uid_pairs(us)[k];
            p.1 < us.len() && us[p.1 as int] is Some && p.0 == unquoted(us[p.1 as int]->Some_0)
        },
    decreases us.len(),
{
    if us.len() > 0 {
        let p = us.drop_last();
        lemma_uid_pairs_have_uid(p);
        assert forall|x: int| 0 <= x < p.len() implies p[x] == us[x] by {}
        assert forall|k: int| 0 <= k < uid_pairs(us).len() implies {
            let q = #[trigger] uid_pairs(us)[k];
            q.1 < us.len() && us[q.1 as int] is Some && q.0 == unquoted(us[q.1 as int]->Some_0)
        } by {
            if k < uid_pairs(p).len() {
                assert(uid_pairs(us)[k] == uid_pairs(p)[k]);
                assert(p[uid_pairs(p)[k].1 as int] is Some);
            }
        }
    }
}

/// Of duplicated ids the first organization entry gives the name: the map
/// has one entry per distinct sanitized id, and each id maps to the name of
/// the first entry with that id.
pub proof fn lemma_orgs_first_name_wins(es: Seq<(Option<Seq<char>>, Option<Seq<char>>)>)
    ensures
        forall|i: int, j: int| 0 <= i < j < first_wins(org_pairs(es)).len()
            ==> (#[trigger] first_wins(org_pairs(es))[i]).0 != (#[trigger] first_wins(org_pairs(es))[j]).0,
        forall|j: int| is_first(org_pairs(es), j) ==> first_wins(org_pairs(es)).contains(#[trigger] org_pairs(es)[j]),
        forall|e: (Seq<char>, Seq<char>)| first_wins(org_pairs(es)).contains(e)
            ==> exists|j: int| is_first(org_pairs(es), j) && #[trigger] org_pairs(es)[j] == e,
{
    lemma_first_wins(org_pairs(es));
}

/// An entry without a uid is left out of the index, and nothing fails on it.
pub proof fn lemma_missing_uid_left_out(us: Seq<Option<Seq<char>>>, i: int)
    requires
        us.len() <= usize::MAX,
        0 <= i < us.len(),
        us[i] is None,
    ensures
        forall|k: int| 0 <= k < first_wins(uid_pairs(us)).len() ==> (#[trigger] first_wins(uid_pairs(us))[k]).1 != i,
{
    lemma_first_wins(uid_pairs(us));
    lemma_uid_pairs_have_uid(us);
    assert forall|k: int| 0 <= k < first_wins(uid_pairs(us)).len() implies (#[trigger] first_wins(uid_pairs(us))[k]).1 != i by {
        let e = first_wins(uid_pairs(us))[k];
        assert(first_wins(uid_pairs(us)).contains(e));
        let j = choose|j: int| is_first(uid_pairs(us), j) && #[trigger] uid_pairs(us)[j] == e;
        assert(us[uid_pairs(us)[j].1 as int] is Some);
    }
}

} // verus!

//! Ordering the listings: secrets and apps are shown newest first.

use vstd::prelude::*;
use vstd::multiset::Multiset;
use vstd::seq_lib::group_to_multiset_ensures;
use crate::app_config::App;
use crate::secret::Secret;

verus! {

broadcast use group_to_multiset_ensures;

/// Inserting anywhere adds exactly one copy to the multiset.
proof fn lemma_insert_to_multiset<A>(s: Seq<A>, i: int, x: A)
    requires
        0 <= i <= s.len(),
    ensures
        s.insert(i, x).to_multiset() =~= s.to_multiset().insert(x),
{
    let t = s.insert(i, x);
    assert(t.remove(i) =~= s);
    assert(t.remove(i).to_multiset() =~= t.to_multiset().remove(t[i]));
    assert(t[i] == x);
    assert(t.to_multiset().count(x) > 0) by {
        assert(t.contains(x));
    }
    assert forall|y: A| t.to_multiset().count(y) == s.to_multiset().insert(x).count(y) by {
        assert(s.to_multiset() =~= t.to_multiset().remove(x));
    }
}

/// Secrets in the order the listing shows them: newest first.
pub open spec fn secrets_newest_first(s: Seq<Secret>) -> bool {
    forall|i: int, j: int| 0 <= i < j < s.len() ==> s[i].created_at >= s[j].created_at
}

/// Sorts the fetched secrets so the newest stands first, keeping
/// exactly the given records.
pub fn sort_secrets_newest_first(v: &mut Vec<Secret>)
    ensures
        secrets_newest_first(final(v)@),
        final(v)@.to_multiset() == old(v)@.to_multiset(),
{
    let mut out: Vec<Secret> = Vec::new();
    loop
        invariant
            secrets_newest_first(out@),
            out@.to_multiset().add(v@.to_multiset()) =~= old(v)@.to_multiset(),
        ensures
            v@.len() == 0,
            secrets_newest_first(out@),
            out@.to_multiset().add(v@.to_multiset()) =~= old(v)@.to_multiset(),
        decreases v@.len(),
    {
        let ghost prev = v@;
        match v.pop() {
            None => { break; },
            Some(x) => {
                proof {
                    assert(prev =~= v@.push(x));
                }
                let mut j: usize = 0;
                while j < out.len() && out[j].created_at > x.created_at
                    invariant
                        j <= out@.len(),
                        secrets_newest_first(out@),
                        forall|k: int| 0 <= k < j ==> out@[k].created_at > x.created_at,
                    decreases out@.len() - j,
                {
                    j = j + 1;
                }
                let ghost before = out@;
                proof {
                    lemma_insert_to_multiset(out@, j as int, x);
                }
                out.insert(j, x);
                proof {
                    assert forall|a: int, b: int|
                        0 <= a < b < out@.len() implies out@[a].created_at
                        >= out@[b].created_at by {
                        assert(out@ == before.insert(j as int, x));
                    }
                }
            },
        }
    }
    proof {
        assert(v@.to_multiset() =~= Multiset::empty());
        assert(out@.to_multiset().add(Multiset::empty()) =~= out@.to_multiset());
    }
    *v = out;
}

/// Apps in the order the listing shows them: newest first.
pub open spec fn apps_newest_first(s: Seq<App>) -> bool {
    forall|i: int, j: int| 0 <= i < j < s.len() ==> s[i].created_at >= s[j].created_at
}

/// Sorts the fetched apps so the newest stands first, keeping exactly
/// the given records.
pub fn sort_apps_newest_first(v: &mut Vec<App>)
    ensures
        apps_newest_first(final(v)@),
        final(v)@.to_multiset() == old(v)@.to_multiset(),
{
    let mut out: Vec<App> = Vec::new();
    loop
        invariant
            apps_newest_first(out@),
            out@.to_multiset().add(v@.to_multiset()) =~= old(v)@.to_multiset(),
        ensures
            v@.len() == 0,
            apps_newest_first(out@),
            out@.to_multiset().add(v@.to_multiset()) =~= old(v)@.to_multiset(),
        decreases v@.len(),
    {
        let ghost prev = v@;
        match v.pop() {
            None => { break; },
            Some(x) => {
                proof {
                    assert(prev =~= v@.push(x));
                }
                let mut j: usize = 0;
                while j < out.len() && out[j].created_at > x.created_at
                    invariant
                        j <= out@.len(),
                        apps_newest_first(out@),
                        forall|k: int| 0 <= k < j ==> out@[k].created_at > x.created_at,
                    decreases out@.len() - j,
                {
                    j = j + 1;
                }
                let ghost before = out@;
                proof {
                    lemma_insert_to_multiset(out@, j as int, x);
                }
                out.insert(j, x);
                proof {
                    assert forall|a: int, b: int|
                        0 <= a < b < out@.len() implies out@[a].created_at
                        >= out@[b].created_at by {
                        assert(out@ == before.insert(j as int, x));
                    }
                }
            },
        }
    }
    proof {
        assert(v@.to_multiset() =~= Multiset::empty());
        assert(out@.to_multiset().add(Multiset::empty()) =~= out@.to_multiset());
    }
    *v = out;
}

} // verus!

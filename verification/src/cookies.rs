//! The in-memory cookie store, indexed by origin domain. Every lookup is
//! domain-qualified: a request to one domain never sees another domain's
//! cookies. One logical session token is projected into several
//! domain-scoped records at write time.

use vstd::prelude::*;
use crate::strutil::{str_eq, string_push};

verus! {

/// One cookie, scoped to one domain.
#[derive(Debug)]
pub struct CookieRecord {
    pub domain: String,
    pub name: String,
    pub value: String,
    pub path: String,
}

impl CookieRecord {
    pub fn new(domain: String, name: String, value: String, path: String) -> (r: CookieRecord)
        ensures
            r.domain == domain && r.name == name && r.value == value && r.path == path,
    {
        CookieRecord { domain, name, value, path }
    }

    /// A field-by-field copy, equal to the original.
    pub fn duplicate(&self) -> (r: CookieRecord)
        ensures
            r == *self,
    {
        CookieRecord {
            domain: self.domain.clone(),
            name: self.name.clone(),
            value: self.value.clone(),
            path: self.path.clone(),
        }
    }
}

/// The record is addressed by this domain and name.
pub open spec fn spec_cookie_matches(c: CookieRecord, domain: Seq<char>, name: Seq<char>) -> bool {
    c.domain@ == domain && c.name@ == name
}

/// No two records share a domain and a name.
pub open spec fn spec_store_wf(rs: Seq<CookieRecord>) -> bool {
    forall|i: int, j: int|
        0 <= i < j < rs.len() ==> !spec_cookie_matches(
            #[trigger] rs[i],
            (#[trigger] rs[j]).domain@,
            rs[j].name@,
        )
}

/// The store with the records addressed by `(domain, name)` removed.
pub open spec fn spec_remove_cookie(
    rs: Seq<CookieRecord>,
    domain: Seq<char>,
    name: Seq<char>,
) -> Seq<CookieRecord>
    decreases rs.len(),
{
    if rs.len() == 0 {
        seq![]
    } else {
        spec_remove_cookie(rs.drop_last(), domain, name) + (if spec_cookie_matches(
            rs.last(),
            domain,
            name,
        ) {
            seq![]
        } else {
            seq![rs.last()]
        })
    }
}

/// The records scoped to one domain, in store order.
pub open spec fn spec_cookies_for_domain(rs: Seq<CookieRecord>, domain: Seq<char>) -> Seq<
    CookieRecord,
>
    decreases rs.len(),
{
    if rs.len() == 0 {
        seq![]
    } else {
        spec_cookies_for_domain(rs.drop_last(), domain) + (if rs.last().domain@ == domain {
            seq![rs.last()]
        } else {
            seq![]
        })
    }
}

/// The value of the cookie addressed by `(domain, name)`.
pub open spec fn spec_cookie_value(
    rs: Seq<CookieRecord>,
    domain: Seq<char>,
    name: Seq<char>,
) -> Option<Seq<char>>
    decreases rs.len(),
{
    if rs.len() == 0 {
        None
    } else if spec_cookie_matches(rs[0], domain, name) {
        Some(rs[0].value@)
    } else {
        spec_cookie_value(rs.drop_first(), domain, name)
    }
}

/// "name=value" pairs joined with "; ", in store order.
pub open spec fn spec_cookie_header(rs: Seq<CookieRecord>) -> Seq<char>
    decreases rs.len(),
{
    if rs.len() == 0 {
        seq![]
    } else if rs.len() == 1 {
        rs[0].name@ + seq!['='] + rs[0].value@
    } else {
        spec_cookie_header(rs.drop_last()) + seq![';', ' '] + rs.last().name@ + seq!['=']
            + rs.last().value@
    }
}

/// Nothing removed still carries the removed address, and everything kept
/// was in the store.
proof fn lemma_remove_cookie_elements(rs: Seq<CookieRecord>, domain: Seq<char>, name: Seq<char>)
    ensures
        forall|k: int|
            0 <= k < spec_remove_cookie(rs, domain, name).len() ==> !spec_cookie_matches(
                #[trigger] spec_remove_cookie(rs, domain, name)[k],
                domain,
                name,
            ) && rs.contains(spec_remove_cookie(rs, domain, name)[k]),
    decreases rs.len(),
{
    if rs.len() > 0 {
        lemma_remove_cookie_elements(rs.drop_last(), domain, name);
        let pre = spec_remove_cookie(rs.drop_last(), domain, name);
        assert forall|k: int| 0 <= k < pre.len() implies rs.contains(pre[k]) by {
            let a = choose|a: int| 0 <= a < rs.drop_last().len() && rs.drop_last()[a] == pre[k];
            assert(rs[a] == pre[k]);
        }
        if !spec_cookie_matches(rs.last(), domain, name) {
            assert(rs[rs.len() - 1] == rs.last());
        }
    }
}

/// Removal keeps the store well formed.
proof fn lemma_remove_cookie_wf(rs: Seq<CookieRecord>, domain: Seq<char>, name: Seq<char>)
    requires
        spec_store_wf(rs),
    ensures
        spec_store_wf(spec_remove_cookie(rs, domain, name)),
    decreases rs.len(),
{
    if rs.len() > 0 {
        assert(spec_store_wf(rs.drop_last()));
        lemma_remove_cookie_wf(rs.drop_last(), domain, name);
        lemma_remove_cookie_elements(rs.drop_last(), domain, name);
        let pre = spec_remove_cookie(rs.drop_last(), domain, name);
        let all = spec_remove_cookie(rs, domain, name);
        if !spec_cookie_matches(rs.last(), domain, name) {
            assert forall|i: int, j: int| 0 <= i < j < all.len() implies !spec_cookie_matches(
                all[i],
                all[j].domain@,
                all[j].name@,
            ) by {
                if j == all.len() - 1 {
                    assert(all[j] == rs.last());
                    let a = choose|a: int|
                        0 <= a < rs.drop_last().len() && rs.drop_last()[a] == pre[i];
                    assert(rs[a] == all[i]);
                    assert(!spec_cookie_matches(rs[a], rs[rs.len() - 1].domain@, rs[rs.len()
                        - 1].name@));
                } else {
                    assert(all[i] == pre[i] && all[j] == pre[j]);
                }
            }
        }
    }
}

/// The cookie store. At most one record exists for each `(domain, name)`
/// pair; `add_original` replaces.
#[derive(Debug)]
pub struct CookieDomainStore {
    pub records: Vec<CookieRecord>,
}

impl CookieDomainStore {
    pub open spec fn wf(&self) -> bool {
        spec_store_wf(self.records@)
    }

    pub fn new() -> (r: CookieDomainStore)
        ensures
            r.records@.len() == 0,
            r.wf(),
    {
        CookieDomainStore { records: Vec::new() }
    }

    /// Installs a cookie, replacing any record with the same domain and
    /// name, as a set-cookie from the origin server would.
    pub fn add_original(&mut self, c: CookieRecord)
        requires
            old(self).wf(),
        ensures
            final(self).records@ == spec_remove_cookie(old(self).records@, c.domain@, c.name@)
                + seq![c],
            final(self).wf(),
    {
        let n = self.records.len();
        let mut kept: Vec<CookieRecord> = Vec::new();
        let mut i: usize = 0;
        while i < n
            invariant
                0 <= i <= n,
                n == self.records@.len(),
                kept@ =~= spec_remove_cookie(
                    self.records@.subrange(0, i as int),
                    c.domain@,
                    c.name@,
                ),
                old(self) == self,
            decreases n - i,
        {
            proof {
                assert(self.records@.subrange(0, i + 1).drop_last() =~= self.records@.subrange(
                    0,
                    i as int,
                ));
                assert(self.records@.subrange(0, i + 1).last() == self.records@[i as int]);
            }
            let r = &self.records[i];
            let keep = !(str_eq(r.domain.as_str(), c.domain.as_str()) && str_eq(
                r.name.as_str(),
                c.name.as_str(),
            ));
            if keep {
                let dup = self.records[i].duplicate();
                kept.push(dup);
            }
            i += 1;
        }
        proof {
            assert(self.records@.subrange(0, n as int) =~= self.records@);
            lemma_remove_cookie_wf(self.records@, c.domain@, c.name@);
            lemma_remove_cookie_elements(self.records@, c.domain@, c.name@);
        }
        kept.push(c);
        self.records = kept;
        proof {
            let rem = spec_remove_cookie(old(self).records@, c.domain@, c.name@);
            assert(self.records@ =~= rem + seq![c]);
            assert forall|i2: int, j2: int|
                0 <= i2 < j2 < self.records@.len() implies !spec_cookie_matches(
                self.records@[i2],
                self.records@[j2].domain@,
                self.records@[j2].name@,
            ) by {
                if j2 == self.records@.len() - 1 {
                    assert(self.records@[j2] == c);
                    assert(self.records@[i2] == rem[i2]);
                } else {
                    assert(self.records@[i2] == rem[i2] && self.records@[j2] == rem[j2]);
                }
            }
        }
    }

    /// Only the records scoped to `domain`, and all of them.
    pub fn cookies_for_domain(&self, domain: &str) -> (r: Vec<CookieRecord>)
        ensures
            r@ == spec_cookies_for_domain(self.records@, domain@),
    {
        let n = self.records.len();
        let mut out: Vec<CookieRecord> = Vec::new();
        let mut i: usize = 0;
        while i < n
            invariant
                0 <= i <= n,
                n == self.records@.len(),
                out@ =~= spec_cookies_for_domain(self.records@.subrange(0, i as int), domain@),
            decreases n - i,
        {
            proof {
                assert(self.records@.subrange(0, i + 1).drop_last() =~= self.records@.subrange(
                    0,
                    i as int,
                ));
                assert(self.records@.subrange(0, i + 1).last() == self.records@[i as int]);
            }
            if str_eq(self.records[i].domain.as_str(), domain) {
                let dup = self.records[i].duplicate();
                out.push(dup);
            }
            i += 1;
        }
        proof {
            assert(self.records@.subrange(0, n as int) =~= self.records@);
        }
        out
    }

    /// The value of one domain-qualified cookie.
    pub fn get_cookie_value(&self, domain: &str, name: &str) -> (r: Option<String>)
        ensures
            match r {
                Some(v) => spec_cookie_value(self.records@, domain@, name@) == Some(v@),
                None => spec_cookie_value(self.records@, domain@, name@) is None,
            },
    {
        let n = self.records.len();
        let mut i: usize = 0;
        proof {
            assert(self.records@.skip(0) =~= self.records@);
        }
        while i < n
            invariant
                0 <= i <= n,
                n == self.records@.len(),
                spec_cookie_value(self.records@, domain@, name@) == spec_cookie_value(
                    self.records@.skip(i as int),
                    domain@,
                    name@,
                ),
            decreases n - i,
        {
            let r = &self.records[i];
            proof {
                assert(self.records@.skip(i as int)[0] == self.records@[i as int]);
                assert(self.records@.skip(i as int).drop_first() =~= self.records@.skip(i + 1));
            }
            if str_eq(r.domain.as_str(), domain) && str_eq(r.name.as_str(), name) {
                return Some(r.value.clone());
            }
            i += 1;
        }
        proof {
            assert(self.records@.skip(n as int) =~= Seq::<CookieRecord>::empty());
        }
        None
    }

    /// The Cookie header for one domain: its records as "name=value" joined
    /// with "; ", or nothing where the domain has no cookies.
    pub fn dump_cookies_by_domain(&self, domain: &str) -> (r: Option<String>)
        ensures
            match r {
                Some(s) => spec_cookies_for_domain(self.records@, domain@).len() > 0 && s@
                    == spec_cookie_header(spec_cookies_for_domain(self.records@, domain@)),
                None => spec_cookies_for_domain(self.records@, domain@).len() == 0,
            },
    {
        let scoped = self.cookies_for_domain(domain);
        let n = scoped.len();
        if n == 0 {
            return None;
        }
        let mut out = String::new();
        let mut i: usize = 0;
        while i < n
            invariant
                0 <= i <= n,
                n == scoped@.len(),
                out@ =~= spec_cookie_header(scoped@.subrange(0, i as int)),
            decreases n - i,
        {
            proof {
                assert(scoped@.subrange(0, i + 1).drop_last() =~= scoped@.subrange(0, i as int));
                assert(scoped@.subrange(0, i + 1).last() == scoped@[i as int]);
            }
            if i > 0 {
                out.append("; ");
                proof {
                    reveal_strlit("; ");
                    assert("; "@ =~= seq![';', ' ']);
                }
            }
            out.append(scoped[i].name.as_str());
            string_push(&mut out, '=');
            out.append(scoped[i].value.as_str());
            proof {
                assert(out@ =~= spec_cookie_header(scoped@.subrange(0, i + 1)));
            }
            i += 1;
        }
        proof {
            assert(scoped@.subrange(0, n as int) =~= scoped@);
        }
        Some(out)
    }
}

/// The store after installing a batch of cookies in order, each replacing
/// its own `(domain, name)` record.
pub open spec fn spec_add_all(rs: Seq<CookieRecord>, cs: Seq<CookieRecord>) -> Seq<CookieRecord>
    decreases cs.len(),
{
    if cs.len() == 0 {
        rs
    } else {
        spec_remove_cookie(spec_add_all(rs, cs.drop_last()), cs.last().domain@, cs.last().name@)
            + seq![cs.last()]
    }
}

/// No two records of the batch share a domain and a name.
pub open spec fn spec_distinct_keys(cs: Seq<CookieRecord>) -> bool {
    forall|i: int, j: int|
        0 <= i < j < cs.len() ==> !spec_cookie_matches(
            #[trigger] cs[i],
            (#[trigger] cs[j]).domain@,
            cs[j].name@,
        )
}

/// Appending one record resolves a lookup that the front does not.
proof fn lemma_value_append_one(s: Seq<CookieRecord>, y: CookieRecord, d: Seq<char>, n: Seq<char>)
    ensures
        spec_cookie_value(s + seq![y], d, n) == (if spec_cookie_value(s, d, n) is Some {
            spec_cookie_value(s, d, n)
        } else if spec_cookie_matches(y, d, n) {
            Some(y.value@)
        } else {
            None
        }),
    decreases s.len(),
{
    if s.len() == 0 {
        assert((s + seq![y])[0] == y);
        assert((s + seq![y]).drop_first() =~= Seq::<CookieRecord>::empty());
    } else {
        assert((s + seq![y])[0] == s[0]);
        assert((s + seq![y]).drop_first() =~= s.drop_first() + seq![y]);
        lemma_value_append_one(s.drop_first(), y, d, n);
    }
}

/// Removing one address leaves every other lookup as it was.
proof fn lemma_remove_preserves_other(
    rs: Seq<CookieRecord>,
    d: Seq<char>,
    n: Seq<char>,
    d2: Seq<char>,
    n2: Seq<char>,
)
    requires
        !(d2 == d && n2 == n),
    ensures
        spec_cookie_value(spec_remove_cookie(rs, d, n), d2, n2) == spec_cookie_value(rs, d2, n2),
    decreases rs.len(),
{
    if rs.len() > 0 {
        lemma_remove_preserves_other(rs.drop_last(), d, n, d2, n2);
        let pre = spec_remove_cookie(rs.drop_last(), d, n);
        assert(rs =~= rs.drop_last() + seq![rs.last()]);
        lemma_value_append_one(rs.drop_last(), rs.last(), d2, n2);
        if spec_cookie_matches(rs.last(), d, n) {
            assert(spec_remove_cookie(rs, d, n) =~= pre);
            assert(!spec_cookie_matches(rs.last(), d2, n2));
        } else {
            assert(spec_remove_cookie(rs, d, n) =~= pre + seq![rs.last()]);
            lemma_value_append_one(pre, rs.last(), d2, n2);
        }
    }
}

/// Installing a batch leaves alone every lookup whose address the batch
/// does not touch.
proof fn lemma_add_all_preserves(
    rs: Seq<CookieRecord>,
    cs: Seq<CookieRecord>,
    d: Seq<char>,
    n: Seq<char>,
)
    requires
        forall|j: int| 0 <= j < cs.len() ==> !spec_cookie_matches(#[trigger] cs[j], d, n),
    ensures
        spec_cookie_value(spec_add_all(rs, cs), d, n) == spec_cookie_value(rs, d, n),
    decreases cs.len(),
{
    if cs.len() > 0 {
        assert(forall|j: int|
            0 <= j < cs.drop_last().len() ==> !spec_cookie_matches(
                #[trigger] cs.drop_last()[j],
                d,
                n,
            ));
        lemma_add_all_preserves(rs, cs.drop_last(), d, n);
        let prev = spec_add_all(rs, cs.drop_last());
        let y = cs.last();
        assert(!spec_cookie_matches(y, d, n));
        lemma_remove_preserves_other(prev, y.domain@, y.name@, d, n);
        lemma_value_append_one(spec_remove_cookie(prev, y.domain@, y.name@), y, d, n);
    }
}

/// After installing a batch with pairwise distinct addresses, looking any
/// of them up yields exactly the installed value.
pub proof fn lemma_add_all_lookup(rs: Seq<CookieRecord>, cs: Seq<CookieRecord>, i: int)
    requires
        spec_distinct_keys(cs),
        0 <= i < cs.len(),
    ensures
        spec_cookie_value(spec_add_all(rs, cs), cs[i].domain@, cs[i].name@) == Some(cs[i].value@),
    decreases cs.len(),
{
    let y = cs.last();
    let prev = spec_add_all(rs, cs.drop_last());
    let removed = spec_remove_cookie(prev, y.domain@, y.name@);
    lemma_remove_cookie_elements(prev, y.domain@, y.name@);
    lemma_value_append_one(removed, y, cs[i].domain@, cs[i].name@);
    if i == cs.len() - 1 {
        // the lookup walks past the removed front and finds the new record
        lemma_value_none_when_no_match(removed, y.domain@, y.name@);
    } else {
        assert(spec_distinct_keys(cs.drop_last()));
        lemma_add_all_lookup(rs, cs.drop_last(), i);
        assert(cs.drop_last()[i] == cs[i]);
        assert(!spec_cookie_matches(cs[i], y.domain@, y.name@));
        lemma_remove_preserves_other(prev, y.domain@, y.name@, cs[i].domain@, cs[i].name@);
    }
}

/// A lookup over records that all miss the address yields nothing.
proof fn lemma_value_none_when_no_match(s: Seq<CookieRecord>, d: Seq<char>, n: Seq<char>)
    requires
        forall|k: int| 0 <= k < s.len() ==> !spec_cookie_matches(#[trigger] s[k], d, n),
    ensures
        spec_cookie_value(s, d, n) is None,
    decreases s.len(),
{
    if s.len() > 0 {
        assert(forall|k: int|
            0 <= k < s.drop_first().len() ==> s.drop_first()[k] == #[trigger] s[k + 1]);
        lemma_value_none_when_no_match(s.drop_first(), d, n);
    }
}

/// Every record returned for a domain is scoped to that domain.
pub proof fn lemma_cookies_for_domain_scoped(rs: Seq<CookieRecord>, domain: Seq<char>)
    ensures
        forall|i: int|
            0 <= i < spec_cookies_for_domain(rs, domain).len() ==> (
            #[trigger] spec_cookies_for_domain(rs, domain)[i]).domain@ == domain,
    decreases rs.len(),
{
    if rs.len() > 0 {
        lemma_cookies_for_domain_scoped(rs.drop_last(), domain);
        let pre = spec_cookies_for_domain(rs.drop_last(), domain);
        let all = spec_cookies_for_domain(rs, domain);
        assert forall|i: int| 0 <= i < all.len() implies all[i].domain@ == domain by {
            if i < pre.len() {
                assert(all[i] == pre[i]);
            } else {
                assert(all[i] == rs.last());
            }
        }
    }
}

/// Every record of the domain is returned: nothing scoped to the queried
/// domain is dropped.
pub proof fn lemma_cookies_for_domain_complete(rs: Seq<CookieRecord>, domain: Seq<char>, i: int)
    requires
        0 <= i < rs.len(),
        rs[i].domain@ == domain,
    ensures
        spec_cookies_for_domain(rs, domain).contains(rs[i]),
    decreases rs.len(),
{
    if i == rs.len() - 1 {
        let f = spec_cookies_for_domain(rs, domain);
        assert(f[f.len() - 1] == rs[i]);
    } else {
        lemma_cookies_for_domain_complete(rs.drop_last(), domain, i);
        let pre = spec_cookies_for_domain(rs.drop_last(), domain);
        let k = choose|k: int| 0 <= k < pre.len() && pre[k] == rs.drop_last()[i];
        assert(spec_cookies_for_domain(rs, domain)[k] == rs[i]);
    }
}

/// Nothing is invented: every record a domain query yields was in the
/// store, so no value can leak in from anywhere else either.
pub proof fn lemma_cookies_for_domain_members(rs: Seq<CookieRecord>, domain: Seq<char>)
    ensures
        forall|i: int|
            0 <= i < spec_cookies_for_domain(rs, domain).len() ==> rs.contains(
                #[trigger] spec_cookies_for_domain(rs, domain)[i],
            ),
    decreases rs.len(),
{
    if rs.len() > 0 {
        lemma_cookies_for_domain_members(rs.drop_last(), domain);
        let pre = spec_cookies_for_domain(rs.drop_last(), domain);
        let all = spec_cookies_for_domain(rs, domain);
        assert forall|i: int| 0 <= i < all.len() implies rs.contains(all[i]) by {
            if i < pre.len() {
                assert(all[i] == pre[i]);
                let a = choose|a: int|
                    0 <= a < rs.drop_last().len() && rs.drop_last()[a] == pre[i];
                assert(rs[a] == all[i]);
            } else {
                assert(all[i] == rs.last());
                assert(rs[rs.len() - 1] == all[i]);
            }
        }
    }
}

/// Domain isolation: a query for one domain never yields a record scoped to
/// any other domain.
pub proof fn lemma_domain_isolation(rs: Seq<CookieRecord>, d1: Seq<char>, d2: Seq<char>)
    requires
        d1 != d2,
    ensures
        forall|i: int|
            0 <= i < spec_cookies_for_domain(rs, d1).len() ==> (
            #[trigger] spec_cookies_for_domain(rs, d1)[i]).domain@ != d2,
{
    lemma_cookies_for_domain_scoped(rs, d1);
}

} // verus!

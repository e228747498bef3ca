use vstd::prelude::*;
use crate::error::Error;
use crate::models::Proxy;
use crate::broadcast::Outcome;

verus! {

/// Every url in `s` occurs once.
pub open spec fn unique_urls(s: Seq<Seq<char>>) -> bool {
    forall|i: int, j: int| 0 <= i < j < s.len() ==> s[i] != s[j]
}

/// `s` with every occurrence of `u` taken out, the rest in order.
pub open spec fn without_url(s: Seq<Seq<char>>, u: Seq<char>) -> Seq<Seq<char>>
    decreases s.len(),
{
    if s.len() == 0 {
        s
    } else if s.last() == u {
        without_url(s.drop_last(), u)
    } else {
        without_url(s.drop_last(), u).push(s.last())
    }
}

/// `s` with each url kept at its first occurrence only.
pub open spec fn first_occurrences(s: Seq<Seq<char>>) -> Seq<Seq<char>>
    decreases s.len(),
{
    if s.len() == 0 {
        s
    } else if first_occurrences(s.drop_last()).contains(s.last()) {
        first_occurrences(s.drop_last())
    } else {
        first_occurrences(s.drop_last()).push(s.last())
    }
}

/// How many times `u` occurs in `s`.
pub open spec fn url_count(s: Seq<Seq<char>>, u: Seq<char>) -> nat
    decreases s.len(),
{
    if s.len() == 0 {
        0
    } else {
        url_count(s.drop_last(), u) + if s.last() == u { 1nat } else { 0nat }
    }
}

proof fn lemma_drop_last_unique(s: Seq<Seq<char>>)
    requires
        unique_urls(s),
        s.len() > 0,
    ensures
        unique_urls(s.drop_last()),
        !s.drop_last().contains(s.last()),
{
    let d = s.drop_last();
    assert forall|i: int, j: int| 0 <= i < j < d.len() implies d[i] != d[j] by {
        assert(d[i] == s[i] && d[j] == s[j]);
    }
    if d.contains(s.last()) {
        let k = choose|k: int| 0 <= k < d.len() && d[k] == s.last();
        assert(s[k] == s[s.len() - 1]);
    }
}

proof fn lemma_push_unique(s: Seq<Seq<char>>, x: Seq<char>)
    requires
        unique_urls(s),
        !s.contains(x),
    ensures
        unique_urls(s.push(x)),
{
    let t = s.push(x);
    assert forall|i: int, j: int| 0 <= i < j < t.len() implies t[i] != t[j] by {
        if j == s.len() {
            assert(t[i] == s[i]);
            if s[i] == x {
                assert(s.contains(x));
            }
        } else {
            assert(t[i] == s[i] && t[j] == s[j]);
        }
    }
}

proof fn lemma_without_url_members(s: Seq<Seq<char>>, u: Seq<char>)
    ensures
        forall|x: Seq<char>| #[trigger] without_url(s, u).contains(x) ==> s.contains(x) && x != u,
    decreases s.len(),
{
    if s.len() > 0 {
        let d = s.drop_last();
        lemma_without_url_members(d, u);
        let w = without_url(d, u);
        assert forall|x: Seq<char>| without_url(s, u).contains(x) implies s.contains(x) && x != u by {
            let r = without_url(s, u);
            if s.last() == u {
                assert(r == w);
            } else {
                assert(r == w.push(s.last()));
            }
            let k = choose|k: int| 0 <= k < r.len() && r[k] == x;
            if s.last() != u && k == w.len() {
                assert(s[s.len() - 1] == x);
            } else {
                assert(w[k] == x);
                assert(w.contains(x));
                assert(d.contains(x) && x != u);
                let j = choose|j: int| 0 <= j < d.len() && d[j] == x;
                assert(s[j] == x);
            }
        }
    }
}

proof fn lemma_without_url_unique(s: Seq<Seq<char>>, u: Seq<char>)
    requires
        unique_urls(s),
    ensures
        unique_urls(without_url(s, u)),
    decreases s.len(),
{
    if s.len() > 0 {
        let d = s.drop_last();
        lemma_drop_last_unique(s);
        lemma_without_url_unique(d, u);
        lemma_without_url_members(d, u);
        if s.last() != u {
            lemma_push_unique(without_url(d, u), s.last());
        }
    }
}

proof fn lemma_without_absent(s: Seq<Seq<char>>, u: Seq<char>)
    requires
        !s.contains(u),
    ensures
        without_url(s, u) == s,
    decreases s.len(),
{
    if s.len() > 0 {
        let d = s.drop_last();
        if d.contains(u) {
            let k = choose|k: int| 0 <= k < d.len() && d[k] == u;
            assert(s[k] == u);
        }
        assert(s[s.len() - 1] != u);
        lemma_without_absent(d, u);
        assert(d.push(s.last()) =~= s);
    }
}

proof fn lemma_first_occurrences_unique(s: Seq<Seq<char>>)
    ensures
        unique_urls(first_occurrences(s)),
    decreases s.len(),
{
    if s.len() > 0 {
        lemma_first_occurrences_unique(s.drop_last());
        if !first_occurrences(s.drop_last()).contains(s.last()) {
            lemma_push_unique(first_occurrences(s.drop_last()), s.last());
        }
    }
}

proof fn lemma_count_absent(s: Seq<Seq<char>>, u: Seq<char>)
    requires
        !s.contains(u),
    ensures
        url_count(s, u) == 0,
    decreases s.len(),
{
    if s.len() > 0 {
        let d = s.drop_last();
        if d.contains(u) {
            let k = choose|k: int| 0 <= k < d.len() && d[k] == u;
            assert(s[k] == u);
        }
        assert(s[s.len() - 1] != u);
        lemma_count_absent(d, u);
    }
}

proof fn lemma_count_present(s: Seq<Seq<char>>, u: Seq<char>)
    requires
        unique_urls(s),
        s.contains(u),
    ensures
        url_count(s, u) == 1,
    decreases s.len(),
{
    let d = s.drop_last();
    lemma_drop_last_unique(s);
    if s.last() == u {
        lemma_count_absent(d, u);
    } else {
        let k = choose|k: int| 0 <= k < s.len() && s[k] == u;
        assert(k != s.len() - 1);
        assert(d[k] == u);
        lemma_count_present(d, u);
    }
}

/// Registering a url that was absent leaves exactly one record with that url,
/// and the registry still holds each url once.
pub proof fn lemma_add_registers_once(s: Seq<Seq<char>>, u: Seq<char>)
    requires
        unique_urls(s),
        !s.contains(u),
    ensures
        url_count(s.push(u), u) == 1,
        unique_urls(s.push(u)),
{
    lemma_count_absent(s, u);
    assert(s.push(u).drop_last() =~= s);
    lemma_push_unique(s, u);
}

/// In a registry that holds each url once, a registered url has exactly one
/// record, so a refused second registration leaves no duplicate row.
pub proof fn lemma_registered_url_has_one_record(s: Seq<Seq<char>>, u: Seq<char>)
    requires
        unique_urls(s),
        s.contains(u),
    ensures
        url_count(s, u) == 1,
{
    lemma_count_present(s, u);
}

/// After a removal the url is absent, whatever was registered before, and
/// removing it a second time changes nothing.
pub proof fn lemma_removed_url_is_gone(s: Seq<Seq<char>>, u: Seq<char>)
    ensures
        !without_url(s, u).contains(u),
        without_url(without_url(s, u), u) == without_url(s, u),
{
    lemma_without_url_members(s, u);
    lemma_without_absent(without_url(s, u), u);
}

/// The urls of a sequence of records, in order.
pub open spec fn urls_of(s: Seq<Proxy>) -> Seq<Seq<char>> {
    s.map_values(|p: Proxy| p.url@)
}

/// The durable set of peers, read and written one operation at a time.
///
/// Its view is the sequence of registered urls, in order of registration;
/// no url occurs twice.
pub struct ProxyService {
    proxies: Vec<Proxy>,
}

impl View for ProxyService {
    type V = Seq<Seq<char>>;

    closed spec fn view(&self) -> Seq<Seq<char>> {
        urls_of(self.proxies@)
    }
}

impl ProxyService {
    /// No url is registered twice.
    pub open spec fn wf(&self) -> bool {
        unique_urls(self@)
    }

    /// A registry with no peer.
    pub fn new() -> (r: ProxyService)
        ensures
            r.wf(),
            r@ == Seq::<Seq<char>>::empty(),
    {
        let r = ProxyService { proxies: Vec::new() };
        assert(r@ =~= Seq::<Seq<char>>::empty());
        r
    }

    /// Whether `url` is registered.
    pub fn contains(&self, url: &str) -> (r: bool)
        ensures
            r == self@.contains(url@),
    {
        let u = url.to_owned();
        let mut i: usize = 0;
        while i < self.proxies.len()
            invariant
                i <= self.proxies.len(),
                u@ == url@,
                forall|j: int| 0 <= j < i ==> self@[j] != url@,
            decreases self.proxies.len() - i,
        {
            if self.proxies[i].url == u {
                assert(self@[i as int] == url@);
                return true;
            }
            i = i + 1;
        }
        false
    }

    /// A registry loaded from stored records; a url stored twice is kept at
    /// its first record.
    pub fn init(records: &Vec<Proxy>) -> (r: ProxyService)
        ensures
            r.wf(),
            r@ == first_occurrences(urls_of(records@)),
    {
        let mut r = ProxyService::new();
        let mut i: usize = 0;
        while i < records.len()
            invariant
                i <= records.len(),
                r.wf(),
                r@ == first_occurrences(urls_of(records@).subrange(0, i as int)),
            decreases records.len() - i,
        {
            let ghost before = urls_of(records@).subrange(0, i as int);
            let ghost after = urls_of(records@).subrange(0, i as int + 1);
            assert(after.drop_last() =~= before);
            assert(after.last() == records@[i as int].url@);
            let _ = r.add_proxy(records[i].url.as_str());
            i = i + 1;
        }
        assert(urls_of(records@).subrange(0, records.len() as int) =~= urls_of(records@));
        r
    }

    /// The registered peers, in order of registration.
    pub fn get_proxies(&self) -> (r: Vec<Proxy>)
        ensures
            urls_of(r@) == self@,
    {
        let mut r: Vec<Proxy> = Vec::new();
        let mut i: usize = 0;
        while i < self.proxies.len()
            invariant
                i <= self.proxies.len(),
                r.len() == i,
                self@.len() == self.proxies.len(),
                urls_of(r@) =~= self@.subrange(0, i as int),
            decreases self.proxies.len() - i,
        {
            let c = self.proxies[i].url.clone();
            r.push(Proxy { url: c });
            assert(r@[i as int].url@ == self@[i as int]);
            i = i + 1;
            assert(urls_of(r@) =~= self@.subrange(0, i as int));
        }
        assert(self@.subrange(0, i as int) =~= self@);
        r
    }

    /// Registers `url` unless it is registered already, and returns the new
    /// record.
    pub fn add_proxy(&mut self, url: &str) -> (r: Result<Proxy, Error>)
        requires
            old(self).wf(),
        ensures
            final(self).wf(),
            old(self)@.contains(url@) ==> r == Err::<Proxy, Error>(Error::ProxyAlreadyExists)
                && final(self)@ == old(self)@,
            !old(self)@.contains(url@) ==> r is Ok && r->Ok_0.url@ == url@
                && final(self)@ == old(self)@.push(url@),
    {
        if self.contains(url) {
            return Err(Error::ProxyAlreadyExists);
        }
        proof {
            lemma_push_unique(self@, url@);
        }
        self.proxies.push(Proxy { url: url.to_owned() });
        assert(self@ =~= old(self)@.push(url@));
        Ok(Proxy { url: url.to_owned() })
    }

    /// Deregisters `url`; a url that is not registered is no error.
    pub fn delete_proxy(&mut self, url: &str) -> (r: Result<(), Error>)
        requires
            old(self).wf(),
        ensures
            final(self).wf(),
            r is Ok,
            final(self)@ == without_url(old(self)@, url@),
    {
        let u = url.to_owned();
        let mut kept: Vec<Proxy> = Vec::new();
        let mut i: usize = 0;
        while i < self.proxies.len()
            invariant
                i <= self.proxies.len(),
                u@ == url@,
                urls_of(kept@) == without_url(self@.subrange(0, i as int), url@),
            decreases self.proxies.len() - i,
        {
            let ghost before = self@.subrange(0, i as int);
            let ghost after = self@.subrange(0, i as int + 1);
            assert(after.drop_last() =~= before);
            if self.proxies[i].url != u {
                kept.push(Proxy { url: self.proxies[i].url.clone() });
                assert(urls_of(kept@) =~= without_url(before, url@).push(self@[i as int]));
            }
            i = i + 1;
        }
        assert(self@.subrange(0, i as int) =~= self@);
        proof {
            lemma_without_url_unique(self@, url@);
        }
        self.proxies = kept;
        Ok(())
    }

    /// The last step of registration: a failed liveness probe rejects the
    /// candidate and leaves the registry as it was; a probe that answered
    /// lets the candidate be registered as `add_proxy` does.
    pub fn add_probed_proxy(&mut self, url: &str, probe: &Outcome) -> (r: Result<Proxy, Error>)
        requires
            old(self).wf(),
        ensures
            final(self).wf(),
            probe is Failed ==> r == Err::<Proxy, Error>(Error::CannotReachProxy)
                && final(self)@ == old(self)@,
            probe is Delivered && old(self)@.contains(url@) ==> r == Err::<Proxy, Error>(
                Error::ProxyAlreadyExists,
            ) && final(self)@ == old(self)@,
            probe is Delivered && !old(self)@.contains(url@) ==> r is Ok && r->Ok_0.url@ == url@
                && final(self)@ == old(self)@.push(url@),
    {
        match probe {
            Outcome::Failed(_) => Err(Error::CannotReachProxy),
            Outcome::Delivered => self.add_proxy(url),
        }
    }
}

/// Checks a registration that a store carried out: the store must have given
/// the new record an id, and reading the record back must find it.
pub fn confirm_created(has_id: bool, found: Option<Proxy>) -> (r: Result<Proxy, Error>)
    ensures
        !has_id ==> r == Err::<Proxy, Error>(Error::Generic),
        has_id && found is None ==> r == Err::<Proxy, Error>(Error::CannotCreateProxy),
        has_id && found is Some ==> r == Ok::<Proxy, Error>(found->0),
{
    if !has_id {
        Err(Error::Generic)
    } else {
        match found {
            Some(p) => Ok(p),
            None => Err(Error::CannotCreateProxy),
        }
    }
}

} // verus!

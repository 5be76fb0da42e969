//! Per-tenant request and error logs, kept in a bounded list, newest last.
use vstd::prelude::*;
use crate::clock;
use crate::text::{contains_seq, contains_str, owned, str_eq};

verus! {

/// Kind of a log entry.
#[derive(Debug, Clone, Copy, PartialEq, Eq, Structural)]
pub enum LogType {
    Request,
    Error,
    RateLimit,
    AuthFailure,
    System,
}

/// The name of a log kind.
pub open spec fn log_type_name(t: LogType) -> Seq<char> {
    match t {
        LogType::Request => "request"@,
        LogType::Error => "error"@,
        LogType::RateLimit => "rate_limit"@,
        LogType::AuthFailure => "auth_failure"@,
        LogType::System => "system"@,
    }
}

impl LogType {
    /// The kind's name.
    pub fn as_str(&self) -> (r: &'static str)
        ensures
            r@ == log_type_name(*self),
    {
        match self {
            LogType::Request => "request",
            LogType::Error => "error",
            LogType::RateLimit => "rate_limit",
            LogType::AuthFailure => "auth_failure",
            LogType::System => "system",
        }
    }
}

/// A log entry (time in milliseconds since the epoch; the duration is kept
/// as the bit pattern of its `f64` value).
#[derive(Debug)]
pub struct LogEntry {
    pub timestamp_millis: i64,
    pub tenant_id: String,
    pub log_type: LogType,
    pub message: String,
    pub duration_ms_bits: u64,
    pub status_code: u16,
    pub details: Option<String>,
}

/// Abstract value of a log entry.
pub struct LogEntryView {
    pub timestamp_millis: i64,
    pub tenant_id: Seq<char>,
    pub log_type: LogType,
    pub message: Seq<char>,
    pub duration_ms_bits: u64,
    pub status_code: u16,
    pub details: Option<Seq<char>>,
}

impl View for LogEntry {
    type V = LogEntryView;

    open spec fn view(&self) -> LogEntryView {
        LogEntryView {
            timestamp_millis: self.timestamp_millis,
            tenant_id: self.tenant_id@,
            log_type: self.log_type,
            message: self.message@,
            duration_ms_bits: self.duration_ms_bits,
            status_code: self.status_code,
            details: match self.details {
                Some(d) => Some(d@),
                None => None,
            },
        }
    }
}

impl Clone for LogEntry {
    fn clone(&self) -> (r: Self)
        ensures
            r@ == self@,
    {
        LogEntry {
            timestamp_millis: self.timestamp_millis,
            tenant_id: self.tenant_id.clone(),
            log_type: self.log_type,
            message: self.message.clone(),
            duration_ms_bits: self.duration_ms_bits,
            status_code: self.status_code,
            details: match &self.details {
                Some(d) => Some(d.clone()),
                None => None,
            },
        }
    }
}

/// The views of a list of entries.
pub open spec fn entry_views(s: Seq<LogEntry>) -> Seq<LogEntryView> {
    s.map_values(|e: LogEntry| e@)
}

/// An entry matches: of the tenant (if given), of the kind (if given), and
/// holding the term in its message or details (if given).
pub open spec fn log_matches(e: LogEntryView, tenant: Option<Seq<char>>, kind: Option<LogType>, term: Option<Seq<char>>) -> bool {
    &&& (tenant matches Some(t) ==> e.tenant_id == t)
    &&& (kind matches Some(k) ==> e.log_type == k)
    &&& (term matches Some(w) ==> (contains_seq(e.message, w) || (e.details matches Some(d) && contains_seq(d, w))))
}

/// The matching entries of `s`, newest (last) first.
pub open spec fn newest_matching(s: Seq<LogEntryView>, tenant: Option<Seq<char>>, kind: Option<LogType>, term: Option<Seq<char>>) -> Seq<LogEntryView>
    decreases s.len(),
{
    if s.len() == 0 {
        Seq::empty()
    } else {
        newest_matching(s.drop_first(), tenant, kind, term)
            + if log_matches(s[0], tenant, kind, term) { seq![s[0]] } else { Seq::empty() }
    }
}

/// At most the first `n` entries of `s`.
pub open spec fn at_most<T>(s: Seq<T>, n: nat) -> Seq<T> {
    if s.len() <= n { s } else { s.take(n as int) }
}

proof fn lemma_newest_split(a: Seq<LogEntryView>, b: Seq<LogEntryView>, tenant: Option<Seq<char>>, kind: Option<LogType>, term: Option<Seq<char>>)
    ensures
        newest_matching(a + b, tenant, kind, term) == newest_matching(b, tenant, kind, term) + newest_matching(a, tenant, kind, term),
    decreases a.len(),
{
    if a.len() == 0 {
        assert(a + b =~= b);
        assert(newest_matching(b, tenant, kind, term) + newest_matching(a, tenant, kind, term) =~= newest_matching(b, tenant, kind, term));
    } else {
        lemma_newest_split(a.drop_first(), b, tenant, kind, term);
        assert((a + b).drop_first() =~= a.drop_first() + b);
        assert((a + b)[0] == a[0]);
        let x = if log_matches(a[0], tenant, kind, term) { seq![a[0]] } else { Seq::empty() };
        assert(newest_matching(b, tenant, kind, term) + newest_matching(a.drop_first(), tenant, kind, term) + x
            =~= newest_matching(b, tenant, kind, term) + (newest_matching(a.drop_first(), tenant, kind, term) + x));
    }
}

/// The entries of `s` not of `tenant`, in order.
pub open spec fn without_tenant(s: Seq<LogEntryView>, tenant: Seq<char>) -> Seq<LogEntryView>
    decreases s.len(),
{
    if s.len() == 0 {
        Seq::empty()
    } else if s.last().tenant_id == tenant {
        without_tenant(s.drop_last(), tenant)
    } else {
        without_tenant(s.drop_last(), tenant).push(s.last())
    }
}

/// Number of entries of `s` matching.
pub open spec fn count_matching(s: Seq<LogEntryView>, tenant: Option<Seq<char>>, kind: Option<LogType>) -> nat
    decreases s.len(),
{
    if s.len() == 0 {
        0
    } else {
        count_matching(s.drop_last(), tenant, kind) + if log_matches(s.last(), tenant, kind, None) { 1nat } else { 0nat }
    }
}

/// The durations of the request entries of `tenant` in `s`, oldest first.
pub open spec fn request_durations_of(s: Seq<LogEntryView>, tenant: Seq<char>) -> Seq<u64>
    decreases s.len(),
{
    if s.len() == 0 {
        Seq::empty()
    } else if log_matches(s.last(), Some(tenant), Some(LogType::Request), None) {
        request_durations_of(s.drop_last(), tenant).push(s.last().duration_ms_bits)
    } else {
        request_durations_of(s.drop_last(), tenant)
    }
}

proof fn lemma_count_bound(s: Seq<LogEntryView>, tenant: Option<Seq<char>>, kind: Option<LogType>)
    ensures
        count_matching(s, tenant, kind) <= s.len(),
    decreases s.len(),
{
    if s.len() > 0 {
        lemma_count_bound(s.drop_last(), tenant, kind);
    }
}

/// Entry counts of one tenant.
#[derive(Debug, Clone, Copy, Default)]
pub struct LogCounts {
    pub total_entries: usize,
    pub error_count: usize,
    pub rate_limit_violations: usize,
    pub request_count: usize,
}

/// Log of tenant operations, keeping at most `max_entries` (at least the
/// newest one).
pub struct TenantLogger {
    logs: Vec<LogEntry>,
    max_entries: usize,
}

impl TenantLogger {
    /// The entries, oldest first.
    pub closed spec fn spec_logs(&self) -> Seq<LogEntryView> {
        entry_views(self.logs@)
    }

    /// The entry limit.
    pub closed spec fn spec_max(&self) -> usize {
        self.max_entries
    }

    /// An empty log keeping at most `max_entries`.
    pub fn new(max_entries: usize) -> (r: Self)
        ensures
            r.spec_logs().len() == 0,
            r.spec_max() == max_entries,
    {
        let r = TenantLogger { logs: Vec::new(), max_entries };
        assert(r.spec_logs() =~= Seq::<LogEntryView>::empty());
        r
    }

    /// Record an entry now; see `log_at`.
    pub fn log(&mut self, tenant_id: String, log_type: LogType, message: String, duration_ms_bits: u64, status_code: u16, details: Option<String>)
        ensures
            final(self).spec_max() == old(self).spec_max(),
            exists|e: LogEntryView| e.tenant_id == tenant_id@ && e.log_type == log_type && e.message == message@
                && e.duration_ms_bits == duration_ms_bits && e.status_code == status_code
                && e.details == (match details { Some(d) => Some(d@), None => None::<Seq<char>> })
                && final(self).spec_logs() == #[trigger] Self::appended(old(self).spec_logs(), e, old(self).spec_max()),
    {
        let now = clock::unix_millis() as i64;
        self.log_at(tenant_id, log_type, message, duration_ms_bits, status_code, details, now);
    }

    /// The log after `e` is appended: when it is full (and not empty) the
    /// oldest entry leaves first.
    pub open spec fn appended(s: Seq<LogEntryView>, e: LogEntryView, max: usize) -> Seq<LogEntryView> {
        if s.len() >= max && s.len() > 0 { s.drop_first().push(e) } else { s.push(e) }
    }

    /// Record an entry stamped `now_millis`.
    pub fn log_at(&mut self, tenant_id: String, log_type: LogType, message: String, duration_ms_bits: u64, status_code: u16, details: Option<String>, now_millis: i64)
        ensures
            final(self).spec_max() == old(self).spec_max(),
            final(self).spec_logs() == Self::appended(old(self).spec_logs(), LogEntryView {
                timestamp_millis: now_millis,
                tenant_id: tenant_id@,
                log_type,
                message: message@,
                duration_ms_bits,
                status_code,
                details: match details { Some(d) => Some(d@), None => None },
            }, old(self).spec_max()),
    {
        let entry = LogEntry { timestamp_millis: now_millis, tenant_id, log_type, message, duration_ms_bits, status_code, details };
        let ghost ev = entry@;
        let ghost l0 = self.logs@;
        if self.logs.len() >= self.max_entries && self.logs.len() > 0 {
            let _ = self.logs.remove(0);
            assert(self.logs@ =~= l0.drop_first());
            assert(entry_views(self.logs@) =~= entry_views(l0).drop_first());
        }
        let ghost l1 = self.logs@;
        self.logs.push(entry);
        assert(entry_views(self.logs@) =~= entry_views(l1).push(ev));
    }

    /// The newest matching entries, at most `limit`, newest first.
    fn select(&self, tenant: Option<&str>, kind: Option<LogType>, term: Option<&str>, limit: usize) -> (r: Vec<LogEntry>)
        ensures
            entry_views(r@) == at_most(newest_matching(self.spec_logs(),
                match tenant { Some(t) => Some(t@), None => None }, kind,
                match term { Some(w) => Some(w@), None => None }), limit as nat),
    {
        let ghost tv = match tenant { Some(t) => Some(t@), None => None::<Seq<char>> };
        let ghost wv = match term { Some(w) => Some(w@), None => None::<Seq<char>> };
        let ghost s = self.spec_logs();
        let n = self.logs.len();
        let mut out: Vec<LogEntry> = Vec::new();
        let mut j: usize = n;
        while j > 0 && out.len() < limit
            invariant
                j <= n,
                n == s.len(),
                s == self.spec_logs(),
                entry_views(out@) == newest_matching(s.subrange(j as int, n as int), tv, kind, wv),
                out@.len() <= limit,
                tv == match tenant { Some(t) => Some(t@), None => None::<Seq<char>> },
                wv == match term { Some(w) => Some(w@), None => None::<Seq<char>> },
            decreases j,
        {
            let e = &self.logs[j - 1];
            assert(e@ == s[j - 1]);
            let t_ok = match tenant { Some(t) => str_eq(e.tenant_id.as_str(), t), None => true };
            let k_ok = match kind { Some(k) => e.log_type == k, None => true };
            let w_ok = match term {
                Some(w) => contains_str(e.message.as_str(), w) || match &e.details {
                    Some(d) => contains_str(d.as_str(), w),
                    None => false,
                },
                None => true,
            };
            let ghost o0 = out@;
            assert((t_ok && k_ok && w_ok) == log_matches(s[j - 1], tv, kind, wv));
            assert(s.subrange(j - 1, n as int).drop_first() =~= s.subrange(j as int, n as int));
            assert(s.subrange(j - 1, n as int)[0] == s[j - 1]);
            if t_ok && k_ok && w_ok {
                out.push(e.clone());
                assert(entry_views(out@) =~= entry_views(o0).push(s[j - 1]));
                assert(newest_matching(s.subrange(j as int, n as int), tv, kind, wv) + seq![s[j - 1]]
                    =~= newest_matching(s.subrange(j as int, n as int), tv, kind, wv).push(s[j - 1]));
            } else {
                assert(newest_matching(s.subrange(j as int, n as int), tv, kind, wv) + Seq::<LogEntryView>::empty()
                    =~= newest_matching(s.subrange(j as int, n as int), tv, kind, wv));
            }
            j = j - 1;
        }
        proof {
            let b = s.subrange(j as int, n as int);
            let a = s.subrange(0, j as int);
            assert(a + b =~= s);
            lemma_newest_split(a, b, tv, kind, wv);
            let full = newest_matching(s, tv, kind, wv);
            let nb = newest_matching(b, tv, kind, wv);
            if j == 0 {
                assert(a =~= Seq::<LogEntryView>::empty());
                assert(full =~= nb);
            } else {
                assert(nb.len() == limit);
                assert(full.take(limit as int) =~= nb);
            }
        }
        out
    }

    /// The newest entries of a tenant (of one kind, if given), at most
    /// `limit`, newest first.
    pub fn get_tenant_logs(&self, tenant_id: &str, limit: usize, filter_type: Option<LogType>) -> (r: Vec<LogEntry>)
        ensures
            entry_views(r@) == at_most(newest_matching(self.spec_logs(), Some(tenant_id@), filter_type, None), limit as nat),
    {
        self.select(Some(tenant_id), filter_type, None, limit)
    }

    /// The newest entries of every tenant, at most `limit`, newest first.
    pub fn get_recent_logs(&self, limit: usize) -> (r: Vec<LogEntry>)
        ensures
            entry_views(r@) == at_most(newest_matching(self.spec_logs(), None, None, None), limit as nat),
    {
        self.select(None, None, None, limit)
    }

    /// The newest error entries of a tenant, at most `limit`.
    pub fn get_error_logs(&self, tenant_id: &str, limit: usize) -> (r: Vec<LogEntry>)
        ensures
            entry_views(r@) == at_most(newest_matching(self.spec_logs(), Some(tenant_id@), Some(LogType::Error), None), limit as nat),
    {
        self.get_tenant_logs(tenant_id, limit, Some(LogType::Error))
    }

    /// The newest rate limit entries of a tenant, at most `limit`.
    pub fn get_rate_limit_logs(&self, tenant_id: &str, limit: usize) -> (r: Vec<LogEntry>)
        ensures
            entry_views(r@) == at_most(newest_matching(self.spec_logs(), Some(tenant_id@), Some(LogType::RateLimit), None), limit as nat),
    {
        self.get_tenant_logs(tenant_id, limit, Some(LogType::RateLimit))
    }

    /// The newest entries of a tenant whose message or details hold
    /// `search_term`, at most `limit`, newest first.
    pub fn search_logs(&self, tenant_id: &str, search_term: &str, limit: usize) -> (r: Vec<LogEntry>)
        ensures
            entry_views(r@) == at_most(newest_matching(self.spec_logs(), Some(tenant_id@), None, Some(search_term@)), limit as nat),
    {
        self.select(Some(tenant_id), None, Some(search_term), limit)
    }

    /// Drop every entry of a tenant.
    pub fn clear_logs(&mut self, tenant_id: &str)
        ensures
            final(self).spec_logs() == without_tenant(old(self).spec_logs(), tenant_id@),
            final(self).spec_max() == old(self).spec_max(),
    {
        let ghost s = self.spec_logs();
        let mut kept: Vec<LogEntry> = Vec::new();
        let mut i: usize = 0;
        while i < self.logs.len()
            invariant
                i <= self.logs@.len(),
                s == entry_views(self.logs@),
                entry_views(kept@) == without_tenant(s.take(i as int), tenant_id@),
            decreases self.logs@.len() - i,
        {
            assert(s.take(i + 1).drop_last() =~= s.take(i as int));
            let e = &self.logs[i];
            if !str_eq(e.tenant_id.as_str(), tenant_id) {
                let ghost k0 = kept@;
                kept.push(e.clone());
                assert(entry_views(kept@) =~= entry_views(k0).push(s[i as int]));
            }
            i = i + 1;
        }
        assert(s.take(s.len() as int) =~= s);
        self.logs = kept;
    }

    /// How many entries a tenant has, and how many are errors, rate limit
    /// violations and requests.
    pub fn get_log_counts(&self, tenant_id: &str) -> (r: LogCounts)
        ensures
            r.total_entries == count_matching(self.spec_logs(), Some(tenant_id@), None),
            r.error_count == count_matching(self.spec_logs(), Some(tenant_id@), Some(LogType::Error)),
            r.rate_limit_violations == count_matching(self.spec_logs(), Some(tenant_id@), Some(LogType::RateLimit)),
            r.request_count == count_matching(self.spec_logs(), Some(tenant_id@), Some(LogType::Request)),
    {
        let ghost s = self.spec_logs();
        let ghost t = Some(tenant_id@);
        let mut c = LogCounts { total_entries: 0, error_count: 0, rate_limit_violations: 0, request_count: 0 };
        let mut i: usize = 0;
        while i < self.logs.len()
            invariant
                i <= self.logs@.len(),
                s == entry_views(self.logs@),
                t == Some(tenant_id@),
                c.total_entries == count_matching(s.take(i as int), t, None),
                c.error_count == count_matching(s.take(i as int), t, Some(LogType::Error)),
                c.rate_limit_violations == count_matching(s.take(i as int), t, Some(LogType::RateLimit)),
                c.request_count == count_matching(s.take(i as int), t, Some(LogType::Request)),
            decreases self.logs@.len() - i,
        {
            proof {
                assert(s.take(i + 1).drop_last() =~= s.take(i as int));
                lemma_count_bound(s.take(i as int), t, None);
                lemma_count_bound(s.take(i as int), t, Some(LogType::Error));
                lemma_count_bound(s.take(i as int), t, Some(LogType::RateLimit));
                lemma_count_bound(s.take(i as int), t, Some(LogType::Request));
            }
            let e = &self.logs[i];
            if str_eq(e.tenant_id.as_str(), tenant_id) {
                c.total_entries = c.total_entries + 1;
                match e.log_type {
                    LogType::Error => { c.error_count = c.error_count + 1; },
                    LogType::RateLimit => { c.rate_limit_violations = c.rate_limit_violations + 1; },
                    LogType::Request => { c.request_count = c.request_count + 1; },
                    _ => {},
                }
            }
            i = i + 1;
        }
        assert(s.take(s.len() as int) =~= s);
        c
    }

    /// The durations (as `f64` bit patterns) of a tenant's request entries,
    /// oldest first.
    pub fn request_durations(&self, tenant_id: &str) -> (r: Vec<u64>)
        ensures
            r@ == request_durations_of(self.spec_logs(), tenant_id@),
    {
        let ghost s = self.spec_logs();
        let ghost t = Some(tenant_id@);
        let mut r: Vec<u64> = Vec::new();
        let mut i: usize = 0;
        while i < self.logs.len()
            invariant
                i <= self.logs@.len(),
                s == entry_views(self.logs@),
                t == Some(tenant_id@),
                r@ == request_durations_of(s.take(i as int), tenant_id@),
            decreases self.logs@.len() - i,
        {
            assert(s.take(i + 1).drop_last() =~= s.take(i as int));
            let e = &self.logs[i];
            if str_eq(e.tenant_id.as_str(), tenant_id) && e.log_type == LogType::Request {
                r.push(e.duration_ms_bits);
            }
            i = i + 1;
        }
        assert(s.take(s.len() as int) =~= s);
        r
    }
}

} // verus!

//! Kinds of injected faults, and what a check for one reports.

use vstd::prelude::*;
use crate::text::{owned, str_eq};

verus! {

/// Types of faults that can be injected.
#[derive(Debug, Clone, Copy, PartialEq, Eq, Hash, Structural)]
pub enum FaultType {
    /// Simulate network timeout
    NetworkTimeout,
    /// Simulate connection refused
    ConnectionRefused,
    /// Simulate high latency
    HighLatency,
    /// Simulate intermittent failures (flapping)
    Intermittent,
    /// Simulate disk full error
    DiskFull,
    /// Simulate permission denied error
    PermissionDenied,
    /// Simulate corrupted data
    DataCorruption,
    /// Simulate process crash
    ProcessCrash,
    /// Simulate partial write
    PartialWrite,
    /// Simulate S3 service unavailable
    S3Unavailable,
    /// Simulate S3 slow response
    S3SlowResponse,
    /// Simulate authentication failure
    AuthFailure,
}

impl FaultType {
    /// The snake-case name of the fault type.
    pub open spec fn spec_name(self) -> Seq<char> {
        match self {
            FaultType::NetworkTimeout => "network_timeout"@,
            FaultType::ConnectionRefused => "connection_refused"@,
            FaultType::HighLatency => "high_latency"@,
            FaultType::Intermittent => "intermittent"@,
            FaultType::DiskFull => "disk_full"@,
            FaultType::PermissionDenied => "permission_denied"@,
            FaultType::DataCorruption => "data_corruption"@,
            FaultType::ProcessCrash => "process_crash"@,
            FaultType::PartialWrite => "partial_write"@,
            FaultType::S3Unavailable => "s3_unavailable"@,
            FaultType::S3SlowResponse => "s3_slow_response"@,
            FaultType::AuthFailure => "auth_failure"@,
        }
    }

    /// The snake-case name of the fault type, as it is displayed and
    /// serialized.
    pub fn name(self) -> (r: String)
        ensures
            r@ == self.spec_name(),
    {
        match self {
            FaultType::NetworkTimeout => owned("network_timeout"),
            FaultType::ConnectionRefused => owned("connection_refused"),
            FaultType::HighLatency => owned("high_latency"),
            FaultType::Intermittent => owned("intermittent"),
            FaultType::DiskFull => owned("disk_full"),
            FaultType::PermissionDenied => owned("permission_denied"),
            FaultType::DataCorruption => owned("data_corruption"),
            FaultType::ProcessCrash => owned("process_crash"),
            FaultType::PartialWrite => owned("partial_write"),
            FaultType::S3Unavailable => owned("s3_unavailable"),
            FaultType::S3SlowResponse => owned("s3_slow_response"),
            FaultType::AuthFailure => owned("auth_failure"),
        }
    }
}

/// Result of a fault injection check.
#[derive(Debug, Clone)]
pub struct FaultResult {
    /// Whether a fault was triggered.
    pub triggered: bool,
    /// The fault type that was triggered.
    pub fault_type: Option<FaultType>,
    /// Error message to return.
    pub error_message: Option<String>,
    /// Delay to introduce.
    pub delay: Option<std::time::Duration>,
}

impl FaultResult {
    /// Create a result indicating no fault.
    pub fn no_fault() -> (r: Self)
        ensures
            !r.triggered,
            r.fault_type is None,
            r.error_message is None,
            r.delay is None,
    {
        FaultResult { triggered: false, fault_type: None, error_message: None, delay: None }
    }

    /// Create a result indicating a fault.
    pub fn fault(fault_type: FaultType, message: &str) -> (r: Self)
        ensures
            r.triggered,
            r.fault_type == Some(fault_type),
            r.error_message matches Some(m) && m@ == message@,
            r.delay is None,
    {
        FaultResult {
            triggered: true,
            fault_type: Some(fault_type),
            error_message: Some(owned(message)),
            delay: None,
        }
    }

    /// Create a result with a delay.
    pub fn with_delay(fault_type: FaultType, delay: std::time::Duration) -> (r: Self)
        ensures
            r.triggered,
            r.fault_type == Some(fault_type),
            r.error_message is None,
            r.delay == Some(delay),
    {
        FaultResult { triggered: true, fault_type: Some(fault_type), error_message: None, delay: Some(delay) }
    }
}


// ---------------------------------------------------------------------------
// The fault injector
// ---------------------------------------------------------------------------

/// A registered fault, as the injector tracks it: its type, whether it is
/// enabled, how many times it may trigger (unlimited when none), and how
/// many times it has. Its probability stays with the caller, who decides
/// each draw.
#[derive(Debug, Clone, Copy, PartialEq, Eq, Structural)]
pub struct FaultRule {
    pub fault_type: FaultType,
    pub enabled: bool,
    pub trigger_limit: Option<u64>,
    pub triggered: u64,
}

/// The rule has triggered no more often than it may.
pub open spec fn within_limit(r: FaultRule) -> bool {
    match r.trigger_limit {
        Some(m) => r.triggered <= m,
        None => true,
    }
}

/// The rule is of the type asked for and enabled.
pub open spec fn applies(r: FaultRule, t: FaultType) -> bool {
    r.fault_type == t && r.enabled
}

/// The rule may still trigger.
pub open spec fn under_limit(r: FaultRule) -> bool {
    match r.trigger_limit {
        Some(m) => r.triggered < m,
        None => true,
    }
}

/// A trigger counter after one more trigger: it wraps around at its
/// largest value.
pub open spec fn bumped(n: u64) -> u64 {
    if n == u64::MAX {
        0
    } else {
        (n + 1) as u64
    }
}

/// The rules of a component: those of its last entry (none when it has
/// no entry).
pub open spec fn rules_in(comps: Seq<(String, Vec<FaultRule>)>, name: Seq<char>) -> Seq<FaultRule>
    decreases comps.len(),
{
    if comps.len() == 0 {
        Seq::empty()
    } else if comps.last().0@ == name {
        comps.last().1@
    } else {
        rules_in(comps.drop_last(), name)
    }
}

/// The position of a component's last entry, or -1.
pub open spec fn entry_of(comps: Seq<(String, Vec<FaultRule>)>, name: Seq<char>) -> int
    decreases comps.len(),
{
    if comps.len() == 0 {
        -1
    } else if comps.last().0@ == name {
        comps.len() - 1
    } else {
        entry_of(comps.drop_last(), name)
    }
}

/// How often faults of type `t` have triggered, by the counts kept.
pub open spec fn count_in(tc: Seq<(FaultType, u64)>, t: FaultType) -> nat
    decreases tc.len(),
{
    if tc.len() == 0 {
        0
    } else {
        count_in(tc.drop_last(), t) + if tc.last().0 == t {
            tc.last().1 as nat
        } else {
            0
        }
    }
}

/// The sum of the counts kept.
pub open spec fn counts_total(tc: Seq<(FaultType, u64)>) -> nat
    decreases tc.len(),
{
    if tc.len() == 0 {
        0
    } else {
        counts_total(tc.drop_last()) + tc.last().1 as nat
    }
}

/// The counts of all fault types summed.
pub open spec fn all_types_total(tc: Seq<(FaultType, u64)>) -> nat {
    count_in(tc, FaultType::NetworkTimeout) + count_in(tc, FaultType::ConnectionRefused) + count_in(
        tc,
        FaultType::HighLatency,
    ) + count_in(tc, FaultType::Intermittent) + count_in(tc, FaultType::DiskFull) + count_in(
        tc,
        FaultType::PermissionDenied,
    ) + count_in(tc, FaultType::DataCorruption) + count_in(tc, FaultType::ProcessCrash) + count_in(
        tc,
        FaultType::PartialWrite,
    ) + count_in(tc, FaultType::S3Unavailable) + count_in(tc, FaultType::S3SlowResponse) + count_in(
        tc,
        FaultType::AuthFailure,
    )
}

/// The counts kept sum to the counts of all fault types.
proof fn lemma_counts_by_type(tc: Seq<(FaultType, u64)>)
    ensures
        counts_total(tc) == all_types_total(tc),
    decreases tc.len(),
{
    if tc.len() > 0 {
        lemma_counts_by_type(tc.drop_last());
    }
}

/// Raising the count at `k` by one raises its type's count, and the sum,
/// by one.
proof fn lemma_count_update(tc: Seq<(FaultType, u64)>, k: int, t: FaultType)
    requires
        0 <= k < tc.len(),
        tc[k].1 < u64::MAX,
    ensures
        count_in(tc.update(k, (tc[k].0, (tc[k].1 + 1) as u64)), t) == count_in(tc, t) + if tc[k].0 == t {
            1nat
        } else {
            0nat
        },
        counts_total(tc.update(k, (tc[k].0, (tc[k].1 + 1) as u64))) == counts_total(tc) + 1,
    decreases tc.len(),
{
    let u = tc.update(k, (tc[k].0, (tc[k].1 + 1) as u64));
    if k < tc.len() - 1 {
        assert(u.drop_last() =~= tc.drop_last().update(k, (tc[k].0, (tc[k].1 + 1) as u64)));
        lemma_count_update(tc.drop_last(), k, t);
    } else {
        assert(u.drop_last() =~= tc.drop_last());
    }
}

/// Setting the rules of a component's last entry changes that component's
/// rules and no other's.
proof fn lemma_rules_after_set(comps: Seq<(String, Vec<FaultRule>)>, name: Seq<char>, rules: Vec<FaultRule>, c: Seq<char>)
    requires
        0 <= entry_of(comps, name),
        comps[entry_of(comps, name)].0@ == name,
    ensures
        rules_in(comps.update(entry_of(comps, name), (comps[entry_of(comps, name)].0, rules)), c) == if c
            == name {
            rules@
        } else {
            rules_in(comps, c)
        },
    decreases comps.len(),
{
    lemma_entry_of(comps, name);
    let k = entry_of(comps, name);
    let u = comps.update(k, (comps[k].0, rules));
    if k < comps.len() - 1 {
        assert(comps.last().0@ != name);
        assert(u.last() == comps.last());
        assert(u.drop_last() =~= comps.drop_last().update(k, (comps[k].0, rules)));
        assert(entry_of(comps.drop_last(), name) == k);
        lemma_rules_after_set(comps.drop_last(), name, rules, c);
    } else {
        assert(u.drop_last() =~= comps.drop_last());
    }
}

/// A component's last entry is where its rules are.
proof fn lemma_entry_of(comps: Seq<(String, Vec<FaultRule>)>, name: Seq<char>)
    ensures
        -1 <= entry_of(comps, name) < comps.len(),
        entry_of(comps, name) >= 0 ==> comps[entry_of(comps, name)].0@ == name && rules_in(comps, name)
            == comps[entry_of(comps, name)].1@,
        entry_of(comps, name) < 0 ==> rules_in(comps, name) == Seq::<FaultRule>::empty(),
        forall|j: int| entry_of(comps, name) < j < comps.len() ==> comps[j].0@ != name,
    decreases comps.len(),
{
    if comps.len() > 0 && comps.last().0@ != name {
        lemma_entry_of(comps.drop_last(), name);
        assert forall|j: int| entry_of(comps, name) < j < comps.len() implies comps[j].0@ != name by {
            if j < comps.len() - 1 {
                assert(comps[j] == comps.drop_last()[j]);
            }
        }
    }
}

/// A new entry for a component that had none gives it these rules and
/// leaves the others'.
proof fn lemma_rules_after_push(comps: Seq<(String, Vec<FaultRule>)>, entry: (String, Vec<FaultRule>), c: Seq<char>)
    ensures
        rules_in(comps.push(entry), c) == if c == entry.0@ {
            entry.1@
        } else {
            rules_in(comps, c)
        },
{
    assert(comps.push(entry).drop_last() =~= comps);
}

/// Every rule of every component is within its limit.
pub open spec fn all_within_limits(comps: Seq<(String, Vec<FaultRule>)>) -> bool {
    forall|i: int, j: int| 0 <= i < comps.len() && 0 <= j < comps[i].1@.len() ==> within_limit(#[trigger] comps[i].1@[j])
}

/// The rules of a component are among the entries' rules.
proof fn lemma_rules_within_limits(comps: Seq<(String, Vec<FaultRule>)>, name: Seq<char>)
    requires
        all_within_limits(comps),
    ensures
        forall|j: int| 0 <= j < rules_in(comps, name).len() ==> within_limit(#[trigger] rules_in(comps, name)[j]),
{
    lemma_entry_of(comps, name);
    let k = entry_of(comps, name);
    if k >= 0 {
        assert forall|j: int| 0 <= j < rules_in(comps, name).len() implies within_limit(
            #[trigger] rules_in(comps, name)[j],
        ) by {
            assert(rules_in(comps, name)[j] == comps[k].1@[j]);
        }
    }
}

/// The fault injector: the faults registered per component, whether
/// injection is on, and how often faults have triggered, in all and by
/// type.
#[derive(Debug)]
pub struct FaultInjector {
    components: Vec<(String, Vec<FaultRule>)>,
    enabled: bool,
    total: u64,
    type_counts: Vec<(FaultType, u64)>,
}

impl FaultInjector {
    /// The injector is consistent: the total is the sum of the counts by
    /// type, and no rule has triggered more often than it may.
    pub closed spec fn wf(&self) -> bool {
        &&& self.total as nat == counts_total(self.type_counts@)
        &&& all_within_limits(self.components@)
    }

    /// The faults registered for a component, in order of registration.
    pub closed spec fn rules(&self, component: Seq<char>) -> Seq<FaultRule> {
        rules_in(self.components@, component)
    }

    /// Injection is on.
    pub closed spec fn is_enabled(&self) -> bool {
        self.enabled
    }

    /// How often faults have triggered since the counters were reset.
    pub closed spec fn total(&self) -> u64 {
        self.total
    }

    /// How often faults of type `t` have triggered since the counters were
    /// reset.
    pub closed spec fn count(&self, t: FaultType) -> nat {
        count_in(self.type_counts@, t)
    }

    /// An injector with no faults, enabled, with no triggers.
    pub fn new() -> (r: Self)
        ensures
            r.wf(),
            r.is_enabled(),
            r.total() == 0,
            forall|c: Seq<char>| r.rules(c) == Seq::<FaultRule>::empty(),
            forall|t: FaultType| r.count(t) == 0,
    {
        FaultInjector { components: Vec::new(), enabled: true, total: 0, type_counts: Vec::new() }
    }

    /// The position of a component's last entry.
    fn find_component(&self, component: &str) -> (r: Option<usize>)
        ensures
            match r {
                Some(k) => k as int == entry_of(self.components@, component@),
                None => entry_of(self.components@, component@) < 0,
            },
    {
        proof {
            lemma_entry_of(self.components@, component@);
        }
        let mut i: usize = self.components.len();
        while i > 0
            invariant
                i <= self.components@.len(),
                -1 <= entry_of(self.components@, component@) < self.components@.len(),
                forall|j: int| entry_of(self.components@, component@) < j < self.components@.len() ==> self.components@[j].0@ != component@,
                entry_of(self.components@, component@) >= 0 ==> self.components@[entry_of(self.components@, component@)].0@ == component@,
                entry_of(self.components@, component@) < i,
            decreases i,
        {
            if str_eq(self.components[i - 1].0.as_str(), component) {
                return Some(i - 1);
            }
            i = i - 1;
        }
        None
    }

    /// Register a fault for a component: a rule of this type, enabled or
    /// not, that may trigger up to `trigger_limit` times (without limit when
    /// none), added after the component's others.
    pub fn register_fault(&mut self, component: &str, fault_type: FaultType, enabled: bool, trigger_limit: Option<u64>)
        requires
            old(self).wf(),
        ensures
            final(self).wf(),
            final(self).rules(component@) == old(self).rules(component@).push(
                FaultRule { fault_type, enabled, trigger_limit, triggered: 0 },
            ),
            forall|c: Seq<char>| c != component@ ==> final(self).rules(c) == old(self).rules(c),
            final(self).is_enabled() == old(self).is_enabled(),
            final(self).total() == old(self).total(),
            forall|t: FaultType| final(self).count(t) == old(self).count(t),
    {
        let rule = FaultRule { fault_type, enabled, trigger_limit, triggered: 0 };
        proof {
            lemma_entry_of(self.components@, component@);
        }
        match self.find_component(component) {
            Some(k) => {
                let ghost before = self.components@;
                let mut rules = copy_rules(&self.components[k].1);
                rules.push(rule);
                let name = self.components[k].0.clone();
                let ghost new_rules = rules;
                self.components.set(k, (name, rules));
                proof {
                    assert(self.components@ == before.update(k as int, (before[k as int].0, new_rules)));
                    assert forall|c: Seq<char>| #[trigger] rules_in(self.components@, c) == if c == component@ {
                        new_rules@
                    } else {
                        rules_in(before, c)
                    } by {
                        lemma_rules_after_set(before, component@, new_rules, c);
                    }
                    assert(all_within_limits(self.components@)) by {
                        assert forall|i: int, j: int|
                            0 <= i < self.components@.len() && 0 <= j < self.components@[i].1@.len() implies within_limit(
                            #[trigger] self.components@[i].1@[j],
                        ) by {
                            if i == k {
                                if j < before[k as int].1@.len() {
                                    assert(self.components@[i].1@[j] == before[k as int].1@[j]);
                                }
                            } else {
                                assert(self.components@[i] == before[i]);
                            }
                        }
                    }
                }
            },
            None => {
                let ghost before = self.components@;
                let mut rules: Vec<FaultRule> = Vec::new();
                rules.push(rule);
                let entry = (owned(component), rules);
                let ghost e = entry;
                self.components.push(entry);
                proof {
                    assert forall|c: Seq<char>| #[trigger] rules_in(self.components@, c) == if c == component@ {
                        e.1@
                    } else {
                        rules_in(before, c)
                    } by {
                        lemma_rules_after_push(before, e, c);
                    }
                    assert(e.1@ =~= Seq::<FaultRule>::empty().push(rule));
                    assert(all_within_limits(self.components@)) by {
                        assert forall|i: int, j: int|
                            0 <= i < self.components@.len() && 0 <= j < self.components@[i].1@.len() implies within_limit(
                            #[trigger] self.components@[i].1@[j],
                        ) by {
                            if i < before.len() {
                                assert(self.components@[i] == before[i]);
                            }
                        }
                    }
                }
            },
        }
    }

    /// Remove the faults of a component.
    pub fn clear_faults(&mut self, component: &str)
        requires
            old(self).wf(),
        ensures
            final(self).wf(),
            final(self).rules(component@) == Seq::<FaultRule>::empty(),
            forall|c: Seq<char>| c != component@ ==> final(self).rules(c) == old(self).rules(c),
            final(self).is_enabled() == old(self).is_enabled(),
            final(self).total() == old(self).total(),
            forall|t: FaultType| final(self).count(t) == old(self).count(t),
    {
        proof {
            lemma_entry_of(self.components@, component@);
        }
        if let Some(k) = self.find_component(component) {
            let ghost before = self.components@;
            let name = self.components[k].0.clone();
            let rules: Vec<FaultRule> = Vec::new();
            let ghost new_rules = rules;
            self.components.set(k, (name, rules));
            proof {
                assert(self.components@ == before.update(k as int, (before[k as int].0, new_rules)));
                assert forall|c: Seq<char>| #[trigger] rules_in(self.components@, c) == if c == component@ {
                    new_rules@
                } else {
                    rules_in(before, c)
                } by {
                    lemma_rules_after_set(before, component@, new_rules, c);
                }
                assert(all_within_limits(self.components@)) by {
                    assert forall|i: int, j: int|
                        0 <= i < self.components@.len() && 0 <= j < self.components@[i].1@.len() implies within_limit(
                        #[trigger] self.components@[i].1@[j],
                    ) by {
                        assert(i != k);
                        assert(self.components@[i] == before[i]);
                    }
                }
            }
        }
    }

    /// Remove every fault.
    pub fn clear_all_faults(&mut self)
        requires
            old(self).wf(),
        ensures
            final(self).wf(),
            forall|c: Seq<char>| final(self).rules(c) == Seq::<FaultRule>::empty(),
            final(self).is_enabled() == old(self).is_enabled(),
            final(self).total() == old(self).total(),
            forall|t: FaultType| final(self).count(t) == old(self).count(t),
    {
        self.components = Vec::new();
    }

    /// Turn injection on or off.
    pub fn set_enabled(&mut self, enabled: bool)
        requires
            old(self).wf(),
        ensures
            final(self).wf(),
            final(self).is_enabled() == enabled,
            forall|c: Seq<char>| final(self).rules(c) == old(self).rules(c),
            final(self).total() == old(self).total(),
            forall|t: FaultType| final(self).count(t) == old(self).count(t),
    {
        self.enabled = enabled;
    }

    /// The faults registered for a component, with their counts.
    pub fn faults_of(&self, component: &str) -> (r: Vec<FaultRule>)
        ensures
            r@ == self.rules(component@),
    {
        proof {
            lemma_entry_of(self.components@, component@);
        }
        match self.find_component(component) {
            Some(k) => copy_rules(&self.components[k].1),
            None => Vec::new(),
        }
    }

    /// Whether injection is on.
    pub fn enabled(&self) -> (r: bool)
        ensures
            r == self.is_enabled(),
    {
        self.enabled
    }

    /// How often faults have triggered since the counters were reset.
    pub fn total_triggers(&self) -> (r: u64)
        ensures
            r == self.total(),
    {
        self.total
    }

    /// How often faults of type `t` have triggered since the counters were
    /// reset.
    pub fn trigger_count(&self, t: FaultType) -> (r: u64)
        requires
            self.wf(),
        ensures
            r == self.count(t),
    {
        let mut sum: u64 = 0;
        let mut i: usize = 0;
        while i < self.type_counts.len()
            invariant
                i <= self.type_counts@.len(),
                self.total as nat == counts_total(self.type_counts@),
                sum == count_in(self.type_counts@.take(i as int), t),
            decreases self.type_counts@.len() - i,
        {
            proof {
                assert(self.type_counts@.take(i + 1).drop_last() =~= self.type_counts@.take(i as int));
                lemma_count_le_total(self.type_counts@.take(i + 1), t);
                lemma_total_prefix(self.type_counts@, i + 1);
            }
            let (ft, c) = self.type_counts[i];
            if ft == t {
                sum = sum + c;
            }
            i = i + 1;
        }
        proof {
            assert(self.type_counts@.take(self.type_counts@.len() as int) =~= self.type_counts@);
        }
        sum
    }

    /// Reset all trigger counters: the total, the counts by type, and each
    /// fault's own count, so that a fault that reached its limit may
    /// trigger again.
    pub fn reset_counters(&mut self)
        requires
            old(self).wf(),
        ensures
            final(self).wf(),
            final(self).total() == 0,
            forall|t: FaultType| final(self).count(t) == 0,
            forall|c: Seq<char>| final(self).rules(c) == reset_rules(old(self).rules(c)),
            final(self).is_enabled() == old(self).is_enabled(),
    {
        let mut comps: Vec<(String, Vec<FaultRule>)> = Vec::new();
        let mut i: usize = 0;
        while i < self.components.len()
            invariant
                i <= self.components@.len(),
                comps@.len() == i,
                forall|k: int|
                    #![trigger comps@[k]]
                    0 <= k < i ==> comps@[k].0@ == self.components@[k].0@ && comps@[k].1@ == reset_rules(
                        self.components@[k].1@,
                    ),
            decreases self.components@.len() - i,
        {
            let name = self.components[i].0.clone();
            let rules = reset_rule_vec(&self.components[i].1);
            comps.push((name, rules));
            i = i + 1;
        }
        proof {
            assert forall|c: Seq<char>| rules_in(comps@, c) == reset_rules(rules_in(self.components@, c)) by {
                lemma_rules_after_reset(comps@, self.components@, c);
            }
            assert forall|a: int, b: int| 0 <= a < comps@.len() && 0 <= b < comps@[a].1@.len() implies within_limit(
                #[trigger] comps@[a].1@[b],
            ) by {
                assert(comps@[a].1@ == reset_rules(self.components@[a].1@));
            }
        }
        self.components = comps;
        self.total = 0;
        self.type_counts = Vec::new();
    }

    /// Adds one trigger of type `t` to the counts.
    fn count_trigger(&mut self, t: FaultType)
        requires
            old(self).total as nat == counts_total(old(self).type_counts@),
            old(self).total < u64::MAX,
        ensures
            final(self).total == old(self).total + 1,
            final(self).total as nat == counts_total(final(self).type_counts@),
            forall|u: FaultType| count_in(final(self).type_counts@, u) == count_in(old(self).type_counts@, u) + if u == t {
                1nat
            } else {
                0nat
            },
            final(self).components == old(self).components,
            final(self).enabled == old(self).enabled,
    {
        self.total = self.total + 1;
        let mut i: usize = 0;
        while i < self.type_counts.len() && self.type_counts[i].0 != t
            invariant
                i <= self.type_counts@.len(),
            decreases self.type_counts@.len() - i,
        {
            i = i + 1;
        }
        if i < self.type_counts.len() {
            let ghost before = self.type_counts@;
            let (ft, c) = self.type_counts[i];
            proof {
                lemma_entry_le_total(before, i as int);
            }
            self.type_counts.set(i, (ft, c + 1));
            proof {
                lemma_count_update(before, i as int, t);
                assert forall|u: FaultType| count_in(self.type_counts@, u) == count_in(before, u) + if u == t {
                    1nat
                } else {
                    0nat
                } by {
                    lemma_count_update(before, i as int, u);
                }
            }
        } else {
            let ghost before = self.type_counts@;
            self.type_counts.push((t, 1));
            proof {
                assert(self.type_counts@.drop_last() =~= before);
            }
        }
    }

    /// Decides whether a fault of type `fault_type` triggers for a
    /// component: the first of its enabled rules of that type that the
    /// draw `draw_passes` lets through (a rule that is certain lets every draw
    /// through) and that has not used up its triggers. That rule's count,
    /// the total and the type's count go up by one. Nothing triggers while
    /// injection is off.
    pub fn should_trigger<F: Fn(usize) -> bool>(&mut self, component: &str, fault_type: FaultType, draw_passes: F) -> (r: Option<usize>)
        requires
            old(self).wf(),
            old(self).total() < u64::MAX,
            forall|i: usize| draw_passes.requires((i,)),
        ensures
            final(self).wf(),
            final(self).is_enabled() == old(self).is_enabled(),
            !old(self).is_enabled() ==> r is None,
            always_passes(draw_passes) ==> trigger_step(*old(self), *final(self), component@, fault_type, r),
            match r {
                Some(i) => {
                    let rules = old(self).rules(component@);
                    &&& i < rules.len()
                    &&& applies(rules[i as int], fault_type)
                    &&& under_limit(rules[i as int])
                    &&& draw_passes.ensures((i,), true)
                    &&& forall|j: int| 0 <= j < i && applies(rules[j], fault_type) ==> (draw_passes.ensures((j as usize,), false) || !under_limit(rules[j]))
                    &&& final(self).rules(component@) == rules.update(
                        i as int,
                        FaultRule { triggered: bumped(rules[i as int].triggered), ..rules[i as int] },
                    )
                    &&& forall|c: Seq<char>| c != component@ ==> final(self).rules(c) == old(self).rules(c)
                    &&& final(self).total() == old(self).total() + 1
                    &&& forall|t: FaultType| final(self).count(t) == old(self).count(t) + if t == fault_type {
                        1nat
                    } else {
                        0nat
                    }
                },
                None => {
                    let rules = old(self).rules(component@);
                    &&& old(self).is_enabled() ==> forall|j: int| 0 <= j < rules.len() && applies(rules[j], fault_type) ==> (draw_passes.ensures((j as usize,), false) || !under_limit(rules[j]))
                    &&& forall|c: Seq<char>| final(self).rules(c) == old(self).rules(c)
                    &&& final(self).total() == old(self).total()
                    &&& forall|t: FaultType| final(self).count(t) == old(self).count(t)
                },
            },
    {
        proof {
            reveal(trigger_step);
        }
        if !self.enabled {
            return None;
        }
        proof {
            lemma_entry_of(self.components@, component@);
        }
        let k = match self.find_component(component) {
            Some(k) => k,
            None => {
                return None;
            },
        };
        let rules = copy_rules(&self.components[k].1);
        let ghost rv = rules@;
        let mut i: usize = 0;
        let mut found = false;
        while i < rules.len() && !found
            invariant
                i <= rules@.len(),
                rules@ == rv,
                forall|x: usize| draw_passes.requires((x,)),
                forall|j: int| 0 <= j < i && applies(rv[j], fault_type) ==> (draw_passes.ensures((j as usize,), false) || !under_limit(rv[j])),
                found ==> i < rv.len() && applies(rv[i as int], fault_type) && under_limit(rv[i as int])
                    && draw_passes.ensures((i,), true),
            decreases rules@.len() - i + if found {
                0int
            } else {
                1int
            },
        {
            let r = rules[i];
            if r.fault_type == fault_type && r.enabled {
                let passed = draw_passes(i);
                let room = match r.trigger_limit {
                    Some(m) => r.triggered < m,
                    None => true,
                };
                if passed && room {
                    found = true;
                } else {
                    i = i + 1;
                }
            } else {
                i = i + 1;
            }
        }
        if !found {
            return None;
        }
        let ghost before = *self;
        let r = rules[i];
        let mut new_rules = rules;
        let next = if r.triggered == u64::MAX {
            0
        } else {
            r.triggered + 1
        };
        new_rules.set(i, FaultRule { triggered: next, ..r });
        let name = self.components[k].0.clone();
        let ghost nr = new_rules;
        self.components.set(k, (name, new_rules));
        proof {
            assert(self.components@ == before.components@.update(k as int, (before.components@[k as int].0, nr)));
            assert forall|c: Seq<char>| #[trigger] rules_in(self.components@, c) == if c == component@ {
                nr@
            } else {
                rules_in(before.components@, c)
            } by {
                lemma_rules_after_set(before.components@, component@, nr, c);
            }
            assert(all_within_limits(self.components@)) by {
                assert forall|a: int, b: int|
                    0 <= a < self.components@.len() && 0 <= b < self.components@[a].1@.len() implies within_limit(
                    #[trigger] self.components@[a].1@[b],
                ) by {
                    if a == k {
                        if b != i {
                            assert(self.components@[a].1@[b] == before.components@[k as int].1@[b]);
                        }
                    } else {
                        assert(self.components@[a] == before.components@[a]);
                    }
                }
            }
        }
        self.count_trigger(fault_type);
        Some(i)
    }
}

/// A copy of the rules.
fn copy_rules(v: &Vec<FaultRule>) -> (r: Vec<FaultRule>)
    ensures
        r@ == v@,
{
    let mut out: Vec<FaultRule> = Vec::new();
    let mut i: usize = 0;
    while i < v.len()
        invariant
            i <= v@.len(),
            out@ == v@.take(i as int),
        decreases v@.len() - i,
    {
        proof {
            assert(v@.take(i + 1) =~= v@.take(i as int).push(v@[i as int]));
        }
        out.push(v[i]);
        i = i + 1;
    }
    proof {
        assert(v@.take(v@.len() as int) =~= v@);
    }
    out
}

/// One type's count is at most the sum of the counts.
proof fn lemma_count_le_total(tc: Seq<(FaultType, u64)>, t: FaultType)
    ensures
        count_in(tc, t) <= counts_total(tc),
    decreases tc.len(),
{
    if tc.len() > 0 {
        lemma_count_le_total(tc.drop_last(), t);
    }
}

/// The sum of a prefix's counts is at most the sum of all.
proof fn lemma_total_prefix(tc: Seq<(FaultType, u64)>, k: int)
    requires
        0 <= k <= tc.len(),
    ensures
        counts_total(tc.take(k)) <= counts_total(tc),
    decreases tc.len(),
{
    if k < tc.len() {
        assert(tc.drop_last().take(k) =~= tc.take(k));
        lemma_total_prefix(tc.drop_last(), k);
    } else {
        assert(tc.take(k) =~= tc);
    }
}

/// A fault with its own trigger count set back to zero.
pub open spec fn reset_rule(r: FaultRule) -> FaultRule {
    FaultRule { triggered: 0, ..r }
}

/// Faults with their own trigger counts set back to zero.
pub open spec fn reset_rules(v: Seq<FaultRule>) -> Seq<FaultRule> {
    v.map_values(|r: FaultRule| reset_rule(r))
}

/// A copy of the faults with their own trigger counts set back to zero.
fn reset_rule_vec(v: &Vec<FaultRule>) -> (r: Vec<FaultRule>)
    ensures
        r@ == reset_rules(v@),
{
    let mut out: Vec<FaultRule> = Vec::new();
    let mut i: usize = 0;
    while i < v.len()
        invariant
            i <= v@.len(),
            out@ == reset_rules(v@.take(i as int)),
        decreases v@.len() - i,
    {
        proof {
            assert(reset_rules(v@.take(i + 1)) =~= reset_rules(v@.take(i as int)).push(reset_rule(v@[i as int])));
        }
        out.push(FaultRule { triggered: 0, ..v[i] });
        i = i + 1;
    }
    proof {
        assert(v@.take(v@.len() as int) =~= v@);
    }
    out
}

/// Entries with the same names whose rules were reset give each component
/// its rules reset.
proof fn lemma_rules_after_reset(
    new: Seq<(String, Vec<FaultRule>)>,
    old: Seq<(String, Vec<FaultRule>)>,
    c: Seq<char>,
)
    requires
        new.len() == old.len(),
        forall|k: int|
            #![trigger new[k]]
            0 <= k < old.len() ==> new[k].0@ == old[k].0@ && new[k].1@ == reset_rules(old[k].1@),
    ensures
        rules_in(new, c) == reset_rules(rules_in(old, c)),
    decreases old.len(),
{
    if old.len() == 0 {
        assert(reset_rules(Seq::<FaultRule>::empty()) =~= Seq::<FaultRule>::empty());
    } else {
        let k = old.len() - 1;
        assert(new[k].0@ == old[k].0@);
        if old.last().0@ != c {
            assert forall|j: int|
                #![trigger new.drop_last()[j]]
                0 <= j < old.drop_last().len() implies new.drop_last()[j].0@ == old.drop_last()[j].0@
                    && new.drop_last()[j].1@ == reset_rules(old.drop_last()[j].1@) by {
                assert(new.drop_last()[j] == new[j]);
                assert(old.drop_last()[j] == old[j]);
                assert(new[j].0@ == old[j].0@);
                assert(new[j].1@ == reset_rules(old[j].1@));
            }
            lemma_rules_after_reset(new.drop_last(), old.drop_last(), c);
        }
    }
}

/// Every draw passes.
pub open spec fn always_passes<F: Fn(usize) -> bool>(f: F) -> bool {
    forall|j: usize| !f.ensures((j,), false)
}

/// One check for a fault of type `t` on component `c`, with every draw
/// passing, took the injector from `a` to `b` and answered `r`: the first
/// enabled fault of that type still under its limit triggers, its count
/// and the totals grow by one; when there is none, nothing changes.
#[verifier::opaque]
pub open spec fn trigger_step(a: FaultInjector, b: FaultInjector, c: Seq<char>, t: FaultType, r: Option<usize>) -> bool {
    let rules = a.rules(c);
    &&& b.wf()
    &&& b.is_enabled() == a.is_enabled()
    &&& !a.is_enabled() ==> r is None
    &&& match r {
        Some(i) => {
            &&& i < rules.len()
            &&& applies(rules[i as int], t)
            &&& under_limit(rules[i as int])
            &&& forall|j: int| 0 <= j < i && applies(rules[j], t) ==> !under_limit(rules[j])
            &&& b.rules(c) == rules.update(
                i as int,
                FaultRule { triggered: bumped(rules[i as int].triggered), ..rules[i as int] },
            )
            &&& b.total() == a.total() + 1
            &&& b.count(t) == a.count(t) + 1
        },
        None => {
            &&& a.is_enabled() ==> forall|j: int| 0 <= j < rules.len() && applies(rules[j], t) ==> !under_limit(rules[j])
            &&& b.rules(c) == rules
            &&& b.total() == a.total()
            &&& b.count(t) == a.count(t)
        },
    }
}

/// The fault that is the only one registered on a component: of type `t`,
/// enabled, limited to `n` triggers, having triggered `k` times.
pub open spec fn limited_fault(t: FaultType, n: u64, k: u64) -> FaultRule {
    FaultRule { fault_type: t, enabled: true, trigger_limit: Some(n), triggered: k }
}

/// How many checks triggered a fault.
pub open spec fn fired(results: Seq<Option<usize>>) -> nat
    decreases results.len(),
{
    if results.len() == 0 {
        0
    } else {
        fired(results.drop_last()) + if results.last() is Some {
            1nat
        } else {
            0nat
        }
    }
}

/// The smaller of two counts.
pub open spec fn min_count(a: nat, b: nat) -> nat {
    if a < b {
        a
    } else {
        b
    }
}

/// With one enabled fault of type `t` limited to `n` triggers registered on
/// a component of an enabled injector, and every draw passing, `k`
/// successive checks trigger it exactly `min(k, n)` times: the first `n`
/// checks trigger and the rest do not, and the total and the count of `t`
/// grow by `min(k, n)`. `states[i]` is the injector before check `i` and
/// `results[i]` its answer.
pub proof fn lemma_limited_fault_fires_min(
    states: Seq<FaultInjector>,
    results: Seq<Option<usize>>,
    c: Seq<char>,
    t: FaultType,
    n: u64,
)
    requires
        states.len() == results.len() + 1,
        states[0].wf(),
        states[0].is_enabled(),
        states[0].rules(c) == seq![limited_fault(t, n, 0)],
        forall|i: int| 0 <= i < results.len() ==> trigger_step(#[trigger] states[i], states[i + 1], c, t, results[i]),
    ensures
        forall|i: int| 0 <= i < results.len() ==> (#[trigger] results[i] is Some <==> i < n),
        fired(results) == min_count(results.len(), n as nat),
        states.last().total() == states[0].total() + min_count(results.len(), n as nat),
        states.last().count(t) == states[0].count(t) + min_count(results.len(), n as nat),
        states.last().rules(c) == seq![limited_fault(t, n, min_count(results.len(), n as nat) as u64)],
    decreases results.len(),
{
    let k = results.len();
    if k == 0 {
        return;
    }
    let ps = states.drop_last();
    let pr = results.drop_last();
    assert forall|i: int| 0 <= i < pr.len() implies trigger_step(#[trigger] ps[i], ps[i + 1], c, t, pr[i]) by {
        assert(ps[i] == states[i]);
        assert(ps[i + 1] == states[i + 1]);
        assert(pr[i] == results[i]);
        assert(trigger_step(states[i], states[i + 1], c, t, results[i]));
    }
    lemma_limited_fault_fires_min(ps, pr, c, t, n);
    let m = (k - 1) as int;
    assert(ps.last() == states[m]);
    assert(trigger_step(states[m], states[m + 1], c, t, results[m]));
    lemma_enabled_kept(states, results, c, t, m);
    lemma_limited_step(states[m], states[m + 1], c, t, n, min_count(m as nat, n as nat) as u64, results[m]);
    assert(results.last() == results[m]);
    assert(states.last() == states[m + 1]);
    assert forall|i: int| 0 <= i < results.len() implies (#[trigger] results[i] is Some <==> i < n) by {
        if i < m {
            assert(results[i] == pr[i]);
        }
    }
}

/// One check of a component whose only fault is limited to `n` triggers
/// and has triggered `done` times.
proof fn lemma_limited_step(a: FaultInjector, b: FaultInjector, c: Seq<char>, t: FaultType, n: u64, done: u64, r: Option<usize>)
    requires
        done <= n,
        a.is_enabled(),
        a.rules(c) == seq![limited_fault(t, n, done)],
        trigger_step(a, b, c, t, r),
    ensures
        r is Some <==> done < n,
        b.is_enabled(),
        b.rules(c) == seq![limited_fault(t, n, if done < n { (done + 1) as u64 } else { done })],
        b.total() == a.total() + if done < n { 1int } else { 0int },
        b.count(t) == a.count(t) + if done < n { 1int } else { 0int },
{
    reveal(trigger_step);
    let rules = a.rules(c);
    assert(applies(rules[0], t));
    if done < n {
        assert(under_limit(rules[0]));
        assert(r is Some);
        assert(b.rules(c) =~= seq![limited_fault(t, n, (done + 1) as u64)]);
    } else {
        assert(!under_limit(rules[0]));
        assert(r is None);
    }
}

/// Injection stays on along the checks.
proof fn lemma_enabled_kept(
    states: Seq<FaultInjector>,
    results: Seq<Option<usize>>,
    c: Seq<char>,
    t: FaultType,
    m: int,
)
    requires
        states.len() == results.len() + 1,
        states[0].is_enabled(),
        forall|i: int| 0 <= i < results.len() ==> trigger_step(#[trigger] states[i], states[i + 1], c, t, results[i]),
        0 <= m < states.len(),
    ensures
        states[m].is_enabled(),
    decreases m,
{
    if m > 0 {
        lemma_enabled_kept(states, results, c, t, m - 1);
        assert(trigger_step(states[m - 1], states[m], c, t, results[m - 1]));
        reveal(trigger_step);
    }
}

/// One entry's count is at most the sum of the counts.
proof fn lemma_entry_le_total(tc: Seq<(FaultType, u64)>, k: int)
    requires
        0 <= k < tc.len(),
    ensures
        tc[k].1 <= counts_total(tc),
    decreases tc.len(),
{
    if k < tc.len() - 1 {
        lemma_entry_le_total(tc.drop_last(), k);
    }
}

/// The total of the triggers is the sum of the counts of all fault types.
pub proof fn lemma_total_is_sum_of_types(inj: FaultInjector)
    requires
        inj.wf(),
    ensures
        inj.total() as nat == inj.count(FaultType::NetworkTimeout) + inj.count(FaultType::ConnectionRefused)
            + inj.count(FaultType::HighLatency) + inj.count(FaultType::Intermittent) + inj.count(
            FaultType::DiskFull,
        ) + inj.count(FaultType::PermissionDenied) + inj.count(FaultType::DataCorruption) + inj.count(
            FaultType::ProcessCrash,
        ) + inj.count(FaultType::PartialWrite) + inj.count(FaultType::S3Unavailable) + inj.count(
            FaultType::S3SlowResponse,
        ) + inj.count(FaultType::AuthFailure),
{
    lemma_counts_by_type(inj.type_counts@);
}

/// No registered fault has triggered more often than its limit allows.
pub proof fn lemma_faults_within_limits(inj: FaultInjector, component: Seq<char>)
    requires
        inj.wf(),
    ensures
        forall|j: int| 0 <= j < inj.rules(component).len() ==> within_limit(#[trigger] inj.rules(component)[j]),
{
    lemma_rules_within_limits(inj.components@, component);
}

} // verus!

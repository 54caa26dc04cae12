//! One probe cycle: which probes run, in which order, and which targets are
//! set aside before any network work.
use vstd::prelude::*;
use crate::config::{Config, texts};
use crate::target::{TcpTarget, TargetError, parse_tcp_target, target_of};

verus! {

/// A TCP probe of a cycle: the target text, which names the metric, and what
/// it was read as.
#[derive(Clone, Debug)]
pub struct TcpProbe {
    pub name: String,
    pub target: TcpTarget,
}

impl TcpProbe {
    pub open spec fn view_triple(&self) -> (Seq<char>, Seq<char>, u16) {
        (self.name@, self.target.host@, self.target.port)
    }
}

/// The work of one cycle.
#[derive(Clone, Debug)]
pub struct CyclePlan {
    /// ICMP targets, one probe each, in configured order.
    pub icmp: Vec<String>,
    /// TCP probes, in configured order, run one after another.
    pub tcp: Vec<TcpProbe>,
    /// TCP targets that could not be read, with the reason.
    pub skipped: Vec<(String, TargetError)>,
}

/// The TCP probes planned for the targets `ts`: one for each target that
/// reads as `host:port`, in order.
pub open spec fn tcp_plan(ts: Seq<Seq<char>>) -> Seq<(Seq<char>, Seq<char>, u16)>
    decreases ts.len(),
{
    if ts.len() == 0 {
        seq![]
    } else {
        let rest = tcp_plan(ts.drop_last());
        match target_of(ts.last()) {
            Ok((host, port)) => rest.push((ts.last(), host, port)),
            Err(_) => rest,
        }
    }
}

/// The TCP targets set aside, with the reason, in order.
pub open spec fn tcp_skipped(ts: Seq<Seq<char>>) -> Seq<(Seq<char>, TargetError)>
    decreases ts.len(),
{
    if ts.len() == 0 {
        seq![]
    } else {
        let rest = tcp_skipped(ts.drop_last());
        match target_of(ts.last()) {
            Ok(_) => rest,
            Err(e) => rest.push((ts.last(), e)),
        }
    }
}

impl CyclePlan {
    pub open spec fn tcp_view(&self) -> Seq<(Seq<char>, Seq<char>, u16)> {
        self.tcp@.map_values(|p: TcpProbe| p.view_triple())
    }

    pub open spec fn skipped_view(&self) -> Seq<(Seq<char>, TargetError)> {
        self.skipped@.map_values(|s: (String, TargetError)| (s.0@, s.1))
    }

    /// Whether the cycle has no probe to run, and so no network work to do.
    pub open spec fn is_idle(&self) -> bool {
        self.icmp@.len() == 0 && self.tcp@.len() == 0
    }
}

/// Plans the cycle for a configuration: every ICMP target, and every TCP
/// target that reads as `host:port`; the others are set aside.
pub fn plan_cycle(config: &Config) -> (r: CyclePlan)
    ensures
        texts(r.icmp@) == texts(config.endpoints@),
        r.tcp_view() == tcp_plan(texts(config.tcp_endpoints@)),
        r.skipped_view() == tcp_skipped(texts(config.tcp_endpoints@)),
{
    let mut icmp: Vec<String> = Vec::new();
    let mut i: usize = 0;
    while i < config.endpoints.len()
        invariant
            i <= config.endpoints@.len(),
            icmp@ == config.endpoints@.subrange(0, i as int),
        decreases config.endpoints@.len() - i,
    {
        icmp.push(config.endpoints[i].clone());
        assert(icmp@ =~= config.endpoints@.subrange(0, i + 1));
        i = i + 1;
    }
    assert(config.endpoints@.subrange(0, i as int) =~= config.endpoints@);
    let ghost all = texts(config.tcp_endpoints@);
    let mut tcp: Vec<TcpProbe> = Vec::new();
    let mut skipped: Vec<(String, TargetError)> = Vec::new();
    let mut j: usize = 0;
    while j < config.tcp_endpoints.len()
        invariant
            j <= config.tcp_endpoints@.len(),
            all == texts(config.tcp_endpoints@),
            tcp@.map_values(|p: TcpProbe| p.view_triple()) == tcp_plan(all.subrange(0, j as int)),
            skipped@.map_values(|s: (String, TargetError)| (s.0@, s.1)) == tcp_skipped(
                all.subrange(0, j as int),
            ),
        decreases config.tcp_endpoints@.len() - j,
    {
        let t = &config.tcp_endpoints[j];
        let ghost pre = all.subrange(0, j as int);
        let ghost next = all.subrange(0, j + 1);
        assert(next.drop_last() =~= pre);
        assert(next.last() == t@);
        match parse_tcp_target(t.as_str()) {
            Ok(target) => {
                tcp.push(TcpProbe { name: t.clone(), target });
                assert(tcp@.map_values(|p: TcpProbe| p.view_triple()) =~= tcp_plan(next));
                assert(skipped@.map_values(|s: (String, TargetError)| (s.0@, s.1)) =~= tcp_skipped(next));
            },
            Err(e) => {
                skipped.push((t.clone(), e));
                assert(tcp@.map_values(|p: TcpProbe| p.view_triple()) =~= tcp_plan(next));
                assert(skipped@.map_values(|s: (String, TargetError)| (s.0@, s.1)) =~= tcp_skipped(next));
            },
        }
        j = j + 1;
    }
    assert(all.subrange(0, j as int) =~= all);
    CyclePlan { icmp, tcp, skipped }
}

/// Every planned TCP probe comes from a target that reads as `host:port`.
pub proof fn lemma_planned_targets_are_well_formed(ts: Seq<Seq<char>>)
    ensures
        forall|k: int|
            0 <= k < tcp_plan(ts).len() ==> (#[trigger] target_of(tcp_plan(ts)[k].0)) is Ok,
    decreases ts.len(),
{
    if ts.len() > 0 {
        lemma_planned_targets_are_well_formed(ts.drop_last());
    }
}

/// A TCP target without a colon is skipped: it gets no probe, and the other
/// targets are planned exactly as if it were not configured at all.
pub proof fn lemma_colonless_target_is_skipped(ts: Seq<Seq<char>>, i: int)
    requires
        0 <= i < ts.len(),
        !ts[i].contains(':'),
    ensures
        forall|k: int| 0 <= k < tcp_plan(ts).len() ==> (#[trigger] tcp_plan(ts)[k]).0 != ts[i],
        tcp_plan(ts) == tcp_plan(ts.remove(i)),
    decreases ts.len(),
{
    lemma_no_colon_is_malformed(ts[i]);
    lemma_planned_targets_are_well_formed(ts);
    if i == ts.len() - 1 {
        assert(ts.remove(i) =~= ts.drop_last());
    } else {
        let d = ts.drop_last();
        assert(d[i] == ts[i]);
        lemma_colonless_target_is_skipped(d, i);
        assert(ts.remove(i).drop_last() =~= d.remove(i));
        assert(ts.remove(i).last() == ts.last());
    }
}

/// A text without a colon reads as no TCP target.
proof fn lemma_no_colon_is_malformed(s: Seq<char>)
    requires
        !s.contains(':'),
    ensures
        target_of(s) == Err::<(Seq<char>, u16), TargetError>(TargetError::MissingColon),
    decreases s.len(),
{
    if s.len() > 0 {
        let d = s.drop_last();
        assert(!d.contains(':')) by {
            if d.contains(':') {
                let k = choose|k: int| 0 <= k < d.len() && d[k] == ':';
                assert(s[k] == ':');
            }
        }
        lemma_no_colon_is_malformed(d);
        assert(s[s.len() - 1] != ':');
    }
}

/// With no targets configured, a cycle plans no probe and sets nothing aside:
/// it does no network work and produces no measurement.
pub proof fn lemma_empty_configuration_is_idle(c: Config, plan: CyclePlan)
    requires
        c.endpoints@.len() == 0,
        c.tcp_endpoints@.len() == 0,
        texts(plan.icmp@) == texts(c.endpoints@),
        plan.tcp_view() == tcp_plan(texts(c.tcp_endpoints@)),
        plan.skipped_view() == tcp_skipped(texts(c.tcp_endpoints@)),
    ensures
        plan.is_idle(),
        plan.skipped@.len() == 0,
{
    assert(texts(c.tcp_endpoints@).len() == 0);
    assert(plan.tcp_view().len() == plan.tcp@.len());
    assert(plan.skipped_view().len() == plan.skipped@.len());
    assert(texts(plan.icmp@).len() == plan.icmp@.len());
}

} // verus!

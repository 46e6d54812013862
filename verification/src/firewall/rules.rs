//! The rules of a firewall.

use crate::duplicate::Duplicate;
use crate::order::{
    law_sorting_and_keeping, law_sorting_is_determined, law_sorting_keeps_values, lemma_filter_all,
    lemma_filter_push, lemma_filtered_within, lemma_order_exists, sort_by_rank, sorted_by_rank,
    stably_sorted, Ranked,
};
use crate::outside::{is_random_uuid, random_uuid};
use crate::text::same_text;
use vstd::prelude::*;

verus! {

/// Which way traffic goes.
#[derive(Debug, Clone, Copy, PartialEq, Eq, Structural)]
pub enum FirewallDirection {
    /// Traffic to the container.
    Inbound,
    /// Traffic from the container.
    Outbound,
}

impl DeepView for FirewallDirection {
    type V = FirewallDirection;

    open spec fn deep_view(&self) -> FirewallDirection {
        *self
    }
}

impl FirewallDirection {
    /// The direction in lower case.
    pub open spec fn text(self) -> Seq<char> {
        match self {
            FirewallDirection::Inbound => "inbound"@,
            FirewallDirection::Outbound => "outbound"@,
        }
    }

    /// The direction in lower case.
    pub fn as_text(self) -> (r: &'static str)
        ensures
            r@ == self.text(),
    {
        match self {
            FirewallDirection::Inbound => "inbound",
            FirewallDirection::Outbound => "outbound",
        }
    }

    /// The direction in lower case.
    pub fn to_string(self) -> (r: String)
        ensures
            r@ == self.text(),
    {
        self.as_text().to_string()
    }
}

/// What happens to traffic that a rule matches.
#[derive(Debug, Clone, Copy, PartialEq, Eq, Structural)]
pub enum FirewallAction {
    /// It passes.
    Allow,
    /// It is dropped silently.
    Drop,
    /// It is refused with an ICMP reply.
    Reject,
    /// It is logged, and later rules are asked.
    Log,
}

impl DeepView for FirewallAction {
    type V = FirewallAction;

    open spec fn deep_view(&self) -> FirewallAction {
        *self
    }
}

impl FirewallAction {
    /// The target of iptables that the action is.
    pub open spec fn text(self) -> Seq<char> {
        match self {
            FirewallAction::Allow => "ACCEPT"@,
            FirewallAction::Drop => "DROP"@,
            FirewallAction::Reject => "REJECT"@,
            FirewallAction::Log => "LOG"@,
        }
    }

    /// The target of iptables that the action is.
    pub fn as_text(self) -> (r: &'static str)
        ensures
            r@ == self.text(),
    {
        match self {
            FirewallAction::Allow => "ACCEPT",
            FirewallAction::Drop => "DROP",
            FirewallAction::Reject => "REJECT",
            FirewallAction::Log => "LOG",
        }
    }

    /// The target of iptables that the action is.
    pub fn to_string(self) -> (r: String)
        ensures
            r@ == self.text(),
    {
        self.as_text().to_string()
    }
}

/// The protocol of traffic.
#[derive(Debug, Clone, Copy, PartialEq, Eq, Structural)]
pub enum FirewallProtocol {
    Tcp,
    Udp,
    Icmp,
    All,
}

impl DeepView for FirewallProtocol {
    type V = FirewallProtocol;

    open spec fn deep_view(&self) -> FirewallProtocol {
        *self
    }
}

impl FirewallProtocol {
    /// The protocol in lower case.
    pub open spec fn text(self) -> Seq<char> {
        match self {
            FirewallProtocol::Tcp => "tcp"@,
            FirewallProtocol::Udp => "udp"@,
            FirewallProtocol::Icmp => "icmp"@,
            FirewallProtocol::All => "all"@,
        }
    }

    /// The protocol in lower case.
    pub fn as_text(self) -> (r: &'static str)
        ensures
            r@ == self.text(),
    {
        match self {
            FirewallProtocol::Tcp => "tcp",
            FirewallProtocol::Udp => "udp",
            FirewallProtocol::Icmp => "icmp",
            FirewallProtocol::All => "all",
        }
    }

    /// The protocol in lower case.
    pub fn to_string(self) -> (r: String)
        ensures
            r@ == self.text(),
    {
        self.as_text().to_string()
    }
}

/// One rule of a firewall.
#[derive(Debug, Clone)]
pub struct FirewallRule {
    pub id: String,
    pub description: Option<String>,
    pub direction: FirewallDirection,
    pub action: FirewallAction,
    pub protocol: FirewallProtocol,
    /// The address at the other end, or a network; any where none is given.
    pub remote_ip: Option<String>,
    /// A port, or a range such as "8000-9000"; any where none is given.
    pub port: Option<String>,
    /// Rules with a lower number come first.
    pub priority: i32,
    pub enabled: bool,
}

/// What a [`FirewallRule`] holds.
#[verifier::ext_equal]
pub struct FirewallRuleView {
    pub id: Seq<char>,
    pub description: Option<Seq<char>>,
    pub direction: FirewallDirection,
    pub action: FirewallAction,
    pub protocol: FirewallProtocol,
    pub remote_ip: Option<Seq<char>>,
    pub port: Option<Seq<char>>,
    pub priority: i32,
    pub enabled: bool,
}

impl DeepView for FirewallRule {
    type V = FirewallRuleView;

    open spec fn deep_view(&self) -> FirewallRuleView {
        FirewallRuleView {
            id: self.id@,
            description: self.description.deep_view(),
            direction: self.direction,
            action: self.action,
            protocol: self.protocol,
            remote_ip: self.remote_ip.deep_view(),
            port: self.port.deep_view(),
            priority: self.priority,
            enabled: self.enabled,
        }
    }
}

impl Duplicate for FirewallRule {
    fn duplicate(&self) -> (r: Self) {
        FirewallRule {
            id: self.id.duplicate(),
            description: self.description.duplicate(),
            direction: self.direction,
            action: self.action,
            protocol: self.protocol,
            remote_ip: self.remote_ip.duplicate(),
            port: self.port.duplicate(),
            priority: self.priority,
            enabled: self.enabled,
        }
    }
}

impl Ranked for FirewallRule {
    open spec fn rank(v: FirewallRuleView) -> int {
        v.priority as int
    }

    fn ranks_before(&self, other: &Self) -> (r: bool) {
        self.priority < other.priority
    }
}

impl<'a> Ranked for &'a FirewallRule {
    open spec fn rank(v: FirewallRuleView) -> int {
        v.priority as int
    }

    fn ranks_before(&self, other: &Self) -> (r: bool) {
        self.priority < other.priority
    }
}

/// The rank of a rule among the rules of a container.
pub open spec fn by_priority() -> spec_fn(FirewallRuleView) -> int {
    |r: FirewallRuleView| r.priority as int
}

/// A rule for all traffic of one direction and protocol, with the priority that a rule has
/// where none is set.
pub open spec fn plain_rule(
    id: Seq<char>,
    direction: FirewallDirection,
    action: FirewallAction,
    protocol: FirewallProtocol,
) -> FirewallRuleView {
    FirewallRuleView {
        id,
        description: None,
        direction,
        action,
        protocol,
        remote_ip: None,
        port: None,
        priority: 100,
        enabled: true,
    }
}

impl FirewallRuleView {
    /// The rule, on traffic with one remote address.
    pub open spec fn from_remote(self, ip: Seq<char>) -> FirewallRuleView {
        FirewallRuleView { remote_ip: Some(ip), ..self }
    }

    /// The rule, on traffic to one port.
    pub open spec fn at_port(self, port: Seq<char>) -> FirewallRuleView {
        FirewallRuleView { port: Some(port), ..self }
    }

    /// The rule, with another priority.
    pub open spec fn of_priority(self, priority: i32) -> FirewallRuleView {
        FirewallRuleView { priority, ..self }
    }

    /// The rule, with a description.
    pub open spec fn described(self, text: Seq<char>) -> FirewallRuleView {
        FirewallRuleView { description: Some(text), ..self }
    }
}

impl FirewallRule {
    /// A rule that lets traffic pass, under a new random identifier.
    pub fn allow(direction: FirewallDirection, protocol: FirewallProtocol) -> (r: Self)
        ensures
            is_random_uuid(r.id@),
            r.deep_view() == plain_rule(r.id@, direction, FirewallAction::Allow, protocol),
    {
        FirewallRule {
            id: random_uuid(),
            description: None,
            direction,
            action: FirewallAction::Allow,
            protocol,
            remote_ip: None,
            port: None,
            priority: 100,
            enabled: true,
        }
    }

    /// A rule that drops traffic, under a new random identifier.
    pub fn drop(direction: FirewallDirection, protocol: FirewallProtocol) -> (r: Self)
        ensures
            is_random_uuid(r.id@),
            r.deep_view() == plain_rule(r.id@, direction, FirewallAction::Drop, protocol),
    {
        FirewallRule {
            id: random_uuid(),
            description: None,
            direction,
            action: FirewallAction::Drop,
            protocol,
            remote_ip: None,
            port: None,
            priority: 100,
            enabled: true,
        }
    }

    /// The rule for one address or network at the other end.
    pub fn with_remote_ip(self, ip: &str) -> (r: Self)
        ensures
            r.deep_view() == self.deep_view().from_remote(ip@),
    {
        let mut rule = self;
        rule.remote_ip = Some(ip.to_string());
        rule
    }

    /// The rule for one port or range of ports.
    pub fn with_port(self, port: &str) -> (r: Self)
        ensures
            r.deep_view() == self.deep_view().at_port(port@),
    {
        let mut rule = self;
        rule.port = Some(port.to_string());
        rule
    }

    /// The rule with another priority.
    pub fn with_priority(self, priority: i32) -> (r: Self)
        ensures
            r.deep_view() == self.deep_view().of_priority(priority),
    {
        let mut rule = self;
        rule.priority = priority;
        rule
    }

    /// The rule with a description.
    pub fn with_description(self, desc: &str) -> (r: Self)
        ensures
            r.deep_view() == self.deep_view().described(desc@),
    {
        let mut rule = self;
        rule.description = Some(desc.to_string());
        rule
    }
}

/// The firewall of one container.
#[derive(Debug, Clone)]
pub struct ContainerFirewall {
    pub enabled: bool,
    /// Whether traffic to the container passes where no rule matches.
    pub default_inbound_allow: bool,
    /// Whether traffic from the container passes where no rule matches.
    pub default_outbound_allow: bool,
    pub rules: Vec<FirewallRule>,
}

/// What a [`ContainerFirewall`] holds.
#[verifier::ext_equal]
pub struct ContainerFirewallView {
    pub enabled: bool,
    pub default_inbound_allow: bool,
    pub default_outbound_allow: bool,
    pub rules: Seq<FirewallRuleView>,
}

impl DeepView for ContainerFirewall {
    type V = ContainerFirewallView;

    open spec fn deep_view(&self) -> ContainerFirewallView {
        ContainerFirewallView {
            enabled: self.enabled,
            default_inbound_allow: self.default_inbound_allow,
            default_outbound_allow: self.default_outbound_allow,
            rules: self.rules.deep_view(),
        }
    }
}

impl Duplicate for ContainerFirewall {
    fn duplicate(&self) -> (r: Self) {
        ContainerFirewall {
            enabled: self.enabled,
            default_inbound_allow: self.default_inbound_allow,
            default_outbound_allow: self.default_outbound_allow,
            rules: self.rules.duplicate(),
        }
    }
}

impl Default for ContainerFirewall {
    fn default() -> (r: Self)
        ensures
            r.deep_view() == (ContainerFirewallView {
                enabled: false,
                default_inbound_allow: false,
                default_outbound_allow: false,
                rules: Seq::empty(),
            }),
    {
        let r = ContainerFirewall {
            enabled: false,
            default_inbound_allow: false,
            default_outbound_allow: false,
            rules: Vec::new(),
        };
        assert(r.rules.deep_view() =~= Seq::empty());
        r
    }
}

/// A firewall that is on and has no rules.
pub open spec fn policy_only(inbound: bool, outbound: bool) -> ContainerFirewallView {
    ContainerFirewallView {
        enabled: true,
        default_inbound_allow: inbound,
        default_outbound_allow: outbound,
        rules: Seq::empty(),
    }
}

/// The rules that are on.
pub open spec fn enabled_rules(rules: Seq<FirewallRuleView>) -> Seq<FirewallRuleView> {
    rules.filter(|r: FirewallRuleView| r.enabled)
}

/// The rules without those under `id`.
pub open spec fn rules_without(rules: Seq<FirewallRuleView>, id: Seq<char>) -> Seq<
    FirewallRuleView,
> {
    rules.filter(|r: FirewallRuleView| r.id != id)
}

/// Whether a rule stands under `id`.
pub open spec fn has_rule(rules: Seq<FirewallRuleView>, id: Seq<char>) -> bool {
    exists|i: int| 0 <= i < rules.len() && (#[trigger] rules[i]).id == id
}

/// The list, sorted by priority; rules of one priority keep their order.
pub open spec fn priority_order(rules: Seq<FirewallRuleView>) -> Seq<FirewallRuleView> {
    choose|out: Seq<FirewallRuleView>| stably_sorted(rules, out, by_priority())
}

impl ContainerFirewallView {
    /// The firewall with one rule more, and its rules sorted by priority.
    pub open spec fn with_rule(self, rule: FirewallRuleView) -> ContainerFirewallView {
        ContainerFirewallView { rules: priority_order(self.rules.push(rule)), ..self }
    }

    /// The firewall without the rules under `id`.
    pub open spec fn without_rule(self, id: Seq<char>) -> ContainerFirewallView {
        ContainerFirewallView { rules: rules_without(self.rules, id), ..self }
    }

    /// The rules that are applied, in the order in which they are.
    pub open spec fn applied_rules(self) -> Seq<FirewallRuleView> {
        priority_order(enabled_rules(self.rules))
    }
}

/// What is sorted is in the order of priority.
proof fn lemma_priority_order(rules: Seq<FirewallRuleView>, out: Seq<FirewallRuleView>)
    requires
        stably_sorted(rules, out, by_priority()),
    ensures
        out == priority_order(rules),
{
    law_sorting_is_determined(rules, out, priority_order(rules), by_priority());
}

impl ContainerFirewall {
    /// A firewall that lets everything pass.
    pub fn permissive() -> (r: Self)
        ensures
            r.deep_view() == policy_only(true, true),
    {
        let r = ContainerFirewall {
            enabled: true,
            default_inbound_allow: true,
            default_outbound_allow: true,
            rules: Vec::new(),
        };
        assert(r.rules.deep_view() =~= Seq::empty());
        r
    }

    /// A firewall that lets nothing pass.
    pub fn restrictive() -> (r: Self)
        ensures
            r.deep_view() == policy_only(false, false),
    {
        let r = ContainerFirewall {
            enabled: true,
            default_inbound_allow: false,
            default_outbound_allow: false,
            rules: Vec::new(),
        };
        assert(r.rules.deep_view() =~= Seq::empty());
        r
    }

    /// Puts a rule behind the rules of its priority; the rules are sorted by priority then.
    pub fn add_rule(&mut self, rule: FirewallRule)
        ensures
            final(self).deep_view() == old(self).deep_view().with_rule(rule.deep_view()),
            stably_sorted(
                old(self).deep_view().rules.push(rule.deep_view()),
                final(self).deep_view().rules,
                by_priority(),
            ),
    {
        let ghost before = self.rules.deep_view();
        let ghost added = rule.deep_view();
        let mut rules: Vec<FirewallRule> = Vec::new();
        std::mem::swap(&mut rules, &mut self.rules);
        rules.push(rule);
        assert(rules.deep_view() =~= before.push(added));
        self.rules = sort_by_rank(rules);
        proof {
            assert((|x: FirewallRuleView| FirewallRule::rank(x)) =~= by_priority());
            lemma_priority_order(before.push(added), self.rules.deep_view());
        }
    }

    /// Takes out the rules under an identifier; whether there were any is returned.
    pub fn remove_rule(&mut self, rule_id: &str) -> (r: bool)
        ensures
            final(self).deep_view() == old(self).deep_view().without_rule(rule_id@),
            r == has_rule(old(self).deep_view().rules, rule_id@),
    {
        let ghost all = self.rules.deep_view();
        let ghost keep = |r: FirewallRuleView| r.id != rule_id@;
        let mut rules: Vec<FirewallRule> = Vec::new();
        std::mem::swap(&mut rules, &mut self.rules);
        let mut kept: Vec<FirewallRule> = Vec::new();
        let mut removed = false;
        assert(all.take(0).filter(keep) =~= Seq::<FirewallRuleView>::empty()) by {
            reveal(Seq::filter);
        }
        assert(kept.deep_view() =~= Seq::<FirewallRuleView>::empty());
        for rule in it: rules
            invariant
                keep == (|r: FirewallRuleView| r.id != rule_id@),
                it.seq() == rules@,
                all == rules.deep_view(),
                kept.deep_view() == all.take(it.index() as int).filter(keep),
                removed == exists|i: int| 0 <= i < it.index() && (#[trigger] all[i]).id == rule_id@,
        {
            proof {
                let n = it.index() as int;
                reveal(Seq::filter);
                assert(all.take(n + 1).drop_last() =~= all.take(n));
                assert(all.take(n + 1).last() == rule.deep_view());
                assert(all[n] == rule.deep_view());
            }
            let ghost before = kept.deep_view();
            let ghost r = rule.deep_view();
            if same_text(rule.id.as_str(), rule_id) {
                removed = true;
            } else {
                kept.push(rule);
                assert(kept.deep_view() =~= before.push(r));
            }
        }
        assert(all.take(all.len() as int) =~= all);
        self.rules = kept;
        removed
    }

    /// The rules that are on, sorted by priority.
    pub fn get_sorted_rules(&self) -> (r: Vec<&FirewallRule>)
        ensures
            r.deep_view() == self.deep_view().applied_rules(),
            stably_sorted(enabled_rules(self.deep_view().rules), r.deep_view(), by_priority()),
    {
        let ghost all = self.rules.deep_view();
        let ghost keep = |r: FirewallRuleView| r.enabled;
        let mut kept: Vec<&FirewallRule> = Vec::new();
        assert(all.take(0).filter(keep) =~= Seq::<FirewallRuleView>::empty()) by {
            reveal(Seq::filter);
        }
        assert(kept.deep_view() =~= Seq::<FirewallRuleView>::empty());
        for i in 0..self.rules.len()
            invariant
                keep == (|r: FirewallRuleView| r.enabled),
                all == self.rules.deep_view(),
                kept.deep_view() == all.take(i as int).filter(keep),
        {
            let rule = &self.rules[i];
            proof {
                reveal(Seq::filter);
                assert(all.take(i + 1).drop_last() =~= all.take(i as int));
                assert(all.take(i + 1).last() == rule.deep_view());
            }
            if rule.enabled {
                let ghost before = kept.deep_view();
                kept.push(rule);
                assert(kept.deep_view() =~= before.push(rule.deep_view()));
            }
        }
        assert(all.take(all.len() as int) =~= all);
        let r = sort_by_rank(kept);
        proof {
            assert((|x: FirewallRuleView| <&FirewallRule>::rank(x)) =~= by_priority());
            lemma_priority_order(enabled_rules(all), r.deep_view());
        }
        r
    }
}

/// Taking a rule out again leaves the sorted list to which it was added, where its identifier
/// was new.
pub proof fn law_add_then_remove(firewall: ContainerFirewallView, rule: FirewallRuleView)
    requires
        sorted_by_rank(firewall.rules, by_priority()),
        !has_rule(firewall.rules, rule.id),
    ensures
        firewall.with_rule(rule).without_rule(rule.id) == firewall,
{
    let rules = firewall.rules;
    let keep = |r: FirewallRuleView| r.id != rule.id;
    let out = priority_order(rules.push(rule));
    lemma_order_exists(rules.push(rule), by_priority());
    lemma_filter_push(rules, rule, keep);
    lemma_filter_all(rules, keep);
    law_sorting_and_keeping(rules.push(rule), out, keep, by_priority());
}

/// The rules that are applied are those that are on, and no others.
pub proof fn law_applied_rules(firewall: ContainerFirewallView, rule: FirewallRuleView)
    ensures
        firewall.applied_rules().contains(rule) == (firewall.rules.contains(rule) && rule.enabled),
{
    let keep = |r: FirewallRuleView| r.enabled;
    let on = enabled_rules(firewall.rules);
    lemma_order_exists(on, by_priority());
    law_sorting_keeps_values(on, firewall.applied_rules(), by_priority(), rule);
    if on.contains(rule) {
        lemma_filtered_within(firewall.rules, keep, rule);
    }
    if firewall.rules.contains(rule) && rule.enabled {
        let i = choose|i: int| 0 <= i < firewall.rules.len() && firewall.rules[i] == rule;
        firewall.rules.lemma_filter_contains(keep, i);
    }
}

/// Of two rules that are applied, the one with the lower number comes first.
pub proof fn law_applied_in_priority_order(firewall: ContainerFirewallView, i: int, j: int)
    requires
        0 <= i < j < firewall.applied_rules().len(),
    ensures
        firewall.applied_rules()[i].priority <= firewall.applied_rules()[j].priority,
{
    lemma_order_exists(enabled_rules(firewall.rules), by_priority());
    let out = firewall.applied_rules();
    assert(by_priority()(out[i]) <= by_priority()(out[j]));
}

/// An added rule joins those that are there: none is lost and nothing else comes in, the rules
/// stay in order of priority, and what the firewall does by default stays.
pub proof fn law_added_rule_joins(
    firewall: ContainerFirewallView,
    rule: FirewallRuleView,
    other: FirewallRuleView,
    i: int,
    j: int,
)
    requires
        0 <= i < j < firewall.rules.len() + 1,
    ensures
        ({
            let after = firewall.with_rule(rule);
            &&& after.rules.len() == firewall.rules.len() + 1
            &&& after.rules.contains(rule)
            &&& after.rules.contains(other) <==> other == rule || firewall.rules.contains(other)
            &&& after.rules[i].priority <= after.rules[j].priority
            &&& after.enabled == firewall.enabled
            &&& after.default_inbound_allow == firewall.default_inbound_allow
            &&& after.default_outbound_allow == firewall.default_outbound_allow
        }),
{
    let grown = firewall.rules.push(rule);
    let out = firewall.with_rule(rule).rules;
    lemma_order_exists(grown, by_priority());
    assert(stably_sorted(grown, out, by_priority()));
    law_sorting_keeps_values(grown, out, by_priority(), rule);
    law_sorting_keeps_values(grown, out, by_priority(), other);
    assert(grown[firewall.rules.len() as int] == rule);
    if firewall.rules.contains(other) {
        let k = choose|k: int| 0 <= k < firewall.rules.len() && firewall.rules[k] == other;
        assert(grown[k] == other);
    }
    assert(by_priority()(out[i]) <= by_priority()(out[j]));
}

/// An added rule is there.
pub proof fn law_added_rule_is_there(firewall: ContainerFirewallView, rule: FirewallRuleView)
    ensures
        has_rule(firewall.with_rule(rule).rules, rule.id),
        firewall.with_rule(rule).rules.contains(rule),
{
    let grown = firewall.rules.push(rule);
    let out = firewall.with_rule(rule).rules;
    lemma_order_exists(grown, by_priority());
    assert(stably_sorted(grown, out, by_priority()));
    law_sorting_keeps_values(grown, out, by_priority(), rule);
    assert(grown[firewall.rules.len() as int] == rule);
    let k = choose|k: int| 0 <= k < out.len() && out[k] == rule;
    assert(out[k].id == rule.id);
}

/// A removed rule is gone, every rule of another name stays, and what the firewall does by
/// default stays.
pub proof fn law_removed_rule_is_gone(
    firewall: ContainerFirewallView,
    id: Seq<char>,
    other: FirewallRuleView,
)
    ensures
        ({
            let after = firewall.without_rule(id);
            &&& after.rules.contains(other) <==> firewall.rules.contains(other) && other.id != id
            &&& !has_rule(after.rules, id)
            &&& after.enabled == firewall.enabled
            &&& after.default_inbound_allow == firewall.default_inbound_allow
            &&& after.default_outbound_allow == firewall.default_outbound_allow
        }),
{
    let keep = |r: FirewallRuleView| r.id != id;
    let after = firewall.without_rule(id).rules;
    firewall.rules.filter_lemma(keep);
    if after.contains(other) {
        lemma_filtered_within(firewall.rules, keep, other);
    }
    if has_rule(after, id) {
        let i = choose|i: int| 0 <= i < after.len() && (#[trigger] after[i]).id == id;
        lemma_filtered_within(firewall.rules, keep, after[i]);
        assert(after.contains(after[i]));
    }
}

/// A new rule is on, is about every remote address and every port, and is of the priority in
/// the middle; a firewall that only has a policy is on and has no rules.
pub proof fn law_plain_rule(
    id: Seq<char>,
    direction: FirewallDirection,
    action: FirewallAction,
    protocol: FirewallProtocol,
    inbound: bool,
    outbound: bool,
)
    ensures
        ({
            let rule = plain_rule(id, direction, action, protocol);
            &&& rule.id == id
            &&& rule.direction == direction
            &&& rule.action == action
            &&& rule.protocol == protocol
            &&& rule.remote_ip is None
            &&& rule.port is None
            &&& rule.description is None
            &&& rule.priority == 100
            &&& rule.enabled
        }),
        ({
            let firewall = policy_only(inbound, outbound);
            &&& firewall.enabled
            &&& firewall.default_inbound_allow == inbound
            &&& firewall.default_outbound_allow == outbound
            &&& firewall.rules.len() == 0
        }),
{
}

/// Two directions, actions or protocols have the same word only where they are the same.
pub proof fn law_words_tell_apart(
    directions: (FirewallDirection, FirewallDirection),
    actions: (FirewallAction, FirewallAction),
    protocols: (FirewallProtocol, FirewallProtocol),
)
    ensures
        directions.0.text() == directions.1.text() <==> directions.0 == directions.1,
        actions.0.text() == actions.1.text() <==> actions.0 == actions.1,
        protocols.0.text() == protocols.1.text() <==> protocols.0 == protocols.1,
{
    reveal_strlit("inbound");
    reveal_strlit("outbound");
    assert("inbound"@.len() == 7);
    assert("outbound"@.len() == 8);
    reveal_strlit("ACCEPT");
    reveal_strlit("DROP");
    reveal_strlit("REJECT");
    reveal_strlit("LOG");
    assert("ACCEPT"@.len() == 6);
    assert("DROP"@.len() == 4);
    assert("REJECT"@.len() == 6);
    assert("LOG"@.len() == 3);
    assert("ACCEPT"@[0] != "REJECT"@[0]);
    reveal_strlit("tcp");
    reveal_strlit("udp");
    reveal_strlit("icmp");
    reveal_strlit("all");
    assert("tcp"@.len() == 3);
    assert("udp"@.len() == 3);
    assert("icmp"@.len() == 4);
    assert("all"@.len() == 3);
    assert("tcp"@[0] != "udp"@[0]);
    assert("tcp"@[0] != "all"@[0]);
    assert("udp"@[0] != "all"@[0]);
}

/// What is said of a rule is then so, and everything else of the rule stays.
pub proof fn law_rules_are_refined(
    rule: FirewallRuleView,
    ip: Seq<char>,
    port: Seq<char>,
    priority: i32,
    text: Seq<char>,
)
    ensures
        rule.from_remote(ip).remote_ip == Some(ip),
        (FirewallRuleView { remote_ip: rule.remote_ip, ..rule.from_remote(ip) }) == rule,
        rule.at_port(port).port == Some(port),
        (FirewallRuleView { port: rule.port, ..rule.at_port(port) }) == rule,
        rule.of_priority(priority).priority == priority,
        (FirewallRuleView { priority: rule.priority, ..rule.of_priority(priority) }) == rule,
        rule.described(text).description == Some(text),
        (FirewallRuleView { description: rule.description, ..rule.described(text) }) == rule,
{
}

} // verus!

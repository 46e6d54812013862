//! Which commands of iptables carry out the firewall of each container.

use super::rules::{
    by_priority, plain_rule, policy_only, ContainerFirewall, ContainerFirewallView, FirewallAction,
    FirewallDirection, FirewallProtocol, FirewallRule, FirewallRuleView, has_rule,
    law_added_rule_is_there, law_removed_rule_is_gone,
};
use crate::duplicate::Duplicate;
use crate::order::{law_sorting_keeps_sorted, law_sorting_one_by_one, stably_sorted};
use crate::outside::{
    ascii_upper, ascii_upper_text, is_ascii_text, is_random_uuid, lossy_text, to_upper, upper_case,
    utf8_lossy,
};
use crate::table::{lemma_pairs_map, Table};
use crate::text::{
    bytes_in, cat2, cat3, chars_of, chars_within, contains_text, first_bytes, has_part, has_prefix,
    is_white, law_next_word, lines, lines_of, next_word, split_word, starts_with_text, texts,
};
use vstd::prelude::*;

verus! {

/// A call of iptables.
#[derive(Debug, Clone)]
pub struct IptablesCommand {
    pub args: Vec<String>,
    /// Whether what follows is left out where the call fails.
    pub must_succeed: bool,
}

/// What a [`IptablesCommand`] holds.
#[verifier::ext_equal]
pub struct IptablesCommandView {
    pub args: Seq<Seq<char>>,
    pub must_succeed: bool,
}

impl DeepView for IptablesCommand {
    type V = IptablesCommandView;

    open spec fn deep_view(&self) -> IptablesCommandView {
        IptablesCommandView {
            args: self.args.deep_view(),
            must_succeed: self.must_succeed,
        }
    }
}

impl Duplicate for IptablesCommand {
    fn duplicate(&self) -> (r: Self) {
        IptablesCommand {
            args: self.args.duplicate(),
            must_succeed: self.must_succeed,
        }
    }
}

/// What a call of iptables left behind.
#[derive(Debug, Clone)]
pub struct IptablesOutput {
    /// Whether the exit status was that of success.
    pub success: bool,
    pub stdout: Vec<u8>,
    pub stderr: Vec<u8>,
}

/// The characters of each word.
pub open spec fn word_texts(words: Seq<&str>) -> Seq<Seq<char>> {
    Seq::new(words.len(), |i: int| words[i]@)
}

fn command(must_succeed: bool, words: &[&str]) -> (r: IptablesCommand)
    ensures
        r.deep_view() == (IptablesCommandView { args: word_texts(words@), must_succeed }),
{
    let mut args: Vec<String> = Vec::new();
    for i in 0..words.len()
        invariant
            args.len() == i,
            forall|k: int| 0 <= k < i ==> args@[k]@ == words@[k]@,
    {
        args.push(words[i].to_string());
    }
    assert(args.deep_view() =~= word_texts(words@));
    IptablesCommand { args, must_succeed }
}

/// A call that empties a chain.
pub open spec fn flush(chain: Seq<char>, must_succeed: bool) -> IptablesCommandView {
    IptablesCommandView { args: seq!["-F"@, chain], must_succeed }
}

/// A call that makes a chain; there may be one of that name.
pub open spec fn new_chain(chain: Seq<char>) -> IptablesCommandView {
    IptablesCommandView { args: seq!["-N"@, chain], must_succeed: false }
}

/// A call that deletes a chain, where there is one.
pub open spec fn delete_chain(chain: Seq<char>) -> IptablesCommandView {
    IptablesCommandView { args: seq!["-X"@, chain], must_succeed: false }
}

/// A call that sends the traffic of one end, `"-s"@` or `"-d"@`, into a chain first.
pub open spec fn hook(end: Seq<char>, ip: Seq<char>, chain: Seq<char>) -> IptablesCommandView {
    IptablesCommandView {
        args: seq!["-I"@, "FORWARD"@, "1"@, end, ip, "-j"@, chain],
        must_succeed: true,
    }
}

/// A call that undoes [`hook`], where there is anything to undo.
pub open spec fn unhook(end: Seq<char>, ip: Seq<char>, chain: Seq<char>) -> IptablesCommandView {
    IptablesCommandView {
        args: seq!["-D"@, "FORWARD"@, end, ip, "-j"@, chain],
        must_succeed: false,
    }
}

/// A call that undoes a hook for all traffic, where there is one.
pub open spec fn unhook_all(chain: Seq<char>) -> IptablesCommandView {
    IptablesCommandView { args: seq!["-D"@, "FORWARD"@, "-j"@, chain], must_succeed: false }
}

/// The end of its chain: what happens to traffic that no rule matched.
pub open spec fn default_policy(
    chain: Seq<char>,
    end: Seq<char>,
    ip: Seq<char>,
    allow: bool,
) -> IptablesCommandView {
    IptablesCommandView {
        args: seq![
            "-A"@,
            chain,
            end,
            ip,
            "-j"@,
            if allow {
                "ACCEPT"@
            } else {
                "DROP"@
            },
        ],
        must_succeed: true,
    }
}

/// The calls that make the chain of a container and hook it in anew.
pub open spec fn init_plan(chain: Seq<char>, ip: Seq<char>) -> Seq<IptablesCommandView> {
    seq![
        new_chain(chain),
        flush(chain, true),
        unhook("-s"@, ip, chain),
        unhook("-d"@, ip, chain),
        hook("-s"@, ip, chain),
        hook("-d"@, ip, chain),
    ]
}

/// The calls that take the chain of a container away.
pub open spec fn cleanup_plan(chain: Seq<char>, ip: Option<Seq<char>>) -> Seq<
    IptablesCommandView,
> {
    (match ip {
        Some(ip) => seq![unhook("-s"@, ip, chain), unhook("-d"@, ip, chain)],
        None => Seq::empty(),
    }) + seq![flush(chain, false), delete_chain(chain)]
}

/// Ports as iptables takes them: the ends of a range stand on both sides of a colon.
pub open spec fn port_text(port: Seq<char>) -> Seq<char> {
    Seq::new(
        port.len(),
        |i: int|
            if port[i] == '-' {
                ':'
            } else {
                port[i]
            },
    )
}

/// Ports as iptables takes them.
fn port_text_of(port: &str) -> (r: String)
    ensures
        r@ == port_text(port@),
{
    let v = chars_of(port);
    let mut r = String::new();
    for i in 0..v.len()
        invariant
            v@ == port@,
            r@ == port_text(port@).take(i as int),
    {
        let c = v[i];
        r.push(if c == '-' {
            ':'
        } else {
            c
        });
        assert(r@ =~= port_text(port@).take(i + 1));
    }
    assert(r@ =~= port_text(port@));
    r
}

/// The arguments that append a rule to a chain.
pub open spec fn rule_args(chain: Seq<char>, ip: Seq<char>, rule: FirewallRuleView) -> Seq<
    Seq<char>,
> {
    let here = match rule.direction {
        FirewallDirection::Inbound => "-d"@,
        FirewallDirection::Outbound => "-s"@,
    };
    let there = match rule.direction {
        FirewallDirection::Inbound => "-s"@,
        FirewallDirection::Outbound => "-d"@,
    };
    let remote = match rule.remote_ip {
        Some(remote) => seq![there, remote],
        None => Seq::empty(),
    };
    let protocol = if rule.protocol == FirewallProtocol::All {
        Seq::empty()
    } else {
        seq!["-p"@, rule.protocol.text()]
    };
    let port = match rule.port {
        Some(port) if rule.protocol == FirewallProtocol::Tcp || rule.protocol
            == FirewallProtocol::Udp => seq!["--dport"@, port_text(port)],
        _ => Seq::empty(),
    };
    let comment = match rule.description {
        Some(text) => seq!["-m"@, "comment"@, "--comment"@, text],
        None => Seq::empty(),
    };
    seq!["-A"@, chain, here, ip] + remote + protocol + port + seq!["-j"@, rule.action.text()]
        + comment
}

/// The call that appends a rule to a chain.
pub open spec fn rule_command(
    chain: Seq<char>,
    ip: Seq<char>,
    rule: FirewallRuleView,
) -> IptablesCommandView {
    IptablesCommandView { args: rule_args(chain, ip, rule), must_succeed: true }
}

/// The calls that append rules to a chain, in order.
pub open spec fn rule_commands(
    chain: Seq<char>,
    ip: Seq<char>,
    rules: Seq<FirewallRuleView>,
) -> Seq<IptablesCommandView> {
    Seq::new(rules.len(), |i: int| rule_command(chain, ip, rules[i]))
}

/// The calls that write the firewall of a container into its chain: the chain is emptied, the
/// rules are appended in the order of priority, and the default policies stand at its end.
pub open spec fn apply_plan(
    chain: Seq<char>,
    ip: Seq<char>,
    config: ContainerFirewallView,
) -> Seq<IptablesCommandView> {
    seq![flush(chain, true)] + rule_commands(chain, ip, config.applied_rules()) + seq![
        default_policy(chain, "-d"@, ip, config.default_inbound_allow),
        default_policy(chain, "-s"@, ip, config.default_outbound_allow),
    ]
}

/// The calls that undo the hooks of a chain for each of the addresses, where there are any.
pub open spec fn unhook_plan(ips: Seq<Seq<char>>, chain: Seq<char>) -> Seq<IptablesCommandView>
    decreases ips.len(),
{
    if ips.len() == 0 {
        Seq::empty()
    } else {
        unhook_plan(ips.drop_last(), chain) + seq![
            unhook("-s"@, ips.last(), chain),
            unhook("-d"@, ips.last(), chain),
        ]
    }
}

/// The calls that take away one of the chains, whosever it is: it is unhooked for each address,
/// emptied and deleted.
pub open spec fn sweep_one(ips: Seq<Seq<char>>, chain: Seq<char>) -> Seq<IptablesCommandView> {
    seq![unhook_all(chain)] + unhook_plan(ips, chain) + seq![
        flush(chain, false),
        delete_chain(chain),
    ]
}

/// The calls that take away chains of which only the names are known, given the addresses of
/// containers.
pub open spec fn sweep_plan(ips: Seq<Seq<char>>, chains: Seq<Seq<char>>) -> Seq<
    IptablesCommandView,
>
    decreases chains.len(),
{
    if chains.len() == 0 {
        Seq::empty()
    } else {
        sweep_plan(ips, chains.drop_last()) + sweep_one(ips, chains.last())
    }
}

/// Whether a list holds the addresses of the containers, and no others.
pub open spec fn are_addresses(manager: FirewallManagerView, ips: Seq<Seq<char>>) -> bool {
    &&& forall|uuid: Seq<char>|
        manager.container_ips.contains_key(uuid) ==> ips.contains(
            #[trigger] manager.container_ips[uuid],
        )
    &&& forall|i: int|
        0 <= i < ips.len() ==> exists|uuid: Seq<char>|
            manager.ip_of(uuid) == Some(#[trigger] ips[i])
}

/// Whether the first twelve bytes of a UUID are whole characters; where there are fewer, they are.
pub open spec fn has_short_form(uuid: Seq<char>) -> bool {
    let n = chars_within(uuid, 12);
    n == uuid.len() || bytes_in(uuid.take(n as int)) == 12
}

/// The name of the chain of a container: the first twelve bytes of its UUID in upper case
/// stand behind a prefix. Names of chains may not be long.
pub open spec fn chain_name(uuid: Seq<char>) -> Seq<char> {
    "LIGHTD"@ + "-"@ + upper_case(uuid.take(chars_within(uuid, 12) as int))
}

/// Whether two ASCII texts are the same but for the case of letters.
pub open spec fn same_but_for_case(a: Seq<char>, b: Seq<char>) -> bool {
    &&& a.len() == b.len()
    &&& forall|i: int| 0 <= i < a.len() ==> ascii_upper(#[trigger] a[i]) == ascii_upper(b[i])
}

/// The first twelve characters of a text, or all where there are fewer.
pub open spec fn first_twelve(s: Seq<char>) -> Seq<char> {
    if s.len() <= 12 {
        s
    } else {
        s.take(12)
    }
}

proof fn lemma_ascii_fits(s: Seq<char>, n: nat)
    requires
        is_ascii_text(s),
    ensures
        chars_within(s, n) == if s.len() <= n {
            s.len()
        } else {
            n
        },
    decreases s.len(),
{
    if s.len() > 0 && n > 0 {
        assert('\u{80}' > s[0]);
        assert forall|i: int| 0 <= i < s.drop_first().len() implies '\u{80}'
            > #[trigger] s.drop_first()[i] by {
            assert(s.drop_first()[i] == s[i + 1]);
        }
        lemma_ascii_fits(s.drop_first(), (n - 1) as nat);
    } else if s.len() > 0 {
        assert('\u{80}' > s[0]);
    }
}

proof fn lemma_ascii_bytes(s: Seq<char>)
    requires
        is_ascii_text(s),
    ensures
        bytes_in(s) == s.len(),
    decreases s.len(),
{
    if s.len() > 0 {
        assert('\u{80}' > s[s.len() - 1]);
        lemma_ascii_bytes(s.drop_last());
    }
}

/// The chain of a container with an ASCII identifier: the first twelve characters of the
/// identifier in upper case stand behind the prefix, in at most nineteen bytes. There always is
/// such a name.
pub proof fn law_ascii_chain_name(uuid: Seq<char>)
    requires
        is_ascii_text(uuid),
    ensures
        has_short_form(uuid),
        chain_name(uuid) == "LIGHTD-"@ + ascii_upper_text(first_twelve(uuid)),
        bytes_in(chain_name(uuid)) <= 19,
{
    lemma_ascii_fits(uuid, 12);
    let short = first_twelve(uuid);
    assert(uuid.take(chars_within(uuid, 12) as int) =~= short);
    assert(is_ascii_text(short));
    lemma_ascii_bytes(short);
    reveal_strlit("LIGHTD");
    reveal_strlit("-");
    reveal_strlit("LIGHTD-");
    assert("LIGHTD"@ + "-"@ =~= "LIGHTD-"@);
    let name = chain_name(uuid);
    assert(name =~= "LIGHTD-"@ + ascii_upper_text(short));
    assert forall|i: int| 0 <= i < name.len() implies '\u{80}' > #[trigger] name[i] by {
        if i >= 7 {
            let c = short[i - 7];
            assert('\u{80}' > c);
            assert(name[i] == ascii_upper(c));
        }
    }
    lemma_ascii_bytes(name);
}

/// Containers have a chain in common exactly where the first twelve characters of their ASCII
/// identifiers are the same but for the case of letters.
pub proof fn law_chains_of_their_own(a: Seq<char>, b: Seq<char>)
    requires
        is_ascii_text(a),
        is_ascii_text(b),
    ensures
        chain_name(a) == chain_name(b) <==> same_but_for_case(first_twelve(a), first_twelve(b)),
{
    law_ascii_chain_name(a);
    law_ascii_chain_name(b);
    let (x, y) = (first_twelve(a), first_twelve(b));
    let (name_a, name_b) = (chain_name(a), chain_name(b));
    let n = "LIGHTD-"@.len() as int;
    if name_a == name_b {
        assert(x.len() == y.len());
        assert forall|i: int| 0 <= i < x.len() implies ascii_upper(#[trigger] x[i])
            == ascii_upper(y[i]) by {
            assert(name_a[n + i] == ascii_upper(x[i]));
            assert(name_b[n + i] == ascii_upper(y[i]));
        }
    }
    if same_but_for_case(x, y) {
        assert(ascii_upper_text(x) =~= ascii_upper_text(y));
    }
}

/// Whether iptables only said that there was nothing to do.
pub open spec fn is_harmless(stderr: Seq<char>) -> bool {
    ||| has_part(stderr, "Chain already exists"@)
    ||| has_part(stderr, "No chain/target/match"@)
    ||| has_part(stderr, "Bad rule"@)
}

/// What a call of iptables is judged to be: `None` where all is well, otherwise what is said
/// of its failure.
pub open spec fn iptables_failure(outcome: Result<(bool, Seq<u8>), Seq<char>>) -> Option<
    Seq<char>,
> {
    match outcome {
        Err(e) => Some("Failed to run iptables: "@ + e),
        Ok((success, stderr)) => if success || is_harmless(lossy_text(stderr)) {
            None
        } else {
            Some("iptables failed: "@ + lossy_text(stderr))
        },
    }
}

/// The exit status and the error output of a call, or why it could not be made.
pub open spec fn outcome_view(outcome: Result<IptablesOutput, String>) -> Result<
    (bool, Seq<u8>),
    Seq<char>,
> {
    match outcome {
        Ok(output) => Ok((output.success, output.stderr@)),
        Err(e) => Err(e@),
    }
}

/// The name in a line of a listing that begins the part of a chain of the daemon.
pub open spec fn listed_chain(line: Seq<char>) -> Option<Seq<char>> {
    if has_prefix(line, "Chain LIGHTD-"@) {
        match next_word(line) {
            Some((_, rest)) => match next_word(rest) {
                Some((name, _)) => Some(name),
                None => None,
            },
            None => None,
        }
    } else {
        None
    }
}

/// The names of the chains of the daemon in the lines of a listing, in order.
pub open spec fn listed_chains(lines: Seq<Seq<char>>) -> Seq<Seq<char>>
    decreases lines.len(),
{
    if lines.len() == 0 {
        Seq::empty()
    } else {
        match listed_chain(lines.last()) {
            Some(name) => listed_chains(lines.drop_last()).push(name),
            None => listed_chains(lines.drop_last()),
        }
    }
}

/// The addresses and the firewalls of the containers that are known, by their UUIDs.
pub struct FirewallManager {
    container_ips: Table<String>,
    configs: Table<ContainerFirewall>,
    iptables_available: bool,
}

/// What a [`FirewallManager`] holds.
#[verifier::ext_equal]
pub struct FirewallManagerView {
    pub container_ips: Map<Seq<char>, Seq<char>>,
    pub configs: Map<Seq<char>, ContainerFirewallView>,
    pub iptables_available: bool,
}

impl View for FirewallManager {
    type V = FirewallManagerView;

    closed spec fn view(&self) -> FirewallManagerView {
        FirewallManagerView {
            container_ips: self.container_ips@,
            configs: self.configs@,
            iptables_available: self.iptables_available,
        }
    }
}

impl FirewallManagerView {
    /// The firewall of a container; where none was set, everything passes.
    pub open spec fn config_of(self, uuid: Seq<char>) -> ContainerFirewallView {
        if self.configs.contains_key(uuid) {
            self.configs[uuid]
        } else {
            policy_only(true, true)
        }
    }

    /// The address of a container, where it is known.
    pub open spec fn ip_of(self, uuid: Seq<char>) -> Option<Seq<char>> {
        if self.container_ips.contains_key(uuid) {
            Some(self.container_ips[uuid])
        } else {
            None
        }
    }

    /// Whether rules of the container are written anywhere.
    pub open spec fn enforces(self, uuid: Seq<char>) -> bool {
        self.iptables_available && self.config_of(uuid).enabled
    }

    /// With an address for a container.
    pub open spec fn registered(self, uuid: Seq<char>, ip: Seq<char>) -> FirewallManagerView {
        FirewallManagerView { container_ips: self.container_ips.insert(uuid, ip), ..self }
    }

    /// Without anything about a container.
    pub open spec fn unregistered(self, uuid: Seq<char>) -> FirewallManagerView {
        FirewallManagerView {
            container_ips: self.container_ips.remove(uuid),
            configs: self.configs.remove(uuid),
            ..self
        }
    }

    /// With another firewall for a container.
    pub open spec fn with_config(
        self,
        uuid: Seq<char>,
        config: ContainerFirewallView,
    ) -> FirewallManagerView {
        FirewallManagerView { configs: self.configs.insert(uuid, config), ..self }
    }

    /// The view after the firewall of a container was switched on or off.
    pub open spec fn switched(self, uuid: Seq<char>, enabled: bool) -> FirewallManagerView {
        self.with_config(uuid, ContainerFirewallView { enabled, ..self.config_of(uuid) })
    }

    /// The view after the policies of a container were set.
    pub open spec fn with_policies(
        self,
        uuid: Seq<char>,
        inbound: bool,
        outbound: bool,
    ) -> FirewallManagerView {
        self.with_config(
            uuid,
            ContainerFirewallView {
                default_inbound_allow: inbound,
                default_outbound_allow: outbound,
                ..self.config_of(uuid)
            },
        )
    }

    /// The view after a rule was added for a container.
    pub open spec fn with_rule(self, uuid: Seq<char>, rule: FirewallRuleView) -> FirewallManagerView {
        self.with_config(uuid, self.config_of(uuid).with_rule(rule))
    }

    /// The view after a rule of a container was removed.
    pub open spec fn without_rule(self, uuid: Seq<char>, id: Seq<char>) -> FirewallManagerView {
        if self.configs.contains_key(uuid) {
            self.with_config(uuid, self.configs[uuid].without_rule(id))
        } else {
            self
        }
    }

    /// Whether a container has a rule of that name.
    pub open spec fn has_rule(self, uuid: Seq<char>, id: Seq<char>) -> bool {
        self.configs.contains_key(uuid) && has_rule(self.configs[uuid].rules, id)
    }

    /// The calls that set up the chain of a container.
    pub open spec fn opening(self, uuid: Seq<char>) -> Result<Seq<IptablesCommandView>, Seq<char>> {
        if !self.iptables_available {
            Ok(Seq::empty())
        } else {
            match self.ip_of(uuid) {
                Some(ip) => Ok(init_plan(chain_name(uuid), ip)),
                None => Err(not_registered(uuid)),
            }
        }
    }

    /// The calls that take the chain of a container away.
    pub open spec fn cleaning(self, uuid: Seq<char>) -> Seq<IptablesCommandView> {
        if self.iptables_available {
            cleanup_plan(chain_name(uuid), self.ip_of(uuid))
        } else {
            Seq::empty()
        }
    }

    /// The calls that follow when the firewall of a container was switched on or off.
    pub open spec fn switching(self, uuid: Seq<char>, enabled: bool) -> Result<
        Seq<IptablesCommandView>,
        Seq<char>,
    > {
        if enabled {
            self.switched(uuid, enabled).apply(uuid)
        } else if self.iptables_available {
            Ok(seq![flush(chain_name(uuid), false)])
        } else {
            Ok(Seq::empty())
        }
    }

    /// The calls that write the firewall of a container into its chain, or why there are none.
    pub open spec fn apply(self, uuid: Seq<char>) -> Result<Seq<IptablesCommandView>, Seq<char>> {
        if !self.enforces(uuid) {
            Ok(Seq::empty())
        } else {
            match self.ip_of(uuid) {
                Some(ip) => Ok(apply_plan(chain_name(uuid), ip, self.config_of(uuid))),
                None => Err(not_registered(uuid)),
            }
        }
    }
}

/// What is said of a container without a known address.
pub open spec fn not_registered(uuid: Seq<char>) -> Seq<char> {
    "Container "@ + uuid + " IP not registered"@
}

/// The contents of a result that holds commands or a message.
pub open spec fn plan_view(r: Result<Vec<IptablesCommand>, String>) -> Result<
    Seq<IptablesCommandView>,
    Seq<char>,
> {
    match r {
        Ok(plan) => Ok(plan.deep_view()),
        Err(e) => Err(e@),
    }
}

impl FirewallManager {
    /// A manager that knows no container. `iptables_available` says whether iptables can be
    /// called; without it no rule is written anywhere.
    pub fn new(iptables_available: bool) -> (r: Self)
        ensures
            r@ == (FirewallManagerView {
                container_ips: Map::empty(),
                configs: Map::empty(),
                iptables_available,
            }),
    {
        FirewallManager { container_ips: Table::new(), configs: Table::new(), iptables_available }
    }

    /// Whether a call of `iptables --version` shows that iptables can be called.
    pub fn check_iptables(outcome: &Result<IptablesOutput, String>) -> (r: bool)
        ensures
            r == (outcome is Ok && outcome->Ok_0.success),
    {
        match outcome {
            Ok(output) => output.success,
            Err(_) => false,
        }
    }

    /// The name of the chain of a container.
    pub fn get_chain_name(container_uuid: &str) -> (r: String)
        requires
            has_short_form(container_uuid@),
        ensures
            r@ == chain_name(container_uuid@),
    {
        let short = first_bytes(container_uuid, 12);
        let upper = to_upper(short.as_str());
        cat3("LIGHTD", "-", upper.as_str())
    }

    /// Keeps the address of a container.
    pub fn register_container(&mut self, container_uuid: &str, container_ip: &str)
        ensures
            final(self)@ == old(self)@.registered(container_uuid@, container_ip@),
    {
        self.container_ips.insert(container_uuid.to_string(), container_ip.to_string());
    }

    /// Forgets the address and the firewall of a container.
    pub fn unregister_container(&mut self, container_uuid: &str)
        ensures
            final(self)@ == old(self)@.unregistered(container_uuid@),
    {
        self.container_ips.remove(container_uuid);
        self.configs.remove(container_uuid);
    }

    /// The address of a container, where it is known.
    pub fn get_container_ip(&self, container_uuid: &str) -> (r: Option<String>)
        ensures
            r.deep_view() == self@.ip_of(container_uuid@),
    {
        match self.container_ips.get(container_uuid) {
            Some(ip) => Some(ip.clone()),
            None => None,
        }
    }

    /// Sets the firewall of a container.
    pub fn set_config(&mut self, container_uuid: &str, config: ContainerFirewall)
        ensures
            final(self)@ == old(self)@.with_config(container_uuid@, config.deep_view()),
    {
        self.configs.insert(container_uuid.to_string(), config);
    }

    /// The firewall that was set for a container.
    pub fn get_config(&self, container_uuid: &str) -> (r: Option<ContainerFirewall>)
        ensures
            r.deep_view() == if self@.configs.contains_key(container_uuid@) {
                Some(self@.configs[container_uuid@])
            } else {
                None
            },
    {
        match self.configs.get(container_uuid) {
            Some(config) => Some(config.duplicate()),
            None => None,
        }
    }

    fn config_or_permissive(&self, container_uuid: &str) -> (r: ContainerFirewall)
        ensures
            r.deep_view() == self@.config_of(container_uuid@),
    {
        match self.get_config(container_uuid) {
            Some(config) => config,
            None => ContainerFirewall::permissive(),
        }
    }

    /// The calls that make the chain of a container and hook it into the traffic from and to
    /// its address, which must be known.
    pub fn init_container_firewall(&self, container_uuid: &str) -> (r: Result<
        Vec<IptablesCommand>,
        String,
    >)
        requires
            self@.iptables_available ==> has_short_form(container_uuid@),
        ensures
            plan_view(r) == self@.opening(container_uuid@),
    {
        let mut plan: Vec<IptablesCommand> = Vec::new();
        if !self.iptables_available {
            assert(plan.deep_view() =~= Seq::empty());
            return Ok(plan);
        }
        let chain_name = Self::get_chain_name(container_uuid);
        let chain = chain_name.as_str();
        let container_ip = match self.get_container_ip(container_uuid) {
            Some(ip) => ip,
            None => {
                return Err(cat3("Container ", container_uuid, " IP not registered"));
            },
        };
        let ip = container_ip.as_str();
        plan.push(command(false, &["-N", chain]));
        plan.push(command(true, &["-F", chain]));
        plan.push(command(false, &["-D", "FORWARD", "-s", ip, "-j", chain]));
        plan.push(command(false, &["-D", "FORWARD", "-d", ip, "-j", chain]));
        plan.push(command(true, &["-I", "FORWARD", "1", "-s", ip, "-j", chain]));
        plan.push(command(true, &["-I", "FORWARD", "1", "-d", ip, "-j", chain]));
        assert(plan.deep_view() =~~= init_plan(chain@, ip@));
        Ok(plan)
    }

    /// The calls that take the chain of a container away. None of them has to succeed.
    pub fn cleanup_container_firewall(&self, container_uuid: &str) -> (r: Vec<IptablesCommand>)
        requires
            self@.iptables_available ==> has_short_form(container_uuid@),
        ensures
            r.deep_view() == self@.cleaning(container_uuid@),
    {
        let mut plan: Vec<IptablesCommand> = Vec::new();
        if !self.iptables_available {
            assert(plan.deep_view() =~= Seq::empty());
            return plan;
        }
        let chain_name = Self::get_chain_name(container_uuid);
        let chain = chain_name.as_str();
        let container_ip = self.get_container_ip(container_uuid);
        if let Some(ip) = &container_ip {
            plan.push(command(false, &["-D", "FORWARD", "-s", ip.as_str(), "-j", chain]));
            plan.push(command(false, &["-D", "FORWARD", "-d", ip.as_str(), "-j", chain]));
        }
        plan.push(command(false, &["-F", chain]));
        plan.push(command(false, &["-X", chain]));
        assert(plan.deep_view() =~~= cleanup_plan(chain@, container_ip.deep_view()));
        plan
    }

    /// The calls that write the firewall of a container into its chain.
    pub fn apply_rules(&self, container_uuid: &str) -> (r: Result<Vec<IptablesCommand>, String>)
        requires
            self@.enforces(container_uuid@) ==> has_short_form(container_uuid@),
        ensures
            plan_view(r) == self@.apply(container_uuid@),
    {
        let mut plan: Vec<IptablesCommand> = Vec::new();
        assert(plan.deep_view() =~= Seq::empty());
        if !self.iptables_available {
            return Ok(plan);
        }
        let config = self.config_or_permissive(container_uuid);
        if !config.enabled {
            return Ok(plan);
        }
        let chain_name = Self::get_chain_name(container_uuid);
        let chain = chain_name.as_str();
        let container_ip = match self.get_container_ip(container_uuid) {
            Some(ip) => ip,
            None => {
                return Err(cat3("Container ", container_uuid, " IP not registered"));
            },
        };
        let ip = container_ip.as_str();
        plan.push(command(true, &["-F", chain]));
        let rules = config.get_sorted_rules();
        let ghost applied = config.deep_view().applied_rules();
        assert(plan.deep_view() =~~= seq![flush(chain@, true)]);
        for i in 0..rules.len()
            invariant
                rules.deep_view() == applied,
                plan.deep_view() == seq![flush(chain@, true)] + rule_commands(
                    chain@,
                    ip@,
                    applied.take(i as int),
                ),
        {
            let ghost before = plan.deep_view();
            let added = Self::apply_rule(chain, ip, rules[i]);
            proof {
                assert(applied[i as int] == rules@[i as int].deep_view());
                assert(before.push(added.deep_view()) =~= seq![flush(chain@, true)]
                    + rule_commands(chain@, ip@, applied.take(i + 1)));
            }
            plan.push(added);
            assert(plan.deep_view() =~= before.push(added.deep_view()));
        }
        let ghost before = plan.deep_view();
        assert(applied.take(applied.len() as int) =~= applied);
        let inbound_default = if config.default_inbound_allow {
            "ACCEPT"
        } else {
            "DROP"
        };
        plan.push(command(true, &["-A", chain, "-d", ip, "-j", inbound_default]));
        let outbound_default = if config.default_outbound_allow {
            "ACCEPT"
        } else {
            "DROP"
        };
        plan.push(command(true, &["-A", chain, "-s", ip, "-j", outbound_default]));
        assert(plan.deep_view() =~~= before + seq![
            default_policy(chain@, "-d"@, ip@, config.default_inbound_allow),
            default_policy(chain@, "-s"@, ip@, config.default_outbound_allow),
        ]);
        Ok(plan)
    }

    /// The call that appends a rule to a chain.
    pub fn apply_rule(chain_name: &str, container_ip: &str, rule: &FirewallRule) -> (r:
        IptablesCommand)
        ensures
            r.deep_view() == rule_command(chain_name@, container_ip@, rule.deep_view()),
    {
        let port = match &rule.port {
            Some(port) => Some(port_text_of(port.as_str())),
            None => None,
        };
        let mut args: Vec<&str> = Vec::new();
        args.push("-A");
        args.push(chain_name);
        match rule.direction {
            FirewallDirection::Inbound => {
                args.push("-d");
                args.push(container_ip);
                if let Some(remote) = &rule.remote_ip {
                    args.push("-s");
                    args.push(remote.as_str());
                }
            },
            FirewallDirection::Outbound => {
                args.push("-s");
                args.push(container_ip);
                if let Some(remote) = &rule.remote_ip {
                    args.push("-d");
                    args.push(remote.as_str());
                }
            },
        }
        if rule.protocol != FirewallProtocol::All {
            args.push("-p");
            args.push(rule.protocol.as_text());
            if let Some(port) = &port {
                if rule.protocol == FirewallProtocol::Tcp || rule.protocol == FirewallProtocol::Udp {
                    args.push("--dport");
                    args.push(port.as_str());
                }
            }
        }
        args.push("-j");
        args.push(rule.action.as_text());
        if let Some(desc) = &rule.description {
            args.push("-m");
            args.push("comment");
            args.push("--comment");
            args.push(desc.as_str());
        }
        assert(word_texts(args@) =~= rule_args(chain_name@, container_ip@, rule.deep_view()));
        command(true, args.as_slice())
    }

    /// What a call of iptables is judged to be. Complaints that a chain is there already, or
    /// that what was to be deleted is not there, are no failures.
    pub fn run_iptables(outcome: &Result<IptablesOutput, String>) -> (r: Result<(), String>)
        ensures
            match r {
                Ok(_) => iptables_failure(outcome_view(*outcome)) is None,
                Err(e) => iptables_failure(outcome_view(*outcome)) == Some(e@),
            },
    {
        match outcome {
            Err(e) => Err(cat2("Failed to run iptables: ", e.as_str())),
            Ok(output) => {
                if output.success {
                    return Ok(());
                }
                let stderr = utf8_lossy(output.stderr.as_slice());
                let text = stderr.as_str();
                if contains_text(text, "Chain already exists") || contains_text(
                    text,
                    "No chain/target/match",
                ) || contains_text(text, "Bad rule") {
                    Ok(())
                } else {
                    Err(cat2("iptables failed: ", text))
                }
            },
        }
    }

    /// Whether the calls behind `call` are made after it, or what is returned instead.
    pub fn after_command(
        call: &IptablesCommand,
        outcome: &Result<IptablesOutput, String>,
    ) -> (r: Result<(), String>)
        ensures
            match r {
                Ok(_) => !call.must_succeed || iptables_failure(outcome_view(*outcome)) is None,
                Err(e) => call.must_succeed && iptables_failure(outcome_view(*outcome)) == Some(e@),
            },
    {
        match Self::run_iptables(outcome) {
            Ok(_) => Ok(()),
            Err(e) => if call.must_succeed {
                Err(e)
            } else {
                Ok(())
            },
        }
    }

    /// Adds a rule to the firewall of a container; the rule's identifier is returned with the
    /// calls that write the rules anew. The rule is kept even where they cannot be written.
    pub fn add_rule(&mut self, container_uuid: &str, rule: FirewallRule) -> (r: Result<
        (String, Vec<IptablesCommand>),
        String,
    >)
        requires
            old(self)@.enforces(container_uuid@) ==> has_short_form(container_uuid@),
        ensures
            final(self)@ == old(self)@.with_rule(container_uuid@, rule.deep_view()),
            match r {
                Ok((id, plan)) => id@ == rule.id@ && final(self)@.apply(container_uuid@) == Ok::<
                    Seq<IptablesCommandView>,
                    Seq<char>,
                >(plan.deep_view()),
                Err(e) => final(self)@.apply(container_uuid@) == Err::<
                    Seq<IptablesCommandView>,
                    Seq<char>,
                >(e@),
            },
    {
        let mut config = self.config_or_permissive(container_uuid);
        let rule_id = rule.id.clone();
        config.add_rule(rule);
        self.set_config(container_uuid, config);
        match self.apply_rules(container_uuid) {
            Ok(plan) => Ok((rule_id, plan)),
            Err(e) => Err(e),
        }
    }

    /// Takes a rule out of the firewall of a container. Whether there was one is returned with
    /// the calls that write the rules anew, of which there are none where nothing changed.
    pub fn remove_rule(&mut self, container_uuid: &str, rule_id: &str) -> (r: Result<
        (bool, Vec<IptablesCommand>),
        String,
    >)
        requires
            old(self)@.enforces(container_uuid@) && old(self)@.configs.contains_key(
                container_uuid@,
            ) && has_rule(old(self)@.configs[container_uuid@].rules, rule_id@)
                ==> has_short_form(container_uuid@),
        ensures
            final(self)@ == old(self)@.without_rule(container_uuid@, rule_id@),
            ({
                let found = old(self)@.has_rule(container_uuid@, rule_id@);
                match r {
                    Ok((removed, plan)) => {
                        &&& removed == found
                        &&& found ==> final(self)@.apply(container_uuid@) == Ok::<
                            Seq<IptablesCommandView>,
                            Seq<char>,
                        >(plan.deep_view())
                        &&& !found ==> plan.deep_view() == Seq::<IptablesCommandView>::empty()
                    },
                    Err(e) => found && final(self)@.apply(container_uuid@) == Err::<
                        Seq<IptablesCommandView>,
                        Seq<char>,
                    >(e@),
                }
            }),
    {
        let nothing: Vec<IptablesCommand> = Vec::new();
        assert(nothing.deep_view() =~= Seq::<IptablesCommandView>::empty());
        match self.get_config(container_uuid) {
            None => Ok((false, nothing)),
            Some(found) => {
                let mut config = found;
                let removed = config.remove_rule(rule_id);
                self.set_config(container_uuid, config);
                if removed {
                    match self.apply_rules(container_uuid) {
                        Ok(plan) => Ok((true, plan)),
                        Err(e) => Err(e),
                    }
                } else {
                    Ok((false, nothing))
                }
            },
        }
    }

    /// Turns the firewall of a container on or off. Where it is turned off the chain is
    /// emptied, and stays.
    pub fn set_enabled(&mut self, container_uuid: &str, enabled: bool) -> (r: Result<
        Vec<IptablesCommand>,
        String,
    >)
        requires
            old(self)@.iptables_available ==> has_short_form(container_uuid@),
        ensures
            final(self)@ == old(self)@.switched(container_uuid@, enabled),
            plan_view(r) == old(self)@.switching(container_uuid@, enabled),
    {
        let mut config = self.config_or_permissive(container_uuid);
        config.enabled = enabled;
        self.set_config(container_uuid, config);
        if enabled {
            self.apply_rules(container_uuid)
        } else {
            let mut plan: Vec<IptablesCommand> = Vec::new();
            assert(plan.deep_view() =~= Seq::empty());
            if self.iptables_available {
                let chain_name = Self::get_chain_name(container_uuid);
                let chain = chain_name.as_str();
                plan.push(command(false, &["-F", chain]));
                assert(plan.deep_view() =~~= seq![flush(chain@, false)]);
            }
            Ok(plan)
        }
    }

    /// Sets what happens to traffic of a container that no rule matches.
    pub fn set_default_policies(
        &mut self,
        container_uuid: &str,
        inbound_allow: bool,
        outbound_allow: bool,
    ) -> (r: Result<Vec<IptablesCommand>, String>)
        requires
            old(self)@.enforces(container_uuid@) ==> has_short_form(container_uuid@),
        ensures
            final(self)@ == old(self)@.with_policies(container_uuid@, inbound_allow, outbound_allow),
            plan_view(r) == final(self)@.apply(container_uuid@),
    {
        let mut config = self.config_or_permissive(container_uuid);
        config.default_inbound_allow = inbound_allow;
        config.default_outbound_allow = outbound_allow;
        self.set_config(container_uuid, config);
        self.apply_rules(container_uuid)
    }

    /// The rules of a container.
    pub fn get_rules(&self, container_uuid: &str) -> (r: Vec<FirewallRule>)
        ensures
            r.deep_view() == self@.config_of(container_uuid@).rules,
    {
        match self.configs.get(container_uuid) {
            Some(config) => config.rules.duplicate(),
            None => {
                let none: Vec<FirewallRule> = Vec::new();
                assert(none.deep_view() =~= Seq::empty());
                none
            },
        }
    }

    /// The names of the chains of the daemon that the output of `iptables -L -n` lists.
    pub fn list_managed_chains(stdout: &Vec<u8>) -> (r: Vec<String>)
        ensures
            r.deep_view() == listed_chains(lines_of(lossy_text(stdout@))),
    {
        let text = utf8_lossy(stdout.as_slice());
        Self::chains_in(text.as_str())
    }

    /// The names of the chains of the daemon that a listing holds.
    pub fn chains_in(listing: &str) -> (r: Vec<String>)
        ensures
            r.deep_view() == listed_chains(lines_of(listing@)),
    {
        let all = lines(listing);
        let ghost texts = texts(all@);
        let mut chains: Vec<String> = Vec::new();
        assert(chains.deep_view() =~= Seq::<Seq<char>>::empty());
        assert(texts.take(0) =~= Seq::empty());
        for i in 0..all.len()
            invariant
                texts == crate::text::texts(all@),
                chains.deep_view() == listed_chains(texts.take(i as int)),
        {
            let line = all[i].as_str();
            proof {
                assert(texts.take(i + 1).drop_last() =~= texts.take(i as int));
                assert(texts.take(i + 1).last() == line@);
            }
            let ghost before = chains.deep_view();
            if starts_with_text(line, "Chain LIGHTD-") {
                if let Some((_, rest)) = split_word(line) {
                    if let Some((name, _)) = split_word(rest.as_str()) {
                        assert(listed_chain(line@) == Some(name@));
                        chains.push(name);
                        assert(chains.deep_view() =~= before.push(name@));
                    }
                }
            }
        }
        assert(texts.take(texts.len() as int) =~= texts);
        chains
    }

    /// The addresses of the containers, in the order in which they became known.
    pub closed spec fn addresses(&self) -> Seq<Seq<char>> {
        let pairs = self.container_ips.pairs();
        Seq::new(pairs.len(), |i: int| pairs[i].1)
    }

    fn address_list(&self) -> (r: Vec<String>)
        ensures
            r.deep_view() == self.addresses(),
            are_addresses(self@, self.addresses()),
    {
        let mut r: Vec<String> = Vec::new();
        let n = self.container_ips.len();
        for i in 0..n
            invariant
                n == self.container_ips.pairs().len(),
                r.len() == i,
                forall|k: int| 0 <= k < i ==> (#[trigger] r@[k])@ == self.addresses()[k],
        {
            r.push(self.container_ips.value_at(i).clone());
        }
        assert(r.deep_view() =~= self.addresses());
        proof {
            let pairs = self.container_ips.pairs();
            lemma_pairs_map(pairs);
            assert forall|uuid: Seq<char>| self@.container_ips.contains_key(uuid) implies self
                .addresses().contains(#[trigger] self@.container_ips[uuid]) by {
                let j = choose|j: int| 0 <= j < pairs.len() && #[trigger] pairs[j].0 == uuid;
                assert(self.addresses()[j] == pairs[j].1);
            }
            assert forall|i: int| 0 <= i < self.addresses().len() implies exists|uuid: Seq<char>|
                self@.ip_of(uuid) == Some(#[trigger] self.addresses()[i]) by {
                assert(self@.container_ips.contains_key(pairs[i].0));
                assert(self@.ip_of(pairs[i].0) == Some(self.addresses()[i]));
            }
        }
        r
    }

    /// The calls that take away every chain of the daemon, given their names: each is unhooked
    /// for every address that is known. None of them has to succeed.
    pub fn cleanup_all(&self, chains: &Vec<String>) -> (r: Vec<IptablesCommand>)
        ensures
            are_addresses(self@, self.addresses()),
            r.deep_view() == if self@.iptables_available {
                sweep_plan(self.addresses(), chains.deep_view())
            } else {
                Seq::empty()
            },
    {
        let addresses = self.address_list();
        let ghost ips = self.addresses();
        let mut plan: Vec<IptablesCommand> = Vec::new();
        assert(plan.deep_view() =~= Seq::empty());
        if !self.iptables_available {
            return plan;
        }
        let ghost names = chains.deep_view();
        assert(names.take(0) =~= Seq::empty());
        for i in 0..chains.len()
            invariant
                names == chains.deep_view(),
                ips == addresses.deep_view(),
                plan.deep_view() == sweep_plan(ips, names.take(i as int)),
        {
            let chain = chains[i].as_str();
            let ghost before = plan.deep_view();
            proof {
                assert(names.take(i + 1).drop_last() =~= names.take(i as int));
                assert(names.take(i + 1).last() == chain@);
            }
            plan.push(command(false, &["-D", "FORWARD", "-j", chain]));
            assert(plan.deep_view() =~~= before + seq![unhook_all(chain@)]);
            assert(ips.take(0) =~= Seq::empty());
            let ghost first = plan.deep_view();
            assert(first + unhook_plan(ips.take(0), chain@) =~= first);
            for j in 0..addresses.len()
                invariant
                    ips == addresses.deep_view(),
                    plan.deep_view() == first + unhook_plan(ips.take(j as int), chain@),
            {
                let ip = addresses[j].as_str();
                let ghost earlier = plan.deep_view();
                plan.push(command(false, &["-D", "FORWARD", "-s", ip, "-j", chain]));
                plan.push(command(false, &["-D", "FORWARD", "-d", ip, "-j", chain]));
                proof {
                    assert(ips.take(j + 1).drop_last() =~= ips.take(j as int));
                    assert(ips.take(j + 1).last() == ip@);
                    assert(plan.deep_view() =~~= earlier + seq![
                        unhook("-s"@, ip@, chain@),
                        unhook("-d"@, ip@, chain@),
                    ]);
                    assert(plan.deep_view() =~= first + unhook_plan(ips.take(j + 1), chain@));
                }
            }
            assert(ips.take(ips.len() as int) =~= ips);
            let ghost second = plan.deep_view();
            plan.push(command(false, &["-F", chain]));
            plan.push(command(false, &["-X", chain]));
            assert(plan.deep_view() =~~= second + seq![
                flush(chain@, false),
                delete_chain(chain@),
            ]);
            assert(plan.deep_view() =~= before + sweep_one(ips, chain@));
        }
        assert(names.take(names.len() as int) =~= names);
        plan
    }

    /// Whether iptables can be called.
    pub fn is_available(&self) -> (r: bool)
        ensures
            r == self@.iptables_available,
    {
        self.iptables_available
    }
}

/// A rule that lets traffic from the container to one port pass.
pub open spec fn web_rule(
    id: Seq<char>,
    protocol: FirewallProtocol,
    port: Seq<char>,
    description: Seq<char>,
) -> FirewallRuleView {
    FirewallRuleView {
        port: Some(port),
        description: Some(description),
        ..plain_rule(id, FirewallDirection::Outbound, FirewallAction::Allow, protocol)
    }
}

/// A rule for all traffic from the container to one address, with its place in a list of
/// addresses as its priority.
pub open spec fn listed_rule(
    id: Seq<char>,
    action: FirewallAction,
    verb: Seq<char>,
    ip: Seq<char>,
    place: int,
) -> FirewallRuleView {
    FirewallRuleView {
        remote_ip: Some(ip),
        priority: place as i32,
        description: Some(verb + ip),
        ..plain_rule(id, FirewallDirection::Outbound, action, FirewallProtocol::All)
    }
}

/// The rules for a list of addresses, in its order.
pub open spec fn listed_rules(
    ids: Seq<Seq<char>>,
    action: FirewallAction,
    verb: Seq<char>,
    ips: Seq<Seq<char>>,
) -> Seq<FirewallRuleView> {
    Seq::new(ips.len(), |i: int| listed_rule(ids[i], action, verb, ips[i], i))
}

/// `rules` are the rules for a list of addresses under new random identifiers, sorted by
/// priority. That is the order of the list where its places fit in a priority.
pub open spec fn are_listed_rules(
    rules: Seq<FirewallRuleView>,
    action: FirewallAction,
    verb: Seq<char>,
    ips: Seq<Seq<char>>,
) -> bool {
    exists|ids: Seq<Seq<char>>|
        {
            &&& ids.len() == ips.len()
            &&& forall|i: int| 0 <= i < ids.len() ==> is_random_uuid(#[trigger] ids[i])
            &&& stably_sorted(
                #[trigger] listed_rules(ids, action, verb, ips),
                rules,
                by_priority(),
            )
            &&& ips.len() <= 0x8000_0000 ==> rules == listed_rules(ids, action, verb, ips)
        }
}

/// A list of rules of one priority stays as it is when it is sorted.
proof fn lemma_one_priority(
    rules: Seq<FirewallRuleView>,
    out: Seq<FirewallRuleView>,
    priority: i32,
)
    requires
        forall|i: int| 0 <= i < rules.len() ==> (#[trigger] rules[i]).priority == priority,
        stably_sorted(rules, out, by_priority()),
    ensures
        out == rules,
{
    law_sorting_keeps_sorted(rules, out, by_priority());
}

fn listed_config(
    config: ContainerFirewall,
    allow: bool,
    verb: &str,
    ips: Vec<String>,
) -> (r: ContainerFirewall)
    requires
        config.deep_view().rules.len() == 0,
    ensures
        r.deep_view() == (ContainerFirewallView {
            rules: r.deep_view().rules,
            ..config.deep_view()
        }),
        are_listed_rules(
            r.deep_view().rules,
            if allow {
                FirewallAction::Allow
            } else {
                FirewallAction::Drop
            },
            verb@,
            ips.deep_view(),
        ),
{
    let ghost action = if allow {
        FirewallAction::Allow
    } else {
        FirewallAction::Drop
    };
    let ghost all = ips.deep_view();
    let ghost start = config.deep_view();
    let ghost mut ids: Seq<Seq<char>> = Seq::empty();
    let mut r = config;
    proof {
        assert(listed_rules(ids, action, verb@, all.take(0)) =~= Seq::empty());
        assert(r.deep_view().rules =~= Seq::empty());
        assert(stably_sorted(Seq::empty(), r.deep_view().rules, by_priority()));
    }
    for i in 0..ips.len()
        invariant
            all == ips.deep_view(),
            action == if allow {
                FirewallAction::Allow
            } else {
                FirewallAction::Drop
            },
            ids.len() == i,
            forall|k: int| 0 <= k < ids.len() ==> is_random_uuid(#[trigger] ids[k]),
            r.deep_view() == (ContainerFirewallView { rules: r.deep_view().rules, ..start }),
            stably_sorted(
                listed_rules(ids, action, verb@, all.take(i as int)),
                r.deep_view().rules,
                by_priority(),
            ),
    {
        let ip = ips[i].as_str();
        let text = cat2(verb, ip);
        let priority: i32 = #[verifier::truncate] (i as i32);
        let base = if allow {
            FirewallRule::allow(FirewallDirection::Outbound, FirewallProtocol::All)
        } else {
            FirewallRule::drop(FirewallDirection::Outbound, FirewallProtocol::All)
        };
        let rule = base.with_remote_ip(ip).with_priority(priority).with_description(text.as_str());
        let ghost before = r.deep_view().rules;
        let ghost added = rule.deep_view();
        r.add_rule(rule);
        proof {
            let list = listed_rules(ids, action, verb@, all.take(i as int));
            law_sorting_one_by_one(list, before, added, r.deep_view().rules, by_priority());
            let longer = ids.push(added.id);
            assert(list.push(added) =~= listed_rules(longer, action, verb@, all.take(i + 1)));
            ids = longer;
        }
    }
    proof {
        assert(all.take(all.len() as int) =~= all);
        let list = listed_rules(ids, action, verb@, all);
        if all.len() <= 0x8000_0000 {
            law_sorting_keeps_sorted(list, r.deep_view().rules, by_priority());
        }
    }
    r
}

impl FirewallManager {
    /// A firewall for a server that only needs the web: traffic from the container passes to
    /// the ports of DNS, HTTP and HTTPS alone; all traffic to it passes.
    pub fn preset_web_only() -> (r: ContainerFirewall)
        ensures
            r.deep_view() == (ContainerFirewallView {
                rules: r.deep_view().rules,
                ..policy_only(true, false)
            }),
            ({
                let rules = r.deep_view().rules;
                &&& rules.len() == 4
                &&& rules[0] == web_rule(rules[0].id, FirewallProtocol::Udp, "53"@, "Allow DNS"@)
                &&& rules[1] == web_rule(
                    rules[1].id,
                    FirewallProtocol::Tcp,
                    "53"@,
                    "Allow DNS TCP"@,
                )
                &&& rules[2] == web_rule(rules[2].id, FirewallProtocol::Tcp, "80"@, "Allow HTTP"@)
                &&& rules[3] == web_rule(
                    rules[3].id,
                    FirewallProtocol::Tcp,
                    "443"@,
                    "Allow HTTPS"@,
                )
                &&& forall|i: int| 0 <= i < 4 ==> is_random_uuid((#[trigger] rules[i]).id)
            }),
    {
        let mut config = ContainerFirewall::restrictive();
        let r0 = FirewallRule::allow(
            FirewallDirection::Outbound,
            FirewallProtocol::Udp,
        ).with_port("53").with_description("Allow DNS");
        let r1 = FirewallRule::allow(
            FirewallDirection::Outbound,
            FirewallProtocol::Tcp,
        ).with_port("53").with_description("Allow DNS TCP");
        let r2 = FirewallRule::allow(
            FirewallDirection::Outbound,
            FirewallProtocol::Tcp,
        ).with_port("80").with_description("Allow HTTP");
        let r3 = FirewallRule::allow(
            FirewallDirection::Outbound,
            FirewallProtocol::Tcp,
        ).with_port("443").with_description("Allow HTTPS");
        let ghost v0 = r0.deep_view();
        let ghost v1 = r1.deep_view();
        let ghost v2 = r2.deep_view();
        let ghost v3 = r3.deep_view();
        config.add_rule(r0);
        proof {
            lemma_one_priority(seq![v0], config.deep_view().rules, 100);
        }
        config.add_rule(r1);
        proof {
            assert(seq![v0].push(v1) =~= seq![v0, v1]);
            lemma_one_priority(seq![v0, v1], config.deep_view().rules, 100);
        }
        config.add_rule(r2);
        proof {
            assert(seq![v0, v1].push(v2) =~= seq![v0, v1, v2]);
            lemma_one_priority(seq![v0, v1, v2], config.deep_view().rules, 100);
        }
        config.add_rule(r3);
        proof {
            assert(seq![v0, v1, v2].push(v3) =~= seq![v0, v1, v2, v3]);
            lemma_one_priority(seq![v0, v1, v2, v3], config.deep_view().rules, 100);
        }
        config.default_inbound_allow = true;
        config
    }

    /// A firewall that lets everything pass but traffic from the container to the addresses.
    pub fn preset_blacklist(blocked_ips: Vec<String>) -> (r: ContainerFirewall)
        ensures
            r.deep_view() == (ContainerFirewallView {
                rules: r.deep_view().rules,
                ..policy_only(true, true)
            }),
            are_listed_rules(
                r.deep_view().rules,
                FirewallAction::Drop,
                "Block "@,
                blocked_ips.deep_view(),
            ),
    {
        listed_config(ContainerFirewall::permissive(), false, "Block ", blocked_ips)
    }

    /// A firewall that lets traffic from the container pass to the addresses alone; all traffic
    /// to it passes.
    pub fn preset_whitelist(allowed_ips: Vec<String>) -> (r: ContainerFirewall)
        ensures
            r.deep_view() == (ContainerFirewallView {
                rules: r.deep_view().rules,
                ..policy_only(true, false)
            }),
            are_listed_rules(
                r.deep_view().rules,
                FirewallAction::Allow,
                "Allow "@,
                allowed_ips.deep_view(),
            ),
    {
        let mut config = listed_config(
            ContainerFirewall::restrictive(),
            true,
            "Allow ",
            allowed_ips,
        );
        config.default_inbound_allow = true;
        config
    }
}

/// What the calls of a plan come to: the first failure of one that must succeed, if there is
/// any. The calls behind it are not made.
pub open spec fn plan_failure(
    plan: Seq<IptablesCommandView>,
    outcomes: Seq<Result<(bool, Seq<u8>), Seq<char>>>,
) -> Option<Seq<char>>
    decreases plan.len(),
{
    if plan.len() == 0 {
        None
    } else if plan[0].must_succeed && iptables_failure(outcomes[0]) is Some {
        iptables_failure(outcomes[0])
    } else {
        plan_failure(plan.drop_first(), outcomes.drop_first())
    }
}

proof fn lemma_nothing_must_succeed(
    plan: Seq<IptablesCommandView>,
    outcomes: Seq<Result<(bool, Seq<u8>), Seq<char>>>,
)
    requires
        forall|i: int| 0 <= i < plan.len() ==> !(#[trigger] plan[i]).must_succeed,
    ensures
        plan_failure(plan, outcomes) is None,
    decreases plan.len(),
{
    if plan.len() > 0 {
        assert(!plan[0].must_succeed);
        lemma_nothing_must_succeed(plan.drop_first(), outcomes.drop_first());
    }
}

/// Taking the chain of a container away never fails, whatever iptables says.
pub proof fn law_cleanup_cannot_fail(
    chain: Seq<char>,
    ip: Option<Seq<char>>,
    outcomes: Seq<Result<(bool, Seq<u8>), Seq<char>>>,
)
    ensures
        plan_failure(cleanup_plan(chain, ip), outcomes) is None,
{
    lemma_nothing_must_succeed(cleanup_plan(chain, ip), outcomes);
}

/// Taking all chains of the daemon away never fails, whatever iptables says.
pub proof fn law_sweep_cannot_fail(
    ips: Seq<Seq<char>>,
    chains: Seq<Seq<char>>,
    outcomes: Seq<Result<(bool, Seq<u8>), Seq<char>>>,
)
    ensures
        plan_failure(sweep_plan(ips, chains), outcomes) is None,
{
    lemma_sweep_commands(ips, chains);
    lemma_nothing_must_succeed(sweep_plan(ips, chains), outcomes);
}

proof fn lemma_unhook_commands(ips: Seq<Seq<char>>, chain: Seq<char>)
    ensures
        forall|i: int|
            0 <= i < unhook_plan(ips, chain).len() ==> !(#[trigger] unhook_plan(
                ips,
                chain,
            )[i]).must_succeed,
    decreases ips.len(),
{
    if ips.len() > 0 {
        let before = unhook_plan(ips.drop_last(), chain);
        lemma_unhook_commands(ips.drop_last(), chain);
        assert forall|i: int| 0 <= i < unhook_plan(ips, chain).len() implies !(
        #[trigger] unhook_plan(ips, chain)[i]).must_succeed by {
            if i < before.len() {
                assert(!before[i].must_succeed);
            }
        }
    }
}

proof fn lemma_sweep_commands(ips: Seq<Seq<char>>, chains: Seq<Seq<char>>)
    ensures
        forall|i: int|
            0 <= i < sweep_plan(ips, chains).len() ==> !(#[trigger] sweep_plan(
                ips,
                chains,
            )[i]).must_succeed,
    decreases chains.len(),
{
    if chains.len() > 0 {
        let before = sweep_plan(ips, chains.drop_last());
        let middle = unhook_plan(ips, chains.last());
        let one = sweep_one(ips, chains.last());
        lemma_sweep_commands(ips, chains.drop_last());
        lemma_unhook_commands(ips, chains.last());
        assert forall|i: int| 0 <= i < one.len() implies !(#[trigger] one[i]).must_succeed by {
            if 0 < i <= middle.len() {
                assert(one[i] == middle[i - 1]);
            }
        }
        assert forall|i: int| 0 <= i < sweep_plan(ips, chains).len() implies !(
        #[trigger] sweep_plan(ips, chains)[i]).must_succeed by {
            if i < before.len() {
                assert(!before[i].must_succeed);
            } else {
                assert(!one[i - before.len()].must_succeed);
            }
        }
    }
}

/// In the chain of a container each rule that is on stands before both default policies, and
/// rules stand in the order of priority.
pub proof fn law_defaults_come_last(
    manager: FirewallManagerView,
    uuid: Seq<char>,
    ip: Seq<char>,
    i: int,
)
    requires
        manager.enforces(uuid),
        manager.ip_of(uuid) == Some(ip),
        0 <= i < manager.config_of(uuid).applied_rules().len(),
    ensures
        ({
            let config = manager.config_of(uuid);
            let rules = config.applied_rules();
            let chain = chain_name(uuid);
            manager.apply(uuid) matches Ok(plan) && {
                &&& plan.len() == rules.len() + 3
                &&& plan[0] == flush(chain, true)
                &&& plan[1 + i] == rule_command(chain, ip, rules[i])
                &&& plan[(rules.len() + 1) as int] == default_policy(
                    chain,
                    "-d"@,
                    ip,
                    config.default_inbound_allow,
                )
                &&& plan[(rules.len() + 2) as int] == default_policy(
                    chain,
                    "-s"@,
                    ip,
                    config.default_outbound_allow,
                )
            }
        }),
{
}

/// An address that was registered is known, until the container is unregistered.
pub proof fn law_registered_address(
    manager: FirewallManagerView,
    uuid: Seq<char>,
    ip: Seq<char>,
    other: Seq<char>,
)
    ensures
        manager.registered(uuid, ip).ip_of(uuid) == Some(ip),
        manager.registered(uuid, ip).unregistered(uuid).ip_of(uuid) is None,
        other != uuid ==> manager.registered(uuid, ip).ip_of(other) == manager.ip_of(other),
        other != uuid ==> manager.unregistered(uuid).ip_of(other) == manager.ip_of(other),
        manager.registered(uuid, ip).config_of(other) == manager.config_of(other),
{
}

/// The firewall that was set for a container is its firewall; those of others stay.
pub proof fn law_configured_firewall(
    manager: FirewallManagerView,
    uuid: Seq<char>,
    config: ContainerFirewallView,
    other: Seq<char>,
)
    ensures
        manager.with_config(uuid, config).config_of(uuid) == config,
        manager.with_config(uuid, config).unregistered(uuid).config_of(uuid) == policy_only(
            true,
            true,
        ),
        other != uuid ==> manager.with_config(uuid, config).config_of(other) == manager.config_of(
            other,
        ),
        manager.with_config(uuid, config).ip_of(other) == manager.ip_of(other),
{
}

/// A container that is unregistered leaves the others and the state of iptables alone.
pub proof fn law_unregistered_alone(
    manager: FirewallManagerView,
    uuid: Seq<char>,
    ip: Seq<char>,
    config: ContainerFirewallView,
    other: Seq<char>,
)
    ensures
        other != uuid ==> manager.unregistered(uuid).config_of(other) == manager.config_of(other),
        !manager.unregistered(uuid).container_ips.contains_key(uuid),
        !manager.unregistered(uuid).configs.contains_key(uuid),
        manager.unregistered(uuid).iptables_available == manager.iptables_available,
        manager.registered(uuid, ip).iptables_available == manager.iptables_available,
        manager.with_config(uuid, config).iptables_available == manager.iptables_available,
        !manager.configs.contains_key(uuid) ==> {
            &&& manager.config_of(uuid).enabled
            &&& manager.config_of(uuid).default_inbound_allow
            &&& manager.config_of(uuid).default_outbound_allow
            &&& manager.config_of(uuid).rules.len() == 0
        },
{
}

/// For each address there is one rule, in the order of the addresses: it is on, and does what
/// was asked to all that goes out to that address, whatever the protocol and the port.
pub proof fn law_listed_addresses(
    rules: Seq<FirewallRuleView>,
    action: FirewallAction,
    verb: Seq<char>,
    ips: Seq<Seq<char>>,
    i: int,
)
    requires
        are_listed_rules(rules, action, verb, ips),
        ips.len() <= 0x8000_0000,
    ensures
        rules.len() == ips.len(),
        0 <= i < ips.len() ==> {
            &&& rules[i].remote_ip == Some(ips[i])
            &&& rules[i].direction == FirewallDirection::Outbound
            &&& rules[i].action == action
            &&& rules[i].protocol == FirewallProtocol::All
            &&& rules[i].port is None
            &&& rules[i].enabled
            &&& rules[i].priority == i
            &&& rules[i].description == Some(verb + ips[i])
            &&& is_random_uuid(rules[i].id)
        },
{
    let ids = choose|ids: Seq<Seq<char>>|
        {
            &&& ids.len() == ips.len()
            &&& forall|i: int| 0 <= i < ids.len() ==> is_random_uuid(#[trigger] ids[i])
            &&& stably_sorted(
                #[trigger] listed_rules(ids, action, verb, ips),
                rules,
                by_priority(),
            )
            &&& ips.len() <= 0x8000_0000 ==> rules == listed_rules(ids, action, verb, ips)
        };
    assert(rules == listed_rules(ids, action, verb, ips));
    if 0 <= i < ips.len() {
        assert(is_random_uuid(ids[i]));
    }
}

/// A rule for the web lets out what is of one protocol and goes to one port, to any address.
pub proof fn law_web_rule(
    id: Seq<char>,
    protocol: FirewallProtocol,
    port: Seq<char>,
    description: Seq<char>,
)
    ensures
        ({
            let rule = web_rule(id, protocol, port, description);
            &&& rule.id == id
            &&& rule.direction == FirewallDirection::Outbound
            &&& rule.action == FirewallAction::Allow
            &&& rule.protocol == protocol
            &&& rule.port == Some(port)
            &&& rule.description == Some(description)
            &&& rule.remote_ip is None
            &&& rule.enabled
            &&& rule.priority == 100
        }),
{
}

/// The chains found in a listing are those that its lines name, in the order of the lines.
pub proof fn law_listed_chains(lines: Seq<Seq<char>>, others: Seq<Seq<char>>, line: Seq<char>)
    ensures
        listed_chains(Seq::empty()).len() == 0,
        listed_chains(seq![line]) == match listed_chain(line) {
            Some(name) => seq![name],
            None => Seq::empty(),
        },
        listed_chains(lines + others) == listed_chains(lines) + listed_chains(others),
    decreases others.len(),
{
    reveal_with_fuel(listed_chains, 2);
    assert(seq![line].drop_last() =~= Seq::empty());
    assert(listed_chains(seq![line]) =~= match listed_chain(line) {
        Some(name) => seq![name],
        None => Seq::empty(),
    });
    if others.len() == 0 {
        assert(lines + others =~= lines);
        assert(listed_chains(lines) + listed_chains(others) =~= listed_chains(lines));
    } else {
        law_listed_chains(lines, others.drop_last(), line);
        assert((lines + others).drop_last() =~= lines + others.drop_last());
        assert((lines + others).last() == others.last());
        assert(listed_chains(lines + others) =~= listed_chains(lines) + listed_chains(others));
    }
}

/// A firewall that is switched is on or off as was asked, and is as it was otherwise; off and on
/// again it is what it was. Switched on it is written, and switched off its chain is emptied,
/// where iptables is there.
pub proof fn law_switched_firewall(
    manager: FirewallManagerView,
    uuid: Seq<char>,
    enabled: bool,
    other: Seq<char>,
)
    ensures
        ({
            let before = manager.config_of(uuid);
            let after = manager.switched(uuid, enabled).config_of(uuid);
            &&& after.enabled == enabled
            &&& after.default_inbound_allow == before.default_inbound_allow
            &&& after.default_outbound_allow == before.default_outbound_allow
            &&& after.rules == before.rules
        }),
        other != uuid ==> manager.switched(uuid, enabled).config_of(other) == manager.config_of(
            other,
        ),
        manager.switched(uuid, enabled).ip_of(other) == manager.ip_of(other),
        manager.switched(uuid, enabled).iptables_available == manager.iptables_available,
        manager.config_of(uuid).enabled ==> manager.switched(uuid, false).switched(
            uuid,
            true,
        ).config_of(uuid) == manager.config_of(uuid),
        manager.switching(uuid, true) == manager.switched(uuid, true).apply(uuid),
        manager.iptables_available ==> (manager.switching(uuid, false) matches Ok(plan) && {
            &&& plan.len() == 1
            &&& plan[0].args == seq!["-F"@, chain_name(uuid)]
            &&& !plan[0].must_succeed
        }),
        !manager.iptables_available ==> (manager.switching(uuid, enabled) matches Ok(plan)
            && plan.len() == 0),
{
}

/// Policies that are set are the policies, and the rules stay; those of other containers stay.
pub proof fn law_policies_are_set(
    manager: FirewallManagerView,
    uuid: Seq<char>,
    inbound: bool,
    outbound: bool,
    other: Seq<char>,
)
    ensures
        ({
            let before = manager.config_of(uuid);
            let after = manager.with_policies(uuid, inbound, outbound).config_of(uuid);
            &&& after.default_inbound_allow == inbound
            &&& after.default_outbound_allow == outbound
            &&& after.enabled == before.enabled
            &&& after.rules == before.rules
        }),
        other != uuid ==> manager.with_policies(uuid, inbound, outbound).config_of(other)
            == manager.config_of(other),
        manager.with_policies(uuid, inbound, outbound).ip_of(other) == manager.ip_of(other),
        manager.with_policies(uuid, inbound, outbound).iptables_available
            == manager.iptables_available,
{
}

/// A rule that is added is a rule of that container, which is else as it was, and of no other;
/// one that is removed is none any more. Where there is no firewall there is nothing to remove.
pub proof fn law_rules_of_a_container(
    manager: FirewallManagerView,
    uuid: Seq<char>,
    rule: FirewallRuleView,
    id: Seq<char>,
    other: Seq<char>,
)
    ensures
        manager.with_rule(uuid, rule).has_rule(uuid, rule.id),
        manager.with_rule(uuid, rule).config_of(uuid) == manager.config_of(uuid).with_rule(rule),
        other != uuid ==> manager.with_rule(uuid, rule).config_of(other) == manager.config_of(
            other,
        ),
        other != uuid ==> manager.without_rule(uuid, id).config_of(other) == manager.config_of(
            other,
        ),
        !manager.without_rule(uuid, id).has_rule(uuid, id),
        manager.has_rule(uuid, rule.id) && rule.id != id ==> manager.without_rule(
            uuid,
            id,
        ).has_rule(uuid, rule.id),
        !manager.configs.contains_key(uuid) ==> manager.without_rule(uuid, id) == manager
            && !manager.has_rule(uuid, id),
        manager.with_rule(uuid, rule).ip_of(other) == manager.ip_of(other),
        manager.without_rule(uuid, id).ip_of(other) == manager.ip_of(other),
{
    let config = manager.config_of(uuid);
    law_added_rule_is_there(config, rule);
    law_removed_rule_is_gone(config, id, rule);
    if manager.has_rule(uuid, rule.id) && rule.id != id {
        let i = choose|i: int| 0 <= i < config.rules.len() && (#[trigger] config.rules[i]).id
            == rule.id;
        law_removed_rule_is_gone(config, id, config.rules[i]);
        let after = config.without_rule(id).rules;
        let k = choose|k: int| 0 <= k < after.len() && after[k] == config.rules[i];
        assert(after[k].id == rule.id);
    }
}

/// A chain is set up for a container that has an address, and taken away whether it has one or
/// not; without iptables neither is done.
pub proof fn law_chains_need_iptables(manager: FirewallManagerView, uuid: Seq<char>, ip: Seq<char>)
    ensures
        !manager.iptables_available ==> (manager.opening(uuid) matches Ok(plan) && plan.len() == 0)
            && manager.cleaning(uuid).len() == 0,
        manager.iptables_available && manager.ip_of(uuid) is None ==> manager.opening(uuid) == Err::<
            Seq<IptablesCommandView>,
            Seq<char>,
        >("Container "@ + uuid + " IP not registered"@) && manager.cleaning(uuid).len() == 2,
        manager.iptables_available && manager.ip_of(uuid) == Some(ip) ==> {
            &&& manager.opening(uuid) == Ok::<Seq<IptablesCommandView>, Seq<char>>(
                init_plan(chain_name(uuid), ip),
            )
            &&& manager.cleaning(uuid) == cleanup_plan(chain_name(uuid), Some(ip))
        },
{
}

/// The addresses to sweep are those of the registered containers, all of them and no others.
pub proof fn law_swept_addresses(
    manager: FirewallManagerView,
    ips: Seq<Seq<char>>,
    uuid: Seq<char>,
    ip: Seq<char>,
)
    requires
        are_addresses(manager, ips),
    ensures
        manager.ip_of(uuid) == Some(ip) ==> ips.contains(ip),
        ips.contains(ip) ==> exists|owner: Seq<char>| manager.ip_of(owner) == Some(ip),
        (forall|owner: Seq<char>| !manager.container_ips.contains_key(owner)) ==> ips.len() == 0,
{
    if manager.ip_of(uuid) == Some(ip) {
        assert(ips.contains(manager.container_ips[uuid]));
    }
    if ips.contains(ip) {
        let i = choose|i: int| 0 <= i < ips.len() && ips[i] == ip;
        let owner = choose|owner: Seq<char>| manager.ip_of(owner) == Some(ips[i]);
        assert(manager.ip_of(owner) == Some(ip));
    }
    if ips.len() > 0 {
        let owner = choose|owner: Seq<char>| manager.ip_of(owner) == Some(ips[0]);
        assert(manager.container_ips.contains_key(owner));
    }
}

/// A line of a listing that begins a chain of the daemon names that chain, whatever stands behind
/// the name; a line that begins with anything else names none.
pub proof fn law_listed_chain(name: Seq<char>, rest: Seq<char>, line: Seq<char>)
    requires
        forall|i: int| 0 <= i < name.len() ==> !is_white(#[trigger] name[i]),
        rest.len() > 0 ==> is_white(rest[0]),
    ensures
        listed_chain("Chain "@ + ("LIGHTD-"@ + name) + rest) == Some("LIGHTD-"@ + name),
        !has_prefix(line, "Chain LIGHTD-"@) ==> listed_chain(line) is None,
{
    reveal_strlit("Chain ");
    reveal_strlit("LIGHTD-");
    reveal_strlit("Chain LIGHTD-");
    let whole = "LIGHTD-"@ + name;
    let found = "Chain "@ + whole + rest;
    let first = "Chain "@.take(5);
    assert(found.subrange(0, "Chain LIGHTD-"@.len() as int) =~= "Chain LIGHTD-"@);
    assert forall|i: int| 0 <= i < first.len() implies !is_white(#[trigger] first[i]) by {}
    assert forall|i: int| 0 <= i < whole.len() implies !is_white(#[trigger] whole[i]) by {
        if i >= 7 {
            assert(whole[i] == name[i - 7]);
        }
    }
    let none = Seq::<char>::empty();
    let blank = seq![' '];
    law_next_word(none, first, blank + whole + rest);
    assert(found =~= none + first + (blank + whole + rest));
    law_next_word(blank, whole, rest);
}

/// The chain of a container is found again in a listing, so that it can be swept.
pub proof fn law_own_chains_are_listed(uuid: Seq<char>, rest: Seq<char>)
    requires
        is_ascii_text(uuid),
        forall|i: int| 0 <= i < uuid.len() ==> !is_white(#[trigger] uuid[i]),
        rest.len() > 0 ==> is_white(rest[0]),
    ensures
        listed_chain("Chain "@ + chain_name(uuid) + rest) == Some(chain_name(uuid)),
{
    law_ascii_chain_name(uuid);
    let short = first_twelve(uuid);
    let name = ascii_upper_text(short);
    assert forall|i: int| 0 <= i < name.len() implies !is_white(#[trigger] name[i]) by {
        assert(short[i] == uuid[i]);
        assert(!is_white(uuid[i]));
    }
    law_listed_chain(name, rest, rest);
}

} // verus!

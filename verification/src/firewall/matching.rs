//! Which traffic the iptables calls of a firewall are about, and what becomes of it.
//!
//! The words of a call are read the way iptables reads them: behind the command and the chain
//! each option stands with its value. The laws say what the calls for a container's firewall do
//! to a packet, in terms of the firewall alone.

use super::manager::{
    apply_plan, cleanup_plan, default_policy, init_plan, iptables_failure, plan_failure, port_text,
    rule_args, rule_commands, FirewallManagerView, IptablesCommandView,
};
use super::rules::{
    ContainerFirewallView, FirewallAction, FirewallDirection, FirewallProtocol, FirewallRuleView,
};
use vstd::prelude::*;

verus! {

/// A packet, as far as a rule can tell packets apart.
pub struct Packet {
    pub source: Seq<char>,
    pub destination: Seq<char>,
    pub protocol: FirewallProtocol,
    pub port: nat,
}

/// How addresses and ports are held against the values of options.
pub struct Reading {
    pub lies_in: spec_fn(Seq<char>, Seq<char>) -> bool,
    pub port_lies_in: spec_fn(nat, Seq<char>) -> bool,
}

/// The value of the option `name` in `words`, where each option stands before its value.
pub open spec fn option_of(words: Seq<Seq<char>>, name: Seq<char>) -> Option<Seq<char>>
    decreases words.len(),
{
    if words.len() < 2 {
        None
    } else if words[0] == name {
        Some(words[1])
    } else {
        option_of(words.skip(2), name)
    }
}

/// The word for a protocol.
pub open spec fn protocol_word(protocol: FirewallProtocol) -> Seq<char> {
    match protocol {
        FirewallProtocol::Tcp => "tcp"@,
        FirewallProtocol::Udp => "udp"@,
        FirewallProtocol::Icmp => "icmp"@,
        FirewallProtocol::All => "all"@,
    }
}

/// The word for what becomes of a packet.
pub open spec fn target_word(action: FirewallAction) -> Seq<char> {
    match action {
        FirewallAction::Allow => "ACCEPT"@,
        FirewallAction::Drop => "DROP"@,
        FirewallAction::Reject => "REJECT"@,
        FirewallAction::Log => "LOG"@,
    }
}

/// The options are different words.
proof fn lemma_options()
    ensures
        "-s"@ != "-d"@,
        "-s"@ != "-p"@,
        "-s"@ != "-j"@,
        "-s"@ != "-m"@,
        "-d"@ != "-p"@,
        "-d"@ != "-j"@,
        "-d"@ != "-m"@,
        "-p"@ != "-j"@,
        "-p"@ != "-m"@,
        "-j"@ != "-m"@,
        "--dport"@.len() == 7,
        "--comment"@.len() == 9,
        "-s"@.len() == 2,
        "-d"@.len() == 2,
        "-p"@.len() == 2,
        "-j"@.len() == 2,
        "-m"@.len() == 2,
        "-A"@ != "-F"@,
        "LOG"@.len() == 3,
        "DROP"@.len() == 4,
        "ACCEPT"@.len() == 6,
        "REJECT"@.len() == 6,
{
    reveal_strlit("-s");
    reveal_strlit("-d");
    reveal_strlit("-p");
    reveal_strlit("-j");
    reveal_strlit("-m");
    reveal_strlit("-A");
    reveal_strlit("-F");
    reveal_strlit("--dport");
    reveal_strlit("--comment");
    reveal_strlit("LOG");
    reveal_strlit("DROP");
    reveal_strlit("ACCEPT");
    reveal_strlit("REJECT");
    assert("-s"@[1] != "-d"@[1]);
    assert("-s"@[1] != "-p"@[1]);
    assert("-s"@[1] != "-j"@[1]);
    assert("-s"@[1] != "-m"@[1]);
    assert("-d"@[1] != "-p"@[1]);
    assert("-d"@[1] != "-j"@[1]);
    assert("-d"@[1] != "-m"@[1]);
    assert("-p"@[1] != "-j"@[1]);
    assert("-p"@[1] != "-m"@[1]);
    assert("-j"@[1] != "-m"@[1]);
    assert("-A"@[1] != "-F"@[1]);
}

proof fn lemma_option_here(name: Seq<char>, value: Seq<char>, rest: Seq<Seq<char>>, other: Seq<char>)
    ensures
        option_of(seq![name, value] + rest, other) == if other == name {
            Some(value)
        } else {
            option_of(rest, other)
        },
{
    let words = seq![name, value] + rest;
    assert(words.skip(2) =~= rest);
}

proof fn lemma_option_absent(rest: Seq<Seq<char>>, other: Seq<char>)
    ensures
        option_of(Seq::<Seq<char>>::empty() + rest, other) == option_of(rest, other),
{
    assert(Seq::<Seq<char>>::empty() + rest =~= rest);
}

/// The call for a rule appends to the container's chain. The container's address is what the
/// packet goes to where the rule is on inbound traffic, and what it comes from where it is on
/// outbound traffic; the remote address of the rule is the other end, in both directions. The
/// protocol, the port, the target and the comment are the rule's own, and nothing else is said.
pub proof fn law_rule_is_spelled_out(chain: Seq<char>, ip: Seq<char>, rule: FirewallRuleView)
    ensures
        ({
            let args = rule_args(chain, ip, rule);
            let words = args.skip(2);
            &&& args.len() == 6 + (if rule.remote_ip is Some {
                2int
            } else {
                0
            }) + (if rule.protocol == FirewallProtocol::All {
                0int
            } else {
                2
            }) + (if rule.port is Some && (rule.protocol == FirewallProtocol::Tcp || rule.protocol
                == FirewallProtocol::Udp) {
                2int
            } else {
                0
            }) + (if rule.description is Some {
                4int
            } else {
                0
            })
            &&& args[0] == "-A"@
            &&& args[1] == chain
            &&& rule.direction == FirewallDirection::Inbound ==> {
                &&& option_of(words, "-d"@) == Some(ip)
                &&& option_of(words, "-s"@) == rule.remote_ip
            }
            &&& rule.direction == FirewallDirection::Outbound ==> {
                &&& option_of(words, "-s"@) == Some(ip)
                &&& option_of(words, "-d"@) == rule.remote_ip
            }
            &&& option_of(words, "-p"@) == if rule.protocol == FirewallProtocol::All {
                None
            } else {
                Some(protocol_word(rule.protocol))
            }
            &&& rule.port is None ==> option_of(words, "--dport"@) is None
            &&& rule.port matches Some(port) ==> option_of(words, "--dport"@) == if rule.protocol
                == FirewallProtocol::Tcp || rule.protocol == FirewallProtocol::Udp {
                Some(port_text(port))
            } else {
                None
            }
            &&& option_of(words, "-j"@) == Some(target_word(rule.action))
            &&& option_of(words, "--comment"@) == rule.description
            &&& option_of(words, "-m"@) == if rule.description is Some {
                Some("comment"@)
            } else {
                None
            }
        }),
{
    lemma_options();
    let args = rule_args(chain, ip, rule);
    let (here, there) = match rule.direction {
        FirewallDirection::Inbound => ("-d"@, "-s"@),
        FirewallDirection::Outbound => ("-s"@, "-d"@),
    };
    let comment = match rule.description {
        Some(text) => seq!["-m"@, "comment"@] + (seq!["--comment"@, text] + Seq::empty()),
        None => Seq::<Seq<char>>::empty(),
    };
    let target = seq!["-j"@, target_word(rule.action)] + comment;
    let port = match rule.port {
        Some(port) if rule.protocol == FirewallProtocol::Tcp || rule.protocol
            == FirewallProtocol::Udp => seq!["--dport"@, port_text(port)] + target,
        _ => Seq::empty() + target,
    };
    let protocol = if rule.protocol == FirewallProtocol::All {
        Seq::empty() + port
    } else {
        seq!["-p"@, protocol_word(rule.protocol)] + port
    };
    let remote = match rule.remote_ip {
        Some(remote) => seq![there, remote] + protocol,
        None => Seq::empty() + protocol,
    };
    assert(args.skip(2) =~= seq![here, ip] + remote);
    assert forall|name: Seq<char>| true implies #[trigger] option_of(args.skip(2), name) == (
    if name == here {
        Some(ip)
    } else if rule.remote_ip is Some && name == there {
        rule.remote_ip
    } else if rule.protocol != FirewallProtocol::All && name == "-p"@ {
        Some(protocol_word(rule.protocol))
    } else if rule.port is Some && (rule.protocol == FirewallProtocol::Tcp || rule.protocol
        == FirewallProtocol::Udp) && name == "--dport"@ {
        Some(port_text(rule.port->0))
    } else if name == "-j"@ {
        Some(target_word(rule.action))
    } else if rule.description is Some && name == "-m"@ {
        Some("comment"@)
    } else if rule.description is Some && name == "--comment"@ {
        rule.description
    } else {
        None
    }) by {
        lemma_option_here(here, ip, remote, name);
        if rule.remote_ip is Some {
            lemma_option_here(there, rule.remote_ip->0, protocol, name);
        }
        lemma_option_absent(protocol, name);
        lemma_option_here("-p"@, protocol_word(rule.protocol), port, name);
        lemma_option_absent(port, name);
        if rule.port is Some {
            lemma_option_here("--dport"@, port_text(rule.port->0), target, name);
        }
        lemma_option_absent(target, name);
        lemma_option_here("-j"@, target_word(rule.action), comment, name);
        if rule.description is Some {
            lemma_option_here("--comment"@, rule.description->0, Seq::empty(), name);
            lemma_option_here(
                "-m"@,
                "comment"@,
                seq!["--comment"@, rule.description->0] + Seq::empty(),
                name,
            );
        }
    }
}

/// Whether a packet has what the option of `words` asks for.
pub open spec fn matches(words: Seq<Seq<char>>, packet: Packet, reading: Reading) -> bool {
    &&& option_of(words, "-s"@) matches Some(range) ==> (reading.lies_in)(packet.source, range)
    &&& option_of(words, "-d"@) matches Some(range) ==> (reading.lies_in)(
        packet.destination,
        range,
    )
    &&& option_of(words, "-p"@) matches Some(word) ==> word == protocol_word(packet.protocol)
    &&& option_of(words, "--dport"@) matches Some(range) ==> (reading.port_lies_in)(
        packet.port,
        range,
    )
}

/// Whether `rule` of the container at `ip` is about `packet`.
pub open spec fn is_about(
    rule: FirewallRuleView,
    ip: Seq<char>,
    packet: Packet,
    reading: Reading,
) -> bool {
    let (own, far) = if rule.direction == FirewallDirection::Inbound {
        (packet.destination, packet.source)
    } else {
        (packet.source, packet.destination)
    };
    &&& (reading.lies_in)(own, ip)
    &&& rule.remote_ip matches Some(remote) ==> (reading.lies_in)(far, remote)
    &&& rule.protocol == FirewallProtocol::All || rule.protocol == packet.protocol
    &&& rule.port is Some && (rule.protocol == FirewallProtocol::Tcp || rule.protocol
        == FirewallProtocol::Udp) ==> (reading.port_lies_in)(packet.port, port_text(rule.port->0))
}

/// A packet matches the call for a rule exactly where the rule is about it: its own end is the
/// container's, its far end lies in the remote address, and protocol and port are the rule's.
pub proof fn law_rule_matches(
    chain: Seq<char>,
    ip: Seq<char>,
    rule: FirewallRuleView,
    packet: Packet,
    reading: Reading,
)
    requires
        packet.protocol != FirewallProtocol::All,
    ensures
        matches(rule_args(chain, ip, rule).skip(2), packet, reading) == is_about(
            rule,
            ip,
            packet,
            reading,
        ),
{
    law_rule_is_spelled_out(chain, ip, rule);
    reveal_strlit("tcp");
    reveal_strlit("udp");
    reveal_strlit("icmp");
    assert("tcp"@[0] != "udp"@[0]);
    assert("icmp"@.len() == 4);
}

/// What the calls make of a packet: the first that appends a rule matching it decides, except
/// that a rule that only logs lets it pass on.
pub open spec fn verdict(
    calls: Seq<IptablesCommandView>,
    packet: Packet,
    reading: Reading,
) -> Option<Seq<char>>
    decreases calls.len(),
{
    if calls.len() == 0 {
        None
    } else if calls[0].args[0] == "-A"@ && matches(calls[0].args.skip(2), packet, reading)
        && option_of(calls[0].args.skip(2), "-j"@) != Some("LOG"@) {
        option_of(calls[0].args.skip(2), "-j"@)
    } else {
        verdict(calls.drop_first(), packet, reading)
    }
}

/// Whether `rule` decides over `packet`: it is about it and does not only log it.
pub open spec fn settles(
    rule: FirewallRuleView,
    ip: Seq<char>,
    packet: Packet,
    reading: Reading,
) -> bool {
    is_about(rule, ip, packet, reading) && rule.action != FirewallAction::Log
}

proof fn lemma_rules_verdict(
    chain: Seq<char>,
    ip: Seq<char>,
    rules: Seq<FirewallRuleView>,
    rest: Seq<IptablesCommandView>,
    packet: Packet,
    reading: Reading,
    i: int,
)
    requires
        packet.protocol != FirewallProtocol::All,
        0 <= i <= rules.len(),
        forall|j: int| 0 <= j < i ==> !settles(#[trigger] rules[j], ip, packet, reading),
        i < rules.len() ==> settles(rules[i], ip, packet, reading),
    ensures
        verdict(rule_commands(chain, ip, rules) + rest, packet, reading) == if i < rules.len() {
            Some(target_word(rules[i].action))
        } else {
            verdict(rest, packet, reading)
        },
    decreases rules.len(),
{
    lemma_options();
    let calls = rule_commands(chain, ip, rules) + rest;
    if rules.len() == 0 {
        assert(calls =~= rest);
    } else {
        law_rule_is_spelled_out(chain, ip, rules[0]);
        law_rule_matches(chain, ip, rules[0], packet, reading);
        assert(calls[0].args == rule_args(chain, ip, rules[0]));
        if i > 0 {
            assert(!settles(rules[0], ip, packet, reading));
            let tail = rules.drop_first();
            assert(calls.drop_first() =~= rule_commands(chain, ip, tail) + rest);
            assert forall|j: int| 0 <= j < i - 1 implies !settles(
                #[trigger] tail[j],
                ip,
                packet,
                reading,
            ) by {
                assert(tail[j] == rules[j + 1]);
            }
            lemma_rules_verdict(chain, ip, tail, rest, packet, reading, i - 1);
        } else {
            assert(settles(rules[0], ip, packet, reading));
        }
    }
}

proof fn lemma_policy_verdict(
    chain: Seq<char>,
    ip: Seq<char>,
    config: ContainerFirewallView,
    packet: Packet,
    reading: Reading,
)
    ensures
        verdict(
            seq![
                default_policy(chain, "-d"@, ip, config.default_inbound_allow),
                default_policy(chain, "-s"@, ip, config.default_outbound_allow),
            ],
            packet,
            reading,
        ) == if (reading.lies_in)(packet.destination, ip) {
            Some(
                if config.default_inbound_allow {
                    "ACCEPT"@
                } else {
                    "DROP"@
                },
            )
        } else if (reading.lies_in)(packet.source, ip) {
            Some(
                if config.default_outbound_allow {
                    "ACCEPT"@
                } else {
                    "DROP"@
                },
            )
        } else {
            None
        },
{
    lemma_options();
    let to = default_policy(chain, "-d"@, ip, config.default_inbound_allow);
    let from = default_policy(chain, "-s"@, ip, config.default_outbound_allow);
    let calls = seq![to, from];
    assert(calls.drop_first() =~= seq![from]);
    assert(seq![from].drop_first() =~= Seq::empty());
    let none = Seq::<Seq<char>>::empty();
    assert(to.args.skip(2) =~= seq!["-d"@, ip] + (seq!["-j"@, to.args[5]] + none));
    assert(from.args.skip(2) =~= seq!["-s"@, ip] + (seq!["-j"@, from.args[5]] + none));
    assert forall|name: Seq<char>| true implies #[trigger] option_of(to.args.skip(2), name) == (
    if name == "-d"@ {
        Some(ip)
    } else if name == "-j"@ {
        Some(to.args[5])
    } else {
        None
    }) by {
        lemma_option_here("-j"@, to.args[5], none, name);
        lemma_option_here("-d"@, ip, seq!["-j"@, to.args[5]] + none, name);
    }
    assert forall|name: Seq<char>| true implies #[trigger] option_of(from.args.skip(2), name) == (
    if name == "-s"@ {
        Some(ip)
    } else if name == "-j"@ {
        Some(from.args[5])
    } else {
        None
    }) by {
        lemma_option_here("-j"@, from.args[5], none, name);
        lemma_option_here("-s"@, ip, seq!["-j"@, from.args[5]] + none, name);
    }
    reveal_with_fuel(verdict, 3);
}

/// The first rule in order of priority that is about a packet, and does more than log it, says
/// what becomes of the packet.
pub proof fn law_first_rule_decides(
    chain: Seq<char>,
    ip: Seq<char>,
    config: ContainerFirewallView,
    packet: Packet,
    reading: Reading,
    i: int,
)
    requires
        packet.protocol != FirewallProtocol::All,
        0 <= i < config.applied_rules().len(),
        settles(config.applied_rules()[i], ip, packet, reading),
        forall|j: int|
            0 <= j < i ==> !settles(#[trigger] config.applied_rules()[j], ip, packet, reading),
    ensures
        verdict(apply_plan(chain, ip, config), packet, reading) == Some(
            target_word(config.applied_rules()[i].action),
        ),
{
    lemma_apply_verdict(chain, ip, config, packet, reading, i);
}

/// A packet that no rule decides over is let through, or dropped, as the policy for its
/// direction says; one that neither comes from the container nor goes to it is left alone.
pub proof fn law_policy_decides_the_rest(
    chain: Seq<char>,
    ip: Seq<char>,
    config: ContainerFirewallView,
    packet: Packet,
    reading: Reading,
)
    requires
        packet.protocol != FirewallProtocol::All,
        forall|j: int|
            0 <= j < config.applied_rules().len() ==> !settles(
                #[trigger] config.applied_rules()[j],
                ip,
                packet,
                reading,
            ),
    ensures
        ({
            let result = verdict(apply_plan(chain, ip, config), packet, reading);
            let inbound = (reading.lies_in)(packet.destination, ip);
            let outbound = (reading.lies_in)(packet.source, ip);
            &&& inbound && config.default_inbound_allow ==> result == Some("ACCEPT"@)
            &&& inbound && !config.default_inbound_allow ==> result == Some("DROP"@)
            &&& !inbound && outbound && config.default_outbound_allow ==> result == Some(
                "ACCEPT"@,
            )
            &&& !inbound && outbound && !config.default_outbound_allow ==> result == Some("DROP"@)
            &&& !inbound && !outbound ==> result is None
        }),
{
    lemma_apply_verdict(chain, ip, config, packet, reading, config.applied_rules().len() as int);
    lemma_policy_verdict(chain, ip, config, packet, reading);
}

proof fn lemma_apply_verdict(
    chain: Seq<char>,
    ip: Seq<char>,
    config: ContainerFirewallView,
    packet: Packet,
    reading: Reading,
    i: int,
)
    requires
        packet.protocol != FirewallProtocol::All,
        0 <= i <= config.applied_rules().len(),
        forall|j: int|
            0 <= j < i ==> !settles(#[trigger] config.applied_rules()[j], ip, packet, reading),
        i < config.applied_rules().len() ==> settles(
            config.applied_rules()[i],
            ip,
            packet,
            reading,
        ),
    ensures
        verdict(apply_plan(chain, ip, config), packet, reading) == if i
            < config.applied_rules().len() {
            Some(target_word(config.applied_rules()[i].action))
        } else {
            verdict(
                seq![
                    default_policy(chain, "-d"@, ip, config.default_inbound_allow),
                    default_policy(chain, "-s"@, ip, config.default_outbound_allow),
                ],
                packet,
                reading,
            )
        },
{
    lemma_options();
    let plan = apply_plan(chain, ip, config);
    let rest = seq![
        default_policy(chain, "-d"@, ip, config.default_inbound_allow),
        default_policy(chain, "-s"@, ip, config.default_outbound_allow),
    ];
    assert(plan[0].args[0] == "-F"@);
    assert(plan.drop_first() =~= rule_commands(chain, ip, config.applied_rules()) + rest);
    lemma_rules_verdict(chain, ip, config.applied_rules(), rest, packet, reading, i);
}

/// A range of ports is written with a colon between its ends; a single port as it stands.
pub proof fn law_port_range(first: Seq<char>, last: Seq<char>)
    requires
        forall|i: int| 0 <= i < first.len() ==> #[trigger] first[i] != '-',
        forall|i: int| 0 <= i < last.len() ==> #[trigger] last[i] != '-',
    ensures
        port_text(first) == first,
        port_text(first + seq!['-'] + last) == first + seq![':'] + last,
{
    assert(port_text(first) =~= first);
    assert(port_text(first + seq!['-'] + last) =~= first + seq![':'] + last);
}

/// Whether the call that a plan makes at `i` was reported as failed.
pub open spec fn call_failed(
    outcomes: Seq<Result<(bool, Seq<u8>), Seq<char>>>,
    i: int,
) -> bool {
    iptables_failure(outcomes[i]) is Some
}

proof fn lemma_plan_failure(
    plan: Seq<IptablesCommandView>,
    outcomes: Seq<Result<(bool, Seq<u8>), Seq<char>>>,
)
    requires
        outcomes.len() == plan.len(),
    ensures
        plan_failure(plan, outcomes) is Some <==> exists|i: int|
            0 <= i < plan.len() && (#[trigger] plan[i]).must_succeed && call_failed(outcomes, i),
    decreases plan.len(),
{
    if plan.len() > 0 {
        let rest = plan.drop_first();
        let later = outcomes.drop_first();
        lemma_plan_failure(rest, later);
        if plan[0].must_succeed && call_failed(outcomes, 0) {
        } else {
            if plan_failure(rest, later) is Some {
                let i = choose|i: int|
                    0 <= i < rest.len() && (#[trigger] rest[i]).must_succeed && call_failed(
                        later,
                        i,
                    );
                assert(plan[i + 1].must_succeed && call_failed(outcomes, i + 1));
            }
            if exists|i: int|
                0 <= i < plan.len() && (#[trigger] plan[i]).must_succeed && call_failed(
                    outcomes,
                    i,
                ) {
                let i = choose|i: int|
                    0 <= i < plan.len() && (#[trigger] plan[i]).must_succeed && call_failed(
                        outcomes,
                        i,
                    );
                assert(i > 0);
                assert(rest[i - 1].must_succeed && call_failed(later, i - 1));
            }
        }
    }
}

/// Rules that were not written are told: to apply a firewall fails exactly where one of its
/// calls failed.
pub proof fn law_unwritten_rules_are_told(
    chain: Seq<char>,
    ip: Seq<char>,
    config: ContainerFirewallView,
    outcomes: Seq<Result<(bool, Seq<u8>), Seq<char>>>,
)
    requires
        outcomes.len() == apply_plan(chain, ip, config).len(),
    ensures
        plan_failure(apply_plan(chain, ip, config), outcomes) is Some <==> exists|i: int|
            0 <= i < outcomes.len() && #[trigger] call_failed(outcomes, i),
{
    let plan = apply_plan(chain, ip, config);
    lemma_plan_failure(plan, outcomes);
    assert forall|i: int| 0 <= i < plan.len() implies (#[trigger] plan[i]).must_succeed by {}
    if exists|i: int| 0 <= i < outcomes.len() && #[trigger] call_failed(outcomes, i) {
        let i = choose|i: int| 0 <= i < outcomes.len() && #[trigger] call_failed(outcomes, i);
        assert(plan[i].must_succeed);
    }
}

/// To set up a container's chain fails exactly where the chain could not be emptied, or the
/// traffic from or to the container not be led into it; that the chain is there already, or that
/// an old hook is not, is no failure.
pub proof fn law_unhooked_chain_is_told(
    chain: Seq<char>,
    ip: Seq<char>,
    outcomes: Seq<Result<(bool, Seq<u8>), Seq<char>>>,
    i: int,
)
    requires
        outcomes.len() == init_plan(chain, ip).len(),
        0 <= i < outcomes.len(),
    ensures
        call_failed(outcomes, i) && (init_plan(chain, ip)[i].args[0] == "-F"@ || init_plan(
            chain,
            ip,
        )[i].args[0] == "-I"@) ==> plan_failure(init_plan(chain, ip), outcomes) is Some,
        (forall|j: int|
            0 <= j < outcomes.len() && call_failed(outcomes, j) ==> (#[trigger] init_plan(
                chain,
                ip,
            )[j]).args[0] == "-N"@ || init_plan(chain, ip)[j].args[0] == "-D"@) ==> plan_failure(
            init_plan(chain, ip),
            outcomes,
        ) is None,
{
    let plan = init_plan(chain, ip);
    lemma_plan_failure(plan, outcomes);
    reveal_strlit("-N");
    reveal_strlit("-D");
    reveal_strlit("-F");
    reveal_strlit("-I");
    assert("-N"@[1] != "-F"@[1] && "-N"@[1] != "-I"@[1]);
    assert("-D"@[1] != "-F"@[1] && "-D"@[1] != "-I"@[1]);
    assert(plan[i].must_succeed == (plan[i].args[0] == "-F"@ || plan[i].args[0] == "-I"@));
}

/// A container's firewall is written where iptables is there and the firewall is on, and only
/// then; it then needs the container's address.
pub proof fn law_switched_off_writes_nothing(manager: FirewallManagerView, uuid: Seq<char>)
    ensures
        !manager.iptables_available ==> manager.apply(uuid) == Ok::<
            Seq<IptablesCommandView>,
            Seq<char>,
        >(Seq::empty()),
        manager.configs.contains_key(uuid) && !manager.configs[uuid].enabled ==> manager.apply(
            uuid,
        ) == Ok::<Seq<IptablesCommandView>, Seq<char>>(Seq::empty()),
        manager.iptables_available && manager.configs.contains_key(uuid)
            && manager.configs[uuid].enabled ==> {
            &&& manager.container_ips.contains_key(uuid) ==> (manager.apply(uuid) matches Ok(plan)
                && plan.len() > 2)
            &&& !manager.container_ips.contains_key(uuid) ==> manager.apply(uuid) == Err::<
                Seq<IptablesCommandView>,
                Seq<char>,
            >("Container "@ + uuid + " IP not registered"@)
        },
{
}

/// A call that iptables carried out has not failed, and one that could not be made has. One that
/// iptables refused has failed unless it says that what was asked for is already so, and the
/// failure then tells what iptables said.
pub proof fn law_call_failures(stderr: Seq<u8>, e: Seq<char>)
    ensures
        iptables_failure(Ok((true, stderr))) is None,
        iptables_failure(Err(e)) == Some("Failed to run iptables: "@ + e),
        ({
            let said = crate::outside::lossy_text(stderr);
            let excused = crate::text::has_part(said, "Chain already exists"@)
                || crate::text::has_part(said, "No chain/target/match"@) || crate::text::has_part(
                said,
                "Bad rule"@,
            );
            iptables_failure(Ok((false, stderr))) == if excused {
                None
            } else {
                Some("iptables failed: "@ + said)
            }
        }),
{
}

/// Cleaning up empties and removes the chain, whether or not the address is still known, and
/// where it is takes the traffic from and to it out of the chain first.
pub proof fn law_cleanup_removes_chain(chain: Seq<char>, ip: Seq<char>)
    ensures
        ({
            let known = cleanup_plan(chain, Some(ip));
            let unknown = cleanup_plan(chain, None);
            &&& known.len() == 4
            &&& known[0].args == seq!["-D"@, "FORWARD"@, "-s"@, ip, "-j"@, chain]
            &&& known[1].args == seq!["-D"@, "FORWARD"@, "-d"@, ip, "-j"@, chain]
            &&& unknown.len() == 2
            &&& unknown == known.skip(2)
            &&& unknown[0].args == seq!["-F"@, chain]
            &&& unknown[1].args == seq!["-X"@, chain]
        }),
{
    assert(cleanup_plan(chain, None) =~= cleanup_plan(chain, Some(ip)).skip(2));
}

} // verus!

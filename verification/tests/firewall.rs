//! Rules, chains and presets of firewalls.

use lightd::firewall::manager::{IptablesCommand, IptablesOutput};
use lightd::firewall::{
    ContainerFirewall, FirewallAction, FirewallDirection, FirewallManager, FirewallProtocol,
    FirewallRule,
};
use lightd::handlers::firewall::{
    add_firewall_rule, addressed_container, apply_firewall_preset, cleanup_container_firewall,
    get_firewall_availability, get_firewall_status, init_container_firewall, init_reply,
    open_firewall, preset_reply, refuse_unknown, remove_firewall_rule, replace_firewall,
    set_firewall_enabled, ApplyPresetRequest, CreateRuleRequest,
};
use lightd::models::Timestamp;
use lightd::state_manager::ContainerState;
use lightd::table::Table;

const UUID: &str = "abcdef12-3456-7890-abcd-ef1234567890";
const CHAIN: &str = "LIGHTD-ABCDEF12-345";

fn rule(id: &str, priority: i32) -> FirewallRule {
    FirewallRule {
        id: id.to_string(),
        description: None,
        direction: FirewallDirection::Inbound,
        action: FirewallAction::Allow,
        protocol: FirewallProtocol::Tcp,
        remote_ip: None,
        port: None,
        priority,
        enabled: true,
    }
}

fn ids(config: &ContainerFirewall) -> Vec<&str> {
    config.rules.iter().map(|r| r.id.as_str()).collect()
}

fn outcome(success: bool, stderr: &str) -> Result<IptablesOutput, String> {
    Ok(IptablesOutput { success, stdout: Vec::new(), stderr: stderr.as_bytes().to_vec() })
}

fn manager() -> FirewallManager {
    let mut manager = FirewallManager::new(true);
    manager.register_container(UUID, "172.20.0.5");
    manager
}

#[test]
fn rules_are_sorted_by_priority_and_keep_their_order() {
    let mut config = ContainerFirewall::permissive();
    for (id, priority) in [("a", 50), ("b", 10), ("c", 50), ("d", -3), ("e", 10)] {
        config.add_rule(rule(id, priority));
    }
    assert_eq!(ids(&config), ["d", "b", "e", "a", "c"]);
    config.rules[1].enabled = false;
    let sorted: Vec<&str> = config.get_sorted_rules().iter().map(|r| r.id.as_str()).collect();
    assert_eq!(sorted, ["d", "e", "a", "c"]);
}

#[test]
fn unsorted_rules_are_sorted_when_they_are_applied() {
    let mut config = ContainerFirewall::permissive();
    config.rules = vec![rule("a", 3), rule("b", 1), rule("c", 2)];
    let sorted: Vec<&str> = config.get_sorted_rules().iter().map(|r| r.id.as_str()).collect();
    assert_eq!(sorted, ["b", "c", "a"]);
}

#[test]
fn removing_an_added_rule_restores_the_list() {
    let mut config = ContainerFirewall::restrictive();
    config.add_rule(rule("a", 1));
    config.add_rule(rule("b", 2));
    let before: Vec<String> = config.rules.iter().map(|r| r.id.clone()).collect();
    config.add_rule(rule("new", 1));
    assert!(config.remove_rule("new"));
    assert!(!config.remove_rule("new"));
    assert_eq!(ids(&config), before.iter().map(|s| s.as_str()).collect::<Vec<_>>());
}

#[test]
fn new_rules_have_random_identifiers() {
    let a = FirewallRule::allow(FirewallDirection::Outbound, FirewallProtocol::Udp);
    let b = FirewallRule::drop(FirewallDirection::Inbound, FirewallProtocol::All)
        .with_port("80")
        .with_priority(7)
        .with_remote_ip("10.0.0.0/8")
        .with_description("why");
    assert_ne!(a.id, b.id);
    assert_eq!(a.id.len(), 36);
    assert_eq!(a.id.as_bytes()[14], b'4');
    assert_eq!(a.priority, 100);
    assert_eq!(b.port.as_deref(), Some("80"));
    assert_eq!(b.priority, 7);
    assert_eq!(b.remote_ip.as_deref(), Some("10.0.0.0/8"));
    assert_eq!(b.description.as_deref(), Some("why"));
    assert_eq!(b.action, FirewallAction::Drop);
}

#[test]
fn names_of_directions_actions_and_protocols() {
    assert_eq!(FirewallDirection::Inbound.to_string(), "inbound");
    assert_eq!(FirewallDirection::Outbound.to_string(), "outbound");
    assert_eq!(FirewallAction::Allow.to_string(), "ACCEPT");
    assert_eq!(FirewallAction::Drop.to_string(), "DROP");
    assert_eq!(FirewallAction::Reject.to_string(), "REJECT");
    assert_eq!(FirewallAction::Log.to_string(), "LOG");
    assert_eq!(FirewallProtocol::Tcp.to_string(), "tcp");
    assert_eq!(FirewallProtocol::Udp.to_string(), "udp");
    assert_eq!(FirewallProtocol::Icmp.to_string(), "icmp");
    assert_eq!(FirewallProtocol::All.to_string(), "all");
}

#[test]
fn chain_is_named_after_the_first_twelve_bytes() {
    assert_eq!(FirewallManager::get_chain_name(UUID), CHAIN);
    assert_eq!(FirewallManager::get_chain_name("short"), "LIGHTD-SHORT");
    assert_eq!(FirewallManager::get_chain_name("stra\u{df}e"), "LIGHTD-STRASSE");
}

#[test]
fn chain_is_made_and_hooked_in() {
    let plan = manager().init_container_firewall(UUID).unwrap();
    let lines: Vec<(String, bool)> = plan.iter().map(|c| (c.args.join(" "), c.must_succeed)).collect();
    let expected = [
        (format!("-N {}", CHAIN), false),
        (format!("-F {}", CHAIN), true),
        (format!("-D FORWARD -s 172.20.0.5 -j {}", CHAIN), false),
        (format!("-D FORWARD -d 172.20.0.5 -j {}", CHAIN), false),
        (format!("-I FORWARD 1 -s 172.20.0.5 -j {}", CHAIN), true),
        (format!("-I FORWARD 1 -d 172.20.0.5 -j {}", CHAIN), true),
    ];
    assert_eq!(lines, expected);
    let unknown = FirewallManager::new(true).init_container_firewall("nobody");
    assert_eq!(unknown.unwrap_err(), "Container nobody IP not registered");
    assert!(FirewallManager::new(false).init_container_firewall("nobody").unwrap().is_empty());
}

#[test]
fn chain_is_taken_away() {
    let mut m = manager();
    let plan = m.cleanup_container_firewall(UUID);
    let lines: Vec<String> = plan.iter().map(|c| c.args.join(" ")).collect();
    assert_eq!(
        lines,
        [
            format!("-D FORWARD -s 172.20.0.5 -j {}", CHAIN),
            format!("-D FORWARD -d 172.20.0.5 -j {}", CHAIN),
            format!("-F {}", CHAIN),
            format!("-X {}", CHAIN),
        ]
    );
    assert!(plan.iter().all(|c| !c.must_succeed));
    m.unregister_container(UUID);
    assert_eq!(m.cleanup_container_firewall(UUID).len(), 2);
    assert!(FirewallManager::new(false).cleanup_container_firewall(UUID).is_empty());
}

#[test]
fn rules_become_arguments() {
    let plain = FirewallManager::apply_rule("C", "1.2.3.4", &rule("a", 1));
    assert_eq!(plain.args.join(" "), "-A C -d 1.2.3.4 -p tcp -j ACCEPT");
    let mut full = rule("b", 1);
    full.direction = FirewallDirection::Outbound;
    full.protocol = FirewallProtocol::Udp;
    full.port = Some("8000-9000".to_string());
    full.remote_ip = Some("10.0.0.0/8".to_string());
    full.action = FirewallAction::Reject;
    full.description = Some("no way".to_string());
    let command = FirewallManager::apply_rule("C", "1.2.3.4", &full);
    assert_eq!(
        command.args,
        [
            "-A", "C", "-s", "1.2.3.4", "-d", "10.0.0.0/8", "-p", "udp", "--dport", "8000:9000", "-j",
            "REJECT", "-m", "comment", "--comment", "no way"
        ]
    );
    full.protocol = FirewallProtocol::Icmp;
    full.description = None;
    let icmp = FirewallManager::apply_rule("C", "1.2.3.4", &full);
    assert_eq!(icmp.args.join(" "), "-A C -s 1.2.3.4 -d 10.0.0.0/8 -p icmp -j REJECT");
    full.protocol = FirewallProtocol::All;
    let all = FirewallManager::apply_rule("C", "1.2.3.4", &full);
    assert_eq!(all.args.join(" "), "-A C -s 1.2.3.4 -d 10.0.0.0/8 -j REJECT");
}

/// FORWARD after the calls; the words of a rule stand behind the name of its chain.
fn forward_after(rules: Vec<String>, plan: &[IptablesCommand]) -> Vec<String> {
    let mut rules = rules;
    for call in plan {
        if call.args[0] == "-D" {
            let rule = call.args[2..].join(" ");
            if let Some(i) = rules.iter().position(|r| *r == rule) {
                rules.remove(i);
            }
        } else if call.args[0] == "-I" {
            rules.insert(0, call.args[3..].join(" "));
        }
    }
    rules
}

#[test]
fn hooks_are_put_in_once_and_all_taken_out() {
    let mut m = manager();
    m.register_container("other", "172.20.0.6");
    let older = vec!["-s 10.0.0.1 -j ACCEPT".to_string()];
    let plan = m.init_container_firewall(UUID).unwrap();
    let once = forward_after(older.clone(), &plan);
    assert_eq!(
        once,
        [
            format!("-d 172.20.0.5 -j {}", CHAIN),
            format!("-s 172.20.0.5 -j {}", CHAIN),
            older[0].clone()
        ]
    );
    assert_eq!(forward_after(once.clone(), &plan), once);
    let both = forward_after(once, &m.init_container_firewall("other").unwrap());
    assert_eq!(both.len(), 5);
    let chains = vec![CHAIN.to_string(), "LIGHTD-OTHER".to_string()];
    assert_eq!(forward_after(both, &m.cleanup_all(&chains)), older);
}

#[test]
fn chains_are_told_apart_by_the_first_twelve_characters() {
    let name = FirewallManager::get_chain_name;
    assert_eq!(name("ABCDEF12-345x"), name("abcdef12-345y"));
    assert_ne!(name("abcdef12-346"), name("abcdef12-345"));
    assert_eq!(name(UUID).len(), 19);
}

#[test]
fn rules_are_applied_before_the_default_policies() {
    let mut m = manager();
    let (id, plan) = m.add_rule(UUID, rule("a", 5)).unwrap();
    assert_eq!(id, "a");
    assert_eq!(plan.len(), 4);
    let (_, plan) = m.add_rule(UUID, rule("b", 1)).unwrap();
    let lines: Vec<String> = plan.iter().map(|c| c.args.join(" ")).collect();
    assert_eq!(lines[0], format!("-F {}", CHAIN));
    assert_eq!(lines.len(), 5);
    assert_eq!(lines[3], format!("-A {} -d 172.20.0.5 -j ACCEPT", CHAIN));
    assert_eq!(lines[4], format!("-A {} -s 172.20.0.5 -j ACCEPT", CHAIN));
    assert!(plan.iter().all(|c| c.must_succeed));
    assert_eq!(m.get_rules(UUID).iter().map(|r| r.id.as_str()).collect::<Vec<_>>(), ["b", "a"]);
    let plan = m.set_default_policies(UUID, false, true).unwrap();
    assert_eq!(plan[3].args.last().unwrap(), "DROP");
    assert_eq!(plan[4].args.last().unwrap(), "ACCEPT");
}

#[test]
fn rule_is_kept_where_it_cannot_be_written() {
    let mut m = FirewallManager::new(true);
    let refused = m.add_rule(UUID, rule("a", 5));
    assert_eq!(refused.unwrap_err(), format!("Container {} IP not registered", UUID));
    assert_eq!(m.get_rules(UUID).len(), 1);
    let refused = m.remove_rule(UUID, "a");
    assert!(refused.is_err());
    assert!(m.get_rules(UUID).is_empty());
}

#[test]
fn removal_of_a_missing_rule_changes_nothing() {
    let mut m = manager();
    let (removed, plan) = m.remove_rule(UUID, "a").unwrap();
    assert!(!removed && plan.is_empty());
    assert!(m.get_config(UUID).is_none());
    m.add_rule(UUID, rule("a", 5)).unwrap();
    let (removed, plan) = m.remove_rule(UUID, "b").unwrap();
    assert!(!removed && plan.is_empty());
    let (removed, plan) = m.remove_rule(UUID, "a").unwrap();
    assert!(removed);
    assert_eq!(plan.len(), 3);
}

#[test]
fn firewall_that_is_off_is_not_written() {
    let mut m = manager();
    let plan = m.set_enabled(UUID, false).unwrap();
    assert_eq!(plan.len(), 1);
    assert_eq!(plan[0].args.join(" "), format!("-F {}", CHAIN));
    assert!(!plan[0].must_succeed);
    assert!(m.apply_rules(UUID).unwrap().is_empty());
    assert_eq!(m.set_enabled(UUID, true).unwrap().len(), 3);
    assert!(FirewallManager::new(false).set_enabled(UUID, false).unwrap().is_empty());
}

#[test]
fn iptables_complaints_are_judged() {
    assert!(FirewallManager::run_iptables(&outcome(true, "anything")).is_ok());
    for harmless in [
        "iptables: Chain already exists.",
        "iptables: No chain/target/match by that name.",
        "iptables: Bad rule (does a matching rule exist in that chain?).",
    ] {
        assert!(FirewallManager::run_iptables(&outcome(false, harmless)).is_ok());
    }
    assert_eq!(
        FirewallManager::run_iptables(&outcome(false, "Permission denied")).unwrap_err(),
        "iptables failed: Permission denied"
    );
    assert_eq!(
        FirewallManager::run_iptables(&Err("no such file".to_string())).unwrap_err(),
        "Failed to run iptables: no such file"
    );
    let bytes = IptablesOutput { success: false, stdout: Vec::new(), stderr: vec![b'x', 0xff] };
    assert_eq!(
        FirewallManager::run_iptables(&Ok(bytes)).unwrap_err(),
        "iptables failed: x\u{fffd}"
    );
}

#[test]
fn only_calls_that_must_succeed_end_a_plan() {
    let plan = manager().init_container_firewall(UUID).unwrap();
    let failure = outcome(false, "Permission denied");
    assert!(FirewallManager::after_command(&plan[0], &failure).is_ok());
    assert!(FirewallManager::after_command(&plan[1], &failure).is_err());
    assert!(FirewallManager::after_command(&plan[1], &outcome(true, "")).is_ok());
}

#[test]
fn availability_of_iptables_is_checked() {
    assert!(FirewallManager::check_iptables(&outcome(true, "")));
    assert!(!FirewallManager::check_iptables(&outcome(false, "")));
    assert!(!FirewallManager::check_iptables(&Err("none".to_string())));
    assert!(manager().is_available());
}

#[test]
fn chains_are_found_in_a_listing() {
    let listing = b"Chain INPUT (policy ACCEPT)\ntarget  prot\n\nChain LIGHTD-ABC (2 references)\nChain LIGHTD-DEF (1 references)\n Chain LIGHTD-NO\n".to_vec();
    let chains = FirewallManager::list_managed_chains(&listing);
    assert_eq!(chains, ["LIGHTD-ABC", "LIGHTD-DEF"]);
    let plan = manager().cleanup_all(&chains);
    let lines: Vec<String> = plan.iter().map(|c| c.args.join(" ")).collect();
    assert_eq!(
        lines,
        [
            "-D FORWARD -j LIGHTD-ABC",
            "-D FORWARD -s 172.20.0.5 -j LIGHTD-ABC",
            "-D FORWARD -d 172.20.0.5 -j LIGHTD-ABC",
            "-F LIGHTD-ABC",
            "-X LIGHTD-ABC",
            "-D FORWARD -j LIGHTD-DEF",
            "-D FORWARD -s 172.20.0.5 -j LIGHTD-DEF",
            "-D FORWARD -d 172.20.0.5 -j LIGHTD-DEF",
            "-F LIGHTD-DEF",
            "-X LIGHTD-DEF"
        ]
    );
    assert!(plan.iter().all(|c| !c.must_succeed));
    assert_eq!(FirewallManager::new(true).cleanup_all(&chains).len(), 6);
    assert!(FirewallManager::new(false).cleanup_all(&chains).is_empty());
}

#[test]
fn address_is_known_until_the_container_is_unregistered() {
    let mut m = manager();
    m.set_config(UUID, ContainerFirewall::restrictive());
    assert_eq!(m.get_container_ip(UUID).as_deref(), Some("172.20.0.5"));
    assert!(!m.get_config(UUID).unwrap().default_inbound_allow);
    m.register_container("other", "172.20.0.6");
    m.unregister_container(UUID);
    assert!(m.get_container_ip(UUID).is_none());
    assert!(m.get_config(UUID).is_none());
    assert_eq!(m.get_container_ip("other").as_deref(), Some("172.20.0.6"));
}

#[test]
fn web_preset_opens_dns_and_the_web() {
    let config = FirewallManager::preset_web_only();
    assert!(config.enabled && config.default_inbound_allow && !config.default_outbound_allow);
    let rules: Vec<(String, &str, &str)> = config
        .rules
        .iter()
        .map(|r| (r.protocol.to_string(), r.port.as_deref().unwrap(), r.description.as_deref().unwrap()))
        .collect();
    assert_eq!(
        rules,
        [
            ("udp".to_string(), "53", "Allow DNS"),
            ("tcp".to_string(), "53", "Allow DNS TCP"),
            ("tcp".to_string(), "80", "Allow HTTP"),
            ("tcp".to_string(), "443", "Allow HTTPS"),
        ]
    );
}

#[test]
fn address_presets_keep_the_order_of_the_list() {
    let ips = vec!["1.1.1.1".to_string(), "2.2.2.2".to_string(), "3.3.3.3".to_string()];
    let black = FirewallManager::preset_blacklist(ips.clone());
    assert!(black.default_inbound_allow && black.default_outbound_allow);
    for (i, r) in black.rules.iter().enumerate() {
        assert_eq!(r.remote_ip.as_ref(), Some(&ips[i]));
        assert_eq!(r.priority, i as i32);
        assert_eq!(r.action, FirewallAction::Drop);
        assert_eq!(r.description, Some(format!("Block {}", ips[i])));
    }
    let white = FirewallManager::preset_whitelist(ips.clone());
    assert!(white.default_inbound_allow && !white.default_outbound_allow);
    assert_eq!(white.rules.len(), 3);
    assert_eq!(white.rules[2].action, FirewallAction::Allow);
    assert_eq!(white.rules[2].description.as_deref(), Some("Allow 3.3.3.3"));
}

fn preset(name: &str, ips: Option<Vec<String>>) -> Result<ContainerFirewall, String> {
    apply_firewall_preset(ApplyPresetRequest { preset: name.to_string(), ips })
}

#[test]
fn presets_are_found_by_name() {
    assert_eq!(preset("web_only", None).unwrap().rules.len(), 4);
    assert_eq!(preset("blacklist", None).unwrap().rules.len(), 0);
    assert_eq!(preset("blacklist", Some(vec!["1.1.1.1".to_string()])).unwrap().rules.len(), 1);
    assert_eq!(preset("whitelist", None).unwrap_err(), "Whitelist preset requires 'ips' array");
    assert_eq!(preset("whitelist", Some(vec!["1.1.1.1".to_string()])).unwrap().rules.len(), 1);
    assert!(preset("permissive", None).unwrap().default_outbound_allow);
    assert!(!preset("restrictive", None).unwrap().default_inbound_allow);
    assert_eq!(preset("open", None).unwrap_err(), "Unknown preset: open");
    assert_eq!(preset_reply("web_only"), "Preset 'web_only' applied");
}

#[test]
fn firewall_requests_are_answered() {
    assert_eq!(refuse_unknown("u", false).as_deref(), Some("Container u not found"));
    assert!(refuse_unknown("u", true).is_none());
    let status = get_firewall_status("u", &None, true);
    assert!(!status.enabled && status.iptables_available && status.rule_count == 0);
    let config = FirewallManager::preset_web_only();
    let status = get_firewall_status("u", &Some(config), false);
    assert!(status.enabled && !status.iptables_available && status.rule_count == 4);
    let asked = CreateRuleRequest {
        description: None,
        direction: FirewallDirection::Inbound,
        action: FirewallAction::Log,
        protocol: FirewallProtocol::Tcp,
        remote_ip: None,
        port: Some("22".to_string()),
        priority: None,
    };
    let made = add_firewall_rule(asked);
    assert_eq!((made.priority, made.enabled, made.id.len()), (100, true, 36));
    assert_eq!(remove_firewall_rule("r", Ok(true)).data.as_deref(), Some("Rule r removed"));
    assert_eq!(remove_firewall_rule("r", Ok(false)).message.as_deref(), Some("Rule r not found"));
    assert_eq!(remove_firewall_rule("r", Err("e".to_string())).message.as_deref(), Some("e"));
    assert_eq!(set_firewall_enabled("u", true), "Firewall enabled for container u");
    assert_eq!(set_firewall_enabled("u", false), "Firewall disabled for container u");
    assert!(get_firewall_availability(false).message.contains("will not be enforced"));
}

fn state(container_id: Option<&str>) -> ContainerState {
    ContainerState {
        state: "running".to_string(),
        container_id: container_id.map(|id| id.to_string()),
        image: "alpine".to_string(),
        name: "server".to_string(),
        description: None,
        startup_command: None,
        disk_limit: None,
        memory_limit: None,
        cpu_limit: None,
        swap_limit: None,
        pids_limit: None,
        threads_limit: None,
        attached_volumes: Vec::new(),
        ports: Table::new(),
        env: None,
        created_at: Timestamp { secs: 0, nanos: 0 },
        updated_at: Timestamp { secs: 0, nanos: 0 },
        locked: None,
        lock_reason: None,
        locked_at: None,
        restart_policy: None,
        operation: None,
        operation_id: None,
        operation_message: None,
    }
}

#[test]
fn firewall_is_opened_replaced_and_closed() {
    let mut m = FirewallManager::new(true);
    let plan = open_firewall(&mut m, UUID, "172.20.0.5").unwrap();
    assert_eq!(plan.len(), 6);
    assert_eq!(m.get_container_ip(UUID).as_deref(), Some("172.20.0.5"));
    let plan = replace_firewall(&mut m, UUID, ContainerFirewall::restrictive()).unwrap();
    assert_eq!(plan.len(), 3);
    assert_eq!(plan[1].args.last().unwrap(), "DROP");
    let (plan, told) = cleanup_container_firewall(&mut m, UUID);
    assert_eq!(plan.len(), 4);
    assert_eq!(told, format!("Firewall cleaned up for {}", UUID));
    assert!(m.get_container_ip(UUID).is_none() && m.get_config(UUID).is_none());
    assert!(replace_firewall(&mut m, UUID, ContainerFirewall::permissive()).is_err());
    assert!(m.get_config(UUID).is_some());
}

#[test]
fn address_needs_a_container() {
    assert_eq!(addressed_container("u", &Some(state(Some("c")))).unwrap(), "c");
    assert_eq!(
        addressed_container("u", &Some(state(None))).unwrap_err(),
        "Container has no Docker ID"
    );
    assert_eq!(addressed_container("u", &None).unwrap_err(), "Container u not found");
}

#[test]
fn address_of_a_container_must_be_told() {
    assert_eq!(init_container_firewall(Ok(Some("1.2.3.4".to_string()))).unwrap(), "1.2.3.4");
    for found in [Ok(None), Ok(Some(String::new()))] {
        assert_eq!(init_container_firewall(found).unwrap_err(), "Could not determine container IP");
    }
    assert_eq!(
        init_container_firewall(Err("gone".to_string())).unwrap_err(),
        "Failed to inspect container: gone"
    );
    let done = init_reply("u", "1.2.3.4", Ok(()), Ok(()));
    assert_eq!(done.data.as_deref(), Some("Firewall initialized for u (IP: 1.2.3.4)"));
    let e = || Err("e".to_string());
    assert_eq!(init_reply("u", "i", e(), Ok(())).message.as_deref(), Some("Failed to init firewall: e"));
    assert_eq!(init_reply("u", "i", Ok(()), e()).message.as_deref(), Some("Failed to apply rules: e"));
}

//! Requests about the firewall of a container.

use crate::firewall::manager::{
    are_listed_rules, chain_name, cleanup_plan, has_short_form, init_plan, law_listed_addresses,
    plan_view, web_rule, IptablesCommand,
};
use crate::firewall::rules::{policy_only, ContainerFirewallView, FirewallRuleView};
use crate::firewall::{
    ContainerFirewall, FirewallAction, FirewallDirection, FirewallManager, FirewallProtocol,
    FirewallRule,
};
use crate::models::{error_reply, success_reply, ApiResponse, ApiResponseView};
use crate::outside::{is_random_uuid, random_uuid};
use crate::services::task::result_view;
use crate::state_manager::{ContainerState, ContainerStateView};
use crate::text::{cat2, cat3, cat4, cat5, is_empty_text, same_text};
use vstd::prelude::*;

verus! {

/// A request for a new rule.
#[derive(Debug, Clone)]
pub struct CreateRuleRequest {
    pub description: Option<String>,
    pub direction: FirewallDirection,
    pub action: FirewallAction,
    pub protocol: FirewallProtocol,
    pub remote_ip: Option<String>,
    pub port: Option<String>,
    pub priority: Option<i32>,
}

/// What a [`CreateRuleRequest`] holds.
#[verifier::ext_equal]
pub struct CreateRuleRequestView {
    pub description: Option<Seq<char>>,
    pub direction: FirewallDirection,
    pub action: FirewallAction,
    pub protocol: FirewallProtocol,
    pub remote_ip: Option<Seq<char>>,
    pub port: Option<Seq<char>>,
    pub priority: Option<i32>,
}

impl DeepView for CreateRuleRequest {
    type V = CreateRuleRequestView;

    open spec fn deep_view(&self) -> CreateRuleRequestView {
        CreateRuleRequestView {
            description: self.description.deep_view(),
            direction: self.direction,
            action: self.action,
            protocol: self.protocol,
            remote_ip: self.remote_ip.deep_view(),
            port: self.port.deep_view(),
            priority: self.priority.deep_view(),
        }
    }
}

/// A request for other default policies.
#[derive(Debug, Clone)]
pub struct SetPoliciesRequest {
    pub default_inbound_allow: bool,
    pub default_outbound_allow: bool,
}

/// A request to turn the firewall on or off.
#[derive(Debug, Clone)]
pub struct SetEnabledRequest {
    pub enabled: bool,
}

/// A request for a firewall that has a name.
#[derive(Debug, Clone)]
pub struct ApplyPresetRequest {
    pub preset: String,
    pub ips: Option<Vec<String>>,
}

/// How the firewall of a container stands.
#[derive(Debug, Clone)]
pub struct FirewallStatus {
    pub container_uuid: String,
    pub enabled: bool,
    pub default_inbound_allow: bool,
    pub default_outbound_allow: bool,
    pub rule_count: usize,
    pub iptables_available: bool,
}

/// What a [`FirewallStatus`] holds.
#[verifier::ext_equal]
pub struct FirewallStatusView {
    pub container_uuid: Seq<char>,
    pub enabled: bool,
    pub default_inbound_allow: bool,
    pub default_outbound_allow: bool,
    pub rule_count: usize,
    pub iptables_available: bool,
}

impl DeepView for FirewallStatus {
    type V = FirewallStatusView;

    open spec fn deep_view(&self) -> FirewallStatusView {
        FirewallStatusView {
            container_uuid: self.container_uuid@,
            enabled: self.enabled,
            default_inbound_allow: self.default_inbound_allow,
            default_outbound_allow: self.default_outbound_allow,
            rule_count: self.rule_count,
            iptables_available: self.iptables_available,
        }
    }
}

/// The rules of a container.
#[derive(Debug, Clone)]
pub struct FirewallRulesResponse {
    pub container_uuid: String,
    pub rules: Vec<FirewallRule>,
}

/// What a [`FirewallRulesResponse`] holds.
#[verifier::ext_equal]
pub struct FirewallRulesResponseView {
    pub container_uuid: Seq<char>,
    pub rules: Seq<FirewallRuleView>,
}

impl DeepView for FirewallRulesResponse {
    type V = FirewallRulesResponseView;

    open spec fn deep_view(&self) -> FirewallRulesResponseView {
        FirewallRulesResponseView {
            container_uuid: self.container_uuid@,
            rules: self.rules.deep_view(),
        }
    }
}

/// Whether firewalls are enforced.
#[derive(Debug, Clone)]
pub struct FirewallAvailability {
    pub iptables_available: bool,
    pub message: String,
}

/// What a [`FirewallAvailability`] holds.
#[verifier::ext_equal]
pub struct FirewallAvailabilityView {
    pub iptables_available: bool,
    pub message: Seq<char>,
}

impl DeepView for FirewallAvailability {
    type V = FirewallAvailabilityView;

    open spec fn deep_view(&self) -> FirewallAvailabilityView {
        FirewallAvailabilityView {
            iptables_available: self.iptables_available,
            message: self.message@,
        }
    }
}

/// Why a request about a container is refused: it is not known.
pub fn refuse_unknown(uuid: &str, known: bool) -> (r: Option<String>)
    ensures
        r.deep_view() == if known {
            None
        } else {
            Some("Container "@ + uuid@ + " not found"@)
        },
{
    if known {
        None
    } else {
        Some(cat3("Container ", uuid, " not found"))
    }
}

/// How the firewall of a container stands. One that was never set counts as off.
pub open spec fn status_view(
    uuid: Seq<char>,
    config: Option<ContainerFirewallView>,
    available: bool,
) -> FirewallStatusView {
    match config {
        Some(config) => FirewallStatusView {
            container_uuid: uuid,
            enabled: config.enabled,
            default_inbound_allow: config.default_inbound_allow,
            default_outbound_allow: config.default_outbound_allow,
            rule_count: config.rules.len() as usize,
            iptables_available: available,
        },
        None => FirewallStatusView {
            container_uuid: uuid,
            enabled: false,
            default_inbound_allow: false,
            default_outbound_allow: false,
            rule_count: 0,
            iptables_available: available,
        },
    }
}

/// How the firewall of a container stands.
pub fn get_firewall_status(uuid: &str, config: &Option<ContainerFirewall>, available: bool) -> (r:
    FirewallStatus)
    ensures
        r.deep_view() == status_view(uuid@, config.deep_view(), available),
{
    match config {
        Some(config) => FirewallStatus {
            container_uuid: uuid.to_string(),
            enabled: config.enabled,
            default_inbound_allow: config.default_inbound_allow,
            default_outbound_allow: config.default_outbound_allow,
            rule_count: config.rules.len(),
            iptables_available: available,
        },
        None => FirewallStatus {
            container_uuid: uuid.to_string(),
            enabled: false,
            default_inbound_allow: false,
            default_outbound_allow: false,
            rule_count: 0,
            iptables_available: available,
        },
    }
}

/// The rules of a container, as they are told.
pub fn get_firewall_rules(uuid: &str, rules: Vec<FirewallRule>) -> (r: FirewallRulesResponse)
    ensures
        r.deep_view() == (FirewallRulesResponseView {
            container_uuid: uuid@,
            rules: rules.deep_view(),
        }),
{
    FirewallRulesResponse { container_uuid: uuid.to_string(), rules }
}

/// The rule that a request asks for.
pub open spec fn requested_rule(id: Seq<char>, request: CreateRuleRequestView) -> FirewallRuleView {
    FirewallRuleView {
        id,
        description: request.description,
        direction: request.direction,
        action: request.action,
        protocol: request.protocol,
        remote_ip: request.remote_ip,
        port: request.port,
        priority: match request.priority {
            Some(priority) => priority,
            None => 100,
        },
        enabled: true,
    }
}

/// The rule that a request asks for, under a new random identifier.
pub fn add_firewall_rule(request: CreateRuleRequest) -> (r: FirewallRule)
    ensures
        is_random_uuid(r.id@),
        r.deep_view() == requested_rule(r.id@, request.deep_view()),
{
    FirewallRule {
        id: random_uuid(),
        description: request.description,
        direction: request.direction,
        action: request.action,
        protocol: request.protocol,
        remote_ip: request.remote_ip,
        port: request.port,
        priority: match request.priority {
            Some(priority) => priority,
            None => 100,
        },
        enabled: true,
    }
}

/// What is answered where a rule was to be removed.
pub open spec fn removed_rule_reply(
    rule_id: Seq<char>,
    result: Result<bool, Seq<char>>,
) -> ApiResponseView<Seq<char>> {
    match result {
        Ok(true) => success_reply("Rule "@ + rule_id + " removed"@),
        Ok(false) => error_reply("Rule "@ + rule_id + " not found"@),
        Err(e) => error_reply(e),
    }
}

/// The answer to the removal of a rule.
pub fn remove_firewall_rule(rule_id: &str, result: Result<bool, String>) -> (r: ApiResponse<String>)
    ensures
        r.deep_view() == removed_rule_reply(rule_id@, result_view(result)),
{
    match result {
        Ok(true) => ApiResponse::success(cat3("Rule ", rule_id, " removed")),
        Ok(false) => ApiResponse::error(cat3("Rule ", rule_id, " not found")),
        Err(e) => ApiResponse::error(e),
    }
}

/// The text of the answer to turning a firewall on or off.
pub fn set_firewall_enabled(uuid: &str, enabled: bool) -> (r: String)
    ensures
        r@ == "Firewall "@ + (if enabled {
            "enabled"@
        } else {
            "disabled"@
        }) + " for container "@ + uuid@,
{
    let status = if enabled {
        "enabled"
    } else {
        "disabled"
    };
    cat4("Firewall ", status, " for container ", uuid)
}

/// The text of the answer to other default policies.
pub fn set_firewall_policies() -> (r: String)
    ensures
        r@ == "Policies updated"@,
{
    "Policies updated".to_string()
}

/// The addresses of a request, of which there may be none.
pub open spec fn addresses(ips: Option<Vec<String>>) -> Seq<Seq<char>> {
    match ips {
        Some(ips) => ips.deep_view(),
        None => Seq::empty(),
    }
}

/// Whether a firewall is the one that a name stands for.
pub open spec fn is_preset(
    preset: Seq<char>,
    ips: Seq<Seq<char>>,
    config: ContainerFirewallView,
) -> bool {
    if preset == "web_only"@ {
        &&& config == (ContainerFirewallView { rules: config.rules, ..policy_only(true, false) })
        &&& config.rules.len() == 4
        &&& config.rules[0] == web_rule(
            config.rules[0].id,
            FirewallProtocol::Udp,
            "53"@,
            "Allow DNS"@,
        )
        &&& config.rules[1] == web_rule(
            config.rules[1].id,
            FirewallProtocol::Tcp,
            "53"@,
            "Allow DNS TCP"@,
        )
        &&& config.rules[2] == web_rule(
            config.rules[2].id,
            FirewallProtocol::Tcp,
            "80"@,
            "Allow HTTP"@,
        )
        &&& config.rules[3] == web_rule(
            config.rules[3].id,
            FirewallProtocol::Tcp,
            "443"@,
            "Allow HTTPS"@,
        )
    } else if preset == "blacklist"@ {
        &&& config == (ContainerFirewallView { rules: config.rules, ..policy_only(true, true) })
        &&& are_listed_rules(config.rules, FirewallAction::Drop, "Block "@, ips)
    } else if preset == "whitelist"@ {
        &&& config == (ContainerFirewallView { rules: config.rules, ..policy_only(true, false) })
        &&& are_listed_rules(config.rules, FirewallAction::Allow, "Allow "@, ips)
    } else if preset == "permissive"@ {
        config == policy_only(true, true)
    } else {
        preset == "restrictive"@ && config == policy_only(false, false)
    }
}

/// Why there is no firewall for a name: there is none of that name, or it lacks addresses.
pub open spec fn preset_refusal(preset: Seq<char>, ips: Seq<Seq<char>>) -> Option<Seq<char>> {
    if preset == "web_only"@ || preset == "blacklist"@ {
        None
    } else if preset == "whitelist"@ {
        if ips.len() == 0 {
            Some("Whitelist preset requires 'ips' array"@)
        } else {
            None
        }
    } else if preset == "permissive"@ || preset == "restrictive"@ {
        None
    } else {
        Some("Unknown preset: "@ + preset)
    }
}

/// The firewall that a name stands for.
pub fn apply_firewall_preset(request: ApplyPresetRequest) -> (r: Result<ContainerFirewall, String>)
    ensures
        match r {
            Ok(config) => preset_refusal(request.preset@, addresses(request.ips)) is None
                && is_preset(request.preset@, addresses(request.ips), config.deep_view()),
            Err(e) => preset_refusal(request.preset@, addresses(request.ips)) == Some(e@),
        },
{
    let preset = request.preset.as_str();
    let ips = match request.ips {
        Some(ips) => ips,
        None => {
            let none: Vec<String> = Vec::new();
            assert(none.deep_view() =~= Seq::<Seq<char>>::empty());
            none
        },
    };
    if same_text(preset, "web_only") {
        Ok(FirewallManager::preset_web_only())
    } else if same_text(preset, "blacklist") {
        Ok(FirewallManager::preset_blacklist(ips))
    } else if same_text(preset, "whitelist") {
        if ips.len() == 0 {
            Err("Whitelist preset requires 'ips' array".to_string())
        } else {
            Ok(FirewallManager::preset_whitelist(ips))
        }
    } else if same_text(preset, "permissive") {
        Ok(ContainerFirewall::permissive())
    } else if same_text(preset, "restrictive") {
        Ok(ContainerFirewall::restrictive())
    } else {
        Err(cat2("Unknown preset: ", preset))
    }
}

/// The text of the answer to a firewall that was applied by its name.
pub fn preset_reply(preset: &str) -> (r: String)
    ensures
        r@ == "Preset '"@ + preset@ + "' applied"@,
{
    cat3("Preset '", preset, "' applied")
}

/// The container of the engine whose address is asked for, or why there is none.
pub open spec fn addressed(uuid: Seq<char>, state: Option<ContainerStateView>) -> Result<
    Seq<char>,
    Seq<char>,
> {
    match state {
        None => Err("Container "@ + uuid + " not found"@),
        Some(state) => match state.container_id {
            None => Err("Container has no Docker ID"@),
            Some(container_id) => Ok(container_id),
        },
    }
}

/// See [`addressed`].
pub fn addressed_container(uuid: &str, state: &Option<ContainerState>) -> (r: Result<
    String,
    String,
>)
    ensures
        result_view(r) == addressed(uuid@, state.deep_view()),
{
    match state {
        None => Err(cat3("Container ", uuid, " not found")),
        Some(state) => match &state.container_id {
            None => Err("Container has no Docker ID".to_string()),
            Some(container_id) => Ok(container_id.clone()),
        },
    }
}

/// The address of a container, given what the engine said of it.
pub open spec fn found_address(found: Result<Option<Seq<char>>, Seq<char>>) -> Result<
    Seq<char>,
    Seq<char>,
> {
    match found {
        Err(e) => Err("Failed to inspect container: "@ + e),
        Ok(Some(ip)) if ip.len() > 0 => Ok(ip),
        _ => Err("Could not determine container IP"@),
    }
}

/// The address of a container that the engine tells, given the one of its first network. `found`
/// is what came of asking.
pub fn init_container_firewall(found: Result<Option<String>, String>) -> (r: Result<String, String>)
    ensures
        result_view(r) == found_address(result_view(found)),
{
    match found {
        Err(e) => Err(cat2("Failed to inspect container: ", e.as_str())),
        Ok(Some(ip)) => if is_empty_text(ip.as_str()) {
            Err("Could not determine container IP".to_string())
        } else {
            Ok(ip)
        },
        Ok(None) => Err("Could not determine container IP".to_string()),
    }
}

/// What is answered where a firewall was set up and written, or one of the two failed.
pub open spec fn opened_reply(
    uuid: Seq<char>,
    ip: Seq<char>,
    made: Result<(), Seq<char>>,
    applied: Result<(), Seq<char>>,
) -> ApiResponseView<Seq<char>> {
    match (made, applied) {
        (Err(e), _) => error_reply("Failed to init firewall: "@ + e),
        (_, Err(e)) => error_reply("Failed to apply rules: "@ + e),
        (Ok(_), Ok(_)) => success_reply(
            "Firewall initialized for "@ + uuid + " (IP: "@ + ip + ")"@,
        ),
    }
}

/// The answer to the making of a chain, given what came of making it and of applying the rules.
pub fn init_reply(
    uuid: &str,
    ip: &str,
    made: Result<(), String>,
    applied: Result<(), String>,
) -> (r: ApiResponse<String>)
    ensures
        r.deep_view() == opened_reply(uuid@, ip@, result_view(made), result_view(applied)),
{
    if let Err(e) = made {
        return ApiResponse::error(cat2("Failed to init firewall: ", e.as_str()));
    }
    if let Err(e) = applied {
        return ApiResponse::error(cat2("Failed to apply rules: ", e.as_str()));
    }
    ApiResponse::success(cat5("Firewall initialized for ", uuid, " (IP: ", ip, ")"))
}

/// The calls of iptables that take the firewall of a container away, and the answer. Nothing is
/// known of the container after that.
pub fn cleanup_container_firewall(manager: &mut FirewallManager, uuid: &str) -> (r: (
    Vec<IptablesCommand>,
    String,
))
    requires
        old(manager)@.iptables_available ==> has_short_form(uuid@),
    ensures
        final(manager)@ == old(manager)@.unregistered(uuid@),
        r.0.deep_view() == old(manager)@.cleaning(uuid@),
        r.1@ == "Firewall cleaned up for "@ + uuid@,
{
    let plan = manager.cleanup_container_firewall(uuid);
    manager.unregister_container(uuid);
    (plan, cat2("Firewall cleaned up for ", uuid))
}

/// Gives a container another firewall. The calls of iptables that write it are returned, or why
/// there are none; it is kept in any case.
pub fn replace_firewall(manager: &mut FirewallManager, uuid: &str, config: ContainerFirewall) -> (r:
    Result<Vec<IptablesCommand>, String>)
    requires
        old(manager)@.iptables_available && config.enabled ==> has_short_form(uuid@),
    ensures
        final(manager)@ == old(manager)@.with_config(uuid@, config.deep_view()),
        plan_view(r) == final(manager)@.apply(uuid@),
{
    manager.set_config(uuid, config);
    manager.apply_rules(uuid)
}

/// Makes the address of a container known. The calls of iptables that make its chain are
/// returned; its rules are written after them.
pub fn open_firewall(manager: &mut FirewallManager, uuid: &str, ip: &str) -> (r: Result<
    Vec<IptablesCommand>,
    String,
>)
    requires
        old(manager)@.iptables_available ==> has_short_form(uuid@),
    ensures
        final(manager)@ == old(manager)@.registered(uuid@, ip@),
        plan_view(r) == final(manager)@.opening(uuid@),
        r matches Ok(plan) && plan.deep_view() == if old(manager)@.iptables_available {
            init_plan(chain_name(uuid@), ip@)
        } else {
            Seq::empty()
        },
{
    manager.register_container(uuid, ip);
    manager.init_container_firewall(uuid)
}

/// Whether firewalls are enforced.
pub fn get_firewall_availability(available: bool) -> (r: FirewallAvailability)
    ensures
        r.deep_view() == (FirewallAvailabilityView {
            iptables_available: available,
            message: if available {
                "iptables is available and firewall rules will be enforced"@
            } else {
                "iptables is not available - firewall rules will not be enforced"@
            },
        }),
{
    let message = if available {
        "iptables is available and firewall rules will be enforced"
    } else {
        "iptables is not available - firewall rules will not be enforced"
    };
    FirewallAvailability { iptables_available: available, message: message.to_string() }
}

/// The names of the presets are different words.
proof fn lemma_preset_names()
    ensures
        "web_only"@ != "blacklist"@,
        "web_only"@ != "whitelist"@,
        "web_only"@ != "permissive"@,
        "web_only"@ != "restrictive"@,
        "blacklist"@ != "whitelist"@,
        "blacklist"@ != "permissive"@,
        "blacklist"@ != "restrictive"@,
        "whitelist"@ != "permissive"@,
        "whitelist"@ != "restrictive"@,
        "permissive"@ != "restrictive"@,
{
    reveal_strlit("web_only");
    reveal_strlit("blacklist");
    reveal_strlit("whitelist");
    reveal_strlit("permissive");
    reveal_strlit("restrictive");
    assert("web_only"@.len() == 8);
    assert("blacklist"@.len() == 9);
    assert("whitelist"@.len() == 9);
    assert("permissive"@.len() == 10);
    assert("restrictive"@.len() == 11);
    assert("blacklist"@[0] != "whitelist"@[0]);
}

/// What each preset is. Web only: the container is reached, and gets out to the name service,
/// HTTP and HTTPS alone. Blacklist: everything but what goes out to the given addresses.
/// Whitelist: nothing goes out but to the given addresses. Permissive: everything. Restrictive:
/// nothing.
pub proof fn law_presets(
    preset: Seq<char>,
    ips: Seq<Seq<char>>,
    config: ContainerFirewallView,
    i: int,
)
    requires
        is_preset(preset, ips, config),
        ips.len() <= 0x8000_0000,
    ensures
        config.enabled,
        config.default_inbound_allow == (preset != "restrictive"@),
        config.default_outbound_allow == (preset == "blacklist"@ || preset == "permissive"@),
        preset == "web_only"@ ==> {
            &&& config.rules.len() == 4
            &&& config.rules[0].protocol == FirewallProtocol::Udp
            &&& config.rules[0].port == Some("53"@)
            &&& config.rules[1].protocol == FirewallProtocol::Tcp
            &&& config.rules[1].port == Some("53"@)
            &&& config.rules[2].protocol == FirewallProtocol::Tcp
            &&& config.rules[2].port == Some("80"@)
            &&& config.rules[3].protocol == FirewallProtocol::Tcp
            &&& config.rules[3].port == Some("443"@)
            &&& 0 <= i < 4 ==> {
                &&& config.rules[i].direction == FirewallDirection::Outbound
                &&& config.rules[i].action == FirewallAction::Allow
                &&& config.rules[i].remote_ip is None
                &&& config.rules[i].enabled
            }
        },
        preset == "blacklist"@ || preset == "whitelist"@ ==> {
            &&& config.rules.len() == ips.len()
            &&& 0 <= i < ips.len() ==> {
                &&& config.rules[i].remote_ip == Some(ips[i])
                &&& config.rules[i].direction == FirewallDirection::Outbound
                &&& config.rules[i].action == if preset == "blacklist"@ {
                    FirewallAction::Drop
                } else {
                    FirewallAction::Allow
                }
                &&& config.rules[i].protocol == FirewallProtocol::All
                &&& config.rules[i].port is None
                &&& config.rules[i].enabled
            }
        },
        preset == "permissive"@ || preset == "restrictive"@ ==> config.rules.len() == 0,
{
    lemma_preset_names();
    if preset == "blacklist"@ {
        law_listed_addresses(config.rules, FirewallAction::Drop, "Block "@, ips, i);
    } else if preset == "whitelist"@ {
        law_listed_addresses(config.rules, FirewallAction::Allow, "Allow "@, ips, i);
    }
}

/// A preset is refused where it is none of the five, or is a whitelist without an address.
pub proof fn law_refused_presets(preset: Seq<char>, ips: Seq<Seq<char>>)
    ensures
        preset_refusal(preset, ips) is None <==> (preset == "web_only"@ || preset == "blacklist"@
            || preset == "permissive"@ || preset == "restrictive"@ || (preset == "whitelist"@
            && ips.len() > 0)),
        preset == "whitelist"@ && ips.len() == 0 ==> preset_refusal(preset, ips) == Some(
            "Whitelist preset requires 'ips' array"@,
        ),
        preset_refusal(preset, ips) is Some && preset != "whitelist"@ ==> preset_refusal(
            preset,
            ips,
        ) == Some("Unknown preset: "@ + preset),
{
    lemma_preset_names();
}

/// The rule that was asked for has every word of the request, and is on; one without a priority
/// stands in the middle.
pub proof fn law_requested_rule(id: Seq<char>, request: CreateRuleRequestView)
    ensures
        ({
            let rule = requested_rule(id, request);
            &&& rule.id == id
            &&& rule.direction == request.direction
            &&& rule.action == request.action
            &&& rule.protocol == request.protocol
            &&& rule.remote_ip == request.remote_ip
            &&& rule.port == request.port
            &&& rule.description == request.description
            &&& request.priority matches Some(priority) ==> rule.priority == priority
            &&& request.priority is None ==> rule.priority == 100
            &&& rule.enabled
        }),
{
}

/// The status shows the firewall that is set, and one that is off, lets nothing through and has
/// no rules where none is.
pub proof fn law_shown_status(
    uuid: Seq<char>,
    config: ContainerFirewallView,
    available: bool,
)
    requires
        config.rules.len() <= usize::MAX,
    ensures
        ({
            let shown = status_view(uuid, Some(config), available);
            &&& shown.container_uuid == uuid
            &&& shown.enabled == config.enabled
            &&& shown.default_inbound_allow == config.default_inbound_allow
            &&& shown.default_outbound_allow == config.default_outbound_allow
            &&& shown.rule_count == config.rules.len()
            &&& shown.iptables_available == available
        }),
        ({
            let shown = status_view(uuid, None, available);
            &&& shown.container_uuid == uuid
            &&& !shown.enabled
            &&& !shown.default_inbound_allow
            &&& !shown.default_outbound_allow
            &&& shown.rule_count == 0
            &&& shown.iptables_available == available
        }),
{
}

/// A firewall is opened for a container that is known and has been made, and only for it.
pub proof fn law_addressed_container(uuid: Seq<char>, state: ContainerStateView)
    ensures
        addressed(uuid, None) == Err::<Seq<char>, Seq<char>>("Container "@ + uuid + " not found"@),
        state.container_id matches Some(id) ==> addressed(uuid, Some(state)) == Ok::<
            Seq<char>,
            Seq<char>,
        >(id),
        state.container_id is None ==> addressed(uuid, Some(state)) == Err::<
            Seq<char>,
            Seq<char>,
        >("Container has no Docker ID"@),
{
}

/// A firewall is set up for the address that the engine has for the container, and not without
/// one. It is told as set up only where it was also written, and a rule as removed only where it
/// was there.
pub proof fn law_firewall_replies(
    uuid: Seq<char>,
    ip: Seq<char>,
    made: Result<(), Seq<char>>,
    applied: Result<(), Seq<char>>,
    rule_id: Seq<char>,
    e: Seq<char>,
)
    ensures
        found_address(Ok(Some(ip))) is Ok <==> ip.len() > 0,
        ip.len() > 0 ==> found_address(Ok(Some(ip))) == Ok::<Seq<char>, Seq<char>>(ip),
        found_address(Ok(None)) == Err::<Seq<char>, Seq<char>>(
            "Could not determine container IP"@,
        ),
        ip.len() == 0 ==> found_address(Ok(Some(ip))) == found_address(Ok(None)),
        found_address(Err(e)) == Err::<Seq<char>, Seq<char>>("Failed to inspect container: "@ + e),
        opened_reply(uuid, ip, made, applied).success <==> made is Ok && applied is Ok,
        made is Ok && applied is Ok ==> opened_reply(uuid, ip, made, applied).data == Some(
            "Firewall initialized for "@ + uuid + " (IP: "@ + ip + ")"@,
        ),
        made matches Err(error) ==> opened_reply(uuid, ip, made, applied).message == Some(
            "Failed to init firewall: "@ + error,
        ),
        made is Ok ==> (applied matches Err(error) ==> opened_reply(uuid, ip, made, applied).message
            == Some("Failed to apply rules: "@ + error)),
        removed_rule_reply(rule_id, Ok(true)).success,
        removed_rule_reply(rule_id, Ok(true)).data == Some("Rule "@ + rule_id + " removed"@),
        !removed_rule_reply(rule_id, Ok(false)).success,
        removed_rule_reply(rule_id, Ok(false)).message == Some("Rule "@ + rule_id + " not found"@),
        !removed_rule_reply(rule_id, Err(e)).success,
        removed_rule_reply(rule_id, Err(e)).message == Some(e),
{
}

} // verus!

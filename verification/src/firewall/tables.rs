//! What calls of iptables leave in its tables, as far as the daemon's chains go.
//!
//! The model knows the built-in chain FORWARD and the chains that were made; a rule is the words
//! that follow the name of its chain. A call that iptables refuses changes nothing.

use super::manager::{
    cleanup_plan, delete_chain, flush, hook, init_plan, new_chain, sweep_one, sweep_plan, unhook,
    unhook_all, unhook_plan, IptablesCommandView,
};
use vstd::prelude::*;

verus! {

/// The rules of FORWARD, and the rules of each other chain.
#[verifier::ext_equal]
pub ghost struct Tables {
    pub forward: Seq<Seq<Seq<char>>>,
    pub chains: Map<Seq<char>, Seq<Seq<Seq<char>>>>,
}

/// Rules without the first one of these words, where there is one.
pub open spec fn without_first(rules: Seq<Seq<Seq<char>>>, rule: Seq<Seq<char>>) -> Seq<
    Seq<Seq<char>>,
>
    decreases rules.len(),
{
    if rules.len() == 0 {
        rules
    } else if rules[0] == rule {
        rules.drop_first()
    } else {
        seq![rules[0]] + without_first(rules.drop_first(), rule)
    }
}

/// Whether a rule sends what it matches into a chain.
pub open spec fn jumps_to(rule: Seq<Seq<char>>, chain: Seq<char>) -> bool {
    exists|i: int| 0 <= i < rule.len() - 1 && #[trigger] rule[i] == "-j"@ && rule[i + 1] == chain
}

/// Whether no rule sends anything into a chain.
pub open spec fn none_jumps_to(rules: Seq<Seq<Seq<char>>>, chain: Seq<char>) -> bool {
    forall|i: int| 0 <= i < rules.len() ==> !jumps_to(#[trigger] rules[i], chain)
}

/// The rule that sends the traffic of one end of an address into a chain.
pub open spec fn hook_rule(end: Seq<char>, ip: Seq<char>, chain: Seq<char>) -> Seq<Seq<char>> {
    seq![end, ip, "-j"@, chain]
}

/// The tables after a call.
pub open spec fn called(tables: Tables, args: Seq<Seq<char>>) -> Tables {
    if args.len() == 2 && args[0] == "-N"@ && !tables.chains.contains_key(args[1]) {
        Tables { chains: tables.chains.insert(args[1], Seq::empty()), ..tables }
    } else if args.len() == 2 && args[0] == "-F"@ && tables.chains.contains_key(args[1]) {
        Tables { chains: tables.chains.insert(args[1], Seq::empty()), ..tables }
    } else if args.len() == 2 && args[0] == "-X"@ && tables.chains.contains_key(args[1])
        && tables.chains[args[1]].len() == 0 && none_jumps_to(tables.forward, args[1]) {
        Tables { chains: tables.chains.remove(args[1]), ..tables }
    } else if args.len() > 2 && args[0] == "-D"@ && args[1] == "FORWARD"@ {
        Tables { forward: without_first(tables.forward, args.skip(2)), ..tables }
    } else if args.len() > 3 && args[0] == "-I"@ && args[1] == "FORWARD"@ && args[2] == "1"@ {
        Tables { forward: seq![args.skip(3)] + tables.forward, ..tables }
    } else if args.len() > 2 && args[0] == "-A"@ && tables.chains.contains_key(args[1]) {
        Tables {
            chains: tables.chains.insert(args[1], tables.chains[args[1]].push(args.skip(2))),
            ..tables
        }
    } else {
        tables
    }
}

/// The tables after calls, in order.
pub open spec fn after_calls(tables: Tables, plan: Seq<IptablesCommandView>) -> Tables
    decreases plan.len(),
{
    if plan.len() == 0 {
        tables
    } else {
        called(after_calls(tables, plan.drop_last()), plan.last().args)
    }
}

/// The tables after the same calls, made a number of times.
pub open spec fn after_times(tables: Tables, plan: Seq<IptablesCommandView>, n: nat) -> Tables
    decreases n,
{
    if n == 0 {
        tables
    } else {
        after_calls(after_times(tables, plan, (n - 1) as nat), plan)
    }
}

proof fn lemma_names()
    ensures
        "-N"@ != "-F"@,
        "-N"@ != "-X"@,
        "-F"@ != "-X"@,
        "-D"@ != "-I"@,
        "-D"@ != "-A"@,
        "-s"@ != "-d"@,
{
    reveal_strlit("-N");
    reveal_strlit("-F");
    reveal_strlit("-X");
    reveal_strlit("-D");
    reveal_strlit("-I");
    reveal_strlit("-A");
    reveal_strlit("-s");
    reveal_strlit("-d");
    assert("-N"@[1] == 'N' && "-F"@[1] == 'F' && "-X"@[1] == 'X' && "-D"@[1] == 'D');
    assert("-I"@[1] == 'I' && "-A"@[1] == 'A' && "-s"@[1] == 's' && "-d"@[1] == 'd');
}

proof fn lemma_calls(tables: Tables, end: Seq<char>, ip: Seq<char>, chain: Seq<char>, must: bool)
    ensures
        called(tables, new_chain(chain).args) == if tables.chains.contains_key(chain) {
            tables
        } else {
            Tables { chains: tables.chains.insert(chain, Seq::empty()), ..tables }
        },
        called(tables, flush(chain, must).args) == if tables.chains.contains_key(chain) {
            Tables { chains: tables.chains.insert(chain, Seq::empty()), ..tables }
        } else {
            tables
        },
        called(tables, delete_chain(chain).args) == if tables.chains.contains_key(chain)
            && tables.chains[chain].len() == 0 && none_jumps_to(tables.forward, chain) {
            Tables { chains: tables.chains.remove(chain), ..tables }
        } else {
            tables
        },
        called(tables, unhook(end, ip, chain).args) == (Tables {
            forward: without_first(tables.forward, hook_rule(end, ip, chain)),
            ..tables
        }),
        called(tables, unhook_all(chain).args) == (Tables {
            forward: without_first(tables.forward, seq!["-j"@, chain]),
            ..tables
        }),
        called(tables, hook(end, ip, chain).args) == (Tables {
            forward: seq![hook_rule(end, ip, chain)] + tables.forward,
            ..tables
        }),
{
    lemma_names();
    assert(unhook(end, ip, chain).args.skip(2) =~= hook_rule(end, ip, chain));
    assert(unhook_all(chain).args.skip(2) =~= seq!["-j"@, chain]);
    assert(hook(end, ip, chain).args.skip(3) =~= hook_rule(end, ip, chain));
}

proof fn lemma_after_both(
    tables: Tables,
    first: Seq<IptablesCommandView>,
    second: Seq<IptablesCommandView>,
)
    ensures
        after_calls(tables, first + second) == after_calls(after_calls(tables, first), second),
    decreases second.len(),
{
    if second.len() == 0 {
        assert(first + second =~= first);
    } else {
        assert((first + second).drop_last() =~= first + second.drop_last());
        assert((first + second).last() == second.last());
        lemma_after_both(tables, first, second.drop_last());
    }
}

proof fn lemma_after_one(tables: Tables, call: IptablesCommandView)
    ensures
        after_calls(tables, seq![call]) == called(tables, call.args),
{
    let plan = seq![call];
    assert(plan.drop_last() =~= Seq::<IptablesCommandView>::empty());
    assert(after_calls(tables, plan.drop_last()) == tables);
    assert(plan.last() == call);
}

proof fn lemma_after_two(tables: Tables, first: IptablesCommandView, second: IptablesCommandView)
    ensures
        after_calls(tables, seq![first, second]) == called(
            called(tables, first.args),
            second.args,
        ),
{
    assert(seq![first, second] =~= seq![first] + seq![second]);
    lemma_after_both(tables, seq![first], seq![second]);
    lemma_after_one(tables, first);
    lemma_after_one(called(tables, first.args), second);
}

proof fn lemma_nothing_to_remove(rules: Seq<Seq<Seq<char>>>, rule: Seq<Seq<char>>)
    requires
        !rules.contains(rule),
    ensures
        without_first(rules, rule) == rules,
    decreases rules.len(),
{
    if rules.len() > 0 {
        assert(rules.contains(rules[0]));
        assert forall|i: int| 0 <= i < rules.drop_first().len() implies rules.drop_first()[i]
            != rule by {
            assert(rules.contains(rules[i + 1]));
        }
        lemma_nothing_to_remove(rules.drop_first(), rule);
        assert(seq![rules[0]] + rules.drop_first() =~= rules);
    }
}

proof fn lemma_hooks_are_new(
    rules: Seq<Seq<Seq<char>>>,
    end: Seq<char>,
    ip: Seq<char>,
    chain: Seq<char>,
)
    requires
        none_jumps_to(rules, chain),
    ensures
        !rules.contains(hook_rule(end, ip, chain)),
{
    let rule = hook_rule(end, ip, chain);
    assert(rule[2] == "-j"@ && rule[3] == chain);
    assert(jumps_to(rule, chain));
}

proof fn lemma_init_calls(tables: Tables, chain: Seq<char>, ip: Seq<char>)
    ensures
        ({
            let s = hook_rule("-s"@, ip, chain);
            let d = hook_rule("-d"@, ip, chain);
            let rest = without_first(without_first(tables.forward, s), d);
            after_calls(tables, init_plan(chain, ip)) == (Tables {
                forward: seq![d, s] + rest,
                chains: tables.chains.insert(chain, Seq::empty()),
            })
        }),
{
    let plan = init_plan(chain, ip);
    let (one, two, three) = (
        seq![new_chain(chain), flush(chain, true)],
        seq![unhook("-s"@, ip, chain), unhook("-d"@, ip, chain)],
        seq![hook("-s"@, ip, chain), hook("-d"@, ip, chain)],
    );
    assert(plan =~= one + two + three);
    lemma_after_both(tables, one + two, three);
    lemma_after_both(tables, one, two);
    lemma_after_two(tables, one[0], one[1]);
    lemma_calls(tables, "-s"@, ip, chain, true);
    let made = called(tables, one[0].args);
    lemma_calls(made, "-s"@, ip, chain, true);
    let emptied = called(made, one[1].args);
    assert(emptied.chains =~= tables.chains.insert(chain, Seq::empty()));
    lemma_after_two(emptied, two[0], two[1]);
    lemma_calls(emptied, "-s"@, ip, chain, true);
    let once = called(emptied, two[0].args);
    lemma_calls(once, "-d"@, ip, chain, true);
    let clear = called(once, two[1].args);
    lemma_after_two(clear, three[0], three[1]);
    lemma_calls(clear, "-s"@, ip, chain, true);
    let half = called(clear, three[0].args);
    lemma_calls(half, "-d"@, ip, chain, true);
    let s = hook_rule("-s"@, ip, chain);
    let d = hook_rule("-d"@, ip, chain);
    assert(seq![d] + (seq![s] + clear.forward) =~= seq![d, s] + clear.forward);
}

/// However often the chain of a container is made, it is there and empty after that, and FORWARD
/// begins with one rule for each end of the traffic that leads into it, before all older rules.
pub proof fn law_init_can_be_repeated(tables: Tables, chain: Seq<char>, ip: Seq<char>, n: nat)
    requires
        none_jumps_to(tables.forward, chain),
        n >= 1,
    ensures
        after_times(tables, init_plan(chain, ip), n) == (Tables {
            forward: seq![hook_rule("-d"@, ip, chain), hook_rule("-s"@, ip, chain)]
                + tables.forward,
            chains: tables.chains.insert(chain, Seq::empty()),
        }),
    decreases n,
{
    let plan = init_plan(chain, ip);
    let s = hook_rule("-s"@, ip, chain);
    let d = hook_rule("-d"@, ip, chain);
    let old = tables.forward;
    lemma_names();
    lemma_hooks_are_new(old, "-s"@, ip, chain);
    lemma_hooks_are_new(old, "-d"@, ip, chain);
    lemma_nothing_to_remove(old, s);
    lemma_nothing_to_remove(old, d);
    let before = after_times(tables, plan, (n - 1) as nat);
    lemma_init_calls(before, chain, ip);
    if n == 1 {
        assert(before == tables);
    } else {
        law_init_can_be_repeated(tables, chain, ip, (n - 1) as nat);
        assert(before.forward == seq![d, s] + old);
        assert(d[0] == "-d"@ && s[0] == "-s"@);
        lemma_remove_both(old, d, s);
        assert(before.chains.insert(chain, Seq::empty()) =~= before.chains);
    }
}

/// Two rules that stand in front are removed in either order.
proof fn lemma_remove_both(old: Seq<Seq<Seq<char>>>, d: Seq<Seq<char>>, s: Seq<Seq<char>>)
    requires
        d != s,
    ensures
        without_first(without_first(seq![d, s] + old, s), d) == old,
{
    reveal_with_fuel(without_first, 3);
    let all = seq![d, s] + old;
    assert(all[0] == d);
    assert(all.drop_first()[0] == s);
    assert(all.drop_first().drop_first() =~= old);
    let left = without_first(all, s);
    assert(left =~= seq![d] + old);
    assert(left[0] == d);
    assert(left.drop_first() =~= old);
}

/// Taking the chain of a container away leaves the tables as they were before it was made.
pub proof fn law_cleanup_undoes_init(tables: Tables, chain: Seq<char>, ip: Seq<char>)
    requires
        none_jumps_to(tables.forward, chain),
        !tables.chains.contains_key(chain),
    ensures
        after_calls(
            after_calls(tables, init_plan(chain, ip)),
            cleanup_plan(chain, Some(ip)),
        ) == tables,
{
    let s = hook_rule("-s"@, ip, chain);
    let d = hook_rule("-d"@, ip, chain);
    reveal_with_fuel(after_times, 2);
    law_init_can_be_repeated(tables, chain, ip, 1);
    let made = after_calls(tables, init_plan(chain, ip));
    let (one, two) = (
        seq![unhook("-s"@, ip, chain), unhook("-d"@, ip, chain)],
        seq![flush(chain, false), delete_chain(chain)],
    );
    assert(cleanup_plan(chain, Some(ip)) =~= one + two);
    lemma_after_both(made, one, two);
    lemma_after_two(made, one[0], one[1]);
    lemma_calls(made, "-s"@, ip, chain, false);
    let half = called(made, one[0].args);
    lemma_calls(half, "-d"@, ip, chain, false);
    let clear = called(half, one[1].args);
    lemma_names();
    assert(d[0] == "-d"@ && s[0] == "-s"@);
    lemma_remove_both(tables.forward, d, s);
    lemma_after_two(clear, two[0], two[1]);
    lemma_calls(clear, "-s"@, ip, chain, false);
    let emptied = called(clear, two[0].args);
    lemma_calls(emptied, "-s"@, ip, chain, false);
    assert(called(emptied, two[1].args).chains =~= tables.chains);
}

/// Whether a rule stands in a list at most once.
pub open spec fn at_most_once(rules: Seq<Seq<Seq<char>>>, rule: Seq<Seq<char>>) -> bool {
    forall|i: int, j: int|
        0 <= i < j < rules.len() ==> !(#[trigger] rules[i] == rule && #[trigger] rules[j] == rule)
}

proof fn lemma_without_first(
    rules: Seq<Seq<Seq<char>>>,
    rule: Seq<Seq<char>>,
    other: Seq<Seq<char>>,
)
    ensures
        without_first(rules, rule).contains(other) ==> rules.contains(other),
        at_most_once(rules, rule) ==> !without_first(rules, rule).contains(rule),
        at_most_once(rules, other) ==> at_most_once(without_first(rules, rule), other),
        other != rule && rules.contains(other) ==> without_first(rules, rule).contains(other),
    decreases rules.len(),
{
    let left = without_first(rules, rule);
    if rules.len() > 0 {
        let rest = rules.drop_first();
        let first = rules[0];
        assert forall|i: int| 0 <= i < rest.len() implies rest[i] == rules[i + 1] by {}
        if first == rule {
            assert(left == rest);
            if left.contains(other) {
                let i = choose|i: int| 0 <= i < left.len() && left[i] == other;
                assert(rules[i + 1] == other);
            }
            if at_most_once(rules, rule) && left.contains(rule) {
                let i = choose|i: int| 0 <= i < left.len() && left[i] == rule;
                assert(rules[0] == rule && rules[i + 1] == rule);
            }
            if at_most_once(rules, other) {
                assert forall|i: int, j: int| 0 <= i < j < left.len() implies !(
                #[trigger] left[i] == other && #[trigger] left[j] == other) by {
                    assert(!(rules[i + 1] == other && rules[j + 1] == other));
                }
            }
            if other != rule && rules.contains(other) {
                let i = choose|i: int| 0 <= i < rules.len() && rules[i] == other;
                assert(left[i - 1] == other);
            }
        } else {
            let next = without_first(rest, rule);
            lemma_without_first(rest, rule, other);
            assert(left == seq![first] + next);
            assert forall|i: int| 0 <= i < next.len() implies next[i] == left[i + 1] by {}
            if left.contains(other) {
                let i = choose|i: int| 0 <= i < left.len() && left[i] == other;
                if i == 0 {
                    assert(rules[0] == other);
                } else {
                    assert(next[i - 1] == other);
                    let j = choose|j: int| 0 <= j < rest.len() && rest[j] == other;
                    assert(rules[j + 1] == other);
                }
            }
            if at_most_once(rules, rule) {
                assert forall|i: int, j: int| 0 <= i < j < rest.len() implies !(
                #[trigger] rest[i] == rule && #[trigger] rest[j] == rule) by {
                    assert(!(rules[i + 1] == rule && rules[j + 1] == rule));
                }
                if left.contains(rule) {
                    let i = choose|i: int| 0 <= i < left.len() && left[i] == rule;
                    assert(next[i - 1] == rule);
                }
            }
            if at_most_once(rules, other) {
                assert forall|i: int, j: int| 0 <= i < j < rest.len() implies !(
                #[trigger] rest[i] == other && #[trigger] rest[j] == other) by {
                    assert(!(rules[i + 1] == other && rules[j + 1] == other));
                }
                assert(at_most_once(next, other));
                assert forall|i: int, j: int| 0 <= i < j < left.len() implies !(
                #[trigger] left[i] == other && #[trigger] left[j] == other) by {
                    if i == 0 {
                        if left[0] == other && left[j] == other {
                            assert(next[j - 1] == other);
                            let k = choose|k: int| 0 <= k < rest.len() && rest[k] == other;
                            assert(rules[0] == other && rules[k + 1] == other);
                        }
                    } else {
                        assert(!(next[i - 1] == other && next[j - 1] == other));
                    }
                }
            }
            if other != rule && rules.contains(other) {
                let i = choose|i: int| 0 <= i < rules.len() && rules[i] == other;
                if i == 0 {
                    assert(left[0] == other);
                } else {
                    assert(rest[i - 1] == other);
                    let j = choose|j: int| 0 <= j < next.len() && next[j] == other;
                    assert(left[j + 1] == other);
                }
            }
        }
    }
}

/// Whether rules are some of others: none is new, and none stands there twice that stood there
/// once.
pub open spec fn are_some_of(rules: Seq<Seq<Seq<char>>>, all: Seq<Seq<Seq<char>>>) -> bool {
    &&& forall|rule: Seq<Seq<char>>| #[trigger] rules.contains(rule) ==> all.contains(rule)
    &&& forall|rule: Seq<Seq<char>>| at_most_once(all, rule) ==> #[trigger] at_most_once(rules, rule)
}

/// Whether all rules that do not lead into a chain are kept.
pub open spec fn keeps_others(
    rules: Seq<Seq<Seq<char>>>,
    all: Seq<Seq<Seq<char>>>,
    chain: Seq<char>,
) -> bool {
    forall|rule: Seq<Seq<char>>|
        all.contains(rule) && !jumps_to(rule, chain) ==> #[trigger] rules.contains(rule)
}

proof fn lemma_removed(rules: Seq<Seq<Seq<char>>>, rule: Seq<Seq<char>>, chain: Seq<char>)
    requires
        jumps_to(rule, chain),
    ensures
        are_some_of(without_first(rules, rule), rules),
        keeps_others(without_first(rules, rule), rules, chain),
        at_most_once(rules, rule) ==> !without_first(rules, rule).contains(rule),
{
    let left = without_first(rules, rule);
    assert forall|other: Seq<Seq<char>>| #[trigger] left.contains(other) implies rules.contains(
        other,
    ) by {
        lemma_without_first(rules, rule, other);
    }
    assert forall|other: Seq<Seq<char>>| at_most_once(rules, other) implies #[trigger] at_most_once(
        left,
        other,
    ) by {
        lemma_without_first(rules, rule, other);
    }
    assert forall|other: Seq<Seq<char>>|
        rules.contains(other) && !jumps_to(other, chain) implies #[trigger] left.contains(
        other,
    ) by {
        lemma_without_first(rules, rule, other);
    }
    lemma_without_first(rules, rule, rule);
}

proof fn lemma_hook_jumps(end: Seq<char>, ip: Seq<char>, chain: Seq<char>)
    ensures
        jumps_to(hook_rule(end, ip, chain), chain),
        jumps_to(seq!["-j"@, chain], chain),
{
    let rule = hook_rule(end, ip, chain);
    assert(rule[2] == "-j"@ && rule[3] == chain);
    let bare = seq!["-j"@, chain];
    assert(bare[0] == "-j"@ && bare[1] == chain);
}

proof fn lemma_unhooked(tables: Tables, ips: Seq<Seq<char>>, chain: Seq<char>)
    ensures
        ({
            let after = after_calls(tables, unhook_plan(ips, chain));
            &&& after.chains == tables.chains
            &&& are_some_of(after.forward, tables.forward)
            &&& keeps_others(after.forward, tables.forward, chain)
            &&& forall|k: int, end: Seq<char>|
                0 <= k < ips.len() && (end == "-s"@ || end == "-d"@) && at_most_once(
                    tables.forward,
                    hook_rule(end, ips[k], chain),
                ) ==> !after.forward.contains(#[trigger] hook_rule(end, ips[k], chain))
        }),
    decreases ips.len(),
{
    if ips.len() > 0 {
        let ip = ips.last();
        let before = ips.drop_last();
        let (s, d) = (hook_rule("-s"@, ip, chain), hook_rule("-d"@, ip, chain));
        let last = seq![unhook("-s"@, ip, chain), unhook("-d"@, ip, chain)];
        lemma_unhooked(tables, before, chain);
        lemma_after_both(tables, unhook_plan(before, chain), last);
        let middle = after_calls(tables, unhook_plan(before, chain));
        lemma_after_two(middle, last[0], last[1]);
        lemma_calls(middle, "-s"@, ip, chain, false);
        let half = called(middle, last[0].args);
        lemma_calls(half, "-d"@, ip, chain, false);
        let after = called(half, last[1].args);
        lemma_hook_jumps("-s"@, ip, chain);
        lemma_hook_jumps("-d"@, ip, chain);
        lemma_removed(middle.forward, s, chain);
        lemma_removed(half.forward, d, chain);
        assert forall|k: int, end: Seq<char>|
            0 <= k < ips.len() && (end == "-s"@ || end == "-d"@) && at_most_once(
                tables.forward,
                hook_rule(end, ips[k], chain),
            ) implies !after.forward.contains(#[trigger] hook_rule(end, ips[k], chain)) by {
            if k < before.len() {
                assert(before[k] == ips[k]);
                assert(!middle.forward.contains(hook_rule(end, before[k], chain)));
            } else if end == "-s"@ {
                assert(at_most_once(middle.forward, s));
                assert(!half.forward.contains(s));
            } else {
                assert(at_most_once(half.forward, d));
            }
        }
    }
}

/// Whether a rule is a hook of a chain for one of the addresses.
pub open spec fn is_hook_for(rule: Seq<Seq<char>>, ips: Seq<Seq<char>>, chain: Seq<char>) -> bool {
    exists|k: int|
        0 <= k < ips.len() && (rule == hook_rule("-s"@, #[trigger] ips[k], chain) || rule
            == hook_rule("-d"@, ips[k], chain))
}

/// Whether every rule that leads into a chain is a hook for one of the addresses, and stands
/// there once.
pub open spec fn is_hooked_for(
    rules: Seq<Seq<Seq<char>>>,
    ips: Seq<Seq<char>>,
    chain: Seq<char>,
) -> bool {
    forall|i: int|
        0 <= i < rules.len() && jumps_to(#[trigger] rules[i], chain) ==> at_most_once(
            rules,
            rules[i],
        ) && is_hook_for(rules[i], ips, chain)
}

proof fn lemma_swept_one(tables: Tables, ips: Seq<Seq<char>>, chain: Seq<char>)
    requires
        is_hooked_for(tables.forward, ips, chain),
    ensures
        ({
            let after = after_calls(tables, sweep_one(ips, chain));
            &&& none_jumps_to(after.forward, chain)
            &&& after.chains == tables.chains.remove(chain)
            &&& are_some_of(after.forward, tables.forward)
            &&& keeps_others(after.forward, tables.forward, chain)
        }),
{
    let last = seq![flush(chain, false), delete_chain(chain)];
    let first = seq![unhook_all(chain)];
    lemma_after_both(tables, first + unhook_plan(ips, chain), last);
    lemma_after_both(tables, first, unhook_plan(ips, chain));
    lemma_after_one(tables, first[0]);
    lemma_calls(tables, "-s"@, chain, chain, false);
    lemma_hook_jumps("-s"@, chain, chain);
    let bare = called(tables, first[0].args);
    lemma_removed(tables.forward, seq!["-j"@, chain], chain);
    lemma_unhooked(bare, ips, chain);
    let clear = after_calls(bare, unhook_plan(ips, chain));
    assert forall|i: int| 0 <= i < clear.forward.len() implies !jumps_to(
        #[trigger] clear.forward[i],
        chain,
    ) by {
        let rule = clear.forward[i];
        if jumps_to(rule, chain) {
            assert(clear.forward.contains(rule));
            assert(bare.forward.contains(rule));
            assert(tables.forward.contains(rule));
            let j = choose|j: int| 0 <= j < tables.forward.len() && tables.forward[j] == rule;
            assert(at_most_once(tables.forward, tables.forward[j]));
            assert(at_most_once(bare.forward, rule));
            let k = choose|k: int|
                0 <= k < ips.len() && (rule == hook_rule("-s"@, #[trigger] ips[k], chain) || rule
                    == hook_rule("-d"@, ips[k], chain));
            if rule == hook_rule("-s"@, ips[k], chain) {
                assert(!clear.forward.contains(hook_rule("-s"@, ips[k], chain)));
            } else {
                assert(!clear.forward.contains(hook_rule("-d"@, ips[k], chain)));
            }
        }
    }
    lemma_after_two(clear, last[0], last[1]);
    lemma_calls(clear, "-s"@, chain, chain, false);
    let emptied = called(clear, last[0].args);
    lemma_calls(emptied, "-s"@, chain, chain, false);
    let after = called(emptied, last[1].args);
    assert(after.chains =~= tables.chains.remove(chain));
}

/// After all chains of the daemon have been taken away, none of them is there, and no rule of
/// FORWARD leads into one; what leads elsewhere stays. The hooks of the chains are for addresses
/// that are known, each one of a kind, as making the chains leaves them.
pub proof fn law_sweep_unhooks(
    tables: Tables,
    ips: Seq<Seq<char>>,
    chains: Seq<Seq<char>>,
    chain: Seq<char>,
    rule: Seq<Seq<char>>,
)
    requires
        forall|i: int|
            0 <= i < chains.len() ==> is_hooked_for(tables.forward, ips, #[trigger] chains[i]),
    ensures
        ({
            let after = after_calls(tables, sweep_plan(ips, chains));
            &&& are_some_of(after.forward, tables.forward)
            &&& chains.contains(chain) ==> none_jumps_to(after.forward, chain)
                && !after.chains.contains_key(chain)
            &&& !chains.contains(chain) ==> after.chains.contains_key(chain)
                == tables.chains.contains_key(chain)
            &&& tables.forward.contains(rule) && (forall|i: int|
                0 <= i < chains.len() ==> !jumps_to(rule, #[trigger] chains[i]))
                ==> after.forward.contains(rule)
        }),
    decreases chains.len(),
{
    if chains.len() > 0 {
        let before = chains.drop_last();
        let last = chains.last();
        assert forall|i: int| 0 <= i < before.len() implies is_hooked_for(
            tables.forward,
            ips,
            #[trigger] before[i],
        ) by {
            assert(before[i] == chains[i]);
        }
        law_sweep_unhooks(tables, ips, before, chain, rule);
        lemma_after_both(tables, sweep_plan(ips, before), sweep_one(ips, last));
        let middle = after_calls(tables, sweep_plan(ips, before));
        assert(is_hooked_for(tables.forward, ips, chains[chains.len() - 1]));
        lemma_still_hooked(middle.forward, tables.forward, ips, last);
        lemma_swept_one(middle, ips, last);
        let after = after_calls(middle, sweep_one(ips, last));
        if chains.contains(chain) && chain != last {
            let i = choose|i: int| 0 <= i < chains.len() && chains[i] == chain;
            assert(before[i] == chain);
            assert(none_jumps_to(middle.forward, chain));
            assert forall|i: int| 0 <= i < after.forward.len() implies !jumps_to(
                #[trigger] after.forward[i],
                chain,
            ) by {
                assert(after.forward.contains(after.forward[i]));
                let j = choose|j: int|
                    0 <= j < middle.forward.len() && middle.forward[j] == after.forward[i];
                assert(!jumps_to(middle.forward[j], chain));
            }
        }
        if !chains.contains(chain) {
            assert(chains[chains.len() - 1] == last);
            assert forall|i: int| 0 <= i < before.len() implies before[i] != chain by {
                assert(chains[i] != chain);
            }
        }
        if tables.forward.contains(rule) && (forall|i: int|
            0 <= i < chains.len() ==> !jumps_to(rule, #[trigger] chains[i])) {
            assert forall|i: int| 0 <= i < before.len() implies !jumps_to(
                rule,
                #[trigger] before[i],
            ) by {
                assert(before[i] == chains[i]);
            }
            assert(!jumps_to(rule, chains[chains.len() - 1]));
            assert(middle.forward.contains(rule));
        }
    }
}

proof fn lemma_still_hooked(
    rules: Seq<Seq<Seq<char>>>,
    all: Seq<Seq<Seq<char>>>,
    ips: Seq<Seq<char>>,
    chain: Seq<char>,
)
    requires
        are_some_of(rules, all),
        is_hooked_for(all, ips, chain),
    ensures
        is_hooked_for(rules, ips, chain),
{
    assert forall|i: int|
        0 <= i < rules.len() && jumps_to(#[trigger] rules[i], chain) implies at_most_once(
        rules,
        rules[i],
    ) && is_hook_for(rules[i], ips, chain) by {
        assert(rules.contains(rules[i]));
        let j = choose|j: int| 0 <= j < all.len() && all[j] == rules[i];
        assert(at_most_once(all, all[j]));
    }
}

/// The tables after the chains of containers were made, in order, for their addresses.
pub open spec fn after_inits(tables: Tables, made: Seq<(Seq<char>, Seq<char>)>) -> Tables
    decreases made.len(),
{
    if made.len() == 0 {
        tables
    } else {
        after_calls(
            after_inits(tables, made.drop_last()),
            init_plan(made.last().0, made.last().1),
        )
    }
}

proof fn lemma_hooked_anew(
    tables: Tables,
    chain: Seq<char>,
    ip: Seq<char>,
    ips: Seq<Seq<char>>,
    other: Seq<char>,
)
    requires
        is_hooked_for(tables.forward, ips, chain),
        is_hooked_for(tables.forward, ips, other),
        ips.contains(ip),
        ip != "-j"@,
    ensures
        is_hooked_for(after_calls(tables, init_plan(chain, ip)).forward, ips, other),
{
    let (s, d) = (hook_rule("-s"@, ip, chain), hook_rule("-d"@, ip, chain));
    let old = tables.forward;
    let half = without_first(old, s);
    let rest = without_first(half, d);
    let new = seq![d, s] + rest;
    lemma_init_calls(tables, chain, ip);
    lemma_names();
    assert(d[0] == "-d"@ && s[0] == "-s"@);
    lemma_hook_jumps("-s"@, ip, chain);
    lemma_hook_jumps("-d"@, ip, chain);
    lemma_removed(old, s, chain);
    lemma_removed(half, d, chain);
    lemma_once(old, s, ips, chain);
    lemma_once(old, d, ips, chain);
    assert(at_most_once(half, d));
    assert(!half.contains(s) && !rest.contains(d));
    assert(!rest.contains(s));
    assert forall|i: int|
        0 <= i < new.len() && jumps_to(#[trigger] new[i], other) implies at_most_once(new, new[i])
        && is_hook_for(new[i], ips, other) by {
        let rule = new[i];
        if i < 2 {
            lemma_hook_target(rule[0], ip, chain, other);
            let k = choose|k: int| 0 <= k < ips.len() && ips[k] == ip;
            assert(rule == hook_rule("-s"@, ips[k], other) || rule == hook_rule(
                "-d"@,
                ips[k],
                other,
            ));
        } else {
            assert(rest[i - 2] == rule);
            assert(rest.contains(rule));
            assert(half.contains(rule));
            assert(old.contains(rule));
            let j = choose|j: int| 0 <= j < old.len() && old[j] == rule;
            assert(at_most_once(old, old[j]));
            assert(at_most_once(half, rule) && at_most_once(rest, rule));
        }
        assert forall|a: int, b: int| 0 <= a < b < new.len() implies !(#[trigger] new[a] == rule
            && #[trigger] new[b] == rule) by {
            if a >= 2 {
                assert(rest[a - 2] == new[a] && rest[b - 2] == new[b]);
                if new[a] == rule && new[b] == rule {
                    assert(rest.contains(rule));
                    assert(rule != s && rule != d);
                    assert(i >= 2);
                }
            } else if b >= 2 {
                if new[a] == rule && new[b] == rule {
                    assert(rest[b - 2] == rule);
                    assert(rest.contains(rule));
                }
            }
        }
    }
}

/// A hook of a chain for an address leads into no other chain.
proof fn lemma_hook_target(end: Seq<char>, ip: Seq<char>, chain: Seq<char>, other: Seq<char>)
    requires
        end == "-s"@ || end == "-d"@,
        ip != "-j"@,
        jumps_to(hook_rule(end, ip, chain), other),
    ensures
        other == chain,
{
    let rule = hook_rule(end, ip, chain);
    reveal_strlit("-s");
    reveal_strlit("-d");
    reveal_strlit("-j");
    assert("-s"@[1] == 's' && "-d"@[1] == 'd' && "-j"@[1] == 'j');
    let i = choose|i: int|
        0 <= i < rule.len() - 1 && #[trigger] rule[i] == "-j"@ && rule[i + 1] == other;
    assert(i == 2);
}

proof fn lemma_once(
    rules: Seq<Seq<Seq<char>>>,
    rule: Seq<Seq<char>>,
    ips: Seq<Seq<char>>,
    chain: Seq<char>,
)
    requires
        is_hooked_for(rules, ips, chain),
        jumps_to(rule, chain),
    ensures
        at_most_once(rules, rule),
{
    assert forall|i: int, j: int| 0 <= i < j < rules.len() implies !(#[trigger] rules[i] == rule
        && #[trigger] rules[j] == rule) by {
        if rules[i] == rule {
            assert(at_most_once(rules, rules[i]));
        }
    }
}

proof fn lemma_hooked_after_inits(
    tables: Tables,
    made: Seq<(Seq<char>, Seq<char>)>,
    ips: Seq<Seq<char>>,
    chains: Seq<Seq<char>>,
    i: int,
)
    requires
        forall|i: int| 0 <= i < chains.len() ==> none_jumps_to(tables.forward, #[trigger] chains[i]),
        forall|k: int|
            0 <= k < made.len() ==> chains.contains((#[trigger] made[k]).0) && ips.contains(
                made[k].1,
            ) && made[k].1 != "-j"@,
        0 <= i < chains.len(),
    ensures
        is_hooked_for(after_inits(tables, made).forward, ips, chains[i]),
    decreases made.len(),
{
    if made.len() > 0 {
        let before = made.drop_last();
        let (chain, ip) = made.last();
        assert(made[made.len() - 1] == made.last());
        assert forall|k: int| 0 <= k < before.len() implies chains.contains((#[trigger] before[k]).0)
            && ips.contains(before[k].1) && before[k].1 != "-j"@ by {
            assert(before[k] == made[k]);
        }
        let c = choose|c: int| 0 <= c < chains.len() && chains[c] == chain;
        lemma_hooked_after_inits(tables, before, ips, chains, i);
        lemma_hooked_after_inits(tables, before, ips, chains, c);
        lemma_hooked_anew(after_inits(tables, before), chain, ip, ips, chains[i]);
    } else {
        assert(none_jumps_to(tables.forward, chains[i]));
    }
}

/// Where the chains of containers were made for addresses that are known, any number of times and
/// in any order, taking all chains away leaves none of them, and no rule of FORWARD that leads
/// into one.
pub proof fn law_sweep_undoes_inits(
    tables: Tables,
    made: Seq<(Seq<char>, Seq<char>)>,
    ips: Seq<Seq<char>>,
    chains: Seq<Seq<char>>,
    chain: Seq<char>,
)
    requires
        forall|i: int| 0 <= i < chains.len() ==> none_jumps_to(tables.forward, #[trigger] chains[i]),
        forall|k: int|
            0 <= k < made.len() ==> chains.contains((#[trigger] made[k]).0) && ips.contains(
                made[k].1,
            ) && made[k].1 != "-j"@,
        chains.contains(chain),
    ensures
        ({
            let after = after_calls(after_inits(tables, made), sweep_plan(ips, chains));
            none_jumps_to(after.forward, chain) && !after.chains.contains_key(chain)
        }),
{
    let full = after_inits(tables, made);
    assert forall|i: int| 0 <= i < chains.len() implies is_hooked_for(
        full.forward,
        ips,
        #[trigger] chains[i],
    ) by {
        lemma_hooked_after_inits(tables, made, ips, chains, i);
    }
    law_sweep_unhooks(full, ips, chains, chain, Seq::empty());
}

} // verus!

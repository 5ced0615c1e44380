//! From a policy to the BPF program that enforces it. The filter is put
//! together and compiled by `seccompiler`; what is proved here is that the
//! filter handed to it is the policy, and which error comes on which policy.

use crate::policy::{
    chain_map, lemma_chain_map_keys, sandbox_model, sandbox_policy, Action, Arch, ArgCondition, ArgWidth, Comparator,
    FilterModel, PolicyModel, RuleSet, SandboxPolicy, SyscallChain, SyscallRule,
};
use seccompiler::{
    BackendError, BpfProgram, SeccompAction, SeccompCmpArgLen, SeccompCmpOp, SeccompCondition,
    SeccompFilter, SeccompRule, TargetArch,
};
use std::collections::BTreeMap;
use vstd::prelude::*;

verus! {

/// The largest argument index of a system call.
pub const ARG_NUMBER_MAX: u8 = 5;

/// The length from which on a program is refused as too large.
pub const BPF_MAX_LEN: usize = 4096;

/// One instruction of a BPF program.
#[derive(Clone, Copy, Debug, PartialEq, Eq, Structural)]
pub struct BpfInstruction {
    pub code: u16,
    pub jt: u8,
    pub jf: u8,
    pub k: u32,
}

/// Why no program could be made of a policy.
#[derive(Clone, Copy, Debug, PartialEq, Eq, Structural)]
pub enum PolicyError {
    /// A rule has no conditions.
    EmptyRule,
    /// The program has this many instructions, which is too many.
    FilterTooLarge(usize),
    /// The action on a match and the action otherwise are the same.
    IdenticalActions,
    /// A condition names an argument beyond the sixth.
    InvalidArgumentNumber,
    /// The architecture is not one that a filter can be made for.
    InvalidTargetArch,
}

/// `seccompiler::SeccompCondition`, carried through as it is.
#[verifier::external_type_specification]
#[verifier::external_body]
pub struct ExSeccompCondition(SeccompCondition);

/// `seccompiler::SeccompRule`, carried through as it is.
#[verifier::external_type_specification]
#[verifier::external_body]
pub struct ExSeccompRule(SeccompRule);

/// `seccompiler::SeccompFilter`, carried through as it is.
#[verifier::external_type_specification]
#[verifier::external_body]
pub struct ExSeccompFilter(SeccompFilter);

/// `seccompiler::BackendError`, told apart by `error_kind`.
#[verifier::external_type_specification]
#[verifier::external_body]
pub struct ExBackendError(BackendError);

/// The condition that a `SeccompCondition` holds.
pub uninterp spec fn condition_of(c: SeccompCondition) -> ArgCondition;

/// The conditions that a `SeccompRule` holds, in their order.
pub uninterp spec fn rule_of(r: SeccompRule) -> Seq<ArgCondition>;

/// The chains, actions and architecture that a `SeccompFilter` holds.
pub uninterp spec fn filter_of(f: SeccompFilter) -> FilterModel;

/// The kind of a `seccompiler::BackendError`.
pub uninterp spec fn error_of(e: BackendError) -> PolicyError;

/// The instructions that `seccompiler` assembles for a filter, before it
/// looks at their number.
pub uninterp spec fn bpf_of(filter: FilterModel) -> Seq<BpfInstruction>;

/// `SeccompCondition::new`: it keeps the four values as given, and refuses
/// an argument index above 5 with `InvalidArgumentNumber`.
#[verifier::external_body]
fn new_condition(c: &ArgCondition) -> (r: Result<SeccompCondition, BackendError>)
    ensures
        c.arg_index <= ARG_NUMBER_MAX ==> r is Ok && condition_of(r->Ok_0) == *c,
        c.arg_index > ARG_NUMBER_MAX ==> r is Err && error_of(r->Err_0)
            == PolicyError::InvalidArgumentNumber,
{
    let width = match c.width {
        ArgWidth::Dword => SeccompCmpArgLen::Dword,
        ArgWidth::Qword => SeccompCmpArgLen::Qword,
    };
    let op = match c.op {
        Comparator::Eq => SeccompCmpOp::Eq,
        Comparator::Ge => SeccompCmpOp::Ge,
        Comparator::Gt => SeccompCmpOp::Gt,
        Comparator::Le => SeccompCmpOp::Le,
        Comparator::Lt => SeccompCmpOp::Lt,
        Comparator::MaskedEq(mask) => SeccompCmpOp::MaskedEq(mask),
        Comparator::Ne => SeccompCmpOp::Ne,
    };
    SeccompCondition::new(c.arg_index, width, op, c.value)
}

/// `SeccompRule::new`: it keeps the conditions as given, and refuses an
/// empty vector with `EmptyRule`.
#[verifier::external_body]
fn new_rule(conditions: Vec<SeccompCondition>) -> (r: Result<SeccompRule, BackendError>)
    ensures
        conditions.len() > 0 ==> r is Ok && rule_of(r->Ok_0) == conditions@.map_values(
            |c: SeccompCondition| condition_of(c),
        ),
        conditions.len() == 0 ==> r is Err && error_of(r->Err_0) == PolicyError::EmptyRule,
{
    SeccompRule::new(conditions)
}

/// The rules of a chain of `SeccompRule`s as mathematical data.
pub open spec fn rules_of(rules: Vec<SeccompRule>) -> RuleSet {
    rules@.map_values(|r: SeccompRule| rule_of(r))
}

/// `SeccompFilter::new`: it keeps the map, the two actions and the
/// architecture as given, and refuses two equal actions with
/// `IdenticalActions`.
#[verifier::external_body]
fn new_filter(
    rules: BTreeMap<i64, Vec<SeccompRule>>,
    mismatch_action: Action,
    match_action: Action,
    arch: Arch,
) -> (r: Result<SeccompFilter, BackendError>)
    ensures
        mismatch_action != match_action ==> r is Ok && filter_of(r->Ok_0) == (FilterModel {
            chains: rules@.map_values(|v: Vec<SeccompRule>| rules_of(v)),
            mismatch_action,
            match_action,
            arch,
        }),
        mismatch_action == match_action ==> r is Err && error_of(r->Err_0)
            == PolicyError::IdenticalActions,
{
    let mismatch = match mismatch_action {
        Action::Allow => SeccompAction::Allow,
        Action::Errno(errno) => SeccompAction::Errno(errno),
    };
    let matched = match match_action {
        Action::Allow => SeccompAction::Allow,
        Action::Errno(errno) => SeccompAction::Errno(errno),
    };
    let target = match arch {
        Arch::X86_64 => TargetArch::x86_64,
        Arch::Aarch64 => TargetArch::aarch64,
        Arch::Riscv64 => TargetArch::riscv64,
    };
    SeccompFilter::new(rules, mismatch, matched, target)
}

/// `BpfProgram::try_from(SeccompFilter)`: the program assembled for the
/// filter, or `FilterTooLarge` with its length where that is 4096 or more.
/// The assembly panics on a system-call number that does not fit `u32`,
/// which `requires` leaves out. (It also multiplies the number of conditions
/// of a rule by six in `usize`; no vector that fits in memory is that long.)
/// Each instruction is handed out as its four fields.
#[verifier::external_body]
fn compile_filter(filter: SeccompFilter) -> (r: Result<Vec<BpfInstruction>, BackendError>)
    requires
        forall|n: i64| #[trigger] filter_of(filter).chains.contains_key(n) ==> 0 <= n <= u32::MAX,
    ensures
        bpf_of(filter_of(filter)).len() < BPF_MAX_LEN ==> r is Ok && r->Ok_0@ == bpf_of(
            filter_of(filter),
        ),
        bpf_of(filter_of(filter)).len() >= BPF_MAX_LEN ==> r is Err && error_of(r->Err_0)
            == PolicyError::FilterTooLarge(bpf_of(filter_of(filter)).len() as usize),
{
    let program: BpfProgram = filter.try_into()?;
    Ok(
        program.into_iter().map(
            |i| BpfInstruction { code: i.code, jt: i.jt, jf: i.jf, k: i.k },
        ).collect(),
    )
}

/// Tells the variants of `seccompiler::BackendError` apart.
#[verifier::external_body]
fn error_kind(e: &BackendError) -> (kind: PolicyError)
    ensures
        kind == error_of(*e),
{
    match e {
        BackendError::EmptyRule => PolicyError::EmptyRule,
        BackendError::FilterTooLarge(len) => PolicyError::FilterTooLarge(*len),
        BackendError::IdenticalActions => PolicyError::IdenticalActions,
        BackendError::InvalidArgumentNumber => PolicyError::InvalidArgumentNumber,
        BackendError::InvalidTargetArch(_) => PolicyError::InvalidTargetArch,
    }
}

/// The error of a rule alone: an argument index that is out of range, or
/// else no conditions at all.
pub open spec fn rule_error(rule: Seq<ArgCondition>) -> Option<PolicyError> {
    if exists|i: int| 0 <= i < rule.len() && (#[trigger] rule[i]).arg_index > ARG_NUMBER_MAX {
        Some(PolicyError::InvalidArgumentNumber)
    } else if rule.len() == 0 {
        Some(PolicyError::EmptyRule)
    } else {
        None
    }
}

/// The error of the first rule that has one.
pub open spec fn rules_error(rules: RuleSet) -> Option<PolicyError>
    decreases rules.len(),
{
    if rules.len() == 0 {
        None
    } else {
        match rule_error(rules[0]) {
            Some(e) => Some(e),
            None => rules_error(rules.drop_first()),
        }
    }
}

/// The error of the first chain that has one.
pub open spec fn chains_error(chains: Seq<(i64, RuleSet)>) -> Option<PolicyError>
    decreases chains.len(),
{
    if chains.len() == 0 {
        None
    } else {
        match rules_error(chains[0].1) {
            Some(e) => Some(e),
            None => chains_error(chains.drop_first()),
        }
    }
}

/// Why no filter can be made of a policy, if so: the first error among its
/// rules, or else two equal actions.
pub open spec fn policy_error(policy: PolicyModel) -> Option<PolicyError> {
    match chains_error(policy.chains) {
        Some(e) => Some(e),
        None => if policy.mismatch_action == policy.match_action {
            Some(PolicyError::IdenticalActions)
        } else {
            None
        },
    }
}

/// Whether every system-call number of the policy fits `u32`.
pub open spec fn numbers_in_range(policy: PolicyModel) -> bool {
    forall|i: int| 0 <= i < policy.chains.len() ==> 0 <= (#[trigger] policy.chains[i]).0 <= u32::MAX
}

/// What compiling a policy gives: its error, or the program assembled for
/// it, or `FilterTooLarge` where that program is too long.
pub open spec fn compile_outcome(policy: PolicyModel) -> Result<Seq<BpfInstruction>, PolicyError> {
    match policy_error(policy) {
        Some(e) => Err(e),
        None => {
            let program = bpf_of(policy.filter());
            if program.len() < BPF_MAX_LEN {
                Ok(program)
            } else {
                Err(PolicyError::FilterTooLarge(program.len() as usize))
            }
        },
    }
}

fn build_rule(rule: &SyscallRule) -> (r: Result<SeccompRule, BackendError>)
    ensures
        match r {
            Ok(built) => rule_error(rule.model()) is None && rule_of(built) == rule.model(),
            Err(e) => rule_error(rule.model()) == Some(error_of(e)),
        },
{
    let mut built: Vec<SeccompCondition> = Vec::new();
    let mut i: usize = 0;
    while i < rule.conditions.len()
        invariant
            i <= rule.conditions.len(),
            built.len() == i,
            forall|k: int| 0 <= k < i ==> (#[trigger] rule.conditions@[k]).arg_index <= ARG_NUMBER_MAX,
            forall|k: int| 0 <= k < i ==> condition_of(#[trigger] built@[k]) == rule.conditions@[k],
        decreases rule.conditions.len() - i,
    {
        match new_condition(&rule.conditions[i]) {
            Ok(c) => {
                built.push(c);
            },
            Err(e) => {
                return Err(e);
            },
        }
        i = i + 1;
    }
    let ghost conditions = built@;
    let r = new_rule(built);
    proof {
        if r is Ok {
            assert(conditions.map_values(|c: SeccompCondition| condition_of(c)) =~= rule.model());
        }
    }
    r
}

fn build_rules(rules: &Vec<SyscallRule>) -> (r: Result<Vec<SeccompRule>, BackendError>)
    ensures
        match r {
            Ok(built) => rules_error(rules@.map_values(|r: SyscallRule| r.model())) is None
                && rules_of(built) == rules@.map_values(|r: SyscallRule| r.model()),
            Err(e) => rules_error(rules@.map_values(|r: SyscallRule| r.model())) == Some(
                error_of(e),
            ),
        },
{
    let ghost all = rules@.map_values(|r: SyscallRule| r.model());
    let mut built: Vec<SeccompRule> = Vec::new();
    let mut i: usize = 0;
    assert(all.skip(0) =~= all);
    while i < rules.len()
        invariant
            i <= rules.len(),
            all == rules@.map_values(|r: SyscallRule| r.model()),
            built.len() == i,
            rules_error(all) == rules_error(all.skip(i as int)),
            forall|k: int| 0 <= k < i ==> rule_of(#[trigger] built@[k]) == all[k],
        decreases rules.len() - i,
    {
        proof {
            assert(all.skip(i as int).drop_first() =~= all.skip(i + 1));
            assert(all.skip(i as int)[0] == rules@[i as int].model());
        }
        match build_rule(&rules[i]) {
            Ok(rule) => {
                built.push(rule);
            },
            Err(e) => {
                return Err(e);
            },
        }
        i = i + 1;
    }
    assert(rules_of(built) =~= all);
    Ok(built)
}

fn insert_chain(map: &mut BTreeMap<i64, Vec<SeccompRule>>, number: i64, rules: Vec<SeccompRule>)
    ensures
        final(map)@ == old(map)@.insert(number, rules),
{
    broadcast use vstd::laws_cmp::group_laws_cmp;

    map.insert(number, rules);
}

/// Puts the `seccompiler` filter of a policy together: condition by
/// condition, rule by rule, chain by chain, as the policy lists them.
fn build_filter(policy: &SandboxPolicy) -> (r: Result<SeccompFilter, BackendError>)
    ensures
        match r {
            Ok(filter) => policy_error(policy.model()) is None && filter_of(filter)
                == policy.model().filter(),
            Err(e) => policy_error(policy.model()) == Some(error_of(e)),
        },
{
    let ghost all = policy.model().chains;
    let ghost lift = |v: Vec<SeccompRule>| rules_of(v);
    let mut map: BTreeMap<i64, Vec<SeccompRule>> = BTreeMap::new();
    let mut i: usize = 0;
    proof {
        assert(all.skip(0) =~= all);
        assert(map@.map_values(lift) =~= chain_map(all.take(0)));
    }
    while i < policy.chains.len()
        invariant
            i <= policy.chains.len(),
            all == policy.model().chains,
            lift == (|v: Vec<SeccompRule>| rules_of(v)),
            chains_error(all) == chains_error(all.skip(i as int)),
            map@.map_values(lift) == chain_map(all.take(i as int)),
        decreases policy.chains.len() - i,
    {
        proof {
            assert(all.skip(i as int).drop_first() =~= all.skip(i + 1));
            assert(all.skip(i as int)[0] == policy.chains@[i as int].model());
            assert(all.take(i + 1).drop_last() =~= all.take(i as int));
        }
        let chain = &policy.chains[i];
        match build_rules(&chain.rules) {
            Ok(rules) => {
                let ghost before = map@;
                insert_chain(&mut map, chain.number, rules);
                proof {
                    assert(map@ == before.insert(chain.number, rules));
                    assert(map@.map_values(lift) =~= before.map_values(lift).insert(
                        chain.number,
                        rules_of(rules),
                    ));
                }
            },
            Err(e) => {
                return Err(e);
            },
        }
        i = i + 1;
    }
    proof {
        assert(all.take(i as int) =~= all);
    }
    new_filter(map, policy.mismatch_action, policy.match_action, policy.arch)
}

/// Compiles a policy into the BPF program that enforces it.
///
/// The call fails with the first error among the rules of the policy, then
/// with `IdenticalActions`, then with `FilterTooLarge`; otherwise it gives
/// the program that `seccompiler` assembles for the policy.
pub fn compile_policy(policy: &SandboxPolicy) -> (r: Result<Vec<BpfInstruction>, PolicyError>)
    requires
        numbers_in_range(policy.model()),
    ensures
        match r {
            Ok(program) => compile_outcome(policy.model()) == Ok::<
                Seq<BpfInstruction>,
                PolicyError,
            >(program@),
            Err(e) => compile_outcome(policy.model()) == Err::<Seq<BpfInstruction>, PolicyError>(e),
        },
{
    match build_filter(policy) {
        Err(e) => Err(error_kind(&e)),
        Ok(filter) => {
            proof {
                assert forall|n: i64| #[trigger]
                    filter_of(filter).chains.contains_key(n) implies 0 <= n <= u32::MAX by {
                    lemma_chain_map_keys(policy.model().chains, n);
                }
            }
            match compile_filter(filter) {
                Ok(program) => Ok(program),
                Err(e) => Err(error_kind(&e)),
            }
        },
    }
}

/// A chain has no error exactly when none of its rules has one.
pub proof fn lemma_rules_error_none(rules: RuleSet)
    ensures
        rules_error(rules) is None <==> forall|j: int|
            0 <= j < rules.len() ==> rule_error(#[trigger] rules[j]) is None,
    decreases rules.len(),
{
    if rules.len() > 0 {
        let rest = rules.drop_first();
        lemma_rules_error_none(rest);
        if rules_error(rules) is None {
            assert forall|j: int| 0 <= j < rules.len() implies rule_error(
                #[trigger] rules[j],
            ) is None by {
                if j > 0 {
                    assert(rules[j] == rest[j - 1]);
                }
            }
        } else if rule_error(rules[0]) is None {
            let j = choose|j: int| 0 <= j < rest.len() && !(rule_error(#[trigger] rest[j]) is None);
            assert(rules[j + 1] == rest[j]);
        }
    }
}

/// The chains have no error exactly when none of them has one.
pub proof fn lemma_chains_error_none(chains: Seq<(i64, RuleSet)>)
    ensures
        chains_error(chains) is None <==> forall|i: int|
            0 <= i < chains.len() ==> rules_error((#[trigger] chains[i]).1) is None,
    decreases chains.len(),
{
    if chains.len() > 0 {
        let rest = chains.drop_first();
        lemma_chains_error_none(rest);
        if chains_error(chains) is None {
            assert forall|i: int| 0 <= i < chains.len() implies rules_error(
                (#[trigger] chains[i]).1,
            ) is None by {
                if i > 0 {
                    assert(chains[i] == rest[i - 1]);
                }
            }
        } else if rules_error(chains[0].1) is None {
            let i = choose|i: int|
                0 <= i < rest.len() && !(rules_error((#[trigger] rest[i]).1) is None);
            assert(chains[i + 1] == rest[i]);
        }
    }
}

/// The sandbox policy can be made into a filter: its rules are in order,
/// its two actions differ, and its numbers fit `u32`.
pub proof fn lemma_sandbox_policy_valid(exec_path_addr: u64)
    ensures
        policy_error(sandbox_model(exec_path_addr)) is None,
        numbers_in_range(sandbox_model(exec_path_addr)),
{
    let chains = sandbox_model(exec_path_addr).chains;
    lemma_chains_error_none(chains);
    assert forall|i: int| 0 <= i < chains.len() implies rules_error(
        (#[trigger] chains[i]).1,
    ) is None by {
        let rules = chains[i].1;
        lemma_rules_error_none(rules);
        assert forall|j: int| 0 <= j < rules.len() implies rule_error(
            #[trigger] rules[j],
        ) is None by {
            assert(rules[j].len() == 1);
            assert(rules[j][0].arg_index <= 2);
        }
    }
}

/// The BPF program of the sandbox policy for the address at which the path
/// of the executable lies. Only the length of what `seccompiler` assembles
/// can stand in the way.
pub fn sandbox_program(exec_path_addr: u64) -> (r: Result<Vec<BpfInstruction>, PolicyError>)
    ensures
        match r {
            Ok(program) => program@ == bpf_of(sandbox_model(exec_path_addr).filter())
                && program@.len() < BPF_MAX_LEN,
            Err(e) => bpf_of(sandbox_model(exec_path_addr).filter()).len() >= BPF_MAX_LEN && e
                == PolicyError::FilterTooLarge(
                bpf_of(sandbox_model(exec_path_addr).filter()).len() as usize,
            ),
        },
{
    let policy = sandbox_policy(exec_path_addr);
    proof {
        lemma_sandbox_policy_valid(exec_path_addr);
    }
    compile_policy(&policy)
}

} // verus!

//! The system-call policy of the sandbox: its data, what it means for one
//! system call, and the policy that a judged subject runs under.

use vstd::prelude::*;

verus! {

pub const SYS_OPEN: i64 = 2;

pub const SYS_IOCTL: i64 = 16;

pub const SYS_SOCKET: i64 = 41;

pub const SYS_CLONE: i64 = 56;

pub const SYS_FORK: i64 = 57;

pub const SYS_VFORK: i64 = 58;

pub const SYS_EXECVE: i64 = 59;

pub const SYS_MKDIR: i64 = 83;

pub const SYS_RMDIR: i64 = 84;

pub const SYS_CREAT: i64 = 85;

pub const SYS_PRCTL: i64 = 157;

pub const SYS_CHROOT: i64 = 161;

pub const SYS_OPENAT: i64 = 257;

pub const SYS_EXECVEAT: i64 = 322;

/// Open flag: write only.
pub const O_WRONLY: u64 = 1;

/// Open flag: read and write.
pub const O_RDWR: u64 = 2;

/// Error number: operation not permitted.
pub const EPERM: u32 = 1;

/// How much of an argument a condition compares.
#[derive(Clone, Copy, Debug, PartialEq, Eq, Structural)]
pub enum ArgWidth {
    /// The low four bytes.
    Dword,
    /// All eight bytes.
    Qword,
}

/// The comparison of a condition.
#[derive(Clone, Copy, Debug, PartialEq, Eq, Structural)]
pub enum Comparator {
    Eq,
    Ge,
    Gt,
    Le,
    Lt,
    /// Equal under the mask.
    MaskedEq(u64),
    Ne,
}

/// One comparison of a system-call argument with an immediate.
#[derive(Clone, Copy, Debug, PartialEq, Eq, Structural)]
pub struct ArgCondition {
    pub arg_index: u8,
    pub width: ArgWidth,
    pub op: Comparator,
    pub value: u64,
}

/// What the kernel does with a system call.
#[derive(Clone, Copy, Debug, PartialEq, Eq, Structural)]
pub enum Action {
    /// The call goes through.
    Allow,
    /// The call fails with the error number.
    Errno(u32),
}

/// The architecture a filter is compiled for.
#[derive(Clone, Copy, Debug, PartialEq, Eq, Structural)]
pub enum Arch {
    X86_64,
    Aarch64,
    Riscv64,
}

/// A rule: it matches a call when all its conditions hold.
#[derive(Clone, Debug, PartialEq, Eq)]
pub struct SyscallRule {
    pub conditions: Vec<ArgCondition>,
}

/// The rules of one system call: the call matches when one rule matches, or
/// when there are no rules at all.
#[derive(Clone, Debug, PartialEq, Eq)]
pub struct SyscallChain {
    pub number: i64,
    pub rules: Vec<SyscallRule>,
}

/// A policy: the action for calls that match, the action for all others.
#[derive(Clone, Debug, PartialEq, Eq)]
pub struct SandboxPolicy {
    pub chains: Vec<SyscallChain>,
    pub mismatch_action: Action,
    pub match_action: Action,
    pub arch: Arch,
}

/// The rules of one call as mathematical data.
pub type RuleSet = Seq<Seq<ArgCondition>>;

/// A policy as mathematical data, its chains in the order they were given.
pub struct PolicyModel {
    pub chains: Seq<(i64, RuleSet)>,
    pub mismatch_action: Action,
    pub match_action: Action,
    pub arch: Arch,
}

/// A policy with its chains keyed by system-call number.
pub struct FilterModel {
    pub chains: Map<i64, RuleSet>,
    pub mismatch_action: Action,
    pub match_action: Action,
    pub arch: Arch,
}

impl SyscallRule {
    pub open spec fn model(self) -> Seq<ArgCondition> {
        self.conditions@
    }
}

impl SyscallChain {
    pub open spec fn model(self) -> (i64, RuleSet) {
        (self.number, self.rules@.map_values(|r: SyscallRule| r.model()))
    }
}

impl SandboxPolicy {
    pub open spec fn model(self) -> PolicyModel {
        PolicyModel {
            chains: self.chains@.map_values(|c: SyscallChain| c.model()),
            mismatch_action: self.mismatch_action,
            match_action: self.match_action,
            arch: self.arch,
        }
    }
}

/// The chains keyed by number; of two chains with one number the later stays.
pub open spec fn chain_map(chains: Seq<(i64, RuleSet)>) -> Map<i64, RuleSet>
    decreases chains.len(),
{
    if chains.len() == 0 {
        Map::empty()
    } else {
        chain_map(chains.drop_last()).insert(chains.last().0, chains.last().1)
    }
}

impl PolicyModel {
    pub open spec fn filter(self) -> FilterModel {
        FilterModel {
            chains: chain_map(self.chains),
            mismatch_action: self.mismatch_action,
            match_action: self.match_action,
            arch: self.arch,
        }
    }
}

/// The part of a value that a comparison of the given width reads.
pub open spec fn compared_part(width: ArgWidth, value: u64) -> u64 {
    match width {
        ArgWidth::Dword => value & 0xffff_ffff,
        ArgWidth::Qword => value,
    }
}

/// Whether a condition holds of the arguments of a call. A condition on an
/// argument that the call does not have holds of nothing.
pub open spec fn condition_holds(c: ArgCondition, args: Seq<u64>) -> bool {
    let arg = compared_part(c.width, args[c.arg_index as int]);
    let value = compared_part(c.width, c.value);
    c.arg_index < args.len() && match c.op {
        Comparator::Eq => arg == value,
        Comparator::Ge => arg >= value,
        Comparator::Gt => arg > value,
        Comparator::Le => arg <= value,
        Comparator::Lt => arg < value,
        Comparator::MaskedEq(mask) => arg & mask == value & mask,
        Comparator::Ne => arg != value,
    }
}

/// A rule matches when every one of its conditions holds.
pub open spec fn rule_matches(rule: Seq<ArgCondition>, args: Seq<u64>) -> bool {
    forall|i: int| 0 <= i < rule.len() ==> condition_holds(#[trigger] rule[i], args)
}

/// A chain matches when it is empty or one of its rules matches.
pub open spec fn chain_matches(rules: RuleSet, args: Seq<u64>) -> bool {
    rules.len() == 0 || exists|j: int| 0 <= j < rules.len() && rule_matches(#[trigger] rules[j], args)
}

/// What a filter decides for the call `number` with the arguments `args`.
pub open spec fn decision(filter: FilterModel, number: i64, args: Seq<u64>) -> Action {
    if filter.chains.contains_key(number) && chain_matches(filter.chains[number], args) {
        filter.match_action
    } else {
        filter.mismatch_action
    }
}

/// The condition "the flag word, masked with `flag`, equals `flag`".
pub open spec fn flag_condition(arg_index: u8, flag: u64) -> ArgCondition {
    ArgCondition {
        arg_index,
        width: ArgWidth::Dword,
        op: Comparator::MaskedEq(flag),
        value: flag,
    }
}

/// The two rules that match an open for writing: read-write, or write-only.
pub open spec fn write_open_rules(flags_index: u8) -> RuleSet {
    seq![seq![flag_condition(flags_index, O_RDWR)], seq![flag_condition(flags_index, O_WRONLY)]]
}

/// The rule that matches an `execve` of anything but the chosen path.
pub open spec fn foreign_exec_rules(exec_path_addr: u64) -> RuleSet {
    seq![
        seq![
            ArgCondition {
                arg_index: 0,
                width: ArgWidth::Qword,
                op: Comparator::Ne,
                value: exec_path_addr,
            },
        ],
    ]
}

/// The chains of the sandbox policy, in their order.
pub open spec fn sandbox_chains(exec_path_addr: u64) -> Seq<(i64, RuleSet)> {
    seq![
        (SYS_OPEN, write_open_rules(1)),
        (SYS_OPENAT, write_open_rules(2)),
        (SYS_EXECVE, foreign_exec_rules(exec_path_addr)),
        (SYS_EXECVEAT, Seq::empty()),
        (SYS_SOCKET, Seq::empty()),
        (SYS_FORK, Seq::empty()),
        (SYS_VFORK, Seq::empty()),
        (SYS_PRCTL, Seq::empty()),
        (SYS_IOCTL, Seq::empty()),
        (SYS_CLONE, Seq::empty()),
        (SYS_MKDIR, Seq::empty()),
        (SYS_RMDIR, Seq::empty()),
        (SYS_CREAT, Seq::empty()),
        (SYS_CHROOT, Seq::empty()),
    ]
}

/// The policy a subject runs under: everything is allowed but what the
/// chains match, and that fails with `EPERM`.
pub open spec fn sandbox_model(exec_path_addr: u64) -> PolicyModel {
    PolicyModel {
        chains: sandbox_chains(exec_path_addr),
        mismatch_action: Action::Allow,
        match_action: Action::Errno(EPERM),
        arch: Arch::X86_64,
    }
}

/// Whether a flag word asks for write access.
pub open spec fn opens_for_writing(flags: u64) -> bool {
    flags & O_RDWR == O_RDWR || flags & O_WRONLY == O_WRONLY
}

/// Whether the number is one of the calls that the sandbox always refuses.
pub open spec fn always_denied(number: i64) -> bool {
    number == SYS_EXECVEAT || number == SYS_SOCKET || number == SYS_FORK || number == SYS_VFORK
        || number == SYS_PRCTL || number == SYS_IOCTL || number == SYS_CLONE || number
        == SYS_MKDIR || number == SYS_RMDIR || number == SYS_CREAT || number == SYS_CHROOT
}

/// The calls that the sandbox refuses, said directly: the always refused
/// ones, an `open` or `openat` for writing, an `execve` of another path.
pub open spec fn sandbox_denies(exec_path_addr: u64, number: i64, args: Seq<u64>) -> bool {
    ||| always_denied(number)
    ||| number == SYS_OPEN && opens_for_writing(args[1])
    ||| number == SYS_OPENAT && opens_for_writing(args[2])
    ||| number == SYS_EXECVE && args[0] != exec_path_addr
}

/// The numbers that key the chains are numbers of the chains.
pub proof fn lemma_chain_map_keys(chains: Seq<(i64, RuleSet)>, number: i64)
    requires
        chain_map(chains).contains_key(number),
    ensures
        exists|i: int| 0 <= i < chains.len() && (#[trigger] chains[i]).0 == number,
    decreases chains.len(),
{
    if chains.len() > 0 {
        if chains.last().0 == number {
            assert(chains[chains.len() - 1].0 == number);
        } else {
            lemma_chain_map_keys(chains.drop_last(), number);
            let i = choose|i: int|
                0 <= i < chains.drop_last().len() && (#[trigger] chains.drop_last()[i]).0
                    == number;
            assert(chains[i].0 == number);
        }
    }
}

/// A number is keyed to the rules of the last chain that has it.
pub proof fn lemma_chain_map_last(chains: Seq<(i64, RuleSet)>, number: i64, i: int)
    requires
        0 <= i < chains.len(),
        chains[i].0 == number,
        forall|j: int| i < j < chains.len() ==> (#[trigger] chains[j]).0 != number,
    ensures
        chain_map(chains).contains_key(number),
        chain_map(chains)[number] == chains[i].1,
    decreases chains.len(),
{
    if i < chains.len() - 1 {
        let shorter = chains.drop_last();
        assert(chains[chains.len() - 1].0 != number);
        assert forall|j: int| i < j < shorter.len() implies (#[trigger] shorter[j]).0
            != number by {
            assert(shorter[j] == chains[j]);
        }
        lemma_chain_map_last(shorter, number, i);
    }
}

impl ArgCondition {
    /// Whether the condition holds of the arguments of a call.
    pub fn holds(&self, args: &[u64]) -> (r: bool)
        ensures
            r == condition_holds(*self, args@),
    {
        if self.arg_index as usize >= args.len() {
            return false;
        }
        let raw = args[self.arg_index as usize];
        let (arg, value) = match self.width {
            ArgWidth::Dword => (raw & 0xffff_ffff, self.value & 0xffff_ffff),
            ArgWidth::Qword => (raw, self.value),
        };
        match self.op {
            Comparator::Eq => arg == value,
            Comparator::Ge => arg >= value,
            Comparator::Gt => arg > value,
            Comparator::Le => arg <= value,
            Comparator::Lt => arg < value,
            Comparator::MaskedEq(mask) => arg & mask == value & mask,
            Comparator::Ne => arg != value,
        }
    }
}

impl SyscallRule {
    /// Whether the rule matches a call with these arguments.
    pub fn matches(&self, args: &[u64]) -> (r: bool)
        ensures
            r == rule_matches(self.model(), args@),
    {
        let mut i: usize = 0;
        while i < self.conditions.len()
            invariant
                i <= self.conditions.len(),
                forall|k: int| 0 <= k < i ==> condition_holds(#[trigger] self.conditions@[k], args@),
            decreases self.conditions.len() - i,
        {
            if !self.conditions[i].holds(args) {
                return false;
            }
            i = i + 1;
        }
        true
    }
}

impl SyscallChain {
    /// Whether the chain matches a call with these arguments.
    pub fn matches(&self, args: &[u64]) -> (r: bool)
        ensures
            r == chain_matches(self.model().1, args@),
    {
        let ghost rules = self.model().1;
        if self.rules.len() == 0 {
            return true;
        }
        let mut j: usize = 0;
        while j < self.rules.len()
            invariant
                j <= self.rules.len(),
                rules == self.model().1,
                rules.len() == self.rules.len(),
                forall|k: int| 0 <= k < j ==> !rule_matches(#[trigger] rules[k], args@),
            decreases self.rules.len() - j,
        {
            assert(rules[j as int] == self.rules@[j as int].model());
            if self.rules[j].matches(args) {
                return true;
            }
            j = j + 1;
        }
        false
    }
}

impl SandboxPolicy {
    /// What the policy decides for the call `number` with the arguments
    /// `args`: the action on a match where the chain of that number
    /// matches, the other action where it does not or where there is none.
    pub fn decide(&self, number: i64, args: &[u64]) -> (action: Action)
        ensures
            action == decision(self.model().filter(), number, args@),
    {
        let ghost chains = self.model().chains;
        let mut i: usize = self.chains.len();
        while i > 0
            invariant
                i <= self.chains.len(),
                chains == self.model().chains,
                chains.len() == self.chains.len(),
                forall|j: int| i <= j < chains.len() ==> (#[trigger] chains[j]).0 != number,
            decreases i,
        {
            i = i - 1;
            assert(chains[i as int] == self.chains@[i as int].model());
            if self.chains[i].number == number {
                proof {
                    lemma_chain_map_last(chains, number, i as int);
                }
                return if self.chains[i].matches(args) {
                    self.match_action
                } else {
                    self.mismatch_action
                };
            }
        }
        proof {
            if chain_map(chains).contains_key(number) {
                lemma_chain_map_keys(chains, number);
            }
        }
        self.mismatch_action
    }
}

fn flag_rule(flags_index: u8, flag: u64) -> (rule: SyscallRule)
    ensures
        rule.model() == seq![flag_condition(flags_index, flag)],
{
    let mut conditions: Vec<ArgCondition> = Vec::new();
    conditions.push(
        ArgCondition {
            arg_index: flags_index,
            width: ArgWidth::Dword,
            op: Comparator::MaskedEq(flag),
            value: flag,
        },
    );
    assert(conditions@ =~= seq![flag_condition(flags_index, flag)]);
    SyscallRule { conditions }
}

fn write_open_chain(number: i64, flags_index: u8) -> (chain: SyscallChain)
    ensures
        chain.model() == (number, write_open_rules(flags_index)),
{
    let mut rules: Vec<SyscallRule> = Vec::new();
    rules.push(flag_rule(flags_index, O_RDWR));
    rules.push(flag_rule(flags_index, O_WRONLY));
    assert(rules@.map_values(|r: SyscallRule| r.model()) =~= write_open_rules(flags_index));
    SyscallChain { number, rules }
}

fn foreign_exec_chain(exec_path_addr: u64) -> (chain: SyscallChain)
    ensures
        chain.model() == (SYS_EXECVE, foreign_exec_rules(exec_path_addr)),
{
    let mut conditions: Vec<ArgCondition> = Vec::new();
    conditions.push(
        ArgCondition {
            arg_index: 0,
            width: ArgWidth::Qword,
            op: Comparator::Ne,
            value: exec_path_addr,
        },
    );
    let mut rules: Vec<SyscallRule> = Vec::new();
    rules.push(SyscallRule { conditions });
    assert(rules@.map_values(|r: SyscallRule| r.model()) =~= foreign_exec_rules(exec_path_addr));
    SyscallChain { number: SYS_EXECVE, rules }
}

fn deny_chain(number: i64) -> (chain: SyscallChain)
    ensures
        chain.model() == (number, Seq::<Seq<ArgCondition>>::empty()),
{
    let rules: Vec<SyscallRule> = Vec::new();
    assert(rules@.map_values(|r: SyscallRule| r.model()) =~= Seq::<Seq<ArgCondition>>::empty());
    SyscallChain { number, rules }
}

/// The policy under which a subject runs, for the address at which the
/// path of the executable lies: the only path that `execve` may name.
pub fn sandbox_policy(exec_path_addr: u64) -> (policy: SandboxPolicy)
    ensures
        policy.model() == sandbox_model(exec_path_addr),
{
    let mut chains: Vec<SyscallChain> = Vec::new();
    chains.push(write_open_chain(SYS_OPEN, 1));
    chains.push(write_open_chain(SYS_OPENAT, 2));
    chains.push(foreign_exec_chain(exec_path_addr));
    chains.push(deny_chain(SYS_EXECVEAT));
    chains.push(deny_chain(SYS_SOCKET));
    chains.push(deny_chain(SYS_FORK));
    chains.push(deny_chain(SYS_VFORK));
    chains.push(deny_chain(SYS_PRCTL));
    chains.push(deny_chain(SYS_IOCTL));
    chains.push(deny_chain(SYS_CLONE));
    chains.push(deny_chain(SYS_MKDIR));
    chains.push(deny_chain(SYS_RMDIR));
    chains.push(deny_chain(SYS_CREAT));
    chains.push(deny_chain(SYS_CHROOT));
    assert(chains@.map_values(|c: SyscallChain| c.model()) =~= sandbox_chains(exec_path_addr));
    SandboxPolicy {
        chains,
        mismatch_action: Action::Allow,
        match_action: Action::Errno(EPERM),
        arch: Arch::X86_64,
    }
}

/// The chains of the sandbox policy by number: no number occurs twice, so
/// each keeps its rules.
pub proof fn lemma_sandbox_chain_map(exec_path_addr: u64)
    ensures
        chain_map(sandbox_chains(exec_path_addr)) == Map::<i64, RuleSet>::new(
            |number: i64|
                always_denied(number) || number == SYS_OPEN || number == SYS_OPENAT || number
                    == SYS_EXECVE,
            |number: i64|
                if number == SYS_OPEN {
                    write_open_rules(1)
                } else if number == SYS_OPENAT {
                    write_open_rules(2)
                } else if number == SYS_EXECVE {
                    foreign_exec_rules(exec_path_addr)
                } else {
                    Seq::empty()
                },
        ),
{
    let chains = sandbox_chains(exec_path_addr);
    let c0 = chains.take(0);
    let c1 = chains.take(1);
    let c2 = chains.take(2);
    let c3 = chains.take(3);
    let c4 = chains.take(4);
    let c5 = chains.take(5);
    let c6 = chains.take(6);
    let c7 = chains.take(7);
    let c8 = chains.take(8);
    let c9 = chains.take(9);
    let c10 = chains.take(10);
    let c11 = chains.take(11);
    let c12 = chains.take(12);
    let c13 = chains.take(13);
    assert(c1.drop_last() =~= c0);
    assert(c2.drop_last() =~= c1);
    assert(c3.drop_last() =~= c2);
    assert(c4.drop_last() =~= c3);
    assert(c5.drop_last() =~= c4);
    assert(c6.drop_last() =~= c5);
    assert(c7.drop_last() =~= c6);
    assert(c8.drop_last() =~= c7);
    assert(c9.drop_last() =~= c8);
    assert(c10.drop_last() =~= c9);
    assert(c11.drop_last() =~= c10);
    assert(c12.drop_last() =~= c11);
    assert(c13.drop_last() =~= c12);
    assert(chains.drop_last() =~= c13);
    assert(chain_map(c0) =~= Map::<i64, RuleSet>::empty());
    assert(chain_map(c1) == chain_map(c0).insert(chains[0].0, chains[0].1));
    assert(chain_map(c2) == chain_map(c1).insert(chains[1].0, chains[1].1));
    assert(chain_map(c3) == chain_map(c2).insert(chains[2].0, chains[2].1));
    assert(chain_map(c4) == chain_map(c3).insert(chains[3].0, chains[3].1));
    assert(chain_map(c5) == chain_map(c4).insert(chains[4].0, chains[4].1));
    assert(chain_map(c6) == chain_map(c5).insert(chains[5].0, chains[5].1));
    assert(chain_map(c7) == chain_map(c6).insert(chains[6].0, chains[6].1));
    assert(chain_map(c8) == chain_map(c7).insert(chains[7].0, chains[7].1));
    assert(chain_map(c9) == chain_map(c8).insert(chains[8].0, chains[8].1));
    assert(chain_map(c10) == chain_map(c9).insert(chains[9].0, chains[9].1));
    assert(chain_map(c11) == chain_map(c10).insert(chains[10].0, chains[10].1));
    assert(chain_map(c12) == chain_map(c11).insert(chains[11].0, chains[11].1));
    assert(chain_map(c13) == chain_map(c12).insert(chains[12].0, chains[12].1));
    assert(chain_map(chains) == chain_map(c13).insert(chains[13].0, chains[13].1));
    assert(chain_map(chains) =~= Map::<i64, RuleSet>::new(
        |number: i64|
            always_denied(number) || number == SYS_OPEN || number == SYS_OPENAT || number
                == SYS_EXECVE,
        |number: i64|
            if number == SYS_OPEN {
                write_open_rules(1)
            } else if number == SYS_OPENAT {
                write_open_rules(2)
            } else if number == SYS_EXECVE {
                foreign_exec_rules(exec_path_addr)
            } else {
                Seq::empty()
            },
    ));
}

/// The rules for an open match exactly the flag words that ask for write
/// access.
pub proof fn lemma_write_open_rules(flags_index: u8, args: Seq<u64>)
    requires
        flags_index < args.len(),
    ensures
        chain_matches(write_open_rules(flags_index), args) == opens_for_writing(
            args[flags_index as int],
        ),
{
    let rules = write_open_rules(flags_index);
    let flags = args[flags_index as int];
    assert((flags & 0xffff_ffff) & 2 == (2u64 & 0xffff_ffff) & 2 <==> flags & 2 == 2)
        by (bit_vector);
    assert((flags & 0xffff_ffff) & 1 == (1u64 & 0xffff_ffff) & 1 <==> flags & 1 == 1)
        by (bit_vector);
    assert(rules[0][0] == flag_condition(flags_index, O_RDWR));
    assert(rules[1][0] == flag_condition(flags_index, O_WRONLY));
    assert(rule_matches(rules[0], args) == (flags & O_RDWR == O_RDWR));
    assert(rule_matches(rules[1], args) == (flags & O_WRONLY == O_WRONLY));
}

/// What the sandbox policy decides for every system call: the refused calls
/// fail with `EPERM`, and every other call is allowed.
pub proof fn lemma_sandbox_decision(exec_path_addr: u64, number: i64, args: Seq<u64>)
    requires
        args.len() == 6,
    ensures
        decision(sandbox_model(exec_path_addr).filter(), number, args) == (if sandbox_denies(
            exec_path_addr,
            number,
            args,
        ) {
            Action::Errno(EPERM)
        } else {
            Action::Allow
        }),
{
    lemma_sandbox_chain_map(exec_path_addr);
    lemma_write_open_rules(1, args);
    lemma_write_open_rules(2, args);
    let exec_rules = foreign_exec_rules(exec_path_addr);
    assert(rule_matches(exec_rules[0], args) == (args[0] != exec_path_addr)) by {
        assert(exec_rules[0][0].op == Comparator::Ne);
    }
}

} // verus!

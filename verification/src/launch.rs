//! What the launcher decides: whether its strings can be handed to the
//! system, on which side of a fork it stands, and in which order the child
//! prepares itself.

use vstd::prelude::*;

verus! {

/// One of the strings that a launch hands to the system.
#[derive(Clone, Copy, Debug, PartialEq, Eq, Structural)]
pub enum LaunchString {
    Executable,
    /// The argument with this index.
    Argument(usize),
    InputPath,
    OutputPath,
}

/// Why a launch failed.
#[derive(Clone, Copy, Debug, PartialEq, Eq, Structural)]
pub enum LaunchError {
    /// A string holds a zero byte, the first one at `position`.
    InteriorNul { which: LaunchString, position: usize },
    /// The system made no child.
    ForkFailed,
}

/// Where a process stands after a fork.
#[derive(Clone, Copy, Debug, PartialEq, Eq, Structural)]
pub enum ForkSide {
    /// In the child.
    Child,
    /// In the parent, which learns the child's process identifier.
    Parent(i32),
}

/// The standard stream that a file stands in for.
#[derive(Clone, Copy, Debug, PartialEq, Eq, Structural)]
pub enum Stream {
    Input,
    Output,
}

/// One step of the child between the fork and the subject's first
/// instruction.
#[derive(Clone, Copy, Debug, PartialEq, Eq, Structural)]
pub enum ChildStep {
    /// Open the file for the stream: read-only for input, write-only for
    /// output.
    Open(Stream),
    /// Close the standard descriptor of the stream.
    CloseStandard(Stream),
    /// Duplicate the opened descriptor onto the standard one.
    DuplicateOnto(Stream),
    /// Close the descriptor that was opened.
    CloseOpened(Stream),
    /// Install the system-call filter.
    InstallFilter,
    /// Replace the process image with the executable.
    ReplaceImage,
}

impl Stream {
    /// The standard descriptor of the stream: 0 for input, 1 for output.
    pub fn descriptor(&self) -> (fd: i32)
        ensures
            fd == (if *self == Stream::Input {
                0i32
            } else {
                1i32
            }),
    {
        match self {
            Stream::Input => 0,
            Stream::Output => 1,
        }
    }

    /// The flags to open the file of the stream with: read-only (0) for
    /// input, write-only (1) for output.
    pub fn open_flags(&self) -> (flags: i32)
        ensures
            flags == (if *self == Stream::Input {
                0i32
            } else {
                1i32
            }),
    {
        match self {
            Stream::Input => 0,
            Stream::Output => 1,
        }
    }
}

impl ChildStep {
    /// Whether the step rewires a descriptor.
    pub open spec fn rewires(self) -> bool {
        !(self is InstallFilter) && !(self is ReplaceImage)
    }
}

/// No byte of the string is zero.
pub open spec fn nul_free(bytes: Seq<u8>) -> bool {
    forall|i: int| 0 <= i < bytes.len() ==> bytes[i] != 0
}

/// The first zero byte of the string is at `position`.
pub open spec fn first_nul_at(bytes: Seq<u8>, position: int) -> bool {
    &&& 0 <= position < bytes.len()
    &&& bytes[position] == 0
    &&& forall|i: int| 0 <= i < position ==> bytes[i] != 0
}

/// The error names the string and the place of its first zero byte.
pub open spec fn names_nul(e: LaunchError, which: LaunchString, bytes: Seq<u8>) -> bool {
    e matches LaunchError::InteriorNul { which: w, position } && w == which && first_nul_at(
        bytes,
        position as int,
    )
}

/// The first `count` arguments hold no zero byte.
pub open spec fn args_nul_free(args: Seq<Vec<u8>>, count: int) -> bool {
    forall|i: int| 0 <= i < count ==> nul_free(#[trigger] args[i]@)
}

/// The error is the one of the first string with a zero byte, in the order
/// executable, arguments, input path, output path.
pub open spec fn launch_error(
    e: LaunchError,
    executable: Seq<u8>,
    args: Seq<Vec<u8>>,
    input_path: Seq<u8>,
    output_path: Seq<u8>,
) -> bool {
    ||| names_nul(e, LaunchString::Executable, executable)
    ||| nul_free(executable) && exists|i: int|
        0 <= i < args.len() && args_nul_free(args, i) && names_nul(
            e,
            LaunchString::Argument(i as usize),
            #[trigger] args[i]@,
        )
    ||| nul_free(executable) && args_nul_free(args, args.len() as int) && names_nul(
        e,
        LaunchString::InputPath,
        input_path,
    )
    ||| nul_free(executable) && args_nul_free(args, args.len() as int) && nul_free(input_path)
        && names_nul(e, LaunchString::OutputPath, output_path)
}

/// The steps of the child, in their order: standard input is rewired, then
/// standard output, then the filter is installed, then the image replaced.
pub open spec fn child_script() -> Seq<ChildStep> {
    seq![
        ChildStep::Open(Stream::Input),
        ChildStep::CloseStandard(Stream::Input),
        ChildStep::DuplicateOnto(Stream::Input),
        ChildStep::CloseOpened(Stream::Input),
        ChildStep::Open(Stream::Output),
        ChildStep::CloseStandard(Stream::Output),
        ChildStep::DuplicateOnto(Stream::Output),
        ChildStep::CloseOpened(Stream::Output),
        ChildStep::InstallFilter,
        ChildStep::ReplaceImage,
    ]
}

/// The place of the first zero byte of a string, if it has one.
pub fn find_nul(bytes: &[u8]) -> (found: Option<usize>)
    ensures
        match found {
            Some(position) => first_nul_at(bytes@, position as int),
            None => nul_free(bytes@),
        },
{
    let mut i: usize = 0;
    while i < bytes.len()
        invariant
            i <= bytes.len(),
            forall|k: int| 0 <= k < i ==> bytes@[k] != 0,
        decreases bytes.len() - i,
    {
        if bytes[i] == 0 {
            return Some(i);
        }
        i = i + 1;
    }
    None
}

/// Checks that the strings of a launch can be handed to the system, which
/// takes none with a zero byte in it. The strings are looked at in the
/// order executable, arguments, input path, output path, and the first
/// zero byte found is reported.
pub fn check_launch(
    executable: &[u8],
    args: &Vec<Vec<u8>>,
    input_path: &[u8],
    output_path: &[u8],
) -> (r: Result<(), LaunchError>)
    ensures
        match r {
            Ok(_) => nul_free(executable@) && args_nul_free(args@, args.len() as int) && nul_free(
                input_path@,
            ) && nul_free(output_path@),
            Err(e) => launch_error(e, executable@, args@, input_path@, output_path@),
        },
{
    if let Some(position) = find_nul(executable) {
        return Err(LaunchError::InteriorNul { which: LaunchString::Executable, position });
    }
    let mut i: usize = 0;
    while i < args.len()
        invariant
            i <= args.len(),
            nul_free(executable@),
            args_nul_free(args@, i as int),
        decreases args.len() - i,
    {
        if let Some(position) = find_nul(args[i].as_slice()) {
            return Err(LaunchError::InteriorNul { which: LaunchString::Argument(i), position });
        }
        i = i + 1;
    }
    if let Some(position) = find_nul(input_path) {
        return Err(LaunchError::InteriorNul { which: LaunchString::InputPath, position });
    }
    if let Some(position) = find_nul(output_path) {
        return Err(LaunchError::InteriorNul { which: LaunchString::OutputPath, position });
    }
    Ok(())
}

/// Reads what a fork returned: a negative number is a failure, zero is the
/// child, anything else is the child's identifier, seen from the parent.
pub fn fork_side(pid: i32) -> (r: Result<ForkSide, LaunchError>)
    ensures
        r == (if pid < 0 {
            Err::<ForkSide, LaunchError>(LaunchError::ForkFailed)
        } else if pid == 0 {
            Ok::<ForkSide, LaunchError>(ForkSide::Child)
        } else {
            Ok::<ForkSide, LaunchError>(ForkSide::Parent(pid))
        }),
{
    if pid < 0 {
        Err(LaunchError::ForkFailed)
    } else if pid == 0 {
        Ok(ForkSide::Child)
    } else {
        Ok(ForkSide::Parent(pid))
    }
}

/// The steps that the child takes, in their order.
pub fn child_steps() -> (steps: Vec<ChildStep>)
    ensures
        steps@ == child_script(),
{
    let mut steps: Vec<ChildStep> = Vec::new();
    steps.push(ChildStep::Open(Stream::Input));
    steps.push(ChildStep::CloseStandard(Stream::Input));
    steps.push(ChildStep::DuplicateOnto(Stream::Input));
    steps.push(ChildStep::CloseOpened(Stream::Input));
    steps.push(ChildStep::Open(Stream::Output));
    steps.push(ChildStep::CloseStandard(Stream::Output));
    steps.push(ChildStep::DuplicateOnto(Stream::Output));
    steps.push(ChildStep::CloseOpened(Stream::Output));
    steps.push(ChildStep::InstallFilter);
    steps.push(ChildStep::ReplaceImage);
    assert(steps@ =~= child_script());
    steps
}

/// In the child, every rewiring of a descriptor comes before the filter is
/// installed, and the filter is installed before the image is replaced; so
/// the filter need not allow the opens of the rewiring, and the subject's
/// first instruction runs under the filter.
pub proof fn lemma_child_order(i: int, j: int)
    requires
        0 <= i < child_script().len(),
        0 <= j < child_script().len(),
    ensures
        child_script()[i].rewires() && child_script()[j] is InstallFilter ==> i < j,
        child_script()[i] is InstallFilter && child_script()[j] is ReplaceImage ==> i < j,
        child_script()[i] is InstallFilter && child_script()[j] is InstallFilter ==> i == j,
        child_script()[child_script().len() - 1] is ReplaceImage,
{
}

} // verus!

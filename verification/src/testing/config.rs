//! The data of a test scenario, as its YAML file gives it.

use vstd::prelude::*;

verus! {

/// A complete test scenario.
#[derive(Debug)]
pub struct TestScenario {
    /// The scenario's name.
    pub name: String,
    /// What the scenario checks.
    pub description: Option<String>,
    /// Shell steps to run before the test (such as compiling).
    pub setup: Option<Vec<SetupStep>>,
    /// The program under test.
    pub target: TargetConfig,
    /// The steps, in order.
    pub steps: Vec<TestStep>,
}

/// A setup step.
#[derive(Debug)]
pub struct SetupStep {
    /// The shell command.
    pub shell: String,
}

/// The program under test.
#[derive(Debug)]
pub struct TargetConfig {
    /// Path of the program.
    pub program: String,
    /// Its arguments.
    pub args: Option<Vec<String>>,
    /// `launch` (the default) or `attach`.
    pub mode: String,
    /// The process to attach to.
    pub pid: Option<u32>,
    /// A file holding the process id to attach to.
    pub pid_file: Option<String>,
    /// The debug adapter to use.
    pub adapter: Option<String>,
    /// Whether to stop at the program's entry.
    pub stop_on_entry: bool,
}

/// The mode a target has when its file names none.
pub fn default_mode() -> (r: String)
    ensures
        r@ == "launch"@,
{
    String::from_str("launch")
}

/// One step of a scenario.
#[derive(Debug)]
pub enum TestStep {
    /// Run a debugger command.
    Command { command: String, expect: Option<CommandExpectation> },
    /// Wait for the program to stop.
    Await { timeout: Option<u64>, expect: Option<StopExpectation> },
    /// Check local variables.
    InspectLocals { asserts: Vec<VariableAssertion> },
    /// Check the call stack.
    InspectStack { asserts: Vec<FrameAssertion> },
    /// Check the program's output.
    CheckOutput { contains: Option<String>, equals: Option<String> },
    /// Evaluate an expression.
    Evaluate { expression: String, expect: Option<EvaluateExpectation> },
}

/// What a command step expects.
#[derive(Debug)]
pub struct CommandExpectation {
    /// Whether the command should succeed.
    pub success: Option<bool>,
    /// Text the output should hold.
    pub output_contains: Option<String>,
}

/// What an await step expects of the stop.
#[derive(Debug)]
pub struct StopExpectation {
    /// Part of the stop reason.
    pub reason: Option<String>,
    /// Part of the source file's path.
    pub file: Option<String>,
    /// The line.
    pub line: Option<u32>,
    /// The exit code, for an exit.
    pub exit_code: Option<i64>,
    /// The thread.
    pub thread_id: Option<i64>,
}

/// What a variable should look like.
#[derive(Debug)]
pub struct VariableAssertion {
    /// The variable's name.
    pub name: String,
    /// Its exact value.
    pub value: Option<String>,
    /// Part of its value.
    pub value_contains: Option<String>,
    /// Its type.
    pub value_type: Option<String>,
}

/// What a stack frame should look like.
#[derive(Debug)]
pub struct FrameAssertion {
    /// The frame's index, 0 being the innermost.
    pub index: usize,
    /// Part of the function's name.
    pub function: Option<String>,
    /// Part of the source file's path.
    pub file: Option<String>,
    /// The line.
    pub line: Option<u32>,
}

/// What an evaluation should give.
#[derive(Debug)]
pub struct EvaluateExpectation {
    /// Whether the evaluation should succeed (by default it should).
    pub success: Option<bool>,
    /// The exact result.
    pub result: Option<String>,
    /// Part of the result.
    pub result_contains: Option<String>,
    /// The result's type.
    pub value_type: Option<String>,
}

} // verus!

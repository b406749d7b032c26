//! How cargo is called: its arguments, and the variables of its environment.

use crate::config::Config;
use crate::report::{notices_view, Notice, NoticeView};
use crate::sequence::map_push;
use crate::text::{
    ascii, ascii_uppercase, copy_texts, decimal, optional_text, push_decimal, replace_char,
    replaced, slices, text_if, text_or_empty, texts, uppercase,
};
use vstd::prelude::*;

verus! {

/// A variable that tells cargo where a tool is.
#[derive(Debug)]
pub struct ToolVariable {
    pub variable: String,
    /// The components of the tool's path below the directory of the platform tools.
    pub path: Vec<String>,
}

/// A `ToolVariable` over sequences of characters.
pub struct ToolVariableView {
    pub variable: Seq<char>,
    pub path: Seq<Seq<char>>,
}

impl View for ToolVariable {
    type V = ToolVariableView;

    open spec fn view(&self) -> ToolVariableView {
        ToolVariableView { variable: self.variable@, path: texts(self.path@) }
    }
}

/// The variables of a list over sequences of characters.
pub open spec fn tool_variables_view(variables: Seq<ToolVariable>) -> Seq<ToolVariableView> {
    variables.map_values(|variable: ToolVariable| variable@)
}

/// The variable for a tool of LLVM.
pub open spec fn llvm_tool(variable: Seq<char>, tool: Seq<char>) -> ToolVariableView {
    ToolVariableView { variable, path: seq!["llvm"@, "bin"@, tool] }
}

/// The variables that make cargo use the tools of the platform.
pub open spec fn platform_tool_variables() -> Seq<ToolVariableView> {
    seq![
        llvm_tool("CC"@, "clang"@),
        llvm_tool("AR"@, "llvm-ar"@),
        llvm_tool("OBJDUMP"@, "llvm-objdump"@),
        llvm_tool("OBJCOPY"@, "llvm-objcopy"@),
    ]
}

/// The variable for a tool of LLVM.
fn tool_variable(variable: &str, tool: &str) -> (result: ToolVariable)
    ensures
        result@ == llvm_tool(variable@, tool@),
{
    let path = vec!["llvm".to_owned(), "bin".to_owned(), tool.to_owned()];
    assert(texts(path@) =~= seq!["llvm"@, "bin"@, tool@]);
    ToolVariable { variable: variable.to_owned(), path }
}

/// The variables that make cargo use the tools of the platform.
pub fn tool_variables() -> (variables: Vec<ToolVariable>)
    ensures
        tool_variables_view(variables@) == platform_tool_variables(),
{
    let variables = vec![
        tool_variable("CC", "clang"),
        tool_variable("AR", "llvm-ar"),
        tool_variable("OBJDUMP", "llvm-objdump"),
        tool_variable("OBJCOPY", "llvm-objcopy"),
    ];
    assert(tool_variables_view(variables@) =~= platform_tool_variables());
    variables
}

/// The variable with the compiler's flags for a target whose name in upper case is given.
pub open spec fn variable_of_upper(upper: Seq<char>) -> Seq<char> {
    "CARGO_TARGET_"@ + replaced(upper, '-', '_') + "_RUSTFLAGS"@
}

/// The variable with the compiler's flags for a target whose name in upper case is given.
pub fn variable_from_upper(upper: &str) -> (variable: String)
    ensures
        variable@ == variable_of_upper(upper@),
{
    let mut variable = "CARGO_TARGET_".to_owned();
    variable.append(replace_char(upper, '-', '_').as_str());
    variable.append("_RUSTFLAGS");
    variable
}

/// The variable with the compiler's flags for a target.
pub open spec fn flags_variable_of(target_triple: Seq<char>) -> Seq<char> {
    variable_of_upper(uppercase(target_triple))
}

/// The variable with the compiler's flags for a target: its name in upper case, with `_` for `-`.
pub fn flags_variable(target_triple: &str) -> (variable: String)
    ensures
        variable@ == flags_variable_of(target_triple@),
        ascii(target_triple@) ==> variable@ == variable_of_upper(ascii_uppercase(target_triple@)),
{
    let upper = target_triple.to_uppercase();
    variable_from_upper(upper.as_str())
}

/// The compiler's flags for the target: those of the user for all targets, those of the user for
/// this one, and those that the configuration asks for, in this order.
pub open spec fn target_flags(
    config: Config,
    rustflags: Option<Seq<char>>,
    target_rustflags: Option<Seq<char>>,
) -> Seq<char> {
    text_or_empty(rustflags) + " "@ + text_or_empty(target_rustflags) + text_if(
        config.remap_cwd && !config.debug,
        " -Zremap-cwd-prefix="@,
    ) + text_if(config.optimize_size, " -C opt-level=s"@) + text_if(
        config.lto,
        " -C embed-bitcode=yes -C lto=fat"@,
    ) + match config.sbf_stack_size {
        Some(size) => " -C llvm-args=-sbf-stack-size="@ + decimal(size as nat),
        None => Seq::empty(),
    }
}

/// The compiler's flags for the target.
pub fn compose_flags(
    config: &Config,
    rustflags: &Option<String>,
    target_rustflags: &Option<String>,
) -> (flags: String)
    ensures
        flags@ == target_flags(
            *config,
            optional_text(*rustflags),
            optional_text(*target_rustflags),
        ),
{
    let mut flags = String::new();
    if let Some(user) = rustflags {
        flags.append(user.as_str());
    }
    flags.append(" ");
    if let Some(user) = target_rustflags {
        flags.append(user.as_str());
    }
    if config.remap_cwd && !config.debug {
        flags.append(" -Zremap-cwd-prefix=");
    }
    if config.optimize_size {
        flags.append(" -C opt-level=s");
    }
    if config.lto {
        flags.append(" -C embed-bitcode=yes -C lto=fat");
    }
    if let Some(size) = config.sbf_stack_size {
        flags.append(" -C llvm-args=-sbf-stack-size=");
        push_decimal(&mut flags, size);
    }
    proof {
        assert(flags@ =~= target_flags(
            *config,
            optional_text(*rustflags),
            optional_text(*target_rustflags),
        ));
    }
    flags
}

/// A flag where its condition holds, and no argument where it does not.
pub open spec fn flag_if(condition: bool, flag: Seq<char>) -> Seq<Seq<char>> {
    if condition {
        seq![flag]
    } else {
        Seq::empty()
    }
}

/// The arguments that activate features: two for each.
pub open spec fn feature_arguments(features: Seq<Seq<char>>) -> Seq<Seq<char>> {
    Seq::new(
        2 * features.len(),
        |i: int|
            if i % 2 == 0 {
                "--features"@
            } else {
                features[i / 2]
            },
    )
}

/// The arguments that set the number of jobs, where one is given.
pub open spec fn jobs_arguments(jobs: Option<String>) -> Seq<Seq<char>> {
    match jobs {
        Some(jobs) => seq!["--jobs"@, jobs@],
        None => Seq::empty(),
    }
}

/// The arguments that stand before those that the user passes on to cargo.
pub open spec fn own_arguments(
    config: Config,
    target_triple: Seq<char>,
    toolchain_name: Seq<char>,
) -> Seq<Seq<char>> {
    flag_if(!config.no_rustup_override, "+"@ + toolchain_name) + seq![
        "build"@,
        "--target"@,
        target_triple,
    ] + flag_if(!config.debug, "--release"@) + flag_if(
        config.no_default_features,
        "--no-default-features"@,
    ) + feature_arguments(texts(config.features@)) + flag_if(config.verbose, "--verbose"@)
        + flag_if(config.quiet, "--quiet"@) + jobs_arguments(config.jobs) + flag_if(
        config.workspace,
        "--workspace"@,
    )
}

/// The arguments that cargo is called with.
pub open spec fn cargo_arguments(
    config: Config,
    target_triple: Seq<char>,
    toolchain_name: Seq<char>,
) -> Seq<Seq<char>> {
    own_arguments(config, target_triple, toolchain_name) + slices(config.cargo_args@)
}

/// Adds one argument to a list.
fn push_text(arguments: &mut Vec<String>, argument: &str)
    ensures
        texts(final(arguments)@) == texts(old(arguments)@).push(argument@),
{
    let ghost known = arguments@;
    arguments.push(argument.to_owned());
    proof {
        map_push(known, arguments@.last(), |s: String| s@);
    }
}

/// Adds a flag to a list where its condition holds.
fn push_flag(arguments: &mut Vec<String>, condition: bool, flag: &str)
    ensures
        texts(final(arguments)@) == texts(old(arguments)@) + flag_if(condition, flag@),
{
    if condition {
        push_text(arguments, flag);
    }
    assert(texts(arguments@) =~= texts(old(arguments)@) + flag_if(condition, flag@));
}

/// Adds the arguments that activate features to a list.
fn push_features(arguments: &mut Vec<String>, features: &Vec<String>)
    ensures
        texts(final(arguments)@) == texts(old(arguments)@) + feature_arguments(texts(features@)),
{
    let ghost before = texts(arguments@);
    let ghost names = texts(features@);
    let mut i: usize = 0;
    while i < features.len()
        invariant
            i <= features@.len(),
            names == texts(features@),
            texts(arguments@) == before + feature_arguments(names.take(i as int)),
        decreases features@.len() - i,
    {
        push_text(arguments, "--features");
        push_text(arguments, features[i].as_str());
        assert(feature_arguments(names.take(i + 1)) =~= feature_arguments(
            names.take(i as int),
        ).push("--features"@).push(names[i as int]));
        i += 1;
    }
    assert(names.take(i as int) =~= names);
}

/// The arguments that cargo is called with.
pub fn compose_arguments(config: &Config, target_triple: &str, toolchain_name: &str) -> (arguments:
    Vec<String>)
    ensures
        texts(arguments@) == cargo_arguments(*config, target_triple@, toolchain_name@),
{
    let mut toolchain = "+".to_owned();
    toolchain.append(toolchain_name);
    let mut arguments: Vec<String> = Vec::new();
    push_flag(&mut arguments, !config.no_rustup_override, toolchain.as_str());
    let ghost first = flag_if(!config.no_rustup_override, "+"@ + toolchain_name@);
    assert(texts(arguments@) =~= first);
    push_text(&mut arguments, "build");
    push_text(&mut arguments, "--target");
    push_text(&mut arguments, target_triple);
    assert(texts(arguments@) =~= first + seq!["build"@, "--target"@, target_triple@]);
    push_flag(&mut arguments, !config.debug, "--release");
    push_flag(&mut arguments, config.no_default_features, "--no-default-features");
    push_features(&mut arguments, &config.features);
    push_flag(&mut arguments, config.verbose, "--verbose");
    push_flag(&mut arguments, config.quiet, "--quiet");
    let ghost before = texts(arguments@);
    if let Some(jobs) = &config.jobs {
        push_text(&mut arguments, "--jobs");
        push_text(&mut arguments, jobs.as_str());
        assert(texts(arguments@) =~= before + seq!["--jobs"@, jobs@]);
    } else {
        assert(texts(arguments@) =~= before + Seq::<Seq<char>>::empty());
    }
    push_flag(&mut arguments, config.workspace, "--workspace");
    let ghost own = own_arguments(*config, target_triple@, toolchain_name@);
    assert(texts(arguments@) == own);
    let mut j: usize = 0;
    while j < config.cargo_args.len()
        invariant
            j <= config.cargo_args@.len(),
            texts(arguments@) == own + slices(config.cargo_args@).take(j as int),
        decreases config.cargo_args@.len() - j,
    {
        push_text(&mut arguments, config.cargo_args[j]);
        j += 1;
    }
    assert(slices(config.cargo_args@).take(j as int) =~= slices(config.cargo_args@));
    arguments
}

/// One call of cargo.
#[derive(Debug)]
pub struct CargoInvocation {
    /// The variables that are set to the tools of the platform.
    pub tools: Vec<ToolVariable>,
    /// Whether `RUSTFLAGS` is removed.
    pub removes_rustflags: bool,
    /// The variable that is set to the compiler's flags.
    pub flags_variable: String,
    /// The compiler's flags.
    pub flags: String,
    /// The arguments of cargo.
    pub arguments: Vec<String>,
    /// Whether a script that repeats the call is written if it fails.
    pub script_on_failure: bool,
}

/// A `CargoInvocation` over sequences of characters.
pub struct CargoInvocationView {
    pub tools: Seq<ToolVariableView>,
    pub removes_rustflags: bool,
    pub flags_variable: Seq<char>,
    pub flags: Seq<char>,
    pub arguments: Seq<Seq<char>>,
    pub script_on_failure: bool,
}

impl View for CargoInvocation {
    type V = CargoInvocationView;

    open spec fn view(&self) -> CargoInvocationView {
        CargoInvocationView {
            tools: tool_variables_view(self.tools@),
            removes_rustflags: self.removes_rustflags,
            flags_variable: self.flags_variable@,
            flags: self.flags@,
            arguments: texts(self.arguments@),
            script_on_failure: self.script_on_failure,
        }
    }
}

/// How cargo is called with the given target, toolchain, variable for the compiler's flags, and
/// flags of the user.
pub open spec fn cargo_invocation(
    config: Config,
    target_triple: Seq<char>,
    toolchain_name: Seq<char>,
    flags_variable: Seq<char>,
    rustflags: Option<Seq<char>>,
    target_rustflags: Option<Seq<char>>,
) -> CargoInvocationView {
    CargoInvocationView {
        tools: platform_tool_variables(),
        removes_rustflags: rustflags is Some,
        flags_variable,
        flags: target_flags(config, rustflags, target_rustflags),
        arguments: cargo_arguments(config, target_triple, toolchain_name),
        script_on_failure: config.generate_child_script_on_failure,
    }
}

/// Decides how cargo is called. The flags are those that the user set for all targets and for this
/// one, where they set any.
pub fn plan_cargo(
    config: &Config,
    target_triple: &str,
    toolchain_name: &str,
    flags_variable: String,
    rustflags: &Option<String>,
    target_rustflags: &Option<String>,
) -> (invocation: CargoInvocation)
    ensures
        invocation@ == cargo_invocation(
            *config,
            target_triple@,
            toolchain_name@,
            flags_variable@,
            optional_text(*rustflags),
            optional_text(*target_rustflags),
        ),
{
    CargoInvocation {
        tools: tool_variables(),
        removes_rustflags: rustflags.is_some(),
        flags_variable,
        flags: compose_flags(config, rustflags, target_rustflags),
        arguments: compose_arguments(config, target_triple, toolchain_name),
        script_on_failure: config.generate_child_script_on_failure,
    }
}

/// What deserves notice about the features.
pub open spec fn feature_notices_of(config: Config) -> Seq<NoticeView> {
    (if config.no_default_features {
        seq![NoticeView::NoDefaultFeatures]
    } else {
        Seq::empty()
    }) + (if config.features@.len() > 0 {
        seq![NoticeView::Features { features: texts(config.features@) }]
    } else {
        Seq::empty()
    })
}

/// What deserves notice about the features.
pub fn feature_notices(config: &Config) -> (notices: Vec<Notice>)
    ensures
        notices_view(notices@) == feature_notices_of(*config),
{
    let mut notices: Vec<Notice> = Vec::new();
    if config.no_default_features {
        notices.push(Notice::NoDefaultFeatures);
    }
    if config.features.len() > 0 {
        notices.push(Notice::Features { features: copy_texts(&config.features) });
    }
    assert(notices_view(notices@) =~= feature_notices_of(*config));
    notices
}

} // verus!
